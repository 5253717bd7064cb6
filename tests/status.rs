use dw1000::hl::{
    modify_value, receive_steps_for, rx_copy_frame, rx_frame_len, rx_status, send_steps_for,
    tx_status, Reg, RegisterOp, RxStatus, TxStatus, RXDFR, RXFCE, RXOVRR, RXPHE, RXPTO, RXRFSL,
    RXRFTO, RXSFDTO, TXDLYS, TXFRS, TXSTRT,
};
use dw1000::{Error, Instant};

#[test]
fn tx_pending_until_frame_sent() {
    assert_eq!(tx_status(0), TxStatus::Pending);
    assert_eq!(tx_status(0x70), TxStatus::Pending);
    assert_eq!(tx_status(TXFRS), TxStatus::Sent);
    assert_eq!(tx_status(0xf0), TxStatus::Sent);
}

#[test]
fn rx_pending_without_flags() {
    assert_eq!(rx_status(0), RxStatus::Pending);
}

#[test]
fn rx_frame_ready() {
    assert_eq!(rx_status(RXDFR), RxStatus::FrameReady);
}

#[test]
fn rx_checksum_error_beats_frame_ready() {
    assert_eq!(rx_status(RXFCE | RXDFR), RxStatus::Failed(Error::Fcs));
}

#[test]
fn rx_errors_in_priority_order() {
    let all = RXFCE | RXPHE | RXRFSL | RXRFTO | RXOVRR | RXPTO | RXSFDTO | RXDFR;
    assert_eq!(rx_status(all), RxStatus::Failed(Error::Fcs));
    assert_eq!(rx_status(all & !RXFCE), RxStatus::Failed(Error::Phy));
    let s = all & !RXFCE & !RXPHE;
    assert_eq!(rx_status(s), RxStatus::Failed(Error::ReedSolomon));
    let s = s & !RXRFSL;
    assert_eq!(rx_status(s), RxStatus::Failed(Error::FrameWaitTimeout));
    let s = s & !RXRFTO;
    assert_eq!(rx_status(s), RxStatus::Failed(Error::Overrun));
    let s = s & !RXOVRR;
    assert_eq!(rx_status(s), RxStatus::Failed(Error::PreambleDetectionTimeout));
    let s = s & !RXPTO;
    assert_eq!(rx_status(s), RxStatus::Failed(Error::SfdTimeout));
    let s = s & !RXSFDTO;
    assert_eq!(rx_status(s), RxStatus::FrameReady);
}

#[test]
fn rx_benign_flags_are_ignored() {
    // leading edge detection error and preamble rejection
    let ldeerr = 1u64 << 18;
    let rxprej = 1u64 << 33;
    assert_eq!(rx_status(ldeerr | rxprej), RxStatus::Pending);
    assert_eq!(rx_status(ldeerr | rxprej | RXDFR), RxStatus::FrameReady);
}

#[test]
fn buffer_too_small_leaves_buffer_alone() {
    let rx_data: Vec<u8> = (0..32).collect();
    let mut buffer = vec![9u8; 5];
    let r = rx_copy_frame(10, &rx_data, &mut buffer);
    assert_eq!(r, Err(Error::BufferTooSmall { required_len: 10 }));
    assert_eq!(buffer, vec![9u8; 5]);
}

#[test]
fn frame_copied_into_buffer() {
    let rx_data: Vec<u8> = (0..32).collect();
    let mut buffer = vec![9u8; 6];
    let r = rx_copy_frame(4, &rx_data, &mut buffer);
    assert_eq!(r, Ok(4));
    assert_eq!(buffer, vec![0, 1, 2, 3, 9, 9]);
    let mut exact = vec![0u8; 4];
    assert_eq!(rx_copy_frame(4, &rx_data, &mut exact), Ok(4));
    assert_eq!(exact, vec![0, 1, 2, 3]);
}

#[test]
fn frame_length_from_frame_info() {
    assert_eq!(rx_frame_len(0x0000_0014), 20);
    assert_eq!(rx_frame_len(0xffff_ff85), 5);
}

#[test]
fn send_steps_immediate() {
    let steps = send_steps_for(20, None);
    assert_eq!(steps.len(), 3);
    assert_eq!(steps[0], RegisterOp::WriteTxData);
    assert_eq!(steps[1], RegisterOp::Write { register: Reg::TxFctrl, value: 0x5_2016 });
    assert_eq!(
        steps[2],
        RegisterOp::Modify { register: Reg::SysCtrl, mask: TXSTRT | TXDLYS, bits: TXSTRT }
    );
}

#[test]
fn send_steps_delayed() {
    let t = Instant::new(0x12_3456_7890).unwrap();
    let steps = send_steps_for(48, Some(t));
    assert_eq!(steps.len(), 4);
    assert_eq!(steps[1], RegisterOp::Write { register: Reg::TxFctrl, value: 0x5_2032 });
    assert_eq!(steps[2], RegisterOp::Write { register: Reg::DxTime, value: 0x12_3456_7890 });
    assert_eq!(
        steps[3],
        RegisterOp::Modify { register: Reg::SysCtrl, mask: TXSTRT | TXDLYS, bits: TXSTRT | TXDLYS }
    );
}

#[test]
fn receive_steps_reset_then_enable() {
    let steps = receive_steps_for();
    assert_eq!(steps.len(), 6);
    assert_eq!(
        steps[0],
        RegisterOp::Modify { register: Reg::PmscCtrl0, mask: 0xf000_0000, bits: 0xe000_0000 }
    );
    assert_eq!(
        steps[1],
        RegisterOp::Modify { register: Reg::PmscCtrl0, mask: 0xf000_0000, bits: 0xf000_0000 }
    );
    assert_eq!(steps[3], RegisterOp::Write { register: Reg::SysStatus, value: 0x200_0002 });
    assert_eq!(steps[4], RegisterOp::Write { register: Reg::DrxTune2, value: 0x311a_002d });
    assert_eq!(steps[5], RegisterOp::Modify { register: Reg::SysCtrl, mask: 0x100, bits: 0x100 });
}

#[test]
fn modify_keeps_other_bits() {
    assert_eq!(modify_value(0x0000_00f0, 0x6, 0x2), 0x0000_00f2);
    assert_eq!(modify_value(0x1234_5678, 0xf000_0000, 0xe000_0000), 0xe234_5678);
}
