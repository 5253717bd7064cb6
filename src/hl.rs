//! The transmit/receive state machine: the register operations that start a
//! transmission or arm the receiver, how the status register is read while
//! the operation is polled, and the errors it reports.
use vstd::prelude::*;

use crate::time::Instant;

verus! {

/// An error that can occur when sending, receiving or decoding data
#[derive(Clone, Copy, Debug, PartialEq, Eq, Structural)]
pub enum Error {
    /// Receiver FCS error
    Fcs,
    /// PHY header error
    Phy,
    /// Buffer too small
    BufferTooSmall {
        /// Indicates how large a buffer would have been required
        required_len: usize,
    },
    /// Receiver Reed Solomon Frame Sync Loss
    ReedSolomon,
    /// Receiver Frame Wait Timeout
    FrameWaitTimeout,
    /// Receiver Overrun
    Overrun,
    /// Preamble Detection Timeout
    PreambleDetectionTimeout,
    /// Receiver SFD Timeout
    SfdTimeout,
    /// A message carried the right prelude but had the wrong length
    FrameLength {
        /// The length that a message of that type has
        required_len: usize,
    },
    /// A message carried a time stamp that does not fit in 40 bits
    TimeOutOfRange,
}

/// Transmit Frame Begins
pub const TXFRB: u64 = 0x10;
/// Transmit Preamble Sent
pub const TXPRS: u64 = 0x20;
/// Transmit PHY Header Sent
pub const TXPHS: u64 = 0x40;
/// Transmit Frame Sent
pub const TXFRS: u64 = 0x80;
/// Receiver Data Frame Ready
pub const RXDFR: u64 = 0x2000;
/// Receiver PHY Header Error
pub const RXPHE: u64 = 0x1000;
/// Receiver FCS Error
pub const RXFCE: u64 = 0x8000;
/// Receiver Reed Solomon Frame Sync Loss
pub const RXRFSL: u64 = 0x1_0000;
/// Receiver Frame Wait Timeout
pub const RXRFTO: u64 = 0x2_0000;
/// Receiver Overrun
pub const RXOVRR: u64 = 0x10_0000;
/// Preamble Detection Timeout
pub const RXPTO: u64 = 0x20_0000;
/// Receiver SFD Timeout
pub const RXSFDTO: u64 = 0x400_0000;
/// Clock PLL Losing Lock
pub const CPLOCK: u64 = 0x2;
/// Clock PLL Losing Lock, as reported by the PLL lock detector
pub const CLKPLL_LL: u64 = 0x200_0000;

/// The progress flags of a transmission, cleared together once the frame is
/// sent.
pub const TX_STATUS_CLEAR: u64 = 0xf0;

/// The flags of a reception, cleared together once a frame is ready:
/// preamble and SFD detected, LDE done, PHY header detected and error, data
/// frame ready, FCS good and error, Reed Solomon frame sync loss, frame wait
/// timeout, LDE error, overrun, preamble detection and SFD timeouts,
/// Reed-Solomon correction status and preamble rejection.
pub const RX_STATUS_CLEAR: u64 = 0x3_0437_ff00;

/// Whether a flag of `mask` is set in `status`.
pub open spec fn flag(status: u64, mask: u64) -> bool {
    status & mask != 0
}

/// The state of a transmission, as the status register shows it
#[derive(Clone, Copy, Debug, PartialEq, Eq, Structural)]
pub enum TxStatus {
    /// The frame has not been sent yet
    Pending,
    /// The frame has been sent; the progress flags are to be cleared
    Sent,
}

/// The state of a reception, as the status register shows it
#[derive(Clone, Copy, Debug, PartialEq, Eq, Structural)]
pub enum RxStatus {
    /// No frame yet
    Pending,
    /// The receiver reported an error
    Failed(Error),
    /// A frame is ready; the status flags are to be cleared and the frame read
    FrameReady,
}

/// What the status register says of a reception: the first error of the
/// priority order, else whether a frame is ready.
pub open spec fn rx_status_of(status: u64) -> RxStatus {
    if flag(status, RXFCE) {
        RxStatus::Failed(Error::Fcs)
    } else if flag(status, RXPHE) {
        RxStatus::Failed(Error::Phy)
    } else if flag(status, RXRFSL) {
        RxStatus::Failed(Error::ReedSolomon)
    } else if flag(status, RXRFTO) {
        RxStatus::Failed(Error::FrameWaitTimeout)
    } else if flag(status, RXOVRR) {
        RxStatus::Failed(Error::Overrun)
    } else if flag(status, RXPTO) {
        RxStatus::Failed(Error::PreambleDetectionTimeout)
    } else if flag(status, RXSFDTO) {
        RxStatus::Failed(Error::SfdTimeout)
    } else if flag(status, RXDFR) {
        RxStatus::FrameReady
    } else {
        RxStatus::Pending
    }
}

/// Reads the status register of a transmission
pub fn tx_status(sys_status: u64) -> (r: TxStatus)
    ensures
        r == (if flag(sys_status, TXFRS) {
            TxStatus::Sent
        } else {
            TxStatus::Pending
        }),
{
    if sys_status & TXFRS == 0 {
        TxStatus::Pending
    } else {
        TxStatus::Sent
    }
}

/// Reads the status register of a reception
///
/// The error flags are checked in order of priority, before the flag that
/// says a frame is ready. Leading edge detection errors and preamble
/// rejections are not checked: they occur on good frames too.
pub fn rx_status(sys_status: u64) -> (r: RxStatus)
    ensures
        r == rx_status_of(sys_status),
{
    if sys_status & RXFCE != 0 {
        return RxStatus::Failed(Error::Fcs);
    }
    if sys_status & RXPHE != 0 {
        return RxStatus::Failed(Error::Phy);
    }
    if sys_status & RXRFSL != 0 {
        return RxStatus::Failed(Error::ReedSolomon);
    }
    if sys_status & RXRFTO != 0 {
        return RxStatus::Failed(Error::FrameWaitTimeout);
    }
    if sys_status & RXOVRR != 0 {
        return RxStatus::Failed(Error::Overrun);
    }
    if sys_status & RXPTO != 0 {
        return RxStatus::Failed(Error::PreambleDetectionTimeout);
    }
    if sys_status & RXSFDTO != 0 {
        return RxStatus::Failed(Error::SfdTimeout);
    }
    if sys_status & RXDFR == 0 {
        RxStatus::Pending
    } else {
        RxStatus::FrameReady
    }
}

/// A checksum error is reported whenever its flag is set, also where a frame
/// is ready.
pub proof fn lemma_fcs_error_first(sys_status: u64)
    requires
        flag(sys_status, RXFCE),
    ensures
        rx_status_of(sys_status) == RxStatus::Failed(Error::Fcs),
{
}

/// The length of a received frame, from the frame information register
pub fn rx_frame_len(rx_finfo: u64) -> (r: usize)
    ensures
        r == rx_finfo % 128,
{
    assert(rx_finfo & 0x7f == rx_finfo % 128) by (bit_vector);
    (rx_finfo & 0x7f) as usize
}

/// Copies a received frame of `frame_len` bytes out of the receive buffer
/// contents `rx_data` into `buffer`
///
/// Where `buffer` is shorter than the frame, it is left as it is and the
/// length it would need is reported.
pub fn rx_copy_frame(frame_len: usize, rx_data: &Vec<u8>, buffer: &mut Vec<u8>) -> (r: Result<
    usize,
    Error,
>)
    requires
        frame_len <= rx_data@.len(),
    ensures
        final(buffer)@.len() == old(buffer)@.len(),
        old(buffer)@.len() < frame_len ==> r == Err::<usize, Error>(
            Error::BufferTooSmall { required_len: frame_len },
        ) && final(buffer)@ == old(buffer)@,
        old(buffer)@.len() >= frame_len ==> r == Ok::<usize, Error>(frame_len)
            && final(buffer)@ == rx_data@.subrange(0, frame_len as int) + old(buffer)@.subrange(
            frame_len as int,
            old(buffer)@.len() as int,
        ),
{
    if buffer.len() < frame_len {
        return Err(Error::BufferTooSmall { required_len: frame_len });
    }
    let mut i: usize = 0;
    while i < frame_len
        invariant
            frame_len <= rx_data@.len(),
            frame_len <= old(buffer)@.len(),
            i <= frame_len,
            buffer@.len() == old(buffer)@.len(),
            buffer@ == rx_data@.subrange(0, i as int) + old(buffer)@.subrange(
                i as int,
                old(buffer)@.len() as int,
            ),
        decreases frame_len - i,
    {
        buffer.set(i, rx_data[i]);
        i += 1;
        assert(buffer@ =~= rx_data@.subrange(0, i as int) + old(buffer)@.subrange(
            i as int,
            old(buffer)@.len() as int,
        ));
    }
    Ok(frame_len)
}

/// A register that sending or receiving programs
#[derive(Clone, Copy, Debug, PartialEq, Eq, Structural)]
pub enum Reg {
    /// Transmit Frame Control
    TxFctrl,
    /// Delayed Send or Receive Time
    DxTime,
    /// System Control
    SysCtrl,
    /// System Event Status
    SysStatus,
    /// External Clock Synchronisation Counter Configuration
    EcCtrl,
    /// Digital Tuning Register 2, in the receiver configuration block
    DrxTune2,
    /// Power Management System Control Register 0
    PmscCtrl0,
}

impl Reg {
    /// The register file index, the offset of the sub-register within it, and
    /// the number of bytes of the sub-register.
    pub open spec fn layout(self) -> (u8, u8, usize) {
        match self {
            Reg::TxFctrl => (0x08, 0, 5),
            Reg::DxTime => (0x0a, 0, 5),
            Reg::SysCtrl => (0x0d, 0, 4),
            Reg::SysStatus => (0x0f, 0, 5),
            Reg::EcCtrl => (0x24, 0, 4),
            Reg::DrxTune2 => (0x27, 0x08, 4),
            Reg::PmscCtrl0 => (0x36, 0, 4),
        }
    }

    /// The register file index
    pub fn id(&self) -> (r: u8)
        ensures
            r == self.layout().0,
            r < 64,
    {
        match self {
            Reg::TxFctrl => 0x08,
            Reg::DxTime => 0x0a,
            Reg::SysCtrl => 0x0d,
            Reg::SysStatus => 0x0f,
            Reg::EcCtrl => 0x24,
            Reg::DrxTune2 => 0x27,
            Reg::PmscCtrl0 => 0x36,
        }
    }

    /// The offset of the sub-register within the register file
    pub fn sub_index(&self) -> (r: u8)
        ensures
            r == self.layout().1,
            r < 128,
    {
        match self {
            Reg::DrxTune2 => 0x08,
            _ => 0,
        }
    }

    /// The number of bytes of the register
    pub fn len(&self) -> (r: usize)
        ensures
            r == self.layout().2,
            1 <= r <= 8,
    {
        match self {
            Reg::TxFctrl => 5,
            Reg::DxTime => 5,
            Reg::SysCtrl => 4,
            Reg::SysStatus => 5,
            Reg::EcCtrl => 4,
            Reg::DrxTune2 => 4,
            Reg::PmscCtrl0 => 4,
        }
    }
}

/// One step of programming the transceiver
#[derive(Clone, Copy, Debug, PartialEq, Eq, Structural)]
pub enum RegisterOp {
    /// Write the data to be sent into the transmit buffer
    WriteTxData,
    /// Write `value` to the register
    Write { register: Reg, value: u64 },
    /// Read the register, replace the bits under `mask` by those of `bits`,
    /// and write it back
    Modify { register: Reg, mask: u64, bits: u64 },
}

/// Start Transmitting, in the system control register
pub const TXSTRT: u64 = 0x2;
/// Transmitter Delayed Sending, in the system control register
pub const TXDLYS: u64 = 0x4;
/// Enable Receiver, in the system control register
pub const RXENAB: u64 = 0x100;
/// PLL lock detect enable, in the clock synchronisation configuration
pub const PLLLDT: u64 = 0x4;
/// The soft reset field of the power management control register
pub const SOFTRESET: u64 = 0xf000_0000;
/// The soft reset field with the receiver held in reset
pub const SOFTRESET_RX: u64 = 0xe000_0000;
/// The receiver tuning for a preamble of 64 symbols at 16 MHz PRF: PAC size 8
pub const DRX_TUNE2_PAC8_PRF16: u64 = 0x311a_002d;

/// The largest payload a standard frame carries, besides its two-byte
/// checksum
pub const MAX_PAYLOAD_LEN: usize = 125;

/// The transmit frame control value for a payload of `data_len` bytes: frame
/// length with the two-byte checksum, 850 kbps, 16 MHz PRF, a preamble of 64
/// symbols, no ranging bit, no offset and no delay between frames.
pub open spec fn tx_fctrl_of(data_len: int) -> int {
    (data_len + 2) + 0x2000 + 0x1_0000 + 0x4_0000
}

/// The steps that send a payload of `data_len` bytes, at `delayed_tx_time`
/// where it is given and at once otherwise.
pub open spec fn send_steps(data_len: int, delayed_tx_time: Option<Instant>) -> Seq<RegisterOp> {
    let prepare = seq![
        RegisterOp::WriteTxData,
        RegisterOp::Write { register: Reg::TxFctrl, value: tx_fctrl_of(data_len) as u64 },
    ];
    match delayed_tx_time {
        Some(t) => prepare + seq![
            RegisterOp::Write { register: Reg::DxTime, value: t@ },
            RegisterOp::Modify { register: Reg::SysCtrl, mask: TXSTRT | TXDLYS, bits: TXSTRT | TXDLYS },
        ],
        None => prepare + seq![
            RegisterOp::Modify { register: Reg::SysCtrl, mask: TXSTRT | TXDLYS, bits: TXSTRT },
        ],
    }
}

/// The steps that arm the receiver: a reset of the receiver, which can lock up
/// after a good frame; PLL lock detection, and the clearing of the flags
/// that depend on it; the receiver tuning; then the receiver is enabled.
pub open spec fn receive_steps() -> Seq<RegisterOp> {
    seq![
        RegisterOp::Modify { register: Reg::PmscCtrl0, mask: SOFTRESET, bits: SOFTRESET_RX },
        RegisterOp::Modify { register: Reg::PmscCtrl0, mask: SOFTRESET, bits: SOFTRESET },
        RegisterOp::Modify { register: Reg::EcCtrl, mask: PLLLDT, bits: PLLLDT },
        RegisterOp::Write { register: Reg::SysStatus, value: CPLOCK | CLKPLL_LL },
        RegisterOp::Write { register: Reg::DrxTune2, value: DRX_TUNE2_PAC8_PRF16 },
        RegisterOp::Modify { register: Reg::SysCtrl, mask: RXENAB, bits: RXENAB },
    ]
}

/// The steps that send a payload of `data_len` bytes, at once or at
/// `delayed_tx_time`
pub fn send_steps_for(data_len: usize, delayed_tx_time: Option<Instant>) -> (r: Vec<RegisterOp>)
    requires
        data_len <= MAX_PAYLOAD_LEN,
    ensures
        r@ == send_steps(data_len as int, delayed_tx_time),
{
    let mut r: Vec<RegisterOp> = Vec::new();
    r.push(RegisterOp::WriteTxData);
    let fctrl = (data_len as u64 + 2) + 0x2000 + 0x1_0000 + 0x4_0000;
    r.push(RegisterOp::Write { register: Reg::TxFctrl, value: fctrl });
    match delayed_tx_time {
        Some(t) => {
            r.push(RegisterOp::Write { register: Reg::DxTime, value: t.value() });
            r.push(RegisterOp::Modify { register: Reg::SysCtrl, mask: TXSTRT | TXDLYS, bits: TXSTRT | TXDLYS });
        },
        None => {
            r.push(RegisterOp::Modify { register: Reg::SysCtrl, mask: TXSTRT | TXDLYS, bits: TXSTRT });
        },
    }
    assert(r@ =~= send_steps(data_len as int, delayed_tx_time));
    r
}

/// The steps that arm the receiver
pub fn receive_steps_for() -> (r: Vec<RegisterOp>)
    ensures
        r@ == receive_steps(),
{
    let mut r: Vec<RegisterOp> = Vec::new();
    r.push(RegisterOp::Modify { register: Reg::PmscCtrl0, mask: SOFTRESET, bits: SOFTRESET_RX });
    r.push(RegisterOp::Modify { register: Reg::PmscCtrl0, mask: SOFTRESET, bits: SOFTRESET });
    r.push(RegisterOp::Modify { register: Reg::EcCtrl, mask: PLLLDT, bits: PLLLDT });
    r.push(RegisterOp::Write { register: Reg::SysStatus, value: CPLOCK | CLKPLL_LL });
    r.push(RegisterOp::Write { register: Reg::DrxTune2, value: DRX_TUNE2_PAC8_PRF16 });
    r.push(RegisterOp::Modify { register: Reg::SysCtrl, mask: RXENAB, bits: RXENAB });
    assert(r@ =~= receive_steps());
    r
}

/// The new value of a register that a `Modify` step with `mask` and `bits`
/// turns `current` into.
pub open spec fn modified(current: u64, mask: u64, bits: u64) -> u64 {
    (current & !mask) | (bits & mask)
}

/// Applies a `Modify` step to the current value of a register
pub fn modify_value(current: u64, mask: u64, bits: u64) -> (r: u64)
    ensures
        r == modified(current, mask, bits),
{
    (current & !mask) | (bits & mask)
}

} // verus!
