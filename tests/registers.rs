use dw1000::ll::{make_header, Register, DEV_ID, EUI, PANADR};

#[test]
fn dev_id_should_provide_access_to_its_fields() {
    let dev_id = DEV_ID([0x00, 0x30, 0x01, 0xca, 0xde]);

    assert_eq!(dev_id.rev(), 0);
    assert_eq!(dev_id.ver(), 3);
    assert_eq!(dev_id.model(), 1);
    assert_eq!(dev_id.ridtag(), 0xDECA);
}

#[test]
fn eui_should_provide_access_to_its_field() {
    let eui = EUI([0x00, 0x12, 0x34, 0x56, 0x78, 0x9a, 0xbc, 0xde, 0xf0]);

    assert_eq!(eui.eui(), 0xf0debc9a78563412);

    let mut eui = EUI::new();
    assert_eq!(eui.eui(), 0);
    eui.set_eui(0xf0debc9a78563412);
    assert_eq!(eui.eui(), 0xf0debc9a78563412);
}

#[test]
fn panadr_should_provide_access_to_its_fields() {
    let panadr = PANADR([0x00, 0x01, 0x23, 0x45, 0x67]);

    assert_eq!(panadr.short_addr(), 0x2301);
    assert_eq!(panadr.pan_id(), 0x6745);

    let panadr = PANADR::new();

    assert_eq!(panadr.short_addr(), 0);
    assert_eq!(panadr.pan_id(), 0);

    let panadr = panadr.set_short_addr(0x2301);
    assert_eq!(panadr.short_addr(), 0x2301);

    let panadr = panadr.set_pan_id(0x6745);
    assert_eq!(panadr.pan_id(), 0x6745);
}

#[test]
fn set_eui_writes_bytes_least_significant_first() {
    let mut eui = EUI::new();
    eui.set_eui(0x0807060504030201);
    assert_eq!(eui.0, [0, 1, 2, 3, 4, 5, 6, 7, 8]);
}

#[test]
fn header_carries_write_bit_and_index() {
    assert_eq!(make_header(0x01, false), 0x01);
    assert_eq!(make_header(0x03, true), 0x83);
    assert_eq!(make_header(0x7f, true), 0xbf);
}

#[test]
fn register_ids_and_lengths() {
    assert_eq!(DEV_ID::id(), 0x00);
    assert_eq!(EUI::id(), 0x01);
    assert_eq!(PANADR::id(), 0x03);
    assert_eq!(EUI::len(), 8);
}
