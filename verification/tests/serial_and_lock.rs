use ecc608::address::Zone;
use ecc608::command::EccResponse;
use ecc608::ecc::Ecc;
use ecc608::error::Error;
use ecc608::transport::{ExchangeOutcome, Transport};

fn controller(script: Vec<ExchangeOutcome>) -> Ecc {
    Ecc::from_transport(Transport::new(script))
}

fn data(bytes: Vec<u8>) -> ExchangeOutcome {
    ExchangeOutcome::Respond(EccResponse::Data(bytes))
}

/// A 32-byte config block whose serial window meets the device contract.
fn config_block() -> Vec<u8> {
    let mut block = vec![0u8; 32];
    block[0] = 0x01;
    block[1] = 0x23;
    block[2] = 0x9A;
    block[3] = 0x51;
    block[8] = 0x04;
    block[9] = 0x05;
    block[10] = 0x06;
    block[11] = 0x07;
    block[12] = 0xEE;
    block
}

#[test]
fn serial_is_nine_bytes_with_fixed_markers() {
    let mut ecc = controller(vec![data(config_block())]);
    let serial = ecc.get_serial().unwrap();
    assert_eq!(serial.len(), 9);
    assert_eq!(serial[0], 0x01);
    assert_eq!(serial[1], 0x23);
    assert_eq!(serial[8], 0xEE);
    assert_eq!(serial, vec![0x01, 0x23, 0x9A, 0x51, 0x04, 0x05, 0x06, 0x07, 0xEE]);
}

#[test]
fn serial_skips_bytes_four_to_seven() {
    let mut block = config_block();
    block[4] = 0xFF;
    block[5] = 0xFF;
    block[6] = 0xFF;
    block[7] = 0xFF;
    let mut ecc = controller(vec![data(block)]);
    let serial = ecc.get_serial().unwrap();
    for b in serial.iter() {
        assert_ne!(*b, 0xFF);
    }
}

#[test]
fn short_serial_window_is_a_decode_failure() {
    let mut ecc = controller(vec![data(vec![0x01, 0x23, 0x00])]);
    assert_eq!(ecc.get_serial(), Err(Error::Decode));
}

#[test]
fn data_zone_lock_byte_is_third() {
    // Lock window: byte 2 is the data zone, byte 3 the config zone.
    let mut ecc = controller(vec![data(vec![0x00, 0x00, 0x55, 0x00])]);
    assert_eq!(ecc.get_locked(&Zone::Data), Ok(false));

    let mut ecc2 = controller(vec![data(vec![0x00, 0x00, 0x00, 0x55])]);
    assert_eq!(ecc2.get_locked(&Zone::Data), Ok(true));
}

#[test]
fn config_zone_lock_byte_is_fourth() {
    let mut ecc = controller(vec![data(vec![0x00, 0x00, 0x00, 0x55])]);
    assert_eq!(ecc.get_locked(&Zone::Config), Ok(false));

    let mut ecc2 = controller(vec![data(vec![0x00, 0x00, 0x55, 0x54])]);
    assert_eq!(ecc2.get_locked(&Zone::Config), Ok(true));
}

#[test]
fn set_locked_acknowledged() {
    let mut ecc = controller(vec![data(Vec::new())]);
    assert_eq!(ecc.set_locked(Zone::Data), Ok(()));
}
