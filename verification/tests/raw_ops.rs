use ecc608::address::{Address, Zone};
use ecc608::command::{EccCommand, EccResponse};
use ecc608::ecc::Ecc;
use ecc608::transport::{Event, ExchangeOutcome, Transport};

fn controller(script: Vec<ExchangeOutcome>) -> Ecc {
    Ecc::from_transport(Transport::new(script))
}

fn data(bytes: Vec<u8>) -> ExchangeOutcome {
    ExchangeOutcome::Respond(EccResponse::Data(bytes))
}

#[test]
fn read_passes_the_address_through() {
    let address = Address::config(1, 3).unwrap();
    let mut ecc = controller(vec![data(vec![9, 8, 7, 6])]);
    assert_eq!(ecc.read(false, &address), Ok(vec![9, 8, 7, 6]));
    assert_eq!(
        ecc.transport.events[1],
        Event::Exchange(3, EccCommand::Read { read_32: false, address })
    );
}

#[test]
fn write_sends_the_exact_bytes() {
    let address = Address::config(2, 6).unwrap();
    let mut ecc = controller(vec![data(Vec::new())]);
    assert_eq!(ecc.write(&address, &[0xCA, 0xFE, 0x00, 0x01]), Ok(()));
    assert_eq!(
        ecc.transport.events[1],
        Event::Exchange(
            3,
            EccCommand::Write { address, data: vec![0xCA, 0xFE, 0x00, 0x01] },
        )
    );
    assert_eq!(ecc.transport.events[2], Event::Sleep);
}

#[test]
fn every_address_carries_its_zone() {
    let a = Address::config(0, 2).unwrap();
    assert_eq!(a.zone, Zone::Config);
}
