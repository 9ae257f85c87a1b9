use ecc608::command::{DataBuffer, EccCommand, EccError, EccResponse, KeyType};
use ecc608::ecc::Ecc;
use ecc608::error::Error;
use ecc608::transport::{Event, ExchangeOutcome, Transport};
use sha2::{Digest, Sha256};

fn controller(script: Vec<ExchangeOutcome>) -> Ecc {
    Ecc::from_transport(Transport::new(script))
}

fn data(bytes: Vec<u8>) -> ExchangeOutcome {
    ExchangeOutcome::Respond(EccResponse::Data(bytes))
}

#[test]
fn sign_issues_three_exchanges_in_order_and_sleeps_once() {
    let message = b"a message to sign";
    let signature = vec![0x5A; 64];
    let mut ecc = controller(vec![
        data(vec![0x11; 32]),
        data(vec![0x00]),
        data(signature.clone()),
    ]);
    let r = ecc.sign(2, message);
    assert_eq!(r, Ok(signature));

    let digest: Vec<u8> = Sha256::digest(message).to_vec();
    let events = &ecc.transport.events;
    assert_eq!(events.len(), 7);
    assert_eq!(events[0], Event::Wake);
    assert_eq!(events[1], Event::Exchange(3, EccCommand::Random));
    assert_eq!(events[2], Event::Wake);
    assert_eq!(
        events[3],
        Event::Exchange(
            3,
            EccCommand::Nonce { target: DataBuffer::MessageDigest, data: digest },
        )
    );
    assert_eq!(events[4], Event::Wake);
    assert_eq!(
        events[5],
        Event::Exchange(3, EccCommand::Sign { source: DataBuffer::MessageDigest, slot: 2 })
    );
    // Sleep is suppressed between the steps; only the last step sleeps.
    assert_eq!(events[6], Event::Sleep);
}

#[test]
fn sign_aborts_on_a_failed_first_step() {
    let mut ecc = controller(vec![ExchangeOutcome::Respond(EccResponse::Error(
        EccError::ExecutionError,
    ))]);
    assert_eq!(ecc.sign(0, b"data"), Err(Error::Ecc(EccError::ExecutionError)));
    // One attempt only: mid-sequence steps are never retried.
    assert_eq!(ecc.transport.events.len(), 2);
}

#[test]
fn sign_aborts_on_a_failed_digest_load() {
    let mut ecc = controller(vec![
        data(vec![0x11; 32]),
        ExchangeOutcome::Respond(EccResponse::Error(EccError::ExecutionError)),
        data(vec![0x5A; 64]),
    ]);
    assert_eq!(ecc.sign(0, b"data"), Err(Error::Ecc(EccError::ExecutionError)));
    let mut exchange_count: usize = 0;
    for e in ecc.transport.events.iter() {
        if matches!(e, Event::Exchange(_, _)) {
            exchange_count += 1;
        }
    }
    assert_eq!(exchange_count, 2);
}

#[test]
fn sign_does_not_retry_a_transport_failure() {
    let mut ecc = controller(vec![
        ExchangeOutcome::TransportFail,
        data(vec![0x11; 32]),
    ]);
    assert_eq!(ecc.sign(0, b"data"), Err(Error::Timeout));
}

#[test]
fn nonce_carries_the_given_payload() {
    let mut ecc = controller(vec![data(Vec::new())]);
    assert_eq!(ecc.nonce(DataBuffer::TempKey, &[1, 2, 3]), Ok(()));
    assert_eq!(
        ecc.transport.events[1],
        Event::Exchange(3, EccCommand::Nonce { target: DataBuffer::TempKey, data: vec![1, 2, 3] })
    );
}

#[test]
fn genkey_and_random_return_the_payload() {
    let mut ecc = controller(vec![data(vec![0x42; 64])]);
    assert_eq!(ecc.genkey(KeyType::Private, 0), Ok(vec![0x42; 64]));

    let mut ecc2 = controller(vec![data(vec![0x24; 32])]);
    assert_eq!(ecc2.random(), Ok(vec![0x24; 32]));
}

#[test]
fn ecdh_sends_both_coordinates() {
    let x = vec![0x01; 32];
    let y = vec![0x02; 32];
    let secret = vec![0x33; 32];
    let mut ecc = controller(vec![data(secret.clone())]);
    assert_eq!(ecc.ecdh(3, &x, &y), Ok(secret));
    assert_eq!(
        ecc.transport.events[1],
        Event::Exchange(3, EccCommand::Ecdh { x, y, slot: 3 })
    );
}
