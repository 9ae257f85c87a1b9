use ecc608::command::{EccCommand, EccError, EccResponse};
use ecc608::ecc::{Ecc, CMD_RETRIES};
use ecc608::error::Error;
use ecc608::transport::{Event, ExchangeOutcome, Transport};

fn controller(script: Vec<ExchangeOutcome>) -> Ecc {
    Ecc::from_transport(Transport::new(script))
}

fn exchanges(ecc: &Ecc) -> usize {
    let mut n: usize = 0;
    for e in ecc.transport.events.iter() {
        if matches!(e, Event::Exchange(_, _)) {
            n += 1;
        }
    }
    n
}

fn sleeps(ecc: &Ecc) -> usize {
    let mut n: usize = 0;
    for e in ecc.transport.events.iter() {
        if matches!(e, Event::Sleep) {
            n += 1;
        }
    }
    n
}

#[test]
fn empty_script_times_out_after_full_budget() {
    let mut ecc = controller(Vec::new());
    let r = ecc.random();
    assert_eq!(r, Err(Error::Timeout));
    assert_eq!(exchanges(&ecc), CMD_RETRIES as usize);
    assert_eq!(sleeps(&ecc), 0);
}

#[test]
fn transport_failures_only_time_out() {
    let mut script: Vec<ExchangeOutcome> = Vec::new();
    for _ in 0..CMD_RETRIES {
        script.push(ExchangeOutcome::TransportFail);
    }
    let mut ecc = controller(script);
    let r = ecc.get_info();
    assert_eq!(r, Err(Error::Timeout));
    assert_eq!(exchanges(&ecc), CMD_RETRIES as usize);
}

#[test]
fn recoverable_errors_then_data_succeeds() {
    let n: usize = 4;
    let mut script: Vec<ExchangeOutcome> = Vec::new();
    for _ in 0..n - 1 {
        script.push(ExchangeOutcome::Respond(EccResponse::Error(EccError::CommsError)));
    }
    script.push(ExchangeOutcome::Respond(EccResponse::Data(vec![0xAB, 0xCD])));
    let mut ecc = controller(script);
    let r = ecc.random();
    assert_eq!(r, Ok(vec![0xAB, 0xCD]));
    // No more attempts than needed were made.
    assert_eq!(exchanges(&ecc), n);
}

#[test]
fn sleep_follows_only_a_data_response() {
    // Two recoverable errors, then data: the errors leave the device
    // awake, and the single sleep comes after the final data response.
    let mut ecc = controller(vec![
        ExchangeOutcome::Respond(EccResponse::Error(EccError::CommsError)),
        ExchangeOutcome::Respond(EccResponse::Error(EccError::AfterWake)),
        ExchangeOutcome::Respond(EccResponse::Data(vec![0x01])),
    ]);
    assert_eq!(ecc.random(), Ok(vec![0x01]));
    assert_eq!(sleeps(&ecc), 1);
    assert_eq!(ecc.transport.events.last(), Some(&Event::Sleep));
}

#[test]
fn no_sleep_after_a_device_error() {
    let mut ecc = controller(vec![ExchangeOutcome::Respond(EccResponse::Error(
        EccError::ExecutionError,
    ))]);
    assert_eq!(ecc.random(), Err(Error::Ecc(EccError::ExecutionError)));
    assert_eq!(sleeps(&ecc), 0);
}

#[test]
fn fatal_error_surfaces_at_once() {
    let mut ecc = controller(vec![
        ExchangeOutcome::Respond(EccResponse::Error(EccError::ExecutionError)),
        ExchangeOutcome::Respond(EccResponse::Data(vec![1])),
    ]);
    let r = ecc.random();
    assert_eq!(r, Err(Error::Ecc(EccError::ExecutionError)));
    assert_eq!(exchanges(&ecc), 1);
}

#[test]
fn recoverable_errors_exhaust_into_device_error() {
    let mut script: Vec<ExchangeOutcome> = Vec::new();
    for _ in 0..CMD_RETRIES {
        script.push(ExchangeOutcome::Respond(EccResponse::Error(
            EccError::WatchdogAboutToExpire,
        )));
    }
    let mut ecc = controller(script);
    let r = ecc.random();
    assert_eq!(r, Err(Error::Ecc(EccError::WatchdogAboutToExpire)));
    assert_eq!(exchanges(&ecc), CMD_RETRIES as usize);
}

#[test]
fn malformed_response_is_not_retried() {
    let mut ecc = controller(vec![
        ExchangeOutcome::Malformed,
        ExchangeOutcome::Respond(EccResponse::Data(vec![1])),
    ]);
    let r = ecc.random();
    assert_eq!(r, Err(Error::Decode));
    assert_eq!(exchanges(&ecc), 1);
    // Decode failure surfaces before any sleep.
    assert_eq!(sleeps(&ecc), 0);
}

#[test]
fn each_attempt_wakes_and_frames_the_command() {
    let mut ecc = controller(vec![
        ExchangeOutcome::TransportFail,
        ExchangeOutcome::Respond(EccResponse::Data(vec![7])),
    ]);
    let r = ecc.get_info();
    assert_eq!(r, Ok(vec![7]));
    let events = &ecc.transport.events;
    assert_eq!(events.len(), 5);
    assert_eq!(events[0], Event::Wake);
    assert_eq!(events[1], Event::Exchange(3, EccCommand::Info));
    assert_eq!(events[2], Event::Wake);
    assert_eq!(events[3], Event::Exchange(3, EccCommand::Info));
    assert_eq!(events[4], Event::Sleep);
}

#[test]
fn from_path_has_no_device_behind_it() {
    let mut ecc = Ecc::from_path("/dev/i2c-1", 0x60).unwrap();
    assert_eq!(ecc.get_info(), Err(Error::Timeout));
}
