//! Logical commands, decoded responses and the device's error-code space.

use vstd::prelude::*;

use crate::address::{Address, Zone};

verus! {

/// The kind of key a `GenKey` command creates.
#[derive(Clone, Copy, Debug, PartialEq, Eq, Structural)]
pub enum KeyType {
    Private,
    Public,
}

/// A named volatile buffer inside the device.  Its contents survive only
/// until the device sleeps or power-cycles.
#[derive(Clone, Copy, Debug, PartialEq, Eq, Structural)]
pub enum DataBuffer {
    TempKey,
    MessageDigest,
}

/// A device-reported error code.  Each code is statically classified as
/// recoverable (transient, safe to retry) or fatal.
#[derive(Clone, Copy, Debug, PartialEq, Eq, Structural)]
pub enum EccError {
    CheckMacMiscompare,
    ParseError,
    EccFault,
    SelfTestError,
    HealthTestError,
    ExecutionError,
    AfterWake,
    WatchdogAboutToExpire,
    CommsError,
}

impl EccError {
    /// The fixed recoverability classification of this code.
    pub open spec fn spec_recoverable(self) -> bool {
        match self {
            EccError::AfterWake => true,
            EccError::WatchdogAboutToExpire => true,
            EccError::CommsError => true,
            _ => false,
        }
    }

    pub fn is_recoverable(&self) -> (r: bool)
        ensures
            r == self.spec_recoverable(),
    {
        match self {
            EccError::AfterWake => true,
            EccError::WatchdogAboutToExpire => true,
            EccError::CommsError => true,
            _ => false,
        }
    }
}

/// An outbound request, built fresh for each exchange.
#[derive(Debug, PartialEq)]
pub enum EccCommand {
    Info,
    GenKey { key_type: KeyType, slot: u8 },
    Read { read_32: bool, address: Address },
    Write { address: Address, data: Vec<u8> },
    Lock { zone: Zone },
    Random,
    Nonce { target: DataBuffer, data: Vec<u8> },
    Sign { source: DataBuffer, slot: u8 },
    Ecdh { x: Vec<u8>, y: Vec<u8>, slot: u8 },
}

/// The mathematical image of a command: payloads as byte sequences.
pub enum CommandV {
    Info,
    GenKey { key_type: KeyType, slot: u8 },
    Read { read_32: bool, address: Address },
    Write { address: Address, data: Seq<u8> },
    Lock { zone: Zone },
    Random,
    Nonce { target: DataBuffer, data: Seq<u8> },
    Sign { source: DataBuffer, slot: u8 },
    Ecdh { x: Seq<u8>, y: Seq<u8>, slot: u8 },
}

impl View for EccCommand {
    type V = CommandV;

    open spec fn view(&self) -> CommandV {
        match self {
            EccCommand::Info => CommandV::Info,
            EccCommand::GenKey { key_type, slot } => CommandV::GenKey {
                key_type: *key_type,
                slot: *slot,
            },
            EccCommand::Read { read_32, address } => CommandV::Read {
                read_32: *read_32,
                address: *address,
            },
            EccCommand::Write { address, data } => CommandV::Write {
                address: *address,
                data: data@,
            },
            EccCommand::Lock { zone } => CommandV::Lock { zone: *zone },
            EccCommand::Random => CommandV::Random,
            EccCommand::Nonce { target, data } => CommandV::Nonce {
                target: *target,
                data: data@,
            },
            EccCommand::Sign { source, slot } => CommandV::Sign {
                source: *source,
                slot: *slot,
            },
            EccCommand::Ecdh { x, y, slot } => CommandV::Ecdh { x: x@, y: y@, slot: *slot },
        }
    }
}

/// Byte-for-byte copy of a payload.
fn copy_bytes(data: &Vec<u8>) -> (r: Vec<u8>)
    ensures
        r@ == data@,
{
    let r = data.clone();
    proof {
        assert forall|i: int| 0 <= i < data@.len() implies r@[i] == data@[i] by {
            assert(cloned::<u8>(data@[i], r@[i]));
        }
        assert(data@ =~= r@);
    }
    r
}

impl Clone for EccCommand {
    fn clone(&self) -> (r: Self)
        ensures
            r@ == self@,
    {
        match self {
            EccCommand::Info => EccCommand::Info,
            EccCommand::GenKey { key_type, slot } => EccCommand::GenKey {
                key_type: *key_type,
                slot: *slot,
            },
            EccCommand::Read { read_32, address } => EccCommand::Read {
                read_32: *read_32,
                address: *address,
            },
            EccCommand::Write { address, data } => EccCommand::Write {
                address: *address,
                data: copy_bytes(data),
            },
            EccCommand::Lock { zone } => EccCommand::Lock { zone: *zone },
            EccCommand::Random => EccCommand::Random,
            EccCommand::Nonce { target, data } => EccCommand::Nonce {
                target: *target,
                data: copy_bytes(data),
            },
            EccCommand::Sign { source, slot } => EccCommand::Sign {
                source: *source,
                slot: *slot,
            },
            EccCommand::Ecdh { x, y, slot } => EccCommand::Ecdh {
                x: copy_bytes(x),
                y: copy_bytes(y),
                slot: *slot,
            },
        }
    }
}

/// A decoded reply: a data payload, or a classified error code.
#[derive(Debug, PartialEq)]
pub enum EccResponse {
    Data(Vec<u8>),
    Error(EccError),
}

/// The mathematical image of a response.
pub enum ResponseV {
    Data(Seq<u8>),
    Error(EccError),
}

impl View for EccResponse {
    type V = ResponseV;

    open spec fn view(&self) -> ResponseV {
        match self {
            EccResponse::Data(d) => ResponseV::Data(d@),
            EccResponse::Error(e) => ResponseV::Error(*e),
        }
    }
}

impl Clone for EccResponse {
    fn clone(&self) -> (r: Self)
        ensures
            r@ == self@,
    {
        match self {
            EccResponse::Data(d) => EccResponse::Data(copy_bytes(d)),
            EccResponse::Error(e) => EccResponse::Error(*e),
        }
    }
}

} // verus!
