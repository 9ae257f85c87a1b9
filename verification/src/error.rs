//! Terminal failures of controller operations.

use vstd::prelude::*;

use crate::command::EccError;

verus! {

/// The single terminal error a public operation can return.  Validation
/// failures are raised before any exchange; `Timeout` means every attempt
/// failed at the transport level; `Ecc` carries a device-reported error that
/// was fatal or had exhausted the retry budget; `Decode` means the response
/// could not be decoded and was not retried.
#[derive(Clone, Copy, Debug, PartialEq, Eq, Structural)]
pub enum Error {
    InvalidSlot(u8),
    InvalidAddress,
    Timeout,
    Ecc(EccError),
    Decode,
}

} // verus!
