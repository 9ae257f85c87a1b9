//! Resolution of logical coordinates into the device's register memory map.

use vstd::prelude::*;

use crate::error::Error;

verus! {

/// The highest slot index the device offers.
pub const MAX_SLOT: u8 = 15;

/// A logical region of the device's memory map, with its own lock state.
#[derive(Clone, Copy, Debug, PartialEq, Eq, Structural)]
pub enum Zone {
    Config,
    Data,
}

/// A resolved location in the device's memory map: a four-byte word selected
/// by zone, block and word offset.
#[derive(Clone, Copy, Debug, PartialEq, Eq, Structural)]
pub struct Address {
    pub zone: Zone,
    pub block: u8,
    pub offset: u8,
}

impl Address {
    /// The word index this address selects within its zone.
    pub open spec fn word(self) -> int {
        self.block * 8 + self.offset
    }

    /// The block/offset pair lies inside the config zone's valid range
    /// (four blocks of eight words).
    pub open spec fn wf(self) -> bool {
        self.block <= 3 && self.offset <= 7
    }

    pub open spec fn spec_config(block: u8, offset: u8) -> Address {
        Address { zone: Zone::Config, block, offset }
    }

    /// The config-zone word that holds the slot-configuration field of
    /// `slot` and of its paired slot: word `5 + slot / 2`.
    pub open spec fn spec_slot_config(slot: u8) -> Address {
        Address {
            zone: Zone::Config,
            block: ((5 + slot / 2) / 8) as u8,
            offset: ((5 + slot / 2) % 8) as u8,
        }
    }

    /// The config-zone word that holds the key-configuration field of
    /// `slot` and of its paired slot: word `24 + slot / 2`, in block 3.
    pub open spec fn spec_key_config(slot: u8) -> Address {
        Address { zone: Zone::Config, block: 3, offset: (slot / 2) as u8 }
    }

    /// Resolve a config-zone address from a block and word offset.
    pub fn config(block: u8, offset: u8) -> (r: Result<Address, Error>)
        ensures
            block <= 3 && offset <= 7 ==> r == Ok::<Address, Error>(
                Address::spec_config(block, offset),
            ) && Address::spec_config(block, offset).wf(),
            !(block <= 3 && offset <= 7) ==> r == Err::<Address, Error>(Error::InvalidAddress),
    {
        if block <= 3 && offset <= 7 {
            Ok(Address { zone: Zone::Config, block, offset })
        } else {
            Err(Error::InvalidAddress)
        }
    }

    /// Resolve the register that holds the slot-configuration field of
    /// `slot`.  Rejects a slot above [`MAX_SLOT`] before any exchange.
    pub fn slot_config(slot: u8) -> (r: Result<Address, Error>)
        ensures
            slot <= MAX_SLOT ==> r == Ok::<Address, Error>(Address::spec_slot_config(slot))
                && Address::spec_slot_config(slot).wf(),
            slot > MAX_SLOT ==> r == Err::<Address, Error>(Error::InvalidSlot(slot)),
    {
        if slot > MAX_SLOT {
            return Err(Error::InvalidSlot(slot));
        }
        let word: u8 = 5 + slot / 2;
        Ok(Address { zone: Zone::Config, block: word / 8, offset: word % 8 })
    }

    /// Resolve the register that holds the key-configuration field of
    /// `slot`.  Rejects a slot above [`MAX_SLOT`] before any exchange.
    pub fn key_config(slot: u8) -> (r: Result<Address, Error>)
        ensures
            slot <= MAX_SLOT ==> r == Ok::<Address, Error>(Address::spec_key_config(slot))
                && Address::spec_key_config(slot).wf(),
            slot > MAX_SLOT ==> r == Err::<Address, Error>(Error::InvalidSlot(slot)),
    {
        if slot > MAX_SLOT {
            return Err(Error::InvalidSlot(slot));
        }
        Ok(Address { zone: Zone::Config, block: 3, offset: slot / 2 })
    }
}

} // verus!
