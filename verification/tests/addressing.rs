use ecc608::address::{Address, Zone, MAX_SLOT};
use ecc608::error::Error;

#[test]
fn config_address_in_range() {
    let a = Address::config(0, 0).unwrap();
    assert_eq!(a.zone, Zone::Config);
    assert_eq!(a.block, 0);
    assert_eq!(a.offset, 0);

    let b = Address::config(3, 7).unwrap();
    assert_eq!(b.block, 3);
    assert_eq!(b.offset, 7);
}

#[test]
fn config_address_out_of_range() {
    assert_eq!(Address::config(4, 0), Err(Error::InvalidAddress));
    assert_eq!(Address::config(0, 8), Err(Error::InvalidAddress));
}

#[test]
fn slot_config_addresses() {
    // Word 5 + slot / 2: slots 0..=5 land in block 0, slots 6..=15 in block 1.
    let a0 = Address::slot_config(0).unwrap();
    assert_eq!((a0.zone, a0.block, a0.offset), (Zone::Config, 0, 5));

    let a5 = Address::slot_config(5).unwrap();
    assert_eq!((a5.block, a5.offset), (0, 7));

    let a6 = Address::slot_config(6).unwrap();
    assert_eq!((a6.block, a6.offset), (1, 0));

    let a15 = Address::slot_config(15).unwrap();
    assert_eq!((a15.block, a15.offset), (1, 4));
}

#[test]
fn key_config_addresses() {
    // Word 24 + slot / 2: always block 3.
    let a0 = Address::key_config(0).unwrap();
    assert_eq!((a0.zone, a0.block, a0.offset), (Zone::Config, 3, 0));

    let a9 = Address::key_config(9).unwrap();
    assert_eq!((a9.block, a9.offset), (3, 4));

    let a15 = Address::key_config(15).unwrap();
    assert_eq!((a15.block, a15.offset), (3, 7));
}

#[test]
fn paired_slots_share_a_register() {
    for slot in 0..=MAX_SLOT {
        let own = Address::slot_config(slot).unwrap();
        let paired = Address::slot_config(slot ^ 1).unwrap();
        assert_eq!(own, paired);
    }
}

#[test]
fn slot_out_of_range_is_rejected() {
    assert_eq!(Address::slot_config(16), Err(Error::InvalidSlot(16)));
    assert_eq!(Address::key_config(16), Err(Error::InvalidSlot(16)));
    assert_eq!(Address::slot_config(255), Err(Error::InvalidSlot(255)));
}
