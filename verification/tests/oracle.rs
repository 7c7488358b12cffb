use brl_oracle::manager::{initialize_oracle, update_price, InitializeOracle, OracleSlot, UpdatePrice};
use brl_oracle::record::{Address, Identity, OracleError, PriceOracle};

fn ident(tag: u8) -> Identity {
    Identity { bytes: [tag; 32] }
}

fn addr(tag: u8) -> Address {
    Address { bytes: [tag; 32] }
}

/// A slot initialized by authority `a` at time 1_700_000_000 with bump 254.
fn initialized_slot(a: Identity) -> OracleSlot {
    let mut slot = OracleSlot::new(addr(9));
    let r = initialize_oracle(&mut slot, InitializeOracle { authority: a, bump: 254 }, Some(1_700_000_000));
    assert_eq!(r, Ok(()));
    slot
}

#[test]
fn initialize_sets_authority_zero_price_timestamp_and_bump() {
    let a = ident(1);
    let slot = initialized_slot(a);
    let rec = slot.read().expect("record must exist after initialization");
    assert_eq!(
        rec,
        PriceOracle { authority: a, usd_brl_price: 0, last_update: 1_700_000_000, bump: 254 }
    );
}

#[test]
fn initialize_without_clock_fails_and_creates_nothing() {
    let mut slot = OracleSlot::new(addr(9));
    let r = initialize_oracle(&mut slot, InitializeOracle { authority: ident(1), bump: 254 }, None);
    assert_eq!(r, Err(OracleError::ClockUnavailable));
    assert_eq!(slot.read(), None);
}

#[test]
fn update_by_authority_sets_price_and_timestamp() {
    let a = ident(1);
    let mut slot = initialized_slot(a);
    let ctx = UpdatePrice { authority: a, supplied_address: addr(9) };
    let r = update_price(&mut slot, ctx, 5_850_000, Some(1_700_000_060));
    assert_eq!(r, Ok(()));
    let rec = slot.read().unwrap();
    assert_eq!(rec.usd_brl_price, 5_850_000);
    assert_eq!(rec.last_update, 1_700_000_060);
    assert_eq!(rec.authority, a);
    assert_eq!(rec.bump, 254);
}

#[test]
fn update_by_other_caller_fails_unauthorized_and_changes_nothing() {
    let a = ident(1);
    let b = ident(2);
    let mut slot = initialized_slot(a);
    let r = update_price(
        &mut slot,
        UpdatePrice { authority: a, supplied_address: addr(9) },
        5_850_000,
        Some(1_700_000_060),
    );
    assert_eq!(r, Ok(()));
    let before = slot.read().unwrap();

    let r = update_price(
        &mut slot,
        UpdatePrice { authority: b, supplied_address: addr(9) },
        1,
        Some(1_700_000_120),
    );
    assert_eq!(r, Err(OracleError::Unauthorized));
    assert_eq!(slot.read().unwrap(), before);
}

#[test]
fn second_initialize_fails_already_initialized_and_changes_nothing() {
    let a = ident(1);
    let c = ident(3);
    let mut slot = initialized_slot(a);
    let r = update_price(
        &mut slot,
        UpdatePrice { authority: a, supplied_address: addr(9) },
        5_850_000,
        Some(1_700_000_060),
    );
    assert_eq!(r, Ok(()));
    let before = slot.read().unwrap();

    let r = initialize_oracle(&mut slot, InitializeOracle { authority: c, bump: 254 }, Some(1_700_000_180));
    assert_eq!(r, Err(OracleError::AlreadyInitialized));
    assert_eq!(slot.read().unwrap(), before);
    assert_eq!(slot.read().unwrap().authority, a);
}

#[test]
fn update_to_zero_succeeds() {
    let a = ident(1);
    let mut slot = initialized_slot(a);
    let ctx = UpdatePrice { authority: a, supplied_address: addr(9) };
    assert_eq!(update_price(&mut slot, ctx, 5_850_000, Some(1_700_000_060)), Ok(()));
    assert_eq!(update_price(&mut slot, ctx, 0, Some(1_700_000_120)), Ok(()));
    let rec = slot.read().unwrap();
    assert_eq!(rec.usd_brl_price, 0);
    assert_eq!(rec.last_update, 1_700_000_120);
}

#[test]
fn update_without_clock_fails_and_changes_nothing() {
    let a = ident(1);
    let mut slot = initialized_slot(a);
    let before = slot.read().unwrap();
    let r = update_price(
        &mut slot,
        UpdatePrice { authority: a, supplied_address: addr(9) },
        7_000_000,
        None,
    );
    assert_eq!(r, Err(OracleError::ClockUnavailable));
    assert_eq!(slot.read().unwrap(), before);
}

#[test]
fn update_at_wrong_address_fails_address_mismatch() {
    let a = ident(1);
    let mut slot = initialized_slot(a);
    let before = slot.read().unwrap();
    let r = update_price(
        &mut slot,
        UpdatePrice { authority: a, supplied_address: addr(8) },
        7_000_000,
        Some(1_700_000_060),
    );
    assert_eq!(r, Err(OracleError::AddressMismatch));
    assert_eq!(slot.read().unwrap(), before);
}

#[test]
fn update_before_initialize_fails_address_mismatch() {
    let mut slot = OracleSlot::new(addr(9));
    let r = update_price(
        &mut slot,
        UpdatePrice { authority: ident(1), supplied_address: addr(9) },
        7_000_000,
        Some(1_700_000_060),
    );
    assert_eq!(r, Err(OracleError::AddressMismatch));
    assert_eq!(slot.read(), None);
}

#[test]
fn reading_twice_without_update_returns_identical_values() {
    let a = ident(1);
    let mut slot = initialized_slot(a);
    let first = slot.read();
    let second = slot.read();
    assert_eq!(first, second);

    // Failed attempts between two reads do not disturb them either.
    let before = slot.read();
    let _ = update_price(
        &mut slot,
        UpdatePrice { authority: ident(2), supplied_address: addr(9) },
        1,
        Some(1_700_000_060),
    );
    let _ = initialize_oracle(&mut slot, InitializeOracle { authority: ident(3), bump: 1 }, Some(1_700_000_060));
    assert_eq!(slot.read(), before);
}

#[test]
fn at_most_one_initialize_succeeds_in_a_sequence() {
    let mut slot = OracleSlot::new(addr(9));
    let r1 = initialize_oracle(&mut slot, InitializeOracle { authority: ident(1), bump: 254 }, Some(100));
    let r2 = initialize_oracle(&mut slot, InitializeOracle { authority: ident(1), bump: 254 }, Some(200));
    let r3 = initialize_oracle(&mut slot, InitializeOracle { authority: ident(4), bump: 7 }, Some(300));
    assert_eq!(r1, Ok(()));
    assert_eq!(r2, Err(OracleError::AlreadyInitialized));
    assert_eq!(r3, Err(OracleError::AlreadyInitialized));
    assert_eq!(slot.read().unwrap().last_update, 100);
}

#[test]
fn authority_unchanged_by_any_sequence_of_updates() {
    let a = ident(1);
    let mut slot = initialized_slot(a);
    let ctx = UpdatePrice { authority: a, supplied_address: addr(9) };
    for (price, now) in [(1u64, 101i64), (5_850_000, 102), (0, 103), (u64::MAX, 104)] {
        assert_eq!(update_price(&mut slot, ctx, price, Some(now)), Ok(()));
        assert_eq!(slot.read().unwrap().authority, a);
        assert_eq!(slot.read().unwrap().bump, 254);
    }
    assert_eq!(slot.read().unwrap().usd_brl_price, u64::MAX);
}

#[test]
fn record_space_covers_header_and_fields() {
    assert_eq!(PriceOracle::SPACE, 57);
}

#[test]
fn identities_and_addresses_compare_by_bytes() {
    let mut x = [0u8; 32];
    x[31] = 1;
    let i1 = Identity { bytes: x };
    assert!(i1.same_as(&Identity { bytes: x }));
    assert!(!i1.same_as(&ident(0)));
    assert!(addr(5).same_as(&addr(5)));
    assert!(!addr(5).same_as(&addr(6)));
}
