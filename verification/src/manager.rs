//! The Oracle Record Manager: the storage slot that holds the record and the
//! two operations of its lifecycle, `initialize_oracle` and `update_price`.
//!
//! Each operation is specified by a transition function (`spec_initialize`,
//! `spec_update`) from the slot, the operation's inputs, and the runtime's
//! clock reading to the new slot and the result; the executable operation is
//! proved to realize that transition exactly.

use vstd::prelude::*;

use crate::record::{Address, Identity, OracleError, PriceOracle};

verus! {

/// The keyed storage slot the ledger runtime allocates at the record's
/// derived address: the one logical location the fixed seed maps to, holding
/// the record once `initialize_oracle` has created it.
#[derive(Clone, Copy, Debug, PartialEq, Eq)]
pub struct OracleSlot {
    /// The derived address the slot occupies, fixed when the runtime
    /// allocates it.
    pub address: Address,
    /// The record, once created.
    pub record: Option<PriceOracle>,
}

/// The inputs of `initialize_oracle`: the caller — who must have co-signed
/// the operation, which the runtime has already verified — and the salt the
/// runtime chose when it derived the record's address.
#[derive(Clone, Copy, Debug)]
pub struct InitializeOracle {
    /// The verified initializer identity; becomes the record's authority.
    pub authority: Identity,
    /// The runtime-chosen salt of the address derivation.
    pub bump: u8,
}

/// The inputs of `update_price` besides the new price: the verified caller
/// and the address the caller supplied for the record, which must be the one
/// the record's slot actually occupies.
#[derive(Clone, Copy, Debug)]
pub struct UpdatePrice {
    /// The verified caller identity; must equal the stored authority.
    pub authority: Identity,
    /// The address the caller claims the record lives at.
    pub supplied_address: Address,
}

/// Whether a record exists in the slot.
pub open spec fn occupied(slot: OracleSlot) -> bool {
    slot.record is Some
}

/// The record in the slot; meaningful only when the slot is occupied.
pub open spec fn stored(slot: OracleSlot) -> PriceOracle
    recommends
        occupied(slot),
{
    slot.record->0
}

/// The transition of `Initialize`: from the prior slot, the operation's
/// inputs, and the clock reading to the new slot and the result. A slot that
/// already holds a record rejects re-creation and is left untouched; with no
/// clock reading nothing is written either; otherwise the record appears with
/// the caller as authority, a zero price, the creation-time timestamp, and
/// the runtime's salt.
pub open spec fn spec_initialize(slot: OracleSlot, ctx: InitializeOracle, clock: Option<i64>) -> (
    OracleSlot,
    Result<(), OracleError>,
) {
    match slot.record {
        Some(_) => (slot, Err(OracleError::AlreadyInitialized)),
        None => match clock {
            None => (slot, Err(OracleError::ClockUnavailable)),
            Some(now) => (
                OracleSlot {
                    address: slot.address,
                    record: Some(
                        PriceOracle {
                            authority: ctx.authority,
                            usd_brl_price: 0,
                            last_update: now,
                            bump: ctx.bump,
                        },
                    ),
                },
                Ok(()),
            ),
        },
    }
}

/// The transition of `UpdatePrice`. The checks run in order, each before any
/// write: the record must exist and the supplied address must be the slot's
/// (else `AddressMismatch`); the caller must be the stored authority (else
/// `Unauthorized`); the clock must have answered (else `ClockUnavailable`).
/// Only then are the price and the timestamp overwritten; the authority, the
/// salt, and the address never change.
pub open spec fn spec_update(
    slot: OracleSlot,
    ctx: UpdatePrice,
    usd_brl_price: u64,
    clock: Option<i64>,
) -> (OracleSlot, Result<(), OracleError>) {
    match slot.record {
        None => (slot, Err(OracleError::AddressMismatch)),
        Some(rec) => if ctx.supplied_address != slot.address {
            (slot, Err(OracleError::AddressMismatch))
        } else if ctx.authority != rec.authority {
            (slot, Err(OracleError::Unauthorized))
        } else {
            match clock {
                None => (slot, Err(OracleError::ClockUnavailable)),
                Some(now) => (
                    OracleSlot {
                        address: slot.address,
                        record: Some(
                            PriceOracle {
                                authority: rec.authority,
                                usd_brl_price: usd_brl_price,
                                last_update: now,
                                bump: rec.bump,
                            },
                        ),
                    },
                    Ok(()),
                ),
            }
        },
    }
}

impl OracleSlot {
    /// The empty slot at the derived address, as the runtime allocates it
    /// before the record is first created.
    pub fn new(address: Address) -> (slot: OracleSlot)
        ensures
            slot.address == address,
            !occupied(slot),
    {
        OracleSlot { address, record: None }
    }

    /// Reads the record, as any party may; the slot itself is not touched, so
    /// two reads with no successful `update_price` between them see the same
    /// value.
    pub fn read(&self) -> (r: Option<PriceOracle>)
        ensures
            r == self.record,
    {
        self.record
    }
}

/// Creates the record: establishes the caller as its immutable authority,
/// zeroes the price, stamps the creation time, and stores the derivation
/// salt. Fails with `AlreadyInitialized` — changing nothing — when a record
/// already occupies the slot, and with `ClockUnavailable` when the runtime
/// supplied no clock reading.
pub fn initialize_oracle(slot: &mut OracleSlot, ctx: InitializeOracle, clock: Option<i64>) -> (r:
    Result<(), OracleError>)
    ensures
        *final(slot) == spec_initialize(*old(slot), ctx, clock).0,
        r == spec_initialize(*old(slot), ctx, clock).1,
{
    if slot.record.is_some() {
        return Err(OracleError::AlreadyInitialized);
    }
    match clock {
        None => Err(OracleError::ClockUnavailable),
        Some(now) => {
            slot.record = Some(
                PriceOracle {
                    authority: ctx.authority,
                    usd_brl_price: 0,
                    last_update: now,
                    bump: ctx.bump,
                },
            );
            Ok(())
        },
    }
}

/// Overwrites the price and the freshness timestamp, provided the supplied
/// address is the record's own and the caller is the stored authority. Any
/// price is accepted, zero included. On any failure — `AddressMismatch`,
/// `Unauthorized`, or `ClockUnavailable` — the slot is left exactly as it
/// was.
pub fn update_price(
    slot: &mut OracleSlot,
    ctx: UpdatePrice,
    usd_brl_price: u64,
    clock: Option<i64>,
) -> (r: Result<(), OracleError>)
    ensures
        *final(slot) == spec_update(*old(slot), ctx, usd_brl_price, clock).0,
        r == spec_update(*old(slot), ctx, usd_brl_price, clock).1,
{
    let rec = match slot.record {
        None => { return Err(OracleError::AddressMismatch) },
        Some(rec) => rec,
    };
    if !ctx.supplied_address.same_as(&slot.address) {
        return Err(OracleError::AddressMismatch);
    }
    if !ctx.authority.same_as(&rec.authority) {
        return Err(OracleError::Unauthorized);
    }
    match clock {
        None => Err(OracleError::ClockUnavailable),
        Some(now) => {
            slot.record = Some(
                PriceOracle {
                    authority: rec.authority,
                    usd_brl_price: usd_brl_price,
                    last_update: now,
                    bump: rec.bump,
                },
            );
            Ok(())
        },
    }
}

} // verus!
