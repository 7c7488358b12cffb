//! Laws that hold over whole sequences of invocations of the record manager:
//! single creation, authority immutability, and the stability of reads.
//!
//! A sequence is modeled by `state_at` and `result_at`, which run the
//! transition functions of `manager` invocation by invocation from a starting
//! slot.

use vstd::prelude::*;

use crate::manager::{
    occupied, spec_initialize, spec_update, stored, InitializeOracle, OracleSlot, UpdatePrice,
};
use crate::record::OracleError;

verus! {

/// One operation of the record manager, with its inputs.
#[derive(Clone, Copy, Debug)]
pub enum Op {
    /// An `initialize_oracle` attempt.
    Initialize(InitializeOracle),
    /// An `update_price` attempt carrying the new price.
    UpdatePrice(UpdatePrice, u64),
}

/// One invocation: an operation together with the clock reading the runtime
/// supplied for it (`None` when the clock was unavailable).
#[derive(Clone, Copy, Debug)]
pub struct Invocation {
    pub op: Op,
    pub clock: Option<i64>,
}

/// The transition one invocation makes: the new slot and the result.
pub open spec fn step(slot: OracleSlot, inv: Invocation) -> (OracleSlot, Result<
    (),
    OracleError,
>) {
    match inv.op {
        Op::Initialize(ctx) => spec_initialize(slot, ctx, inv.clock),
        Op::UpdatePrice(ctx, price) => spec_update(slot, ctx, price, inv.clock),
    }
}

/// The slot after the first `i` invocations of `invs`, starting from `slot`.
pub open spec fn state_at(slot: OracleSlot, invs: Seq<Invocation>, i: int) -> OracleSlot
    decreases i,
{
    if i <= 0 {
        slot
    } else {
        step(state_at(slot, invs, i - 1), invs[i - 1]).0
    }
}

/// The result of invocation `i` of `invs`, starting from `slot`.
pub open spec fn result_at(slot: OracleSlot, invs: Seq<Invocation>, i: int) -> Result<
    (),
    OracleError,
>
    recommends
        0 <= i < invs.len(),
{
    step(state_at(slot, invs, i), invs[i]).1
}

/// No partial write: an invocation that fails leaves the slot exactly as it
/// was, whichever check it failed.
pub proof fn lemma_failure_no_mutation(slot: OracleSlot, inv: Invocation)
    requires
        step(slot, inv).1 is Err,
    ensures
        step(slot, inv).0 == slot,
{
}

/// Once the record exists, no single invocation removes it, changes its
/// authority or its salt, or moves the slot to another address.
pub proof fn lemma_occupied_preserved(slot: OracleSlot, inv: Invocation)
    requires
        occupied(slot),
    ensures
        occupied(step(slot, inv).0),
        stored(step(slot, inv).0).authority == stored(slot).authority,
        stored(step(slot, inv).0).bump == stored(slot).bump,
        step(slot, inv).0.address == slot.address,
{
}

/// Once the record exists after invocation `i`, it still exists after every
/// later invocation `j`, with the same authority and salt, in the slot at
/// the same address.
pub proof fn lemma_occupied_stays(slot: OracleSlot, invs: Seq<Invocation>, i: int, j: int)
    requires
        0 <= i <= j <= invs.len(),
        occupied(state_at(slot, invs, i)),
    ensures
        occupied(state_at(slot, invs, j)),
        stored(state_at(slot, invs, j)).authority == stored(state_at(slot, invs, i)).authority,
        stored(state_at(slot, invs, j)).bump == stored(state_at(slot, invs, i)).bump,
        state_at(slot, invs, j).address == state_at(slot, invs, i).address,
    decreases j - i,
{
    if i < j {
        lemma_occupied_preserved(state_at(slot, invs, i), invs[i]);
        lemma_occupied_stays(slot, invs, i + 1, j);
    }
}

/// Single creation: in any sequence of invocations, once `Initialize`
/// succeeded at position `i`, every later `Initialize` attempt fails with
/// `AlreadyInitialized` and leaves the slot unchanged — so at most one
/// `Initialize` per deployment ever succeeds.
pub proof fn lemma_single_creation(slot: OracleSlot, invs: Seq<Invocation>, i: int, j: int)
    requires
        0 <= i < j < invs.len(),
        invs[i].op is Initialize,
        result_at(slot, invs, i) is Ok,
        invs[j].op is Initialize,
    ensures
        result_at(slot, invs, j) == Err::<(), OracleError>(OracleError::AlreadyInitialized),
        state_at(slot, invs, j + 1) == state_at(slot, invs, j),
{
    assert(occupied(state_at(slot, invs, i + 1)));
    lemma_occupied_stays(slot, invs, i + 1, j);
}

/// Authority immutability: once the record exists, its authority after any
/// sequence of invocations — successful `UpdatePrice` calls included — is
/// the one `Initialize` established.
pub proof fn lemma_authority_immutable(slot: OracleSlot, invs: Seq<Invocation>)
    requires
        occupied(slot),
    ensures
        occupied(state_at(slot, invs, invs.len() as int)),
        stored(state_at(slot, invs, invs.len() as int)).authority == stored(slot).authority,
{
    lemma_occupied_stays(slot, invs, 0, invs.len() as int);
}

/// The authorization gate: a caller other than the stored authority is
/// turned away with `Unauthorized`, whatever price it asked for, and neither
/// the price nor the timestamp — nor anything else — changes.
pub proof fn lemma_authorization_gate(
    slot: OracleSlot,
    ctx: UpdatePrice,
    price: u64,
    clock: Option<i64>,
)
    requires
        occupied(slot),
        ctx.authority != stored(slot).authority,
    ensures
        spec_update(slot, ctx, price, clock).1 is Err,
        spec_update(slot, ctx, price, clock).0 == slot,
        ctx.supplied_address == slot.address ==> spec_update(slot, ctx, price, clock).1 == Err::<
            (),
            OracleError,
        >(OracleError::Unauthorized),
{
}

/// The update effect: the stored authority, addressing the record correctly
/// while the clock answers `now`, always succeeds, and the record then holds
/// exactly the requested price — zero included — and the timestamp `now`,
/// with its authority and salt intact.
pub proof fn lemma_update_effect(slot: OracleSlot, ctx: UpdatePrice, price: u64, now: i64)
    requires
        occupied(slot),
        ctx.supplied_address == slot.address,
        ctx.authority == stored(slot).authority,
    ensures
        spec_update(slot, ctx, price, Some(now)).1 is Ok,
        occupied(spec_update(slot, ctx, price, Some(now)).0),
        stored(spec_update(slot, ctx, price, Some(now)).0).usd_brl_price == price,
        stored(spec_update(slot, ctx, price, Some(now)).0).last_update == now,
        stored(spec_update(slot, ctx, price, Some(now)).0).authority == stored(slot).authority,
        stored(spec_update(slot, ctx, price, Some(now)).0).bump == stored(slot).bump,
        spec_update(slot, ctx, price, Some(now)).0.address == slot.address,
{
}

/// Idempotent re-read: a read is a function of the slot alone, so with the
/// record in place, a stretch of invocations among which no `UpdatePrice`
/// succeeds leaves the slot — and hence what a read returns — exactly as it
/// was before the stretch.
pub proof fn lemma_idempotent_re_read(slot: OracleSlot, invs: Seq<Invocation>)
    requires
        occupied(slot),
        forall|k: int|
            0 <= k < invs.len() ==> !(invs[k].op is UpdatePrice && result_at(slot, invs, k) is Ok),
    ensures
        state_at(slot, invs, invs.len() as int) == slot,
{
    lemma_unchanged_prefix(slot, invs, invs.len() as int);
}

/// Every prefix of a stretch without a successful `UpdatePrice` leaves an
/// occupied slot unchanged.
proof fn lemma_unchanged_prefix(slot: OracleSlot, invs: Seq<Invocation>, m: int)
    requires
        occupied(slot),
        0 <= m <= invs.len(),
        forall|k: int|
            0 <= k < invs.len() ==> !(invs[k].op is UpdatePrice && result_at(slot, invs, k) is Ok),
    ensures
        state_at(slot, invs, m) == slot,
    decreases m,
{
    if m > 0 {
        lemma_unchanged_prefix(slot, invs, m - 1);
        let prev = state_at(slot, invs, m - 1);
        match invs[m - 1].op {
            Op::Initialize(_) => {
                assert(step(prev, invs[m - 1]).0 == prev);
            },
            Op::UpdatePrice(_, _) => {
                assert(result_at(slot, invs, m - 1) == step(prev, invs[m - 1]).1);
                lemma_failure_no_mutation(prev, invs[m - 1]);
            },
        }
    }
}

} // verus!

