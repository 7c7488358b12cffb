//! Data model of the oracle: caller identities, derived storage addresses,
//! the `PriceOracle` record itself, and the errors its operations surface.

use vstd::prelude::*;

verus! {

broadcast use vstd::array::group_array_axioms;

/// An already-verified caller identity: the raw bytes of a public-key-
/// equivalent principal. The ledger runtime guarantees that any identity it
/// hands in has cryptographically authorized the operation; this library only
/// ever compares identities for equality.
#[derive(Clone, Copy, Debug, PartialEq, Eq)]
pub struct Identity {
    pub bytes: [u8; 32],
}

impl Identity {
    /// Byte-for-byte equality of two identities.
    pub fn same_as(&self, other: &Identity) -> (r: bool)
        ensures
            r <==> *self == *other,
    {
        let mut i: usize = 0;
        while i < 32
            invariant
                i <= 32,
                forall|k: int| 0 <= k < i ==> self.bytes[k] == other.bytes[k],
            decreases 32 - i,
        {
            if self.bytes[i] != other.bytes[i] {
                return false;
            }
            i = i + 1;
        }
        proof {
            assert(self.bytes =~= other.bytes);
        }
        true
    }
}

/// A storage address the ledger runtime derived deterministically from its
/// fixed seed and a salt (the record's `bump`). The runtime owns the
/// derivation scheme; this library only compares a supplied address with the
/// one the record's slot actually occupies.
#[derive(Clone, Copy, Debug, PartialEq, Eq)]
pub struct Address {
    pub bytes: [u8; 32],
}

impl Address {
    /// Byte-for-byte equality of two addresses.
    pub fn same_as(&self, other: &Address) -> (r: bool)
        ensures
            r <==> *self == *other,
    {
        let mut i: usize = 0;
        while i < 32
            invariant
                i <= 32,
                forall|k: int| 0 <= k < i ==> self.bytes[k] == other.bytes[k],
            decreases 32 - i,
        {
            if self.bytes[i] != other.bytes[i] {
                return false;
            }
            i = i + 1;
        }
        proof {
            assert(self.bytes =~= other.bytes);
        }
        true
    }
}

/// The singleton exchange-rate record. In the persisted layout the fields
/// follow the runtime's header in this order: 32 bytes of `authority`, 8 of
/// `usd_brl_price`, 8 of `last_update`, 1 of `bump`.
#[derive(Clone, Copy, Debug, PartialEq, Eq)]
pub struct PriceOracle {
    /// The sole principal permitted to mutate `usd_brl_price`; fixed at
    /// creation.
    pub authority: Identity,
    /// The USD -> BRL rate scaled by one million (six implied decimal
    /// places); `5_850_000` stands for 5.85.
    pub usd_brl_price: u64,
    /// Unix timestamp, in seconds, of the most recent successful write.
    pub last_update: i64,
    /// The salt of the record's address derivation; fixed at creation so the
    /// address can be re-derived and checked on every later access.
    pub bump: u8,
}

impl PriceOracle {
    /// Bytes of storage the runtime must allocate for the record: its header
    /// of 8 bytes, then the four fields in layout order.
    pub const SPACE: usize = 8 + 32 + 8 + 8 + 1;
}

/// Everything an operation of the record manager can fail with. Every check
/// precedes every write, so a failed operation never leaves a partial state.
#[derive(Clone, Copy, Debug, PartialEq, Eq, Structural)]
pub enum OracleError {
    /// `Initialize` found a record already occupying the derived address.
    AlreadyInitialized,
    /// `UpdatePrice` was invoked by a caller other than the stored authority.
    Unauthorized,
    /// The supplied address is not the one the record's slot occupies — or no
    /// record exists, so no stored salt can vouch for any address.
    AddressMismatch,
    /// The runtime could not supply a clock reading; propagated unchanged.
    ClockUnavailable,
}

} // verus!
