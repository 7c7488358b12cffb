//! A single authoritative USD -> BRL exchange-rate record.
//!
//! The record is created once by `manager::initialize_oracle`, which fixes its
//! `authority`, and thereafter mutated only through `manager::update_price`,
//! which rejects every caller but that authority. Anyone may read it. The
//! surrounding ledger runtime — keyed account storage at a derived address,
//! cryptographic signer verification, and the clock — is a collaborator: each
//! operation takes the already-verified caller identity, the storage slot, and
//! the runtime's clock reading as explicit arguments.
//!
//! `record` holds the data model and the error taxonomy, `manager` the two
//! operations and their transition functions, and `laws` the proofs that hold
//! over whole sequences of invocations.

pub mod laws;
pub mod manager;
pub mod record;
