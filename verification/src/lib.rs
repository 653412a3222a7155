//! Deterministic state-transition logic for a single persistent virtual pet
//! whose record lives in a fixed-size slot of an account-based ledger.
//!
//! The library holds the whole decision core: saturating stat arithmetic,
//! time-based decay, the fixed byte layout of the stored record, and the
//! authorization and derivation checks that gate every operation. The thin
//! host shell around it only reads accounts, hands their plain values in,
//! and performs the effects the core decides on.

use vstd::prelude::*;

pub mod addr;
pub mod codec;
pub mod controller;
pub mod record;
pub mod stats;

pub use addr::Address;
pub use record::PetAccount;
pub use stats::clamp_add;

verus! {

/// The failure taxonomy: every operation either succeeds or reports exactly
/// one of these, and a failed operation writes nothing.
#[derive(Clone, Copy, Debug, PartialEq, Eq, Structural)]
pub enum IriError {
    /// Unparseable or unrecognized payload or interaction kind.
    InvalidInstruction,
    /// Wrong slot ownership, wrong identity for a fixed role, or a record
    /// that does not fit its slot.
    InvalidAccount,
    /// Missing signer, or a signer that is not the record's owner.
    Unauthorized,
    /// The supplied slot address is not the canonical derived address.
    InvalidPda,
}

} // verus!
