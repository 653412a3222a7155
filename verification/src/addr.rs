//! Identities and canonical record addresses.
//!
//! An [`Address`] is a 32-byte public identity value: an account key, a
//! program id, or a derived record address. The canonical record address for
//! an owner is derived from the fixed domain tag `"pet"` and the owner's
//! identity by the ledger's one-way derivation, which also yields a one-byte
//! bump disambiguator.

use vstd::prelude::*;

verus! {

/// A 32-byte public identity value.
#[derive(Clone, Copy, Debug)]
pub struct Address(pub [u8; 32]);

impl View for Address {
    type V = Seq<u8>;

    open spec fn view(&self) -> Seq<u8> {
        self.0@
    }
}

/// Byte-wise equality of two identities.
pub fn addr_eq(a: &Address, b: &Address) -> (r: bool)
    ensures
        r <==> a@ == b@,
{
    let mut i: usize = 0;
    while i < 32
        invariant
            i <= 32,
            forall|j: int| 0 <= j < i ==> a.0@[j] == b.0@[j],
        decreases 32 - i,
    {
        if a.0[i] != b.0[i] {
            assert(a@[i as int] != b@[i as int]);
            return false;
        }
        i += 1;
    }
    proof {
        assert(a@ =~= b@);
    }
    true
}

/// The derived canonical address and bump for an owner under a program, or
/// nothing in the (statistically negligible) event that no bump yields a
/// valid derived address. The derivation is a pure function of the program
/// id and the owner identity; the domain tag is fixed.
pub uninterp spec fn pet_address_of(program_id: Seq<u8>, owner: Seq<u8>) -> Option<(Seq<u8>, u8)>;

/// Relies on `Pubkey::try_find_program_address` of solana-program, over the
/// seeds `[b"pet", owner]`: a deterministic, SHA-256-based derivation of the
/// canonical record address and its bump from the program id and the owner
/// identity alone; `None` exactly when no bump seed yields a valid address.
#[verifier::external_body]
pub(crate) fn derive_pet_address(program_id: &Address, owner: &Address) -> (r: Option<(Address, u8)>)
    ensures
        (match r {
            Some((a, b)) => pet_address_of(program_id@, owner@) == Some((a@, b)),
            None => pet_address_of(program_id@, owner@) is None,
        }),
{
    let pid = solana_program::pubkey::Pubkey::new_from_array(program_id.0);
    let owner_key = solana_program::pubkey::Pubkey::new_from_array(owner.0);
    match solana_program::pubkey::Pubkey::try_find_program_address(&[b"pet", owner_key.as_ref()], &pid)
    {
        Some((pda, bump)) => Some((Address(pda.to_bytes()), bump)),
        None => None,
    }
}

/// The identity of the trusted clock source account.
pub open spec fn clock_id_bytes() -> Seq<u8> {
    seq![
        6u8, 167u8, 213u8, 23u8, 24u8, 199u8, 116u8, 201u8, 40u8, 86u8, 99u8, 152u8, 105u8,
        29u8, 94u8, 182u8, 139u8, 94u8, 184u8, 163u8, 155u8, 75u8, 109u8, 92u8, 115u8, 85u8,
        91u8, 33u8, 0u8, 0u8, 0u8, 0u8,
    ]
}

/// The trusted clock source identity as an address value.
pub fn clock_identity() -> (r: Address)
    ensures
        r@ == clock_id_bytes(),
{
    let a = Address(
        [
            6u8, 167u8, 213u8, 23u8, 24u8, 199u8, 116u8, 201u8, 40u8, 86u8, 99u8, 152u8, 105u8,
            29u8, 94u8, 182u8, 139u8, 94u8, 184u8, 163u8, 155u8, 75u8, 109u8, 92u8, 115u8, 85u8,
            91u8, 33u8, 0u8, 0u8, 0u8, 0u8,
        ],
    );
    proof {
        assert(a@ =~= clock_id_bytes());
    }
    a
}

/// The identity of the external account-creation service (all zero bytes).
pub open spec fn creation_service_id_bytes() -> Seq<u8> {
    Seq::new(32, |i: int| 0u8)
}

/// The account-creation service identity as an address value.
pub fn creation_service_identity() -> (r: Address)
    ensures
        r@ == creation_service_id_bytes(),
{
    let a = Address([0u8; 32]);
    proof {
        assert(a@ =~= creation_service_id_bytes());
    }
    a
}

} // verus!
