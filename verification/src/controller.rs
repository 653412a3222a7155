//! The access and mutation controller.
//!
//! Every inbound request carries a program id, an ordered list of account
//! handles and an opaque payload. The controller decodes the payload,
//! validates identity, derivation and ownership in a fixed order, computes
//! the new record, and returns the effect the host must perform: create the
//! slot first and/or write the returned bytes. A failed request returns one
//! error and demands no write at all.

use vstd::prelude::*;
use crate::addr::{
    addr_eq, clock_id_bytes, clock_identity, creation_service_id_bytes, creation_service_identity,
    derive_pet_address, pet_address_of, Address,
};
use crate::codec::{
    decode_model, decode_record, encode_into_slot, encode_record, parse_instruction,
    parse_instruction_spec, record_bytes, slot_image, IriInstruction, RECORD_LEN, SLOT_LEN,
};
use crate::record::{
    apply_decay, apply_interaction, decay_model, interact_model, PetAccount, RecordModel,
};
use crate::IriError;

verus! {

/// The plain values of one account handle, as the host hands them over.
pub struct AccountView {
    /// The account's address.
    pub key: Address,
    /// Whether this identity cryptographically authorized the request.
    pub is_signer: bool,
    /// The program that owns the account.
    pub owner: Address,
    /// The account's stored bytes.
    pub data: Vec<u8>,
}

/// Mathematical model of an account handle.
pub ghost struct AccountModel {
    pub key: Seq<u8>,
    pub is_signer: bool,
    pub owner: Seq<u8>,
    pub data: Seq<u8>,
}

impl View for AccountView {
    type V = AccountModel;

    open spec fn view(&self) -> AccountModel {
        AccountModel {
            key: self.key@,
            is_signer: self.is_signer,
            owner: self.owner@,
            data: self.data@,
        }
    }
}

/// What the host must do after a successful operation.
#[derive(Debug)]
pub enum Effect {
    /// Initialize: create the slot first when `needs_create` (sized to the
    /// fixed slot length, with delegated authority over the derivation seed
    /// and `bump`), then write `data` over the whole slot.
    Init { needs_create: bool, bump: u8, data: Vec<u8> },
    /// Interact: write `data` over the beginning of the slot.
    Update { data: Vec<u8> },
}

/// Mathematical model of an effect.
pub ghost enum EffectModel {
    Init { needs_create: bool, bump: u8, data: Seq<u8> },
    Update { data: Seq<u8> },
}

impl View for Effect {
    type V = EffectModel;

    open spec fn view(&self) -> EffectModel {
        match self {
            Effect::Init { needs_create, bump, data } => EffectModel::Init {
                needs_create: *needs_create,
                bump: *bump,
                data: data@,
            },
            Effect::Update { data } => EffectModel::Update { data: data@ },
        }
    }
}

/// A failed request: too few accounts for the operation, or one of the
/// core's own errors.
#[derive(Clone, Copy, Debug, PartialEq, Eq, Structural)]
pub enum ProcessError {
    /// Fewer account handles were supplied than the operation requires.
    MissingAccount,
    /// A validation or encoding failure of the core.
    Pet(IriError),
}

/// The fresh record an initialize stores: fixed starting stats, the
/// initiating identity as owner, the derived bump, the host time.
pub open spec fn fresh_record(owner_key: Seq<u8>, bump: u8, now: i64) -> RecordModel {
    RecordModel { owner: owner_key, mood: 8000, health: 9000, gloss: 7500, bump, last_ts: now }
}

/// The outcome of initialize, over the plain values of the request:
/// signer first, then derivation, then slot ownership (a slot owned by
/// neither this program nor the creation service is rejected; one owned by
/// the creation service is created first), then capacity.
pub open spec fn init_spec(
    program_id: Seq<u8>,
    owner_key: Seq<u8>,
    owner_signed: bool,
    pet_key: Seq<u8>,
    pet_prog: Seq<u8>,
    slot_len: int,
    now: i64,
) -> Result<EffectModel, IriError> {
    if !owner_signed {
        Err(IriError::Unauthorized)
    } else {
        match pet_address_of(program_id, owner_key) {
            None => Err(IriError::InvalidPda),
            Some(derived) => {
                if derived.0 != pet_key {
                    Err(IriError::InvalidPda)
                } else {
                    let needs_create = pet_prog != program_id;
                    if needs_create && pet_prog != creation_service_id_bytes() {
                        Err(IriError::InvalidAccount)
                    } else {
                        let cap = if needs_create {
                            SLOT_LEN as int
                        } else {
                            slot_len
                        };
                        if cap < RECORD_LEN as int {
                            Err(IriError::InvalidAccount)
                        } else {
                            Ok(
                                EffectModel::Init {
                                    needs_create,
                                    bump: derived.1,
                                    data: slot_image(
                                        fresh_record(owner_key, derived.1, now),
                                        cap,
                                    ),
                                },
                            )
                        }
                    }
                }
            },
        }
    }
}

/// The outcome of interact, over the plain values of the request: signer,
/// derivation, slot ownership, clock identity, record decode, stored owner,
/// kind; then decay followed by the kind's delta, re-encoded.
pub open spec fn interact_spec(
    program_id: Seq<u8>,
    owner_key: Seq<u8>,
    owner_signed: bool,
    pet_key: Seq<u8>,
    pet_prog: Seq<u8>,
    clock_key: Seq<u8>,
    data: Seq<u8>,
    kind: u8,
    now: i64,
) -> Result<Seq<u8>, IriError> {
    if !owner_signed {
        Err(IriError::Unauthorized)
    } else {
        match pet_address_of(program_id, owner_key) {
            None => Err(IriError::InvalidPda),
            Some(derived) => {
                if derived.0 != pet_key {
                    Err(IriError::InvalidPda)
                } else if pet_prog != program_id {
                    Err(IriError::InvalidAccount)
                } else if clock_key != clock_id_bytes() {
                    Err(IriError::InvalidAccount)
                } else if data.len() < RECORD_LEN as int {
                    Err(IriError::InvalidAccount)
                } else {
                    let m = decode_model(data);
                    if m.owner != owner_key {
                        Err(IriError::Unauthorized)
                    } else if kind > 2 {
                        Err(IriError::InvalidInstruction)
                    } else {
                        Ok(record_bytes(interact_model(decay_model(m, now), kind)))
                    }
                }
            },
        }
    }
}

/// Initialize a pet record for the signing identity.
pub fn process_init(program_id: &Address, owner: &AccountView, pet: &AccountView, now: i64) -> (r:
    Result<Effect, IriError>)
    ensures
        (match r {
            Ok(e) => init_spec(
                program_id@,
                owner.key@,
                owner.is_signer,
                pet.key@,
                pet.owner@,
                pet.data@.len() as int,
                now,
            ) == Ok::<EffectModel, IriError>(e@),
            Err(e) => init_spec(
                program_id@,
                owner.key@,
                owner.is_signer,
                pet.key@,
                pet.owner@,
                pet.data@.len() as int,
                now,
            ) == Err::<EffectModel, IriError>(e),
        }),
{
    if !owner.is_signer {
        return Err(IriError::Unauthorized);
    }
    let derived = derive_pet_address(program_id, &owner.key);
    let (pda, bump) = match derived {
        Some(x) => x,
        None => {
            return Err(IriError::InvalidPda);
        },
    };
    if !addr_eq(&pda, &pet.key) {
        return Err(IriError::InvalidPda);
    }
    let needs_create = !addr_eq(&pet.owner, program_id);
    if needs_create {
        let service = creation_service_identity();
        if !addr_eq(&pet.owner, &service) {
            return Err(IriError::InvalidAccount);
        }
    }
    let record = PetAccount {
        owner: owner.key,
        mood: 8000,
        health: 9000,
        gloss: 7500,
        bump,
        last_ts: now,
    };
    let cap: usize = if needs_create {
        SLOT_LEN
    } else {
        pet.data.len()
    };
    let data = match encode_into_slot(&record, cap) {
        Ok(v) => v,
        Err(e) => {
            return Err(e);
        },
    };
    Ok(Effect::Init { needs_create, bump, data })
}

/// Apply one timestamped interaction to the stored record.
pub fn process_interact(
    program_id: &Address,
    owner: &AccountView,
    pet: &AccountView,
    clock: &AccountView,
    kind: u8,
    now: i64,
) -> (r: Result<Vec<u8>, IriError>)
    ensures
        (match r {
            Ok(v) => interact_spec(
                program_id@,
                owner.key@,
                owner.is_signer,
                pet.key@,
                pet.owner@,
                clock.key@,
                pet.data@,
                kind,
                now,
            ) == Ok::<Seq<u8>, IriError>(v@),
            Err(e) => interact_spec(
                program_id@,
                owner.key@,
                owner.is_signer,
                pet.key@,
                pet.owner@,
                clock.key@,
                pet.data@,
                kind,
                now,
            ) == Err::<Seq<u8>, IriError>(e),
        }),
{
    if !owner.is_signer {
        return Err(IriError::Unauthorized);
    }
    let derived = derive_pet_address(program_id, &owner.key);
    let (pda, _bump) = match derived {
        Some(x) => x,
        None => {
            return Err(IriError::InvalidPda);
        },
    };
    if !addr_eq(&pda, &pet.key) {
        return Err(IriError::InvalidPda);
    }
    if !addr_eq(&pet.owner, program_id) {
        return Err(IriError::InvalidAccount);
    }
    let clock_id = clock_identity();
    if !addr_eq(&clock.key, &clock_id) {
        return Err(IriError::InvalidAccount);
    }
    let mut record = match decode_record(&pet.data) {
        Ok(p) => p,
        Err(e) => {
            return Err(e);
        },
    };
    if !addr_eq(&record.owner, &owner.key) {
        return Err(IriError::Unauthorized);
    }
    apply_decay(&mut record, now);
    match apply_interaction(&mut record, kind) {
        Ok(_) => {},
        Err(e) => {
            return Err(e);
        },
    }
    let out = encode_record(&record);
    Ok(out)
}

/// The outcome of a whole request: payload decode first, then the account
/// count, then the operation itself on the first three accounts (owner
/// signer, pet slot, and the creation service or clock source handle).
pub open spec fn process_spec(
    program_id: Seq<u8>,
    accounts: Seq<AccountModel>,
    input: Seq<u8>,
    now: i64,
) -> Result<EffectModel, ProcessError> {
    match parse_instruction_spec(input) {
        Err(e) => Err(ProcessError::Pet(e)),
        Ok(ix) => {
            if accounts.len() < 3 {
                Err(ProcessError::MissingAccount)
            } else {
                match ix {
                    IriInstruction::InitPet => {
                        match init_spec(
                            program_id,
                            accounts[0].key,
                            accounts[0].is_signer,
                            accounts[1].key,
                            accounts[1].owner,
                            accounts[1].data.len() as int,
                            now,
                        ) {
                            Ok(e) => Ok(e),
                            Err(e) => Err(ProcessError::Pet(e)),
                        }
                    },
                    IriInstruction::Interact { kind } => {
                        match interact_spec(
                            program_id,
                            accounts[0].key,
                            accounts[0].is_signer,
                            accounts[1].key,
                            accounts[1].owner,
                            accounts[2].key,
                            accounts[1].data,
                            kind,
                            now,
                        ) {
                            Ok(bytes) => Ok(EffectModel::Update { data: bytes }),
                            Err(e) => Err(ProcessError::Pet(e)),
                        }
                    },
                }
            }
        },
    }
}

/// Initialize never takes stats from the request: every successful
/// initialize stores mood 8000, health 9000, gloss 7500, the initiating
/// identity as owner, and the host time as the timestamp.
pub proof fn lemma_init_fixed_stats(
    program_id: Seq<u8>,
    owner_key: Seq<u8>,
    owner_signed: bool,
    pet_key: Seq<u8>,
    pet_prog: Seq<u8>,
    slot_len: int,
    now: i64,
)
    requires
        owner_key.len() == 32,
    ensures
        (match init_spec(program_id, owner_key, owner_signed, pet_key, pet_prog, slot_len, now) {
            Ok(e) => e matches EffectModel::Init { data, .. } && decode_model(data).mood == 8000
                && decode_model(data).health == 9000 && decode_model(data).gloss == 7500
                && decode_model(data).owner == owner_key && decode_model(data).last_ts == now,
            Err(_) => true,
        }),
{
    let r = init_spec(program_id, owner_key, owner_signed, pet_key, pet_prog, slot_len, now);
    if owner_signed {
        match pet_address_of(program_id, owner_key) {
            Some(derived) => {
                if r is Ok {
                    let needs_create = pet_prog != program_id;
                    let cap = if needs_create {
                        SLOT_LEN as int
                    } else {
                        slot_len
                    };
                    crate::codec::lemma_slot_image_round_trip(
                        fresh_record(owner_key, derived.1, now),
                        cap,
                    );
                }
            },
            None => {},
        }
    }
}

/// An unknown interaction kind never reaches a write: whatever the other
/// request values are, the outcome is an error, and when every other check
/// passes the error is exactly `InvalidInstruction`.
pub proof fn lemma_unknown_kind_rejected(
    program_id: Seq<u8>,
    owner_key: Seq<u8>,
    owner_signed: bool,
    pet_key: Seq<u8>,
    pet_prog: Seq<u8>,
    clock_key: Seq<u8>,
    data: Seq<u8>,
    kind: u8,
    now: i64,
)
    requires
        kind > 2,
    ensures
        interact_spec(
            program_id,
            owner_key,
            owner_signed,
            pet_key,
            pet_prog,
            clock_key,
            data,
            kind,
            now,
        ) is Err,
        (owner_signed && (pet_address_of(program_id, owner_key) matches Some(derived)
            && derived.0 == pet_key) && pet_prog == program_id && clock_key == clock_id_bytes()
            && data.len() >= RECORD_LEN as int && decode_model(data).owner == owner_key)
            ==> interact_spec(
            program_id,
            owner_key,
            owner_signed,
            pet_key,
            pet_prog,
            clock_key,
            data,
            kind,
            now,
        ) == Err::<Seq<u8>, IriError>(IriError::InvalidInstruction),
{
}

/// A valid signer that is not the record's stored owner is turned away with
/// `Unauthorized`, and nothing is written.
pub proof fn lemma_foreign_signer_rejected(
    program_id: Seq<u8>,
    owner_key: Seq<u8>,
    pet_key: Seq<u8>,
    pet_prog: Seq<u8>,
    clock_key: Seq<u8>,
    data: Seq<u8>,
    kind: u8,
    now: i64,
)
    requires
        pet_address_of(program_id, owner_key) matches Some(derived) && derived.0 == pet_key,
        pet_prog == program_id,
        clock_key == clock_id_bytes(),
        data.len() >= RECORD_LEN as int,
        decode_model(data).owner != owner_key,
    ensures
        interact_spec(program_id, owner_key, true, pet_key, pet_prog, clock_key, data, kind, now)
            == Err::<Seq<u8>, IriError>(IriError::Unauthorized),
{
}

/// A pet slot address that is not the canonical derived address for the
/// claimed owner fails both operations with `InvalidPda`, signer or not.
pub proof fn lemma_wrong_slot_rejected(
    program_id: Seq<u8>,
    owner_key: Seq<u8>,
    pet_key: Seq<u8>,
    pet_prog: Seq<u8>,
    clock_key: Seq<u8>,
    data: Seq<u8>,
    slot_len: int,
    kind: u8,
    now: i64,
)
    requires
        (match pet_address_of(program_id, owner_key) {
            Some(derived) => derived.0 != pet_key,
            None => true,
        }),
    ensures
        init_spec(program_id, owner_key, true, pet_key, pet_prog, slot_len, now) == Err::<
            EffectModel,
            IriError,
        >(IriError::InvalidPda),
        interact_spec(program_id, owner_key, true, pet_key, pet_prog, clock_key, data, kind, now)
            == Err::<Seq<u8>, IriError>(IriError::InvalidPda),
{
}

/// The models of a list of account handles.
pub open spec fn views_of(accounts: Seq<AccountView>) -> Seq<AccountModel> {
    accounts.map_values(|a: AccountView| a@)
}

/// Decode and dispatch one inbound request at host time `now`.
pub fn process_instruction(
    program_id: &Address,
    accounts: &Vec<AccountView>,
    input: &Vec<u8>,
    now: i64,
) -> (r: Result<Effect, ProcessError>)
    ensures
        (match r {
            Ok(e) => process_spec(program_id@, views_of(accounts@), input@, now) == Ok::<
                EffectModel,
                ProcessError,
            >(e@),
            Err(e) => process_spec(program_id@, views_of(accounts@), input@, now) == Err::<
                EffectModel,
                ProcessError,
            >(e),
        }),
{
    let ix = match parse_instruction(input) {
        Ok(ix) => ix,
        Err(e) => {
            return Err(ProcessError::Pet(e));
        },
    };
    if accounts.len() < 3 {
        return Err(ProcessError::MissingAccount);
    }
    let owner = &accounts[0];
    let pet = &accounts[1];
    let third = &accounts[2];
    match ix {
        IriInstruction::InitPet => {
            match process_init(program_id, owner, pet, now) {
                Ok(e) => Ok(e),
                Err(e) => Err(ProcessError::Pet(e)),
            }
        },
        IriInstruction::Interact { kind } => {
            match process_interact(program_id, owner, pet, third, kind, now) {
                Ok(v) => Ok(Effect::Update { data: v }),
                Err(e) => Err(ProcessError::Pet(e)),
            }
        },
    }
}

} // verus!
