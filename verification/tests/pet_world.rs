use iri_pet_world::addr::{addr_eq, clock_identity, creation_service_identity, Address};
use iri_pet_world::codec::{
    decode_record, encode_into_slot, encode_record, parse_instruction, IriInstruction, RECORD_LEN,
    SLOT_LEN,
};
use iri_pet_world::controller::{AccountView, Effect, ProcessError};
use iri_pet_world::record::{apply_decay, apply_interaction};
use iri_pet_world::{clamp_add, IriError, PetAccount};

fn sample_record() -> PetAccount {
    PetAccount {
        owner: Address([9u8; 32]),
        mood: 8000,
        health: 9000,
        gloss: 7500,
        bump: 254,
        last_ts: 1000,
    }
}

#[test]
fn clamp_add_stays_in_bounds() {
    assert_eq!(clamp_add(5000, 300), 5300);
    assert_eq!(clamp_add(5000, -300), 4700);
    assert_eq!(clamp_add(5000, 0), 5000);
    assert_eq!(clamp_add(9900, 2000), 10000);
    assert_eq!(clamp_add(10000, 1), 10000);
    assert_eq!(clamp_add(100, -2000), 0);
    assert_eq!(clamp_add(0, -1), 0);
}

#[test]
fn clamp_add_extreme_deltas() {
    assert_eq!(clamp_add(10000, i32::MIN), 0);
    assert_eq!(clamp_add(0, i32::MAX), 10000);
    assert_eq!(clamp_add(0, i32::MIN), 0);
    assert_eq!(clamp_add(10000, i32::MAX), 10000);
}

#[test]
fn decay_ten_seconds() {
    let mut pet = sample_record();
    apply_decay(&mut pet, 1010);
    assert_eq!(pet.mood, 7900);
    assert_eq!(pet.health, 8960);
    assert_eq!(pet.gloss, 7480);
    assert_eq!(pet.last_ts, 1010);
}

#[test]
fn decay_backwards_time_only_moves_timestamp() {
    let mut pet = sample_record();
    apply_decay(&mut pet, 900);
    assert_eq!(pet.mood, 8000);
    assert_eq!(pet.health, 9000);
    assert_eq!(pet.gloss, 7500);
    assert_eq!(pet.last_ts, 900);
}

#[test]
fn decay_twice_at_same_time_is_idempotent() {
    let mut once = sample_record();
    apply_decay(&mut once, 1234);
    let mut twice = once;
    apply_decay(&mut twice, 1234);
    assert_eq!(once.mood, twice.mood);
    assert_eq!(once.health, twice.health);
    assert_eq!(once.gloss, twice.gloss);
    assert_eq!(once.last_ts, twice.last_ts);
}

#[test]
fn decay_saturates_on_huge_elapsed_time() {
    let mut pet = sample_record();
    pet.last_ts = i64::MIN;
    apply_decay(&mut pet, i64::MAX);
    assert_eq!(pet.mood, 0);
    assert_eq!(pet.health, 0);
    assert_eq!(pet.gloss, 0);
    assert_eq!(pet.last_ts, i64::MAX);
}

#[test]
fn interaction_deltas_match_table() {
    let mut feed = sample_record();
    assert!(apply_interaction(&mut feed, 0).is_ok());
    assert_eq!((feed.mood, feed.health, feed.gloss), (8500, 10000, 7500));

    let mut groom = sample_record();
    assert!(apply_interaction(&mut groom, 1).is_ok());
    assert_eq!((groom.mood, groom.health, groom.gloss), (9000, 9000, 9000));

    let mut play = sample_record();
    assert!(apply_interaction(&mut play, 2).is_ok());
    assert_eq!((play.mood, play.health, play.gloss), (10000, 8500, 7500));

    let mut unknown = sample_record();
    assert_eq!(apply_interaction(&mut unknown, 3), Err(IriError::InvalidInstruction));
    assert_eq!((unknown.mood, unknown.health, unknown.gloss), (8000, 9000, 7500));
}

#[test]
fn record_codec_round_trip() {
    let pet = PetAccount {
        owner: Address([3u8; 32]),
        mood: 1,
        health: 65535,
        gloss: 0x1234,
        bump: 7,
        last_ts: -123456789,
    };
    let bytes = encode_record(&pet);
    assert_eq!(bytes.len(), RECORD_LEN);
    let back = decode_record(&bytes).unwrap();
    assert_eq!(back.owner.0, pet.owner.0);
    assert_eq!(back.mood, pet.mood);
    assert_eq!(back.health, pet.health);
    assert_eq!(back.gloss, pet.gloss);
    assert_eq!(back.bump, pet.bump);
    assert_eq!(back.last_ts, pet.last_ts);
}

#[test]
fn record_layout_matches_reference_encoding() {
    let pet = sample_record();
    let bytes = encode_record(&pet);
    let reference = borsh::to_vec(&(
        pet.owner.0,
        pet.mood,
        pet.health,
        pet.gloss,
        pet.bump,
        pet.last_ts,
    ))
    .unwrap();
    assert_eq!(bytes, reference);
}

#[test]
fn record_layout_is_little_endian_at_fixed_offsets() {
    let pet = PetAccount {
        owner: Address([0xabu8; 32]),
        mood: 0x0102,
        health: 0x0304,
        gloss: 0x0506,
        bump: 0x77,
        last_ts: 0x0807060504030201,
    };
    let bytes = encode_record(&pet);
    assert_eq!(&bytes[0..32], &[0xabu8; 32]);
    assert_eq!(&bytes[32..34], &[0x02, 0x01]);
    assert_eq!(&bytes[34..36], &[0x04, 0x03]);
    assert_eq!(&bytes[36..38], &[0x06, 0x05]);
    assert_eq!(bytes[38], 0x77);
    assert_eq!(&bytes[39..47], &[0x01, 0x02, 0x03, 0x04, 0x05, 0x06, 0x07, 0x08]);
}

#[test]
fn slot_image_zero_fills_and_checks_capacity() {
    let pet = sample_record();
    let image = encode_into_slot(&pet, SLOT_LEN).unwrap();
    assert_eq!(image.len(), SLOT_LEN);
    assert_eq!(&image[0..RECORD_LEN], &encode_record(&pet)[..]);
    assert!(image[RECORD_LEN..].iter().all(|b| *b == 0));
    assert_eq!(encode_into_slot(&pet, RECORD_LEN - 1), Err(IriError::InvalidAccount));
}

#[test]
fn decode_rejects_short_slots() {
    let short = vec![0u8; RECORD_LEN - 1];
    assert!(matches!(decode_record(&short), Err(IriError::InvalidAccount)));
}

#[test]
fn instruction_parsing_is_exact() {
    assert_eq!(parse_instruction(&vec![0]), Ok(IriInstruction::InitPet));
    assert_eq!(parse_instruction(&vec![1, 2]), Ok(IriInstruction::Interact { kind: 2 }));
    assert_eq!(parse_instruction(&vec![1, 5]), Ok(IriInstruction::Interact { kind: 5 }));
    assert_eq!(parse_instruction(&vec![]), Err(IriError::InvalidInstruction));
    assert_eq!(parse_instruction(&vec![2]), Err(IriError::InvalidInstruction));
    assert_eq!(parse_instruction(&vec![0, 0]), Err(IriError::InvalidInstruction));
    assert_eq!(parse_instruction(&vec![1]), Err(IriError::InvalidInstruction));
    assert_eq!(parse_instruction(&vec![1, 2, 3]), Err(IriError::InvalidInstruction));
}

#[test]
fn fixed_role_identities_match_the_ledger() {
    assert_eq!(clock_identity().0, solana_program::sysvar::clock::id().to_bytes());
    assert_eq!(creation_service_identity().0, solana_system_interface::program::ID.to_bytes());
}

fn derived_pet_key(program_id: &Address, owner: &Address) -> (Address, u8) {
    let pid = solana_program::pubkey::Pubkey::new_from_array(program_id.0);
    let ok = solana_program::pubkey::Pubkey::new_from_array(owner.0);
    let (pda, bump) =
        solana_program::pubkey::Pubkey::find_program_address(&[b"pet", ok.as_ref()], &pid);
    (Address(pda.to_bytes()), bump)
}

fn init_accounts(owner: Address, pet_key: Address, pet_owner: Address) -> Vec<AccountView> {
    vec![
        AccountView { key: owner, is_signer: true, owner: creation_service_identity(), data: vec![] },
        AccountView { key: pet_key, is_signer: false, owner: pet_owner, data: vec![] },
        AccountView {
            key: creation_service_identity(),
            is_signer: false,
            owner: creation_service_identity(),
            data: vec![],
        },
    ]
}

fn interact_accounts(
    owner: Address,
    signs: bool,
    pet_key: Address,
    pet_owner: Address,
    data: Vec<u8>,
    clock_key: Address,
) -> Vec<AccountView> {
    vec![
        AccountView { key: owner, is_signer: signs, owner: creation_service_identity(), data: vec![] },
        AccountView { key: pet_key, is_signer: false, owner: pet_owner, data },
        AccountView {
            key: clock_key,
            is_signer: false,
            owner: creation_service_identity(),
            data: vec![],
        },
    ]
}

#[test]
fn initialize_then_play_end_to_end() {
    let program_id = Address([7u8; 32]);
    let owner = Address([1u8; 32]);
    let (pet_key, bump) = derived_pet_key(&program_id, &owner);

    let accounts = init_accounts(owner, pet_key, creation_service_identity());
    let effect = iri_pet_world::controller::process_instruction(
        &program_id,
        &accounts,
        &vec![0],
        1000,
    )
    .unwrap();
    let slot = match effect {
        Effect::Init { needs_create, bump: b, data } => {
            assert!(needs_create);
            assert_eq!(b, bump);
            assert_eq!(data.len(), SLOT_LEN);
            assert!(data[RECORD_LEN..].iter().all(|x| *x == 0));
            data
        }
        Effect::Update { .. } => panic!("initialize must report an init effect"),
    };
    let stored = decode_record(&slot).unwrap();
    assert_eq!(stored.owner.0, owner.0);
    assert_eq!((stored.mood, stored.health, stored.gloss), (8000, 9000, 7500));
    assert_eq!(stored.bump, bump);
    assert_eq!(stored.last_ts, 1000);

    let accounts =
        interact_accounts(owner, true, pet_key, program_id, slot, clock_identity());
    let effect = iri_pet_world::controller::process_instruction(
        &program_id,
        &accounts,
        &vec![1, 2],
        1010,
    )
    .unwrap();
    let written = match effect {
        Effect::Update { data } => data,
        Effect::Init { .. } => panic!("interact must report an update effect"),
    };
    let pet = decode_record(&written).unwrap();
    assert_eq!(pet.mood, 9900);
    assert_eq!(pet.health, 8460);
    assert_eq!(pet.gloss, 7480);
    assert_eq!(pet.last_ts, 1010);
    assert_eq!(pet.owner.0, owner.0);
}

#[test]
fn reinitialize_of_owned_slot_needs_no_creation() {
    let program_id = Address([7u8; 32]);
    let owner = Address([1u8; 32]);
    let (pet_key, _) = derived_pet_key(&program_id, &owner);
    let mut accounts = init_accounts(owner, pet_key, program_id);
    accounts[1].data = vec![0u8; SLOT_LEN];
    let effect =
        iri_pet_world::controller::process_instruction(&program_id, &accounts, &vec![0], 42)
            .unwrap();
    match effect {
        Effect::Init { needs_create, data, .. } => {
            assert!(!needs_create);
            assert_eq!(data.len(), SLOT_LEN);
        }
        Effect::Update { .. } => panic!("initialize must report an init effect"),
    }
}

#[test]
fn unknown_kind_fails_and_writes_nothing() {
    let program_id = Address([7u8; 32]);
    let owner = Address([1u8; 32]);
    let (pet_key, _) = derived_pet_key(&program_id, &owner);
    let mut stored = sample_record();
    stored.owner = owner;
    let slot = encode_into_slot(&stored, SLOT_LEN).unwrap();
    let accounts =
        interact_accounts(owner, true, pet_key, program_id, slot, clock_identity());
    let r = iri_pet_world::controller::process_instruction(
        &program_id,
        &accounts,
        &vec![1, 5],
        2000,
    );
    assert_eq!(r.unwrap_err(), ProcessError::Pet(IriError::InvalidInstruction));
}

#[test]
fn signer_that_is_not_stored_owner_is_unauthorized() {
    let program_id = Address([7u8; 32]);
    let real_owner = Address([1u8; 32]);
    let intruder = Address([2u8; 32]);
    let (intruder_pet_key, _) = derived_pet_key(&program_id, &intruder);
    let mut stored = sample_record();
    stored.owner = real_owner;
    let slot = encode_into_slot(&stored, SLOT_LEN).unwrap();
    let accounts = interact_accounts(
        intruder,
        true,
        intruder_pet_key,
        program_id,
        slot,
        clock_identity(),
    );
    let r = iri_pet_world::controller::process_instruction(
        &program_id,
        &accounts,
        &vec![1, 0],
        2000,
    );
    assert_eq!(r.unwrap_err(), ProcessError::Pet(IriError::Unauthorized));
}

#[test]
fn missing_signature_is_unauthorized() {
    let program_id = Address([7u8; 32]);
    let owner = Address([1u8; 32]);
    let (pet_key, _) = derived_pet_key(&program_id, &owner);
    let mut stored = sample_record();
    stored.owner = owner;
    let slot = encode_into_slot(&stored, SLOT_LEN).unwrap();
    let accounts =
        interact_accounts(owner, false, pet_key, program_id, slot, clock_identity());
    let r = iri_pet_world::controller::process_instruction(
        &program_id,
        &accounts,
        &vec![1, 0],
        2000,
    );
    assert_eq!(r.unwrap_err(), ProcessError::Pet(IriError::Unauthorized));
}

#[test]
fn wrong_slot_address_is_rejected_on_both_operations() {
    let program_id = Address([7u8; 32]);
    let owner = Address([1u8; 32]);
    let wrong_key = Address([250u8; 32]);
    let accounts = init_accounts(owner, wrong_key, creation_service_identity());
    let r = iri_pet_world::controller::process_instruction(&program_id, &accounts, &vec![0], 7);
    assert_eq!(r.unwrap_err(), ProcessError::Pet(IriError::InvalidPda));

    let mut stored = sample_record();
    stored.owner = owner;
    let slot = encode_into_slot(&stored, SLOT_LEN).unwrap();
    let accounts =
        interact_accounts(owner, true, wrong_key, program_id, slot, clock_identity());
    let r =
        iri_pet_world::controller::process_instruction(&program_id, &accounts, &vec![1, 0], 7);
    assert_eq!(r.unwrap_err(), ProcessError::Pet(IriError::InvalidPda));
}

#[test]
fn wrong_clock_identity_is_rejected() {
    let program_id = Address([7u8; 32]);
    let owner = Address([1u8; 32]);
    let (pet_key, _) = derived_pet_key(&program_id, &owner);
    let mut stored = sample_record();
    stored.owner = owner;
    let slot = encode_into_slot(&stored, SLOT_LEN).unwrap();
    let accounts =
        interact_accounts(owner, true, pet_key, program_id, slot, Address([5u8; 32]));
    let r = iri_pet_world::controller::process_instruction(
        &program_id,
        &accounts,
        &vec![1, 0],
        2000,
    );
    assert_eq!(r.unwrap_err(), ProcessError::Pet(IriError::InvalidAccount));
}

#[test]
fn slot_not_owned_by_program_is_rejected_on_interact() {
    let program_id = Address([7u8; 32]);
    let owner = Address([1u8; 32]);
    let (pet_key, _) = derived_pet_key(&program_id, &owner);
    let mut stored = sample_record();
    stored.owner = owner;
    let slot = encode_into_slot(&stored, SLOT_LEN).unwrap();
    let accounts = interact_accounts(
        owner,
        true,
        pet_key,
        Address([99u8; 32]),
        slot,
        clock_identity(),
    );
    let r = iri_pet_world::controller::process_instruction(
        &program_id,
        &accounts,
        &vec![1, 0],
        2000,
    );
    assert_eq!(r.unwrap_err(), ProcessError::Pet(IriError::InvalidAccount));
}

#[test]
fn slot_owned_by_stranger_is_rejected_on_initialize() {
    let program_id = Address([7u8; 32]);
    let owner = Address([1u8; 32]);
    let (pet_key, _) = derived_pet_key(&program_id, &owner);
    let accounts = init_accounts(owner, pet_key, Address([99u8; 32]));
    let r = iri_pet_world::controller::process_instruction(&program_id, &accounts, &vec![0], 7);
    assert_eq!(r.unwrap_err(), ProcessError::Pet(IriError::InvalidAccount));
}

#[test]
fn too_few_accounts_is_a_missing_account_error() {
    let program_id = Address([7u8; 32]);
    let owner = Address([1u8; 32]);
    let accounts = vec![AccountView {
        key: owner,
        is_signer: true,
        owner: creation_service_identity(),
        data: vec![],
    }];
    let r = iri_pet_world::controller::process_instruction(&program_id, &accounts, &vec![0], 7);
    assert_eq!(r.unwrap_err(), ProcessError::MissingAccount);

    let r = iri_pet_world::controller::process_instruction(&program_id, &vec![], &vec![1, 0], 7);
    assert_eq!(r.unwrap_err(), ProcessError::MissingAccount);
}

#[test]
fn malformed_payload_fails_before_accounts_are_read() {
    let program_id = Address([7u8; 32]);
    let r = iri_pet_world::controller::process_instruction(&program_id, &vec![], &vec![9, 9], 7);
    assert_eq!(r.unwrap_err(), ProcessError::Pet(IriError::InvalidInstruction));
}

#[test]
fn address_equality_is_bytewise() {
    let a = Address([1u8; 32]);
    let mut b = Address([1u8; 32]);
    assert!(addr_eq(&a, &b));
    b.0[31] = 2;
    assert!(!addr_eq(&a, &b));
}

#[test]
fn interact_on_undersized_slot_is_invalid_account() {
    let program_id = Address([7u8; 32]);
    let owner = Address([1u8; 32]);
    let (pet_key, _) = derived_pet_key(&program_id, &owner);
    let accounts = interact_accounts(
        owner,
        true,
        pet_key,
        program_id,
        vec![0u8; RECORD_LEN - 1],
        clock_identity(),
    );
    let r = iri_pet_world::controller::process_instruction(
        &program_id,
        &accounts,
        &vec![1, 0],
        2000,
    );
    assert_eq!(r.unwrap_err(), ProcessError::Pet(IriError::InvalidAccount));
}
