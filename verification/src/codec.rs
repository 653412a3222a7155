//! Fixed byte layout of the stored record and of the instruction payload.
//!
//! The serialized record is `owner`(32) ‖ `mood`(2) ‖ `health`(2) ‖
//! `gloss`(2) ‖ `bump`(1) ‖ `last_ts`(8), all multi-byte fields
//! little-endian, 47 bytes in all; a freshly created slot is 64 bytes with
//! the remainder zero-filled. The instruction payload is a one-byte tag,
//! optionally followed by the interaction kind, with no trailing bytes.

use vstd::prelude::*;
use crate::addr::Address;
use crate::record::{PetAccount, RecordModel};
use crate::IriError;

verus! {

/// Length of a serialized record.
pub const RECORD_LEN: usize = 47;

/// Fixed size of a freshly created record slot.
pub const SLOT_LEN: usize = 64;

/// Little-endian bytes of a 16-bit value.
pub open spec fn u16_le(v: u16) -> Seq<u8> {
    seq![(v & 0xff) as u8, ((v >> 8) & 0xff) as u8]
}

/// The 16-bit value read from two little-endian bytes.
pub open spec fn le_u16(b0: u8, b1: u8) -> u16 {
    (b0 as u16) | ((b1 as u16) << 8)
}

/// Little-endian bytes of a 64-bit value.
pub open spec fn u64_le(v: u64) -> Seq<u8> {
    seq![
        (v & 0xff) as u8,
        ((v >> 8) & 0xff) as u8,
        ((v >> 16) & 0xff) as u8,
        ((v >> 24) & 0xff) as u8,
        ((v >> 32) & 0xff) as u8,
        ((v >> 40) & 0xff) as u8,
        ((v >> 48) & 0xff) as u8,
        ((v >> 56) & 0xff) as u8,
    ]
}

/// The 64-bit value read from eight little-endian bytes.
pub open spec fn le_u64(b0: u8, b1: u8, b2: u8, b3: u8, b4: u8, b5: u8, b6: u8, b7: u8) -> u64 {
    (b0 as u64) | ((b1 as u64) << 8) | ((b2 as u64) << 16) | ((b3 as u64) << 24) | ((b4 as u64)
        << 32) | ((b5 as u64) << 40) | ((b6 as u64) << 48) | ((b7 as u64) << 56)
}

/// The unsigned 64-bit reinterpretation of a signed timestamp.
pub open spec fn i64_bits(v: i64) -> u64 {
    if v >= 0 {
        v as u64
    } else {
        ((v as int) + 0x10000000000000000) as u64
    }
}

/// The signed timestamp read back from its unsigned reinterpretation.
pub open spec fn bits_i64(u: u64) -> i64 {
    if u < 0x8000000000000000 {
        u as i64
    } else {
        ((u as int) - 0x10000000000000000) as i64
    }
}

/// The serialized form of a record.
pub open spec fn record_bytes(m: RecordModel) -> Seq<u8> {
    m.owner + u16_le(m.mood) + u16_le(m.health) + u16_le(m.gloss) + seq![m.bump] + u64_le(
        i64_bits(m.last_ts),
    )
}

/// The record read from the first 47 bytes of a slot (meaningful when the
/// slot holds at least that much).
pub open spec fn decode_model(d: Seq<u8>) -> RecordModel {
    RecordModel {
        owner: d.subrange(0, 32),
        mood: le_u16(d[32], d[33]),
        health: le_u16(d[34], d[35]),
        gloss: le_u16(d[36], d[37]),
        bump: d[38],
        last_ts: bits_i64(le_u64(d[39], d[40], d[41], d[42], d[43], d[44], d[45], d[46])),
    }
}

proof fn lemma_u16_round(v: u16)
    ensures
        le_u16((v & 0xff) as u8, ((v >> 8) & 0xff) as u8) == v,
{
    assert((((v & 0xff) as u8) as u16) | (((((v >> 8) & 0xff) as u8) as u16) << 8) == v)
        by (bit_vector);
}

proof fn lemma_u64_round(v: u64)
    ensures
        le_u64(
            (v & 0xff) as u8,
            ((v >> 8) & 0xff) as u8,
            ((v >> 16) & 0xff) as u8,
            ((v >> 24) & 0xff) as u8,
            ((v >> 32) & 0xff) as u8,
            ((v >> 40) & 0xff) as u8,
            ((v >> 48) & 0xff) as u8,
            ((v >> 56) & 0xff) as u8,
        ) == v,
{
    assert((((v & 0xff) as u8) as u64) | (((((v >> 8) & 0xff) as u8) as u64) << 8) | (((((v >> 16)
        & 0xff) as u8) as u64) << 16) | (((((v >> 24) & 0xff) as u8) as u64) << 24) | (((((v >> 32)
        & 0xff) as u8) as u64) << 32) | (((((v >> 40) & 0xff) as u8) as u64) << 40) | (((((v >> 48)
        & 0xff) as u8) as u64) << 48) | (((((v >> 56) & 0xff) as u8) as u64) << 56) == v)
        by (bit_vector);
}

proof fn lemma_i64_bits_round(v: i64)
    ensures
        bits_i64(i64_bits(v)) == v,
{
}

/// Reading a serialized record back yields the record that was written:
/// the layout loses nothing.
pub proof fn lemma_record_round_trip(m: RecordModel)
    requires
        m.owner.len() == 32,
    ensures
        decode_model(record_bytes(m)) == m,
{
    let d = record_bytes(m);
    assert(d.subrange(0, 32) =~= m.owner);
    assert(d[32] == u16_le(m.mood)[0] && d[33] == u16_le(m.mood)[1]);
    assert(d[34] == u16_le(m.health)[0] && d[35] == u16_le(m.health)[1]);
    assert(d[36] == u16_le(m.gloss)[0] && d[37] == u16_le(m.gloss)[1]);
    assert(d[38] == m.bump);
    let w = u64_le(i64_bits(m.last_ts));
    assert(d[39] == w[0] && d[40] == w[1] && d[41] == w[2] && d[42] == w[3] && d[43] == w[4]
        && d[44] == w[5] && d[45] == w[6] && d[46] == w[7]);
    lemma_u16_round(m.mood);
    lemma_u16_round(m.health);
    lemma_u16_round(m.gloss);
    lemma_u64_round(i64_bits(m.last_ts));
    lemma_i64_bits_round(m.last_ts);
}

fn push_u16(out: &mut Vec<u8>, v: u16)
    ensures
        (*final(out))@ == (*old(out))@ + u16_le(v),
{
    proof {
        assert((v & 0xff) < 256 && ((v >> 8) & 0xff) < 256) by (bit_vector);
    }
    out.push((v & 0xff) as u8);
    out.push(((v >> 8) & 0xff) as u8);
    proof {
        assert(out@ =~= old(out)@ + u16_le(v));
    }
}

fn push_u64(out: &mut Vec<u8>, v: u64)
    ensures
        (*final(out))@ == (*old(out))@ + u64_le(v),
{
    proof {
        assert((v & 0xff) < 256 && ((v >> 8) & 0xff) < 256 && ((v >> 16) & 0xff) < 256 && ((v
            >> 24) & 0xff) < 256 && ((v >> 32) & 0xff) < 256 && ((v >> 40) & 0xff) < 256 && ((v
            >> 48) & 0xff) < 256 && ((v >> 56) & 0xff) < 256) by (bit_vector);
    }
    out.push((v & 0xff) as u8);
    out.push(((v >> 8) & 0xff) as u8);
    out.push(((v >> 16) & 0xff) as u8);
    out.push(((v >> 24) & 0xff) as u8);
    out.push(((v >> 32) & 0xff) as u8);
    out.push(((v >> 40) & 0xff) as u8);
    out.push(((v >> 48) & 0xff) as u8);
    out.push(((v >> 56) & 0xff) as u8);
    proof {
        assert(out@ =~= old(out)@ + u64_le(v));
    }
}

fn ts_bits(v: i64) -> (r: u64)
    ensures
        r == i64_bits(v),
{
    if v >= 0 {
        v as u64
    } else {
        ((v as i128) + 0x10000000000000000i128) as u64
    }
}

fn bits_ts(u: u64) -> (r: i64)
    ensures
        r == bits_i64(u),
{
    if u < 0x8000000000000000 {
        u as i64
    } else {
        ((u as i128) - 0x10000000000000000i128) as i64
    }
}

/// Serialize a record into its 47-byte form.
pub fn encode_record(p: &PetAccount) -> (r: Vec<u8>)
    ensures
        r@ == record_bytes(p@),
        r@.len() == RECORD_LEN,
{
    let mut out: Vec<u8> = Vec::new();
    let mut i: usize = 0;
    while i < 32
        invariant
            i <= 32,
            out@ == p.owner.0@.subrange(0, i as int),
        decreases 32 - i,
    {
        out.push(p.owner.0[i]);
        proof {
            assert(out@ =~= p.owner.0@.subrange(0, i + 1));
        }
        i += 1;
    }
    push_u16(&mut out, p.mood);
    push_u16(&mut out, p.health);
    push_u16(&mut out, p.gloss);
    out.push(p.bump);
    let bits: u64 = ts_bits(p.last_ts);
    push_u64(&mut out, bits);
    proof {
        assert(p.owner.0@.subrange(0, 32) =~= p.owner@);
        assert(out@ =~= record_bytes(p@));
    }
    out
}

fn read_u16(d: &Vec<u8>, off: usize) -> (r: u16)
    requires
        off + 2 <= d@.len(),
    ensures
        r == le_u16(d@[off as int], d@[off as int + 1]),
{
    let n = d.len();
    proof {
        assert(off + 2 <= n);
    }
    (d[off] as u16) | ((d[off + 1] as u16) << 8)
}

fn read_u64(d: &Vec<u8>, off: usize) -> (r: u64)
    requires
        off + 8 <= d@.len(),
    ensures
        r == le_u64(
            d@[off as int],
            d@[off as int + 1],
            d@[off as int + 2],
            d@[off as int + 3],
            d@[off as int + 4],
            d@[off as int + 5],
            d@[off as int + 6],
            d@[off as int + 7],
        ),
{
    let n = d.len();
    proof {
        assert(off + 8 <= n);
    }
    (d[off] as u64) | ((d[off + 1] as u64) << 8) | ((d[off + 2] as u64) << 16) | ((d[off + 3]
        as u64) << 24) | ((d[off + 4] as u64) << 32) | ((d[off + 5] as u64) << 40) | ((d[off + 6]
        as u64) << 48) | ((d[off + 7] as u64) << 56)
}

/// Read a record out of a slot's bytes; a slot too short to hold one is
/// rejected.
pub fn decode_record(d: &Vec<u8>) -> (r: Result<PetAccount, IriError>)
    ensures
        d@.len() >= RECORD_LEN ==> (match r {
            Ok(p) => p@ == decode_model(d@),
            Err(_) => false,
        }),
        d@.len() < RECORD_LEN ==> r == Err::<PetAccount, IriError>(IriError::InvalidAccount),
{
    if d.len() < RECORD_LEN {
        return Err(IriError::InvalidAccount);
    }
    let mut owner: [u8; 32] = [0u8; 32];
    let mut i: usize = 0;
    while i < 32
        invariant
            i <= 32,
            d@.len() >= 47,
            forall|j: int| 0 <= j < i ==> owner@[j] == d@[j],
        decreases 32 - i,
    {
        owner[i] = d[i];
        i += 1;
    }
    proof {
        assert(owner@ =~= d@.subrange(0, 32));
    }
    let last_bits = read_u64(d, 39);
    let p = PetAccount {
        owner: Address(owner),
        mood: read_u16(d, 32),
        health: read_u16(d, 34),
        gloss: read_u16(d, 36),
        bump: d[38],
        last_ts: bits_ts(last_bits),
    };
    Ok(p)
}

/// The full image of a freshly written slot of capacity `slot_len`: the
/// serialized record, then zeros.
pub open spec fn slot_image(m: RecordModel, slot_len: int) -> Seq<u8> {
    record_bytes(m) + Seq::new((slot_len - record_bytes(m).len()) as nat, |i: int| 0u8)
}

/// Serialize a record into a slot of capacity `slot_len`, zero-filling the
/// remainder; fails if the record does not fit.
pub fn encode_into_slot(p: &PetAccount, slot_len: usize) -> (r: Result<Vec<u8>, IriError>)
    ensures
        p@.owner.len() == 32 && slot_len >= RECORD_LEN ==> (match r {
            Ok(v) => v@ == slot_image(p@, slot_len as int) && v@.len() == slot_len,
            Err(_) => false,
        }),
        p@.owner.len() == 32 && slot_len < RECORD_LEN ==> r == Err::<Vec<u8>, IriError>(
            IriError::InvalidAccount,
        ),
{
    let mut v = encode_record(p);
    if v.len() > slot_len {
        return Err(IriError::InvalidAccount);
    }
    while v.len() < slot_len
        invariant
            v@.len() <= slot_len,
            v@.subrange(0, 47) == record_bytes(p@),
            v@.len() >= 47,
            forall|j: int| 47 <= j < v@.len() ==> v@[j] == 0u8,
        decreases slot_len - v@.len(),
    {
        v.push(0u8);
    }
    proof {
        assert(v@ =~= slot_image(p@, slot_len as int));
    }
    Ok(v)
}

/// A slot image decodes to the record that was written into it: the
/// zero-fill beyond the record disturbs nothing.
pub proof fn lemma_slot_image_round_trip(m: RecordModel, cap: int)
    requires
        m.owner.len() == 32,
        cap >= RECORD_LEN,
    ensures
        decode_model(slot_image(m, cap)) == m,
{
    let rb = record_bytes(m);
    let d = slot_image(m, cap);
    assert(rb.len() == 47);
    assert(forall|i: int| 0 <= i < 47 ==> d[i] == rb[i]);
    assert(d.subrange(0, 32) =~= rb.subrange(0, 32));
    lemma_record_round_trip(m);
    assert(decode_model(d) == decode_model(rb));
}

/// The decoded operation tag: initialize, or interact with a kind.
#[derive(Clone, Copy, Debug, PartialEq, Eq, Structural)]
pub enum IriInstruction {
    InitPet,
    Interact { kind: u8 },
}

/// What `parse_instruction` accepts: a one-byte tag 0 with no fields, or a
/// tag 1 followed by exactly one kind byte; anything else is rejected.
pub open spec fn parse_instruction_spec(input: Seq<u8>) -> Result<IriInstruction, IriError> {
    if input.len() == 1 && input[0] == 0 {
        Ok(IriInstruction::InitPet)
    } else if input.len() == 2 && input[0] == 1 {
        Ok(IriInstruction::Interact { kind: input[1] })
    } else {
        Err(IriError::InvalidInstruction)
    }
}

/// Decode the opaque instruction payload; unrecognized, truncated or
/// oversized payloads fail before any account is touched.
pub fn parse_instruction(input: &Vec<u8>) -> (r: Result<IriInstruction, IriError>)
    ensures
        r == parse_instruction_spec(input@),
{
    if input.len() == 1 && input[0] == 0 {
        Ok(IriInstruction::InitPet)
    } else if input.len() == 2 && input[0] == 1 {
        Ok(IriInstruction::Interact { kind: input[1] })
    } else {
        Err(IriError::InvalidInstruction)
    }
}

} // verus!
