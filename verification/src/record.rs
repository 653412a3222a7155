//! The pet record and its deterministic state machine: time-based decay and
//! bounded interaction deltas.

use vstd::prelude::*;
use crate::addr::Address;
use crate::stats::{clamp_add, clamp_add_spec, MAX_STAT};
use crate::IriError;

verus! {

/// Mathematical model of a pet record.
pub ghost struct RecordModel {
    pub owner: Seq<u8>,
    pub mood: u16,
    pub health: u16,
    pub gloss: u16,
    pub bump: u8,
    pub last_ts: i64,
}

/// The persistent pet record: one per owner.
#[derive(Clone, Copy, Debug)]
pub struct PetAccount {
    pub owner: Address,
    pub mood: u16,
    pub health: u16,
    pub gloss: u16,
    pub bump: u8,
    pub last_ts: i64,
}

impl View for PetAccount {
    type V = RecordModel;

    open spec fn view(&self) -> RecordModel {
        RecordModel {
            owner: self.owner@,
            mood: self.mood,
            health: self.health,
            gloss: self.gloss,
            bump: self.bump,
            last_ts: self.last_ts,
        }
    }
}

/// Well-formedness: each stat inside its bounds, a 32-byte owner identity.
pub open spec fn wf_record(m: RecordModel) -> bool {
    &&& m.mood <= MAX_STAT
    &&& m.health <= MAX_STAT
    &&& m.gloss <= MAX_STAT
    &&& m.owner.len() == 32
}

/// A stat after losing `loss` points, floored at zero.
pub open spec fn dec_stat(v: u16, loss: int) -> u16 {
    if loss >= v {
        0u16
    } else {
        (v - loss) as u16
    }
}

/// Decay: if `now` is not after the stored timestamp, only the timestamp
/// moves (to `now`); otherwise each stat loses its per-second rate times the
/// elapsed seconds, floored at zero, and the timestamp becomes `now`.
pub open spec fn decay_model(m: RecordModel, now: i64) -> RecordModel {
    if now <= m.last_ts {
        RecordModel { last_ts: now, ..m }
    } else {
        let elapsed = now - m.last_ts;
        RecordModel {
            mood: dec_stat(m.mood, 10 * elapsed),
            health: dec_stat(m.health, 4 * elapsed),
            gloss: dec_stat(m.gloss, 2 * elapsed),
            last_ts: now,
            ..m
        }
    }
}

/// One stat after decaying at `rate` points per second for `dt` seconds.
fn dec_stat_exec(v: u16, dt: u64, rate: u64) -> (r: u16)
    requires
        1 <= rate <= 10,
        dt >= 1,
    ensures
        r == dec_stat(v, rate * dt),
{
    if dt > 65535 {
        proof {
            assert(rate * dt >= 1 * dt) by (nonlinear_arith)
                requires
                    rate >= 1,
                    dt >= 0,
            ;
        }
        0
    } else {
        proof {
            assert(rate * dt <= 10 * 65535) by (nonlinear_arith)
                requires
                    rate <= 10,
                    dt <= 65535,
            ;
        }
        let loss: u64 = rate * dt;
        if loss >= v as u64 {
            0
        } else {
            v - (loss as u16)
        }
    }
}

/// Advance a record to time `now_ts` by applying decay in place.
pub fn apply_decay(pet: &mut PetAccount, now_ts: i64)
    ensures
        (*final(pet))@ == decay_model((*old(pet))@, now_ts),
{
    if now_ts <= pet.last_ts {
        pet.last_ts = now_ts;
        return;
    }
    let elapsed_wide: i128 = now_ts as i128 - pet.last_ts as i128;
    let dt: u64 = elapsed_wide as u64;
    pet.mood = dec_stat_exec(pet.mood, dt, 10);
    pet.health = dec_stat_exec(pet.health, dt, 4);
    pet.gloss = dec_stat_exec(pet.gloss, dt, 2);
    pet.last_ts = now_ts;
}

/// The stat delta of interaction `kind` (0 feed, 1 groom, 2 play), applied
/// after decay. Meaningful only for `kind <= 2`.
pub open spec fn interact_model(m: RecordModel, kind: u8) -> RecordModel {
    if kind == 0 {
        RecordModel {
            health: clamp_add_spec(m.health, 1000),
            mood: clamp_add_spec(m.mood, 500),
            ..m
        }
    } else if kind == 1 {
        RecordModel {
            gloss: clamp_add_spec(m.gloss, 1500),
            mood: clamp_add_spec(m.mood, 1000),
            ..m
        }
    } else {
        RecordModel {
            mood: clamp_add_spec(m.mood, 2000),
            health: clamp_add_spec(m.health, -500i32),
            ..m
        }
    }
}

/// Apply the stat delta of interaction `kind` in place; unknown kinds fail
/// and change nothing.
pub fn apply_interaction(pet: &mut PetAccount, kind: u8) -> (r: Result<(), IriError>)
    ensures
        kind <= 2 ==> r == Ok::<(), IriError>(()) && (*final(pet))@ == interact_model(
            (*old(pet))@,
            kind,
        ),
        kind > 2 ==> r == Err::<(), IriError>(IriError::InvalidInstruction) && *final(pet) == *old(
            pet,
        ),
{
    if kind == 0 {
        pet.health = clamp_add(pet.health, 1000);
        pet.mood = clamp_add(pet.mood, 500);
        Ok(())
    } else if kind == 1 {
        pet.gloss = clamp_add(pet.gloss, 1500);
        pet.mood = clamp_add(pet.mood, 1000);
        Ok(())
    } else if kind == 2 {
        pet.mood = clamp_add(pet.mood, 2000);
        pet.health = clamp_add(pet.health, -500);
        Ok(())
    } else {
        Err(IriError::InvalidInstruction)
    }
}

/// Decay at a time not after the stored timestamp moves only the timestamp:
/// every stat, the owner and the bump are untouched.
pub proof fn lemma_decay_not_forward(m: RecordModel, t1: i64)
    requires
        t1 <= m.last_ts,
    ensures
        decay_model(m, t1).mood == m.mood,
        decay_model(m, t1).health == m.health,
        decay_model(m, t1).gloss == m.gloss,
        decay_model(m, t1).owner == m.owner,
        decay_model(m, t1).bump == m.bump,
        decay_model(m, t1).last_ts == t1,
{
}

/// Decay is idempotent at a fixed time: decaying an already-decayed record
/// again at the same time changes nothing.
pub proof fn lemma_decay_idempotent(m: RecordModel, t: i64)
    ensures
        decay_model(decay_model(m, t), t) == decay_model(m, t),
{
}

/// Decay never raises any stat, at any time.
pub proof fn lemma_decay_monotone(m: RecordModel, t: i64)
    ensures
        decay_model(m, t).mood <= m.mood,
        decay_model(m, t).health <= m.health,
        decay_model(m, t).gloss <= m.gloss,
{
}

/// Interactions never drive a stat below the decayed value except where the
/// delta table says so: kinds 0 and 1 never lower any stat of a well-formed
/// record, and kind 2 lowers only health (by at most its 500-point delta).
pub proof fn lemma_interact_deltas(m: RecordModel, kind: u8)
    requires
        wf_record(m),
        kind <= 2,
    ensures
        kind == 0 || kind == 1 ==> interact_model(m, kind).mood >= m.mood
            && interact_model(m, kind).health >= m.health && interact_model(m, kind).gloss
            >= m.gloss,
        kind == 2 ==> interact_model(m, kind).mood >= m.mood && interact_model(m, kind).gloss
            == m.gloss && interact_model(m, kind).health >= m.health - 500,
{
}

/// Both steps of the state machine preserve well-formedness.
pub proof fn lemma_steps_preserve_wf(m: RecordModel, now: i64, kind: u8)
    requires
        wf_record(m),
    ensures
        wf_record(decay_model(m, now)),
        kind <= 2 ==> wf_record(interact_model(m, kind)),
{
}

} // verus!
