//! Timed conditions (status effects): decay on the fast cadence, the
//! per-type effect on hp, and gating of actions.
use vstd::prelude::*;
use crate::entity::Entity;

verus! {

#[derive(Clone, Copy, Debug, PartialEq, Eq, Structural)]
pub enum ConditionType {
    Burning,
    Poisoned,
    Diseased,
    Bleeding,
    Choking,
    Regenerating,
    Meditating,
    WellRested,
    Shocked,
    Frozen,
    Paralzed,
    Dazed,
    Inebriated,
    Comatose,
    Blinded,
    Encumbered,
    Exhausted,
    Bound,
    Grappled,
    Sitting,
    Prone,
    Supine,
    Wet,
    Muddy,
    Oiled,
}

/// A timed effect on an entity; `magnitude` is its strength per tick.
#[derive(Clone, Copy, Debug, PartialEq, Eq, Structural)]
pub struct Condition {
    pub id: u64,
    pub condition_type: ConditionType,
    pub magnitude: i32,
    pub remaining_ticks: i32,
    pub source_id: Option<u64>,
    pub applied_at: i64,
    pub entity_id: u64,
}

/// The condition after one decay pass: one tick fewer while any remain.
pub open spec fn decayed(c: Condition) -> Condition {
    if c.remaining_ticks > 0 {
        Condition { remaining_ticks: (c.remaining_ticks - 1) as i32, ..c }
    } else {
        c
    }
}

/// A condition outlives a decay pass when more than one tick remains.
pub open spec fn outlives_decay(c: Condition) -> bool {
    c.remaining_ticks > 1
}

pub open spec fn survivor() -> spec_fn(Condition) -> bool {
    |c: Condition| outlives_decay(c)
}

pub open spec fn casualty() -> spec_fn(Condition) -> bool {
    |c: Condition| !outlives_decay(c)
}

pub open spec fn decay_map() -> spec_fn(Condition) -> Condition {
    |c: Condition| decayed(c)
}

/// One decay pass: each condition loses a tick, and those with no tick left
/// (or none to begin with) leave. Returns the remaining conditions and the
/// expired ones, each in the order they came.
pub fn decay_tick(conditions: Vec<Condition>) -> (r: (Vec<Condition>, Vec<Condition>))
    ensures
        r.0@ == conditions@.filter(survivor()).map_values(decay_map()),
        r.1@ == conditions@.filter(casualty()).map_values(decay_map()),
{
    let mut remaining: Vec<Condition> = Vec::new();
    let mut expired: Vec<Condition> = Vec::new();
    let mut i: usize = 0;
    while i < conditions.len()
        invariant
            0 <= i <= conditions@.len(),
            remaining@ == conditions@.subrange(0, i as int).filter(survivor()).map_values(decay_map()),
            expired@ == conditions@.subrange(0, i as int).filter(casualty()).map_values(decay_map()),
        decreases conditions.len() - i,
    {
        let c = conditions[i];
        let mut d = c;
        if c.remaining_ticks > 0 {
            d.remaining_ticks = c.remaining_ticks - 1;
        }
        proof {
            let s = conditions@.subrange(0, i as int + 1);
            assert(s.drop_last() =~= conditions@.subrange(0, i as int));
            reveal(Seq::filter);
            let prev_r = conditions@.subrange(0, i as int).filter(survivor());
            let prev_e = conditions@.subrange(0, i as int).filter(casualty());
            assert(prev_r.push(c).map_values(decay_map()) =~= prev_r.map_values(decay_map()).push(d));
            assert(prev_e.push(c).map_values(decay_map()) =~= prev_e.map_values(decay_map()).push(d));
        }
        if c.remaining_ticks > 1 {
            remaining.push(d);
        } else {
            expired.push(d);
        }
        i = i + 1;
    }
    assert(conditions@.subrange(0, conditions@.len() as int) =~= conditions@);
    (remaining, expired)
}

/// A condition with one tick left expires in the first decay pass; one with
/// none left expires in it too, without being decremented.
pub proof fn lemma_decay_expiry(c: Condition)
    ensures
        c.remaining_ticks == 1 ==> !outlives_decay(c) && decayed(c).remaining_ticks == 0,
        c.remaining_ticks <= 0 ==> !outlives_decay(c) && decayed(c) == c,
        c.remaining_ticks > 1 ==> outlives_decay(c) && decayed(c).remaining_ticks == c.remaining_ticks - 1,
{
}

/// Whether any of the conditions is of the gating type.
pub open spec fn gated_by(conditions: Seq<Condition>, gate: ConditionType) -> bool {
    exists|i: int| 0 <= i < conditions.len() && (#[trigger] conditions[i]).condition_type == gate
}

pub fn has_gating_condition(conditions: &Vec<Condition>, gate: ConditionType) -> (r: bool)
    ensures
        r == gated_by(conditions@, gate),
{
    let mut i: usize = 0;
    while i < conditions.len()
        invariant
            0 <= i <= conditions@.len(),
            forall|j: int| 0 <= j < i ==> (#[trigger] conditions@[j]).condition_type != gate,
        decreases conditions.len() - i,
    {
        if conditions[i].condition_type == gate {
            return true;
        }
        i = i + 1;
    }
    false
}

/// The hp damage that one tick of a condition deals: damage-over-time types
/// deal their magnitude, healing-over-time types heal it, the rest nothing.
/// A condition with no tick left does nothing.
pub open spec fn tick_damage(c: Condition) -> int {
    if c.remaining_ticks <= 0 {
        0
    } else {
        match c.condition_type {
            ConditionType::Burning | ConditionType::Poisoned | ConditionType::Diseased
            | ConditionType::Bleeding | ConditionType::Choking => c.magnitude as int,
            ConditionType::Regenerating | ConditionType::Meditating
            | ConditionType::WellRested => -(c.magnitude as int),
            _ => 0,
        }
    }
}

pub fn condition_tick_damage(c: &Condition) -> (r: i64)
    ensures
        r == tick_damage(*c),
{
    if c.remaining_ticks <= 0 {
        return 0;
    }
    match c.condition_type {
        ConditionType::Burning | ConditionType::Poisoned | ConditionType::Diseased
        | ConditionType::Bleeding | ConditionType::Choking => c.magnitude as i64,
        ConditionType::Regenerating | ConditionType::Meditating
        | ConditionType::WellRested => -(c.magnitude as i64),
        _ => 0,
    }
}

/// Applies one tick of a condition's effect to the entity's hp.
pub fn apply_condition_effect(entity: &mut Entity, c: &Condition)
    requires
        old(entity).wf(),
    ensures
        *final(entity) == old(entity).damaged(tick_damage(*c)),
        final(entity).wf(),
{
    let amount = condition_tick_damage(c);
    entity.apply_damage(amount);
}

} // verus!
