//! Opposed-roll combat. Roll values are fixed-point numbers in thousandths:
//! a roll of 67.5 is held as 67_500.
use vstd::prelude::*;
use crate::entity::Entity;
use crate::events::{expiry_of, expiry_after, EventPayload, EventType, GameEvent};
use crate::rooms::Room;
use rand::Rng;

verus! {

/// Stamina that every attack costs.
pub const ATTACK_STAMINA_COST: i32 = 10;

/// Scale applied to the attacker's roll base, in percent.
pub const ATTACKER_MODIFIER_PCT: u32 = 100;

/// Scale applied to the defender's roll base, in percent: the defender is
/// deliberately disadvantaged to offset the attacker's first move.
pub const DEFENDER_MODIFIER_PCT: u32 = 90;

/// Skill level used for both sides of a melee attack.
pub const MELEE_SKILL: u8 = 50;

/// `(stat * 0.7 + skill * 0.3) * modifier`, in thousandths.
pub open spec fn roll_base(stat: u8, skill: u8, modifier_pct: u32) -> int {
    (stat * 7 + skill * 3) * modifier_pct
}

/// Weighs a stat at 70% and a skill at 30%, then scales by
/// `modifier_pct` percent. The result is in thousandths.
pub fn calculate_roll_base(stat: u8, skill: u8, modifier_pct: u32) -> (r: u64)
    ensures
        r == roll_base(stat, skill, modifier_pct),
{
    let weighted = stat as u64 * 7 + skill as u64 * 3;
    assert(weighted * modifier_pct <= 2550 * 0xffff_ffffu64) by (nonlinear_arith)
        requires
            weighted <= 2550,
            modifier_pct <= 0xffff_ffffu64,
    ;
    weighted * modifier_pct as u64
}

/// 15% of a mean, rounded down.
pub open spec fn std_dev(mean: u64) -> int {
    mean * 15 / 100
}

pub fn calculate_std_dev(mean: u64) -> (r: u64)
    requires
        mean <= u64::MAX / 15,
    ensures
        r == std_dev(mean),
{
    mean * 15 / 100
}

/// The envelope that a sample around `base` is drawn from.
pub open spec fn in_envelope(sample: u64, base: u64) -> bool {
    base - std_dev(base) <= sample <= base + std_dev(base)
}

/// Relies on rand's thread-local generator and `Rng::random_range`, which
/// returns a value of the inclusive range and panics only on an empty one.
#[verifier::external_body]
fn draw_inclusive(lo: u64, hi: u64) -> (r: u64)
    requires
        lo <= hi,
    ensures
        lo <= r <= hi,
{
    rand::rng().random_range(lo..=hi)
}

/// Draws a sample uniformly from `[base - sd, base + sd]`, `sd` being 15%
/// of `base`.
pub fn random_variance(base: u64) -> (r: u64)
    requires
        base <= u64::MAX / 15,
    ensures
        in_envelope(r, base),
{
    let sd = calculate_std_dev(base);
    draw_inclusive(base - sd, base + sd)
}

/// Draws the two sides' rolls of an attack: the attacker's around the base
/// of its attack stat and skill, the defender's around the base of its
/// defense stat and skill, scaled by the defender's modifier.
pub fn roll_samples(attacker: &Entity, defender: &Entity, attacker_skill: u8, defender_skill: u8) -> (r: (u64, u64))
    ensures
        in_envelope(r.0, roll_base(attack_stat(*attacker), attacker_skill, ATTACKER_MODIFIER_PCT) as u64),
        in_envelope(r.1, roll_base(defense_stat(*defender), defender_skill, DEFENDER_MODIFIER_PCT) as u64),
{
    let abase = calculate_roll_base(attack_stat_of(attacker), attacker_skill, ATTACKER_MODIFIER_PCT);
    let dbase = calculate_roll_base(defense_stat_of(defender), defender_skill, DEFENDER_MODIFIER_PCT);
    (random_variance(abase), random_variance(dbase))
}

/// A perception roll against a stealth DC: drawn around the base of the
/// perception stat and skill, unscaled.
pub fn roll_perception(perception: u8, skill: u8) -> (r: u64)
    ensures
        in_envelope(r, roll_base(perception, skill, 100) as u64),
{
    random_variance(calculate_roll_base(perception, skill, 100))
}

/// `attacker_roll >= defender_roll * 1.2`, compared exactly.
pub open spec fn critical_hit(attacker_roll: u64, defender_roll: u64) -> bool {
    5 * attacker_roll >= 6 * defender_roll
}

/// `attacker_roll <= defender_roll * 0.7`, compared exactly.
pub open spec fn critical_fail(attacker_roll: u64, defender_roll: u64) -> bool {
    10 * attacker_roll <= 7 * defender_roll
}

pub fn is_critical_hit(attacker_roll: u64, defender_roll: u64) -> (r: bool)
    ensures
        r == critical_hit(attacker_roll, defender_roll),
{
    attacker_roll as u128 * 5 >= defender_roll as u128 * 6
}

pub fn is_critical_fail(attacker_roll: u64, defender_roll: u64) -> (r: bool)
    ensures
        r == critical_fail(attacker_roll, defender_roll),
{
    attacker_roll as u128 * 10 <= defender_roll as u128 * 7
}

/// The damage multiplier `(strength + skill) / 100`, as a percentage.
pub fn calculate_damage_multiplier(strength: u8, skill: u8) -> (r: u16)
    ensures
        r == strength + skill,
{
    strength as u16 + skill as u16
}

/// `weapon_damage * (strength + skill) / 100`, rounded down and capped at
/// the largest `u16`.
pub open spec fn base_damage(weapon_damage: u16, strength: u8, skill: u8) -> int {
    let d = weapon_damage * (strength + skill) / 100;
    if d > u16::MAX {
        u16::MAX as int
    } else {
        d
    }
}

pub fn calculate_base_damage(weapon_damage: u16, strength: u8, skill: u8) -> (r: u16)
    ensures
        r == base_damage(weapon_damage, strength, skill),
{
    let multiplier = calculate_damage_multiplier(strength, skill);
    assert(weapon_damage * multiplier <= 0xffffu32 * 510) by (nonlinear_arith)
        requires
            multiplier <= 510,
            weapon_damage <= 0xffffu32,
    ;
    let d = weapon_damage as u32 * multiplier as u32 / 100;
    if d > u16::MAX as u32 {
        u16::MAX
    } else {
        d as u16
    }
}

/// How an opposed roll came out.
#[derive(Clone, Copy, Debug, PartialEq, Eq, Structural)]
pub enum RollResult {
    Fumble,
    Miss,
    Hit,
    CriticalHit,
}

/// A fumble takes precedence; otherwise a strictly higher attacker roll
/// hits, critically at 1.2 times the defender's roll.
pub open spec fn roll_result(a: u64, b: u64) -> RollResult {
    if critical_fail(a, b) {
        RollResult::Fumble
    } else if !(a > b) {
        RollResult::Miss
    } else if critical_hit(a, b) {
        RollResult::CriticalHit
    } else {
        RollResult::Hit
    }
}

pub fn classify_roll(attacker_sample: u64, defender_sample: u64) -> (r: RollResult)
    ensures
        r == roll_result(attacker_sample, defender_sample),
{
    if is_critical_fail(attacker_sample, defender_sample) {
        RollResult::Fumble
    } else if !(attacker_sample > defender_sample) {
        RollResult::Miss
    } else if is_critical_hit(attacker_sample, defender_sample) {
        RollResult::CriticalHit
    } else {
        RollResult::Hit
    }
}

/// A roll at least 1.2 times the other is a critical hit, unless both rolls
/// are zero; a roll at most 0.7 times the other is always a fumble, even
/// when it is the higher one.
pub proof fn lemma_critical_and_fumble(a: u64, b: u64)
    ensures
        critical_hit(a, b) && !(a == 0 && b == 0) ==> roll_result(a, b) == RollResult::CriticalHit,
        critical_fail(a, b) ==> roll_result(a, b) == RollResult::Fumble,
{
}

/// With equal stats and skills, the defender's roll base is strictly below
/// the attacker's (unless both are zero).
pub proof fn lemma_defender_base_lower(stat: u8, skill: u8)
    ensures
        stat * 7 + skill * 3 > 0 ==> roll_base(stat, skill, DEFENDER_MODIFIER_PCT) < roll_base(
            stat,
            skill,
            ATTACKER_MODIFIER_PCT,
        ),
{
    assert(roll_base(stat, skill, 90) == (stat * 7 + skill * 3) * 90) by (nonlinear_arith);
    assert(roll_base(stat, skill, 100) == (stat * 7 + skill * 3) * 100) by (nonlinear_arith);
}

/// `floor(strength / 10)`, times 1.3 (rounded down) on a critical hit.
pub open spec fn hit_damage(strength: u8, critical: bool) -> int {
    let base = strength as int / 10;
    if critical {
        base * 13 / 10
    } else {
        base
    }
}

pub fn calculate_hit_damage(strength: u8, critical: bool) -> (r: i32)
    ensures
        r == hit_damage(strength, critical),
{
    let base = (strength / 10) as i32;
    if critical {
        base * 13 / 10
    } else {
        base
    }
}

/// The attack stat: mean of dexterity and strength, rounded down.
pub open spec fn attack_stat(e: Entity) -> u8 {
    ((e.dexterity + e.strength) / 2) as u8
}

/// The defense stat: mean of dexterity and perception, rounded down.
pub open spec fn defense_stat(e: Entity) -> u8 {
    ((e.dexterity + e.perception) / 2) as u8
}

pub fn attack_stat_of(e: &Entity) -> (r: u8)
    ensures
        r == attack_stat(*e),
{
    ((e.dexterity as u16 + e.strength as u16) / 2) as u8
}

pub fn defense_stat_of(e: &Entity) -> (r: u8)
    ensures
        r == defense_stat(*e),
{
    ((e.dexterity as u16 + e.perception as u16) / 2) as u8
}

#[derive(Clone, Copy, Debug, PartialEq, Eq, Structural)]
pub enum AttackOutcome {
    Fumble,
    Miss,
    Hit { damage: i32, defender_died: bool },
    CriticalHit { damage: i32, defender_died: bool },
}

#[derive(Clone, Copy, Debug, PartialEq, Eq, Structural)]
pub enum CombatError {
    NotLoggedIn,
    NoCharacterSelected,
    AttackerNotFound,
    TargetNotFound,
    AttackerDead,
    TargetDead,
    SelfAttack,
    DifferentRoom,
    RoomNotFound,
    CombatNotAllowed,
    InsufficientStamina,
    /// The event log cannot take another event.
    StorageFailure,
}

/// The outcome of an attack with the updated attacker and defender, and the
/// event that records it.
#[derive(Debug)]
pub struct AttackResolution {
    pub outcome: AttackOutcome,
    pub attacker: Entity,
    pub defender: Entity,
    pub event: GameEvent,
}

/// The first rule that forbids the attack, in the order they are checked.
pub open spec fn attack_refusal(attacker: Entity, defender: Entity, room: Option<Room>) -> Option<CombatError> {
    if !attacker.is_alive {
        Some(CombatError::AttackerDead)
    } else if !defender.is_alive {
        Some(CombatError::TargetDead)
    } else if attacker.id == defender.id {
        Some(CombatError::SelfAttack)
    } else if attacker.room_id != defender.room_id {
        Some(CombatError::DifferentRoom)
    } else if room is None || room->0.id != attacker.room_id {
        Some(CombatError::RoomNotFound)
    } else if !room->0.allows_combat {
        Some(CombatError::CombatNotAllowed)
    } else if attacker.stamina < ATTACK_STAMINA_COST {
        Some(CombatError::InsufficientStamina)
    } else {
        None
    }
}

/// Damage that the rolls deal.
pub open spec fn dealt(attacker: Entity, a: u64, b: u64) -> int {
    match roll_result(a, b) {
        RollResult::Hit => hit_damage(attacker.strength, false),
        RollResult::CriticalHit => hit_damage(attacker.strength, true),
        _ => 0,
    }
}

pub open spec fn defender_after(attacker: Entity, defender: Entity, a: u64, b: u64) -> Entity {
    match roll_result(a, b) {
        RollResult::Hit | RollResult::CriticalHit => defender.damaged(dealt(attacker, a, b)),
        _ => defender,
    }
}

pub open spec fn attacker_after(attacker: Entity, now: i64) -> Entity {
    Entity {
        stamina: clamp_stamina(attacker.stamina - ATTACK_STAMINA_COST) as i32,
        last_action_at: now,
        ..attacker
    }
}

pub open spec fn clamp_stamina(v: int) -> int {
    if v < 0 {
        0
    } else {
        v
    }
}

pub open spec fn outcome_of(attacker: Entity, defender: Entity, a: u64, b: u64) -> AttackOutcome {
    let died = !defender_after(attacker, defender, a, b).is_alive;
    match roll_result(a, b) {
        RollResult::Fumble => AttackOutcome::Fumble,
        RollResult::Miss => AttackOutcome::Miss,
        RollResult::Hit => AttackOutcome::Hit { damage: dealt(attacker, a, b) as i32, defender_died: died },
        RollResult::CriticalHit => AttackOutcome::CriticalHit {
            damage: dealt(attacker, a, b) as i32,
            defender_died: died,
        },
    }
}

/// The combat event: visible and audible, expiring a minute after `now`.
pub open spec fn combat_event(attacker: Entity, defender: Entity, a: u64, b: u64, now: i64) -> GameEvent {
    GameEvent {
        id: 0,
        room_id: attacker.room_id,
        timestamp: now,
        event_type: EventType::Combat,
        payload: EventPayload::Combat {
            attacker: attacker.id,
            target: defender.id,
            damage: dealt(attacker, a, b) as i32,
            hit: a > b,
            critical: critical_hit(a, b),
        },
        primary_actor: attacker.id,
        secondary_actor: Some(defender.id),
        requires_sight: true,
        requires_hearing: true,
        stealth_dc: None,
        expires_at: expiry_of(now),
    }
}

pub open spec fn room_of(room: Option<&Room>) -> Option<Room> {
    match room {
        Some(x) => Some(*x),
        None => None,
    }
}

/// The resolution of an attack with the given rolls, or the rule it breaks.
pub open spec fn attack_result(attacker: Entity, defender: Entity, room: Option<Room>, a: u64, b: u64, now: i64) -> Result<AttackResolution, CombatError> {
    match attack_refusal(attacker, defender, room) {
        Some(e) => Err(e),
        None => Ok(
            AttackResolution {
                outcome: outcome_of(attacker, defender, a, b),
                attacker: attacker_after(attacker, now),
                defender: defender_after(attacker, defender, a, b),
                event: combat_event(attacker, defender, a, b, now),
            },
        ),
    }
}

/// Resolves an attack of `attacker` on `defender` in `room`, given the two
/// sampled rolls. Nothing is changed when a rule forbids the attack.
pub fn resolve_attack(
    attacker: &Entity,
    defender: &Entity,
    room: Option<&Room>,
    attack_sample: u64,
    defense_sample: u64,
    now: i64,
) -> (r: Result<AttackResolution, CombatError>)
    requires
        attacker.wf(),
        defender.wf(),
    ensures
        r == attack_result(*attacker, *defender, room_of(room), attack_sample, defense_sample, now),
        r is Ok ==> r->Ok_0.attacker.wf() && r->Ok_0.defender.wf(),
{
    if !attacker.is_alive {
        return Err(CombatError::AttackerDead);
    }
    if !defender.is_alive {
        return Err(CombatError::TargetDead);
    }
    if attacker.id == defender.id {
        return Err(CombatError::SelfAttack);
    }
    if attacker.room_id != defender.room_id {
        return Err(CombatError::DifferentRoom);
    }
    let room = match room {
        Some(room) => room,
        None => {
            return Err(CombatError::RoomNotFound);
        },
    };
    if room.id != attacker.room_id {
        return Err(CombatError::RoomNotFound);
    }
    if !room.allows_combat {
        return Err(CombatError::CombatNotAllowed);
    }
    if attacker.stamina < ATTACK_STAMINA_COST {
        return Err(CombatError::InsufficientStamina);
    }
    let roll = classify_roll(attack_sample, defense_sample);
    let mut target = defender.duplicate();
    let mut damage: i32 = 0;
    let outcome = match roll {
        RollResult::Fumble => AttackOutcome::Fumble,
        RollResult::Miss => AttackOutcome::Miss,
        RollResult::Hit => {
            damage = calculate_hit_damage(attacker.strength, false);
            target.apply_damage(damage as i64);
            AttackOutcome::Hit { damage, defender_died: !target.is_alive }
        },
        RollResult::CriticalHit => {
            damage = calculate_hit_damage(attacker.strength, true);
            target.apply_damage(damage as i64);
            AttackOutcome::CriticalHit { damage, defender_died: !target.is_alive }
        },
    };
    let mut striker = attacker.duplicate();
    let stamina = striker.stamina - ATTACK_STAMINA_COST;
    striker.stamina = if stamina < 0 { 0 } else { stamina };
    striker.last_action_at = now;
    let event = GameEvent {
        id: 0,
        room_id: room.id,
        timestamp: now,
        event_type: EventType::Combat,
        payload: EventPayload::Combat {
            attacker: attacker.id,
            target: defender.id,
            damage,
            hit: attack_sample > defense_sample,
            critical: is_critical_hit(attack_sample, defense_sample),
        },
        primary_actor: attacker.id,
        secondary_actor: Some(defender.id),
        requires_sight: true,
        requires_hearing: true,
        stealth_dc: None,
        expires_at: expiry_after(now),
    };
    Ok(AttackResolution { outcome, attacker: striker, defender: target, event })
}

/// An attack on oneself, on a target in another room, by or on a dead
/// entity, or with less stamina than an attack costs is refused.
pub proof fn lemma_attack_refusals(attacker: Entity, defender: Entity, room: Option<Room>, a: u64, b: u64, now: i64)
    ensures
        attacker.id == defender.id || attacker.room_id != defender.room_id || !attacker.is_alive
            || !defender.is_alive || attacker.stamina < ATTACK_STAMINA_COST ==> attack_result(
            attacker,
            defender,
            room,
            a,
            b,
            now,
        ) is Err,
{
}

} // verus!
