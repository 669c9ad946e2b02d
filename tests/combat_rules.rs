use dogmud::combat::{
    calculate_base_damage, calculate_damage_multiplier, calculate_hit_damage, calculate_roll_base,
    calculate_std_dev, classify_roll, is_critical_fail, is_critical_hit, random_variance,
    resolve_attack, AttackOutcome, CombatError, RollResult, ATTACKER_MODIFIER_PCT,
    DEFENDER_MODIFIER_PCT,
};
use dogmud::entity::{Entity, EntityType};
use dogmud::events::{EventPayload, EventType};
use dogmud::rooms::Room;

// Roll values are in thousandths: 85.0 is 85_000, and a modifier of 1.0 is 100%.

#[test]
fn test_roll_base() {
    assert_eq!(calculate_roll_base(100, 50, 100), 85_000);
    assert_eq!(calculate_roll_base(50, 100, 100), 65_000);
    assert_eq!(calculate_roll_base(100, 50, 90), 76_500);
}

#[test]
fn test_std_dev() {
    assert_eq!(calculate_std_dev(100_000), 15_000);
    assert_eq!(calculate_std_dev(50_000), 7_500);
}

#[test]
fn test_critical_hit() {
    assert!(is_critical_hit(120, 100));
    assert!(is_critical_hit(121, 100));
    assert!(!is_critical_hit(119, 100));
    assert!(!is_critical_hit(100, 100));
}

#[test]
fn test_critical_fail() {
    assert!(is_critical_fail(70, 100));
    assert!(is_critical_fail(69, 100));
    assert!(!is_critical_fail(71, 100));
    assert!(!is_critical_fail(100, 100));
}

#[test]
fn test_stat_weighting() {
    let high_stat = calculate_roll_base(100, 0, 100);
    assert_eq!(high_stat, 70_000);
    let high_skill = calculate_roll_base(0, 100, 100);
    assert_eq!(high_skill, 30_000);
    assert!(high_stat > high_skill * 2);
}

#[test]
fn equal_fighters_give_the_attacker_the_edge() {
    let attacker = calculate_roll_base(75, 50, ATTACKER_MODIFIER_PCT);
    let defender = calculate_roll_base(75, 50, DEFENDER_MODIFIER_PCT);
    assert_eq!(attacker, 67_500);
    assert_eq!(defender, 60_750);
    assert!(defender < attacker);
    let trials = 4000;
    let mut hits = 0;
    for _ in 0..trials {
        let a = random_variance(attacker);
        let d = random_variance(defender);
        match classify_roll(a, d) {
            RollResult::Hit | RollResult::CriticalHit => hits += 1,
            _ => {}
        }
    }
    assert!(hits * 2 > trials, "hit rate {} of {}", hits, trials);
}

#[test]
fn samples_stay_in_their_envelope() {
    for _ in 0..500 {
        let s = random_variance(100_000);
        assert!((85_000..=115_000).contains(&s));
    }
    assert_eq!(random_variance(0), 0);
}

#[test]
fn roll_classification() {
    assert_eq!(classify_roll(120, 100), RollResult::CriticalHit);
    assert_eq!(classify_roll(119, 100), RollResult::Hit);
    assert_eq!(classify_roll(100, 100), RollResult::Miss);
    assert_eq!(classify_roll(71, 100), RollResult::Miss);
    assert_eq!(classify_roll(70, 100), RollResult::Fumble);
    assert_eq!(classify_roll(0, 0), RollResult::Fumble);
    assert_eq!(classify_roll(1, 0), RollResult::CriticalHit);
}

#[test]
fn damage_formulas() {
    assert_eq!(calculate_hit_damage(100, false), 10);
    assert_eq!(calculate_hit_damage(100, true), 13);
    assert_eq!(calculate_hit_damage(55, false), 5);
    assert_eq!(calculate_hit_damage(55, true), 6);
    assert_eq!(calculate_hit_damage(9, true), 0);
    assert_eq!(calculate_damage_multiplier(50, 50), 100);
    assert_eq!(calculate_base_damage(10, 50, 50), 10);
    assert_eq!(calculate_base_damage(10, 30, 0), 3);
    assert_eq!(calculate_base_damage(65535, 255, 255), 65535);
}

pub fn fighter(id: u64, room_id: u64) -> Entity {
    Entity {
        id,
        identity: None,
        entity_type: EntityType::Player,
        name: format!("fighter{}", id),
        description: String::new(),
        room_id,
        x: 0,
        y: 0,
        z: 0,
        volume: 1000,
        weight: 70_000,
        max_capacity: 50_000,
        hp: 100,
        max_hp: 100,
        stamina: 100,
        max_stamina: 100,
        mana: 100,
        max_mana: 100,
        dexterity: 100,
        strength: 100,
        vitality: 100,
        perception: 100,
        willpower: 100,
        is_alive: true,
        is_active: true,
        created_at: 0,
        last_action_at: 0,
    }
}

pub fn arena(id: u64) -> Room {
    Room {
        id,
        name: "Arena".to_string(),
        description: String::new(),
        current_volume: None,
        max_volume: None,
        north_exit: None,
        south_exit: None,
        east_exit: None,
        west_exit: None,
        up_exit: None,
        down_exit: None,
        has_special_exits: false,
        temperature_modifier: 0,
        light_modifier: 0,
        is_safe_zone: false,
        allows_combat: true,
        allows_magic: true,
        last_player_visit: 0,
        item_count: 0,
        region_id: 1,
        is_active: true,
    }
}

#[test]
fn a_hit_deals_strength_over_ten() {
    let a = fighter(1, 5);
    let d = fighter(2, 5);
    let room = arena(5);
    let res = resolve_attack(&a, &d, Some(&room), 110, 100, 1_000).unwrap();
    assert_eq!(res.outcome, AttackOutcome::Hit { damage: 10, defender_died: false });
    assert_eq!(res.defender.hp, 90);
    assert_eq!(res.attacker.stamina, 90);
    assert_eq!(res.attacker.last_action_at, 1_000);
    assert_eq!(res.event.event_type, EventType::Combat);
    assert_eq!(res.event.expires_at, 60_001_000);
    assert!(res.event.requires_sight && res.event.requires_hearing);
    match res.event.payload {
        EventPayload::Combat { attacker, target, damage, hit, critical } => {
            assert_eq!((attacker, target, damage, hit, critical), (1, 2, 10, true, false));
        }
        _ => panic!("not a combat payload"),
    }
}

#[test]
fn a_critical_hit_can_kill() {
    let a = fighter(1, 5);
    let mut d = fighter(2, 5);
    d.hp = 13;
    let room = arena(5);
    let res = resolve_attack(&a, &d, Some(&room), 120, 100, 0).unwrap();
    assert_eq!(res.outcome, AttackOutcome::CriticalHit { damage: 13, defender_died: true });
    assert_eq!(res.defender.hp, 0);
    assert!(!res.defender.is_alive);
}

#[test]
fn fumbles_and_misses_deal_nothing_but_cost_stamina() {
    let a = fighter(1, 5);
    let d = fighter(2, 5);
    let room = arena(5);
    let res = resolve_attack(&a, &d, Some(&room), 70, 100, 0).unwrap();
    assert_eq!(res.outcome, AttackOutcome::Fumble);
    assert_eq!(res.defender.hp, 100);
    assert_eq!(res.attacker.stamina, 90);
    let res = resolve_attack(&a, &d, Some(&room), 100, 100, 0).unwrap();
    assert_eq!(res.outcome, AttackOutcome::Miss);
    assert_eq!(res.defender.hp, 100);
}

#[test]
fn refused_attacks() {
    let a = fighter(1, 5);
    let d = fighter(2, 5);
    let room = arena(5);
    let err = |r: Result<dogmud::combat::AttackResolution, CombatError>| r.err().unwrap();
    assert_eq!(err(resolve_attack(&a, &a, Some(&room), 110, 100, 0)), CombatError::SelfAttack);
    let elsewhere = fighter(2, 6);
    assert_eq!(err(resolve_attack(&a, &elsewhere, Some(&room), 110, 100, 0)), CombatError::DifferentRoom);
    let mut dead = fighter(2, 5);
    dead.hp = 0;
    dead.is_alive = false;
    assert_eq!(err(resolve_attack(&a, &dead, Some(&room), 110, 100, 0)), CombatError::TargetDead);
    assert_eq!(err(resolve_attack(&dead, &a, Some(&room), 110, 100, 0)), CombatError::AttackerDead);
    let mut tired = fighter(1, 5);
    tired.stamina = 9;
    assert_eq!(err(resolve_attack(&tired, &d, Some(&room), 110, 100, 0)), CombatError::InsufficientStamina);
    let mut safe = arena(5);
    safe.allows_combat = false;
    assert_eq!(err(resolve_attack(&a, &d, Some(&safe), 110, 100, 0)), CombatError::CombatNotAllowed);
    assert_eq!(err(resolve_attack(&a, &d, None, 110, 100, 0)), CombatError::RoomNotFound);
}
