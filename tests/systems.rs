use dogmud::combat::roll_perception;
use dogmud::conditions::{decay_tick, has_gating_condition, Condition, ConditionType};
use dogmud::containment::{ContainmentError, ContainmentForest, MAX_CONTAINMENT_DEPTH};
use dogmud::entity::{Entity, EntityType, Pool, ResourceError};
use dogmud::events::{is_observable, EventLog, EventPayload, EventType, GameEvent, Observer};
use dogmud::rooms::{parse_direction, resolve_exit, validate_destination, DestinationError, Direction, ExitError, Room};
use dogmud::scheduler::{Cadence, RegionSchedule};

fn cond(id: u64, ticks: i32) -> Condition {
    Condition {
        id,
        condition_type: ConditionType::Poisoned,
        magnitude: 2,
        remaining_ticks: ticks,
        source_id: Some(3),
        applied_at: 0,
        entity_id: 1,
    }
}

#[test]
fn one_tick_left_expires_in_one_pass() {
    let (remaining, expired) = decay_tick(vec![cond(1, 1)]);
    assert!(remaining.is_empty());
    assert_eq!(expired.len(), 1);
    assert_eq!(expired[0].remaining_ticks, 0);
}

#[test]
fn no_tick_left_expires_without_decrement() {
    let (remaining, expired) = decay_tick(vec![cond(1, 0), cond(2, -3)]);
    assert!(remaining.is_empty());
    assert_eq!(expired[0].remaining_ticks, 0);
    assert_eq!(expired[1].remaining_ticks, -3);
}

#[test]
fn longer_conditions_lose_one_tick() {
    let (remaining, expired) = decay_tick(vec![cond(1, 3), cond(2, 1), cond(3, 2)]);
    let ids: Vec<(u64, i32)> = remaining.iter().map(|c| (c.id, c.remaining_ticks)).collect();
    assert_eq!(ids, vec![(1, 2), (3, 1)]);
    assert_eq!(expired.len(), 1);
    assert_eq!(expired[0].id, 2);
}

#[test]
fn gating_is_membership() {
    let mut cs = vec![cond(1, 3)];
    assert!(!has_gating_condition(&cs, ConditionType::Comatose));
    cs[0].condition_type = ConditionType::Comatose;
    assert!(has_gating_condition(&cs, ConditionType::Comatose));
    assert!(!has_gating_condition(&Vec::new(), ConditionType::Comatose));
}

fn thing() -> Entity {
    Entity {
        id: 1,
        identity: None,
        entity_type: EntityType::NPC,
        name: "goblin".to_string(),
        description: String::new(),
        room_id: 1,
        x: 0,
        y: 0,
        z: 0,
        volume: 0,
        weight: 0,
        max_capacity: 0,
        hp: 50,
        max_hp: 80,
        stamina: 20,
        max_stamina: 40,
        mana: 5,
        max_mana: 10,
        dexterity: 10,
        strength: 10,
        vitality: 10,
        perception: 10,
        willpower: 10,
        is_alive: true,
        is_active: true,
        created_at: 0,
        last_action_at: 0,
    }
}

#[test]
fn damage_is_clamped() {
    let mut e = thing();
    e.apply_damage(20);
    assert_eq!(e.hp, 30);
    e.apply_damage(-1000);
    assert_eq!(e.hp, 80);
    assert!(e.is_alive);
    e.apply_damage(i64::MAX);
    assert_eq!(e.hp, 0);
    assert!(!e.is_alive);
    e.apply_damage(-10);
    assert_eq!(e.hp, 10);
    assert!(!e.is_alive);
}

#[test]
fn spending_resources() {
    let mut e = thing();
    assert_eq!(e.spend_resource(Pool::Stamina, 21), Err(ResourceError::InsufficientResource));
    assert_eq!(e.stamina, 20);
    assert_eq!(e.spend_resource(Pool::Stamina, 20), Ok(()));
    assert_eq!(e.stamina, 0);
    assert_eq!(e.spend_resource(Pool::Mana, 2), Ok(()));
    assert_eq!(e.mana, 3);
    assert_eq!(e.spend_resource(Pool::Hp, 50), Ok(()));
    assert_eq!(e.hp, 0);
    assert!(!e.is_alive);
}

fn room() -> Room {
    Room {
        id: 4,
        name: "hall".to_string(),
        description: String::new(),
        current_volume: None,
        max_volume: None,
        north_exit: Some(5),
        south_exit: Some(6),
        east_exit: Some(7),
        west_exit: Some(8),
        up_exit: Some(9),
        down_exit: None,
        has_special_exits: false,
        temperature_modifier: 0,
        light_modifier: 0,
        is_safe_zone: true,
        allows_combat: false,
        allows_magic: true,
        last_player_visit: 0,
        item_count: 0,
        region_id: 1,
        is_active: true,
    }
}

#[test]
fn every_alias_resolves() {
    let r = room();
    let none = Vec::new();
    let cases = [
        ("north", "n", Ok(5)),
        ("south", "s", Ok(6)),
        ("east", "e", Ok(7)),
        ("west", "w", Ok(8)),
        ("up", "u", Ok(9)),
        ("down", "d", Err(ExitError::NoExit)),
    ];
    for (word, letter, want) in cases {
        assert_eq!(resolve_exit(&r, &none, word), want);
        assert_eq!(resolve_exit(&r, &none, letter), want);
        assert_eq!(resolve_exit(&r, &none, &word.to_uppercase()), want);
        assert_eq!(resolve_exit(&r, &none, &letter.to_uppercase()), want);
    }
    assert_eq!(resolve_exit(&r, &none, "portal"), Err(ExitError::InvalidDirection));
    assert_eq!(resolve_exit(&r, &none, ""), Err(ExitError::InvalidDirection));
    assert_eq!(resolve_exit(&r, &none, "nort"), Err(ExitError::InvalidDirection));
    assert_eq!(parse_direction("Up"), Some(Direction::Up));
    assert_eq!(parse_direction("upward"), None);
}

#[test]
fn destinations_must_exist_and_be_active() {
    let mut r = room();
    assert_eq!(validate_destination(Some(&r)), Ok(()));
    r.is_active = false;
    assert_eq!(validate_destination(Some(&r)), Err(DestinationError::RoomInactive));
    assert_eq!(validate_destination(None), Err(DestinationError::RoomNotFound));
}

fn event(room_id: u64, timestamp: i64) -> GameEvent {
    GameEvent {
        id: 0,
        room_id,
        timestamp,
        event_type: EventType::Speech,
        payload: EventPayload::Text { text: "hello".to_string() },
        primary_actor: 1,
        secondary_actor: None,
        requires_sight: false,
        requires_hearing: true,
        stealth_dc: Some(12),
        expires_at: 0,
    }
}

#[test]
fn purge_removes_exactly_the_expired() {
    let mut log = EventLog::new();
    assert_eq!(log.append_event(event(1, 0)), 1);
    assert_eq!(log.append_event(event(1, 5)), 2);
    assert_eq!(log.append_event(event(1, 10)), 3);
    assert_eq!(log.events[1].expires_at, 60_000_005);
    log.purge_expired(60_000_005);
    let ids: Vec<u64> = log.events.iter().map(|e| e.id).collect();
    assert_eq!(ids, vec![3]);
    log.purge_expired(60_000_005);
    assert_eq!(log.events.len(), 1);
    assert_eq!(log.next_id, 4);
}

#[test]
fn expiry_saturates() {
    let mut log = EventLog::new();
    log.append_event(event(1, i64::MAX - 5));
    assert_eq!(log.events[0].expires_at, i64::MAX);
}

#[test]
fn observability() {
    let e = event(1, 0);
    let mut o = Observer { room_id: 1, can_see: false, can_hear: true, perception_roll: 12_000 };
    assert!(is_observable(&e, &o));
    o.perception_roll = 11_999;
    assert!(!is_observable(&e, &o));
    o.perception_roll = 20_000;
    o.can_hear = false;
    assert!(!is_observable(&e, &o));
    o.can_hear = true;
    o.room_id = 2;
    assert!(!is_observable(&e, &o));
}

#[test]
fn nesting_depths_grow_inward() {
    let mut f = ContainmentForest::new();
    assert_eq!(f.nest(100, 1, None), Ok(1));
    assert_eq!(f.nest(1, 2, Some(0)), Ok(2));
    assert_eq!(f.depth(1), 1);
    assert_eq!(f.depth(2), 2);
    assert_eq!(f.depth(100), 0);
    assert!(f.is_inside(2, 100));
    assert!(!f.is_inside(100, 2));
}

#[test]
fn nesting_inside_oneself_is_refused() {
    let mut f = ContainmentForest::new();
    assert_eq!(f.nest(5, 5, None), Err(ContainmentError::SelfNesting));
    f.nest(1, 2, None).unwrap();
    f.nest(2, 3, None).unwrap();
    assert_eq!(f.nest(3, 1, None), Err(ContainmentError::WouldCycle));
    assert_eq!(f.nest(2, 1, None), Err(ContainmentError::WouldCycle));
    assert_eq!(f.nest(9, 3, None), Err(ContainmentError::AlreadyContained));
    assert_eq!(f.edges.len(), 2);
}

#[test]
fn nesting_depth_is_capped() {
    let mut f = ContainmentForest::new();
    for i in 0..MAX_CONTAINMENT_DEPTH as u64 {
        f.nest(i, i + 1, None).unwrap();
    }
    assert_eq!(f.depth(MAX_CONTAINMENT_DEPTH as u64), MAX_CONTAINMENT_DEPTH);
    assert_eq!(f.nest(MAX_CONTAINMENT_DEPTH as u64, 99, None), Err(ContainmentError::TooDeep));
}

#[test]
fn cadences_fire_once_and_skip_missed_ticks() {
    let mut c = Cadence::new(1000, 0);
    assert!(!c.poll(999));
    assert!(c.poll(1000));
    assert!(!c.poll(1000));
    assert!(c.poll(5500));
    assert_eq!(c.next_at, 6500);
}

#[test]
fn inactive_regions_are_not_driven() {
    let mut s = RegionSchedule::new(1, 1000, 5000, 0);
    let due = s.poll(5000, false);
    assert!(!due.fast && !due.medium);
    let due = s.poll(5000, true);
    assert!(due.fast && due.medium);
    let due = s.poll(6000, true);
    assert!(due.fast && !due.medium);
}

#[test]
fn perception_rolls_stay_in_their_envelope() {
    for _ in 0..200 {
        let r = roll_perception(100, 50);
        assert!((72_250..=97_750).contains(&r), "{}", r);
    }
}

#[test]
fn releasing_items() {
    let mut f = ContainmentForest::new();
    f.nest(1, 2, None).unwrap();
    f.nest(2, 3, None).unwrap();
    assert_eq!(f.release(9), Err(ContainmentError::NotContained));
    assert_eq!(f.release(2), Err(ContainmentError::HoldsContents));
    let edge = f.release(3).unwrap();
    assert_eq!((edge.container_id, edge.contained_id, edge.depth), (2, 3, 2));
    assert_eq!(f.depth(3), 0);
    assert_eq!(f.release(2).unwrap().depth, 1);
    assert!(f.edges.is_empty());
    assert_eq!(f.nest(3, 1, None), Ok(3));
}
