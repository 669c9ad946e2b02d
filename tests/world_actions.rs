use dogmud::combat::{AttackOutcome, CombatError};
use dogmud::conditions::{Condition, ConditionType};
use dogmud::entity::{Entity, EntityType, Identity};
use dogmud::events::{EventPayload, EventType};
use dogmud::rooms::{Exit, Room};
use dogmud::tables::{AIType, ClientType, MovementType, NPCBehavior, PlayerSession};
use dogmud::scheduler::{Cadence, RegionSchedule};
use dogmud::world::{MovementError, World};

fn body(id: u64, room_id: u64) -> Entity {
    Entity {
        id,
        identity: None,
        entity_type: EntityType::Player,
        name: format!("body{}", id),
        description: String::new(),
        room_id,
        x: 0,
        y: 0,
        z: 0,
        volume: 1000,
        weight: 70_000,
        max_capacity: 50_000,
        hp: 100,
        max_hp: 100,
        stamina: 100,
        max_stamina: 100,
        mana: 100,
        max_mana: 100,
        dexterity: 100,
        strength: 100,
        vitality: 100,
        perception: 100,
        willpower: 100,
        is_alive: true,
        is_active: true,
        created_at: 0,
        last_action_at: 0,
    }
}

fn chamber(id: u64, region_id: u64) -> Room {
    Room {
        id,
        name: format!("chamber{}", id),
        description: String::new(),
        current_volume: None,
        max_volume: None,
        north_exit: None,
        south_exit: None,
        east_exit: None,
        west_exit: None,
        up_exit: None,
        down_exit: None,
        has_special_exits: false,
        temperature_modifier: 0,
        light_modifier: 0,
        is_safe_zone: false,
        allows_combat: true,
        allows_magic: true,
        last_player_visit: 0,
        item_count: 0,
        region_id,
        is_active: true,
    }
}

fn session(who: Identity, character_id: u64) -> PlayerSession {
    PlayerSession {
        identity: who,
        character_id,
        connected_at: 0,
        last_heartbeat: 0,
        client_type: ClientType::Unknown,
        client_version: "0.1.0".to_string(),
        is_active: true,
    }
}

const ME: Identity = Identity(7);

/// Room 1 with exits north to 2 (active), south to 3 (inactive), up to 9
/// (missing); a portal from 1 to 2; player 10 in room 1, player 11 in 2.
fn little_world() -> World {
    let mut w = World::new();
    let mut r1 = chamber(1, 1);
    r1.north_exit = Some(2);
    r1.south_exit = Some(3);
    r1.up_exit = Some(9);
    r1.has_special_exits = true;
    let mut r3 = chamber(3, 1);
    r3.is_active = false;
    w.rooms.push(r1);
    w.rooms.push(chamber(2, 1));
    w.rooms.push(r3);
    w.exits.push(Exit {
        from_room: 1,
        to_room: 2,
        direction: "portal".to_string(),
        name: "a shimmering portal".to_string(),
        is_hidden: false,
        is_locked: false,
    });
    w.entities.push(body(10, 1));
    w.entities.push(body(11, 2));
    w.sessions.push(session(ME, 10));
    w
}

#[test]
fn direction_aliases_lead_the_same_way() {
    for token in ["north", "n", "NORTH", "N", "North", "nOrTh"] {
        let mut w = little_world();
        let out = w.move_player(ME, token, 5).unwrap();
        assert_eq!((out.from_room, out.to_room), (1, 2));
        assert_eq!(w.entities[0].room_id, 2);
        assert_eq!(w.entities[0].last_action_at, 5);
    }
}

#[test]
fn movement_is_logged() {
    let mut w = little_world();
    let out = w.move_player(ME, "n", 5).unwrap();
    assert_eq!(out.event_id, 1);
    let ev = &w.log.events[0];
    assert_eq!(ev.event_type, EventType::Movement);
    assert_eq!(ev.room_id, 1);
    assert!(ev.requires_sight && !ev.requires_hearing);
    assert_eq!(ev.expires_at, 60_000_005);
    match &ev.payload {
        EventPayload::Movement { entity_id, direction, from_room, to_room } => {
            assert_eq!((*entity_id, direction.as_str(), *from_room, *to_room), (10, "n", 1, 2));
        }
        _ => panic!("not a movement payload"),
    }
}

#[test]
fn special_exits_are_looked_up() {
    let mut w = little_world();
    let out = w.move_player(ME, "portal", 0).unwrap();
    assert_eq!(out.to_room, 2);
}

#[test]
fn inactive_destination_is_refused() {
    let mut w = little_world();
    assert_eq!(w.move_player(ME, "south", 5), Err(MovementError::RoomInactive));
    assert_eq!(w.entities[0].room_id, 1);
    assert_eq!(w.entities[0].last_action_at, 0);
    assert!(w.log.events.is_empty());
}

#[test]
fn missing_exits_and_rooms() {
    let mut w = little_world();
    assert_eq!(w.move_player(ME, "east", 0), Err(MovementError::NoExit));
    assert_eq!(w.move_player(ME, "d", 0), Err(MovementError::NoExit));
    assert_eq!(w.move_player(ME, "up", 0), Err(MovementError::RoomNotFound));
    assert_eq!(w.move_player(ME, "sideways", 0), Err(MovementError::InvalidDirection));
    assert_eq!(w.entities[0].room_id, 1);
}

#[test]
fn movement_guards() {
    let mut w = little_world();
    assert_eq!(w.move_player(Identity(8), "n", 0), Err(MovementError::NotLoggedIn));
    w.sessions.push(session(Identity(8), 0));
    assert_eq!(w.move_player(Identity(8), "n", 0), Err(MovementError::NoCharacterSelected));
    w.sessions.push(session(Identity(9), 99));
    assert_eq!(w.move_player(Identity(9), "n", 0), Err(MovementError::CharacterNotFound));
    w.conditions.push(Condition {
        id: 1,
        condition_type: ConditionType::Comatose,
        magnitude: 0,
        remaining_ticks: 5,
        source_id: None,
        applied_at: 0,
        entity_id: 10,
    });
    assert_eq!(w.move_player(ME, "n", 0), Err(MovementError::Comatose));
    w.conditions.clear();
    w.entities[0].hp = 0;
    w.entities[0].is_alive = false;
    assert_eq!(w.move_player(ME, "n", 0), Err(MovementError::ActorDead));
}

#[test]
fn attacks_write_back_both_sides() {
    let mut w = little_world();
    w.entities[1].room_id = 1;
    let out = w.attack_with_rolls(ME, 11, 110, 100, 3).unwrap();
    assert_eq!(out, AttackOutcome::Hit { damage: 10, defender_died: false });
    assert_eq!(w.entities[0].stamina, 90);
    assert_eq!(w.entities[1].hp, 90);
    assert_eq!(w.log.events.len(), 1);
    assert_eq!(w.log.events[0].event_type, EventType::Combat);
}

#[test]
fn refused_attacks_change_nothing() {
    let mut w = little_world();
    assert_eq!(w.attack_with_rolls(ME, 11, 110, 100, 3), Err(CombatError::DifferentRoom));
    assert_eq!(w.attack_with_rolls(ME, 10, 110, 100, 3), Err(CombatError::SelfAttack));
    assert_eq!(w.attack_with_rolls(ME, 12, 110, 100, 3), Err(CombatError::TargetNotFound));
    assert_eq!(w.attack_with_rolls(Identity(1), 11, 110, 100, 3), Err(CombatError::NotLoggedIn));
    w.entities[1].room_id = 1;
    w.entities[0].stamina = 9;
    assert_eq!(w.attack_with_rolls(ME, 11, 110, 100, 3), Err(CombatError::InsufficientStamina));
    assert_eq!(w.entities[0].stamina, 9);
    assert_eq!(w.entities[1].hp, 100);
    assert!(w.log.events.is_empty());
}

#[test]
fn random_attacks_resolve() {
    let mut w = little_world();
    w.entities[1].room_id = 1;
    let out = w.attack(ME, 11, 0).unwrap();
    assert_eq!(w.entities[0].stamina, 90);
    match out {
        AttackOutcome::Hit { damage, .. } => assert_eq!(damage, 10),
        AttackOutcome::CriticalHit { damage, .. } => assert_eq!(damage, 13),
        AttackOutcome::Miss | AttackOutcome::Fumble => assert_eq!(w.entities[1].hp, 100),
    }
}

fn burning(id: u64, entity_id: u64, ticks: i32) -> Condition {
    Condition {
        id,
        condition_type: ConditionType::Burning,
        magnitude: 4,
        remaining_ticks: ticks,
        source_id: None,
        applied_at: 0,
        entity_id,
    }
}

#[test]
fn condition_ticks_apply_and_expire() {
    let mut w = little_world();
    w.conditions.push(burning(1, 10, 1));
    w.conditions.push(burning(2, 10, 0));
    w.conditions.push(burning(3, 10, 3));
    let mut regen = burning(4, 11, 2);
    regen.condition_type = ConditionType::Regenerating;
    w.entities[1].hp = 50;
    w.conditions.push(regen);
    w.tick_conditions(1);
    // Two live burns of 4; the one with no tick left does nothing.
    assert_eq!(w.entities[0].hp, 92);
    assert_eq!(w.entities[1].hp, 54);
    let left: Vec<(u64, i32)> = w.conditions.iter().map(|c| (c.id, c.remaining_ticks)).collect();
    assert_eq!(left, vec![(3, 2), (4, 1)]);
    w.tick_conditions(1);
    let left: Vec<(u64, i32)> = w.conditions.iter().map(|c| (c.id, c.remaining_ticks)).collect();
    assert_eq!(left, vec![(3, 1)]);
}

#[test]
fn condition_ticks_stay_in_their_region() {
    let mut w = little_world();
    w.conditions.push(burning(1, 10, 1));
    w.tick_conditions(2);
    assert_eq!(w.entities[0].hp, 100);
    assert_eq!(w.conditions.len(), 1);
    assert_eq!(w.conditions[0].remaining_ticks, 1);
}

#[test]
fn fatal_burns_kill() {
    let mut w = little_world();
    w.entities[0].hp = 3;
    w.conditions.push(burning(1, 10, 5));
    w.tick_conditions(1);
    assert_eq!(w.entities[0].hp, 0);
    assert!(!w.entities[0].is_alive);
}

#[test]
fn expired_events_are_swept() {
    let mut w = little_world();
    w.move_player(ME, "n", 0).unwrap();
    w.move_player(ME, "s", 0).unwrap_err();
    w.entities[0].room_id = 1;
    w.move_player(ME, "n", 10).unwrap();
    assert_eq!(w.log.events.len(), 2);
    w.cleanup_expired_events(60_000_000);
    assert_eq!(w.log.events.len(), 1);
    assert_eq!(w.log.events[0].expires_at, 60_000_010);
    w.cleanup_expired_events(60_000_000);
    assert_eq!(w.log.events.len(), 1);
    w.cleanup_expired_events(60_000_010);
    assert!(w.log.events.is_empty());
}

#[test]
fn region_activity() {
    let mut w = World::new();
    assert!(!w.region_is_active(1));
    assert_eq!(w.create_test_region(), Ok(1));
    assert!(w.region_is_active(1));
    w.regions[0].is_active = false;
    assert!(!w.region_is_active(1));
}

fn patroller(entity_id: u64, route: Vec<u64>) -> NPCBehavior {
    NPCBehavior {
        entity_id,
        ai_type: AIType::Defensive,
        aggro_range: 5,
        wander_range: 0,
        home_room: 1,
        role: None,
        movement_type: MovementType::Patrol,
        patrol_waypoints: route,
        movement_speed: 1000,
        faction: Some("City Guard".to_string()),
        assist_allies: true,
        respawn_delay: 60,
        is_unique: false,
        can_talk: false,
        dialogue_tree_id: None,
        loot_table_id: None,
    }
}

#[test]
fn patrols_step_along_their_route() {
    let mut w = little_world();
    w.entities[1].entity_type = EntityType::NPC;
    w.npcs.push(patroller(11, vec![1, 2]));
    w.tick_npcs(1);
    assert_eq!(w.entities[1].room_id, 1);
    w.tick_npcs(1);
    assert_eq!(w.entities[1].room_id, 2);
    w.tick_npcs(2);
    assert_eq!(w.entities[1].room_id, 2);
}

#[test]
fn patrols_avoid_closed_rooms_and_stop_when_dead() {
    let mut w = little_world();
    w.npcs.push(patroller(11, vec![2, 3]));
    w.tick_npcs(1);
    assert_eq!(w.entities[1].room_id, 2);
    w.npcs[0].patrol_waypoints = vec![5, 1];
    w.tick_npcs(1);
    assert_eq!(w.entities[1].room_id, 2);
    w.entities[1].hp = 0;
    w.entities[1].is_alive = false;
    w.npcs[0].patrol_waypoints = vec![1];
    w.tick_npcs(1);
    assert_eq!(w.entities[1].room_id, 2);
}

#[test]
fn the_region_driver_runs_due_passes() {
    let mut w = little_world();
    w.create_test_region().unwrap();
    w.conditions.push(burning(1, 10, 5));
    w.npcs.push(patroller(11, vec![2, 1]));
    let mut s = RegionSchedule::new(1, 1000, 5000, 0);
    let due = w.drive_region(&mut s, 999);
    assert!(!due.fast && !due.medium);
    assert_eq!(w.entities[0].hp, 100);
    let due = w.drive_region(&mut s, 1000);
    assert!(due.fast && !due.medium);
    assert_eq!(w.entities[0].hp, 96);
    assert_eq!(w.entities[1].room_id, 2);
    let due = w.drive_region(&mut s, 5000);
    assert!(due.fast && due.medium);
    assert_eq!(w.entities[0].hp, 92);
    assert_eq!(w.entities[1].room_id, 1);
    w.regions[0].is_active = false;
    let due = w.drive_region(&mut s, 20000);
    assert!(!due.fast && !due.medium);
    assert_eq!(w.entities[0].hp, 92);
}

#[test]
fn the_cleanup_driver_sweeps_on_its_cadence() {
    let mut w = little_world();
    w.move_player(ME, "n", 0).unwrap();
    let mut slow = Cadence::new(60_000, 0);
    assert!(!w.drive_cleanup(&mut slow, 59_999, 70_000_000));
    assert_eq!(w.log.events.len(), 1);
    assert!(w.drive_cleanup(&mut slow, 60_000, 70_000_000));
    assert!(w.log.events.is_empty());
}

#[test]
fn region_schedules_follow_the_region() {
    let mut w = World::new();
    let s = w.region_schedule(1, 100);
    assert_eq!((s.fast.interval_ms, s.medium.interval_ms, s.fast.next_at), (1000, 5000, 1100));
    w.create_test_region().unwrap();
    w.regions[0].tick_rate_fast = 250;
    let s = w.region_schedule(1, 0);
    assert_eq!((s.fast.interval_ms, s.medium.interval_ms), (250, 5000));
}
