use dogmud::auth::AuthError;
use dogmud::client::{parse_command, AppState, ClientCommand, Connection, SpacetimeClient};
use dogmud::entity::Identity;
use dogmud::seed::SeedError;
use dogmud::world::World;

#[test]
fn grids_are_linked() {
    let mut w = World::new();
    assert_eq!(w.create_room_grid(0, 0, 21), Err(SeedError::GridTooLarge));
    assert_eq!(w.create_room_grid(10, -4, 2), Ok(()));
    assert_eq!(w.rooms.len(), 9);
    // Rooms run column by column from the south-west corner (9, -5).
    let sw = &w.rooms[0];
    assert_eq!(sw.name, "Room [9, -5]");
    assert_eq!((sw.north_exit, sw.south_exit, sw.east_exit, sw.west_exit), (Some(2), None, Some(4), None));
    let centre = &w.rooms[4];
    assert_eq!(centre.name, "Room [10, -4]");
    assert_eq!(centre.id, 5);
    assert_eq!(
        (centre.north_exit, centre.south_exit, centre.east_exit, centre.west_exit),
        (Some(6), Some(4), Some(8), Some(2))
    );
    assert!(centre.allows_combat && centre.is_active);
    assert_eq!(w.next_room_id, 10);
}

#[test]
fn a_single_room_grid() {
    let mut w = World::new();
    w.create_room_grid(3, 3, 1).unwrap();
    assert_eq!(w.rooms.len(), 1);
    assert_eq!(w.rooms[0].north_exit, None);
}

#[test]
fn the_grid_can_be_walked() {
    let mut w = World::new();
    w.create_room_grid(0, 0, 2).unwrap();
    w.create_test_entity("walker".to_string()).unwrap();
    w.entities[0].room_id = 5;
    w.sessions.push(dogmud::tables::PlayerSession {
        identity: Identity(1),
        character_id: 1,
        connected_at: 0,
        last_heartbeat: 0,
        client_type: dogmud::tables::ClientType::Unknown,
        client_version: String::new(),
        is_active: true,
    });
    assert_eq!(w.move_player(Identity(1), "n", 0).unwrap().to_room, 6);
    assert_eq!(w.move_player(Identity(1), "e", 0).unwrap().to_room, 9);
}

#[test]
fn seeded_test_records() {
    let mut w = World::new();
    assert_eq!(w.create_test_room(), Ok(1));
    assert!(!w.rooms[0].allows_combat);
    assert_eq!(w.create_test_entity("tester".to_string()), Ok(1));
    assert_eq!(w.entities[0].hp, 100);
    assert_eq!(w.entities[0].room_id, 1);
    assert_eq!(w.create_test_region(), Ok(1));
    assert_eq!(w.regions[0].tick_rate_fast, 1000);
}

#[test]
fn accounts_characters_and_sessions() {
    let mut w = World::new();
    let me = Identity(42);
    assert_eq!(w.create_account(me, "alice".to_string(), "short", 1), Err(AuthError::PasswordTooShort));
    assert_eq!(w.create_account(me, "alice".to_string(), "correct horse", 1), Ok(()));
    assert!(w.accounts[0].password_hash.starts_with("$argon2id$"));
    assert!(!w.accounts[0].password_hash.contains("correct horse"));
    assert_eq!(w.create_account(Identity(43), "alice".to_string(), "another one", 1), Err(AuthError::UsernameTaken));
    assert_eq!(w.create_account(me, "bob".to_string(), "another one", 1), Err(AuthError::AccountExists));
    assert_eq!(w.login(me, "alice", "wrong password", 2), Err(AuthError::InvalidCredentials));
    assert_eq!(w.login(me, "nobody", "correct horse", 2), Err(AuthError::InvalidCredentials));
    assert_eq!(w.create_character(Identity(43), "Hero".to_string(), 2), Err(SeedError::NoAccount));
    assert_eq!(w.create_character(me, "Hero".to_string(), 2), Ok(1));
    assert_eq!(w.accounts[0].primary_character_id, Some(1));
    assert_eq!(w.create_character(me, "Hero".to_string(), 2), Err(SeedError::NameTaken));
    assert_eq!(w.login(me, "alice", "correct horse", 3), Ok(()));
    assert_eq!(w.sessions[0].character_id, 1);
    assert_eq!(w.login(me, "alice", "correct horse", 3), Err(AuthError::SessionExists));
    w.accounts[0].is_banned = true;
    assert_eq!(w.login(Identity(44), "alice", "correct horse", 3), Err(AuthError::Banned));
}

#[test]
fn hashes_depend_on_the_salt_source() {
    let mut w = World::new();
    w.create_account(Identity(1), "a".to_string(), "password1", 1).unwrap();
    w.create_account(Identity(2), "b".to_string(), "password1", 1).unwrap();
    assert_ne!(w.accounts[0].password_hash, w.accounts[1].password_hash);
}

#[test]
fn commands() {
    assert_eq!(parse_command("   "), ClientCommand::Empty);
    assert_eq!(parse_command("move north"), ClientCommand::Move { direction: "north".to_string() });
    assert_eq!(parse_command("  go\tn  extra"), ClientCommand::Move { direction: "n".to_string() });
    assert_eq!(parse_command("move"), ClientCommand::MoveUsage);
    assert_eq!(parse_command("attack 12"), ClientCommand::Attack { target: "12".to_string() });
    assert_eq!(parse_command("attack "), ClientCommand::AttackUsage);
    assert_eq!(parse_command("l"), ClientCommand::Look);
    assert_eq!(parse_command("look around"), ClientCommand::Look);
    assert_eq!(parse_command("help"), ClientCommand::Help);
    assert_eq!(parse_command("dance wildly"), ClientCommand::Unknown { word: "dance".to_string() });
    assert_eq!(parse_command("MOVE n"), ClientCommand::Unknown { word: "MOVE".to_string() });
}

#[test]
fn client_state() {
    let app = AppState::new();
    assert_eq!(app.messages, vec!["Welcome to DOGMUD!", "Type commands and press Enter.", "Press 'q' to quit."]);
    assert!(app.input.is_empty());
    assert_eq!((app.hp, app.max_hp, app.stamina, app.max_stamina), (100, 100, 100, 100));
    let mut c = Connection::new();
    assert!(!c.is_connected());
    c.set_connected(true);
    assert!(c.is_connected());
    let s = SpacetimeClient::connect("ws://localhost:3000", "dogmud");
    assert_eq!((s.url.as_str(), s.module.as_str()), ("ws://localhost:3000", "dogmud"));
}
