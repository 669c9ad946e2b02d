//! The room graph: six directed cardinal/vertical exits per room, a side
//! table of named special exits, and direction resolution.
use vstd::prelude::*;

verus! {

/// A room. Volumes are in thousandths of a unit; temperature and light are
/// offsets from the owning region's defaults.
#[derive(Clone, Debug)]
pub struct Room {
    pub id: u64,
    pub name: String,
    pub description: String,
    pub current_volume: Option<u32>,
    pub max_volume: Option<u32>,
    pub north_exit: Option<u64>,
    pub south_exit: Option<u64>,
    pub east_exit: Option<u64>,
    pub west_exit: Option<u64>,
    pub up_exit: Option<u64>,
    pub down_exit: Option<u64>,
    pub has_special_exits: bool,
    pub temperature_modifier: i16,
    pub light_modifier: i16,
    pub is_safe_zone: bool,
    pub allows_combat: bool,
    pub allows_magic: bool,
    pub last_player_visit: i32,
    pub item_count: i32,
    pub region_id: u64,
    pub is_active: bool,
}

/// A named exit that is not one of the six directions (a portal, a trapdoor).
#[derive(Clone, Debug)]
pub struct Exit {
    pub from_room: u64,
    pub to_room: u64,
    pub direction: String,
    pub name: String,
    pub is_hidden: bool,
    pub is_locked: bool,
}

#[derive(Clone, Copy, Debug, PartialEq, Eq, Structural)]
pub enum TerrainType {
    Indoor,
    Flat,
    Sloped,
    Rugged,
    Difficult,
    Challenging,
    Impossible,
}

#[derive(Clone, Copy, Debug, PartialEq, Eq, Structural)]
pub enum Direction {
    North,
    South,
    East,
    West,
    Up,
    Down,
}

#[derive(Clone, Copy, Debug, PartialEq, Eq, Structural)]
pub enum ExitError {
    /// The token names neither a direction nor a special exit of the room.
    InvalidDirection,
    /// The direction is valid but the room has no exit that way.
    NoExit,
}

#[derive(Clone, Copy, Debug, PartialEq, Eq, Structural)]
pub enum DestinationError {
    RoomNotFound,
    RoomInactive,
}

/// ASCII upper-case letters folded to lower case; every other char kept.
pub open spec fn fold_char(c: char) -> char {
    if 'A' <= c && c <= 'Z' {
        (((c as u8) + 32) as u8) as char
    } else {
        c
    }
}

pub open spec fn fold(s: Seq<char>) -> Seq<char> {
    s.map_values(|c: char| fold_char(c))
}

/// `s` equals `word` when ASCII case is ignored.
pub open spec fn same_word(s: Seq<char>, word: Seq<char>) -> bool {
    fold(s) == fold(word)
}

/// The direction that a token names: a full word or its one-letter alias,
/// in any case.
pub open spec fn direction_of(s: Seq<char>) -> Option<Direction> {
    if same_word(s, seq!['n', 'o', 'r', 't', 'h']) || same_word(s, seq!['n']) {
        Some(Direction::North)
    } else if same_word(s, seq!['s', 'o', 'u', 't', 'h']) || same_word(s, seq!['s']) {
        Some(Direction::South)
    } else if same_word(s, seq!['e', 'a', 's', 't']) || same_word(s, seq!['e']) {
        Some(Direction::East)
    } else if same_word(s, seq!['w', 'e', 's', 't']) || same_word(s, seq!['w']) {
        Some(Direction::West)
    } else if same_word(s, seq!['u', 'p']) || same_word(s, seq!['u']) {
        Some(Direction::Up)
    } else if same_word(s, seq!['d', 'o', 'w', 'n']) || same_word(s, seq!['d']) {
        Some(Direction::Down)
    } else {
        None
    }
}

fn fold_char_exec(c: char) -> (r: char)
    ensures
        r == fold_char(c),
{
    if 'A' <= c && c <= 'Z' {
        let b: u8 = c as u8;
        (b + 32) as char
    } else {
        c
    }
}

/// Compares `s` with `word` ignoring ASCII case.
pub fn eq_ignore_case(s: &str, word: &str) -> (r: bool)
    ensures
        r == same_word(s@, word@),
{
    let n = s.unicode_len();
    if n != word.unicode_len() {
        assert(fold(s@).len() != fold(word@).len());
        return false;
    }
    let mut i: usize = 0;
    while i < n
        invariant
            n == s@.len(),
            n == word@.len(),
            0 <= i <= n,
            forall|j: int| 0 <= j < i ==> fold_char(s@[j]) == fold_char(word@[j]),
        decreases n - i,
    {
        if fold_char_exec(s.get_char(i)) != fold_char_exec(word.get_char(i)) {
            assert(fold(s@)[i as int] != fold(word@)[i as int]);
            return false;
        }
        i = i + 1;
    }
    assert(fold(s@) =~= fold(word@));
    true
}

/// Reads a direction token: "north"/"n", "south"/"s", "east"/"e",
/// "west"/"w", "up"/"u", "down"/"d", in any case.
pub fn parse_direction(token: &str) -> (r: Option<Direction>)
    ensures
        r == direction_of(token@),
{
    proof {
        reveal_strlit("north");
        reveal_strlit("n");
        reveal_strlit("south");
        reveal_strlit("s");
        reveal_strlit("east");
        reveal_strlit("e");
        reveal_strlit("west");
        reveal_strlit("w");
        reveal_strlit("up");
        reveal_strlit("u");
        reveal_strlit("down");
        reveal_strlit("d");
        assert("north"@ =~= seq!['n', 'o', 'r', 't', 'h']);
        assert("n"@ =~= seq!['n']);
        assert("south"@ =~= seq!['s', 'o', 'u', 't', 'h']);
        assert("s"@ =~= seq!['s']);
        assert("east"@ =~= seq!['e', 'a', 's', 't']);
        assert("e"@ =~= seq!['e']);
        assert("west"@ =~= seq!['w', 'e', 's', 't']);
        assert("w"@ =~= seq!['w']);
        assert("up"@ =~= seq!['u', 'p']);
        assert("u"@ =~= seq!['u']);
        assert("down"@ =~= seq!['d', 'o', 'w', 'n']);
        assert("d"@ =~= seq!['d']);
    }
    if eq_ignore_case(token, "north") || eq_ignore_case(token, "n") {
        Some(Direction::North)
    } else if eq_ignore_case(token, "south") || eq_ignore_case(token, "s") {
        Some(Direction::South)
    } else if eq_ignore_case(token, "east") || eq_ignore_case(token, "e") {
        Some(Direction::East)
    } else if eq_ignore_case(token, "west") || eq_ignore_case(token, "w") {
        Some(Direction::West)
    } else if eq_ignore_case(token, "up") || eq_ignore_case(token, "u") {
        Some(Direction::Up)
    } else if eq_ignore_case(token, "down") || eq_ignore_case(token, "d") {
        Some(Direction::Down)
    } else {
        None
    }
}

impl Room {
    /// The exit field that a direction selects.
    pub open spec fn exit_field(self, d: Direction) -> Option<u64> {
        match d {
            Direction::North => self.north_exit,
            Direction::South => self.south_exit,
            Direction::East => self.east_exit,
            Direction::West => self.west_exit,
            Direction::Up => self.up_exit,
            Direction::Down => self.down_exit,
        }
    }

    pub fn exit_toward(&self, d: Direction) -> (r: Option<u64>)
        ensures
            r == self.exit_field(d),
    {
        match d {
            Direction::North => self.north_exit,
            Direction::South => self.south_exit,
            Direction::East => self.east_exit,
            Direction::West => self.west_exit,
            Direction::Up => self.up_exit,
            Direction::Down => self.down_exit,
        }
    }
}

/// The special exit `e` leaves `room_id` under the name `token`.
pub open spec fn leaves_as(e: Exit, room_id: u64, token: Seq<char>) -> bool {
    e.from_room == room_id && e.direction@ == token
}

/// The first special exit leaving `room_id` under the name `token`.
pub open spec fn special_index(exits: Seq<Exit>, room_id: u64, token: Seq<char>) -> Option<int> {
    if exists|i: int| 0 <= i < exits.len() && #[trigger] leaves_as(exits[i], room_id, token) {
        Some(
            choose|i: int|
                0 <= i < exits.len() && #[trigger] leaves_as(exits[i], room_id, token) && forall|j: int|
                    0 <= j < i ==> !leaves_as(#[trigger] exits[j], room_id, token),
        )
    } else {
        None
    }
}

/// Where a token leads from `room`: a direction takes its exit field; any
/// other token is looked up among the room's special exits when it has any.
pub open spec fn exit_target(room: Room, exits: Seq<Exit>, token: Seq<char>) -> Result<u64, ExitError> {
    match direction_of(token) {
        Some(d) => match room.exit_field(d) {
            Some(t) => Ok(t),
            None => Err(ExitError::NoExit),
        },
        None => if room.has_special_exits {
            match special_index(exits, room.id, token) {
                Some(i) => Ok(exits[i].to_room),
                None => Err(ExitError::InvalidDirection),
            }
        } else {
            Err(ExitError::InvalidDirection)
        },
    }
}

/// Resolves a direction token against a room and its special-exit table.
pub fn resolve_exit(room: &Room, exits: &Vec<Exit>, direction: &str) -> (r: Result<u64, ExitError>)
    ensures
        r == exit_target(*room, exits@, direction@),
{
    match parse_direction(direction) {
        Some(d) => match room.exit_toward(d) {
            Some(t) => Ok(t),
            None => Err(ExitError::NoExit),
        },
        None => {
            if !room.has_special_exits {
                return Err(ExitError::InvalidDirection);
            }
            let mut i: usize = 0;
            while i < exits.len()
                invariant
                    0 <= i <= exits@.len(),
                    direction_of(direction@) is None,
                    room.has_special_exits,
                    forall|j: int| 0 <= j < i ==> !leaves_as(#[trigger] exits@[j], room.id, direction@),
                decreases exits.len() - i,
            {
                let e = &exits[i];
                if e.from_room == room.id && e.direction.as_str().unicode_len() == direction.unicode_len()
                    && str_eq(e.direction.as_str(), direction) {
                    proof {
                        let ii = i as int;
                        assert(leaves_as(exits@[ii], room.id, direction@));
                        assert(0 <= ii < exits@.len() && leaves_as(exits@[ii], room.id, direction@)
                            && forall|j: int| 0 <= j < ii ==> !leaves_as(#[trigger] exits@[j], room.id, direction@));
                        let k = special_index(exits@, room.id, direction@)->0;
                        if k > ii {
                            assert(!leaves_as(exits@[ii], room.id, direction@));
                        }
                        assert(k == ii);
                    }
                    return Ok(e.to_room);
                }
                i = i + 1;
            }
            Err(ExitError::InvalidDirection)
        },
    }
}

/// The answer for a direction: its exit field, or no exit.
pub open spec fn field_target(room: Room, d: Direction) -> Result<u64, ExitError> {
    match room.exit_field(d) {
        Some(t) => Ok(t),
        None => Err(ExitError::NoExit),
    }
}

/// A full direction word and its one-letter alias, in any case, lead
/// through the same exit field; an absent exit is a "no exit" error.
pub proof fn lemma_aliases_agree(room: Room, exits: Seq<Exit>, s: Seq<char>)
    ensures
        same_word(s, seq!['n', 'o', 'r', 't', 'h']) || same_word(s, seq!['n']) ==> exit_target(room, exits, s)
            == field_target(room, Direction::North),
        same_word(s, seq!['s', 'o', 'u', 't', 'h']) || same_word(s, seq!['s']) ==> exit_target(room, exits, s)
            == field_target(room, Direction::South),
        same_word(s, seq!['e', 'a', 's', 't']) || same_word(s, seq!['e']) ==> exit_target(room, exits, s)
            == field_target(room, Direction::East),
        same_word(s, seq!['w', 'e', 's', 't']) || same_word(s, seq!['w']) ==> exit_target(room, exits, s)
            == field_target(room, Direction::West),
        same_word(s, seq!['u', 'p']) || same_word(s, seq!['u']) ==> exit_target(room, exits, s)
            == field_target(room, Direction::Up),
        same_word(s, seq!['d', 'o', 'w', 'n']) || same_word(s, seq!['d']) ==> exit_target(room, exits, s)
            == field_target(room, Direction::Down),
{
    let n5 = seq!['n', 'o', 'r', 't', 'h'];
    let s5 = seq!['s', 'o', 'u', 't', 'h'];
    let e4 = seq!['e', 'a', 's', 't'];
    let w4 = seq!['w', 'e', 's', 't'];
    let u2 = seq!['u', 'p'];
    let d4 = seq!['d', 'o', 'w', 'n'];
    assert(fold(n5) =~= n5);
    assert(fold(s5) =~= s5);
    assert(fold(e4) =~= e4);
    assert(fold(w4) =~= w4);
    assert(fold(u2) =~= u2);
    assert(fold(d4) =~= d4);
    assert(fold(seq!['n']) =~= seq!['n']);
    assert(fold(seq!['s']) =~= seq!['s']);
    assert(fold(seq!['e']) =~= seq!['e']);
    assert(fold(seq!['w']) =~= seq!['w']);
    assert(fold(seq!['u']) =~= seq!['u']);
    assert(fold(seq!['d']) =~= seq!['d']);
    assert(seq!['s'][0] != seq!['n'][0] && seq!['s'] != seq!['n']);
    assert(seq!['e'][0] != seq!['n'][0] && seq!['e'] != seq!['n']);
    assert(seq!['e'][0] != seq!['s'][0] && seq!['e'] != seq!['s']);
    assert(seq!['w'][0] != seq!['n'][0] && seq!['w'] != seq!['n']);
    assert(seq!['w'][0] != seq!['s'][0] && seq!['w'] != seq!['s']);
    assert(seq!['w'][0] != seq!['e'][0] && seq!['w'] != seq!['e']);
    assert(seq!['u'][0] != seq!['n'][0] && seq!['u'] != seq!['n']);
    assert(seq!['u'][0] != seq!['s'][0] && seq!['u'] != seq!['s']);
    assert(seq!['u'][0] != seq!['e'][0] && seq!['u'] != seq!['e']);
    assert(seq!['u'][0] != seq!['w'][0] && seq!['u'] != seq!['w']);
    assert(seq!['d'][0] != seq!['n'][0] && seq!['d'] != seq!['n']);
    assert(seq!['d'][0] != seq!['s'][0] && seq!['d'] != seq!['s']);
    assert(seq!['d'][0] != seq!['e'][0] && seq!['d'] != seq!['e']);
    assert(seq!['d'][0] != seq!['w'][0] && seq!['d'] != seq!['w']);
    assert(seq!['d'][0] != seq!['u'][0] && seq!['d'] != seq!['u']);
    assert(s5[0] != n5[0] && s5 != n5);
    assert(w4[0] != e4[0] && w4 != e4);
    assert(d4[0] != e4[0] && d4 != e4 && d4[0] != w4[0] && d4 != w4);
}

/// Exact comparison of two strings.
pub fn str_eq(a: &str, b: &str) -> (r: bool)
    ensures
        r == (a@ == b@),
{
    let n = a.unicode_len();
    if n != b.unicode_len() {
        return false;
    }
    let mut i: usize = 0;
    while i < n
        invariant
            n == a@.len(),
            n == b@.len(),
            0 <= i <= n,
            forall|j: int| 0 <= j < i ==> a@[j] == b@[j],
        decreases n - i,
    {
        if a.get_char(i) != b.get_char(i) {
            return false;
        }
        i = i + 1;
    }
    assert(a@ =~= b@);
    true
}

/// A destination must exist and be active.
pub fn validate_destination(target: Option<&Room>) -> (r: Result<(), DestinationError>)
    ensures
        target is None ==> r == Err::<(), DestinationError>(DestinationError::RoomNotFound),
        target is Some ==> (r is Ok <==> target->0.is_active),
        target is Some && !target->0.is_active ==> r == Err::<(), DestinationError>(
            DestinationError::RoomInactive,
        ),
{
    match target {
        None => Err(DestinationError::RoomNotFound),
        Some(room) => if room.is_active {
            Ok(())
        } else {
            Err(DestinationError::RoomInactive)
        },
    }
}

} // verus!
