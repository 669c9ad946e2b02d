//! World seeding: test regions, rooms and entities, room grids, and new
//! characters. None of it may break the world's invariants.
use vstd::prelude::*;
use crate::entity::{Entity, EntityType, Identity};
use crate::rooms::Room;
use crate::tables::{BiomeType, ClimateType, Region};
use crate::world::{entity_index, World};

verus! {

/// Widest room grid accepted.
pub const MAX_GRID_SIZE: u32 = 20;

/// The label of the grid room at `(x, y)`: "Room [x, y]".
pub uninterp spec fn grid_label(x: int, y: int) -> Seq<char>;

/// The description of the grid room at `(x, y)`.
pub uninterp spec fn grid_description(x: int, y: int) -> Seq<char>;

/// Relies on std's `format!`: the text depends on the coordinates alone.
#[verifier::external_body]
fn grid_room_label(x: i64, y: i64) -> (r: String)
    ensures
        r@ == grid_label(x as int, y as int),
{
    format!("Room [{}, {}]", x, y)
}

/// Relies on std's `format!`: the text depends on the coordinates alone.
#[verifier::external_body]
fn grid_room_description(x: i64, y: i64) -> (r: String)
    ensures
        r@ == grid_description(x as int, y as int),
{
    format!("A stone chamber at coordinates ({}, {}). Exits lead in the cardinal directions.", x, y)
}

#[derive(Clone, Copy, Debug, PartialEq, Eq, Structural)]
pub enum SeedError {
    /// The grid is wider than the largest size accepted.
    GridTooLarge,
    /// No more ids can be given out.
    IdsExhausted,
    /// The sender has no account.
    NoAccount,
    /// A player character already has the name.
    NameTaken,
}

/// Room number `t` of a grid `side` rooms wide whose south-west corner is
/// `(x0, y0)`, with ids from `base`: it sits in column `t / side` and row
/// `t % side`, is open, allows combat, and links to its grid neighbours.
pub open spec fn is_grid_room(r: Room, base: int, x0: int, y0: int, side: int, t: int) -> bool {
    let i = t / side;
    let j = t % side;
    &&& r.id == base + t
    &&& r.name@ == grid_label(x0 + i, y0 + j)
    &&& r.description@ == grid_description(x0 + i, y0 + j)
    &&& r.north_exit == (if j + 1 < side { Some((base + t + 1) as u64) } else { None::<u64> })
    &&& r.south_exit == (if j > 0 { Some((base + t - 1) as u64) } else { None::<u64> })
    &&& r.east_exit == (if i + 1 < side { Some((base + t + side) as u64) } else { None::<u64> })
    &&& r.west_exit == (if i > 0 { Some((base + t - side) as u64) } else { None::<u64> })
    &&& r.up_exit is None && r.down_exit is None
    &&& !r.has_special_exits
    &&& r.temperature_modifier == 0 && r.light_modifier == 50
    &&& !r.is_safe_zone && r.allows_combat && r.allows_magic
    &&& r.current_volume is None && r.max_volume is None
    &&& r.last_player_visit == 0 && r.item_count == 0
    &&& r.region_id == 1
    &&& r.is_active
}

/// A fresh player entity with full pools and all attributes at 100.
pub open spec fn is_fresh_player(e: Entity, id: u64, identity: Option<Identity>, name: Seq<char>, now: i64) -> bool {
    &&& e.id == id && e.identity == identity && e.entity_type == EntityType::Player
    &&& e.name@ == name && e.room_id == 1
    &&& e.hp == 100 && e.max_hp == 100 && e.stamina == 100 && e.max_stamina == 100
    &&& e.mana == 100 && e.max_mana == 100
    &&& e.dexterity == 100 && e.strength == 100 && e.vitality == 100 && e.perception == 100
        && e.willpower == 100
    &&& e.is_alive && e.is_active
    &&& e.created_at == now && e.last_action_at == now
}

pub(crate) fn fresh_player(id: u64, identity: Option<Identity>, name: String, description: String, volume: u32, now: i64) -> (r: Entity)
    ensures
        is_fresh_player(r, id, identity, name@, now),
        r.description == description,
        r.volume == volume,
        r.wf(),
{
    Entity {
        id,
        identity,
        entity_type: EntityType::Player,
        name,
        description,
        room_id: 1,
        x: 0,
        y: 0,
        z: 0,
        volume,
        weight: 70_000,
        max_capacity: 50_000,
        hp: 100,
        max_hp: 100,
        stamina: 100,
        max_stamina: 100,
        mana: 100,
        max_mana: 100,
        dexterity: 100,
        strength: 100,
        vitality: 100,
        perception: 100,
        willpower: 100,
        is_alive: true,
        is_active: true,
        created_at: now,
        last_action_at: now,
    }
}

impl World {
    /// Adds a square grid of linked rooms centred on `(center_x, center_y)`
    /// to region 1, `size / 2` rooms out from the centre on every side.
    /// Refused when `size` exceeds the largest grid size.
    pub fn create_room_grid(&mut self, center_x: i32, center_y: i32, size: u32) -> (r: Result<(), SeedError>)
        requires
            old(self).wf(),
        ensures
            final(self).wf(),
            size > MAX_GRID_SIZE ==> r == Err::<(), SeedError>(SeedError::GridTooLarge),
            size <= MAX_GRID_SIZE ==> (r is Err <==> old(self).next_room_id > u64::MAX - 512),
            r is Err ==> *final(self) == *old(self),
            r is Ok ==> {
                let half = (size / 2) as int;
                let side = 2 * half + 1;
                let n = old(self).rooms@.len();
                &&& final(self).rooms@.len() == n + side * side
                &&& final(self).rooms@.subrange(0, n as int) == old(self).rooms@
                &&& forall|t: int| 0 <= t < side * side ==> is_grid_room(
                    #[trigger] final(self).rooms@[n + t],
                    old(self).next_room_id as int,
                    center_x - half,
                    center_y - half,
                    side,
                    t,
                )
                &&& final(self).next_room_id == old(self).next_room_id + side * side
                &&& *final(self) == (World {
                    rooms: final(self).rooms,
                    next_room_id: final(self).next_room_id,
                    ..*old(self)
                })
            },
    {
        if size > MAX_GRID_SIZE {
            return Err(SeedError::GridTooLarge);
        }
        if self.next_room_id > u64::MAX - 512 {
            return Err(SeedError::IdsExhausted);
        }
        let half: u64 = (size / 2) as u64;
        let side: u64 = 2 * half + 1;
        assert(side * side <= 441) by (nonlinear_arith)
            requires
                side <= 21,
        ;
        let count: u64 = side * side;
        let base = self.next_room_id;
        let x0: i64 = center_x as i64 - half as i64;
        let y0: i64 = center_y as i64 - half as i64;
        let ghost n = self.rooms@.len();
        let mut t: u64 = 0;
        while t < count
            invariant
                self.wf(),
                count == side * side,
                count <= 441,
                side == 2 * half + 1,
                half <= 10,
                base == old(self).next_room_id,
                base <= u64::MAX - 512,
                x0 == center_x - half,
                y0 == center_y - half,
                0 <= t <= count,
                self.rooms@.len() == n + t,
                n == old(self).rooms@.len(),
                self.rooms@.subrange(0, n as int) == old(self).rooms@,
                forall|k: int| 0 <= k < t ==> is_grid_room(#[trigger] self.rooms@[n + k], base as int, x0 as int, y0 as int, side as int, k),
                *self == (World { rooms: self.rooms, ..*old(self) }),
            decreases count - t,
        {
            let i = t / side;
            let j = t % side;
            assert(j <= t && (i > 0 ==> t >= side)) by (nonlinear_arith)
                requires
                    i == t / side,
                    j == t % side,
                    side > 0,
            ;
            let id = base + t;
            let room = Room {
                id,
                name: grid_room_label(x0 + i as i64, y0 + j as i64),
                description: grid_room_description(x0 + i as i64, y0 + j as i64),
                current_volume: None,
                max_volume: None,
                north_exit: if j + 1 < side { Some(id + 1) } else { None },
                south_exit: if j > 0 { Some(id - 1) } else { None },
                east_exit: if i + 1 < side { Some(id + side) } else { None },
                west_exit: if i > 0 { Some(id - side) } else { None },
                up_exit: None,
                down_exit: None,
                has_special_exits: false,
                temperature_modifier: 0,
                light_modifier: 50,
                is_safe_zone: false,
                allows_combat: true,
                allows_magic: true,
                last_player_visit: 0,
                item_count: 0,
                region_id: 1,
                is_active: true,
            };
            let ghost before = self.rooms@;
            self.rooms.push(room);
            proof {
                assert forall|k: int| 0 <= k < t + 1 implies is_grid_room(#[trigger] self.rooms@[n + k], base as int, x0 as int, y0 as int, side as int, k) by {
                    if k < t {
                        assert(self.rooms@[n + k] == before[n + k]);
                    }
                }
                assert(self.rooms@.subrange(0, n as int) =~= before.subrange(0, n as int));
            }
            t = t + 1;
        }
        self.next_room_id = base + count;
        Ok(())
    }

    /// Adds the test dungeon region, tick rates at one and five seconds.
    pub fn create_test_region(&mut self) -> (r: Result<u64, SeedError>)
        requires
            old(self).wf(),
        ensures
            final(self).wf(),
            r is Err <==> old(self).next_region_id == u64::MAX,
            r is Err ==> *final(self) == *old(self),
            r is Ok ==> r->Ok_0 == old(self).next_region_id && final(self).next_region_id == old(self).next_region_id + 1
                && final(self).regions@.len() == old(self).regions@.len() + 1
                && final(self).regions@.drop_last() == old(self).regions@
                && final(self).regions@.last().id == r->Ok_0
                && final(self).regions@.last().is_active
                && final(self).regions@.last().tick_rate_fast == 1000
                && final(self).regions@.last().tick_rate_medium == 5000
                && final(self).regions@.last().default_spawn_room == 1
                && *final(self) == (World {
                    regions: final(self).regions,
                    next_region_id: final(self).next_region_id,
                    ..*old(self)
                }),
    {
        if self.next_region_id == u64::MAX {
            return Err(SeedError::IdsExhausted);
        }
        let id = self.next_region_id;
        let region = Region {
            id,
            name: "Test Dungeon".to_string(),
            description: "A small dungeon for testing game mechanics.".to_string(),
            biome: BiomeType::Dungeon,
            climate: ClimateType::Temperate,
            base_temperature: 18,
            base_light_level: 64,
            default_spawn_room: 1,
            is_active: true,
            tick_rate_fast: 1000,
            tick_rate_medium: 5000,
            min_x: None,
            max_x: None,
            min_y: None,
            max_y: None,
        };
        self.regions.push(region);
        self.next_region_id = id + 1;
        assert(self.regions@.drop_last() =~= old(self).regions@);
        Ok(id)
    }

    /// Adds the starting chamber: a safe room of region 1 without exits
    /// where combat is not allowed.
    pub fn create_test_room(&mut self) -> (r: Result<u64, SeedError>)
        requires
            old(self).wf(),
        ensures
            final(self).wf(),
            r is Err <==> old(self).next_room_id == u64::MAX,
            r is Err ==> *final(self) == *old(self),
            r is Ok ==> r->Ok_0 == old(self).next_room_id && final(self).next_room_id == old(self).next_room_id + 1
                && final(self).rooms@.len() == old(self).rooms@.len() + 1
                && final(self).rooms@.drop_last() == old(self).rooms@
                && final(self).rooms@.last().id == r->Ok_0
                && final(self).rooms@.last().region_id == 1
                && final(self).rooms@.last().is_safe_zone
                && !final(self).rooms@.last().allows_combat
                && final(self).rooms@.last().is_active
                && final(self).rooms@.last().north_exit is None
                && final(self).rooms@.last().south_exit is None
                && final(self).rooms@.last().east_exit is None
                && final(self).rooms@.last().west_exit is None
                && *final(self) == (World { rooms: final(self).rooms, next_room_id: final(self).next_room_id, ..*old(self) }),
    {
        if self.next_room_id == u64::MAX {
            return Err(SeedError::IdsExhausted);
        }
        let id = self.next_room_id;
        let room = Room {
            id,
            name: "The Starting Chamber".to_string(),
            description: "A dimly lit stone chamber. Torches flicker on the walls, casting dancing shadows. You see exits to the north, south, east, and west.".to_string(),
            current_volume: None,
            max_volume: None,
            north_exit: None,
            south_exit: None,
            east_exit: None,
            west_exit: None,
            up_exit: None,
            down_exit: None,
            has_special_exits: false,
            temperature_modifier: 2,
            light_modifier: 64,
            is_safe_zone: true,
            allows_combat: false,
            allows_magic: true,
            last_player_visit: 0,
            item_count: 0,
            region_id: 1,
            is_active: true,
        };
        self.rooms.push(room);
        self.next_room_id = id + 1;
        assert(self.rooms@.drop_last() =~= old(self).rooms@);
        Ok(id)
    }

    /// Adds a test player named `name` in room 1.
    pub fn create_test_entity(&mut self, name: String) -> (r: Result<u64, SeedError>)
        requires
            old(self).wf(),
        ensures
            final(self).wf(),
            r is Err <==> old(self).next_entity_id == u64::MAX,
            r is Err ==> *final(self) == *old(self),
            r is Ok ==> r->Ok_0 == old(self).next_entity_id && final(self).next_entity_id == old(self).next_entity_id + 1
                && final(self).entities@.len() == old(self).entities@.len() + 1
                && final(self).entities@.drop_last() == old(self).entities@
                && is_fresh_player(final(self).entities@.last(), r->Ok_0, None, name@, 0)
                && *final(self) == (World {
                    entities: final(self).entities,
                    next_entity_id: final(self).next_entity_id,
                    ..*old(self)
                }),
    {
        if self.next_entity_id == u64::MAX {
            return Err(SeedError::IdsExhausted);
        }
        let id = self.next_entity_id;
        let e = fresh_player(id, None, name, "A test entity".to_string(), 1000, 0);
        self.entities.push(e);
        self.next_entity_id = id + 1;
        assert(self.entities@.drop_last() =~= old(self).entities@);
        Ok(id)
    }
}

} // verus!
