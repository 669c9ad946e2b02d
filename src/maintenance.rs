//! The maintenance passes that the scheduler drives: condition ticks on
//! the fast cadence, patrols on the medium one, event expiry on the slow
//! one, and the driver steps that decide which of them are due.
use vstd::prelude::*;
use crate::conditions::{apply_condition_effect, decayed, outlives_decay, tick_damage, Condition};
use crate::entity::Entity;
use crate::events::live_at;
use crate::rooms::Room;
use crate::scheduler::{sat_add, Cadence, DueTicks, RegionSchedule, DEFAULT_FAST_MS, DEFAULT_MEDIUM_MS};
use crate::tables::{MovementType, NPCBehavior, Region};
use crate::world::{entity_index, entity_index_from, lemma_entity_index_in_range, room_index, World};

verus! {

/// The entity (by index) that a condition acts on during a pass over
/// `region`: its bearer, when the bearer stands in a room of that region.
pub open spec fn affected(ents: Seq<Entity>, rooms: Seq<Room>, c: Condition, region: u64) -> Option<int> {
    match entity_index(ents, c.entity_id) {
        Some(k) => match room_index(rooms, ents[k].room_id) {
            Some(ri) => if rooms[ri].region_id == region {
                Some(k)
            } else {
                None
            },
            None => None,
        },
        None => None,
    }
}

/// The entities after a condition pass over `region`: each condition, in
/// order, applies one tick of its effect to its bearer.
pub open spec fn ticked_entities(ents: Seq<Entity>, rooms: Seq<Room>, conds: Seq<Condition>, region: u64) -> Seq<Entity>
    decreases conds.len(),
{
    if conds.len() == 0 {
        ents
    } else {
        let prev = ticked_entities(ents, rooms, conds.drop_last(), region);
        match affected(ents, rooms, conds.last(), region) {
            Some(k) => prev.update(k, prev[k].damaged(tick_damage(conds.last()))),
            None => prev,
        }
    }
}

/// The conditions after a pass over `region`: those acting in the region
/// decay and leave once expired; all others stay as they were.
pub open spec fn ticked_conditions(ents: Seq<Entity>, rooms: Seq<Room>, conds: Seq<Condition>, region: u64) -> Seq<Condition>
    decreases conds.len(),
{
    if conds.len() == 0 {
        conds
    } else {
        let prev = ticked_conditions(ents, rooms, conds.drop_last(), region);
        let c = conds.last();
        if affected(ents, rooms, c, region) is Some {
            if outlives_decay(c) {
                prev.push(decayed(c))
            } else {
                prev
            }
        } else {
            prev.push(c)
        }
    }
}

/// Same ids and rooms, position by position.
pub open spec fn same_places(a: Seq<Entity>, b: Seq<Entity>) -> bool {
    a.len() == b.len() && forall|i: int| 0 <= i < a.len() ==> (#[trigger] a[i]).id == b[i].id && a[i].room_id == b[i].room_id
}

proof fn lemma_same_places_index(a: Seq<Entity>, b: Seq<Entity>, id: u64, i: int)
    requires
        same_places(a, b),
    ensures
        entity_index_from(a, id, i) == entity_index_from(b, id, i),
    decreases a.len() - i,
{
    if 0 <= i < a.len() {
        assert(a[i].id == b[i].id);
        lemma_same_places_index(a, b, id, i + 1);
    }
}

proof fn lemma_ticked_same_places(ents: Seq<Entity>, rooms: Seq<Room>, conds: Seq<Condition>, region: u64)
    ensures
        same_places(ticked_entities(ents, rooms, conds, region), ents),
    decreases conds.len(),
{
    if conds.len() > 0 {
        lemma_ticked_same_places(ents, rooms, conds.drop_last(), region);
        lemma_entity_index_in_range(ents, conds.last().entity_id, 0);
        let prev = ticked_entities(ents, rooms, conds.drop_last(), region);
        if let Some(k) = affected(ents, rooms, conds.last(), region) {
            let next = prev.update(k, prev[k].damaged(tick_damage(conds.last())));
            assert forall|i: int| 0 <= i < next.len() implies (#[trigger] next[i]).id == ents[i].id
                && next[i].room_id == ents[i].room_id by {
                assert(prev[i].id == ents[i].id);
            }
        }
    }
}

/// The first region at or after `i` with the given id.
pub open spec fn region_index_from(s: Seq<Region>, id: u64, i: int) -> Option<int>
    decreases s.len() - i,
{
    if i < 0 || i >= s.len() {
        None
    } else if s[i].id == id {
        Some(i)
    } else {
        region_index_from(s, id, i + 1)
    }
}

proof fn lemma_region_index_in_range(s: Seq<Region>, id: u64, i: int)
    ensures
        region_index_from(s, id, i) matches Some(k) ==> 0 <= i <= k < s.len() && s[k].id == id,
    decreases s.len() - i,
{
    if 0 <= i < s.len() && s[i].id != id {
        lemma_region_index_in_range(s, id, i + 1);
    }
}

/// Some region with this id is active.
pub open spec fn region_active(regions: Seq<Region>, region_id: u64) -> bool {
    exists|i: int| 0 <= i < regions.len() && (#[trigger] regions[i]).id == region_id && regions[i].is_active
}

impl World {
    /// The schedule of a region's driver started at `start` (milliseconds):
    /// the region's own tick rates, or the default cadences when there is no
    /// such region.
    pub fn region_schedule(&self, region_id: u64, start: u64) -> (r: RegionSchedule)
        ensures
            r.region_id == region_id,
            match region_index_from(self.regions@, region_id, 0) {
                Some(k) => r == RegionSchedule::new_spec(
                    region_id,
                    self.regions@[k].tick_rate_fast as u64,
                    self.regions@[k].tick_rate_medium as u64,
                    start,
                ),
                None => r == RegionSchedule::new_spec(region_id, DEFAULT_FAST_MS, DEFAULT_MEDIUM_MS, start),
            },
    {
        proof {
            lemma_region_index_in_range(self.regions@, region_id, 0);
        }
        let mut i: usize = 0;
        while i < self.regions.len()
            invariant
                0 <= i <= self.regions@.len(),
                region_index_from(self.regions@, region_id, 0) == region_index_from(self.regions@, region_id, i as int),
            decreases self.regions.len() - i,
        {
            if self.regions[i].id == region_id {
                let fast = self.regions[i].tick_rate_fast as u64;
                let medium = self.regions[i].tick_rate_medium as u64;
                return RegionSchedule::new(region_id, fast, medium, start);
            }
            i = i + 1;
        }
        RegionSchedule::new(region_id, DEFAULT_FAST_MS, DEFAULT_MEDIUM_MS, start)
    }

    /// Whether the region exists and is active, so that its cadences may be
    /// driven.
    pub fn region_is_active(&self, region_id: u64) -> (r: bool)
        ensures
            r == region_active(self.regions@, region_id),
    {
        let mut i: usize = 0;
        while i < self.regions.len()
            invariant
                0 <= i <= self.regions@.len(),
                forall|j: int| 0 <= j < i ==> !((#[trigger] self.regions@[j]).id == region_id && self.regions@[j].is_active),
            decreases self.regions.len() - i,
        {
            if self.regions[i].id == region_id && self.regions[i].is_active {
                return true;
            }
            i = i + 1;
        }
        false
    }

    /// The fast-cadence condition pass over a region: every condition whose
    /// bearer stands in the region applies one tick of its effect to the
    /// bearer's hp, then decays, and leaves once expired. Conditions of
    /// entities elsewhere are untouched.
    pub fn tick_conditions(&mut self, region_id: u64)
        requires
            old(self).wf(),
        ensures
            final(self).wf(),
            final(self).entities@ == ticked_entities(old(self).entities@, old(self).rooms@, old(self).conditions@, region_id),
            final(self).conditions@ == ticked_conditions(old(self).entities@, old(self).rooms@, old(self).conditions@, region_id),
            *final(self) == (World { entities: final(self).entities, conditions: final(self).conditions, ..*old(self) }),
    {
        let mut conds: Vec<Condition> = Vec::new();
        core::mem::swap(&mut conds, &mut self.conditions);
        let ghost ents0 = self.entities@;
        let mut kept: Vec<Condition> = Vec::new();
        let mut i: usize = 0;
        while i < conds.len()
            invariant
                0 <= i <= conds@.len(),
                conds@ == old(self).conditions@,
                ents0 == old(self).entities@,
                *self == (World { entities: self.entities, conditions: self.conditions, ..*old(self) }),
                self.wf(),
                self.entities@ == ticked_entities(ents0, self.rooms@, conds@.subrange(0, i as int), region_id),
                kept@ == ticked_conditions(ents0, self.rooms@, conds@.subrange(0, i as int), region_id),
            decreases conds.len() - i,
        {
            let c = conds[i];
            proof {
                let sub = conds@.subrange(0, i as int + 1);
                assert(sub.drop_last() =~= conds@.subrange(0, i as int));
                assert(sub.last() == c);
                lemma_ticked_same_places(ents0, self.rooms@, conds@.subrange(0, i as int), region_id);
                lemma_same_places_index(self.entities@, ents0, c.entity_id, 0);
            }
            let mut acts = false;
            match self.find_entity(c.entity_id) {
                Some(k) => match self.find_room(self.entities[k].room_id) {
                    Some(ri) => {
                        if self.rooms[ri].region_id == region_id {
                            acts = true;
                            let mut e = self.entities[k].duplicate();
                            apply_condition_effect(&mut e, &c);
                            self.entities.set(k, e);
                        }
                    },
                    None => {},
                },
                None => {},
            }
            if acts {
                if c.remaining_ticks > 1 {
                    let mut d = c;
                    d.remaining_ticks = c.remaining_ticks - 1;
                    kept.push(d);
                }
            } else {
                kept.push(c);
            }
            i = i + 1;
        }
        assert(conds@.subrange(0, conds@.len() as int) =~= conds@);
        self.conditions = kept;
    }

    /// The slow-cadence sweep: drops every event that has expired at `now`.
    pub fn cleanup_expired_events(&mut self, now: i64)
        requires
            old(self).wf(),
        ensures
            final(self).wf(),
            final(self).log.events@ == old(self).log.events@.filter(live_at(now)),
            final(self).log.next_id == old(self).log.next_id,
            *final(self) == (World { log: final(self).log, ..*old(self) }),
    {
        self.log.purge_expired(now);
    }
}

/// The first position of `room` on a patrol route, from `i` on.
pub open spec fn waypoint_from(route: Seq<u64>, room: u64, i: int) -> Option<int>
    decreases route.len() - i,
{
    if i < 0 || i >= route.len() {
        None
    } else if route[i] == room {
        Some(i)
    } else {
        waypoint_from(route, room, i + 1)
    }
}

/// Where a patroller goes from `room`: the waypoint after the first
/// occurrence of its room (wrapping round), or the first waypoint when it
/// is off its route.
pub open spec fn next_waypoint(route: Seq<u64>, room: u64) -> u64 {
    match waypoint_from(route, room, 0) {
        Some(p) => route[(p + 1) % (route.len() as int)],
        None => route[0],
    }
}

/// The entity (by index) that a behaviour moves during a patrol pass over
/// `region`, and where to: a living patroller in the region, with a route,
/// whose next waypoint is an existing, active room.
pub open spec fn patrol_move(ents: Seq<Entity>, rooms: Seq<Room>, b: NPCBehavior, region: u64) -> Option<(int, u64)> {
    if b.movement_type != MovementType::Patrol || b.patrol_waypoints@.len() == 0 {
        None
    } else {
        match entity_index(ents, b.entity_id) {
            None => None,
            Some(k) => if !ents[k].is_alive {
                None
            } else {
                match room_index(rooms, ents[k].room_id) {
                    None => None,
                    Some(ri) => if rooms[ri].region_id != region {
                        None
                    } else {
                        let t = next_waypoint(b.patrol_waypoints@, ents[k].room_id);
                        match room_index(rooms, t) {
                            Some(ti) => if rooms[ti].is_active {
                                Some((k, t))
                            } else {
                                None
                            },
                            None => None,
                        }
                    },
                }
            },
        }
    }
}

/// The entities after a patrol pass: each behaviour in turn moves its NPC
/// one waypoint on.
pub open spec fn patrolled(ents: Seq<Entity>, rooms: Seq<Room>, npcs: Seq<NPCBehavior>, region: u64) -> Seq<Entity>
    decreases npcs.len(),
{
    if npcs.len() == 0 {
        ents
    } else {
        let prev = patrolled(ents, rooms, npcs.drop_last(), region);
        match patrol_move(prev, rooms, npcs.last(), region) {
            Some((k, t)) => prev.update(k, Entity { room_id: t, ..prev[k] }),
            None => prev,
        }
    }
}

impl World {
    fn next_waypoint_of(route: &Vec<u64>, room: u64) -> (r: u64)
        requires
            route@.len() > 0,
        ensures
            r == next_waypoint(route@, room),
    {
        let n = route.len();
        let mut i: usize = 0;
        while i < n
            invariant
                n == route@.len(),
                n > 0,
                0 <= i <= n,
                waypoint_from(route@, room, 0) == waypoint_from(route@, room, i as int),
            decreases n - i,
        {
            if route[i] == room {
                return route[(i + 1) % n];
            }
            i = i + 1;
        }
        route[0]
    }

    /// The medium-cadence NPC pass over a region: every patrolling NPC in
    /// the region that is alive moves one waypoint along its route, when
    /// that room exists and is active.
    pub fn tick_npcs(&mut self, region_id: u64)
        requires
            old(self).wf(),
        ensures
            final(self).wf(),
            final(self).entities@ == patrolled(old(self).entities@, old(self).rooms@, old(self).npcs@, region_id),
            *final(self) == (World { entities: final(self).entities, ..*old(self) }),
    {
        let mut i: usize = 0;
        while i < self.npcs.len()
            invariant
                *self == (World { entities: self.entities, ..*old(self) }),
                self.wf(),
                0 <= i <= self.npcs@.len(),
                self.entities@ == patrolled(old(self).entities@, self.rooms@, self.npcs@.subrange(0, i as int), region_id),
            decreases self.npcs.len() - i,
        {
            proof {
                let sub = self.npcs@.subrange(0, i as int + 1);
                assert(sub.drop_last() =~= self.npcs@.subrange(0, i as int));
            }
            let b = &self.npcs[i];
            if b.movement_type == MovementType::Patrol && b.patrol_waypoints.len() > 0 {
                match self.find_entity(b.entity_id) {
                    Some(k) => {
                        if self.entities[k].is_alive {
                            let here = self.entities[k].room_id;
                            match self.find_room(here) {
                                Some(ri) => {
                                    if self.rooms[ri].region_id == region_id {
                                        let t = World::next_waypoint_of(&self.npcs[i].patrol_waypoints, here);
                                        match self.find_room(t) {
                                            Some(ti) => {
                                                if self.rooms[ti].is_active {
                                                    let mut e = self.entities[k].duplicate();
                                                    e.room_id = t;
                                                    self.entities.set(k, e);
                                                }
                                            },
                                            None => {},
                                        }
                                    }
                                },
                                None => {},
                            }
                        }
                    },
                    None => {},
                }
            }
            i = i + 1;
        }
        assert(self.npcs@.subrange(0, self.npcs@.len() as int) =~= self.npcs@);
    }
}

impl World {
    /// One step of a region's driver at `now` (milliseconds): the cadences
    /// that are due run (conditions on the fast one, patrols on the medium
    /// one); an inactive region runs nothing and its schedule stays put.
    pub fn drive_region(&mut self, schedule: &mut RegionSchedule, now: u64) -> (r: DueTicks)
        requires
            old(self).wf(),
        ensures
            final(self).wf(),
            !region_active(old(self).regions@, old(schedule).region_id) ==> !r.fast && !r.medium
                && *final(schedule) == *old(schedule) && *final(self) == *old(self),
            region_active(old(self).regions@, old(schedule).region_id) ==> r.fast == old(schedule).fast.due(now)
                && r.medium == old(schedule).medium.due(now),
            final(schedule).region_id == old(schedule).region_id,
            r.fast ==> final(schedule).fast.next_at == sat_add(now, old(schedule).fast.interval_ms),
            !r.fast ==> final(schedule).fast == old(schedule).fast,
            r.medium ==> final(schedule).medium.next_at == sat_add(now, old(schedule).medium.interval_ms),
            !r.medium ==> final(schedule).medium == old(schedule).medium,
            final(schedule).fast.interval_ms == old(schedule).fast.interval_ms,
            final(schedule).medium.interval_ms == old(schedule).medium.interval_ms,
            ({
                let region = old(schedule).region_id;
                let ticked = if r.fast {
                    ticked_entities(old(self).entities@, old(self).rooms@, old(self).conditions@, region)
                } else {
                    old(self).entities@
                };
                &&& final(self).conditions@ == if r.fast {
                    ticked_conditions(old(self).entities@, old(self).rooms@, old(self).conditions@, region)
                } else {
                    old(self).conditions@
                }
                &&& final(self).entities@ == if r.medium {
                    patrolled(ticked, old(self).rooms@, old(self).npcs@, region)
                } else {
                    ticked
                }
                &&& *final(self) == (World { entities: final(self).entities, conditions: final(self).conditions, ..*old(self) })
            }),
    {
        let region_id = schedule.region_id;
        let active = self.region_is_active(region_id);
        let due = schedule.poll(now, active);
        if due.fast {
            self.tick_conditions(region_id);
        }
        if due.medium {
            self.tick_npcs(region_id);
        }
        due
    }

    /// One step of the global slow cadence at `now_ms`: when due, events
    /// expired at `now_micros` are swept. Returns whether it ran.
    pub fn drive_cleanup(&mut self, slow: &mut Cadence, now_ms: u64, now_micros: i64) -> (r: bool)
        requires
            old(self).wf(),
        ensures
            final(self).wf(),
            r == old(slow).due(now_ms),
            r ==> *final(slow) == (Cadence { next_at: sat_add(now_ms, old(slow).interval_ms), ..*old(slow) }),
            !r ==> *final(slow) == *old(slow) && *final(self) == *old(self),
            r ==> final(self).log.events@ == old(self).log.events@.filter(live_at(now_micros))
                && *final(self) == (World { log: final(self).log, ..*old(self) }),
    {
        if slow.poll(now_ms) {
            self.cleanup_expired_events(now_micros);
            true
        } else {
            false
        }
    }
}

} // verus!
