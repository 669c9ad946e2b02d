//! The world state and the engine's entry points: moving, attacking, and
//! the maintenance passes that the scheduler drives. Every entry point is
//! all-or-nothing: on an error the world is left exactly as it was.
use vstd::prelude::*;
use crate::combat::{
    attack_result, attack_stat, defense_stat, in_envelope, resolve_attack, roll_base, roll_samples,
    AttackOutcome, CombatError,
    ATTACKER_MODIFIER_PCT, DEFENDER_MODIFIER_PCT, MELEE_SKILL,
};
use crate::conditions::{Condition, ConditionType};
use crate::containment::ContainmentForest;
use crate::entity::{Entity, Identity};
use crate::events::{expiry_after, expiry_of, EventLog, EventPayload, EventType, GameEvent};
use crate::rooms::{exit_target, resolve_exit, Exit, ExitError, Room};
use crate::tables::{Account, NPCBehavior, PlayerSession, Region};

verus! {

pub struct World {
    pub entities: Vec<Entity>,
    pub rooms: Vec<Room>,
    pub exits: Vec<Exit>,
    pub conditions: Vec<Condition>,
    pub sessions: Vec<PlayerSession>,
    pub accounts: Vec<Account>,
    pub regions: Vec<Region>,
    pub npcs: Vec<NPCBehavior>,
    pub log: EventLog,
    pub containment: ContainmentForest,
    pub next_entity_id: u64,
    pub next_room_id: u64,
    pub next_region_id: u64,
}

/// The first entity at or after `i` with the given id.
pub open spec fn entity_index_from(s: Seq<Entity>, id: u64, i: int) -> Option<int>
    decreases s.len() - i,
{
    if i < 0 || i >= s.len() {
        None
    } else if s[i].id == id {
        Some(i)
    } else {
        entity_index_from(s, id, i + 1)
    }
}

pub open spec fn entity_index(s: Seq<Entity>, id: u64) -> Option<int> {
    entity_index_from(s, id, 0)
}

pub open spec fn room_index_from(s: Seq<Room>, id: u64, i: int) -> Option<int>
    decreases s.len() - i,
{
    if i < 0 || i >= s.len() {
        None
    } else if s[i].id == id {
        Some(i)
    } else {
        room_index_from(s, id, i + 1)
    }
}

pub open spec fn room_index(s: Seq<Room>, id: u64) -> Option<int> {
    room_index_from(s, id, 0)
}

pub open spec fn session_index_from(s: Seq<PlayerSession>, who: Identity, i: int) -> Option<int>
    decreases s.len() - i,
{
    if i < 0 || i >= s.len() {
        None
    } else if s[i].identity == who {
        Some(i)
    } else {
        session_index_from(s, who, i + 1)
    }
}

pub open spec fn session_index(s: Seq<PlayerSession>, who: Identity) -> Option<int> {
    session_index_from(s, who, 0)
}

/// The entity carries a condition of the gating type.
pub open spec fn entity_gated(conds: Seq<Condition>, entity_id: u64, gate: ConditionType) -> bool {
    exists|i: int|
        0 <= i < conds.len() && (#[trigger] conds[i]).entity_id == entity_id && conds[i].condition_type
            == gate
}

pub open spec fn opt_index(r: Option<usize>, s: Option<int>) -> bool {
    match r {
        Some(k) => s == Some(k as int),
        None => s is None,
    }
}

#[derive(Clone, Copy, Debug, PartialEq, Eq, Structural)]
pub enum MovementError {
    NotLoggedIn,
    NoCharacterSelected,
    CharacterNotFound,
    ActorDead,
    /// A gating condition (comatose) forbids moving.
    Comatose,
    CurrentRoomNotFound,
    InvalidDirection,
    NoExit,
    RoomNotFound,
    RoomInactive,
    /// The event log cannot take another event.
    StorageFailure,
}

/// Where a move went and the id of the event that records it.
#[derive(Clone, Copy, Debug, PartialEq, Eq, Structural)]
pub struct MoveOutcome {
    pub from_room: u64,
    pub to_room: u64,
    pub event_id: u64,
}

/// The entity after moving to `to` at `now`.
pub open spec fn moved(p: Entity, to: u64, now: i64) -> Entity {
    Entity { room_id: to, last_action_at: now, ..p }
}

/// `ev` records that `p` took the exit `dir` to room `to` at `now`; it is
/// visible but silent, and is logged under `id`.
pub open spec fn is_movement_event(ev: GameEvent, p: Entity, dir: Seq<char>, to: u64, now: i64, id: u64) -> bool {
    &&& ev.id == id
    &&& ev.room_id == p.room_id
    &&& ev.timestamp == now
    &&& ev.event_type == EventType::Movement
    &&& ev.payload matches EventPayload::Movement { entity_id, direction, from_room, to_room }
        && entity_id == p.id && direction@ == dir && from_room == p.room_id && to_room == to
    &&& ev.primary_actor == p.id
    &&& ev.secondary_actor is None
    &&& ev.requires_sight
    &&& !ev.requires_hearing
    &&& ev.stealth_dc is None
    &&& ev.expires_at == expiry_of(now)
}

/// Only the entities and the event log differ between the two worlds.
pub open spec fn same_but_entities_and_log(a: World, b: World) -> bool {
    &&& a.rooms == b.rooms
    &&& a.exits == b.exits
    &&& a.conditions == b.conditions
    &&& a.sessions == b.sessions
    &&& a.accounts == b.accounts
    &&& a.regions == b.regions
    &&& a.npcs == b.npcs
    &&& a.containment == b.containment
    &&& a.next_entity_id == b.next_entity_id
    &&& a.next_room_id == b.next_room_id
    &&& a.next_region_id == b.next_region_id
}

/// The character that a connection controls, as an index into the
/// entities, or why there is none.
pub open spec fn actor_index(w: World, sender: Identity) -> Result<int, MovementError> {
    match session_index(w.sessions@, sender) {
        None => Err(MovementError::NotLoggedIn),
        Some(si) => {
            let cid = w.sessions@[si].character_id;
            if cid == 0 {
                Err(MovementError::NoCharacterSelected)
            } else {
                match entity_index(w.entities@, cid) {
                    None => Err(MovementError::CharacterNotFound),
                    Some(k) => Ok(k),
                }
            }
        },
    }
}

/// The checks of a move, in order: the actor, its state, its room, the
/// exit and the destination. On success: the actor's index and the
/// destination room id.
pub open spec fn move_plan(w: World, sender: Identity, dir: Seq<char>) -> Result<(int, u64), MovementError> {
    match actor_index(w, sender) {
        Err(e) => Err(e),
        Ok(k) => {
            let p = w.entities@[k];
            if !p.is_alive {
                Err(MovementError::ActorDead)
            } else if entity_gated(w.conditions@, p.id, ConditionType::Comatose) {
                Err(MovementError::Comatose)
            } else {
                match room_index(w.rooms@, p.room_id) {
                    None => Err(MovementError::CurrentRoomNotFound),
                    Some(ri) => match exit_target(w.rooms@[ri], w.exits@, dir) {
                        Err(ExitError::InvalidDirection) => Err(MovementError::InvalidDirection),
                        Err(ExitError::NoExit) => Err(MovementError::NoExit),
                        Ok(t) => match room_index(w.rooms@, t) {
                            None => Err(MovementError::RoomNotFound),
                            Some(ti) => if !w.rooms@[ti].is_active {
                                Err(MovementError::RoomInactive)
                            } else if w.log.next_id == u64::MAX {
                                Err(MovementError::StorageFailure)
                            } else {
                                Ok((k, t))
                            },
                        },
                    },
                }
            }
        },
    }
}

impl World {
    pub fn new() -> (r: World)
        ensures
            r.wf(),
            r.entities@.len() == 0,
            r.rooms@.len() == 0,
            r.exits@.len() == 0,
            r.conditions@.len() == 0,
            r.sessions@.len() == 0,
            r.accounts@.len() == 0,
            r.regions@.len() == 0,
            r.log.events@.len() == 0,
            r.log.next_id == 1,
            r.containment.edges@.len() == 0,
            r.next_entity_id == 1 && r.next_room_id == 1 && r.next_region_id == 1,
    {
        World {
            entities: Vec::new(),
            rooms: Vec::new(),
            exits: Vec::new(),
            conditions: Vec::new(),
            sessions: Vec::new(),
            accounts: Vec::new(),
            regions: Vec::new(),
            npcs: Vec::new(),
            log: EventLog::new(),
            containment: ContainmentForest::new(),
            next_entity_id: 1,
            next_room_id: 1,
            next_region_id: 1,
        }
    }

    /// Every entity keeps its pools in bounds; containment is a forest.
    pub open spec fn wf(&self) -> bool {
        &&& forall|i: int| 0 <= i < self.entities@.len() ==> (#[trigger] self.entities@[i]).wf()
        &&& self.containment.wf()
    }

    pub fn find_entity(&self, id: u64) -> (r: Option<usize>)
        ensures
            opt_index(r, entity_index(self.entities@, id)),
            r matches Some(k) ==> k < self.entities@.len() && self.entities@[k as int].id == id,
    {
        proof {
            lemma_entity_index_in_range(self.entities@, id, 0);
        }
        let mut i: usize = 0;
        while i < self.entities.len()
            invariant
                0 <= i <= self.entities@.len(),
                entity_index(self.entities@, id) == entity_index_from(self.entities@, id, i as int),
            decreases self.entities.len() - i,
        {
            if self.entities[i].id == id {
                return Some(i);
            }
            i = i + 1;
        }
        None
    }

    pub fn find_room(&self, id: u64) -> (r: Option<usize>)
        ensures
            opt_index(r, room_index(self.rooms@, id)),
            r matches Some(k) ==> k < self.rooms@.len() && self.rooms@[k as int].id == id,
    {
        proof {
            lemma_room_index_in_range(self.rooms@, id, 0);
        }
        let mut i: usize = 0;
        while i < self.rooms.len()
            invariant
                0 <= i <= self.rooms@.len(),
                room_index(self.rooms@, id) == room_index_from(self.rooms@, id, i as int),
            decreases self.rooms.len() - i,
        {
            if self.rooms[i].id == id {
                return Some(i);
            }
            i = i + 1;
        }
        None
    }

    pub fn find_session(&self, who: Identity) -> (r: Option<usize>)
        ensures
            opt_index(r, session_index(self.sessions@, who)),
            r matches Some(k) ==> k < self.sessions@.len() && self.sessions@[k as int].identity == who,
    {
        proof {
            lemma_session_index_in_range(self.sessions@, who, 0);
        }
        let mut i: usize = 0;
        while i < self.sessions.len()
            invariant
                0 <= i <= self.sessions@.len(),
                session_index(self.sessions@, who) == session_index_from(self.sessions@, who, i as int),
            decreases self.sessions.len() - i,
        {
            if self.sessions[i].identity == who {
                return Some(i);
            }
            i = i + 1;
        }
        None
    }

    /// Whether the entity carries a condition of the gating type.
    pub fn entity_has_condition(&self, entity_id: u64, gate: ConditionType) -> (r: bool)
        ensures
            r == entity_gated(self.conditions@, entity_id, gate),
    {
        let mut i: usize = 0;
        while i < self.conditions.len()
            invariant
                0 <= i <= self.conditions@.len(),
                forall|j: int|
                    0 <= j < i ==> !((#[trigger] self.conditions@[j]).entity_id == entity_id
                        && self.conditions@[j].condition_type == gate),
            decreases self.conditions.len() - i,
        {
            let c = self.conditions[i];
            if c.entity_id == entity_id && c.condition_type == gate {
                return true;
            }
            i = i + 1;
        }
        false
    }

    /// The index of the character that `sender` controls.
    pub fn actor_of(&self, sender: Identity) -> (r: Result<usize, MovementError>)
        ensures
            r is Ok <==> actor_index(*self, sender) is Ok,
            r is Ok ==> actor_index(*self, sender)->Ok_0 == r->Ok_0 as int && r->Ok_0 < self.entities@.len(),
            r is Err ==> actor_index(*self, sender) == Err::<int, MovementError>(r->Err_0),
    {
        let si = match self.find_session(sender) {
            Some(si) => si,
            None => {
                return Err(MovementError::NotLoggedIn);
            },
        };
        let cid = self.sessions[si].character_id;
        if cid == 0 {
            return Err(MovementError::NoCharacterSelected);
        }
        match self.find_entity(cid) {
            Some(k) => {
                Ok(k)
            },
            None => Err(MovementError::CharacterNotFound),
        }
    }

    /// The room that the sender's character stands in, as an index into
    /// the rooms: what looking around shows.
    pub fn current_room(&self, sender: Identity) -> (r: Result<usize, MovementError>)
        ensures
            match actor_index(*self, sender) {
                Err(e) => r == Err::<usize, MovementError>(e),
                Ok(k) => match room_index(self.rooms@, self.entities@[k].room_id) {
                    None => r == Err::<usize, MovementError>(MovementError::CurrentRoomNotFound),
                    Some(ri) => r == Ok::<usize, MovementError>(ri as usize) && ri < self.rooms@.len(),
                },
            },
    {
        let k = match self.actor_of(sender) {
            Ok(k) => k,
            Err(e) => {
                return Err(e);
            },
        };
        match self.find_room(self.entities[k].room_id) {
            Some(ri) => Ok(ri),
            None => Err(MovementError::CurrentRoomNotFound),
        }
    }

    /// Moves the sender's character through the exit named `direction`.
    /// It must be alive, not comatose, in an existing room with such an
    /// exit, and the destination must exist and be active. On success the
    /// character's room and last action time change and a movement event
    /// is logged; on an error nothing changes.
    pub fn move_player(&mut self, sender: Identity, direction: &str, now: i64) -> (r: Result<MoveOutcome, MovementError>)
        requires
            old(self).wf(),
        ensures
            final(self).wf(),
            match move_plan(*old(self), sender, direction@) {
                Err(e) => r == Err::<MoveOutcome, MovementError>(e) && *final(self) == *old(self),
                Ok((k, to)) => {
                    let p = old(self).entities@[k];
                    &&& r == Ok::<MoveOutcome, MovementError>(
                        MoveOutcome { from_room: p.room_id, to_room: to, event_id: old(self).log.next_id },
                    )
                    &&& final(self).entities@ == old(self).entities@.update(k, moved(p, to, now))
                    &&& final(self).log.next_id == old(self).log.next_id + 1
                    &&& final(self).log.events@.len() == old(self).log.events@.len() + 1
                    &&& final(self).log.events@.drop_last() == old(self).log.events@
                    &&& is_movement_event(final(self).log.events@.last(), p, direction@, to, now, old(self).log.next_id)
                    &&& same_but_entities_and_log(*old(self), *final(self))
                },
            },
    {
        let k = match self.actor_of(sender) {
            Ok(k) => k,
            Err(e) => {
                return Err(e);
            },
        };
        if !self.entities[k].is_alive {
            return Err(MovementError::ActorDead);
        }
        let pid = self.entities[k].id;
        if self.entity_has_condition(pid, ConditionType::Comatose) {
            return Err(MovementError::Comatose);
        }
        let from = self.entities[k].room_id;
        let ri = match self.find_room(from) {
            Some(ri) => ri,
            None => {
                return Err(MovementError::CurrentRoomNotFound);
            },
        };
        let to = match resolve_exit(&self.rooms[ri], &self.exits, direction) {
            Ok(t) => t,
            Err(ExitError::InvalidDirection) => {
                return Err(MovementError::InvalidDirection);
            },
            Err(ExitError::NoExit) => {
                return Err(MovementError::NoExit);
            },
        };
        let ti = match self.find_room(to) {
            Some(ti) => ti,
            None => {
                return Err(MovementError::RoomNotFound);
            },
        };
        if !self.rooms[ti].is_active {
            return Err(MovementError::RoomInactive);
        }
        if self.log.next_id == u64::MAX {
            return Err(MovementError::StorageFailure);
        }
        let event = GameEvent {
            id: 0,
            room_id: from,
            timestamp: now,
            event_type: EventType::Movement,
            payload: EventPayload::Movement {
                entity_id: pid,
                direction: direction.to_string(),
                from_room: from,
                to_room: to,
            },
            primary_actor: pid,
            secondary_actor: None,
            requires_sight: true,
            requires_hearing: false,
            stealth_dc: None,
            expires_at: expiry_after(now),
        };
        let mut p = self.entities[k].duplicate();
        p.room_id = to;
        p.last_action_at = now;
        self.entities.set(k, p);
        let event_id = self.log.append_event(event);
        assert(self.log.events@.drop_last() =~= old(self).log.events@);
        Ok(MoveOutcome { from_room: from, to_room: to, event_id })
    }
}

/// A move that goes through always ends in an existing, active room; any
/// other move is refused, and a refused move changes nothing.
pub proof fn lemma_moves_only_into_active_rooms(w: World, sender: Identity, dir: Seq<char>)
    ensures
        move_plan(w, sender, dir) matches Ok((k, t)) ==> (room_index(w.rooms@, t) matches Some(ti)
            && w.rooms@[ti].is_active),
{
}

/// The attacker and the target of an attack, as indices into the entities.
pub open spec fn attack_parties(w: World, sender: Identity, target_id: u64) -> Result<(int, int), CombatError> {
    match actor_index(w, sender) {
        Err(MovementError::NotLoggedIn) => Err(CombatError::NotLoggedIn),
        Err(MovementError::NoCharacterSelected) => Err(CombatError::NoCharacterSelected),
        Err(_) => Err(CombatError::AttackerNotFound),
        Ok(ai) => match entity_index(w.entities@, target_id) {
            None => Err(CombatError::TargetNotFound),
            Some(di) => Ok((ai, di)),
        },
    }
}

/// The room that an entity stands in, if it exists.
pub open spec fn room_at(w: World, room_id: u64) -> Option<Room> {
    match room_index(w.rooms@, room_id) {
        Some(ri) => Some(w.rooms@[ri]),
        None => None,
    }
}

/// `new` is `old` after the sender attacks `target_id` with the given rolls,
/// and `r` is what the attack returns.
pub open spec fn attack_post(
    old: World,
    new: World,
    sender: Identity,
    target_id: u64,
    a: u64,
    b: u64,
    now: i64,
    r: Result<AttackOutcome, CombatError>,
) -> bool {
    match attack_parties(old, sender, target_id) {
        Err(e) => r == Err::<AttackOutcome, CombatError>(e) && new == old,
        Ok((ai, di)) => {
            let attacker = old.entities@[ai];
            let defender = old.entities@[di];
            match attack_result(attacker, defender, room_at(old, attacker.room_id), a, b, now) {
                Err(e) => r == Err::<AttackOutcome, CombatError>(e) && new == old,
                Ok(res) => if old.log.next_id == u64::MAX {
                    r == Err::<AttackOutcome, CombatError>(CombatError::StorageFailure) && new == old
                } else {
                    &&& r == Ok::<AttackOutcome, CombatError>(res.outcome)
                    &&& new.entities@ == old.entities@.update(ai, res.attacker).update(di, res.defender)
                    &&& new.log.events@ == old.log.events@.push(EventLog::stamped(res.event, old.log.next_id))
                    &&& new.log.next_id == old.log.next_id + 1
                    &&& same_but_entities_and_log(old, new)
                },
            }
        },
    }
}

impl World {
    /// The indices of the attacker and the target.
    fn attack_parties_of(&self, sender: Identity, target_id: u64) -> (r: Result<(usize, usize), CombatError>)
        ensures
            r is Ok <==> attack_parties(*self, sender, target_id) is Ok,
            r is Ok ==> attack_parties(*self, sender, target_id)->Ok_0 == (r->Ok_0.0 as int, r->Ok_0.1 as int)
                && r->Ok_0.0 < self.entities@.len() && r->Ok_0.1 < self.entities@.len(),
            r is Err ==> attack_parties(*self, sender, target_id) == Err::<(int, int), CombatError>(r->Err_0),
    {
        let ai = match self.actor_of(sender) {
            Ok(ai) => ai,
            Err(MovementError::NotLoggedIn) => {
                return Err(CombatError::NotLoggedIn);
            },
            Err(MovementError::NoCharacterSelected) => {
                return Err(CombatError::NoCharacterSelected);
            },
            Err(_) => {
                return Err(CombatError::AttackerNotFound);
            },
        };
        match self.find_entity(target_id) {
            Some(di) => Ok((ai, di)),
            None => Err(CombatError::TargetNotFound),
        }
    }

    /// The sender's character attacks `target_id`, with the attack and
    /// defense rolls given. The rules of `resolve_attack` decide; on success
    /// both combatants are written back and the combat event is logged, and
    /// on an error nothing changes.
    pub fn attack_with_rolls(
        &mut self,
        sender: Identity,
        target_id: u64,
        attack_sample: u64,
        defense_sample: u64,
        now: i64,
    ) -> (r: Result<AttackOutcome, CombatError>)
        requires
            old(self).wf(),
        ensures
            final(self).wf(),
            attack_post(*old(self), *final(self), sender, target_id, attack_sample, defense_sample, now, r),
    {
        let (ai, di) = match self.attack_parties_of(sender, target_id) {
            Ok(p) => p,
            Err(e) => {
                return Err(e);
            },
        };
        let room_id = self.entities[ai].room_id;
        let ri = self.find_room(room_id);
        let room = match ri {
            Some(ri) => Some(&self.rooms[ri]),
            None => None,
        };
        let res = match resolve_attack(&self.entities[ai], &self.entities[di], room, attack_sample, defense_sample, now) {
            Ok(res) => res,
            Err(e) => {
                return Err(e);
            },
        };
        if self.log.next_id == u64::MAX {
            return Err(CombatError::StorageFailure);
        }
        let outcome = res.outcome;
        self.entities.set(ai, res.attacker);
        self.entities.set(di, res.defender);
        self.log.append_event(res.event);
        Ok(outcome)
    }

    /// The sender's character attacks `target_id`: each side's roll is drawn
    /// around its roll base (attack stat with the melee skill at full
    /// weight, defense stat with the melee skill at the defender's
    /// modifier), then the attack is resolved as `attack_with_rolls` does.
    pub fn attack(&mut self, sender: Identity, target_id: u64, now: i64) -> (r: Result<AttackOutcome, CombatError>)
        requires
            old(self).wf(),
        ensures
            final(self).wf(),
            exists|a: u64, b: u64|
                attack_post(*old(self), *final(self), sender, target_id, a, b, now, r) && (attack_parties(
                    *old(self),
                    sender,
                    target_id,
                ) matches Ok((ai, di)) ==> in_envelope(
                    a,
                    roll_base(attack_stat(old(self).entities@[ai]), MELEE_SKILL, ATTACKER_MODIFIER_PCT) as u64,
                ) && in_envelope(
                    b,
                    roll_base(defense_stat(old(self).entities@[di]), MELEE_SKILL, DEFENDER_MODIFIER_PCT) as u64,
                )),
    {
        let (a, b) = match self.attack_parties_of(sender, target_id) {
            Ok((ai, di)) => roll_samples(&self.entities[ai], &self.entities[di], MELEE_SKILL, MELEE_SKILL),
            Err(_) => (0, 0),
        };
        self.attack_with_rolls(sender, target_id, a, b, now)
    }
}

pub proof fn lemma_entity_index_in_range(s: Seq<Entity>, id: u64, i: int)
    ensures
        entity_index_from(s, id, i) matches Some(k) ==> 0 <= i <= k < s.len() && s[k].id == id,
    decreases s.len() - i,
{
    if 0 <= i < s.len() && s[i].id != id {
        lemma_entity_index_in_range(s, id, i + 1);
    }
}

proof fn lemma_session_index_in_range(s: Seq<PlayerSession>, who: Identity, i: int)
    ensures
        session_index_from(s, who, i) matches Some(k) ==> 0 <= i <= k < s.len() && s[k].identity == who,
    decreases s.len() - i,
{
    if 0 <= i < s.len() && s[i].identity != who {
        lemma_session_index_in_range(s, who, i + 1);
    }
}

pub proof fn lemma_room_index_in_range(s: Seq<Room>, id: u64, i: int)
    ensures
        room_index_from(s, id, i) matches Some(k) ==> 0 <= i <= k < s.len() && s[k].id == id,
    decreases s.len() - i,
{
    if 0 <= i < s.len() && s[i].id != id {
        lemma_room_index_in_range(s, id, i + 1);
    }
}

} // verus!
