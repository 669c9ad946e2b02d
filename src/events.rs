//! The event log: immutable, time-expiring records of world occurrences,
//! tagged with what an observer needs in order to perceive them.
use vstd::prelude::*;

verus! {

/// How long an event stays in the log, in microseconds of world time.
pub const EVENT_TTL_MICROS: i64 = 60_000_000;

#[derive(Clone, Copy, Debug, PartialEq, Eq, Structural)]
pub enum EventType {
    Combat,
    Movement,
    Speech,
    Emote,
    ItemInteraction,
    ConditionChange,
    Environmental,
    System,
    Economy,
}

/// The typed details of an event.
#[derive(Clone, Debug)]
pub enum EventPayload {
    Combat { attacker: u64, target: u64, damage: i32, hit: bool, critical: bool },
    Movement { entity_id: u64, direction: String, from_room: u64, to_room: u64 },
    Text { text: String },
}

#[derive(Clone, Debug)]
pub struct GameEvent {
    pub id: u64,
    pub room_id: u64,
    pub timestamp: i64,
    pub event_type: EventType,
    pub payload: EventPayload,
    pub primary_actor: u64,
    pub secondary_actor: Option<u64>,
    pub requires_sight: bool,
    pub requires_hearing: bool,
    pub stealth_dc: Option<u8>,
    pub expires_at: i64,
}

impl EventPayload {
    pub fn duplicate(&self) -> (r: EventPayload)
        ensures
            r == *self,
    {
        match self {
            EventPayload::Combat { attacker, target, damage, hit, critical } => EventPayload::Combat {
                attacker: *attacker,
                target: *target,
                damage: *damage,
                hit: *hit,
                critical: *critical,
            },
            EventPayload::Movement { entity_id, direction, from_room, to_room } => EventPayload::Movement {
                entity_id: *entity_id,
                direction: direction.clone(),
                from_room: *from_room,
                to_room: *to_room,
            },
            EventPayload::Text { text } => EventPayload::Text { text: text.clone() },
        }
    }
}

impl GameEvent {
    pub fn duplicate(&self) -> (r: GameEvent)
        ensures
            r == *self,
    {
        GameEvent {
            id: self.id,
            room_id: self.room_id,
            timestamp: self.timestamp,
            event_type: self.event_type,
            payload: self.payload.duplicate(),
            primary_actor: self.primary_actor,
            secondary_actor: self.secondary_actor,
            requires_sight: self.requires_sight,
            requires_hearing: self.requires_hearing,
            stealth_dc: self.stealth_dc,
            expires_at: self.expires_at,
        }
    }
}

/// The moment an event stamped at `timestamp` expires (the end of time
/// when the sum does not fit).
pub open spec fn expiry_of(timestamp: i64) -> i64 {
    if timestamp <= i64::MAX - EVENT_TTL_MICROS {
        (timestamp + EVENT_TTL_MICROS) as i64
    } else {
        i64::MAX
    }
}

pub fn expiry_after(timestamp: i64) -> (r: i64)
    ensures
        r == expiry_of(timestamp),
{
    if timestamp <= i64::MAX - EVENT_TTL_MICROS {
        timestamp + EVENT_TTL_MICROS
    } else {
        i64::MAX
    }
}

/// An event is kept at `now` while it has not expired.
pub open spec fn live_at(now: i64) -> spec_fn(GameEvent) -> bool {
    |e: GameEvent| e.expires_at > now
}

/// The append-only log, with the id that the next event will get.
pub struct EventLog {
    pub events: Vec<GameEvent>,
    pub next_id: u64,
}

impl EventLog {
    pub fn new() -> (r: EventLog)
        ensures
            r.events@.len() == 0,
            r.next_id == 1,
    {
        EventLog { events: Vec::new(), next_id: 1 }
    }

    /// The event as the log stores it: with the given id and its expiry set
    /// from its timestamp.
    pub open spec fn stamped(event: GameEvent, id: u64) -> GameEvent {
        GameEvent { id, expires_at: expiry_of(event.timestamp), ..event }
    }

    /// Appends an event, assigning it the next id and its expiry; returns
    /// the id.
    pub fn append_event(&mut self, event: GameEvent) -> (r: u64)
        requires
            old(self).next_id < u64::MAX,
        ensures
            r == old(self).next_id,
            final(self).next_id == old(self).next_id + 1,
            final(self).events@ == old(self).events@.push(EventLog::stamped(event, r)),
    {
        let id = self.next_id;
        let mut e = event;
        e.id = id;
        e.expires_at = expiry_after(e.timestamp);
        self.events.push(e);
        self.next_id = id + 1;
        id
    }

    /// Removes every event whose expiry is at or before `now`, keeping the
    /// order of the others.
    pub fn purge_expired(&mut self, now: i64)
        ensures
            final(self).events@ == old(self).events@.filter(live_at(now)),
            final(self).next_id == old(self).next_id,
    {
        let mut kept: Vec<GameEvent> = Vec::new();
        let mut i: usize = 0;
        while i < self.events.len()
            invariant
                0 <= i <= self.events@.len(),
                kept@ == self.events@.subrange(0, i as int).filter(live_at(now)),
            decreases self.events.len() - i,
        {
            let e = self.events[i].duplicate();
            proof {
                let s = self.events@.subrange(0, i as int + 1);
                assert(s.drop_last() =~= self.events@.subrange(0, i as int));
                assert(s.last() == self.events@[i as int]);
                reveal(Seq::filter);
            }
            if e.expires_at > now {
                kept.push(e);
            }
            i = i + 1;
        }
        assert(self.events@.subrange(0, self.events@.len() as int) =~= self.events@);
        self.events = kept;
    }
}

/// Purging keeps exactly the events that expire after `now`, and a second
/// purge at the same moment changes nothing.
pub proof fn lemma_purge_exact_and_idempotent(events: Seq<GameEvent>, now: i64)
    ensures
        forall|e: GameEvent| events.filter(live_at(now)).contains(e) <==> (events.contains(e) && e.expires_at > now),
        events.filter(live_at(now)).filter(live_at(now)) == events.filter(live_at(now)),
    decreases events.len(),
{
    broadcast use Seq::lemma_filter_contains_rev, Seq::lemma_filter_contains;
    assert forall|e: GameEvent| events.filter(live_at(now)).contains(e) <==> (events.contains(e) && e.expires_at > now) by {
        if events.contains(e) && e.expires_at > now {
            let i = choose|i: int| 0 <= i < events.len() && events[i] == e;
            events.lemma_filter_contains(live_at(now), i);
        }
        if events.filter(live_at(now)).contains(e) {
            events.lemma_filter_contains_rev(live_at(now), e);
            let i = choose|i: int| 0 <= i < events.filter(live_at(now)).len() && events.filter(live_at(now))[i] == e;
        }
    }
    lemma_filter_twice(events, live_at(now));
}

proof fn lemma_filter_twice(s: Seq<GameEvent>, p: spec_fn(GameEvent) -> bool)
    ensures
        s.filter(p).filter(p) == s.filter(p),
    decreases s.len(),
{
    reveal(Seq::filter);
    if s.len() > 0 {
        lemma_filter_twice(s.drop_last(), p);
        let f = s.drop_last().filter(p);
        if p(s.last()) {
            assert(f.push(s.last()).drop_last() =~= f);
            assert(f.push(s.last()).filter(p) == f.filter(p).push(s.last()));
        }
    }
}

/// What an observer brings to the visibility check: where it stands, its
/// senses, and its perception roll (thousandths) against a stealth DC.
#[derive(Clone, Copy, Debug)]
pub struct Observer {
    pub room_id: u64,
    pub can_see: bool,
    pub can_hear: bool,
    pub perception_roll: u64,
}

pub open spec fn observable(event: GameEvent, observer: Observer) -> bool {
    &&& observer.room_id == event.room_id
    &&& event.requires_sight ==> observer.can_see
    &&& event.requires_hearing ==> observer.can_hear
    &&& match event.stealth_dc {
        None => true,
        Some(dc) => observer.perception_roll >= (dc as int) * 1000,
    }
}

/// An observer perceives an event when it shares the event's room, has each
/// sense the event requires, and its perception roll clears any stealth DC.
pub fn is_observable(event: &GameEvent, observer: &Observer) -> (r: bool)
    ensures
        r == observable(*event, *observer),
{
    if observer.room_id != event.room_id {
        return false;
    }
    if event.requires_sight && !observer.can_see {
        return false;
    }
    if event.requires_hearing && !observer.can_hear {
        return false;
    }
    match event.stealth_dc {
        None => true,
        Some(dc) => observer.perception_roll >= (dc as u64) * 1000,
    }
}

} // verus!
