//! Rooms and the agents present in them, as the handlers read them: a
//! read-only snapshot, shared by every dispatch that runs at the same time.
use vstd::prelude::*;

use crate::error::{AppError, ErrorKind};
use crate::ids::{AgentId, AgentIdView};
use crate::timing::TimeBound;

verus! {

/// Whether `now` is not before a window that opens at `b`.
pub open spec fn after_opening(b: TimeBound, now: i64) -> bool {
    match b {
        TimeBound::Included(t) => t <= now,
        TimeBound::Excluded(t) => t < now,
        TimeBound::Unbounded => true,
    }
}

/// Whether `now` is not after a window that closes at `b`.
pub open spec fn before_closing(b: TimeBound, now: i64) -> bool {
    match b {
        TimeBound::Included(t) => now <= t,
        TimeBound::Excluded(t) => now < t,
        TimeBound::Unbounded => true,
    }
}

/// Which rooms a lookup accepts, by their time window.
#[derive(Clone, Copy, Debug, PartialEq, Eq, Structural)]
pub enum RoomTimeRequirement {
    /// Any room.
    Any,
    /// A room whose window has not closed yet.
    NotClosed,
    /// A room whose window holds the present moment.
    Open,
}

/// A room; its time window is in milliseconds of unix time.
pub struct Room {
    pub id: u128,
    pub audience: String,
    pub opened_at: TimeBound,
    pub closed_at: TimeBound,
}

impl Room {
    /// Whether the room meets `req` at the moment `now`.
    pub open spec fn meets(&self, req: RoomTimeRequirement, now: i64) -> bool {
        match req {
            RoomTimeRequirement::Any => true,
            RoomTimeRequirement::NotClosed => before_closing(self.closed_at, now),
            RoomTimeRequirement::Open => after_opening(self.opened_at, now) && before_closing(
                self.closed_at,
                now,
            ),
        }
    }

    pub fn new(id: u128, audience: &str, opened_at: TimeBound, closed_at: TimeBound) -> (r: Room)
        ensures
            r.id == id,
            r.audience@ == audience@,
            r.opened_at == opened_at,
            r.closed_at == closed_at,
    {
        Room { id, audience: audience.to_owned(), opened_at, closed_at }
    }

    pub fn id(&self) -> (r: u128)
        ensures
            r == self.id,
    {
        self.id
    }

    /// Whether the room meets `req` at the moment `now`.
    pub fn check_time(&self, req: RoomTimeRequirement, now: i64) -> (r: bool)
        ensures
            r == self.meets(req, now),
    {
        let opened = match self.opened_at {
            TimeBound::Included(t) => t <= now,
            TimeBound::Excluded(t) => t < now,
            TimeBound::Unbounded => true,
        };
        let not_closed = match self.closed_at {
            TimeBound::Included(t) => now <= t,
            TimeBound::Excluded(t) => now < t,
            TimeBound::Unbounded => true,
        };
        match req {
            RoomTimeRequirement::Any => true,
            RoomTimeRequirement::NotClosed => not_closed,
            RoomTimeRequirement::Open => opened && not_closed,
        }
    }
}

/// A record that an agent has entered a room.
pub struct Presence {
    pub room_id: u128,
    pub agent_id: AgentId,
}

/// The rooms and presence records that handlers consult. Room ids are unique.
pub struct Directory {
    rooms: Vec<Room>,
    presences: Vec<Presence>,
}

impl Directory {
    pub closed spec fn rooms(&self) -> Seq<Room> {
        self.rooms@
    }

    pub closed spec fn presences(&self) -> Seq<Presence> {
        self.presences@
    }

    pub open spec fn wf(&self) -> bool {
        forall|i: int, j: int|
            0 <= i < j < self.rooms().len() ==> #[trigger] self.rooms()[i].id
                != #[trigger] self.rooms()[j].id
    }

    /// Whether a room with this id is known.
    pub open spec fn has_room(&self, id: u128) -> bool {
        exists|i: int| 0 <= i < self.rooms().len() && #[trigger] self.rooms()[i].id == id
    }

    /// The room with this id (meaningful where `has_room` holds).
    pub open spec fn room(&self, id: u128) -> Room {
        let i = choose|i: int| 0 <= i < self.rooms().len() && #[trigger] self.rooms()[i].id == id;
        self.rooms()[i]
    }

    /// Whether a room with this id is known and meets `req` at `now`.
    pub open spec fn finds_room(&self, id: u128, req: RoomTimeRequirement, now: i64) -> bool {
        self.has_room(id) && self.room(id).meets(req, now)
    }

    /// Whether the agent has a presence record in the room.
    pub open spec fn is_present(&self, room_id: u128, agent: AgentIdView) -> bool {
        exists|i: int|
            0 <= i < self.presences().len() && #[trigger] self.presences()[i].room_id == room_id
                && self.presences()[i].agent_id@ == agent
    }

    pub fn new() -> (r: Directory)
        ensures
            r.wf(),
            r.rooms().len() == 0,
            r.presences().len() == 0,
    {
        Directory { rooms: Vec::new(), presences: Vec::new() }
    }

    /// Adds a room, unless one with its id is already known.
    pub fn add_room(&mut self, room: Room) -> (r: bool)
        requires
            old(self).wf(),
        ensures
            final(self).wf(),
            r == !old(self).has_room(room.id),
            r ==> final(self).rooms() == old(self).rooms().push(room),
            !r ==> final(self).rooms() == old(self).rooms(),
            final(self).presences() == old(self).presences(),
    {
        let mut i: usize = 0;
        while i < self.rooms.len()
            invariant
                self.wf(),
                self.rooms@ == old(self).rooms@,
                self.presences@ == old(self).presences@,
                0 <= i <= self.rooms@.len(),
                forall|k: int| 0 <= k < i ==> #[trigger] self.rooms@[k].id != room.id,
            decreases self.rooms@.len() - i,
        {
            if self.rooms[i].id == room.id {
                return false;
            }
            i = i + 1;
        }
        self.rooms.push(room);
        true
    }

    /// Records that `agent_id` has entered the room `room_id`.
    pub fn add_presence(&mut self, room_id: u128, agent_id: AgentId)
        requires
            old(self).wf(),
        ensures
            final(self).wf(),
            final(self).rooms() == old(self).rooms(),
            final(self).presences() == old(self).presences().push(
                Presence { room_id, agent_id },
            ),
    {
        self.presences.push(Presence { room_id, agent_id });
    }

    /// Looks a room up by id and checks its time window.
    ///
    /// A room that is missing, or whose window does not meet `req` at `now`,
    /// is reported as not found.
    pub fn find_room_by_id(&self, id: u128, req: RoomTimeRequirement, now: i64) -> (r: Result<
        &Room,
        AppError,
    >)
        requires
            self.wf(),
        ensures
            r is Ok <==> self.finds_room(id, req, now),
            r matches Ok(room) ==> *room == self.room(id),
            r matches Err(e) ==> e.kind == ErrorKind::RoomNotFound,
    {
        let mut i: usize = 0;
        while i < self.rooms.len()
            invariant
                self.wf(),
                0 <= i <= self.rooms@.len(),
                forall|k: int| 0 <= k < i ==> #[trigger] self.rooms@[k].id != id,
            decreases self.rooms@.len() - i,
        {
            let room = &self.rooms[i];
            if room.id == id {
                assert(self.rooms()[i as int].id == id);
                let ghost j = choose|j: int|
                    0 <= j < self.rooms().len() && #[trigger] self.rooms()[j].id == id;
                assert(j == i);
                if room.check_time(req, now) {
                    return Ok(room);
                } else {
                    return Err(AppError::new(ErrorKind::RoomNotFound));
                }
            }
            i = i + 1;
        }
        Err(AppError::new(ErrorKind::RoomNotFound))
    }

    /// Checks that the agent has entered the room.
    pub fn check_room_presence(&self, room: &Room, agent_id: &AgentId) -> (r: Result<(), AppError>)
        ensures
            r is Ok <==> self.is_present(room.id, agent_id@),
            r matches Err(e) ==> e.kind == ErrorKind::AgentNotEnteredTheRoom,
    {
        let mut i: usize = 0;
        while i < self.presences.len()
            invariant
                0 <= i <= self.presences@.len(),
                forall|k: int|
                    0 <= k < i ==> !(#[trigger] self.presences@[k].room_id == room.id
                        && self.presences@[k].agent_id@ == agent_id@),
            decreases self.presences@.len() - i,
        {
            let p = &self.presences[i];
            if p.room_id == room.id && p.agent_id.same_as(agent_id) {
                assert(self.presences()[i as int].room_id == room.id);
                return Ok(());
            }
            i = i + 1;
        }
        Err(AppError::new(ErrorKind::AgentNotEnteredTheRoom))
    }
}

} // verus!
