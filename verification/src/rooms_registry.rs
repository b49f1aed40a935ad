//! The rooms that exist, by identifier.
pub mod call_laws;
pub mod laws;
pub mod query_laws;

use crate::ids::RoomId;
use std::collections::HashMap;
use vstd::prelude::*;

verus! {

/// The rooms that exist.
///
/// The registry holds weak handles `W` only, so that it does not keep a room alive after its
/// last participant has left. Whether a room is still alive shows when its weak handle is
/// upgraded; the functions that need to know take the upgrade as an argument.
pub struct RoomsRegistry<W> {
    rooms: HashMap<u128, W>,
}

impl<W> View for RoomsRegistry<W> {
    type V = Map<u128, W>;

    closed spec fn view(&self) -> Map<u128, W> {
        self.rooms@
    }
}

impl<W> Default for RoomsRegistry<W> {
    fn default() -> (registry: Self)
        ensures
            registry@ == Map::<u128, W>::empty(),
    {
        RoomsRegistry { rooms: HashMap::new() }
    }
}

/// What comes of a request for a room under a given identifier.
pub enum RoomRequest<R> {
    /// The room exists.
    Found(R),
    /// The room has to be created under this identifier; see [`RoomsRegistry::room_created`].
    Create(RoomId),
}

/// A room that was registered.
///
/// One callback has to be attached to `room`, which calls [`RoomsRegistry::room_closed`] with
/// `on_close` once the room is closed. A room that was found needs none: it has had its callback
/// since it was registered.
pub struct NewRoom<R> {
    pub room: R,
    pub on_close: RoomId,
}

/// `room` is what upgrading the handle that `rooms` holds for `room_id` gives, if it holds one.
pub open spec fn is_room<W, R, F: Fn(&W) -> Option<R>>(
    rooms: Map<u128, W>,
    room_id: RoomId,
    upgrade: F,
    room: Option<R>,
) -> bool {
    if rooms.contains_key(room_id.0) {
        call_ensures(upgrade, (&rooms[room_id.0],), room)
    } else {
        room is None
    }
}

/// The values that are there, in order.
pub open spec fn present<R>(outcomes: Seq<Option<R>>) -> Seq<R>
    decreases outcomes.len(),
{
    if outcomes.len() == 0 {
        Seq::empty()
    } else {
        let before = present(outcomes.drop_last());
        match outcomes.last() {
            Some(room) => before.push(room),
            None => before,
        }
    }
}

/// `found` is what comes of upgrading each handle in `rooms` once, in the order of `order`, with
/// these `outcomes`, and leaving out those that are gone.
pub open spec fn is_query<W, R, F: Fn(&W) -> Option<R>>(
    rooms: Map<u128, W>,
    upgrade: F,
    order: Seq<u128>,
    outcomes: Seq<Option<R>>,
    found: Seq<R>,
) -> bool {
    &&& order.no_duplicates()
    &&& order.to_set() == rooms.dom()
    &&& outcomes.len() == order.len()
    &&& forall|i: int|
        0 <= i < order.len() ==> call_ensures(
            upgrade,
            (&rooms[order[i]],),
            #[trigger] outcomes[i],
        )
    &&& found == present(outcomes)
}

impl<W> RoomsRegistry<W> {
    /// Asks for the room under `room_id`: the one that exists, if it is still alive, or else a
    /// new one.
    pub fn get_or_create_room<R, F: Fn(&W) -> Option<R>>(
        &self,
        room_id: RoomId,
        upgrade: F,
    ) -> (request: RoomRequest<R>)
        requires
            forall|weak: &W| call_requires(upgrade, (weak,)),
        ensures
            match request {
                RoomRequest::Found(room) => is_room(self@, room_id, upgrade, Some(room)),
                RoomRequest::Create(id) => id == room_id && is_room(
                    self@,
                    room_id,
                    upgrade,
                    None::<R>,
                ),
            },
    {
        match self.get(&room_id, upgrade) {
            Some(room) => RoomRequest::Found(room),
            None => RoomRequest::Create(room_id),
        }
    }

    /// Registers the room that was created under `room_id`, and asks to be told when it closes;
    /// where creating it failed, nothing changes.
    pub fn room_created<R>(&mut self, room_id: RoomId, created: Result<(R, W), String>) -> (room:
        Result<NewRoom<R>, String>)
        ensures
            match created {
                Ok((created, weak)) => {
                    &&& room == Ok::<NewRoom<R>, String>(
                        NewRoom { room: created, on_close: room_id },
                    )
                    &&& final(self)@ == old(self)@.insert(room_id.0, weak)
                },
                Err(error) => room == Err::<NewRoom<R>, String>(error) && final(self)@ == old(
                    self,
                )@,
            },
    {
        match created {
            Ok((room, weak)) => {
                self.rooms.insert(room_id.0, weak);
                Ok(NewRoom { room, on_close: room_id })
            },
            Err(error) => Err(error),
        }
    }

    /// The room under `room_id`, if there is one and it is still alive.
    pub fn get<R, F: Fn(&W) -> Option<R>>(&self, room_id: &RoomId, upgrade: F) -> (room: Option<R>)
        requires
            forall|weak: &W| call_requires(upgrade, (weak,)),
        ensures
            is_room(self@, *room_id, upgrade, room),
    {
        match self.rooms.get(&room_id.0) {
            Some(weak) => upgrade(weak),
            None => None,
        }
    }

    /// Registers a room that was created under an identifier of its own, and asks to be told when
    /// it closes; where creating it failed, nothing changes.
    pub fn create_room<R>(&mut self, created: Result<(RoomId, R, W), String>) -> (room: Result<
        NewRoom<R>,
        String,
    >)
        ensures
            match created {
                Ok((room_id, created, weak)) => {
                    &&& room == Ok::<NewRoom<R>, String>(
                        NewRoom { room: created, on_close: room_id },
                    )
                    &&& final(self)@ == old(self)@.insert(room_id.0, weak)
                },
                Err(error) => room == Err::<NewRoom<R>, String>(error) && final(self)@ == old(
                    self,
                )@,
            },
    {
        match created {
            Ok((room_id, room, weak)) => self.room_created(room_id, Ok((room, weak))),
            Err(error) => Err(error),
        }
    }

    /// Forgets the room under `room_id` after a room of that identifier was closed.
    ///
    /// The news may come late, when another room has taken the identifier over: a room that is
    /// still alive stays.
    pub fn room_closed<R, F: Fn(&W) -> Option<R>>(&mut self, room_id: RoomId, upgrade: F)
        requires
            forall|weak: &W| call_requires(upgrade, (weak,)),
        ensures
            exists|room: Option<R>| #[trigger]
                is_room(old(self)@, room_id, upgrade, room) && final(self)@ == if room is None {
                    old(self)@.remove(room_id.0)
                } else {
                    old(self)@
                },
    {
        let room = self.get(&room_id, upgrade);
        if room.is_none() {
            self.rooms.remove(&room_id.0);
        }
        proof {
            assert(is_room(old(self)@, room_id, upgrade, room));
        }
    }

    /// All rooms that are still alive, each once, in no particular order.
    pub fn query_rooms<R, F: Fn(&W) -> Option<R>>(&self, upgrade: F) -> (found: Vec<R>)
        requires
            forall|weak: &W| call_requires(upgrade, (weak,)),
        ensures
            exists|order: Seq<u128>, outcomes: Seq<Option<R>>| #[trigger]
                is_query(self@, upgrade, order, outcomes, found@),
    {
        let mut found: Vec<R> = Vec::new();
        let ghost mut outcomes: Seq<Option<R>> = Seq::empty();
        let ghost mut order: Seq<u128> = Seq::empty();
        for entry in iter: self.rooms.iter()
            invariant
                forall|weak: &W| call_requires(upgrade, (weak,)),
                iter.seq().no_duplicates(),
                outcomes.len() == iter.index(),
                order.len() == iter.index(),
                forall|i: int| 0 <= i < iter.index() ==> #[trigger] order[i] == *iter.seq()[i].0,
                forall|i: int|
                    0 <= i < iter.seq().len() ==> self@.contains_key(*(#[trigger] iter.seq()[i]).0)
                        && self@[*iter.seq()[i].0] == *iter.seq()[i].1,
                order.no_duplicates(),
                forall|key: u128| #[trigger]
                    self@.contains_key(key) ==> order.contains(key) || exists|i: int|
                        iter.index() <= i < iter.seq().len() && *(#[trigger] iter.seq()[i]).0
                            == key,
                forall|i: int|
                    0 <= i < iter.index() ==> call_ensures(
                        upgrade,
                        (&self@[order[i]],),
                        #[trigger] outcomes[i],
                    ),
                found@ == present(outcomes),
        {
            let outcome = upgrade(entry.1);
            proof {
                let before = outcomes;
                let index = iter.index();
                let known = order;
                order = order.push(*entry.0);
                assert(order.no_duplicates()) by {
                    assert forall|i: int| 0 <= i < index implies known[i] != *entry.0 by {
                        assert(iter.seq()[i] != iter.seq()[index]);
                    }
                }
                assert forall|key: u128| #[trigger] self@.contains_key(key) implies order.contains(
                    key,
                ) || exists|i: int|
                    index + 1 <= i < iter.seq().len() && *(#[trigger] iter.seq()[i]).0 == key by {
                    if known.contains(key) {
                        let i = choose|i: int| 0 <= i < known.len() && known[i] == key;
                        assert(order[i] == key);
                    } else if key == *entry.0 {
                        assert(order[index] == key);
                    }
                }
                outcomes = outcomes.push(outcome);
                assert(outcomes.drop_last() =~= before);
            }
            if let Some(room) = outcome {
                found.push(room);
            }
        }
        proof {
            assert(order.to_set() =~= self@.dom());
            assert(is_query(self@, upgrade, order, outcomes, found@));
        }
        found
    }
}

} // verus!
