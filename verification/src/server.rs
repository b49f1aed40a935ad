//! What the server shares between connections, and how a client gets into a room.
pub mod laws;

use crate::ids::RoomId;
use crate::rooms_registry::laws::{
    after, after_all, alive, all_possible, law_live_room_stays, not_drawn_again, registers, Change,
};
use crate::rooms_registry::{is_room, RoomRequest, RoomsRegistry};
use crate::worker::{next_index, position, WorkerPool};
use std::collections::HashMap;
use vstd::prelude::*;

verus! {

/// What the server shares between connections: its workers, its rooms, and the recordings under
/// way, by participant.
pub struct ServerState<K, W, C> {
    pub worker_pool: WorkerPool<K>,
    pub rooms_registry: RoomsRegistry<W>,
    pub recorders: HashMap<u128, C>,
}

/// How a client gets into a room.
pub enum Admission<K, R> {
    /// Into the room that exists.
    Join(R),
    /// Into a room to be created on `worker` under an identifier of its own, see
    /// [`RoomsRegistry::create_room`].
    CreateRoom { worker: K },
    /// Into a room to be created on `worker` under `room_id`, see
    /// [`RoomsRegistry::room_created`].
    CreateRoomWithId { worker: K, room_id: RoomId },
}

/// `admission` is how a client that asks for `asked` gets into a room, `turn` being the worker
/// whose turn it is and `rooms` the rooms that are registered.
pub open spec fn is_admission<K: Clone, W, R, F: Fn(&W) -> Option<R>>(
    turn: K,
    rooms: Map<u128, W>,
    asked: Option<RoomId>,
    upgrade: F,
    admission: Admission<K, R>,
) -> bool {
    match (asked, admission) {
        (None, Admission::CreateRoom { worker }) => cloned::<K>(turn, worker),
        (Some(asked), Admission::Join(room)) => is_room(rooms, asked, upgrade, Some(room)),
        (Some(asked), Admission::CreateRoomWithId { worker, room_id }) => {
            &&& cloned::<K>(turn, worker)
            &&& room_id == asked
            &&& is_room(rooms, asked, upgrade, None::<R>)
        },
        _ => false,
    }
}

impl<K: Clone, W, C> ServerState<K, W, C> {
    /// Decides how a client that asks for `room_id`, or for no room in particular, gets into a
    /// room. Every client takes the next worker's turn, whether the worker is needed or not.
    pub fn ws_handler<R, F: Fn(&W) -> Option<R>>(
        &mut self,
        room_id: Option<RoomId>,
        upgrade: F,
    ) -> (admission: Admission<K, R>)
        requires
            forall|weak: &W| call_requires(upgrade, (weak,)),
        ensures
            old(self).worker_pool.workers().len() > 0,
            is_admission(
                old(self).worker_pool.workers()[position(
                    old(self).worker_pool.index(),
                    old(self).worker_pool.workers().len(),
                )],
                old(self).rooms_registry@,
                room_id,
                upgrade,
                admission,
            ),
            final(self).worker_pool.workers() == old(self).worker_pool.workers(),
            final(self).worker_pool.index() == next_index(old(self).worker_pool.index()),
            final(self).rooms_registry == old(self).rooms_registry,
            final(self).recorders == old(self).recorders,
    {
        let worker = self.worker_pool.next();
        match room_id {
            None => Admission::CreateRoom { worker },
            Some(room_id) => match self.rooms_registry.get_or_create_room(room_id, upgrade) {
                RoomRequest::Found(room) => Admission::Join(room),
                RoomRequest::Create(room_id) => Admission::CreateRoomWithId { worker, room_id },
            },
        }
    }
}

/// Clients that name the same room meet in it: once a room was registered under an identifier,
/// whoever names that identifier joins that room as long as it is alive. Other requests do not
/// change that, nor does late news that earlier rooms of the identifier were closed.
pub proof fn law_clients_that_name_a_room_meet_in_it<K: Clone, W, R, F: Fn(&W) -> Option<R>>(
    turn: K,
    rooms: Map<u128, W>,
    registration: Change<W>,
    room_id: RoomId,
    weak: W,
    later: Seq<Change<W>>,
    upgrade: F,
    admission: Admission<K, R>,
)
    requires
        registers(registration) == Some((room_id, weak)),
        alive(weak, upgrade),
        all_possible(after(rooms, registration), later, upgrade),
        not_drawn_again(later, room_id),
        is_admission(
            turn,
            after_all(after(rooms, registration), later),
            Some(room_id),
            upgrade,
            admission,
        ),
    ensures
        admission matches Admission::Join(room) && call_ensures(
            upgrade,
            (&weak,),
            Some(room),
        ),
{
    law_live_room_stays(
        after(rooms, registration),
        room_id,
        later,
        upgrade,
    );
}

/// A room that nobody is in any more does not come back: whoever names its identifier gets a new
/// room under that identifier.
pub proof fn law_dead_room_is_replaced<K: Clone, W, R, F: Fn(&W) -> Option<R>>(
    turn: K,
    rooms: Map<u128, W>,
    asked: RoomId,
    upgrade: F,
    admission: Admission<K, R>,
)
    requires
        rooms.contains_key(asked.0) ==> forall|outcome: Option<R>|
            call_ensures(upgrade, (&rooms[asked.0],), outcome) ==> outcome is None,
        is_admission(turn, rooms, Some(asked), upgrade, admission),
    ensures
        admission matches Admission::CreateRoomWithId { worker, room_id } && room_id == asked
            && cloned::<K>(turn, worker),
{
}

} // verus!
