//! Into which room a client gets, call by call.
use super::{Admission, ServerState};
use crate::ids::RoomId;
use crate::rooms_registry::laws::{alive, dead};
use crate::rooms_registry::{NewRoom, RoomsRegistry};
use vstd::prelude::*;

verus! {

/// A client that names no room gets a new one, on the worker whose turn it is. One that names a
/// room gets into the room registered under that identifier if it is alive; if it is dead, or none
/// is registered, one is created under that identifier, on the worker whose turn it is.
pub proof fn law_client_gets_into_the_room_it_names<K: Clone, W, C, R, F: Fn(&W) -> Option<R>>(
    state: &mut ServerState<K, W, C>,
    asked: Option<RoomId>,
    upgrade: F,
    admission: Admission<K, R>,
)
    requires
        call_ensures(
            ServerState::<K, W, C>::ws_handler::<R, F>,
            (state, asked, upgrade),
            admission,
        ),
    ensures
        ({
            let workers = old(state).worker_pool.workers();
            let turn = workers[old(state).worker_pool.index() as int % workers.len() as int];
            let rooms = old(state).rooms_registry@;
            &&& workers.len() > 0
            &&& asked is None ==> (admission matches Admission::CreateRoom { worker } && cloned::<
                K,
            >(turn, worker))
            &&& asked is Some ==> admission !is CreateRoom
            &&& admission matches Admission::Join(room) ==> asked is Some && rooms.contains_key(
                (asked->0).0,
            ) && call_ensures(upgrade, (&rooms[(asked->0).0],), Some(room))
            &&& admission matches Admission::CreateRoomWithId { worker, room_id } ==> asked == Some(
                room_id,
            ) && cloned::<K>(turn, worker) && (rooms.contains_key(room_id.0) ==> call_ensures(
                upgrade,
                (&rooms[room_id.0],),
                None::<R>,
            ))
            &&& asked matches Some(room_id) ==> {
                &&& rooms.contains_key(room_id.0) && alive(rooms[room_id.0], upgrade)
                    ==> admission is Join
                &&& rooms.contains_key(room_id.0) && dead(rooms[room_id.0], upgrade)
                    ==> admission is CreateRoomWithId
                &&& !rooms.contains_key(room_id.0) ==> admission is CreateRoomWithId
            }
        }),
{
}

/// Letting a client in takes one worker's turn and changes nothing else.
pub proof fn law_client_takes_one_turn<K: Clone, W, C, R, F: Fn(&W) -> Option<R>>(
    state: &mut ServerState<K, W, C>,
    asked: Option<RoomId>,
    upgrade: F,
    admission: Admission<K, R>,
)
    requires
        call_ensures(
            ServerState::<K, W, C>::ws_handler::<R, F>,
            (state, asked, upgrade),
            admission,
        ),
    ensures
        final(state).worker_pool.workers() == old(state).worker_pool.workers(),
        old(state).worker_pool.index() < usize::MAX ==> final(state).worker_pool.index() == old(
            state).worker_pool.index() + 1,
        old(state).worker_pool.index() == usize::MAX ==> final(state).worker_pool.index() == 0,
        final(state).rooms_registry@ == old(state).rooms_registry@,
        final(state).recorders@ == old(state).recorders@,
{
}

/// Two clients that name the same room meet in it: the second gets into the room that was
/// registered for the first, while that is alive.
pub proof fn law_second_client_joins_the_first<K: Clone, W, C, R, F: Fn(&W) -> Option<R>>(
    registry: &mut RoomsRegistry<W>,
    room_id: RoomId,
    created: R,
    weak: W,
    result: Result<NewRoom<R>, String>,
    state: &mut ServerState<K, W, C>,
    upgrade: F,
    admission: Admission<K, R>,
)
    requires
        call_ensures(
            RoomsRegistry::<W>::room_created::<R>,
            (registry, room_id, Ok((created, weak))),
            result,
        ),
        old(state).rooms_registry == *final(registry),
        alive(weak, upgrade),
        call_ensures(
            ServerState::<K, W, C>::ws_handler::<R, F>,
            (state, Some(room_id), upgrade),
            admission,
        ),
    ensures
        admission matches Admission::Join(room) && call_ensures(upgrade, (&weak,), Some(room)),
{
}

} // verus!
