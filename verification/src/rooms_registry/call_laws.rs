//! What the registry gives for what is put into it, call by call.
//!
//! Where a law speaks of a call that changes the registry, the registry before the call is
//! `*old(registry)` and the registry after it `*final(registry)`.
use super::laws::{alive, dead};
use super::query_laws::{
    are_living, identifiers_of, law_query_counts_the_rooms_that_a_lookup_finds,
    law_query_finds_exactly_the_live_rooms,
};
use super::{is_query, NewRoom, RoomRequest, RoomsRegistry};
use crate::ids::RoomId;
use vstd::prelude::*;

verus! {

/// Whatever is registered under every other identifier is the same in both.
pub open spec fn same_but_for<W>(before: Map<u128, W>, after: Map<u128, W>, room_id: RoomId) -> bool {
    forall|id: u128|
        id != room_id.0 ==> {
            &&& #[trigger] after.contains_key(id) == before.contains_key(id)
            &&& before.contains_key(id) ==> after[id] == before[id]
        }
}

/// A room that was created under an identifier is handed back, registered under that identifier
/// and nowhere else, and to be watched under it.
pub proof fn law_created_room_is_registered<W, R>(
    registry: &mut RoomsRegistry<W>,
    room_id: RoomId,
    created: R,
    weak: W,
    result: Result<NewRoom<R>, String>,
)
    requires
        call_ensures(
            RoomsRegistry::<W>::room_created::<R>,
            (registry, room_id, Ok((created, weak))),
            result,
        ),
    ensures
        result matches Ok(new_room) && new_room.room == created && new_room.on_close == room_id,
        final(registry)@.contains_key(room_id.0),
        final(registry)@[room_id.0] == weak,
        same_but_for(old(registry)@, final(registry)@, room_id),
{
}

/// A room that was created under an identifier of its own is handed back, registered under that
/// identifier and nowhere else, and to be watched under it.
pub proof fn law_created_room_is_registered_under_its_own_identifier<W, R>(
    registry: &mut RoomsRegistry<W>,
    room_id: RoomId,
    created: R,
    weak: W,
    result: Result<NewRoom<R>, String>,
)
    requires
        call_ensures(
            RoomsRegistry::<W>::create_room::<R>,
            (registry, Ok((room_id, created, weak))),
            result,
        ),
    ensures
        result matches Ok(new_room) && new_room.room == created && new_room.on_close == room_id,
        final(registry)@.contains_key(room_id.0),
        final(registry)@[room_id.0] == weak,
        same_but_for(old(registry)@, final(registry)@, room_id),
{
}

/// Where a room could not be created, the reason is passed on and nothing changes.
pub proof fn law_failed_creation_changes_nothing<W, R>(
    registry: &mut RoomsRegistry<W>,
    room_id: RoomId,
    reason: String,
    result: Result<NewRoom<R>, String>,
    other: &mut RoomsRegistry<W>,
    other_result: Result<NewRoom<R>, String>,
)
    requires
        call_ensures(
            RoomsRegistry::<W>::room_created::<R>,
            (registry, room_id, Err(reason)),
            result,
        ),
        call_ensures(RoomsRegistry::<W>::create_room::<R>, (other, Err(reason)), other_result),
    ensures
        result matches Err(passed_on) && passed_on == reason,
        final(registry)@ == old(registry)@,
        other_result matches Err(passed_on) && passed_on == reason,
        final(other)@ == old(other)@,
{
}

/// A lookup gives what upgrading the handle registered under the identifier gives, and nothing if
/// none is registered. A request finds that room, or asks for a new one under the identifier if
/// there is none.
pub proof fn law_lookup_upgrades_what_is_registered<W, R, F: Fn(&W) -> Option<R>>(
    registry: RoomsRegistry<W>,
    room_id: RoomId,
    upgrade: F,
    room: Option<R>,
    request: RoomRequest<R>,
)
    requires
        call_ensures(RoomsRegistry::<W>::get::<R, F>, (&registry, &room_id, upgrade), room),
        call_ensures(
            RoomsRegistry::<W>::get_or_create_room::<R, F>,
            (&registry, room_id, upgrade),
            request,
        ),
    ensures
        !registry@.contains_key(room_id.0) ==> room is None,
        !registry@.contains_key(room_id.0) ==> (request matches RoomRequest::Create(asked) && asked
            == room_id),
        registry@.contains_key(room_id.0) ==> call_ensures(
            upgrade,
            (&registry@[room_id.0],),
            room,
        ),
        request matches RoomRequest::Create(asked) ==> asked == room_id && (registry@.contains_key(
            room_id.0,
        ) ==> call_ensures(upgrade, (&registry@[room_id.0],), None::<R>)),
        request matches RoomRequest::Found(found) ==> registry@.contains_key(room_id.0)
            && call_ensures(upgrade, (&registry@[room_id.0],), Some(found)),
{
}

/// Whoever asks for a room right after it was registered finds that room while it is alive, and is
/// asked to create another one when it is dead.
pub proof fn law_registered_room_is_given_while_alive<W, R, F: Fn(&W) -> Option<R>>(
    registry: &mut RoomsRegistry<W>,
    room_id: RoomId,
    created: R,
    weak: W,
    result: Result<NewRoom<R>, String>,
    upgrade: F,
    registry_then: RoomsRegistry<W>,
    request: RoomRequest<R>,
)
    requires
        call_ensures(
            RoomsRegistry::<W>::room_created::<R>,
            (registry, room_id, Ok((created, weak))),
            result,
        ),
        registry_then == *final(registry),
        call_ensures(
            RoomsRegistry::<W>::get_or_create_room::<R, F>,
            (&registry_then, room_id, upgrade),
            request,
        ),
    ensures
        alive(weak, upgrade) ==> (request matches RoomRequest::Found(found) && call_ensures(
            upgrade,
            (&weak,),
            Some(found),
        )),
        dead(weak, upgrade) ==> (request matches RoomRequest::Create(asked) && asked == room_id),
{
}

/// The news that a room was closed has what is registered under its identifier forgotten if that
/// is dead, and kept if it is alive; all else stays.
pub proof fn law_close_forgets_the_dead_only<W, R, F: Fn(&W) -> Option<R>>(
    registry: &mut RoomsRegistry<W>,
    room_id: RoomId,
    upgrade: F,
)
    requires
        call_ensures(RoomsRegistry::<W>::room_closed::<R, F>, (registry, room_id, upgrade), ()),
    ensures
        same_but_for(old(registry)@, final(registry)@, room_id),
        old(registry)@.contains_key(room_id.0) && alive(old(registry)@[room_id.0], upgrade)
            ==> final(registry)@ == old(registry)@,
        old(registry)@.contains_key(room_id.0) && dead(old(registry)@[room_id.0], upgrade)
            ==> !final(registry)@.contains_key(room_id.0),
        !old(registry)@.contains_key(room_id.0) ==> !final(registry)@.contains_key(room_id.0),
        final(registry)@.contains_key(room_id.0) ==> final(registry)@[room_id.0] == old(registry)@[room_id.0],
{
}

/// A query gives each living room as often as it is registered, and no other: as many rooms as
/// there are identifiers with a living room.
pub proof fn law_query_gives_the_living_rooms<W, R, F: Fn(&W) -> Option<R>>(
    registry: RoomsRegistry<W>,
    upgrade: F,
    living: Map<u128, R>,
    found: Vec<R>,
)
    requires
        are_living(registry@, upgrade, living),
        call_ensures(RoomsRegistry::<W>::query_rooms::<R, F>, (&registry, upgrade), found),
    ensures
        living.dom().finite(),
        found@.len() == living.dom().len(),
        forall|room: R| #[trigger]
            found@.to_multiset().count(room) == identifiers_of(living, room).len(),
        forall|id: u128| #[trigger] living.contains_key(id) ==> found@.contains(living[id]),
        forall|room: R| #[trigger]
            found@.contains(room) ==> exists|id: u128| #[trigger]
                living.contains_key(id) && living[id] == room,
{
    let (order, outcomes) = choose|order: Seq<u128>, outcomes: Seq<Option<R>>| #[trigger]
        is_query(registry@, upgrade, order, outcomes, found@);
    law_query_counts_the_rooms_that_a_lookup_finds(
        registry@,
        upgrade,
        living,
        order,
        outcomes,
        found@,
    );
    law_query_finds_exactly_the_live_rooms(registry@, upgrade, order, outcomes, found@);
    assert forall|id: u128| #[trigger] living.contains_key(id) implies found@.contains(
        living[id],
    ) by {
        assert(registry@.contains_key(id));
        let outcome = choose|outcome: Option<R>| #[trigger]
            call_ensures(upgrade, (&registry@[id],), outcome) && (outcome matches Some(room)
                ==> found@.contains(room));
        assert(outcome == living.get(id));
    }
    assert forall|room: R| #[trigger] found@.contains(room) implies exists|id: u128| #[trigger]
        living.contains_key(id) && living[id] == room by {
        let id = choose|id: u128|
            registry@.contains_key(id) && #[trigger] call_ensures(
                upgrade,
                (&registry@[id],),
                Some(room),
            );
        assert(living.get(id) == Some(room));
        assert(living.contains_key(id));
    }
}

/// A new registry holds no rooms.
pub proof fn law_new_registry_is_empty<W>(registry: RoomsRegistry<W>)
    requires
        call_ensures(<RoomsRegistry<W> as Default>::default, (), registry),
    ensures
        forall|id: u128| !#[trigger] registry@.contains_key(id),
{
}

} // verus!
