//! What holds of the registry over many calls.
use super::is_room;
use crate::ids::RoomId;
use vstd::prelude::*;

verus! {

/// A change of the registry.
pub enum Change<W> {
    /// A room was created under an identifier of its own and registered.
    Created(RoomId, W),
    /// Somebody asked for a room under an identifier, there was none alive, and one was created
    /// and registered.
    CreatedOnRequest(RoomId, W),
    /// The news came that a room of an identifier was closed; `gone` says whether the room
    /// registered under it was found dead.
    Closed { room_id: RoomId, gone: bool },
}

/// `change` can happen to `rooms`.
pub open spec fn possible<W, R, F: Fn(&W) -> Option<R>>(
    rooms: Map<u128, W>,
    change: Change<W>,
    upgrade: F,
) -> bool {
    match change {
        Change::Created(_, _) => true,
        Change::CreatedOnRequest(room_id, _) => is_room(rooms, room_id, upgrade, None::<R>),
        Change::Closed { room_id, gone } => exists|room: Option<R>| #[trigger]
            is_room(rooms, room_id, upgrade, room) && (gone <==> room is None),
    }
}

/// The registry after one change.
pub open spec fn after<W>(rooms: Map<u128, W>, change: Change<W>) -> Map<u128, W> {
    match change {
        Change::Created(room_id, weak) => rooms.insert(room_id.0, weak),
        Change::CreatedOnRequest(room_id, weak) => rooms.insert(room_id.0, weak),
        Change::Closed { room_id, gone } => if gone {
            rooms.remove(room_id.0)
        } else {
            rooms
        },
    }
}

/// The registry after all of `changes`, in order.
pub open spec fn after_all<W>(rooms: Map<u128, W>, changes: Seq<Change<W>>) -> Map<u128, W>
    decreases changes.len(),
{
    if changes.len() == 0 {
        rooms
    } else {
        after(after_all(rooms, changes.drop_last()), changes.last())
    }
}

/// All of `changes` can happen to `rooms`, in order.
pub open spec fn all_possible<W, R, F: Fn(&W) -> Option<R>>(
    rooms: Map<u128, W>,
    changes: Seq<Change<W>>,
    upgrade: F,
) -> bool
    decreases changes.len(),
{
    changes.len() == 0 || {
        &&& all_possible(rooms, changes.drop_last(), upgrade)
        &&& possible(after_all(rooms, changes.drop_last()), changes.last(), upgrade)
    }
}

/// The room that a change registers, with its identifier.
pub open spec fn registers<W>(change: Change<W>) -> Option<(RoomId, W)> {
    match change {
        Change::Created(room_id, weak) => Some((room_id, weak)),
        Change::CreatedOnRequest(room_id, weak) => Some((room_id, weak)),
        Change::Closed { .. } => None,
    }
}

/// The identifier under which a change registers or forgets a room, if it does either.
pub open spec fn subject<W>(change: Change<W>) -> Option<RoomId> {
    match change {
        Change::Created(room_id, _) => Some(room_id),
        Change::CreatedOnRequest(room_id, _) => Some(room_id),
        Change::Closed { room_id, gone } => if gone {
            Some(room_id)
        } else {
            None
        },
    }
}

/// The last change that registers or forgets a room under `room_id`.
pub open spec fn last_change<W>(changes: Seq<Change<W>>, room_id: RoomId) -> Option<Change<W>>
    decreases changes.len(),
{
    if changes.len() == 0 {
        None
    } else if subject(changes.last()) == Some(room_id) {
        Some(changes.last())
    } else {
        last_change(changes.drop_last(), room_id)
    }
}

/// No room that was created under an identifier of its own got `room_id`.
pub open spec fn not_drawn_again<W>(changes: Seq<Change<W>>, room_id: RoomId) -> bool {
    forall|i: int|
        0 <= i < changes.len() ==> !((#[trigger] changes[i]) matches Change::Created(id, _) && id
            == room_id)
}

/// The room of `weak` is alive: whenever its handle is upgraded, the room is there.
pub open spec fn alive<W, R, F: Fn(&W) -> Option<R>>(weak: W, upgrade: F) -> bool {
    forall|outcome: Option<R>| #[trigger] call_ensures(upgrade, (&weak,), outcome) ==> outcome is Some
}

/// The room of `weak` is dead: whenever its handle is upgraded, the room is gone.
pub open spec fn dead<W, R, F: Fn(&W) -> Option<R>>(weak: W, upgrade: F) -> bool {
    forall|outcome: Option<R>| #[trigger] call_ensures(upgrade, (&weak,), outcome) ==> outcome is None
}

/// What is registered under an identifier depends on nothing but the last change that registered
/// or forgot a room under it.
pub proof fn law_last_change_counts<W>(
    rooms: Map<u128, W>,
    changes: Seq<Change<W>>,
    room_id: RoomId,
)
    ensures
        match last_change(changes, room_id) {
            Some(change) => match registers(change) {
                Some((_, weak)) => after_all(rooms, changes).contains_key(room_id.0) && after_all(
                    rooms,
                    changes,
                )[room_id.0] == weak,
                None => !after_all(rooms, changes).contains_key(room_id.0),
            },
            None => {
                &&& after_all(rooms, changes).contains_key(room_id.0) == rooms.contains_key(
                    room_id.0,
                )
                &&& rooms.contains_key(room_id.0) ==> after_all(rooms, changes)[room_id.0]
                    == rooms[room_id.0]
            },
        },
    decreases changes.len(),
{
    if changes.len() > 0 {
        law_last_change_counts(rooms, changes.drop_last(), room_id);
    }
}

/// A change leaves what is found under every other identifier as it was.
pub proof fn law_other_rooms_are_left_alone<W, R, F: Fn(&W) -> Option<R>>(
    rooms: Map<u128, W>,
    change: Change<W>,
    room_id: RoomId,
    upgrade: F,
    room: Option<R>,
)
    requires
        subject(change) != Some(room_id),
    ensures
        is_room(after(rooms, change), room_id, upgrade, room) == is_room(
            rooms,
            room_id,
            upgrade,
            room,
        ),
{
}

/// A room stays registered as long as it is alive, whoever asks for it and whatever news of
/// closed rooms comes in, of earlier rooms of its identifier too. (A room that is created under
/// an identifier of its own could take its place, if it drew the same one.)
pub proof fn law_live_room_stays<W, R, F: Fn(&W) -> Option<R>>(
    rooms: Map<u128, W>,
    room_id: RoomId,
    changes: Seq<Change<W>>,
    upgrade: F,
)
    requires
        rooms.contains_key(room_id.0),
        alive(rooms[room_id.0], upgrade),
        all_possible(rooms, changes, upgrade),
        not_drawn_again(changes, room_id),
    ensures
        after_all(rooms, changes).contains_key(room_id.0),
        after_all(rooms, changes)[room_id.0] == rooms[room_id.0],
    decreases changes.len(),
{
    if changes.len() > 0 {
        let earlier = changes.drop_last();
        assert forall|i: int| 0 <= i < earlier.len() implies !((
        #[trigger] earlier[i]) matches Change::Created(id, _) && id == room_id) by {
            assert(earlier[i] == changes[i]);
        }
        law_live_room_stays(rooms, room_id, earlier, upgrade);
        assert(changes.last() == changes[changes.len() - 1]);
    }
}

/// Whoever asks for a room after it was registered gets that room as long as it is alive,
/// whatever has changed meanwhile: see [`law_live_room_stays`].
pub proof fn law_registered_room_is_found<W, R, F: Fn(&W) -> Option<R>>(
    rooms: Map<u128, W>,
    registration: Change<W>,
    room_id: RoomId,
    weak: W,
    later: Seq<Change<W>>,
    upgrade: F,
    room: Option<R>,
)
    requires
        registers(registration) == Some((room_id, weak)),
        alive(weak, upgrade),
        all_possible(after(rooms, registration), later, upgrade),
        not_drawn_again(later, room_id),
        is_room(
            after_all(after(rooms, registration), later),
            room_id,
            upgrade,
            room,
        ),
    ensures
        room is Some,
        call_ensures(upgrade, (&weak,), room),
{
    law_live_room_stays(
        after(rooms, registration),
        room_id,
        later,
        upgrade,
    );
}

/// When the room under an identifier has died, the news that it was closed has it forgotten, and
/// nothing else.
pub proof fn law_closed_room_is_forgotten<W, R, F: Fn(&W) -> Option<R>>(
    rooms: Map<u128, W>,
    room_id: RoomId,
    gone: bool,
    upgrade: F,
)
    requires
        rooms.contains_key(room_id.0) ==> dead(rooms[room_id.0], upgrade),
        possible(rooms, Change::Closed { room_id, gone }, upgrade),
    ensures
        after(rooms, Change::Closed { room_id, gone }) == rooms.remove(room_id.0),
{
}

/// A room that was closed is not found again until another one is registered in its place.
pub proof fn law_closed_room_is_not_found<W, R, F: Fn(&W) -> Option<R>>(
    rooms: Map<u128, W>,
    room_id: RoomId,
    gone: bool,
    later: Seq<Change<W>>,
    upgrade: F,
    room: Option<R>,
)
    requires
        rooms.contains_key(room_id.0) ==> dead(rooms[room_id.0], upgrade),
        possible(rooms, Change::Closed { room_id, gone }, upgrade),
        forall|i: int| 0 <= i < later.len() ==> !(registers(#[trigger] later[i]) matches Some((id, _))
            && id == room_id),
        is_room(
            after_all(after(rooms, Change::Closed { room_id, gone }), later),
            room_id,
            upgrade,
            room,
        ),
    ensures
        room is None,
{
    let start = after(rooms, Change::Closed { room_id, gone });
    law_closed_room_is_forgotten(rooms, room_id, gone, upgrade);
    lemma_unregistered_stays_absent(start, room_id, later);
}

proof fn lemma_unregistered_stays_absent<W>(
    rooms: Map<u128, W>,
    room_id: RoomId,
    changes: Seq<Change<W>>,
)
    requires
        !rooms.contains_key(room_id.0),
        forall|i: int|
            0 <= i < changes.len() ==> !(registers(#[trigger] changes[i]) matches Some((id, _)) && id
                == room_id),
    ensures
        !after_all(rooms, changes).contains_key(room_id.0),
    decreases changes.len(),
{
    if changes.len() > 0 {
        let earlier = changes.drop_last();
        assert forall|i: int| 0 <= i < earlier.len() implies !(registers(
            #[trigger] earlier[i],
        ) matches Some((id, _)) && id == room_id) by {
            assert(earlier[i] == changes[i]);
        }
        lemma_unregistered_stays_absent(rooms, room_id, earlier);
        assert(changes.last() == changes[changes.len() - 1]);
    }
}

} // verus!
