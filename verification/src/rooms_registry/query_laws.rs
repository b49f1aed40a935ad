//! What a query of the rooms gives.
use super::{is_query, is_room, present};
use crate::ids::RoomId;
use vstd::prelude::*;

verus! {

/// The rooms alive among those registered are `living`, by identifier: every other handle
/// upgrades to nothing.
pub open spec fn are_living<W, R, F: Fn(&W) -> Option<R>>(
    rooms: Map<u128, W>,
    upgrade: F,
    living: Map<u128, R>,
) -> bool {
    &&& living.dom().subset_of(rooms.dom())
    &&& forall|id: u128, outcome: Option<R>|
        rooms.contains_key(id) && #[trigger] call_ensures(upgrade, (&rooms[id],), outcome)
            ==> outcome == living.get(id)
}

/// The identifiers of `room` in `living`.
pub open spec fn identifiers_of<R>(living: Map<u128, R>, room: R) -> Set<u128> {
    living.dom().filter(|id: u128| living[id] == room)
}

proof fn lemma_present<R>(outcomes: Seq<Option<R>>, room: R)
    ensures
        present(outcomes).contains(room) <==> outcomes.contains(Some(room)),
    decreases outcomes.len(),
{
    if outcomes.len() > 0 {
        let shorter = outcomes.drop_last();
        lemma_present(shorter, room);
        assert(outcomes =~= shorter.push(outcomes.last()));
        if present(shorter).contains(room) {
            let i = choose|i: int| 0 <= i < shorter.len() && shorter[i] == Some(room);
            assert(outcomes[i] == Some(room));
            let j = choose|j: int| 0 <= j < present(shorter).len() && present(shorter)[j] == room;
            assert(present(outcomes)[j] == room);
        }
        if outcomes.last() == Some(room) {
            assert(outcomes[outcomes.len() - 1] == Some(room));
            assert(present(outcomes)[present(outcomes).len() - 1] == room);
        }
        if outcomes.contains(Some(room)) && outcomes.last() != Some(room) {
            let i = choose|i: int| 0 <= i < outcomes.len() && outcomes[i] == Some(room);
            assert(shorter[i] == Some(room));
        }
        if present(outcomes).contains(room) && !present(shorter).contains(room) {
            let j = choose|j: int| 0 <= j < present(outcomes).len() && present(outcomes)[j] == room;
            if j < present(shorter).len() {
                assert(present(shorter)[j] == room);
            }
            assert(outcomes.last() == Some(room));
        }
    }
}

/// A query leaves out no room that is alive and makes none up: the handle of every registered
/// room is upgraded, and the rooms found are exactly those that came of it.
pub proof fn law_query_finds_exactly_the_live_rooms<W, R, F: Fn(&W) -> Option<R>>(
    rooms: Map<u128, W>,
    upgrade: F,
    order: Seq<u128>,
    outcomes: Seq<Option<R>>,
    found: Seq<R>,
)
    requires
        is_query(rooms, upgrade, order, outcomes, found),
    ensures
        forall|id: u128| #[trigger]
            rooms.contains_key(id) ==> exists|outcome: Option<R>| #[trigger]
                call_ensures(upgrade, (&rooms[id],), outcome) && (outcome matches Some(room)
                    ==> found.contains(room)),
        forall|room: R| #[trigger]
            found.contains(room) ==> exists|id: u128|
                rooms.contains_key(id) && #[trigger] call_ensures(
                    upgrade,
                    (&rooms[id],),
                    Some(room),
                ),
{
    assert forall|id: u128| #[trigger] rooms.contains_key(id) implies exists|outcome: Option<R>|
     #[trigger]
        call_ensures(upgrade, (&rooms[id],), outcome) && (outcome matches Some(room)
            ==> found.contains(room)) by {
        assert(order.to_set().contains(id));
        let i = choose|i: int| 0 <= i < order.len() && order[i] == id;
        assert(call_ensures(upgrade, (&rooms[order[i]],), outcomes[i]));
        if let Some(room) = outcomes[i] {
            assert(outcomes.contains(Some(room)));
            lemma_present(outcomes, room);
        }
    }
    assert forall|room: R| #[trigger] found.contains(room) implies exists|id: u128|
        rooms.contains_key(id) && #[trigger] call_ensures(upgrade, (&rooms[id],), Some(room)) by {
        lemma_present(outcomes, room);
        let i = choose|i: int| 0 <= i < outcomes.len() && outcomes[i] == Some(room);
        assert(order.to_set().contains(order[i]));
        assert(call_ensures(upgrade, (&rooms[order[i]],), outcomes[i]));
    }
}

/// Stepping from all but the last of `order` to all of it adds the last to what is in `set`, if
/// it is in there.
proof fn lemma_last_of_order(order: Seq<u128>, set: Set<u128>)
    requires
        order.len() > 0,
        order.no_duplicates(),
    ensures
        order.to_set().intersect(set).finite(),
        order.to_set().intersect(set).len() == order.drop_last().to_set().intersect(set).len()
            + if set.contains(order.last()) {
            1int
        } else {
            0
        },
{
    broadcast use vstd::seq_lib::seq_to_set_is_finite;

    let shorter = order.drop_last();
    let id = order.last();
    assert(!shorter.contains(id));
    assert forall|key: u128| #[trigger] order.contains(key) implies key == id || shorter.contains(
        key,
    ) by {
        let i = choose|i: int| 0 <= i < order.len() && order[i] == key;
        if i < shorter.len() {
            assert(shorter[i] == key);
        }
    }
    assert forall|key: u128| key == id || shorter.contains(key) implies #[trigger] order.contains(
        key,
    ) by {
        if key == id {
            assert(order[order.len() - 1] == key);
        } else {
            let i = choose|i: int| 0 <= i < shorter.len() && shorter[i] == key;
            assert(order[i] == key);
        }
    }
    if set.contains(id) {
        assert(order.to_set().intersect(set) =~= shorter.to_set().intersect(set).insert(id));
    } else {
        assert(order.to_set().intersect(set) =~= shorter.to_set().intersect(set));
    }
}

proof fn lemma_present_counts<R>(
    order: Seq<u128>,
    outcomes: Seq<Option<R>>,
    living: Map<u128, R>,
    room: R,
)
    requires
        order.no_duplicates(),
        outcomes.len() == order.len(),
        forall|i: int| 0 <= i < order.len() ==> #[trigger] outcomes[i] == living.get(order[i]),
    ensures
        present(outcomes).to_multiset().count(room) == order.to_set().intersect(
            identifiers_of(living, room),
        ).len(),
        present(outcomes).len() == order.to_set().intersect(living.dom()).len(),
    decreases order.len(),
{
    broadcast use vstd::seq_lib::group_to_multiset_ensures;

    let own = identifiers_of(living, room);
    if order.len() == 0 {
        assert(order.to_set().intersect(own) =~= Set::empty());
        assert(order.to_set().intersect(living.dom()) =~= Set::empty());
        assert(!present(outcomes).contains(room));
    } else {
        let shorter = order.drop_last();
        let fewer = outcomes.drop_last();
        assert forall|i: int| 0 <= i < shorter.len() implies #[trigger] fewer[i] == living.get(
            shorter[i],
        ) by {
            assert(fewer[i] == outcomes[i]);
        }
        lemma_present_counts(shorter, fewer, living, room);
        lemma_last_of_order(order, own);
        lemma_last_of_order(order, living.dom());
        assert(outcomes[order.len() - 1] == living.get(order.last()));
    }
}

/// A query finds every living room as often as it is registered, and as many rooms as there are
/// identifiers under which a lookup finds one.
pub proof fn law_query_counts_the_rooms_that_a_lookup_finds<W, R, F: Fn(&W) -> Option<R>>(
    rooms: Map<u128, W>,
    upgrade: F,
    living: Map<u128, R>,
    order: Seq<u128>,
    outcomes: Seq<Option<R>>,
    found: Seq<R>,
)
    requires
        are_living(rooms, upgrade, living),
        is_query(rooms, upgrade, order, outcomes, found),
    ensures
        living.dom().finite(),
        found.len() == living.dom().len(),
        forall|room: R| #[trigger]
            found.to_multiset().count(room) == identifiers_of(living, room).len(),
        forall|room_id: RoomId, room: Option<R>| #[trigger]
            is_room(rooms, room_id, upgrade, room) ==> (room is Some <==> living.contains_key(
                room_id.0,
            )),
{
    assert forall|i: int| 0 <= i < order.len() implies #[trigger] outcomes[i] == living.get(
        order[i],
    ) by {
        assert(order.to_set().contains(order[i]));
        assert(call_ensures(upgrade, (&rooms[order[i]],), outcomes[i]));
    }
    assert(order.to_set().intersect(living.dom()) =~= living.dom());
    assert forall|room: R| #[trigger]
        found.to_multiset().count(room) == identifiers_of(living, room).len() by {
        lemma_present_counts(order, outcomes, living, room);
        assert(order.to_set().intersect(identifiers_of(living, room)) =~= identifiers_of(
            living,
            room,
        ));
    }
    vstd::seq_lib::seq_to_set_is_finite(order);
    lemma_present_counts(order, outcomes, living, arbitrary());
}

/// Two queries between which the same rooms are alive find the same rooms, in whatever order.
proof fn lemma_queries_agree<W, R, F: Fn(&W) -> Option<R>, V, G: Fn(&V) -> Option<R>>(
    rooms: Map<u128, W>,
    upgrade: F,
    order: Seq<u128>,
    outcomes: Seq<Option<R>>,
    found: Seq<R>,
    other_rooms: Map<u128, V>,
    other_upgrade: G,
    other_order: Seq<u128>,
    other_outcomes: Seq<Option<R>>,
    other_found: Seq<R>,
    living: Map<u128, R>,
)
    requires
        are_living(rooms, upgrade, living),
        are_living(other_rooms, other_upgrade, living),
        is_query(rooms, upgrade, order, outcomes, found),
        is_query(other_rooms, other_upgrade, other_order, other_outcomes, other_found),
    ensures
        found.to_multiset() == other_found.to_multiset(),
{
    law_query_counts_the_rooms_that_a_lookup_finds(rooms, upgrade, living, order, outcomes, found);
    law_query_counts_the_rooms_that_a_lookup_finds(
        other_rooms,
        other_upgrade,
        living,
        other_order,
        other_outcomes,
        other_found,
    );
    assert(found.to_multiset() =~= other_found.to_multiset());
}

/// After one more room was registered, and nothing else has come or gone, a query finds that
/// room besides what it found before.
pub proof fn law_query_gains_a_registered_room<W, R, F: Fn(&W) -> Option<R>>(
    rooms: Map<u128, W>,
    upgrade: F,
    living: Map<u128, R>,
    order: Seq<u128>,
    outcomes: Seq<Option<R>>,
    before: Seq<R>,
    room_id: RoomId,
    weak: W,
    room: R,
    later_order: Seq<u128>,
    later_outcomes: Seq<Option<R>>,
    found: Seq<R>,
)
    requires
        are_living(rooms, upgrade, living),
        !living.contains_key(room_id.0),
        is_query(rooms, upgrade, order, outcomes, before),
        forall|outcome: Option<R>| #[trigger]
            call_ensures(upgrade, (&weak,), outcome) ==> outcome == Some(room),
        is_query(rooms.insert(room_id.0, weak), upgrade, later_order, later_outcomes, found),
    ensures
        found.to_multiset() == before.to_multiset().insert(room),
{
    let more = living.insert(room_id.0, room);
    law_query_counts_the_rooms_that_a_lookup_finds(rooms, upgrade, living, order, outcomes, before);
    assert(are_living(rooms.insert(room_id.0, weak), upgrade, more));
    law_query_counts_the_rooms_that_a_lookup_finds(
        rooms.insert(room_id.0, weak),
        upgrade,
        more,
        later_order,
        later_outcomes,
        found,
    );
    assert forall|r: R| found.to_multiset().count(r) == before.to_multiset().insert(room).count(
        r,
    ) by {
        assert(identifiers_of(living, r).finite());
        if r == room {
            assert(identifiers_of(more, r) =~= identifiers_of(living, r).insert(room_id.0));
            assert(!identifiers_of(living, r).contains(room_id.0));
        } else {
            assert(identifiers_of(more, r) =~= identifiers_of(living, r));
        }
        assert(found.to_multiset().count(r) == identifiers_of(more, r).len());
        assert(before.to_multiset().count(r) == identifiers_of(living, r).len());
    }
    assert(found.to_multiset() =~= before.to_multiset().insert(room));
}

/// After a room has gone, and nothing else has come or gone, a query finds again what it found
/// before the room was registered, whether the room was forgotten already or not.
pub proof fn law_query_loses_a_room_that_goes<
    W,
    R,
    F: Fn(&W) -> Option<R>,
    G: Fn(&W) -> Option<R>,
>(
    rooms: Map<u128, W>,
    upgrade: F,
    living: Map<u128, R>,
    order: Seq<u128>,
    outcomes: Seq<Option<R>>,
    before: Seq<R>,
    room_id: RoomId,
    weak: W,
    later_upgrade: G,
    later_order: Seq<u128>,
    later_outcomes: Seq<Option<R>>,
    found: Seq<R>,
    last_order: Seq<u128>,
    last_outcomes: Seq<Option<R>>,
    last_found: Seq<R>,
)
    requires
        are_living(rooms, upgrade, living),
        are_living(rooms, later_upgrade, living),
        !living.contains_key(room_id.0),
        is_query(rooms, upgrade, order, outcomes, before),
        forall|outcome: Option<R>| #[trigger]
            call_ensures(later_upgrade, (&weak,), outcome) ==> outcome is None,
        is_query(rooms.insert(room_id.0, weak), later_upgrade, later_order, later_outcomes, found),
        is_query(
            rooms.insert(room_id.0, weak).remove(room_id.0),
            later_upgrade,
            last_order,
            last_outcomes,
            last_found,
        ),
    ensures
        found.to_multiset() == before.to_multiset(),
        last_found.to_multiset() == before.to_multiset(),
{
    assert(are_living(rooms.insert(room_id.0, weak), later_upgrade, living));
    assert(are_living(rooms.insert(room_id.0, weak).remove(room_id.0), later_upgrade, living));
    lemma_queries_agree(
        rooms.insert(room_id.0, weak),
        later_upgrade,
        later_order,
        later_outcomes,
        found,
        rooms,
        upgrade,
        order,
        outcomes,
        before,
        living,
    );
    lemma_queries_agree(
        rooms.insert(room_id.0, weak).remove(room_id.0),
        later_upgrade,
        last_order,
        last_outcomes,
        last_found,
        rooms,
        upgrade,
        order,
        outcomes,
        before,
        living,
    );
}

/// A query of no rooms finds none.
pub proof fn law_query_of_no_rooms_is_empty<W, R, F: Fn(&W) -> Option<R>>(
    upgrade: F,
    order: Seq<u128>,
    outcomes: Seq<Option<R>>,
    found: Seq<R>,
)
    requires
        is_query(Map::<u128, W>::empty(), upgrade, order, outcomes, found),
    ensures
        found.len() == 0,
{
    if order.len() > 0 {
        assert(order.to_set().contains(order[0]));
    }
}

} // verus!
