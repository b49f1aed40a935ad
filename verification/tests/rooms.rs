use mediasoup_demo::ids::RoomId;
use mediasoup_demo::rooms_registry::{NewRoom, RoomRequest, RoomsRegistry};
use mediasoup_demo::server::{Admission, ServerState};
use mediasoup_demo::worker::{PoolStep, WorkerPool};
use std::collections::HashMap;
use std::rc::{Rc, Weak};

fn registry() -> RoomsRegistry<Weak<String>> {
    RoomsRegistry::default()
}

fn room(name: &str) -> (Rc<String>, Weak<String>) {
    let room = Rc::new(name.to_string());
    let weak = Rc::downgrade(&room);
    (room, weak)
}

#[test]
fn unknown_room_has_to_be_created() {
    let rooms = registry();
    assert!(rooms.get(&RoomId(1), Weak::upgrade).is_none());
    assert!(matches!(
        rooms.get_or_create_room(RoomId(1), Weak::upgrade),
        RoomRequest::Create(RoomId(1))
    ));
}

#[test]
fn created_room_is_found_while_it_lives() {
    let mut rooms = registry();
    let created = rooms.room_created(RoomId(1), Ok(room("first"))).unwrap().room;
    match rooms.get_or_create_room(RoomId(1), Weak::upgrade) {
        RoomRequest::Found(found) => assert!(Rc::ptr_eq(&found, &created)),
        RoomRequest::Create(_) => panic!("the room exists"),
    }
    assert!(Rc::ptr_eq(&rooms.get(&RoomId(1), Weak::upgrade).unwrap(), &created));
    assert!(rooms.get(&RoomId(2), Weak::upgrade).is_none());
}

#[test]
fn registry_does_not_keep_a_room_alive() {
    let mut rooms = registry();
    let created = rooms.room_created(RoomId(1), Ok(room("first"))).unwrap().room;
    drop(created);
    assert!(rooms.get(&RoomId(1), Weak::upgrade).is_none());
    assert!(matches!(
        rooms.get_or_create_room(RoomId(1), Weak::upgrade),
        RoomRequest::Create(RoomId(1))
    ));
    let second = rooms.room_created(RoomId(1), Ok(room("second"))).unwrap().room;
    assert!(Rc::ptr_eq(&rooms.get(&RoomId(1), Weak::upgrade).unwrap(), &second));
}

#[test]
fn failed_creation_changes_nothing() {
    let mut rooms = registry();
    let first = rooms.room_created(RoomId(1), Ok(room("first"))).unwrap().room;
    let failed: Result<NewRoom<Rc<String>>, String> = rooms.room_created(RoomId(1), Err("no".to_string()));
    assert_eq!(failed.err().unwrap(), "no");
    let failed: Result<NewRoom<Rc<String>>, String> = rooms.create_room(Err("no router".to_string()));
    assert_eq!(failed.err().unwrap(), "no router");
    assert!(Rc::ptr_eq(&rooms.get(&RoomId(1), Weak::upgrade).unwrap(), &first));
}

#[test]
fn room_with_an_identifier_of_its_own_is_found_under_it() {
    let mut rooms = registry();
    let (strong, weak) = room("own");
    let created = rooms.create_room(Ok((RoomId(77), strong, weak))).unwrap();
    assert_eq!(created.on_close, RoomId(77));
    let created = created.room;
    assert_eq!(*created, "own");
    assert!(Rc::ptr_eq(&rooms.get(&RoomId(77), Weak::upgrade).unwrap(), &created));
}

#[test]
fn new_room_is_to_be_watched_under_its_identifier() {
    let mut rooms = registry();
    let new_room = rooms.room_created(RoomId(4), Ok(room("four"))).unwrap();
    assert_eq!(new_room.on_close, RoomId(4));
    assert_eq!(*new_room.room, "four");
}

#[test]
fn closed_room_is_forgotten() {
    let mut rooms = registry();
    let first = rooms.room_created(RoomId(1), Ok(room("first"))).unwrap().room;
    let second = rooms.room_created(RoomId(2), Ok(room("second"))).unwrap().room;
    drop(first);
    rooms.room_closed(RoomId(1), Weak::upgrade);
    assert!(rooms.get(&RoomId(1), Weak::upgrade).is_none());
    // the handle itself is gone, not only the room
    assert_eq!(rooms.query_rooms(|weak| Some(weak.clone())).len(), 1);
    assert!(Rc::ptr_eq(&rooms.get(&RoomId(2), Weak::upgrade).unwrap(), &second));
    rooms.room_closed(RoomId(9), Weak::upgrade);
    assert!(rooms.get(&RoomId(2), Weak::upgrade).is_some());
}

#[test]
fn late_close_spares_a_live_successor() {
    let mut rooms = registry();
    drop(rooms.room_created(RoomId(1), Ok(room("first"))).unwrap());
    let successor = rooms.room_created(RoomId(1), Ok(room("second"))).unwrap().room;
    rooms.room_closed(RoomId(1), Weak::upgrade);
    match rooms.get_or_create_room(RoomId(1), Weak::upgrade) {
        RoomRequest::Found(found) => assert!(Rc::ptr_eq(&found, &successor)),
        RoomRequest::Create(_) => panic!("the second room is alive"),
    }
    // the second room's own close comes later
    drop(successor);
    rooms.room_closed(RoomId(1), Weak::upgrade);
    assert!(rooms.query_rooms(|weak| Some(weak.clone())).is_empty());
}

#[test]
fn query_follows_rooms_that_come_and_go() {
    let mut rooms = registry();
    let describe = |weak: &Weak<String>| weak.upgrade().map(|room| room.to_string());
    let _a = rooms.room_created(RoomId(1), Ok(room("same"))).unwrap().room;
    let b = rooms.room_created(RoomId(2), Ok(room("same"))).unwrap().room;
    let both = vec!["same".to_string(), "same".to_string()];
    assert_eq!(rooms.query_rooms(describe), both);
    drop(b);
    assert_eq!(rooms.query_rooms(describe), vec!["same".to_string()]);
    rooms.room_closed(RoomId(2), Weak::upgrade);
    assert_eq!(rooms.query_rooms(describe), vec!["same".to_string()]);
}

#[test]
fn query_finds_exactly_the_live_rooms() {
    let mut rooms = registry();
    assert!(rooms.query_rooms(Weak::upgrade).is_empty());
    let _a = rooms.room_created(RoomId(1), Ok(room("a"))).unwrap().room;
    let b = rooms.room_created(RoomId(2), Ok(room("b"))).unwrap().room;
    let _c = rooms.room_created(RoomId(3), Ok(room("c"))).unwrap().room;
    drop(b);
    let describe = |weak: &Weak<String>| weak.upgrade().map(|room| room.to_string());
    let mut found = rooms.query_rooms(describe);
    found.sort();
    assert_eq!(found, vec!["a".to_string(), "c".to_string()]);
}

fn server() -> ServerState<u8, Weak<String>, u8> {
    let pending = WorkerPool::new(2).unwrap();
    let pending = match pending.worker_created(Ok::<u8, ()>(10)) {
        PoolStep::CreateWorker(pending) => pending,
        _ => panic!("one worker is missing"),
    };
    let worker_pool = match pending.worker_created(Ok::<u8, ()>(20)) {
        PoolStep::Ready(pool) => pool,
        _ => panic!("the pool is complete"),
    };
    ServerState { worker_pool, rooms_registry: RoomsRegistry::default(), recorders: HashMap::new() }
}

#[test]
fn client_without_a_room_gets_a_new_one() {
    let mut state = server();
    assert!(matches!(
        state.ws_handler(None, Weak::upgrade),
        Admission::CreateRoom { worker: 10 }
    ));
    assert!(matches!(
        state.ws_handler(None, Weak::upgrade),
        Admission::CreateRoom { worker: 20 }
    ));
}

#[test]
fn clients_that_name_a_room_meet_in_it() {
    let mut state = server();
    let id = match state.ws_handler(Some(RoomId(5)), Weak::upgrade) {
        Admission::CreateRoomWithId { worker, room_id } => {
            assert_eq!(worker, 10);
            room_id
        }
        _ => panic!("there is no such room yet"),
    };
    assert_eq!(id, RoomId(5));
    let created = state.rooms_registry.room_created(id, Ok(room("five"))).unwrap().room;
    match state.ws_handler(Some(RoomId(5)), Weak::upgrade) {
        Admission::Join(found) => assert!(Rc::ptr_eq(&found, &created)),
        _ => panic!("the room exists"),
    }
    // joining took the second worker's turn
    assert!(matches!(
        state.ws_handler(None, Weak::upgrade),
        Admission::CreateRoom { worker: 10 }
    ));
}

#[test]
fn clients_meet_in_a_room_despite_a_late_close() {
    let mut state = server();
    drop(state.rooms_registry.room_created(RoomId(5), Ok(room("old"))).unwrap());
    let current = state.rooms_registry.room_created(RoomId(5), Ok(room("new"))).unwrap().room;
    state.rooms_registry.room_closed(RoomId(5), Weak::upgrade);
    match state.ws_handler(Some(RoomId(5)), Weak::upgrade) {
        Admission::Join(found) => assert!(Rc::ptr_eq(&found, &current)),
        _ => panic!("the room is alive"),
    }
}

#[test]
fn dead_room_is_replaced_under_its_identifier() {
    let mut state = server();
    let created = state.rooms_registry.room_created(RoomId(5), Ok(room("old"))).unwrap().room;
    drop(created);
    assert!(matches!(
        state.ws_handler(Some(RoomId(5)), Weak::upgrade),
        Admission::CreateRoomWithId { worker: 10, room_id: RoomId(5) }
    ));
    let replaced = state.rooms_registry.room_created(RoomId(5), Ok(room("new"))).unwrap().room;
    assert_eq!(replaced.as_str(), "new");
    match state.ws_handler(Some(RoomId(5)), Weak::upgrade) {
        Admission::Join(found) => assert!(Rc::ptr_eq(&found, &replaced)),
        _ => panic!("the room exists again"),
    }
}
