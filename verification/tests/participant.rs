use mediasoup_demo::ids::{ConsumerId, ParticipantId, ProducerId, RoomId, TransportId};
use mediasoup_demo::media::{Consumer, Media, MediaKind, Producer, Room};
use mediasoup_demo::participant::messages::{
    ClientMessage, InternalMessage, Notice, ServerMessage, TransportOptions,
};
use mediasoup_demo::participant::{
    connect_finished, connect_notified, consume_finished, on_producer_add, on_producer_remove,
    produce_finished, produce_notified, Action, Delivery, Event, ParticipantConnection, Setup,
    SocketEvent, Task, TaskStep, Transport, TransportRole,
};

struct Fake;

impl Media for Fake {
    type RtpCapabilitiesFinalized = &'static str;
    type RtpCapabilities = &'static str;
    type RtpParameters = &'static str;
    type DtlsParameters = &'static str;
    type IceCandidate = u8;
    type IceParameters = &'static str;
    type WebRtcTransport = &'static str;
    type Producer = &'static str;
    type Consumer = &'static str;
    type Room = &'static str;
}

type Connection = ParticipantConnection<Fake>;

/// What went wrong, in these tests.
type Problem = &'static str;

fn room() -> Room<Fake> {
    Room { id: RoomId(9), router_rtp_capabilities: "router", handle: "room" }
}

fn transport(id: u128, handle: &'static str) -> Transport<Fake> {
    Transport { options: options(id), handle }
}

/// Runs `connection` on an event, with a fixed type of problems.
fn run(connection: &mut Connection, event: Event<Fake, Problem>) -> Action<Fake, Problem> {
    connection.run(event)
}

fn connection() -> Connection {
    let pending = match Connection::new(room()) {
        Setup::CreateTransport { pending, .. } => pending,
        _ => panic!("transports are missing"),
    };
    let pending = match pending.transport_created(Ok(transport(2, "producer transport"))) {
        Setup::CreateTransport { pending, .. } => pending,
        _ => panic!("a transport is missing"),
    };
    match pending.transport_created(Ok(transport(1, "consumer transport"))) {
        Setup::Ready(connection) => connection,
        _ => panic!("both transports are there"),
    }
}

fn client(message: ClientMessage<Fake>) -> Event<Fake, Problem> {
    Event::Socket(Some(SocketEvent::Text(Ok(message))))
}

fn consumer(id: u128, handle: &'static str) -> Consumer<Fake> {
    Consumer { id: ConsumerId(id), kind: MediaKind::Audio, rtp_parameters: "parameters", handle }
}

fn producer(id: u128, handle: &'static str) -> Producer<Fake> {
    Producer { id: ProducerId(id), handle }
}

fn options(id: u128) -> TransportOptions<Fake> {
    TransportOptions {
        id: TransportId(id),
        dtls_parameters: "dtls",
        ice_candidates: vec![1, 2],
        ice_parameters: "ice",
    }
}

#[test]
fn both_transports_listen_on_loopback() {
    let (pending, first) = match Connection::new(room()) {
        Setup::CreateTransport { pending, listen_ip } => (pending, listen_ip),
        _ => panic!("transports are missing"),
    };
    assert_eq!(first.ip, [127, 0, 0, 1]);
    assert!(first.announced_ip.is_none());
    match pending.transport_created(Ok(transport(2, "producer transport"))) {
        Setup::CreateTransport { pending, listen_ip } => {
            assert_eq!(listen_ip.ip, [127, 0, 0, 1]);
            assert!(listen_ip.announced_ip.is_none());
            assert_eq!(pending.producer.unwrap().handle, "producer transport");
        }
        _ => panic!("a transport is missing"),
    }
}

#[test]
fn first_transport_is_the_producer_transport() {
    let connection = connection();
    assert_eq!(connection.transports().producer.handle, "producer transport");
    assert_eq!(connection.transports().consumer.handle, "consumer transport");
    assert_eq!(connection.room().handle, "room");
    assert_eq!(connection.room().id, RoomId(9));
}

#[test]
fn every_connection_has_a_participant_of_its_own() {
    assert_ne!(connection().id(), connection().id());
}

#[test]
fn failed_transports_are_told_apart() {
    let pending = match Connection::new(room()) {
        Setup::CreateTransport { pending, .. } => pending,
        _ => panic!("transports are missing"),
    };
    match pending.transport_created(Err("no port".to_string())) {
        Setup::Failed(message) => {
            assert_eq!(message, "Failed to create producer transport: no port")
        }
        _ => panic!("the transport failed"),
    }
    let pending = match Connection::new(room()) {
        Setup::CreateTransport { pending, .. } => pending,
        _ => panic!("transports are missing"),
    };
    let pending = match pending.transport_created(Ok(transport(2, "producer transport"))) {
        Setup::CreateTransport { pending, .. } => pending,
        _ => panic!("a transport is missing"),
    };
    match pending.transport_created(Err("no port".to_string())) {
        Setup::Failed(message) => {
            assert_eq!(message, "Failed to create consumer transport: no port")
        }
        _ => panic!("the transport failed"),
    }
}

#[test]
fn client_is_greeted_with_both_transports() {
    let mut connection = connection();
    let action = run(&mut connection, Event::Opened);
    match action {
        Action::Greet(ServerMessage::Init {
            room_id,
            consumer_transport_options,
            producer_transport_options,
            router_rtp_capabilities,
        }) => {
            assert_eq!(room_id, RoomId(9));
            assert_eq!(consumer_transport_options.id, TransportId(1));
            assert_eq!(producer_transport_options.id, TransportId(2));
            assert_eq!(producer_transport_options.ice_candidates, vec![1, 2]);
            assert_eq!(router_rtp_capabilities, "router");
        }
        _ => panic!("no greeting"),
    }
    assert!(matches!(run(&mut connection, Event::Greeted(Delivery::Sent)), Action::Listen));
    assert!(matches!(
        run(&mut connection, Event::Greeted(Delivery::Refused("refused"))),
        Action::Fail("refused")
    ));
    assert!(matches!(
        run(&mut connection, Event::Greeted(Delivery::Unserializable("no text"))),
        Action::Fail("no text")
    ));
}

#[test]
fn producers_in_the_room_are_announced_in_order() {
    let mut connection = connection();
    let others = vec![
        (ParticipantId(1), ProducerId(11)),
        (ParticipantId(2), ProducerId(21)),
        (ParticipantId(1), ProducerId(12)),
    ];
    match run(&mut connection, Event::Listening(others.clone())) {
        Action::Announce(notices) => {
            let mut announced = Vec::new();
            for notice in notices {
                match notice {
                    Notice::ProducerAdded { participant_id, producer_id } => {
                        announced.push((participant_id, producer_id))
                    }
                    _ => panic!("not an announcement"),
                }
            }
            assert_eq!(announced, others);
        }
        _ => panic!("nothing announced"),
    }
}

#[test]
fn notices_are_delivered_to_the_client() {
    let mut connection = connection();
    let participant_id = ParticipantId(2);
    let producer_id = ProducerId(3);
    let mut deliver = |notice| match run(&mut connection, Event::Server(Some(notice))) {
        Action::Deliver(message) => message,
        _ => panic!("nothing delivered"),
    };
    assert!(matches!(
        deliver(Notice::Produced { id: ProducerId(4) }),
        ServerMessage::Produced { id: ProducerId(4) }
    ));
    assert!(matches!(
        deliver(Notice::ProducerAdded { participant_id, producer_id }),
        ServerMessage::ProducerAdded {
            participant_id: ParticipantId(2),
            producer_id: ProducerId(3),
        }
    ));
    assert!(matches!(
        deliver(Notice::ProducerRemoved { participant_id, producer_id }),
        ServerMessage::ProducerRemoved {
            participant_id: ParticipantId(2),
            producer_id: ProducerId(3),
        }
    ));
    assert!(matches!(
        deliver(Notice::ConnectedProducerTransport),
        ServerMessage::ConnectedProducerTransport
    ));
    assert!(matches!(
        deliver(Notice::ConnectedConsumerTransport),
        ServerMessage::ConnectedConsumerTransport
    ));
    assert!(matches!(run(&mut connection, Event::Server(None)), Action::Wait));
}

#[test]
fn refused_delivery_stops_the_connection() {
    let mut connection = connection();
    assert!(matches!(run(&mut connection, Event::Delivered(Delivery::Sent)), Action::Wait));
    assert!(matches!(
        run(&mut connection, Event::Delivered(Delivery::Refused("refused"))),
        Action::Enqueue(InternalMessage::Stop)
    ));
    assert!(matches!(
        run(&mut connection, Event::Delivered(Delivery::Unserializable("no text"))),
        Action::Fail("no text")
    ));
}

#[test]
fn socket_frames_are_answered() {
    let mut connection = connection();
    let mut receive = |received| run(&mut connection, Event::Socket(received));
    assert!(matches!(receive(None), Action::Wait));
    assert!(matches!(receive(Some(SocketEvent::Failed("reset"))), Action::Fail("reset")));
    assert!(matches!(receive(Some(SocketEvent::Text(Err("no JSON")))), Action::Fail("no JSON")));
    assert!(matches!(receive(Some(SocketEvent::Binary)), Action::Wait));
    assert!(matches!(receive(Some(SocketEvent::Pong)), Action::Wait));
    match receive(Some(SocketEvent::Ping(vec![1, 2, 3]))) {
        Action::Pong(payload) => assert_eq!(payload, vec![1, 2, 3]),
        _ => panic!("no pong"),
    }
    assert!(matches!(receive(Some(SocketEvent::Close)), Action::CloseSocket));
    assert!(matches!(run(&mut connection, Event::PongSent(Ok(()))), Action::Wait));
    assert!(matches!(run(&mut connection, Event::PongSent(Err("full"))), Action::Fail("full")));
    assert!(matches!(run(&mut connection, Event::SocketClosed(Ok(()))), Action::Finish));
    assert!(matches!(
        run(&mut connection, Event::SocketClosed(Err("late"))),
        Action::Fail("late")
    ));
}

#[test]
fn connection_stops_when_told_to() {
    let mut connection = connection();
    assert!(matches!(run(&mut connection, Event::Internal(None)), Action::Wait));
    assert!(matches!(
        run(&mut connection, Event::Internal(Some(InternalMessage::Stop))),
        Action::Finish
    ));
}

#[test]
fn each_transport_is_connected_as_asked() {
    let mut connection = connection();
    assert!(matches!(
        run(&mut connection, client(ClientMessage::ConnectProducerTransport { dtls_parameters: "p" })),
        Action::Start(Task::Connect {
            role: TransportRole::Producer,
            transport: "producer transport",
            dtls_parameters: "p",
        })
    ));
    assert!(matches!(
        run(&mut connection, client(ClientMessage::ConnectConsumerTransport { dtls_parameters: "c" })),
        Action::Start(Task::Connect {
            role: TransportRole::Consumer,
            transport: "consumer transport",
            dtls_parameters: "c",
        })
    ));
}

#[test]
fn producing_uses_the_producer_transport() {
    let mut connection = connection();
    let own = connection.id();
    let asked = ClientMessage::Produce { kind: MediaKind::Video, rtp_parameters: "rtp" };
    match run(&mut connection, client(asked)) {
        Action::Start(Task::Produce { participant_id, transport, room, kind, rtp_parameters }) => {
            assert_eq!(participant_id, own);
            assert_eq!(transport, "producer transport");
            assert_eq!(room, "room");
            assert_eq!(kind, MediaKind::Video);
            assert_eq!(rtp_parameters, "rtp");
        }
        _ => panic!("no producer asked for"),
    }
}

#[test]
fn consuming_before_init_is_passed_over() {
    let mut connection = connection();
    let asked = ClientMessage::Consume { producer_id: ProducerId(3) };
    assert!(matches!(run(&mut connection, client(asked)), Action::Wait));
}

#[test]
fn consumers_start_paused_with_the_last_capabilities() {
    let mut connection = connection();
    for rtp_capabilities in ["first", "second"] {
        let init = ClientMessage::Init { rtp_capabilities };
        assert!(matches!(run(&mut connection, client(init)), Action::Wait));
    }
    for _ in 0..2 {
        let asked = ClientMessage::Consume { producer_id: ProducerId(3) };
        assert!(matches!(
            run(&mut connection, client(asked)),
            Action::Start(Task::Consume {
                transport: "consumer transport",
                producer_id: ProducerId(3),
                rtp_capabilities: "second",
                paused: true,
            })
        ));
    }
}

#[test]
fn only_saved_consumers_are_resumed() {
    let mut connection = connection();
    let resume = |id: u128| client(ClientMessage::ConsumerResume { id: ConsumerId(id) });
    assert!(matches!(run(&mut connection, resume(5)), Action::Wait));
    let saved = consume_finished(ProducerId(3), Some(consumer(5, "five")));
    assert!(matches!(
        run(&mut connection, Event::Internal(Some(saved))),
        Action::Deliver(ServerMessage::Consumed {
            id: ConsumerId(5),
            producer_id: ProducerId(3),
            kind: MediaKind::Audio,
            rtp_parameters: "parameters",
        })
    ));
    // the client knows of it, so it can resume it at once
    match run(&mut connection, resume(5)) {
        Action::Start(Task::Resume { consumer }) => {
            assert_eq!(consumer.id, ConsumerId(5));
            assert_eq!(consumer.handle, "five");
            assert_eq!(consumer.kind, MediaKind::Audio);
        }
        _ => panic!("nothing resumed"),
    }
    assert!(matches!(run(&mut connection, resume(6)), Action::Wait));
    // it is kept: it can be resumed again
    assert!(matches!(run(&mut connection, resume(5)), Action::Start(Task::Resume { .. })));
}

#[test]
fn later_consumer_replaces_one_of_the_same_identifier() {
    let mut connection = connection();
    for handle in ["old", "new"] {
        let saved = consume_finished(ProducerId(3), Some(consumer(5, handle)));
        run(&mut connection, Event::Internal(Some(saved)));
    }
    match run(&mut connection, client(ClientMessage::ConsumerResume { id: ConsumerId(5) })) {
        Action::Start(Task::Resume { consumer }) => assert_eq!(consumer.handle, "new"),
        _ => panic!("nothing resumed"),
    }
}

#[test]
fn saving_a_producer_waits() {
    let mut connection = connection();
    let saved = InternalMessage::SaveProducer(producer(8, "eight"));
    assert!(matches!(run(&mut connection, Event::Internal(Some(saved))), Action::Wait));
}

#[test]
fn clients_hear_of_the_producers_of_others() {
    let added = on_producer_add(ParticipantId(1), ParticipantId(2), ProducerId(3));
    assert!(matches!(
        added,
        Some(Notice::ProducerAdded {
            participant_id: ParticipantId(2),
            producer_id: ProducerId(3),
        })
    ));
    let removed = on_producer_remove(ParticipantId(1), ParticipantId(2), ProducerId(3));
    assert!(matches!(
        removed,
        Some(Notice::ProducerRemoved {
            participant_id: ParticipantId(2),
            producer_id: ProducerId(3),
        })
    ));
}

#[test]
fn clients_do_not_hear_of_their_own_producers() {
    let own = ParticipantId(1);
    assert!(on_producer_add(own, own, ProducerId(3)).is_none());
    assert!(on_producer_remove(own, own, ProducerId(3)).is_none());
}

#[test]
fn connected_transport_is_reported() {
    assert!(matches!(
        connect_finished::<Fake>(TransportRole::Producer, true),
        TaskStep::Notify(Notice::ConnectedProducerTransport)
    ));
    assert!(matches!(
        connect_finished::<Fake>(TransportRole::Consumer, true),
        TaskStep::Notify(Notice::ConnectedConsumerTransport)
    ));
    assert!(connect_notified::<Fake>(true).is_none());
    assert!(matches!(connect_notified::<Fake>(false), Some(InternalMessage::Stop)));
}

#[test]
fn failed_media_work_stops_the_connection() {
    for role in [TransportRole::Producer, TransportRole::Consumer] {
        assert!(matches!(
            connect_finished::<Fake>(role, false),
            TaskStep::Tell(InternalMessage::Stop)
        ));
    }
    assert!(matches!(
        produce_finished::<Fake>(&None),
        TaskStep::Tell(InternalMessage::Stop)
    ));
    assert!(matches!(
        consume_finished::<Fake>(ProducerId(3), None),
        InternalMessage::Stop
    ));
}

#[test]
fn created_producer_is_reported_shared_and_saved() {
    let created = producer(8, "eight");
    let participant = ParticipantId(1);
    let created = Some(created);
    assert!(matches!(
        produce_finished(&created),
        TaskStep::Notify(Notice::Produced { id: ProducerId(8) })
    ));
    let (added, message) = produce_notified(participant, created.unwrap(), true);
    let (owner, added) = added.unwrap();
    assert_eq!(owner, participant);
    assert_eq!(added.id, ProducerId(8));
    assert_eq!(added.handle, "eight");
    match message {
        InternalMessage::SaveProducer(saved) => assert_eq!(saved.id, ProducerId(8)),
        _ => panic!("the producer is not saved"),
    }
    let (added, message) = produce_notified(participant, producer(8, "eight"), false);
    assert!(added.is_none());
    assert!(matches!(message, InternalMessage::Stop));
}

#[test]
fn created_consumer_is_handed_over_to_be_saved() {
    match consume_finished(ProducerId(3), Some(consumer(5, "five"))) {
        InternalMessage::SaveConsumer { producer_id, consumer } => {
            assert_eq!(producer_id, ProducerId(3));
            assert_eq!(consumer.handle, "five");
        }
        _ => panic!("the consumer is not saved"),
    }
}
