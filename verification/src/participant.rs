//! One participant's connection: a state machine from events to actions.
//!
//! The connection waits on three sources at once: the queue of internal messages, the queue of
//! messages for the client, and the client's WebSocket. Whatever arrives first is an [`Event`];
//! [`ParticipantConnection::run`] says what to do about it. Work that takes time runs in
//! background tasks, whose outcomes are decided by the functions at the end of this module.
pub mod laws;
pub mod messages;
pub mod run_laws;

pub use crate::ids::ParticipantId;
use crate::ids::{is_random_uuid, ProducerId};
use crate::media::{Consumer, Media, MediaKind, Producer, Room, TransportListenIp};
use messages::{ClientMessage, InternalMessage, Notice, ServerMessage, TransportOptions};
use std::collections::HashMap;
use vstd::prelude::*;

verus! {

/// A transport of one client, with what the client needs to connect to it.
pub struct Transport<M: Media> {
    pub options: TransportOptions<M>,
    pub handle: M::WebRtcTransport,
}

/// The pair of transports of one client.
pub struct Transports<M: Media> {
    pub consumer: Transport<M>,
    pub producer: Transport<M>,
}

/// One of the two transports of a client.
#[derive(Clone, Copy, Debug, PartialEq, Eq, Structural)]
pub enum TransportRole {
    Consumer,
    Producer,
}

/// What arrives on the client's WebSocket. `E` is what went wrong where something did.
pub enum SocketEvent<M: Media, E> {
    /// Receiving failed.
    Failed(E),
    /// A text frame: the client message in it, or why it holds none.
    Text(Result<ClientMessage<M>, E>),
    /// A binary frame.
    Binary,
    /// A ping frame with its payload.
    Ping(Vec<u8>),
    /// A pong frame.
    Pong,
    /// A close frame.
    Close,
}

/// How sending a message to the client ended.
pub enum Delivery<E> {
    /// The message was sent.
    Sent,
    /// The socket refused it.
    Refused(E),
    /// The message could not be turned into text.
    Unserializable(E),
}

/// What a connection is told. `E` is what went wrong where something did.
pub enum Event<M: Media, E> {
    /// The WebSocket is open.
    Opened,
    /// The outcome of [`Action::Greet`].
    Greeted(Delivery<E>),
    /// The outcome of [`Action::Listen`]: the producers that were in the room already.
    Listening(Vec<(ParticipantId, ProducerId)>),
    /// From the internal queue; `None` where the queue is closed.
    Internal(Option<InternalMessage<M>>),
    /// From the queue of messages for the client; `None` where the queue is closed.
    Server(Option<Notice>),
    /// From the WebSocket; `None` where it has ended.
    Socket(Option<SocketEvent<M, E>>),
    /// The outcome of [`Action::Deliver`].
    Delivered(Delivery<E>),
    /// The outcome of [`Action::Pong`].
    PongSent(Result<(), E>),
    /// The outcome of [`Action::CloseSocket`].
    SocketClosed(Result<(), E>),
}

/// Work that a connection hands to a background task.
pub enum Task<M: Media> {
    /// Connect `transport`; see [`connect_finished`].
    Connect {
        role: TransportRole,
        transport: M::WebRtcTransport,
        dtls_parameters: M::DtlsParameters,
    },
    /// Create a producer on `transport`; see [`produce_finished`].
    Produce {
        participant_id: ParticipantId,
        transport: M::WebRtcTransport,
        room: M::Room,
        kind: MediaKind,
        rtp_parameters: M::RtpParameters,
    },
    /// Create a consumer on `transport`; see [`consume_finished`].
    Consume {
        transport: M::WebRtcTransport,
        producer_id: ProducerId,
        rtp_capabilities: M::RtpCapabilities,
        paused: bool,
    },
    /// Resume `consumer`, whatever comes of it.
    Resume { consumer: Consumer<M> },
}

/// What a connection does next.
pub enum Action<M: Media, E> {
    /// Send the message to the client and report [`Event::Greeted`].
    Greet(ServerMessage<M>),
    /// Attach [`on_producer_add`] and [`on_producer_remove`] to the room and report
    /// [`Event::Listening`].
    Listen,
    /// Put the notices on the queue for the client, in order, and wait for the next event.
    Announce(Vec<Notice>),
    /// Wait for the next event.
    Wait,
    /// Send the message to the client and report [`Event::Delivered`].
    Deliver(ServerMessage<M>),
    /// Put the message on the internal queue and wait for the next event.
    Enqueue(InternalMessage<M>),
    /// Start the task in the background and wait for the next event.
    Start(Task<M>),
    /// Send a pong frame with this payload and report [`Event::PongSent`].
    Pong(Vec<u8>),
    /// Close the socket and report [`Event::SocketClosed`].
    CloseSocket,
    /// The connection has ended.
    Finish,
    /// The connection has ended with this error.
    Fail(E),
}

/// The connection of one participant to a room.
pub struct ParticipantConnection<M: Media> {
    id: ParticipantId,
    /// RTP capabilities received from the client
    client_rtp_capabilities: Option<M::RtpCapabilities>,
    /// Consumers of this client, by identifier, kept so that they are not destroyed
    consumers: HashMap<u128, Consumer<M>>,
    /// Producers of this client, kept so that they are not destroyed
    producers: Vec<Producer<M>>,
    transports: Transports<M>,
    room: Room<M>,
}

/// The state of a connection.
#[verifier::ext_equal]
pub struct ConnectionState<M: Media> {
    pub id: ParticipantId,
    pub client_rtp_capabilities: Option<M::RtpCapabilities>,
    pub consumers: Map<u128, Consumer<M>>,
    pub producers: Seq<Producer<M>>,
    pub transports: Transports<M>,
    pub room: Room<M>,
}

impl<M: Media> View for ParticipantConnection<M> {
    type V = ConnectionState<M>;

    closed spec fn view(&self) -> ConnectionState<M> {
        ConnectionState {
            id: self.id,
            client_rtp_capabilities: self.client_rtp_capabilities,
            consumers: self.consumers@,
            producers: self.producers@,
            transports: self.transports,
            room: self.room,
        }
    }
}

impl<M: Media> ConnectionState<M> {
    /// The state after `event`.
    pub open spec fn after<E>(self, event: Event<M, E>) -> ConnectionState<M> {
        match event {
            Event::Internal(Some(InternalMessage::SaveProducer(producer))) => ConnectionState {
                producers: self.producers.push(producer),
                ..self
            },
            Event::Internal(Some(InternalMessage::SaveConsumer { consumer, .. })) =>
                ConnectionState {
                consumers: self.consumers.insert(consumer.id.0, consumer),
                ..self
            },
            Event::Socket(Some(SocketEvent::Text(Ok(ClientMessage::Init { rtp_capabilities }))))
                => ConnectionState { client_rtp_capabilities: Some(rtp_capabilities), ..self },
            _ => self,
        }
    }

    /// `message` greets the client: it names the room and holds what there is to know of the
    /// client's own transports and of the room's router.
    pub open spec fn is_greeting(self, message: ServerMessage<M>) -> bool {
        message matches ServerMessage::Init {
            room_id,
            consumer_transport_options,
            producer_transport_options,
            router_rtp_capabilities,
        } && {
            &&& room_id == self.room.id
            &&& self.transports.consumer.options.same_as(consumer_transport_options)
            &&& self.transports.producer.options.same_as(producer_transport_options)
            &&& cloned::<M::RtpCapabilitiesFinalized>(
                self.room.router_rtp_capabilities,
                router_rtp_capabilities,
            )
        }
    }

    /// `action` is what a client message calls for.
    pub open spec fn answers_client<E>(
        self,
        message: ClientMessage<M>,
        action: Action<M, E>,
    ) -> bool {
        match message {
            ClientMessage::Init { .. } => action == Action::<M, E>::Wait,
            ClientMessage::ConnectProducerTransport { dtls_parameters: asked } => action matches
                Action::Start(Task::Connect { role, transport, dtls_parameters }) && {
                &&& role == TransportRole::Producer
                &&& cloned::<M::WebRtcTransport>(self.transports.producer.handle, transport)
                &&& dtls_parameters == asked
            },
            ClientMessage::ConnectConsumerTransport { dtls_parameters: asked } => action matches
                Action::Start(Task::Connect { role, transport, dtls_parameters }) && {
                &&& role == TransportRole::Consumer
                &&& cloned::<M::WebRtcTransport>(self.transports.consumer.handle, transport)
                &&& dtls_parameters == asked
            },
            ClientMessage::Produce { kind: asked_kind, rtp_parameters: asked } => action matches
                Action::Start(
                    Task::Produce { participant_id, transport, room, kind, rtp_parameters },
                ) && {
                &&& participant_id == self.id
                &&& cloned::<M::WebRtcTransport>(self.transports.producer.handle, transport)
                &&& cloned::<M::Room>(self.room.handle, room)
                &&& kind == asked_kind
                &&& rtp_parameters == asked
            },
            ClientMessage::Consume { producer_id: asked } => match self.client_rtp_capabilities {
                None => action == Action::<M, E>::Wait,
                Some(known) => action matches Action::Start(
                    Task::Consume { transport, producer_id, rtp_capabilities, paused },
                ) && {
                    &&& cloned::<M::WebRtcTransport>(self.transports.consumer.handle, transport)
                    &&& producer_id == asked
                    &&& cloned::<M::RtpCapabilities>(known, rtp_capabilities)
                    &&& paused
                },
            },
            ClientMessage::ConsumerResume { id } => if self.consumers.contains_key(id.0) {
                action matches Action::Start(Task::Resume { consumer })
                    && self.consumers[id.0].same_as(consumer)
            } else {
                action == Action::<M, E>::Wait
            },
        }
    }

    /// `action` is what `event` calls for.
    pub open spec fn answers<E>(self, event: Event<M, E>, action: Action<M, E>) -> bool {
        match event {
            Event::Opened => action matches Action::Greet(message) && self.is_greeting(message),
            Event::Greeted(Delivery::Sent) => action == Action::<M, E>::Listen,
            Event::Greeted(Delivery::Refused(error)) => action == Action::<M, E>::Fail(error),
            Event::Greeted(Delivery::Unserializable(error)) => action == Action::<M, E>::Fail(
                error,
            ),
            Event::Listening(producers) => action matches Action::Announce(notices) && notices@
                == announcements(producers@),
            Event::Internal(Some(InternalMessage::Stop)) => action == Action::<M, E>::Finish,
            Event::Internal(Some(InternalMessage::SaveConsumer { producer_id, consumer })) => action
                matches Action::Deliver(message) && tells_of(message, producer_id, consumer),
            Event::Internal(_) => action == Action::<M, E>::Wait,
            Event::Server(Some(notice)) => action == Action::<M, E>::Deliver(notice.message::<M>()),
            Event::Server(None) => action == Action::<M, E>::Wait,
            Event::Socket(None) => action == Action::<M, E>::Wait,
            Event::Socket(Some(SocketEvent::Failed(error))) => action == Action::<M, E>::Fail(
                error,
            ),
            Event::Socket(Some(SocketEvent::Text(Err(error)))) => action == Action::<M, E>::Fail(
                error,
            ),
            Event::Socket(Some(SocketEvent::Text(Ok(message)))) => self.answers_client(
                message,
                action,
            ),
            Event::Socket(Some(SocketEvent::Binary)) => action == Action::<M, E>::Wait,
            Event::Socket(Some(SocketEvent::Ping(payload))) => action == Action::<M, E>::Pong(
                payload,
            ),
            Event::Socket(Some(SocketEvent::Pong)) => action == Action::<M, E>::Wait,
            Event::Socket(Some(SocketEvent::Close)) => action == Action::<M, E>::CloseSocket,
            Event::Delivered(Delivery::Sent) => action == Action::<M, E>::Wait,
            Event::Delivered(Delivery::Refused(_)) => action == Action::<M, E>::Enqueue(
                InternalMessage::<M>::Stop,
            ),
            Event::Delivered(Delivery::Unserializable(error)) => action == Action::<M, E>::Fail(
                error,
            ),
            Event::PongSent(Ok(_)) => action == Action::<M, E>::Wait,
            Event::PongSent(Err(error)) => action == Action::<M, E>::Fail(error),
            Event::SocketClosed(Ok(_)) => action == Action::<M, E>::Finish,
            Event::SocketClosed(Err(error)) => action == Action::<M, E>::Fail(error),
        }
    }
}

/// `message` tells a client of its consumer of producer `asked`.
pub open spec fn tells_of<M: Media>(
    message: ServerMessage<M>,
    asked: ProducerId,
    consumer: Consumer<M>,
) -> bool {
    message matches ServerMessage::Consumed { id, producer_id, kind, rtp_parameters } && {
        &&& id == consumer.id
        &&& producer_id == asked
        &&& kind == consumer.kind
        &&& cloned::<M::RtpParameters>(consumer.rtp_parameters, rtp_parameters)
    }
}

/// The notices that tell a client of producers that exist already, one each, in order.
pub open spec fn announcements(producers: Seq<(ParticipantId, ProducerId)>) -> Seq<Notice> {
    producers.map_values(
        |entry: (ParticipantId, ProducerId)|
            Notice::ProducerAdded { participant_id: entry.0, producer_id: entry.1 },
    )
}

/// Builds [`announcements`].
fn announce(producers: Vec<(ParticipantId, ProducerId)>) -> (notices: Vec<Notice>)
    ensures
        notices@ == announcements(producers@),
{
    let mut notices: Vec<Notice> = Vec::new();
    let mut i: usize = 0;
    while i < producers.len()
        invariant
            i <= producers@.len(),
            notices@ == announcements(producers@.take(i as int)),
        decreases producers@.len() - i,
    {
        let (participant_id, producer_id) = producers[i];
        notices.push(Notice::ProducerAdded { participant_id, producer_id });
        proof {
            assert(producers@.take(i + 1) == producers@.take(i as int).push(producers@[i as int]));
        }
        i = i + 1;
    }
    proof {
        assert(producers@.take(i as int) == producers@);
    }
    notices
}

/// A connection whose transports are being created, the producer transport first.
pub struct PendingConnection<M: Media> {
    pub room: Room<M>,
    /// The producer transport, once it exists
    pub producer: Option<Transport<M>>,
}

/// How far setting up a connection has come.
pub enum Setup<M: Media> {
    /// Create a WebRTC transport that listens on `listen_ip`, then go on with
    /// [`PendingConnection::transport_created`].
    CreateTransport { pending: PendingConnection<M>, listen_ip: TransportListenIp },
    /// The connection is set up.
    Ready(ParticipantConnection<M>),
    /// A transport could not be created.
    Failed(String),
}

impl<M: Media> Setup<M> {
    /// A transport that listens on the loopback address is to be created for `pending`.
    pub open spec fn asks_for_transport(self, pending: PendingConnection<M>) -> bool {
        self matches Setup::CreateTransport { pending: next, listen_ip } && {
            &&& next == pending
            &&& listen_ip.ip@ == seq![127u8, 0, 0, 1]
            &&& listen_ip.announced_ip is None
        }
    }
}

impl<M: Media> ConnectionState<M> {
    /// The state in which a connection starts.
    pub open spec fn fresh(
        id: ParticipantId,
        transports: Transports<M>,
        room: Room<M>,
    ) -> ConnectionState<M> {
        ConnectionState {
            id,
            client_rtp_capabilities: None,
            consumers: Map::empty(),
            producers: Seq::empty(),
            transports,
            room,
        }
    }
}

impl<M: Media> PendingConnection<M> {
    fn create_transport(self) -> (setup: Setup<M>)
        ensures
            setup.asks_for_transport(self),
    {
        let ip: [u8; 4] = [127, 0, 0, 1];
        Setup::CreateTransport {
            pending: self,
            listen_ip: TransportListenIp { ip, announced_ip: None },
        }
    }

    /// Goes on with the transport that was asked for, or with the reason why there is none.
    ///
    /// The first transport is the producer transport, the second the consumer transport; with
    /// both the connection is ready, under a new participant identifier.
    pub fn transport_created(self, created: Result<Transport<M>, String>) -> (setup: Setup<M>)
        ensures
            match (self.producer, created) {
                (None, Ok(transport)) => setup.asks_for_transport(
                    PendingConnection { room: self.room, producer: Some(transport) },
                ),
                (None, Err(error)) => setup matches Setup::Failed(message) && message@
                    == "Failed to create producer transport: "@ + error@,
                (Some(producer), Ok(consumer)) => setup matches Setup::Ready(connection) && {
                    &&& is_random_uuid(connection@.id.0)
                    &&& connection@ == ConnectionState::<M>::fresh(
                        connection@.id,
                        Transports::<M> { consumer, producer },
                        self.room,
                    )
                },
                (Some(_), Err(error)) => setup matches Setup::Failed(message) && message@
                    == "Failed to create consumer transport: "@ + error@,
            },
    {
        match self.producer {
            None => match created {
                Ok(transport) => {
                    let pending = PendingConnection {
                        room: self.room,
                        producer: Some(transport),
                    };
                    pending.create_transport()
                },
                Err(error) => {
                    let mut message = "Failed to create producer transport: ".to_string();
                    message.append(error.as_str());
                    Setup::Failed(message)
                },
            },
            Some(producer) => match created {
                Ok(consumer) => {
                    let connection = ParticipantConnection {
                        id: ParticipantId::new(),
                        client_rtp_capabilities: None,
                        consumers: HashMap::new(),
                        producers: Vec::new(),
                        transports: Transports { consumer, producer },
                        room: self.room,
                    };
                    Setup::Ready(connection)
                },
                Err(error) => {
                    let mut message = "Failed to create consumer transport: ".to_string();
                    message.append(error.as_str());
                    Setup::Failed(message)
                },
            },
        }
    }
}

impl<M: Media> ParticipantConnection<M> {
    /// Starts setting up a connection to a room: two transports have to be created.
    pub fn new(room: Room<M>) -> (setup: Setup<M>)
        ensures
            setup.asks_for_transport(PendingConnection { room, producer: None }),
    {
        let pending = PendingConnection { room, producer: None };
        pending.create_transport()
    }

    /// The participant; it leaves the room when the connection ends.
    pub fn id(&self) -> (id: ParticipantId)
        ensures
            id == self@.id,
    {
        self.id
    }

    /// The two transports of the participant.
    pub fn transports(&self) -> (transports: &Transports<M>)
        ensures
            *transports == self@.transports,
    {
        &self.transports
    }

    /// The room that the participant is in.
    pub fn room(&self) -> (room: &Room<M>)
        ensures
            *room == self@.room,
    {
        &self.room
    }

    /// Takes the connection one event further and says what to do next.
    pub fn run<E>(&mut self, event: Event<M, E>) -> (action: Action<M, E>)
        ensures
            final(self)@ == old(self)@.after(event),
            old(self)@.answers(event, action),
    {
        match event {
            Event::Opened => Action::Greet(
                ServerMessage::Init {
                    room_id: self.room.id,
                    consumer_transport_options: self.transports.consumer.options.duplicate(),
                    producer_transport_options: self.transports.producer.options.duplicate(),
                    router_rtp_capabilities: self.room.router_rtp_capabilities.clone(),
                },
            ),
            Event::Greeted(delivery) => match delivery {
                Delivery::Sent => Action::Listen,
                Delivery::Refused(error) => Action::Fail(error),
                Delivery::Unserializable(error) => Action::Fail(error),
            },
            Event::Listening(producers) => Action::Announce(announce(producers)),
            Event::Internal(message) => match message {
                Some(InternalMessage::Stop) => Action::Finish,
                Some(InternalMessage::SaveProducer(producer)) => {
                    self.producers.push(producer);
                    Action::Wait
                },
                Some(InternalMessage::SaveConsumer { producer_id, consumer }) => {
                    // The client may ask to resume the consumer as soon as it hears of it, so
                    // the consumer is kept first.
                    let message = ServerMessage::Consumed {
                        id: consumer.id,
                        producer_id,
                        kind: consumer.kind,
                        rtp_parameters: consumer.rtp_parameters.clone(),
                    };
                    self.consumers.insert(consumer.id.0, consumer);
                    Action::Deliver(message)
                },
                None => Action::Wait,
            },
            Event::Server(notice) => match notice {
                Some(notice) => Action::Deliver(notice.into_message()),
                None => Action::Wait,
            },
            Event::Socket(received) => match received {
                None => Action::Wait,
                Some(SocketEvent::Failed(error)) => Action::Fail(error),
                Some(SocketEvent::Text(Err(error))) => Action::Fail(error),
                Some(SocketEvent::Text(Ok(message))) => self.handle_client_message(message),
                Some(SocketEvent::Binary) => Action::Wait,
                Some(SocketEvent::Ping(payload)) => Action::Pong(payload),
                Some(SocketEvent::Pong) => Action::Wait,
                Some(SocketEvent::Close) => Action::CloseSocket,
            },
            Event::Delivered(delivery) => match delivery {
                Delivery::Sent => Action::Wait,
                Delivery::Refused(_) => Action::Enqueue(InternalMessage::Stop),
                Delivery::Unserializable(error) => Action::Fail(error),
            },
            Event::PongSent(sent) => match sent {
                Ok(_) => Action::Wait,
                Err(error) => Action::Fail(error),
            },
            Event::SocketClosed(closed) => match closed {
                Ok(_) => Action::Finish,
                Err(error) => Action::Fail(error),
            },
        }
    }

    fn handle_client_message<E>(&mut self, message: ClientMessage<M>) -> (action: Action<M, E>)
        ensures
            final(self)@ == old(self)@.after(
                Event::<M, E>::Socket(Some(SocketEvent::Text(Ok(message)))),
            ),
            old(self)@.answers_client(message, action),
    {
        match message {
            ClientMessage::Init { rtp_capabilities } => {
                self.client_rtp_capabilities = Some(rtp_capabilities);
                Action::Wait
            },
            ClientMessage::ConnectProducerTransport { dtls_parameters } => Action::Start(
                Task::Connect {
                    role: TransportRole::Producer,
                    transport: self.transports.producer.handle.clone(),
                    dtls_parameters,
                },
            ),
            ClientMessage::Produce { kind, rtp_parameters } => Action::Start(
                Task::Produce {
                    participant_id: self.id,
                    transport: self.transports.producer.handle.clone(),
                    room: self.room.handle.clone(),
                    kind,
                    rtp_parameters,
                },
            ),
            ClientMessage::ConnectConsumerTransport { dtls_parameters } => Action::Start(
                Task::Connect {
                    role: TransportRole::Consumer,
                    transport: self.transports.consumer.handle.clone(),
                    dtls_parameters,
                },
            ),
            ClientMessage::Consume { producer_id } => match &self.client_rtp_capabilities {
                // The client has to send its capabilities before it can consume.
                None => Action::Wait,
                Some(rtp_capabilities) => Action::Start(
                    Task::Consume {
                        transport: self.transports.consumer.handle.clone(),
                        producer_id,
                        rtp_capabilities: rtp_capabilities.clone(),
                        paused: true,
                    },
                ),
            },
            ClientMessage::ConsumerResume { id } => match self.consumers.get(&id.0) {
                None => Action::Wait,
                Some(consumer) => Action::Start(Task::Resume { consumer: consumer.duplicate() }),
            },
        }
    }
}

/// What a participant is told of a producer that was added to the room: nothing if it is its
/// own.
pub open spec fn addition_notice(
    own: ParticipantId,
    participant_id: ParticipantId,
    producer_id: ProducerId,
) -> Option<Notice> {
    if own == participant_id {
        None
    } else {
        Some(Notice::ProducerAdded { participant_id, producer_id })
    }
}

/// What a participant is told of a producer that was removed from the room: nothing if it was
/// its own.
pub open spec fn removal_notice(
    own: ParticipantId,
    participant_id: ParticipantId,
    producer_id: ProducerId,
) -> Option<Notice> {
    if own == participant_id {
        None
    } else {
        Some(Notice::ProducerRemoved { participant_id, producer_id })
    }
}

/// The notice to put on the queue for client `own` when `participant_id` adds a producer to
/// the room.
pub fn on_producer_add(
    own: ParticipantId,
    participant_id: ParticipantId,
    producer_id: ProducerId,
) -> (notice: Option<Notice>)
    ensures
        notice == addition_notice(own, participant_id, producer_id),
{
    if own == participant_id {
        return None;
    }
    Some(Notice::ProducerAdded { participant_id, producer_id })
}

/// The notice to put on the queue for client `own` when a producer of `participant_id` leaves
/// the room.
pub fn on_producer_remove(
    own: ParticipantId,
    participant_id: ParticipantId,
    producer_id: ProducerId,
) -> (notice: Option<Notice>)
    ensures
        notice == removal_notice(own, participant_id, producer_id),
{
    if own == participant_id {
        return None;
    }
    Some(Notice::ProducerRemoved { participant_id, producer_id })
}

/// What a background task does once its work has succeeded or failed.
pub enum TaskStep<M: Media> {
    /// Put the notice on the queue for the client, and go on with whether that worked.
    Notify(Notice),
    /// Put the message on the internal queue; the task is over.
    Tell(InternalMessage<M>),
}

/// What follows an attempt to connect a transport.
pub open spec fn connect_step<M: Media>(role: TransportRole, connected: bool) -> TaskStep<M> {
    if !connected {
        TaskStep::Tell(InternalMessage::Stop)
    } else {
        match role {
            TransportRole::Producer => TaskStep::Notify(Notice::ConnectedProducerTransport),
            TransportRole::Consumer => TaskStep::Notify(Notice::ConnectedConsumerTransport),
        }
    }
}

/// Goes on after an attempt to connect a transport.
pub fn connect_finished<M: Media>(role: TransportRole, connected: bool) -> (step: TaskStep<M>)
    ensures
        step == connect_step::<M>(role, connected),
{
    if connected {
        match role {
            TransportRole::Producer => TaskStep::Notify(Notice::ConnectedProducerTransport),
            TransportRole::Consumer => TaskStep::Notify(Notice::ConnectedConsumerTransport),
        }
    } else {
        TaskStep::Tell(InternalMessage::Stop)
    }
}

/// What follows when the client was to be notified of a connected transport.
pub open spec fn connect_end<M: Media>(queued: bool) -> Option<InternalMessage<M>> {
    if queued {
        None
    } else {
        Some(InternalMessage::Stop)
    }
}

/// Goes on after the client was to be notified of a connected transport: the message for the
/// internal queue, if any.
pub fn connect_notified<M: Media>(queued: bool) -> (message: Option<InternalMessage<M>>)
    ensures
        message == connect_end::<M>(queued),
{
    if queued {
        None
    } else {
        Some(InternalMessage::Stop)
    }
}

/// What follows an attempt to create a producer.
pub open spec fn produce_step<M: Media>(created: Option<Producer<M>>) -> TaskStep<M> {
    match created {
        Some(producer) => TaskStep::Notify(Notice::Produced { id: producer.id }),
        None => TaskStep::Tell(InternalMessage::Stop),
    }
}

/// Goes on after an attempt to create a producer.
pub fn produce_finished<M: Media>(created: &Option<Producer<M>>) -> (step: TaskStep<M>)
    ensures
        step == produce_step(*created),
{
    match created {
        Some(producer) => TaskStep::Notify(Notice::Produced { id: producer.id }),
        None => TaskStep::Tell(InternalMessage::Stop),
    }
}

/// `end` is what follows when the client was to be notified of a new producer.
pub open spec fn is_produce_end<M: Media>(
    participant_id: ParticipantId,
    producer: Producer<M>,
    queued: bool,
    end: (Option<(ParticipantId, Producer<M>)>, InternalMessage<M>),
) -> bool {
    if queued {
        &&& end.0 matches Some((owner, added)) && owner == participant_id && producer.same_as(added)
        &&& end.1 == InternalMessage::SaveProducer(producer)
    } else {
        &&& end.0 is None
        &&& end.1 == InternalMessage::<M>::Stop
    }
}

/// Goes on after the client was to be notified of a new producer: the producer to add to the
/// room under the participant, if any, so that others can consume it, and then the message for
/// the internal queue.
pub fn produce_notified<M: Media>(
    participant_id: ParticipantId,
    producer: Producer<M>,
    queued: bool,
) -> (end: (Option<(ParticipantId, Producer<M>)>, InternalMessage<M>))
    ensures
        is_produce_end(participant_id, producer, queued, end),
{
    if !queued {
        return (None, InternalMessage::Stop);
    }
    let added = producer.duplicate();
    (Some((participant_id, added)), InternalMessage::SaveProducer(producer))
}

/// What follows an attempt to create a consumer of `producer_id`.
pub open spec fn consume_end<M: Media>(
    producer_id: ProducerId,
    created: Option<Consumer<M>>,
) -> InternalMessage<M> {
    match created {
        Some(consumer) => InternalMessage::SaveConsumer { producer_id, consumer },
        None => InternalMessage::Stop,
    }
}

/// Goes on after an attempt to create a consumer of `producer_id`: the message for the internal
/// queue. The connection keeps the consumer and tells the client of it.
pub fn consume_finished<M: Media>(producer_id: ProducerId, created: Option<Consumer<M>>) -> (message:
    InternalMessage<M>)
    ensures
        message == consume_end(producer_id, created),
{
    match created {
        Some(consumer) => InternalMessage::SaveConsumer { producer_id, consumer },
        None => InternalMessage::Stop,
    }
}

} // verus!
