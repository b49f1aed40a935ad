//! What a participant gets for what they ask, call by call.
//!
//! Where a law speaks of a call of [`ParticipantConnection::run`], the connection before the call
//! is `*old(connection)` and the connection after it `*final(connection)`.
use super::messages::{ClientMessage, InternalMessage, Notice, ServerMessage, TransportOptions};
use super::{
    connect_finished, connect_notified, consume_finished, on_producer_add, on_producer_remove,
    produce_finished, produce_notified, Action, Delivery, Event, ParticipantConnection,
    PendingConnection, Setup, SocketEvent, Task, TaskStep, Transport, TransportRole, Transports,
};
use crate::ids::{ConsumerId, ParticipantId, ProducerId};
use crate::media::{Consumer, Media, MediaKind, Producer, Room};
use vstd::prelude::*;

verus! {

/// A client message, as it arrives.
pub open spec fn asked<M: Media, E>(message: ClientMessage<M>) -> Event<M, E> {
    Event::Socket(Some(SocketEvent::Text(Ok(message))))
}

/// A connection takes whatever arrives, in whatever state it is.
pub proof fn law_every_event_is_taken<M: Media, E>(
    connection: &mut ParticipantConnection<M>,
    event: Event<M, E>,
)
    ensures
        call_requires(ParticipantConnection::<M>::run::<E>, (connection, event)),
{
}

/// In whatever state a connection is, and whatever it holds already, a consumer that it is told
/// to save is held from then on, besides all others, and the client is told of it: of its
/// identifier, its kind, its RTP parameters and the producer that it consumes.
pub proof fn law_client_is_told_of_every_consumer<M: Media, E>(
    connection: &mut ParticipantConnection<M>,
    consumed: ProducerId,
    consumer: Consumer<M>,
    action: Action<M, E>,
)
    requires
        call_ensures(
            ParticipantConnection::<M>::run::<E>,
            (
                connection,
                Event::Internal(
                    Some(InternalMessage::SaveConsumer { producer_id: consumed, consumer }),
                ),
            ),
            action,
        ),
    ensures
        action matches Action::Deliver(
            ServerMessage::Consumed { id, producer_id, kind, rtp_parameters },
        ) && {
            &&& id == consumer.id
            &&& producer_id == consumed
            &&& kind == consumer.kind
            &&& cloned::<M::RtpParameters>(consumer.rtp_parameters, rtp_parameters)
        },
        final(connection)@.consumers.contains_key(consumer.id.0),
        final(connection)@.consumers[consumer.id.0] == consumer,
        forall|id: u128| #[trigger]
            old(connection)@.consumers.contains_key(id) ==> final(connection)@.consumers.contains_key(id),
        forall|id: u128|
            id != consumer.id.0 && #[trigger] final(connection)@.consumers.contains_key(id)
                ==> old(connection)@.consumers.contains_key(id) && final(connection)@.consumers[id]
                == old(connection)@.consumers[id],
{
}

/// A consumer that was created for a client reaches it, and can be resumed by it: the client is
/// told of it next, and if it then asks to resume it, that consumer is resumed.
pub proof fn law_created_consumer_is_told_and_resumed<M: Media, E>(
    consumed: ProducerId,
    consumer: Consumer<M>,
    message: InternalMessage<M>,
    connection: &mut ParticipantConnection<M>,
    told: Action<M, E>,
    next: &mut ParticipantConnection<M>,
    action: Action<M, E>,
)
    requires
        call_ensures(consume_finished::<M>, (consumed, Some(consumer)), message),
        call_ensures(
            ParticipantConnection::<M>::run::<E>,
            (connection, Event::Internal(Some(message))),
            told,
        ),
        *next == *final(connection),
        call_ensures(
            ParticipantConnection::<M>::run::<E>,
            (next, asked(ClientMessage::ConsumerResume { id: consumer.id })),
            action,
        ),
    ensures
        told matches Action::Deliver(ServerMessage::Consumed { id, producer_id, kind, .. }) && id
            == consumer.id && producer_id == consumed && kind == consumer.kind,
        action matches Action::Start(Task::Resume { consumer: resumed }) && {
            &&& resumed.id == consumer.id
            &&& resumed.kind == consumer.kind
            &&& cloned::<M::RtpParameters>(consumer.rtp_parameters, resumed.rtp_parameters)
            &&& cloned::<M::Consumer>(consumer.handle, resumed.handle)
        },
{
}

/// A request to resume a consumer starts just that, for the consumer that the connection holds
/// under the identifier, and nothing if it holds none. It changes nothing.
pub proof fn law_held_consumers_are_resumed_on_request<M: Media, E>(
    connection: &mut ParticipantConnection<M>,
    id: ConsumerId,
    action: Action<M, E>,
)
    requires
        call_ensures(
            ParticipantConnection::<M>::run::<E>,
            (connection, asked(ClientMessage::ConsumerResume { id })),
            action,
        ),
    ensures
        final(connection)@ == old(connection)@,
        !old(connection)@.consumers.contains_key(id.0) ==> action is Wait,
        old(connection)@.consumers.contains_key(id.0) ==> (action matches Action::Start(
            Task::Resume { consumer },
        ) && {
            let held = old(connection)@.consumers[id.0];
            &&& consumer.id == held.id
            &&& consumer.kind == held.kind
            &&& cloned::<M::RtpParameters>(held.rtp_parameters, consumer.rtp_parameters)
            &&& cloned::<M::Consumer>(held.handle, consumer.handle)
        }),
{
}

/// A request to produce, of either kind and in whatever state, starts creating a producer of the
/// kind asked for, with the RTP parameters sent, for the client's own participant, in its own
/// room and on its own producer transport.
pub proof fn law_tracks_are_produced_as_asked<M: Media, E>(
    connection: &mut ParticipantConnection<M>,
    asked_kind: MediaKind,
    sent: M::RtpParameters,
    action: Action<M, E>,
)
    requires
        call_ensures(
            ParticipantConnection::<M>::run::<E>,
            (
                connection,
                asked(ClientMessage::Produce { kind: asked_kind, rtp_parameters: sent }),
            ),
            action,
        ),
    ensures
        action matches Action::Start(
            Task::Produce { participant_id, transport, room, kind, rtp_parameters },
        ) && {
            &&& kind == asked_kind
            &&& rtp_parameters == sent
            &&& participant_id == old(connection)@.id
            &&& cloned::<M::Room>(old(connection)@.room.handle, room)
            &&& cloned::<M::WebRtcTransport>(
                old(connection)@.transports.producer.handle,
                transport,
            )
        },
        final(connection)@ == old(connection)@,
{
}

/// A request to connect one of the transports connects that transport, with the DTLS parameters
/// sent.
pub proof fn law_transports_are_connected_as_asked<M: Media, E>(
    connection: &mut ParticipantConnection<M>,
    sent: M::DtlsParameters,
    action: Action<M, E>,
    other: &mut ParticipantConnection<M>,
    other_action: Action<M, E>,
)
    requires
        call_ensures(
            ParticipantConnection::<M>::run::<E>,
            (
                connection,
                asked(ClientMessage::ConnectProducerTransport { dtls_parameters: sent }),
            ),
            action,
        ),
        call_ensures(
            ParticipantConnection::<M>::run::<E>,
            (other, asked(ClientMessage::ConnectConsumerTransport { dtls_parameters: sent })),
            other_action,
        ),
    ensures
        action matches Action::Start(Task::Connect { role, transport, dtls_parameters }) && {
            &&& role is Producer
            &&& dtls_parameters == sent
            &&& cloned::<M::WebRtcTransport>(
                old(connection)@.transports.producer.handle,
                transport,
            )
        },
        final(connection)@ == old(connection)@,
        other_action matches Action::Start(Task::Connect { role, transport, dtls_parameters }) && {
            &&& role is Consumer
            &&& dtls_parameters == sent
            &&& cloned::<M::WebRtcTransport>(old(other)@.transports.consumer.handle, transport)
        },
        final(other)@ == old(other)@,
{
}

/// A request to consume a producer starts creating a consumer of that producer, paused, on the
/// client's own consumer transport and with the capabilities that the client has declared; if it
/// has declared none, nothing is started. It changes nothing.
pub proof fn law_producers_are_consumed_as_asked<M: Media, E>(
    connection: &mut ParticipantConnection<M>,
    wanted: ProducerId,
    action: Action<M, E>,
)
    requires
        call_ensures(
            ParticipantConnection::<M>::run::<E>,
            (connection, asked(ClientMessage::Consume { producer_id: wanted })),
            action,
        ),
    ensures
        final(connection)@ == old(connection)@,
        old(connection)@.client_rtp_capabilities is None ==> action is Wait,
        old(connection)@.client_rtp_capabilities matches Some(declared) ==> (action
            matches Action::Start(
            Task::Consume { transport, producer_id, rtp_capabilities, paused },
        ) && {
            &&& producer_id == wanted
            &&& paused
            &&& cloned::<M::RtpCapabilities>(declared, rtp_capabilities)
            &&& cloned::<M::WebRtcTransport>(
                old(connection)@.transports.consumer.handle,
                transport,
            )
        }),
{
}

/// A client that declares its capabilities and then asks to consume has them used, whatever it
/// declared before. Declaring them starts nothing.
pub proof fn law_declared_capabilities_are_used<M: Media, E>(
    connection: &mut ParticipantConnection<M>,
    sent: M::RtpCapabilities,
    first: Action<M, E>,
    next: &mut ParticipantConnection<M>,
    wanted: ProducerId,
    action: Action<M, E>,
)
    requires
        call_ensures(
            ParticipantConnection::<M>::run::<E>,
            (connection, asked(ClientMessage::Init { rtp_capabilities: sent })),
            first,
        ),
        *next == *final(connection),
        call_ensures(
            ParticipantConnection::<M>::run::<E>,
            (next, asked(ClientMessage::Consume { producer_id: wanted })),
            action,
        ),
    ensures
        first is Wait,
        final(connection)@.client_rtp_capabilities == Some(sent),
        action matches Action::Start(Task::Consume { producer_id, rtp_capabilities, paused, .. })
            && producer_id == wanted && paused && cloned::<M::RtpCapabilities>(
            sent,
            rtp_capabilities,
        ),
{
}

/// `copy` holds what `options` hold, field by field.
pub open spec fn copied<M: Media>(options: TransportOptions<M>, copy: TransportOptions<M>) -> bool {
    &&& copy.id == options.id
    &&& cloned::<M::DtlsParameters>(options.dtls_parameters, copy.dtls_parameters)
    &&& cloned::<M::IceParameters>(options.ice_parameters, copy.ice_parameters)
    &&& copy.ice_candidates@.len() == options.ice_candidates@.len()
    &&& forall|i: int|
        0 <= i < copy.ice_candidates@.len() ==> cloned::<M::IceCandidate>(
            options.ice_candidates@[i],
            #[trigger] copy.ice_candidates@[i],
        )
}

/// The greeting of a connection names its room, and holds the capabilities of the room's router
/// and the options of the connection's own transports, the producer transport's as those of the
/// producer transport and the consumer transport's as those of the consumer transport.
pub proof fn law_greeting_is_about_own_room_and_transports<M: Media, E>(
    connection: &mut ParticipantConnection<M>,
    action: Action<M, E>,
)
    requires
        call_ensures(
            ParticipantConnection::<M>::run::<E>,
            (connection, Event::<M, E>::Opened),
            action,
        ),
    ensures
        action matches Action::Greet(
            ServerMessage::Init {
                room_id,
                consumer_transport_options,
                producer_transport_options,
                router_rtp_capabilities,
            },
        ) && {
            &&& room_id == old(connection)@.room.id
            &&& cloned::<M::RtpCapabilitiesFinalized>(
                old(connection)@.room.router_rtp_capabilities,
                router_rtp_capabilities,
            )
            &&& copied(old(connection)@.transports.producer.options, producer_transport_options)
            &&& copied(old(connection)@.transports.consumer.options, consumer_transport_options)
        },
        final(connection)@ == old(connection)@,
{
}

/// A connection is set up with two transports, both of which listen on 127.0.0.1. The one created
/// first is its producer transport, the one created second its consumer transport. It belongs to
/// the room that it was made for, holds nothing yet, and says so when asked.
pub proof fn law_connection_is_set_up_with_its_transports<M: Media>(
    room: Room<M>,
    first: Setup<M>,
    producer: Transport<M>,
    second: Setup<M>,
    consumer: Transport<M>,
    third: Setup<M>,
)
    requires
        call_ensures(ParticipantConnection::<M>::new, (room,), first),
        first matches Setup::CreateTransport { pending, .. } ==> call_ensures(
            PendingConnection::<M>::transport_created,
            (pending, Ok(producer)),
            second,
        ),
        second matches Setup::CreateTransport { pending, .. } ==> call_ensures(
            PendingConnection::<M>::transport_created,
            (pending, Ok(consumer)),
            third,
        ),
    ensures
        first matches Setup::CreateTransport { listen_ip, .. } && listen_ip.ip@ =~= seq![
            127u8,
            0,
            0,
            1,
        ] && listen_ip.announced_ip is None,
        second matches Setup::CreateTransport { listen_ip, .. } && listen_ip.ip@ =~= seq![
            127u8,
            0,
            0,
            1,
        ] && listen_ip.announced_ip is None,
        third matches Setup::Ready(connection) && {
            &&& connection@.room == room
            &&& connection@.transports.producer == producer
            &&& connection@.transports.consumer == consumer
            &&& connection@.client_rtp_capabilities is None
            &&& connection@.producers.len() == 0
            &&& forall|id: u128| !#[trigger] connection@.consumers.contains_key(id)
        },
{
}

/// A transport that could not be created is named in the error, together with the reason.
pub proof fn law_missing_transport_is_named<M: Media>(
    room: Room<M>,
    first: Setup<M>,
    producer: Transport<M>,
    second: Setup<M>,
    reason: String,
    no_producer: Setup<M>,
    no_consumer: Setup<M>,
)
    requires
        call_ensures(ParticipantConnection::<M>::new, (room,), first),
        first matches Setup::CreateTransport { pending, .. } ==> call_ensures(
            PendingConnection::<M>::transport_created,
            (pending, Err(reason)),
            no_producer,
        ),
        first matches Setup::CreateTransport { pending, .. } ==> call_ensures(
            PendingConnection::<M>::transport_created,
            (pending, Ok(producer)),
            second,
        ),
        second matches Setup::CreateTransport { pending, .. } ==> call_ensures(
            PendingConnection::<M>::transport_created,
            (pending, Err(reason)),
            no_consumer,
        ),
    ensures
        no_producer matches Setup::Failed(message) && message@
            == "Failed to create producer transport: "@ + reason@,
        no_consumer matches Setup::Failed(message) && message@
            == "Failed to create consumer transport: "@ + reason@,
{
}

/// A connection tells its participant, its transports and its room as they are.
pub proof fn law_connection_tells_what_it_is<M: Media>(
    connection: ParticipantConnection<M>,
    id: ParticipantId,
    transports: &Transports<M>,
    room: &Room<M>,
)
    requires
        call_ensures(ParticipantConnection::<M>::id, (&connection,), id),
        call_ensures(ParticipantConnection::<M>::transports, (&connection,), transports),
        call_ensures(ParticipantConnection::<M>::room, (&connection,), room),
    ensures
        id == connection@.id,
        transports.producer == connection@.transports.producer,
        transports.consumer == connection@.transports.consumer,
        *room == connection@.room,
{
}

/// From a connection that was set up with a producer transport and a consumer transport, whatever
/// has happened meanwhile, the greeting holds the options of just these, each in its place.
pub proof fn law_greeting_is_about_the_transports_set_up<M: Media, E>(
    pending: PendingConnection<M>,
    producer: Transport<M>,
    consumer: Transport<M>,
    set_up: ParticipantConnection<M>,
    events: Seq<Event<M, E>>,
    connection: &mut ParticipantConnection<M>,
    action: Action<M, E>,
)
    requires
        pending.producer == Some(producer),
        call_ensures(
            PendingConnection::<M>::transport_created,
            (pending, Ok(consumer)),
            Setup::Ready(set_up),
        ),
        old(connection)@ == set_up@.after_all(events),
        call_ensures(
            ParticipantConnection::<M>::run::<E>,
            (connection, Event::<M, E>::Opened),
            action,
        ),
    ensures
        action matches Action::Greet(
            ServerMessage::Init {
                room_id,
                consumer_transport_options,
                producer_transport_options,
                ..
            },
        ) && {
            &&& room_id == pending.room.id
            &&& copied(producer.options, producer_transport_options)
            &&& copied(consumer.options, consumer_transport_options)
        },
{
    super::laws::law_identity_is_kept(set_up@, events);
}

/// Whatever arrives, a connection keeps its participant, its transports and its room; it gains a
/// producer only by being told to save one, a consumer only by being told to save one, and
/// capabilities only by the client's declaring them, and loses none of these.
pub proof fn law_connection_changes_only_as_told<M: Media, E>(
    connection: &mut ParticipantConnection<M>,
    event: Event<M, E>,
    action: Action<M, E>,
)
    requires
        call_ensures(ParticipantConnection::<M>::run::<E>, (connection, event), action),
    ensures
        final(connection)@.id == old(connection)@.id,
        final(connection)@.transports == old(connection)@.transports,
        final(connection)@.room == old(connection)@.room,
        event matches Event::Internal(Some(InternalMessage::SaveProducer(producer))) ==> {
            &&& action is Wait
            &&& final(connection)@.producers.len() == old(connection)@.producers.len() + 1
            &&& final(connection)@.producers.last() == producer
            &&& final(connection)@.producers.drop_last() =~= old(connection)@.producers
        },
        !(event matches Event::Internal(Some(InternalMessage::SaveProducer(_)))) ==> final(connection)@.producers == old(connection)@.producers,
        !(event matches Event::Internal(Some(InternalMessage::SaveConsumer { .. }))) ==> final(connection)@.consumers == old(connection)@.consumers,
        !(event matches Event::Socket(Some(SocketEvent::Text(Ok(ClientMessage::Init { .. })))))
            ==> final(connection)@.client_rtp_capabilities == old(connection)@.client_rtp_capabilities,
{
}

/// A ping is answered by a pong with the same payload, a close frame by closing the socket.
/// Binary and pong frames, and the end of what the client sends, are waited past.
pub proof fn law_frames_are_answered<M: Media, E>(
    connection: &mut ParticipantConnection<M>,
    received: Option<SocketEvent<M, E>>,
    action: Action<M, E>,
)
    requires
        call_ensures(
            ParticipantConnection::<M>::run::<E>,
            (connection, Event::Socket(received)),
            action,
        ),
    ensures
        received matches Some(SocketEvent::Ping(payload)) ==> (action matches Action::Pong(answer)
            && answer == payload),
        received matches Some(SocketEvent::Close) ==> action is CloseSocket,
        received matches Some(SocketEvent::Binary) ==> action is Wait,
        received matches Some(SocketEvent::Pong) ==> action is Wait,
        received is None ==> action is Wait,
        received matches Some(SocketEvent::Failed(error)) ==> (action matches Action::Fail(reported)
            && reported == error),
        received matches Some(SocketEvent::Text(Err(error))) ==> (action matches Action::Fail(
            reported,
        ) && reported == error),
{
}

/// A connection ends well when it is told to stop or when the socket was closed, and with the
/// error at hand when the greeting, a pong or the closing failed or a message could not be
/// serialised. A message that the socket refused has the connection told to stop.
pub proof fn law_outcomes_are_acted_on<M: Media, E>(
    connection: &mut ParticipantConnection<M>,
    event: Event<M, E>,
    action: Action<M, E>,
)
    requires
        call_ensures(ParticipantConnection::<M>::run::<E>, (connection, event), action),
    ensures
        event matches Event::Internal(Some(InternalMessage::Stop)) ==> action is Finish,
        event matches Event::Internal(None) ==> action is Wait,
        event matches Event::Server(None) ==> action is Wait,
        event matches Event::Greeted(Delivery::Sent) ==> action is Listen,
        event matches Event::Greeted(Delivery::Refused(error)) ==> (action matches Action::Fail(
            reported,
        ) && reported == error),
        event matches Event::Greeted(Delivery::Unserializable(error)) ==> (action
            matches Action::Fail(reported) && reported == error),
        event matches Event::Delivered(Delivery::Sent) ==> action is Wait,
        event matches Event::Delivered(Delivery::Refused(_)) ==> action matches Action::Enqueue(
            InternalMessage::Stop,
        ),
        event matches Event::Delivered(Delivery::Unserializable(error)) ==> (action
            matches Action::Fail(reported) && reported == error),
        event matches Event::PongSent(Ok(_)) ==> action is Wait,
        event matches Event::PongSent(Err(error)) ==> (action matches Action::Fail(reported)
            && reported == error),
        event matches Event::SocketClosed(Ok(_)) ==> action is Finish,
        event matches Event::SocketClosed(Err(error)) ==> (action matches Action::Fail(reported)
            && reported == error),
{
}

/// When a connection starts to listen to its room, every producer found there is announced to the
/// client, each once, in order, under the participant that it belongs to.
pub proof fn law_every_producer_found_is_announced<M: Media, E>(
    connection: &mut ParticipantConnection<M>,
    producers: Vec<(ParticipantId, ProducerId)>,
    action: Action<M, E>,
)
    requires
        call_ensures(
            ParticipantConnection::<M>::run::<E>,
            (connection, Event::<M, E>::Listening(producers)),
            action,
        ),
    ensures
        action matches Action::Announce(notices) && notices@.len() == producers@.len() && forall|
            i: int,
        |
            0 <= i < producers@.len() ==> #[trigger] notices@[i] == (Notice::ProducerAdded {
                participant_id: producers@[i].0,
                producer_id: producers@[i].1,
            }),
{
}

/// What waits on the queue for a client is delivered to it, as it was put there.
pub proof fn law_notices_are_delivered_as_they_are<M: Media, E>(
    connection: &mut ParticipantConnection<M>,
    notice: Notice,
    action: Action<M, E>,
)
    requires
        call_ensures(
            ParticipantConnection::<M>::run::<E>,
            (connection, Event::<M, E>::Server(Some(notice))),
            action,
        ),
    ensures
        action matches Action::Deliver(message) && match notice {
            Notice::ProducerAdded { participant_id: whose, producer_id: which } => message matches
                ServerMessage::ProducerAdded { participant_id, producer_id } && participant_id
                == whose && producer_id == which,
            Notice::ProducerRemoved { participant_id: whose, producer_id: which } => message
                matches ServerMessage::ProducerRemoved { participant_id, producer_id }
                && participant_id == whose && producer_id == which,
            Notice::Produced { id: which } => message matches ServerMessage::Produced { id } && id
                == which,
            Notice::ConnectedProducerTransport => message is ConnectedProducerTransport,
            Notice::ConnectedConsumerTransport => message is ConnectedConsumerTransport,
        },
{
}

/// When another participant adds a producer to the room, the client is told that this producer of
/// that participant was added, and when the producer leaves, that it was removed. Of its own
/// producers a client is not told.
pub proof fn law_producers_of_others_are_made_known<M: Media, E>(
    own: ParticipantId,
    whose: ParticipantId,
    which: ProducerId,
    added: Option<Notice>,
    removed: Option<Notice>,
    connection: &mut ParticipantConnection<M>,
    first: Action<M, E>,
    next: &mut ParticipantConnection<M>,
    second: Action<M, E>,
)
    requires
        call_ensures(on_producer_add, (own, whose, which), added),
        call_ensures(on_producer_remove, (own, whose, which), removed),
        added is Some ==> call_ensures(
            ParticipantConnection::<M>::run::<E>,
            (connection, Event::<M, E>::Server(added)),
            first,
        ),
        removed is Some ==> call_ensures(
            ParticipantConnection::<M>::run::<E>,
            (next, Event::<M, E>::Server(removed)),
            second,
        ),
    ensures
        own == whose ==> added is None && removed is None,
        own != whose ==> {
            &&& first matches Action::Deliver(
                ServerMessage::ProducerAdded { participant_id, producer_id },
            ) && participant_id == whose && producer_id == which
            &&& second matches Action::Deliver(
                ServerMessage::ProducerRemoved { participant_id, producer_id },
            ) && participant_id == whose && producer_id == which
        },
{
}

/// When a transport was connected, the client is told that this one was, and nothing more
/// follows; when it could not be, or the client cannot be told, the connection is told to stop.
pub proof fn law_client_hears_of_its_connected_transport<M: Media, E>(
    role: TransportRole,
    connected: bool,
    step: TaskStep<M>,
    connection: &mut ParticipantConnection<M>,
    action: Action<M, E>,
    queued: bool,
    end: Option<InternalMessage<M>>,
)
    requires
        call_ensures(connect_finished::<M>, (role, connected), step),
        step matches TaskStep::Notify(notice) ==> call_ensures(
            ParticipantConnection::<M>::run::<E>,
            (connection, Event::<M, E>::Server(Some(notice))),
            action,
        ),
        call_ensures(connect_notified::<M>, (queued,), end),
    ensures
        !connected ==> step matches TaskStep::Tell(InternalMessage::Stop),
        connected && role is Producer ==> action matches Action::Deliver(
            ServerMessage::ConnectedProducerTransport,
        ),
        connected && role is Consumer ==> action matches Action::Deliver(
            ServerMessage::ConnectedConsumerTransport,
        ),
        connected ==> step is Notify,
        queued ==> end is None,
        !queued ==> end matches Some(InternalMessage::Stop),
{
}

/// When a producer was created, the client is told its identifier; it is added to the room under
/// the client's participant, and the connection holds it, after those it holds already.
pub proof fn law_created_producer_is_told_shared_and_held<M: Media, E>(
    whose: ParticipantId,
    producer: Producer<M>,
    step: TaskStep<M>,
    end: (Option<(ParticipantId, Producer<M>)>, InternalMessage<M>),
    connection: &mut ParticipantConnection<M>,
    first: Action<M, E>,
    next: &mut ParticipantConnection<M>,
    second: Action<M, E>,
)
    requires
        call_ensures(produce_finished::<M>, (&Some(producer),), step),
        call_ensures(produce_notified::<M>, (whose, producer, true), end),
        step matches TaskStep::Notify(notice) ==> call_ensures(
            ParticipantConnection::<M>::run::<E>,
            (connection, Event::<M, E>::Server(Some(notice))),
            first,
        ),
        call_ensures(
            ParticipantConnection::<M>::run::<E>,
            (next, Event::<M, E>::Internal(Some(end.1))),
            second,
        ),
    ensures
        first matches Action::Deliver(ServerMessage::Produced { id }) && id == producer.id,
        end.0 matches Some((owner, added)) && owner == whose && added.id == producer.id && cloned::<
            M::Producer,
        >(producer.handle, added.handle),
        second is Wait,
        final(next)@.producers.len() == old(next)@.producers.len() + 1,
        final(next)@.producers.last() == producer,
        final(next)@.producers.drop_last() =~= old(next)@.producers,
{
}

/// When a producer or a consumer could not be created, or the client cannot be told of its
/// producer, the connection is told to stop, and nothing is added to the room.
pub proof fn law_what_was_not_created_is_not_shared<M: Media>(
    whose: ParticipantId,
    producer: Producer<M>,
    step: TaskStep<M>,
    end: (Option<(ParticipantId, Producer<M>)>, InternalMessage<M>),
    consumed: ProducerId,
    message: InternalMessage<M>,
)
    requires
        call_ensures(produce_finished::<M>, (&None::<Producer<M>>,), step),
        call_ensures(produce_notified::<M>, (whose, producer, false), end),
        call_ensures(consume_finished::<M>, (consumed, None::<Consumer<M>>), message),
    ensures
        step matches TaskStep::Tell(InternalMessage::Stop),
        end.0 is None,
        end.1 is Stop,
        message is Stop,
{
}

/// The task of creating a consumer hands over the consumer that was created, with the producer
/// that it consumes.
pub proof fn law_created_consumer_is_handed_over<M: Media>(
    consumed: ProducerId,
    created: Consumer<M>,
    message: InternalMessage<M>,
)
    requires
        call_ensures(consume_finished::<M>, (consumed, Some(created)), message),
    ensures
        message matches InternalMessage::SaveConsumer { producer_id, consumer } && producer_id
            == consumed && consumer == created,
{
}

/// Copies are copies of all they copy.
pub proof fn law_copies_are_complete<M: Media>(
    producer: Producer<M>,
    other_producer: Producer<M>,
    consumer: Consumer<M>,
    other_consumer: Consumer<M>,
    options: TransportOptions<M>,
    other_options: TransportOptions<M>,
)
    requires
        call_ensures(Producer::<M>::duplicate, (&producer,), other_producer),
        call_ensures(Consumer::<M>::duplicate, (&consumer,), other_consumer),
        call_ensures(TransportOptions::<M>::duplicate, (&options,), other_options),
    ensures
        other_producer.id == producer.id,
        cloned::<M::Producer>(producer.handle, other_producer.handle),
        other_consumer.id == consumer.id,
        other_consumer.kind == consumer.kind,
        cloned::<M::RtpParameters>(consumer.rtp_parameters, other_consumer.rtp_parameters),
        cloned::<M::Consumer>(consumer.handle, other_consumer.handle),
        copied(options, other_options),
{
}

} // verus!
