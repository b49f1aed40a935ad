//! What holds of a connection over its whole life.
use super::messages::{ClientMessage, InternalMessage, Notice, ServerMessage};
use super::{
    addition_notice, connect_end, connect_step, consume_end, is_produce_end, produce_step,
    removal_notice, Action, ConnectionState, Delivery, Event, SocketEvent, Task, TaskStep,
    TransportRole, Transports,
};
use crate::ids::{ConsumerId, ParticipantId, ProducerId};
use crate::media::{Consumer, Media, Producer, Room};
use vstd::prelude::*;

verus! {

impl<M: Media> ConnectionState<M> {
    /// The state after all of `events`, in order.
    pub open spec fn after_all<E>(self, events: Seq<Event<M, E>>) -> ConnectionState<M>
        decreases events.len(),
    {
        if events.len() == 0 {
            self
        } else {
            self.after_all(events.drop_last()).after(events.last())
        }
    }
}

/// The capabilities that an event declares, if it is the client's `Init`.
pub open spec fn declares<M: Media, E>(event: Event<M, E>) -> Option<M::RtpCapabilities> {
    match event {
        Event::Socket(Some(SocketEvent::Text(Ok(ClientMessage::Init { rtp_capabilities }))))
            => Some(rtp_capabilities),
        _ => None,
    }
}

/// The capabilities that the client declared last.
pub open spec fn declared<M: Media, E>(events: Seq<Event<M, E>>) -> Option<M::RtpCapabilities>
    decreases events.len(),
{
    if events.len() == 0 {
        None
    } else if declares(events.last()) is Some {
        declares(events.last())
    } else {
        declared(events.drop_last())
    }
}

/// The consumer with identifier `id` that was saved last.
pub open spec fn saved_consumer<M: Media, E>(events: Seq<Event<M, E>>, id: ConsumerId) -> Option<
    Consumer<M>,
>
    decreases events.len(),
{
    if events.len() == 0 {
        None
    } else {
        match events.last() {
            Event::Internal(Some(InternalMessage::SaveConsumer { consumer, .. })) if consumer.id == id
                => Some(consumer),
            _ => saved_consumer(events.drop_last(), id),
        }
    }
}

/// The producers that were saved, in order.
pub open spec fn saved_producers<M: Media, E>(events: Seq<Event<M, E>>) -> Seq<Producer<M>>
    decreases events.len(),
{
    if events.len() == 0 {
        Seq::empty()
    } else {
        let before = saved_producers(events.drop_last());
        match events.last() {
            Event::Internal(Some(InternalMessage::SaveProducer(producer))) => before.push(producer),
            _ => before,
        }
    }
}

/// A connection keeps its participant, its transports and its room for life.
pub proof fn law_identity_is_kept<M: Media, E>(start: ConnectionState<M>, events: Seq<Event<M, E>>)
    ensures
        start.after_all(events).id == start.id,
        start.after_all(events).transports == start.transports,
        start.after_all(events).room == start.room,
    decreases events.len(),
{
    if events.len() > 0 {
        law_identity_is_kept(start, events.drop_last());
    }
}

/// The capabilities in force are those that the client declared last.
pub proof fn law_last_declared_capabilities_count<M: Media, E>(
    start: ConnectionState<M>,
    events: Seq<Event<M, E>>,
)
    ensures
        start.after_all(events).client_rtp_capabilities == if declared(events) is Some {
            declared(events)
        } else {
            start.client_rtp_capabilities
        },
    decreases events.len(),
{
    if events.len() > 0 {
        law_last_declared_capabilities_count(start, events.drop_last());
    }
}

/// No producer is ever let go: those saved are all held, in the order in which they came.
pub proof fn law_producers_are_retained<M: Media, E>(
    start: ConnectionState<M>,
    events: Seq<Event<M, E>>,
)
    ensures
        start.after_all(events).producers == start.producers + saved_producers(events),
    decreases events.len(),
{
    if events.len() > 0 {
        law_producers_are_retained(start, events.drop_last());
    }
}

/// No consumer is ever let go, except for one saved later under the same identifier.
pub proof fn law_consumers_are_retained<M: Media, E>(
    start: ConnectionState<M>,
    events: Seq<Event<M, E>>,
    id: ConsumerId,
)
    ensures
        match saved_consumer(events, id) {
            Some(consumer) => start.after_all(events).consumers.contains_key(id.0)
                && start.after_all(events).consumers[id.0] == consumer,
            None => {
                &&& start.after_all(events).consumers.contains_key(id.0)
                    == start.consumers.contains_key(id.0)
                &&& start.consumers.contains_key(id.0) ==> start.after_all(events).consumers[id.0]
                    == start.consumers[id.0]
            },
        },
    decreases events.len(),
{
    if events.len() > 0 {
        law_consumers_are_retained(start, events.drop_last(), id);
    }
}

/// A client that has not declared its capabilities gets no consumer: the request is passed over.
pub proof fn law_consuming_needs_capabilities<M: Media, E>(
    id: ParticipantId,
    transports: Transports<M>,
    room: Room<M>,
    events: Seq<Event<M, E>>,
    producer_id: ProducerId,
    action: Action<M, E>,
)
    requires
        declared(events) is None,
        ConnectionState::fresh(id, transports, room).after_all(events).answers(
            Event::Socket(Some(SocketEvent::Text(Ok(ClientMessage::Consume { producer_id })))),
            action,
        ),
    ensures
        action == Action::<M, E>::Wait,
{
    law_last_declared_capabilities_count(
        ConnectionState::fresh(id, transports, room),
        events,
    );
}

/// A client that has declared its capabilities gets a consumer created with those it declared
/// last, on its consumer transport, and paused.
pub proof fn law_consumers_start_paused<M: Media, E>(
    start: ConnectionState<M>,
    events: Seq<Event<M, E>>,
    asked: ProducerId,
    action: Action<M, E>,
)
    requires
        declared(events) is Some,
        start.after_all(events).answers(
            Event::Socket(
                Some(SocketEvent::Text(Ok(ClientMessage::Consume { producer_id: asked }))),
            ),
            action,
        ),
    ensures
        action matches Action::Start(
            Task::Consume { transport, producer_id, rtp_capabilities, paused },
        ) && {
            &&& cloned::<M::WebRtcTransport>(start.transports.consumer.handle, transport)
            &&& producer_id == asked
            &&& cloned::<M::RtpCapabilities>(declared(events)->0, rtp_capabilities)
            &&& paused
        },
{
    law_last_declared_capabilities_count(start, events);
    law_identity_is_kept(start, events);
}

/// A client is told of a consumer only once the connection holds it.
pub proof fn law_client_is_told_of_held_consumers_only<M: Media, E>(
    state: ConnectionState<M>,
    event: Event<M, E>,
    action: Action<M, E>,
)
    requires
        state.answers(event, action),
    ensures
        action matches Action::Deliver(ServerMessage::Consumed { id, kind, rtp_parameters, .. })
            ==> {
            &&& state.after(event).consumers.contains_key(id.0)
            &&& state.after(event).consumers[id.0].id == id
            &&& state.after(event).consumers[id.0].kind == kind
            &&& cloned::<M::RtpParameters>(
                state.after(event).consumers[id.0].rtp_parameters,
                rtp_parameters,
            )
        },
{
}

/// From the moment in which a client is told of a consumer, it can resume it: whatever has
/// happened since, a request to resume that identifier starts just that, for the consumer that
/// was saved last under it.
pub proof fn law_consumer_can_be_resumed_once_the_client_is_told<M: Media, E>(
    start: ConnectionState<M>,
    event: Event<M, E>,
    told: Action<M, E>,
    id: ConsumerId,
    later: Seq<Event<M, E>>,
    action: Action<M, E>,
)
    requires
        start.answers(event, told),
        told matches Action::Deliver(ServerMessage::Consumed { id: told_id, .. }) && told_id == id,
        start.after(event).after_all(later).answers(
            Event::Socket(Some(SocketEvent::Text(Ok(ClientMessage::ConsumerResume { id })))),
            action,
        ),
    ensures
        action matches Action::Start(Task::Resume { consumer }) && {
            &&& consumer.id == id
            &&& match saved_consumer(later, id) {
                Some(saved) => saved.same_as(consumer),
                None => start.after(event).consumers[id.0].same_as(consumer),
            }
        },
{
    law_consumers_are_retained(start.after(event), later, id);
    lemma_saved_consumer_has_its_identifier(later, id);
}

proof fn lemma_saved_consumer_has_its_identifier<M: Media, E>(
    events: Seq<Event<M, E>>,
    id: ConsumerId,
)
    ensures
        saved_consumer(events, id) matches Some(consumer) ==> consumer.id == id,
    decreases events.len(),
{
    if events.len() > 0 {
        lemma_saved_consumer_has_its_identifier(events.drop_last(), id);
    }
}

/// A client can resume no consumer that was not saved for it.
pub proof fn law_unknown_consumer_is_not_resumed<M: Media, E>(
    id: ParticipantId,
    transports: Transports<M>,
    room: Room<M>,
    events: Seq<Event<M, E>>,
    asked: ConsumerId,
    action: Action<M, E>,
)
    requires
        saved_consumer(events, asked) is None,
        ConnectionState::fresh(id, transports, room).after_all(events).answers(
            Event::Socket(
                Some(SocketEvent::Text(Ok(ClientMessage::ConsumerResume { id: asked }))),
            ),
            action,
        ),
    ensures
        action == Action::<M, E>::Wait,
{
    law_consumers_are_retained(
        ConnectionState::fresh(id, transports, room),
        events,
        asked,
    );
}

/// A producer whose client was notified of it is added to the room under the participant and
/// then held by the connection, after those it holds already.
pub proof fn law_notified_producer_is_shared_and_held<M: Media, E>(
    start: ConnectionState<M>,
    producer: Producer<M>,
    end: (Option<(ParticipantId, Producer<M>)>, InternalMessage<M>),
)
    requires
        is_produce_end(start.id, producer, true, end),
    ensures
        end.0 matches Some((owner, added)) && owner == start.id && producer.same_as(added),
        start.after(Event::<M, E>::Internal(Some(end.1))).producers == start.producers.push(producer),
{
}

/// Whatever goes wrong in a background task, or on the way to the client, ends in the internal
/// message that ends the connection, and a producer that the client could not be notified of is
/// not added to the room.
pub proof fn law_failures_end_the_connection<M: Media, E>(
    state: ConnectionState<M>,
    role: TransportRole,
    producer_id: ProducerId,
    producer: Producer<M>,
    produced: (Option<(ParticipantId, Producer<M>)>, InternalMessage<M>),
    error: E,
    refused: Action<M, E>,
    last: Action<M, E>,
)
    requires
        is_produce_end(state.id, producer, false, produced),
        state.answers(Event::Delivered(Delivery::Refused(error)), refused),
        state.answers(Event::Internal(Some(InternalMessage::Stop)), last),
    ensures
        connect_step::<M>(role, false) == TaskStep::Tell(InternalMessage::<M>::Stop),
        connect_end::<M>(false) == Some(InternalMessage::<M>::Stop),
        produce_step::<M>(None) == TaskStep::Tell(InternalMessage::<M>::Stop),
        produced.0 is None,
        produced.1 == InternalMessage::<M>::Stop,
        consume_end::<M>(producer_id, None) == InternalMessage::<M>::Stop,
        refused == Action::<M, E>::Enqueue(InternalMessage::<M>::Stop),
        last == Action::<M, E>::Finish,
{
}

/// What went wrong, where an event says that something went wrong on which a connection ends:
/// the greeting or a pong could not be sent, a message could not be serialised, closing the
/// socket failed, receiving failed, or the client sent text that is no message.
pub open spec fn failure<M: Media, E>(event: Event<M, E>) -> Option<E> {
    match event {
        Event::Greeted(Delivery::Refused(error)) => Some(error),
        Event::Greeted(Delivery::Unserializable(error)) => Some(error),
        Event::Delivered(Delivery::Unserializable(error)) => Some(error),
        Event::PongSent(Err(error)) => Some(error),
        Event::SocketClosed(Err(error)) => Some(error),
        Event::Socket(Some(SocketEvent::Failed(error))) => Some(error),
        Event::Socket(Some(SocketEvent::Text(Err(error)))) => Some(error),
        _ => None,
    }
}

/// A connection ends well exactly when it is told to stop or the client's closing handshake
/// succeeded, and ends with an error exactly on a [`failure`], and with the error of that.
pub proof fn law_connection_ends_only_for_cause<M: Media, E>(
    state: ConnectionState<M>,
    event: Event<M, E>,
    action: Action<M, E>,
)
    requires
        state.answers(event, action),
    ensures
        action is Finish <==> {
            ||| event == Event::<M, E>::Internal(Some(InternalMessage::Stop))
            ||| event matches Event::SocketClosed(Ok(_))
        },
        match failure(event) {
            Some(error) => action == Action::<M, E>::Fail(error),
            None => action !is Fail,
        },
{
}

/// The greeting answers the opening of the socket, and nothing else. The room is listened to
/// exactly when the greeting has been sent, and the producers found there are announced exactly
/// when the room is listened to: each once, in order.
pub proof fn law_greeting_comes_before_announcements<M: Media, E>(
    state: ConnectionState<M>,
    event: Event<M, E>,
    action: Action<M, E>,
)
    requires
        state.answers(event, action),
    ensures
        action is Greet <==> event is Opened,
        action is Listen <==> event == Event::<M, E>::Greeted(Delivery::Sent),
        action is Announce <==> event is Listening,
        action matches Action::Announce(notices) ==> event matches Event::Listening(producers)
            && notices@.len() == producers@.len() && forall|i: int|
            0 <= i < producers@.len() ==> #[trigger] notices@[i] == (Notice::ProducerAdded {
                participant_id: producers@[i].0,
                producer_id: producers@[i].1,
            }),
{
}

/// Whoever is in a room is greeted with that room's identifier and with the capabilities of its
/// router, at whatever time the connection is opened.
pub proof fn law_participants_of_a_room_are_greeted_alike<M: Media, E>(
    start: ConnectionState<M>,
    events: Seq<Event<M, E>>,
    room: Room<M>,
    action: Action<M, E>,
)
    requires
        start.room == room,
        start.after_all(events).answers(Event::<M, E>::Opened, action),
    ensures
        action matches Action::Greet(ServerMessage::Init { room_id, router_rtp_capabilities, .. })
            && room_id == room.id && cloned::<M::RtpCapabilitiesFinalized>(
            room.router_rtp_capabilities,
            router_rtp_capabilities,
        ),
{
    law_identity_is_kept(start, events);
}

/// Of every other participant's producers a client is told, both when they come and when they
/// go; of its own it is never told.
pub proof fn law_clients_hear_of_others_only(
    own: ParticipantId,
    participant_id: ParticipantId,
    producer_id: ProducerId,
)
    ensures
        addition_notice(own, own, producer_id) is None,
        removal_notice(own, own, producer_id) is None,
        own != participant_id ==> addition_notice(own, participant_id, producer_id) == Some(
            Notice::ProducerAdded { participant_id, producer_id },
        ),
        own != participant_id ==> removal_notice(own, participant_id, producer_id) == Some(
            Notice::ProducerRemoved { participant_id, producer_id },
        ),
{
}

} // verus!
