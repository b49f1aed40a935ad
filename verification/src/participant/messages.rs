//! Messages exchanged with the client and inside a connection.
use crate::ids::{ConsumerId, ParticipantId, ProducerId, RoomId, TransportId};
use crate::media::{Consumer, Media, MediaKind, Producer};
use vstd::prelude::*;

verus! {

/// Everything the client needs in order to connect to one transport of the server.
pub struct TransportOptions<M: Media> {
    pub id: TransportId,
    pub dtls_parameters: M::DtlsParameters,
    pub ice_candidates: Vec<M::IceCandidate>,
    pub ice_parameters: M::IceParameters,
}

impl<M: Media> TransportOptions<M> {
    /// `other` is a copy.
    pub open spec fn same_as(self, other: TransportOptions<M>) -> bool {
        &&& other.id == self.id
        &&& cloned::<M::DtlsParameters>(self.dtls_parameters, other.dtls_parameters)
        &&& other.ice_candidates@.len() == self.ice_candidates@.len()
        &&& forall|i: int|
            0 <= i < self.ice_candidates@.len() ==> cloned::<M::IceCandidate>(
                self.ice_candidates@[i],
                #[trigger] other.ice_candidates@[i],
            )
        &&& cloned::<M::IceParameters>(self.ice_parameters, other.ice_parameters)
    }

    /// A copy.
    pub fn duplicate(&self) -> (other: TransportOptions<M>)
        ensures
            self.same_as(other),
    {
        TransportOptions {
            id: self.id,
            dtls_parameters: self.dtls_parameters.clone(),
            ice_candidates: self.ice_candidates.clone(),
            ice_parameters: self.ice_parameters.clone(),
        }
    }
}

/// Messages that the server sends to the client.
pub enum ServerMessage<M: Media> {
    /// Both transports' options and the router's RTP capabilities: what the client needs to set
    /// up its side.
    Init {
        room_id: RoomId,
        consumer_transport_options: TransportOptions<M>,
        producer_transport_options: TransportOptions<M>,
        router_rtp_capabilities: M::RtpCapabilitiesFinalized,
    },
    /// A producer was added to the room.
    ProducerAdded { participant_id: ParticipantId, producer_id: ProducerId },
    /// A producer was removed from the room.
    ProducerRemoved { participant_id: ParticipantId, producer_id: ProducerId },
    /// The producer transport is connected. (On an error the connection is dropped.)
    ConnectedProducerTransport,
    /// A producer was created for this client.
    Produced { id: ProducerId },
    /// The consumer transport is connected. (On an error the connection is dropped.)
    ConnectedConsumerTransport,
    /// A consumer was created for this client, which can resume it from here on.
    Consumed {
        id: ConsumerId,
        producer_id: ProducerId,
        kind: MediaKind,
        rtp_parameters: M::RtpParameters,
    },
}

/// Messages that wait on the queue for the client.
///
/// The greeting is not among them, as it comes before the queue; nor is the news of a consumer,
/// which the connection sends itself, once it holds the consumer.
#[derive(Clone, Copy, Debug, PartialEq, Eq, Structural)]
pub enum Notice {
    /// See [`ServerMessage::ProducerAdded`].
    ProducerAdded { participant_id: ParticipantId, producer_id: ProducerId },
    /// See [`ServerMessage::ProducerRemoved`].
    ProducerRemoved { participant_id: ParticipantId, producer_id: ProducerId },
    /// See [`ServerMessage::ConnectedProducerTransport`].
    ConnectedProducerTransport,
    /// See [`ServerMessage::Produced`].
    Produced { id: ProducerId },
    /// See [`ServerMessage::ConnectedConsumerTransport`].
    ConnectedConsumerTransport,
}

impl Notice {
    /// The message that the client is sent.
    pub open spec fn message<M: Media>(self) -> ServerMessage<M> {
        match self {
            Notice::ProducerAdded { participant_id, producer_id } => ServerMessage::ProducerAdded {
                participant_id,
                producer_id,
            },
            Notice::ProducerRemoved { participant_id, producer_id } =>
                ServerMessage::ProducerRemoved { participant_id, producer_id },
            Notice::ConnectedProducerTransport => ServerMessage::ConnectedProducerTransport,
            Notice::Produced { id } => ServerMessage::Produced { id },
            Notice::ConnectedConsumerTransport => ServerMessage::ConnectedConsumerTransport,
        }
    }

    /// Makes the message that the client is sent.
    pub fn into_message<M: Media>(self) -> (message: ServerMessage<M>)
        ensures
            message == self.message::<M>(),
    {
        match self {
            Notice::ProducerAdded { participant_id, producer_id } => ServerMessage::ProducerAdded {
                participant_id,
                producer_id,
            },
            Notice::ProducerRemoved { participant_id, producer_id } =>
                ServerMessage::ProducerRemoved { participant_id, producer_id },
            Notice::ConnectedProducerTransport => ServerMessage::ConnectedProducerTransport,
            Notice::Produced { id } => ServerMessage::Produced { id },
            Notice::ConnectedConsumerTransport => ServerMessage::ConnectedConsumerTransport,
        }
    }
}

/// Messages that the client sends to the server.
pub enum ClientMessage<M: Media> {
    /// The client's RTP capabilities.
    Init { rtp_capabilities: M::RtpCapabilities },
    /// Request to connect the producer transport.
    ConnectProducerTransport { dtls_parameters: M::DtlsParameters },
    /// Request to produce a new audio or video track.
    Produce { kind: MediaKind, rtp_parameters: M::RtpParameters },
    /// Request to connect the consumer transport.
    ConnectConsumerTransport { dtls_parameters: M::DtlsParameters },
    /// Request to consume a producer.
    Consume { producer_id: ProducerId },
    /// Request to resume a consumer that was created before.
    ConsumerResume { id: ConsumerId },
}

/// Messages that a connection's background tasks send to the connection itself.
pub enum InternalMessage<M: Media> {
    /// Keep the producer, so that it is not destroyed.
    SaveProducer(Producer<M>),
    /// Keep the consumer of producer `producer_id`, so that it is not destroyed, and then tell the
    /// client of it.
    SaveConsumer { producer_id: ProducerId, consumer: Consumer<M> },
    /// End the connection.
    Stop,
}

} // verus!
