//! The media engine as the signalling core sees it.
use crate::ids::{ConsumerId, ProducerId, RoomId};
use vstd::prelude::*;

verus! {

/// The types of the media engine that the core keeps and passes on without looking inside.
///
/// Everything the core decides, it decides from identifiers and plain values, so whatever is
/// proved of it holds for every choice of these types.
pub trait Media: Sized {
    /// Router capabilities, payload types assigned, as sent to the client on connection.
    type RtpCapabilitiesFinalized: Clone;

    /// Capabilities that a client declares.
    type RtpCapabilities: Clone;

    /// Parameters of one RTP stream.
    type RtpParameters: Clone;

    /// DTLS parameters of one side of a transport.
    type DtlsParameters: Clone;

    /// One ICE candidate of a transport.
    type IceCandidate: Clone;

    /// ICE parameters of a transport.
    type IceParameters: Clone;

    /// Handle of a WebRTC transport.
    type WebRtcTransport: Clone;

    /// Handle of a producer; the producer lives as long as some handle of it does.
    type Producer: Clone;

    /// Handle of a consumer; the consumer lives as long as some handle of it does.
    type Consumer: Clone;

    /// Handle of a room.
    type Room: Clone;
}

/// Kind of a media stream.
#[derive(Clone, Copy, Debug, PartialEq, Eq, Structural)]
pub enum MediaKind {
    Audio,
    Video,
}

/// A producer: what the core reads of it, and its handle.
pub struct Producer<M: Media> {
    pub id: ProducerId,
    pub handle: M::Producer,
}

/// A consumer: what the core reads of it, and its handle.
pub struct Consumer<M: Media> {
    pub id: ConsumerId,
    pub kind: MediaKind,
    pub rtp_parameters: M::RtpParameters,
    pub handle: M::Consumer,
}

/// A room, with what the core needs to know of it.
pub struct Room<M: Media> {
    pub id: RoomId,
    /// What the room's router can receive and send
    pub router_rtp_capabilities: M::RtpCapabilitiesFinalized,
    pub handle: M::Room,
}

impl<M: Media> Producer<M> {
    /// `other` is another handle of this producer.
    pub open spec fn same_as(self, other: Producer<M>) -> bool {
        &&& other.id == self.id
        &&& cloned::<M::Producer>(self.handle, other.handle)
    }

    /// Another handle of the same producer.
    pub fn duplicate(&self) -> (other: Producer<M>)
        ensures
            self.same_as(other),
    {
        Producer { id: self.id, handle: self.handle.clone() }
    }
}

impl<M: Media> Consumer<M> {
    /// `other` is another handle of this consumer.
    pub open spec fn same_as(self, other: Consumer<M>) -> bool {
        &&& other.id == self.id
        &&& other.kind == self.kind
        &&& cloned::<M::RtpParameters>(self.rtp_parameters, other.rtp_parameters)
        &&& cloned::<M::Consumer>(self.handle, other.handle)
    }

    /// Another handle of the same consumer.
    pub fn duplicate(&self) -> (other: Consumer<M>)
        ensures
            self.same_as(other),
    {
        Consumer {
            id: self.id,
            kind: self.kind,
            rtp_parameters: self.rtp_parameters.clone(),
            handle: self.handle.clone(),
        }
    }
}

/// The address that a transport listens on, and the address it announces instead, if any.
#[derive(Clone, Copy, Debug)]
pub struct TransportListenIp {
    pub ip: [u8; 4],
    pub announced_ip: Option<[u8; 4]>,
}

} // verus!
