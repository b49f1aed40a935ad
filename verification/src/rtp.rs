//! RTP codecs as a router offers them, as a consumer asks for them and as a stream uses them.
pub mod laws;

use crate::media::MediaKind;
use vstd::prelude::*;

verus! {

/// Value of a codec-specific parameter.
#[derive(Debug)]
pub enum CodecParameterValue {
    Text(String),
    Number(u32),
}

/// Codec-specific parameter, such as `profile-level-id`.
#[derive(Debug)]
pub struct CodecParameter {
    pub name: String,
    pub value: CodecParameterValue,
}

/// RTCP feedback message that a codec supports.
#[derive(Clone, Copy, Debug, PartialEq, Eq, Structural)]
pub enum RtcpFeedback {
    Nack,
    NackPli,
    CcmFir,
    GoogRemb,
    TransportCc,
    Unsupported,
}

/// Codec that a router offers; its payload type is assigned.
#[derive(Debug)]
pub enum RtpCodecCapabilityFinalized {
    Audio {
        mime_type: String,
        preferred_payload_type: u8,
        clock_rate: u32,
        channels: u8,
        parameters: Vec<CodecParameter>,
        rtcp_feedback: Vec<RtcpFeedback>,
    },
    Video {
        mime_type: String,
        preferred_payload_type: u8,
        clock_rate: u32,
        parameters: Vec<CodecParameter>,
        rtcp_feedback: Vec<RtcpFeedback>,
    },
}

/// Codec that an endpoint can receive.
#[derive(Debug)]
pub enum RtpCodecCapability {
    Audio {
        mime_type: String,
        preferred_payload_type: Option<u8>,
        clock_rate: u32,
        channels: u8,
        parameters: Vec<CodecParameter>,
        rtcp_feedback: Vec<RtcpFeedback>,
    },
    Video {
        mime_type: String,
        preferred_payload_type: Option<u8>,
        clock_rate: u32,
        parameters: Vec<CodecParameter>,
        rtcp_feedback: Vec<RtcpFeedback>,
    },
}

/// Direction of an RTP header extension.
#[derive(Clone, Copy, Debug, PartialEq, Eq, Structural)]
pub enum RtpHeaderExtensionDirection {
    SendRecv,
    SendOnly,
    RecvOnly,
    Inactive,
}

/// RTP header extension that an endpoint can receive.
#[derive(Debug)]
pub struct RtpHeaderExtension {
    pub kind: MediaKind,
    pub uri: String,
    pub preferred_id: u16,
    pub preferred_encrypt: bool,
    pub direction: RtpHeaderExtensionDirection,
}

/// What an endpoint can receive.
#[derive(Debug)]
pub struct RtpCapabilities {
    pub codecs: Vec<RtpCodecCapability>,
    pub header_extensions: Vec<RtpHeaderExtension>,
}

/// Codec in use on an RTP stream.
#[derive(Debug)]
pub enum RtpCodecParameters {
    Audio { mime_type: String, payload_type: u8, clock_rate: u32, channels: u8 },
    Video { mime_type: String, payload_type: u8, clock_rate: u32 },
}

/// Parameters of an RTP stream.
#[derive(Debug)]
pub struct RtpParameters {
    pub codecs: Vec<RtpCodecParameters>,
}

impl RtpCodecCapabilityFinalized {
    /// The kind of media that the codec is for.
    pub open spec fn kind(self) -> MediaKind {
        match self {
            RtpCodecCapabilityFinalized::Audio { .. } => MediaKind::Audio,
            RtpCodecCapabilityFinalized::Video { .. } => MediaKind::Video,
        }
    }

    /// The capability to receive exactly this codec, under the payload type assigned to it.
    pub open spec fn capability(self) -> RtpCodecCapability {
        match self {
            RtpCodecCapabilityFinalized::Audio {
                mime_type,
                preferred_payload_type,
                clock_rate,
                channels,
                parameters,
                rtcp_feedback,
            } => RtpCodecCapability::Audio {
                mime_type,
                preferred_payload_type: Some(preferred_payload_type),
                clock_rate,
                channels,
                parameters,
                rtcp_feedback,
            },
            RtpCodecCapabilityFinalized::Video {
                mime_type,
                preferred_payload_type,
                clock_rate,
                parameters,
                rtcp_feedback,
            } => RtpCodecCapability::Video {
                mime_type,
                preferred_payload_type: Some(preferred_payload_type),
                clock_rate,
                parameters,
                rtcp_feedback,
            },
        }
    }
}

/// The capabilities to receive the codecs of `kind` among `codecs`, in the order given.
pub open spec fn capabilities_for(
    codecs: Seq<RtpCodecCapabilityFinalized>,
    kind: MediaKind,
) -> Seq<RtpCodecCapability> {
    codecs.filter(|codec: RtpCodecCapabilityFinalized| codec.kind() == kind).map_values(
        |codec: RtpCodecCapabilityFinalized| codec.capability(),
    )
}

/// Narrows what a router offers down to one kind of media.
pub fn consumer_capabilities(
    codecs: Vec<RtpCodecCapabilityFinalized>,
    kind: MediaKind,
) -> (capabilities: RtpCapabilities)
    ensures
        capabilities.codecs@ == capabilities_for(codecs@, kind),
        capabilities.header_extensions@.len() == 0,
{
    let ghost all = codecs@;
    let mut chosen: Vec<RtpCodecCapability> = Vec::new();
    proof {
        assert(capabilities_for(all.take(0), kind) =~= chosen@) by {
            reveal(Seq::filter);
        }
    }
    for codec in iter: codecs
        invariant
            iter.seq() == all,
            chosen@ == capabilities_for(all.take(iter.index()), kind),
    {
        let ghost before = chosen@;
        let ghost i = iter.index();
        match kind {
            MediaKind::Audio => {
                if let RtpCodecCapabilityFinalized::Audio {
                    mime_type,
                    preferred_payload_type,
                    clock_rate,
                    channels,
                    parameters,
                    rtcp_feedback,
                } = codec {
                    chosen.push(
                        RtpCodecCapability::Audio {
                            mime_type,
                            preferred_payload_type: Some(preferred_payload_type),
                            clock_rate,
                            channels,
                            parameters,
                            rtcp_feedback,
                        },
                    );
                }
            },
            MediaKind::Video => {
                if let RtpCodecCapabilityFinalized::Video {
                    mime_type,
                    preferred_payload_type,
                    clock_rate,
                    parameters,
                    rtcp_feedback,
                } = codec {
                    chosen.push(
                        RtpCodecCapability::Video {
                            mime_type,
                            preferred_payload_type: Some(preferred_payload_type),
                            clock_rate,
                            parameters,
                            rtcp_feedback,
                        },
                    );
                }
            },
        }
        proof {
            reveal(Seq::filter);
            assert(all.take(i + 1).drop_last() =~= all.take(i));
            assert(chosen@ =~= capabilities_for(all.take(i + 1), kind));
        }
    }
    proof {
        assert(all.take(all.len() as int) =~= all);
    }
    RtpCapabilities { codecs: chosen, header_extensions: Vec::new() }
}

/// A consumer asks for a codec exactly if the router offers it and it is of the wanted kind.
pub proof fn law_capabilities_are_the_offered_ones_of_the_kind(
    codecs: Seq<RtpCodecCapabilityFinalized>,
    kind: MediaKind,
    capability: RtpCodecCapability,
)
    ensures
        capabilities_for(codecs, kind).contains(capability) <==> exists|i: int|
            0 <= i < codecs.len() && (#[trigger] codecs[i]).kind() == kind && codecs[i].capability()
                == capability,
    decreases codecs.len(),
{
    reveal(Seq::filter);
    let capabilities = capabilities_for(codecs, kind);
    if codecs.len() > 0 {
        let shorter = codecs.drop_last();
        let fewer = capabilities_for(shorter, kind);
        law_capabilities_are_the_offered_ones_of_the_kind(shorter, kind, capability);
        if codecs.last().kind() == kind {
            assert(capabilities =~= fewer.push(codecs.last().capability()));
        } else {
            assert(capabilities =~= fewer);
        }
        if fewer.contains(capability) {
            let i = choose|i: int|
                0 <= i < shorter.len() && (#[trigger] shorter[i]).kind() == kind
                    && shorter[i].capability() == capability;
            assert(codecs[i] == shorter[i]);
            let j = choose|j: int| 0 <= j < fewer.len() && fewer[j] == capability;
            assert(capabilities[j] == capability);
        }
        if codecs.last().kind() == kind && codecs.last().capability() == capability {
            assert(codecs[codecs.len() - 1].capability() == capability);
            assert(capabilities[capabilities.len() - 1] == capability);
        }
        assert forall|i: int|
            0 <= i < codecs.len() && (#[trigger] codecs[i]).kind() == kind
                && codecs[i].capability() == capability implies capabilities.contains(
            capability,
        ) by {
            if i < shorter.len() {
                assert(shorter[i] == codecs[i]);
            }
        }
    }
}

} // verus!
