//! What a consumer asks for of what a router offers.
use super::{
    capabilities_for, consumer_capabilities,
    law_capabilities_are_the_offered_ones_of_the_kind, RtpCapabilities, RtpCodecCapability,
    RtpCodecCapabilityFinalized,
};
use crate::media::MediaKind;
use vstd::prelude::*;

verus! {

/// `capability` asks for `codec` just as it is offered: the same MIME type, clock rate, channels,
/// parameters and RTCP feedback, and the codec's payload type as the preferred one.
pub open spec fn asks_for(
    capability: RtpCodecCapability,
    codec: RtpCodecCapabilityFinalized,
) -> bool {
    match codec {
        RtpCodecCapabilityFinalized::Audio {
            mime_type: offered_type,
            preferred_payload_type: offered_payload_type,
            clock_rate: offered_rate,
            channels: offered_channels,
            parameters: offered_parameters,
            rtcp_feedback: offered_feedback,
        } => capability matches RtpCodecCapability::Audio {
            mime_type,
            preferred_payload_type,
            clock_rate,
            channels,
            parameters,
            rtcp_feedback,
        } && {
            &&& mime_type == offered_type
            &&& preferred_payload_type == Some(offered_payload_type)
            &&& clock_rate == offered_rate
            &&& channels == offered_channels
            &&& parameters == offered_parameters
            &&& rtcp_feedback == offered_feedback
        },
        RtpCodecCapabilityFinalized::Video {
            mime_type: offered_type,
            preferred_payload_type: offered_payload_type,
            clock_rate: offered_rate,
            parameters: offered_parameters,
            rtcp_feedback: offered_feedback,
        } => capability matches RtpCodecCapability::Video {
            mime_type,
            preferred_payload_type,
            clock_rate,
            parameters,
            rtcp_feedback,
        } && {
            &&& mime_type == offered_type
            &&& preferred_payload_type == Some(offered_payload_type)
            &&& clock_rate == offered_rate
            &&& parameters == offered_parameters
            &&& rtcp_feedback == offered_feedback
        },
    }
}

/// `codec` carries media of `kind`.
pub open spec fn is_of(codec: RtpCodecCapabilityFinalized, kind: MediaKind) -> bool {
    match kind {
        MediaKind::Audio => codec is Audio,
        MediaKind::Video => codec is Video,
    }
}

/// One of `capabilities` asks for `codec`.
pub open spec fn some_asks_for(
    capabilities: Seq<RtpCodecCapability>,
    codec: RtpCodecCapabilityFinalized,
) -> bool {
    exists|j: int| 0 <= j < capabilities.len() && asks_for(#[trigger] capabilities[j], codec)
}

/// `capability` asks for one of `codecs` that is of `kind`.
pub open spec fn asks_for_some(
    capability: RtpCodecCapability,
    codecs: Seq<RtpCodecCapabilityFinalized>,
    kind: MediaKind,
) -> bool {
    exists|i: int|
        0 <= i < codecs.len() && is_of(#[trigger] codecs[i], kind) && asks_for(
            capability,
            codecs[i],
        )
}

/// Every codec of the kind that is offered is asked for as it is offered, and everything asked for
/// is a codec of the kind that is offered, as it is offered.
pub proof fn law_codecs_are_asked_for_as_offered(
    codecs: Vec<RtpCodecCapabilityFinalized>,
    kind: MediaKind,
    capabilities: RtpCapabilities,
)
    requires
        call_ensures(consumer_capabilities, (codecs, kind), capabilities),
    ensures
        forall|i: int|
            0 <= i < codecs@.len() && is_of(#[trigger] codecs@[i], kind) ==> some_asks_for(
                capabilities.codecs@,
                codecs@[i],
            ),
        forall|j: int|
            0 <= j < capabilities.codecs@.len() ==> asks_for_some(
                #[trigger] capabilities.codecs@[j],
                codecs@,
                kind,
            ),
        capabilities.header_extensions@.len() == 0,
{
    lemma_asked_for_as_offered(codecs@, kind);
}

pub(crate) proof fn lemma_asked_for_as_offered(
    codecs: Seq<RtpCodecCapabilityFinalized>,
    kind: MediaKind,
)
    ensures
        forall|i: int|
            0 <= i < codecs.len() && is_of(#[trigger] codecs[i], kind) ==> some_asks_for(
                capabilities_for(codecs, kind),
                codecs[i],
            ),
        forall|j: int|
            0 <= j < capabilities_for(codecs, kind).len() ==> asks_for_some(
                #[trigger] capabilities_for(codecs, kind)[j],
                codecs,
                kind,
            ),
{
    let capabilities = capabilities_for(codecs, kind);
    assert forall|i: int| 0 <= i < codecs.len() && is_of(#[trigger] codecs[i], kind) implies
        some_asks_for(capabilities, codecs[i]) by {
        let wanted = codecs[i].capability();
        law_capabilities_are_the_offered_ones_of_the_kind(codecs, kind, wanted);
        assert(codecs[i].kind() == kind);
        let j = choose|j: int| 0 <= j < capabilities.len() && capabilities[j] == wanted;
        assert(asks_for(capabilities[j], codecs[i]));
    }
    assert forall|j: int| 0 <= j < capabilities.len() implies asks_for_some(
        #[trigger] capabilities[j],
        codecs,
        kind,
    ) by {
        let wanted = capabilities[j];
        law_capabilities_are_the_offered_ones_of_the_kind(codecs, kind, wanted);
        assert(capabilities.contains(wanted));
        let i = choose|i: int|
            0 <= i < codecs.len() && (#[trigger] codecs[i]).kind() == kind
                && codecs[i].capability() == wanted;
        assert(is_of(codecs[i], kind));
        assert(asks_for(capabilities[j], codecs[i]));
    }
}

/// With one more codec offered, one more is asked for, after the others, if it is of the kind, and
/// else just what was asked for before. Of no codecs none is asked for.
pub proof fn law_one_more_codec_is_asked_for_if_of_the_kind(
    codecs: Vec<RtpCodecCapabilityFinalized>,
    more: Vec<RtpCodecCapabilityFinalized>,
    codec: RtpCodecCapabilityFinalized,
    kind: MediaKind,
    capabilities: RtpCapabilities,
    more_capabilities: RtpCapabilities,
)
    requires
        more@ == codecs@.push(codec),
        call_ensures(consumer_capabilities, (codecs, kind), capabilities),
        call_ensures(consumer_capabilities, (more, kind), more_capabilities),
    ensures
        codecs@.len() == 0 ==> capabilities.codecs@.len() == 0,
        !is_of(codec, kind) ==> more_capabilities.codecs@ == capabilities.codecs@,
        is_of(codec, kind) ==> {
            &&& more_capabilities.codecs@.len() == capabilities.codecs@.len() + 1
            &&& more_capabilities.codecs@.drop_last() == capabilities.codecs@
            &&& asks_for(more_capabilities.codecs@.last(), codec)
        },
{
    reveal(Seq::filter);
    assert(more@.drop_last() =~= codecs@);
    assert(more@.last() == codec);
    if codec.kind() == kind {
        assert(more_capabilities.codecs@ =~= capabilities.codecs@.push(codec.capability()));
    } else {
        assert(more_capabilities.codecs@ =~= capabilities.codecs@);
    }
    if is_of(codec, kind) {
        assert(more_capabilities.codecs@.drop_last() =~= capabilities.codecs@);
    }
}

} // verus!
