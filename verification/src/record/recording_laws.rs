//! What a recording is told of the streams that it records.
use super::laws::{law_mime_type_names_its_codec, lemma_meaning_of_json, occurs_in, plain};
use super::{
    create_sdp_text, get_codec_info_from_rtp_parameters, json_chars,
    publish_producer_rtp_stream, serializable_to_string, CodecInfo, Publication, RecordInfo,
    Recorder,
};
use crate::ids::ProducerId;
use crate::media::MediaKind;
use crate::rtp::laws::{asks_for_some, is_of, lemma_asked_for_as_offered, some_asks_for};
use crate::rtp::{
    consumer_capabilities, RtpCapabilities, RtpCodecCapabilityFinalized, RtpCodecParameters,
    RtpParameters,
};
use crate::text::laws::law_decimal_denotes_its_number;
use crate::text::{decimal, remove_all, without};
use vstd::prelude::*;
use vstd::string::*;
use vstd::utf8::encode_utf8;

verus! {

/// A stream is published from the address 192.168.0.108 to the local port given, unencrypted and
/// without a port of its own for RTCP, by a paused consumer of the producer given, in every codec
/// of the producer's kind that the router offers, each as it is offered, and in no other.
pub proof fn law_stream_is_published_as_asked(
    router_codecs: Vec<RtpCodecCapabilityFinalized>,
    producer_id: ProducerId,
    media_kind: MediaKind,
    remote_port: u16,
    publication: Publication,
)
    requires
        call_ensures(
            publish_producer_rtp_stream,
            (router_codecs, producer_id, media_kind, remote_port),
            publication,
        ),
    ensures
        publication.remote.port == remote_port,
        publication.remote.ip@ =~= seq![127u8, 0, 0, 1],
        publication.remote.rtcp_port is None,
        publication.remote.srtp_parameters is None,
        publication.listen_ip.ip@ =~= seq![192u8, 168, 0, 108],
        publication.listen_ip.announced_ip is None,
        publication.consumer.producer_id == producer_id,
        publication.consumer.paused,
        publication.media_kind == media_kind,
        forall|i: int|
            0 <= i < router_codecs@.len() && is_of(#[trigger] router_codecs@[i], media_kind)
                ==> some_asks_for(
                publication.consumer.rtp_capabilities.codecs@,
                router_codecs@[i],
            ),
        forall|j: int|
            0 <= j < publication.consumer.rtp_capabilities.codecs@.len() ==> asks_for_some(
                #[trigger] publication.consumer.rtp_capabilities.codecs@[j],
                router_codecs@,
                media_kind,
            ),
        publication.consumer.rtp_capabilities.header_extensions@.len() == 0,
{
    lemma_asked_for_as_offered(router_codecs@, media_kind);
}

/// The consumer of a published stream asks for just what
/// [`consumer_capabilities`] makes of the router's offer, in the same order.
pub proof fn law_publication_asks_for_the_codecs_of_its_kind(
    router_codecs: Vec<RtpCodecCapabilityFinalized>,
    producer_id: ProducerId,
    media_kind: MediaKind,
    remote_port: u16,
    publication: Publication,
    capabilities: RtpCapabilities,
)
    requires
        call_ensures(
            publish_producer_rtp_stream,
            (router_codecs, producer_id, media_kind, remote_port),
            publication,
        ),
        call_ensures(consumer_capabilities, (router_codecs, media_kind), capabilities),
    ensures
        publication.consumer.rtp_capabilities.codecs@ == capabilities.codecs@,
{
}

/// What is known of a published stream is the port and the kind that were asked for, the
/// capabilities that its consumer was created with, and the RTP parameters that the consumer has.
pub proof fn law_published_stream_is_known_as_it_is(
    router_codecs: Vec<RtpCodecCapabilityFinalized>,
    producer_id: ProducerId,
    media_kind: MediaKind,
    remote_port: u16,
    publication: Publication,
    rtp_parameters: RtpParameters,
    info: RecordInfo,
)
    requires
        call_ensures(
            publish_producer_rtp_stream,
            (router_codecs, producer_id, media_kind, remote_port),
            publication,
        ),
        call_ensures(Publication::finish, (publication, rtp_parameters), info),
    ensures
        info.remote_port == remote_port,
        info.media_kind == media_kind,
        info.rtp_capabilities == publication.consumer.rtp_capabilities,
        info.rtp_parameters == rtp_parameters,
{
}

/// What is said of a stream is said of its first codec: its payload type, its clock rate, the
/// number of channels for audio and none for video, and as its name what is left of the JSON form
/// of its MIME type without `audio/` or `video/`. Of a stream without codecs nothing is said.
pub proof fn law_codec_info_is_that_of_the_first_codec(
    info: RecordInfo,
    codec_info: Option<CodecInfo>,
    mime_type: &str,
    form: String,
    form_text: &str,
    top_level_type: &str,
    name: String,
)
    requires
        call_ensures(get_codec_info_from_rtp_parameters, (&info,), codec_info),
        info.rtp_parameters.codecs@.len() > 0 ==> match info.rtp_parameters.codecs@[0] {
            RtpCodecParameters::Audio { mime_type: used, .. } => mime_type@ == used@
                && top_level_type@ == "audio/"@,
            RtpCodecParameters::Video { mime_type: used, .. } => mime_type@ == used@
                && top_level_type@ == "video/"@,
        },
        call_ensures(serializable_to_string, (mime_type,), form),
        form_text@ == form@,
        call_ensures(remove_all, (form_text, top_level_type), name),
    ensures
        codec_info is None <==> info.rtp_parameters.codecs@.len() == 0,
        codec_info matches Some(found) ==> {
            &&& found.codec_name@ == name@
            &&& match info.rtp_parameters.codecs@[0] {
                RtpCodecParameters::Audio { payload_type, clock_rate, channels, .. } => {
                    &&& found.payload_type == payload_type
                    &&& found.clock_rate == clock_rate
                    &&& found.channels == Some(channels)
                },
                RtpCodecParameters::Video { payload_type, clock_rate, .. } => {
                    &&& found.payload_type == payload_type
                    &&& found.clock_rate == clock_rate
                    &&& found.channels is None
                },
            }
        },
{
}

/// A stream whose first codec has the MIME type `audio/<name>` or `video/<name>` is said to be in
/// `<name>`.
pub proof fn law_codec_info_names_the_codec(
    info: RecordInfo,
    codec_info: Option<CodecInfo>,
    name: Seq<char>,
)
    requires
        call_ensures(get_codec_info_from_rtp_parameters, (&info,), codec_info),
        info.rtp_parameters.codecs@.len() > 0,
        plain(name),
        match info.rtp_parameters.codecs@[0] {
            RtpCodecParameters::Audio { mime_type, .. } => mime_type@ == "audio/"@ + name
                && !occurs_in("audio/"@, name),
            RtpCodecParameters::Video { mime_type, .. } => mime_type@ == "video/"@ + name
                && !occurs_in("video/"@, name),
        },
    ensures
        codec_info matches Some(found) && found.codec_name@ == name,
{
    law_mime_type_names_its_codec(info.rtp_parameters.codecs@[0], name);
}

/// The lines of a text: what stands before, between and behind its line feeds.
pub open spec fn lines(text: Seq<char>) -> Seq<Seq<char>>
    decreases text.len(),
{
    if text.len() == 0 {
        seq![Seq::empty()]
    } else {
        let before = lines(text.drop_last());
        if text.last() == '\n' {
            before.push(Seq::empty())
        } else {
            before.drop_last().push(before.last().push(text.last()))
        }
    }
}

/// `text` is all on one line.
pub open spec fn on_one_line(text: Seq<char>) -> bool {
    forall|i: int| 0 <= i < text.len() ==> #[trigger] text[i] != '\n'
}

proof fn lemma_lines_of_more(text: Seq<char>, line: Seq<char>)
    requires
        on_one_line(line),
    ensures
        lines(text).len() > 0,
        lines(text + line) == lines(text).drop_last().push(lines(text).last() + line),
    decreases text.len() + line.len(),
{
    if line.len() == 0 {
        assert(text + line =~= text);
        assert(lines(text).len() > 0) by {
            if text.len() > 0 {
                lemma_lines_of_more(text.drop_last(), Seq::empty());
            }
        }
        assert(lines(text).last() + line =~= lines(text).last());
        assert(lines(text).drop_last().push(lines(text).last()) =~= lines(text));
    } else {
        let shorter = line.drop_last();
        assert(on_one_line(shorter)) by {
            assert forall|i: int| 0 <= i < shorter.len() implies #[trigger] shorter[i] != '\n' by {
                assert(shorter[i] == line[i]);
            }
        }
        lemma_lines_of_more(text, shorter);
        assert((text + line).drop_last() =~= text + shorter);
        assert((text + line).last() == line[line.len() - 1]);
        let before = lines(text + shorter);
        assert(before.drop_last() =~= lines(text).drop_last());
        assert(before.last().push(line.last()) =~= lines(text).last() + line);
        assert(lines(text + line) =~= lines(text).drop_last().push(lines(text).last() + line));
    }
}

/// A line that is added to `text`, with a line feed before it, is one more of its lines.
proof fn lemma_next_line(text: Seq<char>, line: Seq<char>)
    requires
        on_one_line(line),
    ensures
        lines(text + seq!['\n'] + line) == lines(text).push(line),
{
    let open = text + seq!['\n'];
    assert(open.drop_last() =~= text);
    assert(lines(open) == lines(text).push(Seq::empty()));
    lemma_lines_of_more(open, line);
    assert(Seq::<char>::empty() + line =~= line);
    assert(lines(open).drop_last() =~= lines(text));
}

proof fn lemma_without_is_on_one_line(text: Seq<char>, pattern: Seq<char>)
    requires
        on_one_line(text),
    ensures
        on_one_line(without(text, pattern)),
    decreases text.len(),
{
    if pattern.len() == 0 || text.len() < pattern.len() {
    } else if text.take(pattern.len() as int) == pattern {
        lemma_without_is_on_one_line(text.skip(pattern.len() as int), pattern);
    } else {
        lemma_without_is_on_one_line(text.skip(1), pattern);
    }
}

proof fn lemma_codec_name_is_on_one_line(codec: RtpCodecParameters)
    ensures
        on_one_line(codec.codec_name()),
{
    match codec {
        RtpCodecParameters::Audio { mime_type, .. } => {
            lemma_meaning_of_json(mime_type@);
            assert(on_one_line(json_chars(mime_type@)));
            lemma_without_is_on_one_line(json_chars(mime_type@), "audio/"@);
        },
        RtpCodecParameters::Video { mime_type, .. } => {
            lemma_meaning_of_json(mime_type@);
            assert(on_one_line(json_chars(mime_type@)));
            lemma_without_is_on_one_line(json_chars(mime_type@), "video/"@);
        },
    }
}

proof fn lemma_joined(a: Seq<char>, b: Seq<char>)
    ensures
        on_one_line(a) && on_one_line(b) ==> on_one_line(a + b),
{
}

proof fn lemma_regrouped(a: Seq<char>, b: Seq<char>, c: Seq<char>)
    ensures
        a + b + c == a + (b + c),
{
    assert(a + b + c =~= a + (b + c));
}

/// What stands before the port of the video stream.
proof fn lemma_opening_lines() -> (opening: Seq<char>)
    ensures
        lines(opening) == seq![
            "v=0"@,
            "  o=- 0 0 IN IP4 127.0.0.1"@,
            "  s=FFmpeg"@,
            "  c=IN IP4 127.0.0.1"@,
            "  t=0 0"@,
        ],
        opening + seq!['\n'] + "  m=video "@
            == "v=0\n  o=- 0 0 IN IP4 127.0.0.1\n  s=FFmpeg\n  c=IN IP4 127.0.0.1\n  t=0 0\n  m=video "@,
{
    reveal_strlit(
        "v=0\n  o=- 0 0 IN IP4 127.0.0.1\n  s=FFmpeg\n  c=IN IP4 127.0.0.1\n  t=0 0\n  m=video ",
    );
    reveal_strlit("v=0");
    reveal_strlit("  o=- 0 0 IN IP4 127.0.0.1");
    reveal_strlit("  s=FFmpeg");
    reveal_strlit("  c=IN IP4 127.0.0.1");
    reveal_strlit("  t=0 0");
    reveal_strlit("  m=video ");
    let t0 = "v=0"@;
    let t1 = t0 + seq!['\n'] + "  o=- 0 0 IN IP4 127.0.0.1"@;
    let t2 = t1 + seq!['\n'] + "  s=FFmpeg"@;
    let t3 = t2 + seq!['\n'] + "  c=IN IP4 127.0.0.1"@;
    let t4 = t3 + seq!['\n'] + "  t=0 0"@;
    assert(lines(t0) =~= seq![t0]) by {
        lemma_lines_of_more(Seq::empty(), t0);
        assert(Seq::<char>::empty() + t0 =~= t0);
    }
    lemma_next_line(t0, "  o=- 0 0 IN IP4 127.0.0.1"@);
    lemma_next_line(t1, "  s=FFmpeg"@);
    lemma_next_line(t2, "  c=IN IP4 127.0.0.1"@);
    lemma_next_line(t3, "  t=0 0"@);
    assert(lines(t4) =~= seq![
        "v=0"@,
        "  o=- 0 0 IN IP4 127.0.0.1"@,
        "  s=FFmpeg"@,
        "  c=IN IP4 127.0.0.1"@,
        "  t=0 0"@,
    ]);
    assert(t4 + seq!['\n'] + "  m=video "@
        =~= "v=0\n  o=- 0 0 IN IP4 127.0.0.1\n  s=FFmpeg\n  c=IN IP4 127.0.0.1\n  t=0 0\n  m=video "@);
    t4
}

/// A line on a stream, behind a line feed: its head, the port and the payload type.
proof fn lemma_media_line(text: Seq<char>, head: Seq<char>, port: nat, payload_type: nat)
    requires
        on_one_line(head),
    ensures
        lines(
            text + seq!['\n'] + head + decimal(port) + " RTP/AVP "@ + decimal(payload_type),
        ) == lines(text).push(head + decimal(port) + " RTP/AVP "@ + decimal(payload_type)),
{
    reveal_strlit(" RTP/AVP ");
    law_decimal_denotes_its_number(port);
    law_decimal_denotes_its_number(payload_type);
    let open = text + seq!['\n'];
    let l1 = head + decimal(port);
    let l2 = l1 + " RTP/AVP "@;
    lemma_joined(head, decimal(port));
    lemma_joined(l1, " RTP/AVP "@);
    lemma_joined(l2, decimal(payload_type));
    lemma_regrouped(open, head, decimal(port));
    lemma_regrouped(open, l1, " RTP/AVP "@);
    lemma_regrouped(open, l2, decimal(payload_type));
    lemma_next_line(text, l2 + decimal(payload_type));
}

/// The line on a codec, with the line feed before it.
proof fn lemma_codec_line(text: Seq<char>, payload_type: nat, name: Seq<char>, clock_rate: nat)
    requires
        on_one_line(name),
    ensures
        ({
            let line = "  a=rtpmap:"@ + decimal(payload_type) + " "@ + name + "/"@ + decimal(
                clock_rate,
            );
            let all = text + "\n  a=rtpmap:"@ + decimal(payload_type) + " "@ + name + "/"@
                + decimal(clock_rate);
            &&& on_one_line(line)
            &&& all == text + seq!['\n'] + line
            &&& lines(all) == lines(text).push(line)
        }),
{
    reveal_strlit("\n  a=rtpmap:");
    reveal_strlit("  a=rtpmap:");
    reveal_strlit(" ");
    reveal_strlit("/");
    law_decimal_denotes_its_number(payload_type);
    law_decimal_denotes_its_number(clock_rate);
    let open = text + seq!['\n'];
    let l0 = "  a=rtpmap:"@;
    let l1 = l0 + decimal(payload_type);
    let l2 = l1 + " "@;
    let l3 = l2 + name;
    let l4 = l3 + "/"@;
    let l5 = l4 + decimal(clock_rate);
    lemma_joined(l0, decimal(payload_type));
    lemma_joined(l1, " "@);
    lemma_joined(l2, name);
    lemma_joined(l3, "/"@);
    lemma_joined(l4, decimal(clock_rate));
    assert(text + "\n  a=rtpmap:"@ =~= open + l0);
    lemma_regrouped(open, l0, decimal(payload_type));
    lemma_regrouped(open, l1, " "@);
    lemma_regrouped(open, l2, name);
    lemma_regrouped(open, l3, "/"@);
    lemma_regrouped(open, l4, decimal(clock_rate));
    lemma_next_line(text, l5);
}

/// The SDP text of a video and an audio stream has just these lines. The line on video names the
/// port and the payload type of the video stream, the line on audio those of the audio stream,
/// whatever they are; each is followed by what is known of that stream's codec.
pub proof fn law_sdp_text_describes_each_stream(
    video_info: RecordInfo,
    audio_info: RecordInfo,
    video: CodecInfo,
    audio: CodecInfo,
    sdp: String,
)
    requires
        video_info.rtp_parameters.codecs@.len() > 0,
        audio_info.rtp_parameters.codecs@.len() > 0,
        audio_info.rtp_parameters.codecs@[0] is Audio,
        call_ensures(get_codec_info_from_rtp_parameters, (&video_info,), Some(video)),
        call_ensures(get_codec_info_from_rtp_parameters, (&audio_info,), Some(audio)),
        call_ensures(create_sdp_text, (&video_info, &audio_info), sdp),
    ensures
        audio.channels is Some,
        lines(sdp@).len() == 12,
        lines(sdp@)[0] == "v=0"@,
        lines(sdp@)[1] == "  o=- 0 0 IN IP4 127.0.0.1"@,
        lines(sdp@)[2] == "  s=FFmpeg"@,
        lines(sdp@)[3] == "  c=IN IP4 127.0.0.1"@,
        lines(sdp@)[4] == "  t=0 0"@,
        lines(sdp@)[5] == "  m=video "@ + decimal(video_info.remote_port as nat) + " RTP/AVP "@
            + decimal(video.payload_type as nat),
        lines(sdp@)[6] == "  a=rtpmap:"@ + decimal(video.payload_type as nat) + " "@
            + video.codec_name@ + "/"@ + decimal(video.clock_rate as nat),
        lines(sdp@)[7] == "  a=sendonly"@,
        lines(sdp@)[8] == "  m=audio "@ + decimal(audio_info.remote_port as nat) + " RTP/AVP "@
            + decimal(audio.payload_type as nat),
        lines(sdp@)[9] == "  a=rtpmap:"@ + decimal(audio.payload_type as nat) + " "@
            + audio.codec_name@ + "/"@ + decimal(audio.clock_rate as nat) + "/"@ + decimal(
            audio.channels->0 as nat,
        ),
        lines(sdp@)[10] == "  a=sendonly"@,
        lines(sdp@)[11] == "  "@,
{
    reveal_strlit("\n  a=sendonly\n  m=audio ");
    reveal_strlit("\n  a=sendonly\n  ");
    reveal_strlit("  a=sendonly");
    reveal_strlit("  m=video ");
    reveal_strlit("  m=audio ");
    reveal_strlit("  ");
    reveal_strlit("/");
    lemma_codec_name_is_on_one_line(video_info.rtp_parameters.codecs@[0]);
    lemma_codec_name_is_on_one_line(audio_info.rtp_parameters.codecs@[0]);
    let channels = audio.channels->0 as nat;
    law_decimal_denotes_its_number(channels);
    let opening = lemma_opening_lines();
    lemma_media_line(
        opening,
        "  m=video "@,
        video_info.remote_port as nat,
        video.payload_type as nat,
    );
    let t5 = opening + seq!['\n'] + "  m=video "@ + decimal(video_info.remote_port as nat)
        + " RTP/AVP "@ + decimal(video.payload_type as nat);
    lemma_codec_line(
        t5,
        video.payload_type as nat,
        video.codec_name@,
        video.clock_rate as nat,
    );
    let t6 = t5 + "\n  a=rtpmap:"@ + decimal(video.payload_type as nat) + " "@ + video.codec_name@
        + "/"@ + decimal(video.clock_rate as nat);
    let t7 = t6 + seq!['\n'] + "  a=sendonly"@;
    lemma_next_line(t6, "  a=sendonly"@);
    assert(t6 + "\n  a=sendonly\n  m=audio "@ =~= t7 + seq!['\n'] + "  m=audio "@);
    lemma_media_line(t7, "  m=audio "@, audio_info.remote_port as nat, audio.payload_type as nat);
    let t8 = t7 + seq!['\n'] + "  m=audio "@ + decimal(audio_info.remote_port as nat)
        + " RTP/AVP "@ + decimal(audio.payload_type as nat);
    lemma_codec_line(
        t8,
        audio.payload_type as nat,
        audio.codec_name@,
        audio.clock_rate as nat,
    );
    let line = "  a=rtpmap:"@ + decimal(audio.payload_type as nat) + " "@ + audio.codec_name@
        + "/"@ + decimal(audio.clock_rate as nat);
    let t9 = t8 + "\n  a=rtpmap:"@ + decimal(audio.payload_type as nat) + " "@ + audio.codec_name@
        + "/"@ + decimal(audio.clock_rate as nat) + "/"@ + decimal(channels);
    let open = t8 + seq!['\n'];
    lemma_joined(line, "/"@);
    lemma_joined(line + "/"@, decimal(channels));
    lemma_regrouped(open, line, "/"@);
    lemma_regrouped(open, line + "/"@, decimal(channels));
    lemma_next_line(t8, line + "/"@ + decimal(channels));
    let t10 = t9 + seq!['\n'] + "  a=sendonly"@;
    lemma_next_line(t9, "  a=sendonly"@);
    lemma_next_line(t10, "  "@);
    assert(t9 + "\n  a=sendonly\n  "@ =~= t10 + seq!['\n'] + "  "@);
    assert(sdp@ == t9 + "\n  a=sendonly\n  "@);
}

/// Any two streams can be described and recorded, if both have a codec and the audio stream's is
/// one for audio.
pub proof fn law_streams_with_codecs_can_be_recorded<C>(
    video_info: RecordInfo,
    audio_info: RecordInfo,
    consumers: Vec<C>,
)
    requires
        video_info.rtp_parameters.codecs@.len() > 0,
        audio_info.rtp_parameters.codecs@.len() > 0,
        audio_info.rtp_parameters.codecs@[0] is Audio,
    ensures
        call_requires(create_sdp_text, (&video_info, &audio_info)),
        call_requires(Recorder::<C>::start_record, (&video_info, &audio_info, consumers)),
{
}

/// A recording reads the SDP text of its two streams, ended by a zero byte, and resumes the
/// consumers given, a second later.
pub proof fn law_recorder_reads_the_sdp_text_of_its_streams<C>(
    video_info: RecordInfo,
    audio_info: RecordInfo,
    consumers: Vec<C>,
    sdp: String,
    recorder: Recorder<C>,
)
    requires
        video_info.rtp_parameters.codecs@.len() > 0,
        audio_info.rtp_parameters.codecs@.len() > 0,
        audio_info.rtp_parameters.codecs@[0] is Audio,
        call_ensures(create_sdp_text, (&video_info, &audio_info), sdp),
        call_ensures(Recorder::<C>::start_record, (&video_info, &audio_info, consumers), recorder),
    ensures
        recorder.input@.len() > 0,
        recorder.input@.last() == 0,
        recorder.input@.drop_last() == encode_utf8(sdp@),
        recorder.consumers == consumers,
        recorder.resume_delay_secs == 1,
{
    assert(recorder.input@.drop_last() =~= encode_utf8(sdp@));
}

/// Every recording runs `ffmpeg` in the same way: it reads an SDP text from its standard input,
/// picks the first video and the first audio stream, and copies both.
pub proof fn law_recordings_run_the_same_program<C>(
    video_info: RecordInfo,
    audio_info: RecordInfo,
    consumers: Vec<C>,
    recorder: Recorder<C>,
)
    requires
        video_info.rtp_parameters.codecs@.len() > 0,
        audio_info.rtp_parameters.codecs@.len() > 0,
        audio_info.rtp_parameters.codecs@[0] is Audio,
        call_ensures(Recorder::<C>::start_record, (&video_info, &audio_info, consumers), recorder),
    ensures
        recorder.program@ == "ffmpeg"@,
        recorder.arguments@.len() == 23,
        recorder.arguments@[0]@ == "-loglevel"@,
        recorder.arguments@[1]@ == "debug"@,
        recorder.arguments@[2]@ == "-protocol_whitelist"@,
        recorder.arguments@[3]@ == "pipe,udp,rtp"@,
        recorder.arguments@[4]@ == "-fflags"@,
        recorder.arguments@[5]@ == "+genpts"@,
        recorder.arguments@[6]@ == "-f"@,
        recorder.arguments@[7]@ == "sdp"@,
        recorder.arguments@[8]@ == "-i"@,
        recorder.arguments@[9]@ == "pipe:0"@,
        recorder.arguments@[10]@ == "-map"@,
        recorder.arguments@[11]@ == "0:v:0"@,
        recorder.arguments@[12]@ == "-c:v"@,
        recorder.arguments@[13]@ == "copy"@,
        recorder.arguments@[14]@ == "-map"@,
        recorder.arguments@[15]@ == "0:a:0"@,
        recorder.arguments@[16]@ == "-strict"@,
        recorder.arguments@[17]@ == "-2"@,
        recorder.arguments@[18]@ == "-c:a"@,
        recorder.arguments@[19]@ == "copy"@,
        recorder.arguments@[20]@ == "-flags"@,
        recorder.arguments@[21]@ == "+global_header"@,
        recorder.arguments@[22]@ == "./fuckme.webm"@,
{
    let shown = recorder.arguments@.map_values(|argument: &'static str| argument@);
    assert(shown.len() == 23);
    assert(forall|i: int| 0 <= i < 23 ==> #[trigger] shown[i] == recorder.arguments@[i]@);
    assert(shown[0] == "-loglevel"@);
    assert(shown[1] == "debug"@);
    assert(shown[2] == "-protocol_whitelist"@);
    assert(shown[3] == "pipe,udp,rtp"@);
    assert(shown[4] == "-fflags"@);
    assert(shown[5] == "+genpts"@);
    assert(shown[6] == "-f"@);
    assert(shown[7] == "sdp"@);
    assert(shown[8] == "-i"@);
    assert(shown[9] == "pipe:0"@);
    assert(shown[10] == "-map"@);
    assert(shown[11] == "0:v:0"@);
    assert(shown[12] == "-c:v"@);
    assert(shown[13] == "copy"@);
    assert(shown[14] == "-map"@);
    assert(shown[15] == "0:a:0"@);
    assert(shown[16] == "-strict"@);
    assert(shown[17] == "-2"@);
    assert(shown[18] == "-c:a"@);
    assert(shown[19] == "copy"@);
    assert(shown[20] == "-flags"@);
    assert(shown[21] == "+global_header"@);
    assert(shown[22] == "./fuckme.webm"@);
}

} // verus!
