//! Recording a room: RTP streams published to `ffmpeg`, described to it by an SDP text.
pub mod laws;
pub mod recording_laws;

use crate::ids::{hex_digit, ProducerId};
use crate::media::{MediaKind, TransportListenIp};
use crate::rtp::{
    capabilities_for, consumer_capabilities, RtpCapabilities, RtpCodecCapabilityFinalized,
    RtpCodecParameters, RtpParameters,
};
use crate::text::{decimal, push_decimal, remove_all, without};
use vstd::prelude::*;
use vstd::string::*;
use vstd::utf8::encode_utf8;

verus! {

/// A published stream that can be recorded.
#[derive(Debug)]
pub struct RecordInfo {
    pub remote_port: u16,
    pub rtp_capabilities: RtpCapabilities,
    pub rtp_parameters: RtpParameters,
    pub media_kind: MediaKind,
}

/// How an encrypted RTP stream is encrypted and authenticated.
#[derive(Clone, Copy, Debug, PartialEq, Eq, Structural)]
pub enum SrtpCryptoSuite {
    /// AES_CM_128_HMAC_SHA1_80
    AesCm128HmacSha180,
    /// AES_CM_128_HMAC_SHA1_32
    AesCm128HmacSha132,
}

/// What it takes to encrypt an RTP stream.
#[derive(Debug)]
pub struct SrtpParameters {
    pub crypto_suite: SrtpCryptoSuite,
    /// Master key and salt, in Base64
    pub key_base64: String,
}

/// Where a plain RTP transport sends to.
#[derive(Debug)]
pub struct PlainTransportRemoteParameters {
    pub ip: [u8; 4],
    pub port: u16,
    /// The port for RTCP, where it has one of its own
    pub rtcp_port: Option<u16>,
    /// How to encrypt the stream, where it is encrypted
    pub srtp_parameters: Option<SrtpParameters>,
}

/// What a consumer is created with.
pub struct ConsumerOptions {
    pub producer_id: ProducerId,
    pub rtp_capabilities: RtpCapabilities,
    pub paused: bool,
}

/// How to publish a producer's stream: create a plain transport that listens on `listen_ip`,
/// connect it to `remote`, and create a consumer on it with `consumer`. With the consumer's RTP
/// parameters, [`Publication::finish`] gives what a recording needs.
pub struct Publication {
    pub listen_ip: TransportListenIp,
    pub remote: PlainTransportRemoteParameters,
    pub consumer: ConsumerOptions,
    pub media_kind: MediaKind,
}

/// Plans the publication of a producer's stream to a local port, unencrypted, in whichever of the router's
/// codecs are of the producer's kind. The consumer starts paused.
pub fn publish_producer_rtp_stream(
    router_codecs: Vec<RtpCodecCapabilityFinalized>,
    producer_id: ProducerId,
    media_kind: MediaKind,
    remote_port: u16,
) -> (publication: Publication)
    ensures
        publication.listen_ip.ip@ == seq![192u8, 168, 0, 108],
        publication.listen_ip.announced_ip is None,
        publication.remote.ip@ == seq![127u8, 0, 0, 1],
        publication.remote.port == remote_port,
        publication.remote.rtcp_port is None,
        publication.remote.srtp_parameters is None,
        publication.consumer.producer_id == producer_id,
        publication.consumer.rtp_capabilities.codecs@ == capabilities_for(
            router_codecs@,
            media_kind,
        ),
        publication.consumer.rtp_capabilities.header_extensions@.len() == 0,
        publication.consumer.paused,
        publication.media_kind == media_kind,
{
    let listen: [u8; 4] = [192, 168, 0, 108];
    let local: [u8; 4] = [127, 0, 0, 1];
    let rtp_capabilities = consumer_capabilities(router_codecs, media_kind);
    Publication {
        listen_ip: TransportListenIp { ip: listen, announced_ip: None },
        remote: PlainTransportRemoteParameters {
            ip: local,
            port: remote_port,
            rtcp_port: None,
            srtp_parameters: None,
        },
        consumer: ConsumerOptions { producer_id, rtp_capabilities, paused: true },
        media_kind,
    }
}

impl Publication {
    /// The stream as it is published, `rtp_parameters` being those of its consumer.
    pub fn finish(self, rtp_parameters: RtpParameters) -> (info: RecordInfo)
        ensures
            info == (RecordInfo {
                remote_port: self.remote.port,
                rtp_capabilities: self.consumer.rtp_capabilities,
                rtp_parameters,
                media_kind: self.media_kind,
            }),
    {
        RecordInfo {
            remote_port: self.remote.port,
            rtp_capabilities: self.consumer.rtp_capabilities,
            rtp_parameters,
            media_kind: self.media_kind,
        }
    }
}

/// How a character is written inside a JSON string.
pub open spec fn json_char(c: char) -> Seq<char> {
    if c == '"' {
        seq!['\\', '"']
    } else if c == '\\' {
        seq!['\\', '\\']
    } else if c == '\u{8}' {
        seq!['\\', 'b']
    } else if c == '\t' {
        seq!['\\', 't']
    } else if c == '\n' {
        seq!['\\', 'n']
    } else if c == '\u{c}' {
        seq!['\\', 'f']
    } else if c == '\r' {
        seq!['\\', 'r']
    } else if (c as int) < 0x20 {
        seq!['\\', 'u', '0', '0', hex_digit(c as int / 16), hex_digit(c as int % 16)]
    } else {
        seq![c]
    }
}

/// How a text is written inside a JSON string.
pub open spec fn json_chars(text: Seq<char>) -> Seq<char>
    decreases text.len(),
{
    if text.len() == 0 {
        Seq::empty()
    } else {
        json_chars(text.drop_last()) + json_char(text.last())
    }
}

/// `serde_json`'s error.
#[verifier::external_type_specification]
#[verifier::external_body]
pub struct ExJsonError(serde_json::Error);

/// Calls `serde_json::to_string` on a string slice.
///
/// It writes into memory, which cannot fail, and gives the text between two quotation marks,
/// escaping the quotation mark, the backslash and the control characters below U+0020 and
/// nothing else.
#[verifier::external_body]
fn json_text(value: &str) -> (result: Result<String, serde_json::Error>)
    ensures
        result is Ok,
        result->Ok_0@ == seq!['"'] + json_chars(value@) + seq!['"'],
{
    serde_json::to_string(value)
}

/// A JSON text without its first and last character, each of which is one byte long.
pub fn without_ends(json: &str) -> (inner: String)
    requires
        json@.len() >= 2,
        json@.first() as int <= 0x7f,
        json@.last() as int <= 0x7f,
    ensures
        inner@ == json@.subrange(1, json@.len() - 1),
{
    let length: usize = json.unicode_len();
    json.substring_char(1, length - 1).to_string()
}

/// The JSON form of a text without the quotation marks around it.
pub fn serializable_to_string(t: &str) -> (s: String)
    ensures
        s@ == json_chars(t@),
{
    let json = json_text(t).expect("failed to serialize");
    proof {
        assert(json@.subrange(1, json@.len() - 1) =~= json_chars(t@));
    }
    without_ends(json.as_str())
}

/// What an SDP text says of a codec.
#[derive(Debug)]
pub struct CodecInfo {
    pub payload_type: u8,
    pub codec_name: String,
    pub clock_rate: u32,
    pub channels: Option<u8>,
}

impl RtpCodecParameters {
    /// The payload type of the codec.
    pub open spec fn payload_type(self) -> u8 {
        match self {
            RtpCodecParameters::Audio { payload_type, .. } => payload_type,
            RtpCodecParameters::Video { payload_type, .. } => payload_type,
        }
    }

    /// The clock rate of the codec, in hertz.
    pub open spec fn clock_rate(self) -> u32 {
        match self {
            RtpCodecParameters::Audio { clock_rate, .. } => clock_rate,
            RtpCodecParameters::Video { clock_rate, .. } => clock_rate,
        }
    }

    /// The number of channels, for audio.
    pub open spec fn channels(self) -> Option<u8> {
        match self {
            RtpCodecParameters::Audio { channels, .. } => Some(channels),
            RtpCodecParameters::Video { .. } => None,
        }
    }

    /// The name of the codec: its MIME type without the top-level type.
    pub open spec fn codec_name(self) -> Seq<char> {
        match self {
            RtpCodecParameters::Audio { mime_type, .. } => without(
                json_chars(mime_type@),
                "audio/"@,
            ),
            RtpCodecParameters::Video { mime_type, .. } => without(
                json_chars(mime_type@),
                "video/"@,
            ),
        }
    }
}

/// What is to be said of the first codec of a stream, if it has one.
pub fn get_codec_info_from_rtp_parameters(info: &RecordInfo) -> (codec_info: Option<CodecInfo>)
    ensures
        codec_info is Some <==> info.rtp_parameters.codecs@.len() > 0,
        codec_info matches Some(found) ==> {
            let codec = info.rtp_parameters.codecs@[0];
            &&& found.payload_type == codec.payload_type()
            &&& found.codec_name@ == codec.codec_name()
            &&& found.clock_rate == codec.clock_rate()
            &&& found.channels == codec.channels()
        },
{
    if info.rtp_parameters.codecs.len() == 0 {
        return None;
    }
    match &info.rtp_parameters.codecs[0] {
        RtpCodecParameters::Audio { mime_type, payload_type, clock_rate, channels } => Some(
            CodecInfo {
                payload_type: *payload_type,
                codec_name: remove_all(
                    serializable_to_string(mime_type.as_str()).as_str(),
                    "audio/",
                ),
                clock_rate: *clock_rate,
                channels: Some(*channels),
            },
        ),
        RtpCodecParameters::Video { mime_type, payload_type, clock_rate } => Some(
            CodecInfo {
                payload_type: *payload_type,
                codec_name: remove_all(
                    serializable_to_string(mime_type.as_str()).as_str(),
                    "video/",
                ),
                clock_rate: *clock_rate,
                channels: None,
            },
        ),
    }
}

/// The SDP text for a video and an audio stream that are sent to these local ports in these
/// codecs, the audio codec with that many channels.
pub open spec fn sdp_text(
    video_port: u16,
    video: RtpCodecParameters,
    audio_port: u16,
    audio: RtpCodecParameters,
    channels: u8,
) -> Seq<char> {
    "v=0\n  o=- 0 0 IN IP4 127.0.0.1\n  s=FFmpeg\n  c=IN IP4 127.0.0.1\n  t=0 0\n  m=video "@
        + decimal(video_port as nat) + " RTP/AVP "@ + decimal(video.payload_type() as nat)
        + "\n  a=rtpmap:"@ + decimal(video.payload_type() as nat) + " "@ + video.codec_name()
        + "/"@ + decimal(video.clock_rate() as nat) + "\n  a=sendonly\n  m=audio "@ + decimal(
        audio_port as nat,
    ) + " RTP/AVP "@ + decimal(audio.payload_type() as nat) + "\n  a=rtpmap:"@ + decimal(
        audio.payload_type() as nat,
    ) + " "@ + audio.codec_name() + "/"@ + decimal(audio.clock_rate() as nat) + "/"@ + decimal(
        channels as nat,
    ) + "\n  a=sendonly\n  "@
}

/// Both streams have a codec, and that of the audio stream has a number of channels.
pub open spec fn describable(video_info: RecordInfo, audio_info: RecordInfo) -> bool {
    &&& video_info.rtp_parameters.codecs@.len() > 0
    &&& audio_info.rtp_parameters.codecs@.len() > 0
    &&& audio_info.rtp_parameters.codecs@[0].channels() is Some
}

/// The SDP text for two streams, by the first codec of each.
pub open spec fn recording_sdp(video_info: RecordInfo, audio_info: RecordInfo) -> Seq<char> {
    sdp_text(
        video_info.remote_port,
        video_info.rtp_parameters.codecs@[0],
        audio_info.remote_port,
        audio_info.rtp_parameters.codecs@[0],
        audio_info.rtp_parameters.codecs@[0].channels()->0,
    )
}

/// Describes two streams to `ffmpeg`.
pub fn create_sdp_text(video_info: &RecordInfo, audio_info: &RecordInfo) -> (sdp: String)
    requires
        describable(*video_info, *audio_info),
    ensures
        sdp@ == recording_sdp(*video_info, *audio_info),
{
    let video = get_codec_info_from_rtp_parameters(video_info).expect("no video codec info");
    let audio = get_codec_info_from_rtp_parameters(audio_info).expect("no audio codec info");
    let mut sdp =
        "v=0\n  o=- 0 0 IN IP4 127.0.0.1\n  s=FFmpeg\n  c=IN IP4 127.0.0.1\n  t=0 0\n  m=video ".to_string();
    push_decimal(&mut sdp, video_info.remote_port as u32);
    sdp.append(" RTP/AVP ");
    push_decimal(&mut sdp, video.payload_type as u32);
    sdp.append("\n  a=rtpmap:");
    push_decimal(&mut sdp, video.payload_type as u32);
    sdp.append(" ");
    sdp.append(video.codec_name.as_str());
    sdp.append("/");
    push_decimal(&mut sdp, video.clock_rate);
    sdp.append("\n  a=sendonly\n  m=audio ");
    push_decimal(&mut sdp, audio_info.remote_port as u32);
    sdp.append(" RTP/AVP ");
    push_decimal(&mut sdp, audio.payload_type as u32);
    sdp.append("\n  a=rtpmap:");
    push_decimal(&mut sdp, audio.payload_type as u32);
    sdp.append(" ");
    sdp.append(audio.codec_name.as_str());
    sdp.append("/");
    push_decimal(&mut sdp, audio.clock_rate);
    sdp.append("/");
    push_decimal(&mut sdp, audio.channels.expect("channels is none") as u32);
    sdp.append("\n  a=sendonly\n  ");
    sdp
}

/// The arguments that pick and copy the video stream.
pub open spec fn video_arguments() -> Seq<Seq<char>> {
    seq!["-map"@, "0:v:0"@, "-c:v"@, "copy"@]
}

/// The arguments that pick and copy the audio stream.
pub open spec fn audio_arguments() -> Seq<Seq<char>> {
    seq!["-map"@, "0:a:0"@, "-strict"@, "-2"@, "-c:a"@, "copy"@]
}

/// The arguments of the recording program: the SDP text comes on standard input, both streams
/// are copied into one file.
pub open spec fn recorder_arguments() -> Seq<Seq<char>> {
    seq![
        "-loglevel"@, "debug"@, "-protocol_whitelist"@, "pipe,udp,rtp"@, "-fflags"@, "+genpts"@, "-f"@, "sdp"@, "-i"@, "pipe:0"@,
    ] + video_arguments() + audio_arguments() + seq!["-flags"@, "+global_header"@, "./fuckme.webm"@]
}

/// A recording: run `program` with `arguments`, write `input` to its standard input and flush
/// it, and after `resume_delay_secs` seconds resume `consumers` in order, going on to the next
/// one even where one cannot be resumed.
pub struct Recorder<C> {
    pub program: &'static str,
    pub arguments: Vec<&'static str>,
    pub input: Vec<u8>,
    pub resume_delay_secs: u64,
    pub consumers: Vec<C>,
}

impl<C> Recorder<C> {
    /// Plans the recording of a video and an audio stream, which come through `consumers`.
    pub fn start_record(
        video_info: &RecordInfo,
        audio_info: &RecordInfo,
        consumers: Vec<C>,
    ) -> (recorder: Recorder<C>)
        requires
            describable(*video_info, *audio_info),
        ensures
            recorder.program@ == "ffmpeg"@,
            recorder.arguments@.map_values(|argument: &'static str| argument@)
                == recorder_arguments(),
            recorder.input@ == encode_utf8(recording_sdp(*video_info, *audio_info)).push(0),
            recorder.resume_delay_secs == 1,
            recorder.consumers == consumers,
    {
        let sdp = create_sdp_text(video_info, audio_info);
        let mut input: Vec<u8> = sdp.as_str().as_bytes_vec();
        input.push(0);
        let arguments: Vec<&'static str> =
            vec![
            "-loglevel", "debug", "-protocol_whitelist", "pipe,udp,rtp", "-fflags", "+genpts", "-f", "sdp", "-i", "pipe:0",
            "-map", "0:v:0", "-c:v", "copy",
            "-map", "0:a:0", "-strict", "-2", "-c:a", "copy",
            "-flags", "+global_header", "./fuckme.webm",
        ];
        proof {
            assert(arguments@.map_values(|argument: &'static str| argument@)
                =~= recorder_arguments());
        }
        Recorder { program: "ffmpeg", arguments, input, resume_delay_secs: 1, consumers }
    }
}

} // verus!
