use mediasoup_demo::ids::ProducerId;
use mediasoup_demo::media::MediaKind;
use mediasoup_demo::record::{
    create_sdp_text, get_codec_info_from_rtp_parameters, publish_producer_rtp_stream,
    serializable_to_string, without_ends, RecordInfo, Recorder,
};
use mediasoup_demo::rtp::{
    CodecParameter, CodecParameterValue, RtcpFeedback, RtpCapabilities, RtpCodecCapability,
    RtpCodecCapabilityFinalized, RtpCodecParameters, RtpParameters,
};

fn offered() -> Vec<RtpCodecCapabilityFinalized> {
    vec![
        RtpCodecCapabilityFinalized::Audio {
            mime_type: "audio/opus".to_string(),
            preferred_payload_type: 100,
            clock_rate: 48000,
            channels: 2,
            parameters: vec![CodecParameter {
                name: "useinbandfec".to_string(),
                value: CodecParameterValue::Number(1),
            }],
            rtcp_feedback: vec![RtcpFeedback::TransportCc],
        },
        RtpCodecCapabilityFinalized::Video {
            mime_type: "video/VP8".to_string(),
            preferred_payload_type: 101,
            clock_rate: 90000,
            parameters: vec![],
            rtcp_feedback: vec![RtcpFeedback::Nack, RtcpFeedback::NackPli],
        },
        RtpCodecCapabilityFinalized::Video {
            mime_type: "video/rtx".to_string(),
            preferred_payload_type: 102,
            clock_rate: 90000,
            parameters: vec![],
            rtcp_feedback: vec![],
        },
    ]
}

fn info(remote_port: u16, media_kind: MediaKind, codecs: Vec<RtpCodecParameters>) -> RecordInfo {
    RecordInfo {
        remote_port,
        rtp_capabilities: RtpCapabilities { codecs: vec![], header_extensions: vec![] },
        rtp_parameters: RtpParameters { codecs },
        media_kind,
    }
}

fn video_info() -> RecordInfo {
    let codec = RtpCodecParameters::Video {
        mime_type: "video/VP8".to_string(),
        payload_type: 101,
        clock_rate: 90000,
    };
    info(34567, MediaKind::Video, vec![codec])
}

fn audio_info() -> RecordInfo {
    let codec = RtpCodecParameters::Audio {
        mime_type: "audio/opus".to_string(),
        payload_type: 100,
        clock_rate: 48000,
        channels: 2,
    };
    info(8, MediaKind::Audio, vec![codec])
}

const SDP: &str = "v=0
  o=- 0 0 IN IP4 127.0.0.1
  s=FFmpeg
  c=IN IP4 127.0.0.1
  t=0 0
  m=video 34567 RTP/AVP 101
  a=rtpmap:101 VP8/90000
  a=sendonly
  m=audio 8 RTP/AVP 100
  a=rtpmap:100 opus/48000/2
  a=sendonly
  ";

#[test]
fn published_video_asks_for_the_video_codecs_only() {
    let plan = publish_producer_rtp_stream(offered(), ProducerId(7), MediaKind::Video, 5004);
    assert_eq!(plan.listen_ip.ip, [192, 168, 0, 108]);
    assert!(plan.listen_ip.announced_ip.is_none());
    assert_eq!(plan.remote.ip, [127, 0, 0, 1]);
    assert_eq!(plan.remote.port, 5004);
    assert!(plan.remote.rtcp_port.is_none());
    assert!(plan.remote.srtp_parameters.is_none());
    assert_eq!(plan.consumer.producer_id, ProducerId(7));
    assert!(plan.consumer.paused);
    assert!(plan.consumer.rtp_capabilities.header_extensions.is_empty());
    let codecs = &plan.consumer.rtp_capabilities.codecs;
    assert_eq!(codecs.len(), 2);
    match &codecs[0] {
        RtpCodecCapability::Video {
            mime_type,
            preferred_payload_type,
            clock_rate,
            parameters,
            rtcp_feedback,
        } => {
            assert_eq!(mime_type, "video/VP8");
            assert_eq!(*preferred_payload_type, Some(101));
            assert_eq!(*clock_rate, 90000);
            assert!(parameters.is_empty());
            assert_eq!(*rtcp_feedback, vec![RtcpFeedback::Nack, RtcpFeedback::NackPli]);
        }
        RtpCodecCapability::Audio { .. } => panic!("an audio codec for a video producer"),
    }
    assert!(matches!(
        &codecs[1],
        RtpCodecCapability::Video { preferred_payload_type: Some(102), .. }
    ));
}

#[test]
fn published_audio_asks_for_the_audio_codecs_only() {
    let plan = publish_producer_rtp_stream(offered(), ProducerId(7), MediaKind::Audio, 5006);
    let codecs = &plan.consumer.rtp_capabilities.codecs;
    assert_eq!(codecs.len(), 1);
    match &codecs[0] {
        RtpCodecCapability::Audio { mime_type, preferred_payload_type, channels, parameters, .. } => {
            assert_eq!(mime_type, "audio/opus");
            assert_eq!(*preferred_payload_type, Some(100));
            assert_eq!(*channels, 2);
            assert_eq!(parameters[0].name, "useinbandfec");
            assert!(matches!(parameters[0].value, CodecParameterValue::Number(1)));
        }
        RtpCodecCapability::Video { .. } => panic!("a video codec for an audio producer"),
    }
}

#[test]
fn publication_without_offered_codecs_asks_for_none() {
    let plan = publish_producer_rtp_stream(vec![], ProducerId(7), MediaKind::Audio, 5006);
    assert!(plan.consumer.rtp_capabilities.codecs.is_empty());
}

#[test]
fn finished_publication_can_be_recorded() {
    let plan = publish_producer_rtp_stream(offered(), ProducerId(7), MediaKind::Video, 5004);
    let parameters = video_info().rtp_parameters;
    let info = plan.finish(parameters);
    assert_eq!(info.remote_port, 5004);
    assert_eq!(info.media_kind, MediaKind::Video);
    assert_eq!(info.rtp_capabilities.codecs.len(), 2);
    assert_eq!(info.rtp_parameters.codecs.len(), 1);
}

#[test]
fn plain_text_is_its_own_json_form() {
    assert_eq!(serializable_to_string("audio/opus"), "audio/opus");
    assert_eq!(serializable_to_string(""), "");
    assert_eq!(serializable_to_string("h\u{e9}llo \u{7f}"), "h\u{e9}llo \u{7f}");
}

#[test]
fn special_characters_are_escaped() {
    assert_eq!(serializable_to_string("a\"b\\c"), "a\\\"b\\\\c");
    assert_eq!(serializable_to_string("\u{8}\t\n\u{c}\r"), "\\b\\t\\n\\f\\r");
    assert_eq!(serializable_to_string("\u{0}\u{1f}/"), "\\u0000\\u001f/");
}

#[test]
fn json_form_can_be_read_back() {
    for text in ["", "audio/opus", "\"\\/", "\u{0}\u{1f}\u{7f}", "\u{8}\t\n\u{c}\r", "\\u0041", "\u{e9}\u{1f600}"] {
        let quoted = format!("\"{}\"", serializable_to_string(text));
        assert_eq!(serde_json::from_str::<String>(&quoted).unwrap(), text);
    }
}

#[test]
fn only_plain_text_is_its_own_json_form() {
    for text in ["", "audio/opus", "\u{7f}", "\u{e9}"] {
        assert_eq!(serializable_to_string(text), text);
    }
    for text in ["\"", "\\", "\u{0}", "\u{1f}", "a\nb"] {
        assert_ne!(serializable_to_string(text), text);
    }
}

#[test]
fn json_form_loses_its_first_and_last_character() {
    assert_eq!(without_ends("\"x\""), "x");
    assert_eq!(without_ends("[1,2]"), "1,2");
    assert_eq!(without_ends("{}"), "");
    assert_eq!(without_ends("\"\u{e9}\""), "\u{e9}");
}

#[test]
fn codec_info_comes_from_the_first_codec() {
    let found = get_codec_info_from_rtp_parameters(&audio_info()).unwrap();
    assert_eq!(found.payload_type, 100);
    assert_eq!(found.codec_name, "opus");
    assert_eq!(found.clock_rate, 48000);
    assert_eq!(found.channels, Some(2));
    let found = get_codec_info_from_rtp_parameters(&video_info()).unwrap();
    assert_eq!(found.payload_type, 101);
    assert_eq!(found.codec_name, "VP8");
    assert_eq!(found.clock_rate, 90000);
    assert_eq!(found.channels, None);
}

#[test]
fn stream_without_codecs_has_no_codec_info() {
    assert!(get_codec_info_from_rtp_parameters(&info(1, MediaKind::Audio, vec![])).is_none());
}

#[test]
fn sdp_text_describes_both_streams() {
    assert_eq!(create_sdp_text(&video_info(), &audio_info()), SDP);
}

#[test]
fn recorder_is_planned_with_its_input_and_arguments() {
    let recorder = Recorder::start_record(&video_info(), &audio_info(), vec!["video", "audio"]);
    assert_eq!(recorder.program, "ffmpeg");
    assert_eq!(
        recorder.arguments,
        vec![
            "-loglevel", "debug", "-protocol_whitelist", "pipe,udp,rtp", "-fflags", "+genpts", "-f",
            "sdp", "-i", "pipe:0", "-map", "0:v:0", "-c:v", "copy", "-map", "0:a:0", "-strict",
            "-2", "-c:a", "copy", "-flags", "+global_header", "./fuckme.webm",
        ]
    );
    let mut input = SDP.as_bytes().to_vec();
    input.push(0);
    assert_eq!(recorder.input, input);
    assert_eq!(recorder.resume_delay_secs, 1);
    assert_eq!(recorder.consumers, vec!["video", "audio"]);
}

#[test]
fn recorder_input_holds_no_other_zero_byte() {
    let codec = RtpCodecParameters::Audio {
        mime_type: "audio/o\u{0}p".to_string(),
        payload_type: 100,
        clock_rate: 48000,
        channels: 1,
    };
    let audio = info(9, MediaKind::Audio, vec![codec]);
    let recorder = Recorder::start_record(&video_info(), &audio, Vec::<u8>::new());
    let zero = recorder.input.iter().position(|byte| *byte == 0).unwrap();
    assert_eq!(zero, recorder.input.len() - 1);
    let text = String::from_utf8(recorder.input[..zero].to_vec()).unwrap();
    assert!(text.contains("a=rtpmap:100 o\\u0000p/48000/1\n"));
}
