//! What holds of codec names and of the text handed to the recording program.
use super::{
    describable, json_char, json_chars, recording_sdp, serializable_to_string, without_ends,
    RecordInfo,
};
use crate::rtp::RtpCodecParameters;
use crate::text::{decimal, without};
use vstd::prelude::*;
use vstd::utf8::{encode_scalar, encode_utf8};

verus! {

/// JSON writes `text` as it is: it holds no quotation mark, backslash or control character.
pub open spec fn plain(text: Seq<char>) -> bool {
    forall|i: int|
        0 <= i < text.len() ==> {
            &&& (#[trigger] text[i]) != '"'
            &&& text[i] != '\\'
            &&& text[i] as int >= 0x20
        }
}

/// `pattern` stands somewhere in `text`.
pub open spec fn occurs_in(pattern: Seq<char>, text: Seq<char>) -> bool {
    exists|i: int|
        0 <= i <= text.len() - pattern.len() && #[trigger] text.subrange(i, i + pattern.len())
            == pattern
}

/// No character of `text` is NUL.
pub open spec fn free_of_nul(text: Seq<char>) -> bool {
    forall|i: int| 0 <= i < text.len() ==> #[trigger] text[i] != '\0'
}

proof fn lemma_json_is_no_shorter(text: Seq<char>)
    ensures
        json_chars(text).len() >= text.len(),
        json_chars(text).len() == text.len() ==> plain(text),
        plain(text) ==> json_chars(text) == text,
    decreases text.len(),
{
    if text.len() > 0 {
        let shorter = text.drop_last();
        lemma_json_is_no_shorter(shorter);
        assert(text =~= shorter + seq![text.last()]);
        if plain(text) {
            assert forall|i: int| 0 <= i < shorter.len() implies {
                &&& (#[trigger] shorter[i]) != '"'
                &&& shorter[i] != '\\'
                &&& shorter[i] as int >= 0x20
            } by {
                assert(shorter[i] == text[i]);
            }
            assert(json_char(text.last()) == seq![text[text.len() - 1]]);
        }
        if json_chars(text).len() == text.len() {
            assert forall|i: int| 0 <= i < text.len() implies {
                &&& (#[trigger] text[i]) != '"'
                &&& text[i] != '\\'
                &&& text[i] as int >= 0x20
            } by {
                if i < shorter.len() {
                    assert(text[i] == shorter[i]);
                }
            }
        }
    } else {
        assert(text =~= Seq::empty());
    }
}

/// Texts without quotation marks, backslashes and control characters are their own JSON form, and
/// no others are.
pub proof fn law_plain_text_is_kept(text: Seq<char>)
    ensures
        json_chars(text) == text <==> plain(text),
{
    lemma_json_is_no_shorter(text);
}

proof fn lemma_json_of_first(text: Seq<char>)
    requires
        text.len() > 0,
    ensures
        json_chars(text) == json_char(text.first()) + json_chars(text.drop_first()),
    decreases text.len(),
{
    let rest = text.drop_first();
    if text.len() == 1 {
        assert(json_chars(text.drop_last()) =~= Seq::empty());
        assert(json_chars(rest) =~= Seq::empty());
        assert(json_chars(text) =~= json_char(text.first()) + json_chars(rest));
    } else {
        lemma_json_of_first(text.drop_last());
        assert(text.drop_last().drop_first() =~= rest.drop_last());
        assert(json_chars(text) =~= json_char(text.first()) + json_chars(rest));
    }
}

/// How a character is written tells which one it is, whatever follows.
proof fn lemma_json_char_is_a_prefix_code(a: char, b: char, after_a: Seq<char>, after_b: Seq<char>)
    requires
        json_char(a) + after_a == json_char(b) + after_b,
    ensures
        a == b,
{
    let left = json_char(a) + after_a;
    let right = json_char(b) + after_b;
    assert(json_char(a).len() > 0 && json_char(b).len() > 0);
    assert(left[0] == json_char(a)[0] && right[0] == json_char(b)[0]);
    if json_char(a).len() > 1 && json_char(b).len() > 1 {
        assert(left[1] == json_char(a)[1] && right[1] == json_char(b)[1]);
        if json_char(a).len() > 2 && json_char(b).len() > 2 {
            assert(left[4] == json_char(a)[4] && right[4] == json_char(b)[4]);
            assert(left[5] == json_char(a)[5] && right[5] == json_char(b)[5]);
        }
    }
}

/// No two texts have the same JSON form.
pub proof fn law_json_form_tells_texts_apart(a: Seq<char>, b: Seq<char>)
    requires
        json_chars(a) == json_chars(b),
    ensures
        a == b,
    decreases a.len(),
{
    lemma_json_is_no_shorter(a);
    lemma_json_is_no_shorter(b);
    if a.len() > 0 && b.len() > 0 {
        let after_a = json_chars(a.drop_first());
        let after_b = json_chars(b.drop_first());
        lemma_json_of_first(a);
        lemma_json_of_first(b);
        lemma_json_char_is_a_prefix_code(a.first(), b.first(), after_a, after_b);
        assert(after_a =~= json_chars(a).skip(json_char(a.first()).len() as int));
        assert(after_b =~= json_chars(b).skip(json_char(b.first()).len() as int));
        law_json_form_tells_texts_apart(a.drop_first(), b.drop_first());
        assert(a =~= seq![a.first()] + a.drop_first());
        assert(b =~= seq![b.first()] + b.drop_first());
    } else {
        assert(a =~= b);
    }
}

/// The number that a hexadecimal digit stands for.
pub open spec fn hex_value(digit: char) -> int {
    if '0' <= digit <= '9' {
        digit as int - '0' as int
    } else if 'a' <= digit <= 'f' {
        digit as int - 'a' as int + 10
    } else {
        digit as int - 'A' as int + 10
    }
}

/// The character that stands behind a backslash and one more character in a JSON string.
pub open spec fn short_escape(c: char) -> char {
    if c == 'b' {
        '\u{8}'
    } else if c == 'f' {
        '\u{c}'
    } else if c == 'n' {
        '\n'
    } else if c == 'r' {
        '\r'
    } else if c == 't' {
        '\t'
    } else {
        c
    }
}

/// The text that the inside of a JSON string stands for.
pub open spec fn json_meaning(inside: Seq<char>) -> Seq<char>
    decreases inside.len(),
{
    if inside.len() == 0 {
        Seq::empty()
    } else if inside[0] != '\\' {
        seq![inside[0]] + json_meaning(inside.skip(1))
    } else if inside.len() >= 6 && inside[1] == 'u' {
        seq![
            (hex_value(inside[2]) * 4096 + hex_value(inside[3]) * 256 + hex_value(inside[4]) * 16
                + hex_value(inside[5])) as char,
        ] + json_meaning(inside.skip(6))
    } else if inside.len() >= 2 {
        seq![short_escape(inside[1])] + json_meaning(inside.skip(2))
    } else {
        Seq::empty()
    }
}

/// No character of `text` is a control character below U+0020.
pub open spec fn free_of_controls(text: Seq<char>) -> bool {
    forall|i: int| 0 <= i < text.len() ==> #[trigger] text[i] as int >= 0x20
}

proof fn lemma_meaning_of_char(c: char, rest: Seq<char>)
    ensures
        json_meaning(json_char(c) + rest) == seq![c] + json_meaning(rest),
        free_of_controls(json_char(c)),
{
    let inside = json_char(c) + rest;
    assert(0 <= c as int);
    assert(inside.skip(json_char(c).len() as int) =~= rest);
    assert(inside[0] == json_char(c)[0]);
    if json_char(c).len() > 1 {
        assert(inside[1] == json_char(c)[1]);
        if json_char(c).len() > 2 {
            assert(inside[2] == '0' && inside[3] == '0');
            assert(inside[4] == json_char(c)[4] && inside[5] == json_char(c)[5]);
            assert(c as int == (c as int / 16) * 16 + c as int % 16);
        }
    }
}

pub(crate) proof fn lemma_meaning_of_json(text: Seq<char>)
    ensures
        json_meaning(json_chars(text)) == text,
        free_of_controls(json_chars(text)),
    decreases text.len(),
{
    if text.len() > 0 {
        let rest = text.drop_first();
        lemma_json_of_first(text);
        lemma_meaning_of_json(rest);
        lemma_meaning_of_char(text.first(), json_chars(rest));
        assert(text =~= seq![text.first()] + rest);
    } else {
        assert(text =~= Seq::empty());
    }
}

/// The JSON form of a text, read as the inside of a JSON string, gives the text back, and holds no
/// control characters. It is the text itself if and only if that holds no quotation mark,
/// backslash or control character.
pub proof fn law_json_form_means_its_text(text: &str, form: String)
    requires
        call_ensures(serializable_to_string, (text,), form),
    ensures
        json_meaning(form@) == text@,
        free_of_controls(form@),
        form@ == text@ <==> plain(text@),
{
    lemma_meaning_of_json(text@);
    law_plain_text_is_kept(text@);
}

/// The JSON form of a text made of two is made of the JSON forms of the two.
pub proof fn law_json_forms_are_joined(
    first: &str,
    first_form: String,
    second: &str,
    second_form: String,
    both: &str,
    both_form: String,
)
    requires
        both@ == first@ + second@,
        call_ensures(serializable_to_string, (first,), first_form),
        call_ensures(serializable_to_string, (second,), second_form),
        call_ensures(serializable_to_string, (both,), both_form),
    ensures
        both_form@ == first_form@ + second_form@,
{
    lemma_json_of_joined(first@, second@);
}

proof fn lemma_json_of_joined(first: Seq<char>, second: Seq<char>)
    ensures
        json_chars(first + second) == json_chars(first) + json_chars(second),
    decreases second.len(),
{
    let both = first + second;
    if second.len() == 0 {
        assert(both =~= first);
        assert(json_chars(first) + json_chars(second) =~= json_chars(first));
    } else {
        lemma_json_of_joined(first, second.drop_last());
        assert(both.drop_last() =~= first + second.drop_last());
        assert(json_chars(both) =~= json_chars(first) + json_chars(second));
    }
}

/// `form` is a backslash and `c`.
pub open spec fn is_escaped_as(form: Seq<char>, c: char) -> bool {
    form.len() == 2 && form[0] == '\\' && form[1] == c
}

/// The characters that have a short form in JSON are written in it; the other control characters
/// are written by number, and all else as it is.
pub proof fn law_characters_are_escaped_as_shortly_as_can_be(text: &str, c: char, form: String)
    requires
        text@ == seq![c],
        call_ensures(serializable_to_string, (text,), form),
    ensures
        c == '"' ==> is_escaped_as(form@, '"'),
        c == '\\' ==> is_escaped_as(form@, '\\'),
        c == '\u{8}' ==> is_escaped_as(form@, 'b'),
        c == '\t' ==> is_escaped_as(form@, 't'),
        c == '\n' ==> is_escaped_as(form@, 'n'),
        c == '\u{c}' ==> is_escaped_as(form@, 'f'),
        c == '\r' ==> is_escaped_as(form@, 'r'),
        form@.len() > 2 ==> (c as int) < 0x20 && form@.len() == 6 && form@[1] == 'u',
        form@.len() > 2 ==> ('0' <= form@[5] <= '9' || 'a' <= form@[5] <= 'f'),
        c as int >= 0x20 && c != '"' && c != '\\' ==> form@ == text@,
{
    reveal_with_fuel(json_chars, 2);
    assert(text@.drop_last() =~= Seq::empty());
    assert(text@.last() == c);
    assert(0 <= c as int);
    assert(form@ =~= json_char(c));
}

/// What is taken off a JSON text is one character at each end, and nothing else.
pub proof fn law_only_the_ends_are_taken_off(json: &str, inner: String)
    requires
        json@.len() >= 2,
        json@.first() as int <= 0x7f,
        json@.last() as int <= 0x7f,
        call_ensures(without_ends, (json,), inner),
    ensures
        call_requires(without_ends, (json,)),
        json@ == seq![json@.first()] + inner@ + seq![json@.last()],
{
    assert(json@ =~= seq![json@.first()] + inner@ + seq![json@.last()]);
}

proof fn lemma_without_keeps_what_does_not_hold_it(text: Seq<char>, pattern: Seq<char>)
    requires
        !occurs_in(pattern, text),
    ensures
        without(text, pattern) == text,
    decreases text.len(),
{
    if pattern.len() > 0 && text.len() >= pattern.len() {
        assert(text.subrange(0int, 0int + pattern.len()) =~= text.take(pattern.len() as int));
        let rest = text.skip(1);
        assert(!occurs_in(pattern, rest)) by {
            if occurs_in(pattern, rest) {
                let i = choose|i: int|
                    0 <= i <= rest.len() - pattern.len() && #[trigger] rest.subrange(
                        i,
                        i + pattern.len(),
                    ) == pattern;
                assert(text.subrange(i + 1, i + 1 + pattern.len()) =~= rest.subrange(
                    i,
                    i + pattern.len(),
                ));
            }
        }
        lemma_without_keeps_what_does_not_hold_it(rest, pattern);
        assert(text =~= seq![text[0]] + rest);
    }
}

proof fn lemma_without_drops_a_prefix(name: Seq<char>, pattern: Seq<char>)
    requires
        pattern.len() > 0,
        !occurs_in(pattern, name),
    ensures
        without(pattern + name, pattern) == name,
{
    let text = pattern + name;
    assert(text.take(pattern.len() as int) =~= pattern);
    assert(text.skip(pattern.len() as int) =~= name);
    lemma_without_keeps_what_does_not_hold_it(name, pattern);
}

/// The MIME type `audio/<name>` gives the codec name `<name>`, and so does `video/<name>`.
pub proof fn law_mime_type_names_its_codec(codec: RtpCodecParameters, name: Seq<char>)
    requires
        plain(name),
        match codec {
            RtpCodecParameters::Audio { mime_type, .. } => mime_type@ == "audio/"@ + name
                && !occurs_in("audio/"@, name),
            RtpCodecParameters::Video { mime_type, .. } => mime_type@ == "video/"@ + name
                && !occurs_in("video/"@, name),
        },
    ensures
        codec.codec_name() == name,
{
    reveal_strlit("audio/");
    reveal_strlit("video/");
    match codec {
        RtpCodecParameters::Audio { mime_type, .. } => {
            law_plain_text_is_kept("audio/"@ + name);
            lemma_without_drops_a_prefix(name, "audio/"@);
        },
        RtpCodecParameters::Video { mime_type, .. } => {
            law_plain_text_is_kept("video/"@ + name);
            lemma_without_drops_a_prefix(name, "video/"@);
        },
    }
}

proof fn lemma_json_char_is_free_of_nul(c: char)
    ensures
        free_of_nul(json_char(c)),
{
    assert(0 <= c as int);
}

proof fn lemma_json_is_free_of_nul(text: Seq<char>)
    ensures
        free_of_nul(json_chars(text)),
    decreases text.len(),
{
    if text.len() > 0 {
        lemma_json_is_free_of_nul(text.drop_last());
        lemma_json_char_is_free_of_nul(text.last());
    }
}

proof fn lemma_without_is_free_of_nul(text: Seq<char>, pattern: Seq<char>)
    requires
        free_of_nul(text),
    ensures
        free_of_nul(without(text, pattern)),
    decreases text.len(),
{
    if pattern.len() == 0 || text.len() < pattern.len() {
    } else if text.take(pattern.len() as int) == pattern {
        lemma_without_is_free_of_nul(text.skip(pattern.len() as int), pattern);
    } else {
        lemma_without_is_free_of_nul(text.skip(1), pattern);
    }
}

proof fn lemma_decimal_is_free_of_nul(value: nat)
    ensures
        free_of_nul(decimal(value)),
    decreases value,
{
    if value >= 10 {
        lemma_decimal_is_free_of_nul(value / 10);
    }
}

proof fn lemma_codec_name_is_free_of_nul(codec: RtpCodecParameters)
    ensures
        free_of_nul(codec.codec_name()),
{
    match codec {
        RtpCodecParameters::Audio { mime_type, .. } => {
            lemma_json_is_free_of_nul(mime_type@);
            lemma_without_is_free_of_nul(json_chars(mime_type@), "audio/"@);
        },
        RtpCodecParameters::Video { mime_type, .. } => {
            lemma_json_is_free_of_nul(mime_type@);
            lemma_without_is_free_of_nul(json_chars(mime_type@), "video/"@);
        },
    }
}

proof fn lemma_char_bytes(c: char)
    requires
        c != '\0',
    ensures
        forall|i: int|
            0 <= i < encode_scalar(c as u32).len() ==> #[trigger] encode_scalar(c as u32)[i] != 0,
{
    let scalar = c as u32;
    assert(scalar <= 0x7f && scalar > 0 ==> (scalar & 0x7f) as u8 != 0) by (bit_vector);
    assert(forall|b: u8| #[trigger] (0x80 | b) != 0) by (bit_vector);
    assert(forall|b: u8| #[trigger] (0xc0 | b) != 0) by (bit_vector);
    assert(forall|b: u8| #[trigger] (0xe0 | b) != 0) by (bit_vector);
    assert(forall|b: u8| #[trigger] (0xf0 | b) != 0) by (bit_vector);
}

proof fn lemma_utf8_is_free_of_zero(text: Seq<char>)
    requires
        free_of_nul(text),
    ensures
        forall|i: int| 0 <= i < encode_utf8(text).len() ==> #[trigger] encode_utf8(text)[i] != 0,
    decreases text.len(),
{
    if text.len() > 0 {
        assert(text[0] != '\0');
        lemma_char_bytes(text[0]);
        lemma_utf8_is_free_of_zero(text.drop_first());
        let head = encode_scalar(text[0] as u32);
        let tail = encode_utf8(text.drop_first());
        assert(encode_utf8(text) == head + tail);
        assert forall|i: int| 0 <= i < encode_utf8(text).len() implies #[trigger] encode_utf8(
            text,
        )[i] != 0 by {
            if i < head.len() {
                assert(encode_utf8(text)[i] == head[i]);
            } else {
                assert(encode_utf8(text)[i] == tail[i - head.len()]);
            }
        }
    }
}

/// The zero byte that ends the recording program's input is the only one in it.
pub proof fn law_input_ends_at_its_first_zero(
    video_info: RecordInfo,
    audio_info: RecordInfo,
    input: Seq<u8>,
)
    requires
        describable(video_info, audio_info),
        input == encode_utf8(recording_sdp(video_info, audio_info)).push(0),
    ensures
        input.len() > 0,
        forall|i: int| 0 <= i < input.len() ==> (#[trigger] input[i] == 0 <==> i == input.len() - 1),
{
    reveal_strlit(
        "v=0\n  o=- 0 0 IN IP4 127.0.0.1\n  s=FFmpeg\n  c=IN IP4 127.0.0.1\n  t=0 0\n  m=video ",
    );
    reveal_strlit(" RTP/AVP ");
    reveal_strlit("\n  a=rtpmap:");
    reveal_strlit(" ");
    reveal_strlit("/");
    reveal_strlit("\n  a=sendonly\n  m=audio ");
    reveal_strlit("\n  a=sendonly\n  ");
    let video = video_info.rtp_parameters.codecs@[0];
    let audio = audio_info.rtp_parameters.codecs@[0];
    lemma_decimal_is_free_of_nul(video_info.remote_port as nat);
    lemma_decimal_is_free_of_nul(video.payload_type() as nat);
    lemma_decimal_is_free_of_nul(video.clock_rate() as nat);
    lemma_decimal_is_free_of_nul(audio_info.remote_port as nat);
    lemma_decimal_is_free_of_nul(audio.payload_type() as nat);
    lemma_decimal_is_free_of_nul(audio.clock_rate() as nat);
    lemma_decimal_is_free_of_nul(audio.channels()->0 as nat);
    lemma_codec_name_is_free_of_nul(video);
    lemma_codec_name_is_free_of_nul(audio);
    assert(free_of_nul(recording_sdp(video_info, audio_info)));
    lemma_utf8_is_free_of_zero(recording_sdp(video_info, audio_info));
}

} // verus!
