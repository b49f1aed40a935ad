use mediasoup_demo::text::{push_decimal, remove_all};

fn decimal_of(value: u32) -> String {
    let mut text = String::from("n=");
    push_decimal(&mut text, value);
    text
}

#[test]
fn decimal_numbers_have_no_leading_zeros() {
    assert_eq!(decimal_of(0), "n=0");
    assert_eq!(decimal_of(7), "n=7");
    assert_eq!(decimal_of(10), "n=10");
    assert_eq!(decimal_of(90000), "n=90000");
    assert_eq!(decimal_of(u32::MAX), "n=4294967295");
}

#[test]
fn every_occurrence_is_removed() {
    assert_eq!(remove_all("audio/opus", "audio/"), "opus");
    assert_eq!(remove_all("audio/audio/opusaudio/", "audio/"), "opus");
    assert_eq!(remove_all("video/VP8", "audio/"), "video/VP8");
    assert_eq!(remove_all("", "audio/"), "");
    assert_eq!(remove_all("aud", "audio/"), "aud");
}

#[test]
fn removal_agrees_with_the_standard_library() {
    let texts = ["aaa", "aaaa", "abab", "xaby", "ab", "", "h\u{e9}ab\u{e9}", "aabab"];
    let patterns = ["aa", "ab", "aba", "", "\u{e9}"];
    for text in texts {
        for pattern in patterns {
            assert_eq!(remove_all(text, pattern), text.replace(pattern, ""));
        }
    }
}
