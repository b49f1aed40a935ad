use mediasoup_demo::ids::ParticipantId;

#[test]
fn participant_id_text_is_hyphenated_lower_case_hex() {
    let id = ParticipantId(0x936DA01F9ABD4D9D80C702AF85C822A8);
    assert_eq!(id.to_string(), "936da01f-9abd-4d9d-80c7-02af85c822a8");
}

#[test]
fn participant_id_text_keeps_leading_zeros() {
    assert_eq!(ParticipantId(0).to_string(), "00000000-0000-0000-0000-000000000000");
    assert_eq!(ParticipantId(0xF).to_string(), "00000000-0000-0000-0000-00000000000f");
}

#[test]
fn new_participant_ids_are_random_uuids() {
    let a = ParticipantId::new();
    let b = ParticipantId::new();
    assert_ne!(a, b);
    let text = a.to_string();
    assert_eq!(text.len(), 36);
    assert_eq!(&text[14..15], "4");
    assert!("89ab".contains(&text[19..20]));
    assert_eq!(uuid::Uuid::parse_str(&text).unwrap().as_u128(), a.0);
}
