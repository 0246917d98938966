use std::str::FromStr;

use reverie::{EntryId, ModelError, ProjectId, Timestamp, UserId};

/// 2022-02-22T19:22:22Z in milliseconds, version 7, variant 10.
const SAMPLE: u128 = 0x017f_22e2_79b0_7cc3_98c4_dc0c_0c07_398f;
const SAMPLE_TEXT: &str = "017f22e2-79b0-7cc3-98c4-dc0c0c07398f";

fn version_of(raw: u128) -> u128 {
    (raw >> 76) & 0xf
}

#[test]
fn fresh_identifiers_carry_version_seven() {
    assert_eq!(version_of(UserId::create().as_u128()), 7);
    assert_eq!(version_of(ProjectId::create().as_u128()), 7);
    assert_eq!(version_of(EntryId::create().as_u128()), 7);
    assert_eq!(version_of(UserId::default().as_u128()), 7);
    assert_eq!(version_of(ProjectId::default().as_u128()), 7);
    assert_eq!(version_of(EntryId::default().as_u128()), 7);
}

#[test]
fn fresh_identifiers_differ() {
    let a = UserId::create();
    let b = UserId::create();
    assert_ne!(a, b);
    assert_ne!(a.as_u128(), b.as_u128());
}

#[test]
fn fresh_identifiers_are_ordered_by_creation() {
    let mut last = EntryId::create().as_u128();
    for _ in 0..100 {
        let next = EntryId::create().as_u128();
        assert!(last < next);
        last = next;
    }
}

#[test]
fn a_fresh_identifier_is_stamped_with_the_current_time() {
    let before = std::time::SystemTime::now()
        .duration_since(std::time::UNIX_EPOCH)
        .unwrap()
        .as_secs();
    let stamp = UserId::create().timestamp();
    let after = std::time::SystemTime::now()
        .duration_since(std::time::UNIX_EPOCH)
        .unwrap()
        .as_secs();
    assert!(before <= stamp.seconds + 1);
    assert!(stamp.seconds <= after + 1);
    assert_eq!(stamp.subsec_nanos % 1_000_000, 0);
    assert!(stamp.subsec_nanos < 1_000_000_000);
}

#[test]
fn validate_accepts_version_seven() {
    assert_eq!(UserId::validate(SAMPLE).unwrap().as_u128(), SAMPLE);
    assert_eq!(ProjectId::validate(SAMPLE).unwrap().as_u128(), SAMPLE);
    assert_eq!(EntryId::validate(SAMPLE).unwrap().as_u128(), SAMPLE);
    let smallest = 7u128 << 76;
    assert_eq!(UserId::validate(smallest).unwrap().as_u128(), smallest);
    let largest = u128::MAX & !(0xfu128 << 76) | (7u128 << 76);
    assert_eq!(UserId::validate(largest).unwrap().as_u128(), largest);
}

#[test]
fn validate_refuses_every_other_version() {
    for version in 0..16u128 {
        if version == 7 {
            continue;
        }
        let raw = SAMPLE & !(0xfu128 << 76) | (version << 76);
        assert_eq!(UserId::validate(raw).unwrap_err(), ModelError::InvalidId);
        assert_eq!(ProjectId::validate(raw).unwrap_err(), ModelError::InvalidId);
        assert_eq!(EntryId::validate(raw).unwrap_err(), ModelError::InvalidId);
    }
}

#[test]
fn validate_reads_the_version_from_its_own_bits() {
    // the number seven itself carries version zero
    assert_eq!(UserId::validate(7).unwrap_err(), ModelError::InvalidId);
    assert_eq!(UserId::validate(0).unwrap_err(), ModelError::InvalidId);
    assert_eq!(UserId::validate(u128::MAX).unwrap_err(), ModelError::InvalidId);
}

#[test]
fn validate_agrees_with_the_uuid_crate() {
    for raw in [SAMPLE, 0, 7, u128::MAX, 7u128 << 76, 4u128 << 76, 0x7u128 << 72, 0x7u128 << 80] {
        let expected = uuid::Uuid::from_u128(raw).get_version_num() == 7;
        assert_eq!(UserId::validate(raw).is_ok(), expected);
    }
}

#[test]
fn timestamp_recovers_the_encoded_time() {
    let id = UserId::validate(SAMPLE).unwrap();
    assert_eq!(id.timestamp(), Timestamp { seconds: 1645557742, subsec_nanos: 0 });
    let with_millis = UserId::validate(SAMPLE + (123u128 << 80)).unwrap();
    assert_eq!(
        with_millis.timestamp(),
        Timestamp { seconds: 1645557742, subsec_nanos: 123_000_000 }
    );
    let epoch = ProjectId::validate(7u128 << 76).unwrap();
    assert_eq!(epoch.timestamp(), Timestamp { seconds: 0, subsec_nanos: 0 });
    let last = EntryId::validate(u128::MAX & !(0xfu128 << 76) | (7u128 << 76)).unwrap();
    let millis: u64 = (1 << 48) - 1;
    assert_eq!(
        last.timestamp(),
        Timestamp {
            seconds: millis / 1000,
            subsec_nanos: ((millis % 1000) * 1_000_000) as u32
        }
    );
}

#[test]
fn identifiers_sort_by_their_time() {
    let early = UserId::validate(SAMPLE | 0xfff_ffff_ffff_ffff).unwrap();
    let late = UserId::validate((SAMPLE + (1u128 << 80)) & !0xffffu128).unwrap();
    assert!(early.timestamp().seconds <= late.timestamp().seconds);
    assert!(early.as_u128() < late.as_u128());
}

#[test]
fn parse_reads_the_hyphenated_text() {
    assert_eq!(UserId::parse(SAMPLE_TEXT).unwrap().as_u128(), SAMPLE);
    assert_eq!(ProjectId::parse(SAMPLE_TEXT).unwrap().as_u128(), SAMPLE);
    assert_eq!(EntryId::parse(SAMPLE_TEXT).unwrap().as_u128(), SAMPLE);
}

#[test]
fn parse_reads_the_other_forms_of_the_text() {
    assert_eq!(UserId::parse("017f22e279b07cc398c4dc0c0c07398f").unwrap().as_u128(), SAMPLE);
    assert_eq!(UserId::parse("017F22E2-79B0-7CC3-98C4-DC0C0C07398F").unwrap().as_u128(), SAMPLE);
    assert_eq!(
        UserId::parse("{017f22e2-79b0-7cc3-98c4-dc0c0c07398f}").unwrap().as_u128(),
        SAMPLE
    );
    assert_eq!(
        UserId::parse("urn:uuid:017f22e2-79b0-7cc3-98c4-dc0c0c07398f").unwrap().as_u128(),
        SAMPLE
    );
}

#[test]
fn parse_refuses_what_is_no_identifier() {
    for text in ["", "me", "alice1", "017f22e2-79b0-7cc3-98c4", "017f22e2-79b0-7cc3-98c4-dc0c0c07398g"] {
        assert_eq!(UserId::parse(text).unwrap_err(), ModelError::InvalidId);
        assert_eq!(ProjectId::parse(text).unwrap_err(), ModelError::InvalidId);
        assert_eq!(EntryId::parse(text).unwrap_err(), ModelError::InvalidId);
    }
}

#[test]
fn parse_refuses_identifiers_of_another_version() {
    // a version 4 value and the nil value
    for text in ["550e8400-e29b-41d4-a716-446655440000", "00000000-0000-0000-0000-000000000000"] {
        assert_eq!(UserId::parse(text).unwrap_err(), ModelError::InvalidId);
        assert_eq!(ProjectId::parse(text).unwrap_err(), ModelError::InvalidId);
        assert_eq!(EntryId::parse(text).unwrap_err(), ModelError::InvalidId);
    }
}

#[test]
fn from_str_agrees_with_parse() {
    assert_eq!(UserId::from_str(SAMPLE_TEXT).unwrap().as_u128(), SAMPLE);
    assert_eq!(SAMPLE_TEXT.parse::<ProjectId>().unwrap().as_u128(), SAMPLE);
    assert_eq!("nope".parse::<EntryId>().unwrap_err(), ModelError::InvalidId);
}

#[test]
fn to_string_gives_the_hyphenated_text() {
    assert_eq!(UserId::validate(SAMPLE).unwrap().to_string(), SAMPLE_TEXT);
    assert_eq!(ProjectId::validate(SAMPLE).unwrap().to_string(), SAMPLE_TEXT);
    assert_eq!(EntryId::validate(SAMPLE).unwrap().to_string(), SAMPLE_TEXT);
    assert_eq!(
        UserId::validate(7u128 << 76).unwrap().to_string(),
        "00000000-0000-7000-0000-000000000000"
    );
    assert_eq!(
        UserId::validate(u128::MAX & !(0xfu128 << 76) | (7u128 << 76)).unwrap().to_string(),
        "ffffffff-ffff-7fff-ffff-ffffffffffff"
    );
}

#[test]
fn the_text_of_an_identifier_parses_back_to_it() {
    for _ in 0..20 {
        let id = UserId::create();
        let text = id.to_string();
        assert_eq!(text.chars().count(), 36);
        assert_eq!(UserId::parse(&text).unwrap(), id);
    }
    let project = ProjectId::create();
    assert_eq!(ProjectId::parse(&project.to_string()).unwrap(), project);
    let entry = EntryId::create();
    assert_eq!(EntryId::parse(&entry.to_string()).unwrap(), entry);
}

#[test]
fn identifiers_are_copied_and_compared_by_value() {
    let id = UserId::validate(SAMPLE).unwrap();
    let copy = id;
    assert_eq!(id, copy);
    assert_eq!(id.clone(), copy);
}

#[test]
fn an_identifier_stamped_at_a_given_time() {
    let raw = reverie::id::raw_stamped_at(1645557742, 123_456_789).unwrap();
    assert_eq!(raw >> 80, 1645557742123);
    assert_eq!(version_of(raw), 7);
    let id = UserId::validate(raw).unwrap();
    assert_eq!(id.timestamp(), Timestamp { seconds: 1645557742, subsec_nanos: 123_000_000 });
}

#[test]
fn an_identifier_stamped_at_the_epoch() {
    let raw = reverie::id::raw_stamped_at(0, 0).unwrap();
    assert_eq!(raw >> 80, 0);
    assert_eq!(version_of(raw), 7);
    let other = reverie::id::raw_stamped_at(0, 999_999).unwrap();
    assert_eq!(other >> 80, 0);
    assert_ne!(raw, other);
}

#[test]
fn the_last_time_that_an_identifier_encodes() {
    let last_second = (1u64 << 48) / 1000;
    let raw = reverie::id::raw_stamped_at(last_second, 655_999_999).unwrap();
    assert_eq!(raw >> 80, (1u128 << 48) - 1);
    assert_eq!(version_of(raw), 7);
    assert_eq!(reverie::id::raw_stamped_at(last_second, 656_000_000), None);
    assert_eq!(reverie::id::raw_stamped_at(last_second + 1, 0), None);
    assert_eq!(reverie::id::raw_stamped_at(u64::MAX, u32::MAX), None);
}
