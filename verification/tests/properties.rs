use ruma_identifiers::{Error, EventId, RoomVersionId, UserId, UserLocalpart};

#[test]
fn three_character_input_is_too_short() {
    assert_eq!(
        EventId::try_from("$ab").err().unwrap(),
        Error::MinimumLengthNotSatisfied
    );
}

#[test]
fn input_of_256_bytes_is_too_long() {
    // 1 (sigil) + 243 (opaque) + 1 (colon) + 11 ("example.com") = 256 bytes
    let opaque = "a".repeat(243);
    let input = format!("${}:example.com", opaque);
    assert_eq!(input.len(), 256);
    assert_eq!(
        EventId::try_from(&input).err().unwrap(),
        Error::MaximumLengthExceeded
    );
}

#[test]
fn input_of_255_bytes_is_accepted() {
    let opaque = "a".repeat(242);
    let input = format!("${}:example.com", opaque);
    assert_eq!(input.len(), 255);
    let event_id = EventId::try_from(&input).expect("Failed to create EventId.");
    assert_eq!(event_id.to_string(), input);
}

#[test]
fn room_version_of_32_code_points_is_accepted() {
    let input = "a".repeat(32);
    let version = RoomVersionId::try_from(&input[..]).expect("Failed to create RoomVersionId.");
    assert!(version.is_custom());
    assert_eq!(version.to_string(), input);
}

#[test]
fn room_version_of_33_code_points_is_rejected() {
    let input = "a".repeat(33);
    assert_eq!(
        RoomVersionId::try_from(&input[..]),
        Err(Error::MaximumLengthExceeded)
    );
}

#[test]
fn custom_constructor_skips_length_validation() {
    // The named constructor deliberately performs no length check; only
    // parsing enforces the 1-32 code point bound.
    let long = "a".repeat(40);
    let version = RoomVersionId::custom(&long);
    assert!(version.is_custom());
    assert_eq!(version.to_string(), long);
}

#[test]
fn parsed_value_round_trips_through_format() {
    let parsed = EventId::try_from("$39hvsi03hlne:example.com:5000")
        .expect("Failed to create EventId.");
    let reparsed = EventId::try_from(&parsed.to_string())
        .expect("Failed to re-create EventId from canonical form.");
    assert_eq!(parsed, reparsed);
}

#[test]
fn explicit_default_port_parses_equal_to_implicit() {
    let explicit = EventId::try_from("$39hvsi03hlne:example.com:443")
        .expect("Failed to create EventId.");
    let implicit = EventId::try_from("$39hvsi03hlne:example.com")
        .expect("Failed to create EventId.");
    assert_eq!(explicit, implicit);
    assert_eq!(explicit.port(), 443);
}

#[test]
fn accessors_return_the_parsed_parts() {
    let event_id = EventId::try_from("$39hvsi03hlne:example.com:5000")
        .expect("Failed to create EventId.");
    assert_eq!(event_id.opaque_id(), "39hvsi03hlne");
    assert_eq!(event_id.hostname().as_str(), "example.com");
    assert_eq!(event_id.port(), 5000);
}

#[test]
fn host_is_normalized_to_lowercase() {
    let event_id = EventId::try_from("$39hvsi03hlne:EXAMPLE.com")
        .expect("Failed to create EventId.");
    assert_eq!(event_id.hostname().as_str(), "example.com");
    assert_eq!(event_id.to_string(), "$39hvsi03hlne:example.com");
}

#[test]
fn ipv6_host_round_trips() {
    let event_id = EventId::try_from("$39hvsi03hlne:[::1]:5000")
        .expect("Failed to create EventId.");
    assert_eq!(event_id.hostname().as_str(), "[::1]");
    assert_eq!(event_id.to_string(), "$39hvsi03hlne:[::1]:5000");
}

#[test]
fn generated_opaque_id_is_alphanumeric() {
    let event_id = EventId::new("example.com").expect("Failed to generate EventId.");
    let opaque = event_id.opaque_id();
    assert_eq!(opaque.chars().count(), 18);
    assert!(opaque.chars().all(|c| c.is_ascii_alphanumeric()));
}

#[test]
fn valid_user_localpart() {
    let localpart = UserLocalpart::try_from("carl").expect("Failed to create UserLocalpart.");
    assert_eq!(localpart.as_str(), "carl");
}

#[test]
fn user_localpart_accepts_the_full_character_set() {
    let localpart =
        UserLocalpart::try_from("a.b_c=d-e0").expect("Failed to create UserLocalpart.");
    assert_eq!(localpart.as_str(), "a.b_c=d-e0");
}

#[test]
fn user_localpart_rejects_uppercase() {
    assert_eq!(
        UserLocalpart::try_from("CARL").err().unwrap(),
        Error::InvalidCharacters
    );
}

#[test]
fn user_localpart_rejects_empty() {
    assert_eq!(
        UserLocalpart::try_from("").err().unwrap(),
        Error::InvalidCharacters
    );
}

#[test]
fn generated_user_localpart_has_twelve_characters() {
    let localpart = UserLocalpart::new();
    assert_eq!(localpart.as_str().chars().count(), 12);
    assert!(localpart.as_str().chars().all(|c| c.is_ascii_alphanumeric()));
}

#[test]
fn user_id_localpart_accessor() {
    let user_id = UserId::try_from("@carl:example.com").expect("Failed to create UserId.");
    assert_eq!(user_id.localpart().as_str(), "carl");
    assert_eq!(user_id.hostname().as_str(), "example.com");
    assert_eq!(user_id.port(), 443);
}

#[test]
fn parsed_official_version_equals_constructed() {
    assert_eq!(
        RoomVersionId::try_from("1").expect("Failed to create RoomVersionId."),
        RoomVersionId::version_1()
    );
}

#[test]
fn custom_version_differs_from_official_with_same_text() {
    let official = RoomVersionId::version_1();
    let custom = RoomVersionId::custom("1");
    assert_eq!(official.to_string(), custom.to_string());
    assert_ne!(official, custom);
}

#[test]
fn error_descriptions() {
    assert_eq!(
        Error::InvalidCharacters.description(),
        "localpart contains invalid characters"
    );
    assert_eq!(
        Error::InvalidHost.description(),
        "server name is not a valid IP address or domain name"
    );
    assert_eq!(
        Error::MaximumLengthExceeded.description(),
        "ID exceeds 255 bytes"
    );
    assert_eq!(
        Error::MinimumLengthNotSatisfied.description(),
        "ID must be at least 4 characters"
    );
    assert_eq!(
        Error::MissingDelimiter.description(),
        "colon is required between localpart and server name"
    );
    assert_eq!(Error::MissingSigil.description(), "leading sigil is missing");
}
