use ruma_identifiers::{Error, EventId, RoomAliasId, RoomId, UserId};

#[test]
fn valid_event_id() {
    assert_eq!(
        EventId::try_from("$39hvsi03hlne:example.com")
            .expect("Failed to create EventId.")
            .to_string(),
        "$39hvsi03hlne:example.com"
    );
}

#[test]
fn generate_random_valid_event_id() {
    let event_id = EventId::new("example.com")
        .expect("Failed to generate EventId.")
        .to_string();

    assert!(event_id.to_string().starts_with('$'));
    assert_eq!(event_id.len(), 31);
}

#[test]
fn generate_random_invalid_event_id() {
    assert!(EventId::new("").is_err());
}

#[test]
fn valid_event_id_with_explicit_standard_port() {
    assert_eq!(
        EventId::try_from("$39hvsi03hlne:example.com:443")
            .expect("Failed to create EventId.")
            .to_string(),
        "$39hvsi03hlne:example.com"
    );
}

#[test]
fn valid_event_id_with_non_standard_port() {
    assert_eq!(
        EventId::try_from("$39hvsi03hlne:example.com:5000")
            .expect("Failed to create EventId.")
            .to_string(),
        "$39hvsi03hlne:example.com:5000"
    );
}

#[test]
fn missing_event_id_sigil() {
    assert_eq!(
        EventId::try_from("39hvsi03hlne:example.com").err().unwrap(),
        Error::MissingSigil
    );
}

#[test]
fn missing_event_id_delimiter() {
    assert_eq!(
        EventId::try_from("$39hvsi03hlne").err().unwrap(),
        Error::MissingDelimiter
    );
}

#[test]
fn invalid_event_id_host() {
    assert_eq!(
        EventId::try_from("$39hvsi03hlne:-").err().unwrap(),
        Error::InvalidHost
    );
}

#[test]
fn invalid_event_id_port() {
    assert_eq!(
        EventId::try_from("$39hvsi03hlne:example.com:notaport").err().unwrap(),
        Error::InvalidHost
    );
}

#[test]
fn valid_room_alias_id() {
    assert_eq!(
        RoomAliasId::try_from("#ruma:example.com")
            .expect("Failed to create RoomAliasId.")
            .to_string(),
        "#ruma:example.com"
    );
}

#[test]
fn valid_room_alias_id_with_explicit_standard_port() {
    assert_eq!(
        RoomAliasId::try_from("#ruma:example.com:443")
            .expect("Failed to create RoomAliasId.")
            .to_string(),
        "#ruma:example.com"
    );
}

#[test]
fn valid_room_alias_id_with_non_standard_port() {
    assert_eq!(
        RoomAliasId::try_from("#ruma:example.com:5000")
            .expect("Failed to create RoomAliasId.")
            .to_string(),
        "#ruma:example.com:5000"
    );
}

#[test]
fn missing_room_alias_id_sigil() {
    assert_eq!(
        RoomAliasId::try_from("39hvsi03hlne:example.com").err().unwrap(),
        Error::MissingSigil
    );
}

#[test]
fn missing_room_alias_id_delimiter() {
    assert_eq!(
        RoomAliasId::try_from("#ruma").err().unwrap(),
        Error::MissingDelimiter
    );
}

#[test]
fn invalid_room_alias_id_host() {
    assert_eq!(
        RoomAliasId::try_from("#ruma:-").err().unwrap(),
        Error::InvalidHost
    );
}

#[test]
fn invalid_room_alias_id_port() {
    assert_eq!(
        RoomAliasId::try_from("#ruma:example.com:notaport").err().unwrap(),
        Error::InvalidHost
    );
}

#[test]
fn valid_room_id() {
    assert_eq!(
        RoomId::try_from("!29fhd83h92h0:example.com")
            .expect("Failed to create RoomId.")
            .to_string(),
        "!29fhd83h92h0:example.com"
    );
}

#[test]
fn generate_random_valid_room_id() {
    let room_id = RoomId::new("example.com")
        .expect("Failed to generate RoomId.")
        .to_string();

    assert!(room_id.to_string().starts_with('!'));
    assert_eq!(room_id.len(), 31);
}

#[test]
fn generate_random_invalid_room_id() {
    assert!(RoomId::new("").is_err());
}

#[test]
fn valid_room_id_with_explicit_standard_port() {
    assert_eq!(
        RoomId::try_from("!29fhd83h92h0:example.com:443")
            .expect("Failed to create RoomId.")
            .to_string(),
        "!29fhd83h92h0:example.com"
    );
}

#[test]
fn valid_room_id_with_non_standard_port() {
    assert_eq!(
        RoomId::try_from("!29fhd83h92h0:example.com:5000")
            .expect("Failed to create RoomId.")
            .to_string(),
        "!29fhd83h92h0:example.com:5000"
    );
}

#[test]
fn missing_room_id_sigil() {
    assert_eq!(
        RoomId::try_from("carl:example.com").err().unwrap(),
        Error::MissingSigil
    );
}

#[test]
fn missing_room_id_delimiter() {
    assert_eq!(
        RoomId::try_from("!29fhd83h92h0").err().unwrap(),
        Error::MissingDelimiter
    );
}

#[test]
fn invalid_room_id_host() {
    assert_eq!(
        RoomId::try_from("!29fhd83h92h0:-").err().unwrap(),
        Error::InvalidHost
    );
}

#[test]
fn invalid_room_id_port() {
    assert_eq!(
        RoomId::try_from("!29fhd83h92h0:example.com:notaport").err().unwrap(),
        Error::InvalidHost
    );
}

#[test]
fn valid_user_id() {
    assert_eq!(
        UserId::try_from("@carl:example.com")
            .expect("Failed to create UserId.")
            .to_string(),
        "@carl:example.com"
    );
}

#[test]
fn generate_random_valid_user_id() {
    let user_id = UserId::new("example.com")
        .expect("Failed to generate UserId.")
        .to_string();

    assert!(user_id.to_string().starts_with('@'));
    assert_eq!(user_id.len(), 25);
}

#[test]
fn generate_random_invalid_user_id() {
    assert!(UserId::new("").is_err());
}

#[test]
fn valid_user_id_with_explicit_standard_port() {
    assert_eq!(
        UserId::try_from("@carl:example.com:443")
            .expect("Failed to create UserId.")
            .to_string(),
        "@carl:example.com"
    );
}

#[test]
fn valid_user_id_with_non_standard_port() {
    assert_eq!(
        UserId::try_from("@carl:example.com:5000")
            .expect("Failed to create UserId.")
            .to_string(),
        "@carl:example.com:5000"
    );
}

#[test]
fn invalid_characters_in_user_id_localpart() {
    assert_eq!(
        UserId::try_from("@CARL:example.com").err().unwrap(),
        Error::InvalidCharacters
    );
}

#[test]
fn missing_user_id_sigil() {
    assert_eq!(
        UserId::try_from("carl:example.com").err().unwrap(),
        Error::MissingSigil
    );
}

#[test]
fn missing_user_id_delimiter() {
    assert_eq!(
        UserId::try_from("@carl").err().unwrap(),
        Error::MissingDelimiter
    );
}

#[test]
fn invalid_user_id_host() {
    assert_eq!(
        UserId::try_from("@carl:-").err().unwrap(),
        Error::InvalidHost
    );
}

#[test]
fn invalid_user_id_port() {
    assert_eq!(
        UserId::try_from("@carl:example.com:notaport").err().unwrap(),
        Error::InvalidHost
    );
}
