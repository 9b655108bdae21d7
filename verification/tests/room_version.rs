use ruma_identifiers::{Error, RoomVersionId};

#[test]
fn valid_version_1_room_version_id() {
    assert_eq!(
        RoomVersionId::try_from("1")
            .expect("Failed to create RoomVersionId.")
            .to_string(),
        "1"
    );
}

#[test]
fn valid_version_2_room_version_id() {
    assert_eq!(
        RoomVersionId::try_from("2")
            .expect("Failed to create RoomVersionId.")
            .to_string(),
        "2"
    );
}

#[test]
fn valid_version_3_room_version_id() {
    assert_eq!(
        RoomVersionId::try_from("3")
            .expect("Failed to create RoomVersionId.")
            .to_string(),
        "3"
    );
}

#[test]
fn valid_version_4_room_version_id() {
    assert_eq!(
        RoomVersionId::try_from("4")
            .expect("Failed to create RoomVersionId.")
            .to_string(),
        "4"
    );
}

#[test]
fn valid_version_5_room_version_id() {
    assert_eq!(
        RoomVersionId::try_from("5")
            .expect("Failed to create RoomVersionId.")
            .to_string(),
        "5"
    );
}

#[test]
fn valid_custom_room_version_id() {
    assert_eq!(
        RoomVersionId::try_from("io.ruma.1")
            .expect("Failed to create RoomVersionId.")
            .to_string(),
        "io.ruma.1"
    );
}

#[test]
fn empty_room_version_id() {
    assert_eq!(
        RoomVersionId::try_from(""),
        Err(Error::MinimumLengthNotSatisfied)
    );
}

#[test]
fn over_max_code_point_room_version_id() {
    assert_eq!(
        RoomVersionId::try_from("0123456789012345678901234567890123456789"),
        Err(Error::MaximumLengthExceeded)
    );
}

#[test]
fn constructors() {
    assert!(RoomVersionId::version_1().is_version_1());
    assert!(RoomVersionId::version_2().is_version_2());
    assert!(RoomVersionId::version_3().is_version_3());
    assert!(RoomVersionId::version_4().is_version_4());
    assert!(RoomVersionId::version_5().is_version_5());
    assert!(RoomVersionId::custom("foo").is_custom());
}

#[test]
fn predicate_methods() {
    let version_1 = RoomVersionId::try_from("1").expect("Failed to create RoomVersionId.");
    let version_2 = RoomVersionId::try_from("2").expect("Failed to create RoomVersionId.");
    let version_3 = RoomVersionId::try_from("3").expect("Failed to create RoomVersionId.");
    let version_4 = RoomVersionId::try_from("4").expect("Failed to create RoomVersionId.");
    let version_5 = RoomVersionId::try_from("5").expect("Failed to create RoomVersionId.");
    let custom = RoomVersionId::try_from("io.ruma.1").expect("Failed to create RoomVersionId.");

    assert!(version_1.is_version_1());
    assert!(version_2.is_version_2());
    assert!(version_3.is_version_3());
    assert!(version_4.is_version_4());
    assert!(version_5.is_version_5());

    assert!(!version_1.is_version_2());
    assert!(!version_1.is_version_3());
    assert!(!version_1.is_version_4());
    assert!(!version_1.is_version_5());

    assert!(version_1.is_official());
    assert!(version_2.is_official());
    assert!(version_3.is_official());
    assert!(version_4.is_official());
    assert!(version_5.is_official());

    assert!(!version_1.is_custom());
    assert!(!version_2.is_custom());
    assert!(!version_3.is_custom());
    assert!(!version_4.is_custom());
    assert!(!version_5.is_custom());

    assert!(custom.is_custom());
    assert!(!custom.is_official());
    assert!(!custom.is_version_1());
    assert!(!custom.is_version_2());
    assert!(!custom.is_version_3());
    assert!(!custom.is_version_4());
    assert!(!custom.is_version_5());
}
