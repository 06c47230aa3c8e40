use iris_cli::errors::Error;
use iris_cli::secret::{encode_secret, parse_secret, Secret};

#[test]
fn round_trip_with_separators_in_passphrase() {
    let original = Secret {
        room_identifier: "42".to_string(),
        passphrase: "co-rrect-battery".to_string(),
    };
    let encoded = encode_secret(&original);
    assert_eq!(encoded, "42-co-rrect-battery");

    let parsed = parse_secret(&encoded).unwrap();
    assert_eq!(parsed.room_identifier, "42");
    assert_eq!(parsed.passphrase, "co-rrect-battery");
}

#[test]
fn parse_splits_at_first_separator_only() {
    let parsed = parse_secret("room-pass-word").unwrap();
    assert_eq!(parsed.room_identifier, "room");
    assert_eq!(parsed.passphrase, "pass-word");
}

#[test]
fn malformed_secret_is_rejected() {
    let r = parse_secret("noseparatorhere");
    assert!(matches!(r, Err(Error::InvalidSecretFormat)));
    assert!(r.unwrap_err().is_invalid_secret_format());
}

#[test]
fn empty_text_is_rejected() {
    assert!(matches!(parse_secret(""), Err(Error::InvalidSecretFormat)));
}

#[test]
fn empty_passphrase_round_trips() {
    let original = Secret {
        room_identifier: "room".to_string(),
        passphrase: String::new(),
    };
    let encoded = encode_secret(&original);
    assert_eq!(encoded, "room-");
    let parsed = parse_secret(&encoded).unwrap();
    assert_eq!(parsed.room_identifier, "room");
    assert_eq!(parsed.passphrase, "");
}

#[test]
fn empty_room_identifier_round_trips() {
    let parsed = parse_secret("-passphrase").unwrap();
    assert_eq!(parsed.room_identifier, "");
    assert_eq!(parsed.passphrase, "passphrase");
}

#[test]
fn separator_only_splits_into_two_empty_fields() {
    let parsed = parse_secret("-").unwrap();
    assert_eq!(parsed.room_identifier, "");
    assert_eq!(parsed.passphrase, "");
}
