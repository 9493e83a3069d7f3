use matrix_client_boilerplate::errors::Error;
use matrix_client_boilerplate::session::{
    SessionRecord, decode_session, encode_session, interpret_session_file, session_file_name,
};

fn record(user: &str, device: &str, token: &str, refresh: Option<&str>) -> SessionRecord {
    SessionRecord {
        user_id: user.to_string(),
        device_id: device.to_string(),
        access_token: token.to_string(),
        refresh_token: refresh.map(|r| r.to_string()),
    }
}

fn assert_same(a: &SessionRecord, b: &SessionRecord) {
    assert_eq!(a.user_id, b.user_id);
    assert_eq!(a.device_id, b.device_id);
    assert_eq!(a.access_token, b.access_token);
    assert_eq!(a.refresh_token, b.refresh_token);
}

#[test]
fn round_trip_without_refresh_token() {
    let r = record("@alice:example.org", "DEVICEID", "syt_secret", None);
    let text = encode_session(&r);
    let back = decode_session(&text).unwrap();
    assert_same(&r, &back);
}

#[test]
fn round_trip_with_refresh_token() {
    let r = record("@bob:server.net", "ABCDEF", "token-123", Some("refresh-456"));
    let text = encode_session(&r);
    let back = decode_session(&text).unwrap();
    assert_same(&r, &back);
}

#[test]
fn round_trip_with_escaped_characters() {
    let r = record("@quo\"te:ex.org", "de\\vice", "to\"k\\en\"", Some("\\\"\\\""));
    let text = encode_session(&r);
    let back = decode_session(&text).unwrap();
    assert_same(&r, &back);
}

#[test]
fn round_trip_empty_fields() {
    let r = record("", "", "", Some(""));
    let text = encode_session(&r);
    let back = decode_session(&text).unwrap();
    assert_same(&r, &back);
}

#[test]
fn encode_writes_the_canonical_object() {
    let r = record("@alice:example.org", "DEV1", "tok", Some("r1"));
    let text = encode_session(&r);
    assert_eq!(
        text,
        "{\"user_id\":\"@alice:example.org\",\"device_id\":\"DEV1\",\"access_token\":\"tok\",\"refresh_token\":\"r1\"}"
    );
}

#[test]
fn encode_omits_an_absent_refresh_token() {
    let r = record("@alice:example.org", "DEV1", "tok", None);
    let text = encode_session(&r);
    assert_eq!(
        text,
        "{\"user_id\":\"@alice:example.org\",\"device_id\":\"DEV1\",\"access_token\":\"tok\"}"
    );
}

#[test]
fn decode_rejects_corrupt_content() {
    let corrupt = [
        "",
        "{}",
        "not json at all",
        "{\"user_id\":\"x\"}",
        "{\"user_id\":\"@a:b\",\"device_id\":\"d\",\"access_token\":\"t\"",
        "{\"user_id\":\"@a:b\",\"device_id\":\"d\",\"access_token\":\"t\"}trailing",
        "{\"user_id\":\"@a:b\",\"device_id\":\"d\",\"access_token\":\"t\\",
        "{\"user_id\":\"@a:b\",\"device_id\":\"d\",\"wrong_key\":\"t\"}",
        "{\"user_id\":\"@a:b\",\"device_id\":\"d\",\"access_token\":\"t\\x\"}",
    ];
    for text in corrupt {
        let r = decode_session(text);
        assert!(matches!(r, Err(Error::CorruptSession)), "accepted: {}", text);
    }
}

#[test]
fn interpret_absent_file_is_no_session() {
    let r = interpret_session_file(None).unwrap();
    assert!(r.is_none());
}

#[test]
fn interpret_valid_file_is_the_session() {
    let rec = record("@alice:example.org", "DEV1", "tok", None);
    let text = encode_session(&rec);
    let r = interpret_session_file(Some(&text)).unwrap();
    let back = r.unwrap();
    assert_same(&rec, &back);
}

#[test]
fn interpret_corrupt_file_is_an_error() {
    let r = interpret_session_file(Some("garbage"));
    assert!(matches!(r, Err(Error::CorruptSession)));
}

#[test]
fn session_file_has_a_fixed_name() {
    assert_eq!(session_file_name(), "session.json");
}
