use matrix_client_boilerplate::errors::Error;
use matrix_client_boilerplate::identity::UserId;

#[test]
fn a_structured_identity_parses() {
    let u = UserId::parse("@alice:example.org").unwrap();
    assert_eq!(u.localpart(), "alice");
    assert_eq!(u.server_name(), "example.org");
}

#[test]
fn the_domain_may_carry_a_port() {
    let u = UserId::parse("@alice:example.org:8448").unwrap();
    assert_eq!(u.localpart(), "alice");
    assert_eq!(u.server_name(), "example.org:8448");
}

#[test]
fn missing_structural_parts_are_rejected() {
    let malformed = [
        "notanid",
        "",
        "@",
        "@:",
        "@a:",
        "@:b",
        "@:a:b",
        "alice:example.org",
        "@alice",
    ];
    for text in malformed {
        let r = UserId::parse(text);
        assert!(matches!(r, Err(Error::InvalidIdentity)), "accepted: {}", text);
    }
}

#[test]
fn the_split_is_at_the_first_colon() {
    let u = UserId::parse("@a:b:c").unwrap();
    assert_eq!(u.localpart(), "a");
    assert_eq!(u.server_name(), "b:c");
}
