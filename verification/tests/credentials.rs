use completion_client::error::CallError;
use completion_client::headers::{credential_headers, AUTHORIZATION, BEARER, ORGANIZATION};

#[test]
fn headers_carry_both_secrets() {
    let headers = credential_headers("sk-test", "org-test").unwrap();
    assert_eq!(headers.len(), 2);
    assert_eq!(headers.get("authorization").unwrap().as_bytes(), b"Bearer sk-test");
    assert_eq!(headers.get("openai-organization").unwrap().as_bytes(), b"org-test");
}

#[test]
fn header_names_are_stored_in_lower_case() {
    let headers = credential_headers("sk-test", "org-test").unwrap();
    let mut names: Vec<String> = headers.keys().map(|name| name.as_str().to_string()).collect();
    names.sort();
    assert_eq!(names, vec!["authorization".to_string(), "openai-organization".to_string()]);
    assert_eq!(headers.get(ORGANIZATION).unwrap().as_bytes(), b"org-test");
    assert_eq!(headers.get(AUTHORIZATION).unwrap().as_bytes(), b"Bearer sk-test");
}

#[test]
fn each_name_has_one_value() {
    let headers = credential_headers("sk-test", "org-test").unwrap();
    assert_eq!(headers.get_all("authorization").iter().count(), 1);
    assert_eq!(headers.get_all("openai-organization").iter().count(), 1);
}

#[test]
fn the_constants_are_the_wire_names() {
    assert_eq!(AUTHORIZATION, "authorization");
    assert_eq!(ORGANIZATION, "OpenAI-Organization");
    assert_eq!(BEARER, "Bearer ");
}

#[test]
fn a_line_feed_in_the_key_is_refused() {
    let outcome = credential_headers("sk-\ntest", "org-test");
    assert_eq!(outcome.unwrap_err(), CallError::InvalidCredentialEncoding);
}

#[test]
fn a_line_feed_in_the_organization_is_refused() {
    let outcome = credential_headers("sk-test", "org\n");
    assert_eq!(outcome.unwrap_err(), CallError::InvalidCredentialEncoding);
}

#[test]
fn control_characters_are_refused() {
    for code in (0u8..32).filter(|code| *code != 9).chain([127u8]) {
        let secret = format!("a{}b", code as char);
        assert!(credential_headers(&secret, "org").is_err(), "key with byte {}", code);
        assert!(credential_headers("key", &secret).is_err(), "organization with byte {}", code);
    }
}

#[test]
fn the_tab_is_accepted() {
    let headers = credential_headers("a\tb", "c\td").unwrap();
    assert_eq!(headers.get("authorization").unwrap().as_bytes(), b"Bearer a\tb");
    assert_eq!(headers.get("openai-organization").unwrap().as_bytes(), b"c\td");
}

#[test]
fn printable_characters_are_accepted() {
    for code in 32u8..127 {
        let secret = format!("a{}b", code as char);
        let headers = credential_headers(&secret, &secret).unwrap();
        let bearer = format!("Bearer {}", secret);
        assert_eq!(headers.get("authorization").unwrap().as_bytes(), bearer.as_bytes());
        assert_eq!(headers.get("openai-organization").unwrap().as_bytes(), secret.as_bytes());
    }
}

#[test]
fn characters_beyond_ascii_travel_as_utf8() {
    let headers = credential_headers("cl\u{e9}", "\u{7ec4}\u{7ec7}-\u{1f600}").unwrap();
    assert_eq!(headers.get("authorization").unwrap().as_bytes(), "Bearer cl\u{e9}".as_bytes());
    assert_eq!(
        headers.get("openai-organization").unwrap().as_bytes(),
        "\u{7ec4}\u{7ec7}-\u{1f600}".as_bytes()
    );
}

#[test]
fn a_control_character_beyond_ascii_is_accepted() {
    // U+0085 is a control character, but its bytes are 0xC2 0x85.
    let headers = credential_headers("a\u{85}b", "org").unwrap();
    assert_eq!(headers.get("authorization").unwrap().as_bytes(), "Bearer a\u{85}b".as_bytes());
}

#[test]
fn empty_secrets_are_accepted() {
    let headers = credential_headers("", "").unwrap();
    assert_eq!(headers.get("authorization").unwrap().as_bytes(), b"Bearer ");
    assert_eq!(headers.get("openai-organization").unwrap().as_bytes(), b"");
}
