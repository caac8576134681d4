use bell_server::digest::{compute, compute_digest};
use bell_server::SipCallData;

fn scenario_data() -> SipCallData {
    SipCallData {
        source: String::from("10.0.0.2"),
        server: String::from("10.0.0.1"),
        port: 5060,
        target: String::from("100"),
        username: String::from("door"),
        password: String::from("secret"),
    }
}

#[test]
fn compute_matches_known_value() {
    let d = compute(
        "door",
        "secret",
        "example.com",
        "ABC123",
        "INVITE",
        "sip:door@10.0.0.1",
    );
    assert_eq!(d, "d90b47b42153a0d64ebbb32f3e61abe3");
}

#[test]
fn compute_is_deterministic_with_fixed_shape() {
    let a = compute("door", "secret", "example.com", "ABC123", "INVITE", "sip:door@10.0.0.1");
    let b = compute("door", "secret", "example.com", "ABC123", "INVITE", "sip:door@10.0.0.1");
    assert_eq!(a, b);
    assert_eq!(a.len(), 32);
    assert!(a.chars().all(|c| c.is_ascii_hexdigit() && !c.is_ascii_uppercase()));
}

#[test]
fn compute_changes_when_password_changes() {
    let a = compute("door", "secret", "example.com", "ABC123", "INVITE", "sip:door@10.0.0.1");
    let b = compute("door", "Secret", "example.com", "ABC123", "INVITE", "sip:door@10.0.0.1");
    assert_ne!(a, b);
    assert_eq!(b, "501f5bee7e5a3bd722ae10119c2e99ce");
}

#[test]
fn compute_changes_when_nonce_changes() {
    let a = compute("door", "secret", "example.com", "ABC123", "INVITE", "sip:door@10.0.0.1");
    let b = compute("door", "secret", "example.com", "ABC124", "INVITE", "sip:door@10.0.0.1");
    assert_ne!(a, b);
    assert_eq!(b, "93c06e533672a2dbe421d96dae64b45d");
}

#[test]
fn compute_changes_when_each_other_input_changes() {
    let base = compute("door", "secret", "example.com", "ABC123", "INVITE", "sip:door@10.0.0.1");
    let user = compute("Door", "secret", "example.com", "ABC123", "INVITE", "sip:door@10.0.0.1");
    let realm = compute("door", "secret", "example.org", "ABC123", "INVITE", "sip:door@10.0.0.1");
    let method = compute("door", "secret", "example.com", "ABC123", "CANCEL", "sip:door@10.0.0.1");
    let uri = compute("door", "secret", "example.com", "ABC123", "INVITE", "sip:door@10.0.0.2");
    assert_ne!(base, user);
    assert_ne!(base, realm);
    assert_ne!(base, method);
    assert_ne!(base, uri);
}

#[test]
fn compute_digest_uses_invite_and_the_call_data() {
    let data = scenario_data();
    let uri = String::from("sip:door@10.0.0.1");
    let auth = (String::from("example.com"), String::from("ABC123"));
    let d = compute_digest(&data, &uri, &auth);
    assert_eq!(d, "d90b47b42153a0d64ebbb32f3e61abe3");
}
