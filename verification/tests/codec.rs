//! End-to-end tests of the session cookie codec: sealing, decoding,
//! fingerprint binding, and the Set-Cookie commit path.

use loginmanager::cookie_session::CookieSession;
use loginmanager::hex::to_hex;
use loginmanager::fingerprint::create_identifier;
use loginmanager::login_state::Pending;
use loginmanager::manager::DecodeRequest;
use loginmanager::session::{encode_record, parse_record, SessionRecord};

const KEY: &[u8] = &[7u8; 32];

#[test]
fn hex_of_known_bytes() {
    let bytes: Vec<u8> = vec![0x00, 0x01, 0x0f, 0x10, 0xa7, 0xbe, 0xff];
    assert_eq!(to_hex(&bytes), "00010f10a7beff");
}

#[test]
fn fingerprint_is_the_sha512_of_ip_and_agent() {
    // SHA-512 of "1.2.3.4AgentX": the port is stripped from the address.
    let fp = create_identifier(Some("1.2.3.4:8080"), Some("AgentX"));
    assert_eq!(
        fp,
        "672075d7c271ea18a54011fcf6242893d10afcaa858e576934e7a4ed5100b3a9\
         a01b35c44256c54c8592a5d3b5e2b50f3e360492312a875a05a2ad5834905e0f"
    );
}

#[test]
fn fingerprint_of_nothing_is_sha512_of_empty() {
    let fp = create_identifier(None, None);
    assert_eq!(
        fp,
        "cf83e1357eefb8bdf1542850d66d8007d620e4050b5715dc83f4a921d36ce9ce\
         47d0d13c5d85f2b0ff8318d2877eec2f63b931bd47417a81a538327af927da3e"
    );
}

#[test]
fn record_round_trip_with_key() {
    let fp = create_identifier(Some("1.2.3.4"), Some("X"));
    let rec = SessionRecord { fingerprint: fp.clone(), user_key: Some("42".to_string()) };
    let payload = encode_record(&rec);
    let back = parse_record(&payload).expect("well-formed payload");
    assert_eq!(back.fingerprint, fp);
    assert_eq!(back.user_key.as_deref(), Some("42"));
}

#[test]
fn record_round_trip_without_key() {
    let fp = create_identifier(Some("1.2.3.4"), Some("X"));
    let rec = SessionRecord { fingerprint: fp.clone(), user_key: None };
    let payload = encode_record(&rec);
    let back = parse_record(&payload).expect("well-formed payload");
    assert_eq!(back.fingerprint, fp);
    assert_eq!(back.user_key, None);
}

#[test]
fn malformed_payloads_are_rejected() {
    assert!(parse_record("").is_none());
    assert!(parse_record("short").is_none());
    // Proper length but an unknown marker.
    let fp = create_identifier(None, None);
    let mut p = fp.clone();
    p.push('x');
    assert!(parse_record(&p).is_none());
    // An anonymous marker followed by trailing text.
    let mut p = fp;
    p.push('0');
    p.push('y');
    assert!(parse_record(&p).is_none());
}

#[test]
fn round_trip_same_fingerprint_yields_key() {
    let session = CookieSession::new(KEY);
    let value = session.encode_value(Some("user-17"), Some("1.2.3.4:555"), Some("AgentX"));
    let decoded = session.decode(Some(&value), Some("1.2.3.4:555"), Some("AgentX"));
    assert_eq!(decoded.as_deref(), Some("user-17"));
}

#[test]
fn round_trip_ignores_port_changes() {
    // Only the address part enters the fingerprint, so another port on the
    // same address still decodes.
    let session = CookieSession::new(KEY);
    let value = session.encode_value(Some("user-17"), Some("1.2.3.4:555"), Some("AgentX"));
    let decoded = session.decode(Some(&value), Some("1.2.3.4:9999"), Some("AgentX"));
    assert_eq!(decoded.as_deref(), Some("user-17"));
}

#[test]
fn different_ip_fails_to_decode() {
    let session = CookieSession::new(KEY);
    let value = session.encode_value(Some("user-17"), Some("1.2.3.4:555"), Some("AgentX"));
    assert_eq!(session.decode(Some(&value), Some("5.6.7.8:555"), Some("AgentX")), None);
}

#[test]
fn different_agent_fails_to_decode() {
    let session = CookieSession::new(KEY);
    let value = session.encode_value(Some("user-17"), Some("1.2.3.4"), Some("AgentX"));
    assert_eq!(session.decode(Some(&value), Some("1.2.3.4"), Some("AgentY")), None);
}

#[test]
fn missing_cookie_decodes_to_no_key() {
    let session = CookieSession::new(KEY);
    assert_eq!(session.decode(None, Some("1.2.3.4"), Some("AgentX")), None);
}

#[test]
fn garbage_cookie_decodes_to_no_key() {
    let session = CookieSession::new(KEY);
    assert_eq!(session.decode(Some("not a sealed value"), Some("1.2.3.4"), Some("AgentX")), None);
}

#[test]
fn wrong_key_material_fails_to_decode() {
    let sealer = CookieSession::new(KEY);
    let other = CookieSession::new(&[8u8; 32]);
    let value = sealer.encode_value(Some("user-17"), Some("1.2.3.4"), Some("AgentX"));
    assert_eq!(other.decode(Some(&value), Some("1.2.3.4"), Some("AgentX")), None);
}

#[test]
fn key_derivation_is_deterministic() {
    // Two codecs over the same material decode each other's cookies.
    let one = CookieSession::new(KEY);
    let two = CookieSession::new(KEY);
    let value = one.encode_value(Some("user-17"), Some("1.2.3.4"), Some("AgentX"));
    let decoded = two.decode(Some(&value), Some("1.2.3.4"), Some("AgentX"));
    assert_eq!(decoded.as_deref(), Some("user-17"));
}

#[test]
fn anonymous_session_round_trips_to_no_key() {
    let session = CookieSession::new(KEY);
    let value = session.encode_value(None, Some("1.2.3.4"), Some("AgentX"));
    assert_eq!(session.decode(Some(&value), Some("1.2.3.4"), Some("AgentX")), None);
}

#[test]
fn update_noop_writes_nothing() {
    let session = CookieSession::new(KEY);
    let r = session.update(&Pending::Noop, Some("1.2.3.4"), Some("AgentX"));
    assert!(matches!(r, Ok(None)));
}

#[test]
fn update_store_writes_a_cookie_that_decodes_back() {
    let session = CookieSession::new(KEY);
    let r = session.update(&Pending::Store("user-17".to_string()), Some("1.2.3.4"), Some("AgentX"));
    let header = r.expect("commit succeeds").expect("a header is written");
    let parsed = cookie::Cookie::parse_encoded(header).expect("well-formed Set-Cookie");
    assert_eq!(parsed.name(), "_session");
    let decoded = session.decode(Some(parsed.value()), Some("1.2.3.4"), Some("AgentX"));
    assert_eq!(decoded.as_deref(), Some("user-17"));
}

#[test]
fn update_clear_writes_a_cookie_without_key() {
    let session = CookieSession::new(KEY);
    let r = session.update(&Pending::Clear, Some("1.2.3.4"), Some("AgentX"));
    let header = r.expect("commit succeeds").expect("a header is written");
    let parsed = cookie::Cookie::parse_encoded(header).expect("well-formed Set-Cookie");
    let decoded = session.decode(Some(parsed.value()), Some("1.2.3.4"), Some("AgentX"));
    assert_eq!(decoded, None);
}

#[test]
fn update_store_of_empty_key_clears() {
    let session = CookieSession::new(KEY);
    let r = session.update(&Pending::Store(String::new()), Some("1.2.3.4"), Some("AgentX"));
    let header = r.expect("commit succeeds").expect("a header is written");
    let parsed = cookie::Cookie::parse_encoded(header).expect("well-formed Set-Cookie");
    assert_eq!(session.decode(Some(parsed.value()), Some("1.2.3.4"), Some("AgentX")), None);
}

#[test]
fn expiry_attribute_is_written() {
    let session = CookieSession::new(KEY).expires_in(Some(3600));
    let r = session.update(&Pending::Store("u".to_string()), Some("1.2.3.4"), Some("X"));
    let header = r.expect("commit succeeds").expect("a header is written");
    assert!(header.contains("Expires="));
}

#[test]
fn huge_expiry_is_clamped_to_the_last_cookie_date() {
    // The sum of now and the delay falls past what the cookie date format
    // can carry; the expiry is clamped to the final second of year 9999
    // instead of failing.
    let session = CookieSession::new(KEY).expires_in(Some(i64::MAX));
    let r = session.update(&Pending::Clear, Some("1.2.3.4"), Some("X"));
    let header = r.expect("commit succeeds").expect("a header is written");
    assert!(header.contains("Expires="));
    assert!(header.contains("9999"));
}

#[test]
fn far_negative_expiry_is_clamped_to_the_epoch() {
    let session = CookieSession::new(KEY).expires_in(Some(i64::MIN));
    let r = session.update(&Pending::Clear, Some("1.2.3.4"), Some("X"));
    let header = r.expect("commit succeeds").expect("a header is written");
    assert!(header.contains("Expires="));
    assert!(header.contains("1970"));
}

#[test]
fn non_ascii_domain_is_an_acceptable_header() {
    // Header values admit bytes beyond ASCII; only controls and delete are
    // refused.
    let session = CookieSession::new(KEY).domain(Some("ex\u{e4}mple.com".to_string()));
    let r = session.update(&Pending::Clear, Some("1.2.3.4"), Some("X"));
    assert!(r.expect("commit succeeds").is_some());
}

#[test]
fn update_with_bad_domain_fails_to_encode() {
    // The domain attribute is written into the header as it stands; a
    // control character makes the header value invalid.
    let session = CookieSession::new(KEY).domain(Some("ex\u{7f}ample.com".to_string()));
    let r = session.update(&Pending::Clear, Some("1.2.3.4"), Some("AgentX"));
    assert!(matches!(r, Err(loginmanager::EncodeError::InvalidHeaderValue)));
}

#[test]
fn builders_set_attributes_into_the_header() {
    let session = CookieSession::new(KEY)
        .name("sid")
        .secure(false)
        .http_only(false)
        .domain(Some("example.com".to_string()))
        .max_age(Some(3600))
        .same_site(Some(loginmanager::SameSitePolicy::Lax));
    let r = session.update(&Pending::Store("u".to_string()), Some("1.2.3.4"), Some("AgentX"));
    let header = r.expect("commit succeeds").expect("a header is written");
    assert!(header.starts_with("sid="));
    assert!(header.contains("Domain=example.com"));
    assert!(header.contains("Max-Age=3600"));
    assert!(header.contains("SameSite=Lax"));
    assert!(header.contains("Path=/"));
    assert!(!header.contains("Secure"));
    assert!(!header.contains("HttpOnly"));
}

#[test]
fn default_attributes_are_secure_http_only_root_path() {
    let session = CookieSession::new(KEY);
    let r = session.update(&Pending::Store("u".to_string()), Some("1.2.3.4"), Some("AgentX"));
    let header = r.expect("commit succeeds").expect("a header is written");
    assert!(header.starts_with("_session="));
    assert!(header.contains("Secure"));
    assert!(header.contains("HttpOnly"));
    assert!(header.contains("Path=/"));
    assert!(!header.contains("Domain="));
}
