use authorization::{
    key_expiration, new_session, new_session_with_id, refresh_session, renew_session_key, Error,
    SessionRequest, UserSessionDbo, SECONDS_PER_DAY,
};

fn request(fingerprint: &str, audience: Option<Vec<String>>) -> SessionRequest {
    SessionRequest {
        id: 7,
        role: "User".to_owned(),
        refresh_key_lifetime_days: 1,
        ip_addr: "10.0.0.1".to_owned(),
        fingerprint: fingerprint.to_owned(),
        audience,
    }
}

#[test]
fn expiry_is_days_later() {
    assert_eq!(SECONDS_PER_DAY, 86400);
    assert_eq!(key_expiration(1000, 1), 87400);
    assert_eq!(key_expiration(1000, 2), 173800);
    assert_eq!(key_expiration(1000, 0), 1000);
    assert_eq!(key_expiration(1000, -1), 1000 - 86400);
}

#[test]
fn new_session_fields() {
    let s = new_session_with_id(request("fp", Some(vec!["aud".to_owned()])), 500, 42);
    assert_eq!(s.id, 7);
    assert_eq!(s.session_id, 42);
    assert_eq!(s.logged_in, 500);
    assert_eq!(s.key_expiration_time, 500 + 86400);
    assert_eq!(s.audience, vec!["aud".to_owned()]);
    assert_eq!(s.role, "User");
    assert_eq!(s.ip_addr, "10.0.0.1");
    assert_eq!(s.fingerprint, "fp");
    let none = new_session_with_id(request("fp", None), 500, 42);
    assert!(none.audience.is_empty());
}

#[test]
fn new_session_ids_are_version_7() {
    let a = new_session(request("fp", None), 0);
    let b = new_session(request("fp", None), 0);
    assert_eq!((a.session_id >> 76) & 0xf, 7);
    assert_eq!((b.session_id >> 76) & 0xf, 7);
    assert_eq!((a.session_id >> 62) & 0b11, 0b10);
    assert_eq!((b.session_id >> 62) & 0b11, 0b10);
    assert_ne!(a.session_id, b.session_id);
}

fn stored() -> UserSessionDbo {
    UserSessionDbo {
        id: 7,
        session_id: 0x01959461_14cc_76f0_b3bb_ab45c01dada1,
        logged_in: 100,
        audience: vec!["old".to_owned()],
        role: "NonPrivileged".to_owned(),
        key_expiration_time: 1000,
        ip_addr: "1.2.3.4".to_owned(),
        fingerprint: "fp".to_owned(),
    }
}

#[test]
fn refresh_takes_request_fields() {
    let s = refresh_session(stored(), request("other", Some(vec!["new".to_owned()])), 200);
    assert_eq!(s.id, 7);
    assert_eq!(s.session_id, 0x01959461_14cc_76f0_b3bb_ab45c01dada1);
    assert_eq!(s.fingerprint, "fp");
    assert_eq!(s.logged_in, 200);
    assert_eq!(s.key_expiration_time, 200 + 86400);
    assert_eq!(s.role, "User");
    assert_eq!(s.ip_addr, "10.0.0.1");
    assert_eq!(s.audience, vec!["new".to_owned()]);
}

#[test]
fn test_update_keys() {
    let renewed = renew_session_key(stored(), 2, 999).unwrap();
    assert_eq!(renewed.key_expiration_time, 999 + 2 * 86400);
    assert_eq!(renewed.session_id, 0x01959461_14cc_76f0_b3bb_ab45c01dada1);
    assert_eq!(renewed.logged_in, 100);
    assert_eq!(renewed.ip_addr, "1.2.3.4");
}

#[test]
fn expired_session_is_refused() {
    assert!(matches!(renew_session_key(stored(), 2, 1000), Err(Error::SessionExpired)));
    assert!(matches!(renew_session_key(stored(), 2, 5000), Err(Error::SessionExpired)));
    // an expired session is refused even when the new expiry would not fit
    assert!(matches!(renew_session_key(stored(), i64::MAX, 1000), Err(Error::SessionExpired)));
}
