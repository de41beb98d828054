use authorization::{access_key_from_header, AuthInfo, Error, Settings};

#[test]
fn bearer_key_is_trimmed() {
    assert_eq!(access_key_from_header(Some("Bearer abc.def.ghi")).unwrap(), "abc.def.ghi");
    assert_eq!(access_key_from_header(Some("Bearer   abc \t\r\n")).unwrap(), "abc");
    assert_eq!(access_key_from_header(Some("Bearer ")).unwrap(), "");
    assert_eq!(access_key_from_header(Some("Bearer \x0b\x0c")).unwrap(), "");
    assert_eq!(access_key_from_header(Some("Token: a b ")).unwrap(), "a b");
}

#[test]
fn missing_header_is_refused() {
    match access_key_from_header(None) {
        Err(Error::AuthError(m)) => assert_eq!(m, "Отсуствует заголовок Authorization"),
        other => panic!("unexpected {:?}", other),
    }
}

#[test]
fn plain_values() {
    let info = AuthInfo { access_key: "a".to_owned(), session_key: "s".to_owned() };
    let copy = info.clone();
    assert_eq!(copy.access_key, "a");
    assert_eq!(copy.session_key, "s");
    let _settings = Settings {}.clone();
}
