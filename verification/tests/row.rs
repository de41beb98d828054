use authorization::{SessionRow, UserSessionDbo};

const USER_ID: u128 = 0x01959414_c7e9_76c2_a84f_5aa1443b1829;
const SESSION_ID: u128 = 0x01959414_c7ed_7c93_b660_372d5b611c2c;

fn sample(audience: Vec<String>) -> UserSessionDbo {
    UserSessionDbo {
        id: USER_ID,
        session_id: SESSION_ID,
        logged_in: 1_741_000_000,
        audience,
        role: "NonPrivileged".to_owned(),
        key_expiration_time: 1_741_086_400,
        ip_addr: "182.5.202.220".to_owned(),
        fingerprint: "111222333444555666777888999000".to_owned(),
    }
}

fn same(a: &UserSessionDbo, b: &UserSessionDbo) -> bool {
    a.id == b.id
        && a.session_id == b.session_id
        && a.logged_in == b.logged_in
        && a.audience == b.audience
        && a.role == b.role
        && a.key_expiration_time == b.key_expiration_time
        && a.ip_addr == b.ip_addr
        && a.fingerprint == b.fingerprint
}

#[test]
fn row_texts() {
    let s = sample(vec![
        "https://google.com".to_owned(),
        "https://stackoverflow.com".to_owned(),
        "https://chat.deepseek.com".to_owned(),
    ]);
    let row = s.to_row();
    assert_eq!(row.id, "01959414-c7e9-76c2-a84f-5aa1443b1829");
    assert_eq!(row.session_id, "01959414-c7ed-7c93-b660-372d5b611c2c");
    assert_eq!(
        row.audience,
        r#"["https://google.com","https://stackoverflow.com","https://chat.deepseek.com"]"#
    );
    assert_eq!(row.role, "NonPrivileged");
    assert_eq!(row.logged_in, 1_741_000_000);
    assert_eq!(row.key_expiration_time, 1_741_086_400);
}

#[test]
fn audience_escaping() {
    let s = sample(vec!["a\"b\\c".to_owned(), "x\ny\u{1}".to_owned(), "ü\u{7f}".to_owned()]);
    assert_eq!(s.to_row().audience, "[\"a\\\"b\\\\c\",\"x\\ny\\u0001\",\"ü\u{7f}\"]");
    assert_eq!(sample(vec![]).to_row().audience, "[]");
    assert_eq!(sample(vec!["".to_owned()]).to_row().audience, "[\"\"]");
}

#[test]
fn row_roundtrip() {
    for audience in [vec![], vec!["https://google.com".to_owned()], vec!["a\"\\\n\t".to_owned(), "".to_owned()]] {
        let s = sample(audience);
        let back = UserSessionDbo::from_row(s.to_row());
        assert!(same(&s, &back));
    }
    let zero = UserSessionDbo { id: 0, session_id: u128::MAX, ..sample(vec![]) };
    let row = zero.to_row();
    assert_eq!(row.id, "00000000-0000-0000-0000-000000000000");
    assert_eq!(row.session_id, "ffffffff-ffff-ffff-ffff-ffffffffffff");
    assert!(same(&zero, &UserSessionDbo::try_from_row(row).unwrap()));
}

fn row_with(id: &str, audience: &str) -> SessionRow {
    SessionRow {
        id: id.to_owned(),
        session_id: "01959461-14cc-76f0-b3bb-ab45c01dada1".to_owned(),
        logged_in: 5,
        audience: audience.to_owned(),
        role: "User".to_owned(),
        key_expiration_time: 6,
        ip_addr: "1.1.1.1".to_owned(),
        fingerprint: "fp".to_owned(),
    }
}

#[test]
fn rows_in_other_forms() {
    let s = UserSessionDbo::from_row(row_with("01959414C7E976C2A84F5AA1443B1829", "[ \"a\" , \"b\" ]"));
    assert_eq!(s.id, USER_ID);
    assert_eq!(s.session_id, 0x01959461_14cc_76f0_b3bb_ab45c01dada1);
    assert_eq!(s.audience, vec!["a".to_owned(), "b".to_owned()]);
    assert_eq!(s.role, "User");
}

#[test]
fn unreadable_rows() {
    assert!(UserSessionDbo::try_from_row(row_with("not-a-uuid", "[]")).is_none());
    assert!(UserSessionDbo::try_from_row(row_with("01959414-c7e9-76c2-a84f-5aa1443b1829", "[1,2]")).is_none());
    assert!(UserSessionDbo::try_from_row(row_with("01959414-c7e9-76c2-a84f-5aa1443b1829", "")).is_none());
}

#[test]
fn id_texts() {
    assert_eq!(authorization::id_text(USER_ID), "01959414-c7e9-76c2-a84f-5aa1443b1829");
    assert_eq!(authorization::id_text(0xab), "00000000-0000-0000-0000-0000000000ab");
}
