use authorization::{create_table_sql, UserSessionTable};

#[test]
fn test_init_repo() {
    let sql = create_table_sql();
    assert!(sql.starts_with("BEGIN;"));
    assert!(sql.contains("CREATE TABLE IF NOT EXISTS sessions ("));
    assert!(sql.contains("PRIMARY KEY(id, session_id)"));
    assert!(sql.contains("CREATE INDEX IF NOT EXISTS 'session_idx' ON sessions (id, session_id, role);"));
    assert!(sql.ends_with("COMMIT;"));
}

#[test]
fn column_names() {
    assert_eq!(UserSessionTable::Id.as_str(), "id");
    assert_eq!(UserSessionTable::SessionId.as_str(), "session_id");
    assert_eq!(UserSessionTable::LoggedIn.as_str(), "logged_in");
    assert_eq!(UserSessionTable::Audience.as_str(), "audience");
    assert_eq!(UserSessionTable::Role.as_str(), "role");
    assert_eq!(UserSessionTable::KeyExpirationTime.as_str(), "key_expiration_time");
    assert_eq!(UserSessionTable::IpAddr.as_str(), "ip_addr");
    assert_eq!(UserSessionTable::Fingerprint.as_str(), "fingerprint");
}

#[test]
fn all_columns_in_order() {
    assert_eq!(
        UserSessionTable::get_all(),
        "id,session_id,logged_in,audience,role,key_expiration_time,ip_addr,fingerprint"
    );
}

#[test]
fn statements() {
    let cols = "id,session_id,logged_in,audience,role,key_expiration_time,ip_addr,fingerprint";
    assert_eq!(
        UserSessionTable::select_user_sessions_sql(),
        format!("SELECT {} FROM sessions WHERE id = $1 ORDER BY logged_in", cols)
    );
    assert_eq!(
        UserSessionTable::select_session_sql(),
        format!("SELECT {} FROM sessions WHERE session_id = $1", cols)
    );
    assert_eq!(
        UserSessionTable::insert_or_replace_sql(),
        format!("INSERT OR REPLACE INTO sessions ({}) VALUES ($1, $2, $3, $4, $5, $6, $7, $8)", cols)
    );
    assert_eq!(UserSessionTable::count_user_sessions_sql(), "SELECT COUNT(*) FROM sessions WHERE id = $1");
    assert_eq!(UserSessionTable::delete_user_sessions_sql(), "DELETE FROM sessions WHERE id = $1");
    assert_eq!(UserSessionTable::delete_session_sql(), "DELETE FROM sessions WHERE session_id = $1");
}

#[test]
fn column_as_ref() {
    let c: &str = UserSessionTable::KeyExpirationTime.as_ref();
    assert_eq!(c, "key_expiration_time");
}

#[test]
fn column_names_distinct_and_plain() {
    let all = [
        UserSessionTable::Id,
        UserSessionTable::SessionId,
        UserSessionTable::LoggedIn,
        UserSessionTable::Audience,
        UserSessionTable::Role,
        UserSessionTable::KeyExpirationTime,
        UserSessionTable::IpAddr,
        UserSessionTable::Fingerprint,
    ];
    let names: Vec<&str> = all.iter().map(|c| c.as_str()).collect();
    for (i, a) in names.iter().enumerate() {
        assert!(!a.is_empty());
        assert!(a.chars().all(|c| c.is_ascii_lowercase() || c == '_'));
        assert!(create_table_sql().contains(&format!("{} TEXT", a)));
        for b in &names[i + 1..] {
            assert_ne!(a, b);
        }
    }
    assert_eq!(UserSessionTable::get_all(), names.join(","));
}
