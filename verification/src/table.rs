//! The sessions table and the SQL statements that read and write it.
use vstd::prelude::*;

verus! {

/// The columns of the sessions table.
#[derive(Debug, Copy, Clone, PartialEq, Eq, Structural)]
pub enum UserSessionTable {
    Id,
    SessionId,
    LoggedIn,
    Audience,
    Role,
    KeyExpirationTime,
    IpAddr,
    Fingerprint,
}

/// The name of a column.
pub open spec fn column_name(c: UserSessionTable) -> Seq<char> {
    match c {
        UserSessionTable::Id => "id"@,
        UserSessionTable::SessionId => "session_id"@,
        UserSessionTable::LoggedIn => "logged_in"@,
        UserSessionTable::Audience => "audience"@,
        UserSessionTable::Role => "role"@,
        UserSessionTable::KeyExpirationTime => "key_expiration_time"@,
        UserSessionTable::IpAddr => "ip_addr"@,
        UserSessionTable::Fingerprint => "fingerprint"@,
    }
}

/// The comma-separated list of all columns, in table order.
pub open spec fn all_columns() -> Seq<char> {
    "id,session_id,logged_in,audience,role,key_expiration_time,ip_addr,fingerprint"@
}

/// The statement that creates the sessions table and its index when missing.
pub fn create_table_sql() -> (sql: &'static str)
    ensures
        sql@ == "BEGIN;
    CREATE TABLE IF NOT EXISTS sessions (
    id TEXT NOT NULL,
    session_id TEXT NOT NULL,
    logged_in TEXT NOT NULL,
    audience TEXT NOT NULL DEFAULT('[]'),
    role TEXT NOT NULL,
    key_expiration_time TEXT NOT NULL,
    ip_addr TEXT NOT NULL,
    fingerprint TEXT,
    PRIMARY KEY(id, session_id)
    );
    CREATE INDEX IF NOT EXISTS 'session_idx' ON sessions (id, session_id, role);
    COMMIT;"@,
{
    "BEGIN;
    CREATE TABLE IF NOT EXISTS sessions (
    id TEXT NOT NULL,
    session_id TEXT NOT NULL,
    logged_in TEXT NOT NULL,
    audience TEXT NOT NULL DEFAULT('[]'),
    role TEXT NOT NULL,
    key_expiration_time TEXT NOT NULL,
    ip_addr TEXT NOT NULL,
    fingerprint TEXT,
    PRIMARY KEY(id, session_id)
    );
    CREATE INDEX IF NOT EXISTS 'session_idx' ON sessions (id, session_id, role);
    COMMIT;"
}

impl UserSessionTable {
    /// The name of the column.
    pub fn as_str(&self) -> (name: &'static str)
        ensures
            name@ == column_name(*self),
    {
        match self {
            UserSessionTable::Id => "id",
            UserSessionTable::SessionId => "session_id",
            UserSessionTable::LoggedIn => "logged_in",
            UserSessionTable::Audience => "audience",
            UserSessionTable::Role => "role",
            UserSessionTable::KeyExpirationTime => "key_expiration_time",
            UserSessionTable::IpAddr => "ip_addr",
            UserSessionTable::Fingerprint => "fingerprint",
        }
    }

    /// The comma-separated list of all columns, in table order.
    pub fn get_all() -> (columns: String)
        ensures
            columns@ == all_columns(),
    {
        let mut s = String::from_str(UserSessionTable::Id.as_str());
        s.append(",");
        s.append(UserSessionTable::SessionId.as_str());
        s.append(",");
        s.append(UserSessionTable::LoggedIn.as_str());
        s.append(",");
        s.append(UserSessionTable::Audience.as_str());
        s.append(",");
        s.append(UserSessionTable::Role.as_str());
        s.append(",");
        s.append(UserSessionTable::KeyExpirationTime.as_str());
        s.append(",");
        s.append(UserSessionTable::IpAddr.as_str());
        s.append(",");
        s.append(UserSessionTable::Fingerprint.as_str());
        proof {
            reveal_strlit("id");
            reveal_strlit("session_id");
            reveal_strlit("logged_in");
            reveal_strlit("audience");
            reveal_strlit("role");
            reveal_strlit("key_expiration_time");
            reveal_strlit("ip_addr");
            reveal_strlit("fingerprint");
            reveal_strlit(",");
            reveal_strlit("id,session_id,logged_in,audience,role,key_expiration_time,ip_addr,fingerprint");
            assert(s@ =~= all_columns());
        }
        s
    }

    /// Selects every session of the user `$1`, oldest login first.
    pub fn select_user_sessions_sql() -> (sql: String)
        ensures
            sql@ == "SELECT "@ + all_columns() + " FROM sessions WHERE "@ + "id"@ + " = $1 ORDER BY "@
                + "logged_in"@,
    {
        let mut s = String::from_str("SELECT ");
        let columns = UserSessionTable::get_all();
        s.append(columns.as_str());
        s.append(" FROM sessions WHERE ");
        s.append(UserSessionTable::Id.as_str());
        s.append(" = $1 ORDER BY ");
        s.append(UserSessionTable::LoggedIn.as_str());
        s
    }

    /// Selects the session with session id `$1`.
    pub fn select_session_sql() -> (sql: String)
        ensures
            sql@ == "SELECT "@ + all_columns() + " FROM sessions WHERE "@ + "session_id"@ + " = $1"@,
    {
        let mut s = String::from_str("SELECT ");
        let columns = UserSessionTable::get_all();
        s.append(columns.as_str());
        s.append(" FROM sessions WHERE ");
        s.append(UserSessionTable::SessionId.as_str());
        s.append(" = $1");
        s
    }

    /// Inserts the session `$1..$8` (columns in table order), replacing a stored
    /// session with the same user and session id.
    pub fn insert_or_replace_sql() -> (sql: String)
        ensures
            sql@ == "INSERT OR REPLACE INTO sessions ("@ + all_columns()
                + ") VALUES ($1, $2, $3, $4, $5, $6, $7, $8)"@,
    {
        let mut s = String::from_str("INSERT OR REPLACE INTO sessions (");
        let columns = UserSessionTable::get_all();
        s.append(columns.as_str());
        s.append(") VALUES ($1, $2, $3, $4, $5, $6, $7, $8)");
        s
    }

    /// Counts the sessions of the user `$1`.
    pub fn count_user_sessions_sql() -> (sql: String)
        ensures
            sql@ == "SELECT COUNT(*) FROM sessions WHERE "@ + "id"@ + " = $1"@,
    {
        let mut s = String::from_str("SELECT COUNT(*) FROM sessions WHERE ");
        s.append(UserSessionTable::Id.as_str());
        s.append(" = $1");
        s
    }

    /// Deletes every session of the user `$1`.
    pub fn delete_user_sessions_sql() -> (sql: String)
        ensures
            sql@ == "DELETE FROM sessions WHERE "@ + "id"@ + " = $1"@,
    {
        let mut s = String::from_str("DELETE FROM sessions WHERE ");
        s.append(UserSessionTable::Id.as_str());
        s.append(" = $1");
        s
    }

    /// Deletes the session with session id `$1`.
    pub fn delete_session_sql() -> (sql: String)
        ensures
            sql@ == "DELETE FROM sessions WHERE "@ + "session_id"@ + " = $1"@,
    {
        let mut s = String::from_str("DELETE FROM sessions WHERE ");
        s.append(UserSessionTable::SessionId.as_str());
        s.append(" = $1");
        s
    }
}

impl AsRef<str> for UserSessionTable {
    fn as_ref(&self) -> (name: &str)
        ensures
            name@ == column_name(*self),
    {
        self.as_str()
    }
}

/// A character that may stand in a column name.
pub open spec fn is_name_char(c: char) -> bool {
    ('a' <= c && c <= 'z') || c == '_'
}

/// Distinct columns have distinct names, and every name is a non-empty run of
/// lower-case letters and underscores (so it holds no comma and no whitespace).
pub proof fn lemma_column_names_distinct(a: UserSessionTable, b: UserSessionTable)
    ensures
        a != b ==> column_name(a) != column_name(b),
        column_name(a).len() > 0,
        forall|i: int| 0 <= i < column_name(a).len() ==> is_name_char(#[trigger] column_name(a)[i]),
{
    reveal_strlit("id");
    assert("id"@ =~= seq!['i', 'd']);
    reveal_strlit("session_id");
    assert("session_id"@ =~= seq!['s', 'e', 's', 's', 'i', 'o', 'n', '_', 'i', 'd']);
    reveal_strlit("logged_in");
    assert("logged_in"@ =~= seq!['l', 'o', 'g', 'g', 'e', 'd', '_', 'i', 'n']);
    reveal_strlit("audience");
    assert("audience"@ =~= seq!['a', 'u', 'd', 'i', 'e', 'n', 'c', 'e']);
    reveal_strlit("role");
    assert("role"@ =~= seq!['r', 'o', 'l', 'e']);
    reveal_strlit("key_expiration_time");
    assert("key_expiration_time"@ =~= seq!['k', 'e', 'y', '_', 'e', 'x', 'p', 'i', 'r', 'a', 't', 'i', 'o', 'n', '_', 't', 'i', 'm', 'e']);
    reveal_strlit("ip_addr");
    assert("ip_addr"@ =~= seq!['i', 'p', '_', 'a', 'd', 'd', 'r']);
    reveal_strlit("fingerprint");
    assert("fingerprint"@ =~= seq!['f', 'i', 'n', 'g', 'e', 'r', 'p', 'r', 'i', 'n', 't']);
    if a != b {
        assert(column_name(a).len() != column_name(b).len());
    }
}

/// The list of all columns is their names, in table order, joined by commas.
pub proof fn lemma_all_columns_joined()
    ensures
        all_columns() == column_name(UserSessionTable::Id) + ","@ + column_name(UserSessionTable::SessionId)
            + ","@ + column_name(UserSessionTable::LoggedIn) + ","@ + column_name(UserSessionTable::Audience)
            + ","@ + column_name(UserSessionTable::Role) + ","@ + column_name(
            UserSessionTable::KeyExpirationTime,
        ) + ","@ + column_name(UserSessionTable::IpAddr) + ","@ + column_name(UserSessionTable::Fingerprint),
{
    reveal_strlit("id");
    reveal_strlit("session_id");
    reveal_strlit("logged_in");
    reveal_strlit("audience");
    reveal_strlit("role");
    reveal_strlit("key_expiration_time");
    reveal_strlit("ip_addr");
    reveal_strlit("fingerprint");
    reveal_strlit(",");
    reveal_strlit("id,session_id,logged_in,audience,role,key_expiration_time,ip_addr,fingerprint");
    assert(all_columns() =~= column_name(UserSessionTable::Id) + ","@ + column_name(UserSessionTable::SessionId)
        + ","@ + column_name(UserSessionTable::LoggedIn) + ","@ + column_name(UserSessionTable::Audience)
        + ","@ + column_name(UserSessionTable::Role) + ","@ + column_name(
        UserSessionTable::KeyExpirationTime,
    ) + ","@ + column_name(UserSessionTable::IpAddr) + ","@ + column_name(UserSessionTable::Fingerprint));
}

} // verus!
