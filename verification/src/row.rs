//! The text columns under which a session is stored.
use vstd::prelude::*;
use crate::codec::{
    audience_from_json, audience_to_json, json_string_array, json_string_list_parsed, uuid_from_text,
    uuid_hyphenated, uuid_parsed, uuid_to_text,
};
use crate::session::{SessionView, UserSessionDbo};

verus! {

/// A stored session as the sessions table holds it: identifiers as hyphenated
/// UUID text, the audience as a JSON array, times as seconds since the Unix epoch.
#[derive(Debug)]
pub struct SessionRow {
    pub id: String,
    pub session_id: String,
    pub logged_in: i64,
    pub audience: String,
    pub role: String,
    pub key_expiration_time: i64,
    pub ip_addr: String,
    pub fingerprint: String,
}

/// Mathematical model of a stored row.
pub struct RowView {
    pub id: Seq<char>,
    pub session_id: Seq<char>,
    pub logged_in: i64,
    pub audience: Seq<char>,
    pub role: Seq<char>,
    pub key_expiration_time: i64,
    pub ip_addr: Seq<char>,
    pub fingerprint: Seq<char>,
}

impl View for SessionRow {
    type V = RowView;

    open spec fn view(&self) -> RowView {
        RowView {
            id: self.id@,
            session_id: self.session_id@,
            logged_in: self.logged_in,
            audience: self.audience@,
            role: self.role@,
            key_expiration_time: self.key_expiration_time,
            ip_addr: self.ip_addr@,
            fingerprint: self.fingerprint@,
        }
    }
}

/// The row under which a session is stored.
pub open spec fn encode_row(s: SessionView) -> RowView {
    RowView {
        id: uuid_hyphenated(s.id),
        session_id: uuid_hyphenated(s.session_id),
        logged_in: s.logged_in,
        audience: json_string_array(s.audience),
        role: s.role,
        key_expiration_time: s.key_expiration_time,
        ip_addr: s.ip_addr,
        fingerprint: s.fingerprint,
    }
}

/// The session that a stored row holds, if its identifiers and audience can be read.
pub open spec fn decode_row(r: RowView) -> Option<SessionView> {
    match (uuid_parsed(r.id), uuid_parsed(r.session_id), json_string_list_parsed(r.audience)) {
        (Some(id), Some(session_id), Some(audience)) => Some(
            SessionView {
                id,
                session_id,
                logged_in: r.logged_in,
                audience,
                role: r.role,
                key_expiration_time: r.key_expiration_time,
                ip_addr: r.ip_addr,
                fingerprint: r.fingerprint,
            },
        ),
        _ => None,
    }
}

/// The text under which an identifier is stored and looked up.
pub fn id_text(id: u128) -> (text: String)
    ensures
        text@ == uuid_hyphenated(id),
{
    uuid_to_text(id)
}

impl UserSessionDbo {
    /// The row under which this session is stored.
    pub fn to_row(&self) -> (row: SessionRow)
        ensures
            row@ == encode_row(self@),
            row.id@ == uuid_hyphenated(self.id),
            row.session_id@ == uuid_hyphenated(self.session_id),
            row.logged_in == self.logged_in,
            row.audience@ == json_string_array(self.audience.deep_view()),
            row.role@ == self.role@,
            row.key_expiration_time == self.key_expiration_time,
            row.ip_addr@ == self.ip_addr@,
            row.fingerprint@ == self.fingerprint@,
    {
        SessionRow {
            id: uuid_to_text(self.id),
            session_id: uuid_to_text(self.session_id),
            logged_in: self.logged_in,
            audience: audience_to_json(&self.audience),
            role: self.role.clone(),
            key_expiration_time: self.key_expiration_time,
            ip_addr: self.ip_addr.clone(),
            fingerprint: self.fingerprint.clone(),
        }
    }

    /// The session that a stored row holds. Its identifiers and audience must
    /// be readable (see `try_from_row` for rows that may not be). A row written
    /// by `to_row` reads back as the session it was written from.
    pub fn from_row(row: SessionRow) -> (session: UserSessionDbo)
        requires
            decode_row(row@) is Some,
        ensures
            decode_row(row@) == Some(session@),
            forall|s: SessionView| #[trigger] encode_row(s) == row@ ==> session@ == s,
            Some(session.id) == uuid_parsed(row.id@),
            Some(session.session_id) == uuid_parsed(row.session_id@),
            Some(session.audience.deep_view()) == json_string_list_parsed(row.audience@),
            session.logged_in == row.logged_in,
            session.role@ == row.role@,
            session.key_expiration_time == row.key_expiration_time,
            session.ip_addr@ == row.ip_addr@,
            session.fingerprint@ == row.fingerprint@,
    {
        let id = uuid_from_text(row.id.as_str()).unwrap();
        let session_id = uuid_from_text(row.session_id.as_str()).unwrap();
        let audience = audience_from_json(row.audience.as_str()).unwrap();
        UserSessionDbo {
            id,
            session_id,
            logged_in: row.logged_in,
            audience,
            role: row.role,
            key_expiration_time: row.key_expiration_time,
            ip_addr: row.ip_addr,
            fingerprint: row.fingerprint,
        }
    }

    /// The session that a stored row holds, or `None` when one of its
    /// identifiers or its audience cannot be read.
    pub fn try_from_row(row: SessionRow) -> (session: Option<UserSessionDbo>)
        ensures
            session is Some <==> decode_row(row@) is Some,
            session matches Some(s) ==> decode_row(row@) == Some(s@),
            forall|s: SessionView| #[trigger] encode_row(s) == row@ ==> (session is Some && session->0@ == s),
            session matches Some(s) ==> {
                &&& Some(s.id) == uuid_parsed(row.id@)
                &&& Some(s.session_id) == uuid_parsed(row.session_id@)
                &&& Some(s.audience.deep_view()) == json_string_list_parsed(row.audience@)
                &&& s.logged_in == row.logged_in
                &&& s.role@ == row.role@
                &&& s.key_expiration_time == row.key_expiration_time
                &&& s.ip_addr@ == row.ip_addr@
                &&& s.fingerprint@ == row.fingerprint@
            },
    {
        let readable = uuid_from_text(row.id.as_str()).is_some() && uuid_from_text(
            row.session_id.as_str(),
        ).is_some() && audience_from_json(row.audience.as_str()).is_some();
        if readable {
            Some(UserSessionDbo::from_row(row))
        } else {
            None
        }
    }
}

/// Each column of a stored row holds the session's field of the same name: the
/// identifiers as hyphenated UUID text, the audience as JSON, the rest as they are.
pub proof fn lemma_row_columns(s: SessionView)
    ensures
        encode_row(s).id == uuid_hyphenated(s.id),
        encode_row(s).session_id == uuid_hyphenated(s.session_id),
        encode_row(s).logged_in == s.logged_in,
        encode_row(s).audience == json_string_array(s.audience),
        encode_row(s).role == s.role,
        encode_row(s).key_expiration_time == s.key_expiration_time,
        encode_row(s).ip_addr == s.ip_addr,
        encode_row(s).fingerprint == s.fingerprint,
{
}

/// A readable row is read column by column into the field of the same name.
pub proof fn lemma_row_fields_read(r: RowView)
    requires
        decode_row(r) is Some,
    ensures
        ({
            let s = decode_row(r)->0;
            &&& Some(s.id) == uuid_parsed(r.id)
            &&& Some(s.session_id) == uuid_parsed(r.session_id)
            &&& Some(s.audience) == json_string_list_parsed(r.audience)
            &&& s.logged_in == r.logged_in
            &&& s.role == r.role
            &&& s.key_expiration_time == r.key_expiration_time
            &&& s.ip_addr == r.ip_addr
            &&& s.fingerprint == r.fingerprint
        }),
{
}

} // verus!
