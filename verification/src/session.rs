//! Stored user sessions and the requests that open them.
use vstd::prelude::*;
use crate::codec::{new_session_id, uuid_variant_is_rfc4122, uuid_version};
use crate::error::Error;

verus! {

/// Number of seconds in a day; session times are whole seconds since the Unix epoch.
pub const SECONDS_PER_DAY: i64 = 86400;

/// One stored session of a user: the row of the sessions table.
/// Identifiers are 128-bit UUID values; times are seconds since the Unix epoch.
#[derive(Debug)]
pub struct UserSessionDbo {
    pub id: u128,
    pub session_id: u128,
    pub logged_in: i64,
    pub audience: Vec<String>,
    pub role: String,
    pub key_expiration_time: i64,
    pub ip_addr: String,
    pub fingerprint: String,
}

/// Mathematical model of a stored session.
pub struct SessionView {
    pub id: u128,
    pub session_id: u128,
    pub logged_in: i64,
    pub audience: Seq<Seq<char>>,
    pub role: Seq<char>,
    pub key_expiration_time: i64,
    pub ip_addr: Seq<char>,
    pub fingerprint: Seq<char>,
}

impl View for UserSessionDbo {
    type V = SessionView;

    open spec fn view(&self) -> SessionView {
        SessionView {
            id: self.id,
            session_id: self.session_id,
            logged_in: self.logged_in,
            audience: self.audience.deep_view(),
            role: self.role@,
            key_expiration_time: self.key_expiration_time,
            ip_addr: self.ip_addr@,
            fingerprint: self.fingerprint@,
        }
    }
}

/// What a login asks of the session store: open (or refresh) a session of user
/// `id` with the given role, client address, client fingerprint and audience,
/// whose refresh key lives `refresh_key_lifetime_days` days.
pub struct SessionRequest {
    pub id: u128,
    pub role: String,
    pub refresh_key_lifetime_days: i64,
    pub ip_addr: String,
    pub fingerprint: String,
    pub audience: Option<Vec<String>>,
}

/// Mathematical model of a session request; a missing audience is the empty list.
pub struct RequestView {
    pub id: u128,
    pub role: Seq<char>,
    pub refresh_key_lifetime_days: i64,
    pub ip_addr: Seq<char>,
    pub fingerprint: Seq<char>,
    pub audience: Seq<Seq<char>>,
}

/// The audience list that an optional audience stands for.
pub open spec fn audience_of(audience: Option<Vec<String>>) -> Seq<Seq<char>> {
    match audience {
        Some(v) => v.deep_view(),
        None => Seq::empty(),
    }
}

impl View for SessionRequest {
    type V = RequestView;

    open spec fn view(&self) -> RequestView {
        RequestView {
            id: self.id,
            role: self.role@,
            refresh_key_lifetime_days: self.refresh_key_lifetime_days,
            ip_addr: self.ip_addr@,
            fingerprint: self.fingerprint@,
            audience: audience_of(self.audience),
        }
    }
}

/// The expiry of a refresh key issued at `now` for `days` days fits an `i64`.
pub open spec fn expiry_fits(now: i64, days: i64) -> bool {
    &&& i64::MIN <= days * 86400 <= i64::MAX
    &&& i64::MIN <= now + days * 86400 <= i64::MAX
}

/// The expiry of a refresh key issued at `now` for `days` days.
pub open spec fn expiry(now: i64, days: i64) -> i64 {
    (now + days * 86400) as i64
}

/// A new session for a request, opened at `now` under `session_id`.
pub open spec fn fresh_session(req: RequestView, now: i64, session_id: u128) -> SessionView {
    SessionView {
        id: req.id,
        session_id,
        logged_in: now,
        audience: req.audience,
        role: req.role,
        key_expiration_time: expiry(now, req.refresh_key_lifetime_days),
        ip_addr: req.ip_addr,
        fingerprint: req.fingerprint,
    }
}

/// An existing session taken over by a new login at `now`: it keeps its user,
/// session id and fingerprint and takes the request's address, role, audience
/// and a new key expiry.
pub open spec fn refreshed_session(s: SessionView, req: RequestView, now: i64) -> SessionView {
    SessionView {
        ip_addr: req.ip_addr,
        logged_in: now,
        role: req.role,
        key_expiration_time: expiry(now, req.refresh_key_lifetime_days),
        audience: req.audience,
        ..s
    }
}

/// The session after its refresh key is renewed at `now` for `days` days.
pub open spec fn renewed_session(s: SessionView, now: i64, days: i64) -> SessionView {
    SessionView { key_expiration_time: expiry(now, days), ..s }
}

/// Expiry of a refresh key issued at `now` for `refresh_key_lifetime_days` days.
pub fn key_expiration(now: i64, refresh_key_lifetime_days: i64) -> (t: i64)
    requires
        expiry_fits(now, refresh_key_lifetime_days),
    ensures
        t == expiry(now, refresh_key_lifetime_days),
        t == now + refresh_key_lifetime_days * 86400,
{
    now + refresh_key_lifetime_days * SECONDS_PER_DAY
}

/// The audience list of a request; no audience is the empty list.
pub fn audience_list(audience: Option<Vec<String>>) -> (list: Vec<String>)
    ensures
        list.deep_view() == audience_of(audience),
        audience matches Some(v) ==> list.deep_view() == v.deep_view(),
        audience is None ==> list.len() == 0,
{
    match audience {
        Some(v) => v,
        None => {
            let v: Vec<String> = Vec::new();
            assert(v.deep_view() =~= Seq::<Seq<char>>::empty());
            v
        },
    }
}

/// A new session for `request`, opened at `now` under the given session id.
pub fn new_session_with_id(request: SessionRequest, now: i64, session_id: u128) -> (session:
    UserSessionDbo)
    requires
        expiry_fits(now, request.refresh_key_lifetime_days),
    ensures
        session@ == fresh_session(request@, now, session_id),
        session.session_id == session_id,
        session.id == request.id,
        session.logged_in == now,
        session.key_expiration_time == now + request.refresh_key_lifetime_days * 86400,
        session.role@ == request.role@,
        session.ip_addr@ == request.ip_addr@,
        session.fingerprint@ == request.fingerprint@,
        request.audience matches Some(v) ==> session.audience.deep_view() == v.deep_view(),
        request.audience is None ==> session.audience.len() == 0,
{
    let key_expiration_time = key_expiration(now, request.refresh_key_lifetime_days);
    UserSessionDbo {
        id: request.id,
        session_id,
        logged_in: now,
        audience: audience_list(request.audience),
        role: request.role,
        key_expiration_time,
        ip_addr: request.ip_addr,
        fingerprint: request.fingerprint,
    }
}

/// A new session for `request`, opened at `now` under a new version 7 UUID.
pub fn new_session(request: SessionRequest, now: i64) -> (session: UserSessionDbo)
    requires
        expiry_fits(now, request.refresh_key_lifetime_days),
    ensures
        session@ == fresh_session(request@, now, session.session_id),
        uuid_version(session.session_id) == 7,
        uuid_variant_is_rfc4122(session.session_id),
        session.id == request.id,
        session.logged_in == now,
        session.key_expiration_time == now + request.refresh_key_lifetime_days * 86400,
        session.role@ == request.role@,
        session.ip_addr@ == request.ip_addr@,
        session.fingerprint@ == request.fingerprint@,
        request.audience matches Some(v) ==> session.audience.deep_view() == v.deep_view(),
        request.audience is None ==> session.audience.len() == 0,
{
    let session_id = new_session_id();
    new_session_with_id(request, now, session_id)
}

/// Hands an existing session to a new login of the same client at `now`.
pub fn refresh_session(session: UserSessionDbo, request: SessionRequest, now: i64) -> (updated:
    UserSessionDbo)
    requires
        expiry_fits(now, request.refresh_key_lifetime_days),
    ensures
        updated@ == refreshed_session(session@, request@, now),
        updated.id == session.id,
        updated.session_id == session.session_id,
        updated.fingerprint@ == session.fingerprint@,
        updated.logged_in == now,
        updated.key_expiration_time == now + request.refresh_key_lifetime_days * 86400,
        updated.role@ == request.role@,
        updated.ip_addr@ == request.ip_addr@,
        request.audience matches Some(v) ==> updated.audience.deep_view() == v.deep_view(),
        request.audience is None ==> updated.audience.len() == 0,
{
    let mut session = session;
    session.ip_addr = request.ip_addr;
    session.logged_in = now;
    session.role = request.role;
    session.key_expiration_time = key_expiration(now, request.refresh_key_lifetime_days);
    session.audience = audience_list(request.audience);
    session
}

/// Renews the refresh key of a stored session at `now`: a session whose key is
/// still valid (expires after `now`) gets a key that lives
/// `refresh_key_lifetime_days` more days; an expired one is refused.
pub fn renew_session_key(session: UserSessionDbo, refresh_key_lifetime_days: i64, now: i64) -> (result:
    Result<UserSessionDbo, Error>)
    requires
        session.key_expiration_time > now ==> expiry_fits(now, refresh_key_lifetime_days),
    ensures
        session.key_expiration_time > now ==> (result matches Ok(s) && s@ == renewed_session(
            session@,
            now,
            refresh_key_lifetime_days,
        )),
        session.key_expiration_time <= now ==> (result matches Err(Error::SessionExpired)),
        result matches Ok(s) ==> {
            &&& s.key_expiration_time == now + refresh_key_lifetime_days * 86400
            &&& s.id == session.id
            &&& s.session_id == session.session_id
            &&& s.logged_in == session.logged_in
            &&& s.role@ == session.role@
            &&& s.ip_addr@ == session.ip_addr@
            &&& s.fingerprint@ == session.fingerprint@
            &&& s.audience.deep_view() == session.audience.deep_view()
        },
{
    if session.key_expiration_time > now {
        let mut session = session;
        session.key_expiration_time = key_expiration(now, refresh_key_lifetime_days);
        Ok(session)
    } else {
        Err(Error::SessionExpired)
    }
}

/// A refresh key issued at `now` for `days` days expires `days * 86400` seconds later.
pub proof fn lemma_expiry_is_days_later(now: i64, days: i64)
    requires
        expiry_fits(now, days),
    ensures
        expiry(now, days) == now + days * 86400,
        days > 0 ==> expiry(now, days) > now,
{
}

/// The model of a request holds the request's own fields, and its audience is
/// the request's list, element by element (empty when the request has none).
pub proof fn lemma_request_model(r: SessionRequest)
    ensures
        r@.id == r.id,
        r@.role == r.role@,
        r@.refresh_key_lifetime_days == r.refresh_key_lifetime_days,
        r@.ip_addr == r.ip_addr@,
        r@.fingerprint == r.fingerprint@,
        r.audience matches Some(v) ==> r@.audience == v.deep_view(),
        r.audience is None ==> r@.audience.len() == 0,
{
}

/// A new session holds the request's user, role, address, fingerprint and
/// audience, the given id, the login time, and a key that lives the requested days.
pub proof fn lemma_fresh_session_fields(req: RequestView, now: i64, session_id: u128)
    requires
        expiry_fits(now, req.refresh_key_lifetime_days),
    ensures
        ({
            let s = fresh_session(req, now, session_id);
            &&& s.id == req.id
            &&& s.session_id == session_id
            &&& s.logged_in == now
            &&& s.key_expiration_time == now + req.refresh_key_lifetime_days * 86400
            &&& s.role == req.role
            &&& s.ip_addr == req.ip_addr
            &&& s.fingerprint == req.fingerprint
            &&& s.audience == req.audience
        }),
{
}

/// A session taken over by a login keeps its user, id and fingerprint and takes
/// the request's role, address and audience, the login time and a key that lives
/// the requested days.
pub proof fn lemma_refreshed_session_fields(s: SessionView, req: RequestView, now: i64)
    requires
        expiry_fits(now, req.refresh_key_lifetime_days),
    ensures
        ({
            let r = refreshed_session(s, req, now);
            &&& r.id == s.id
            &&& r.session_id == s.session_id
            &&& r.fingerprint == s.fingerprint
            &&& r.logged_in == now
            &&& r.key_expiration_time == now + req.refresh_key_lifetime_days * 86400
            &&& r.role == req.role
            &&& r.ip_addr == req.ip_addr
            &&& r.audience == req.audience
        }),
{
}

/// A renewed session differs from the stored one only in its key, which expires
/// `days * 86400` seconds after `now`.
pub proof fn lemma_renewed_session_fields(s: SessionView, now: i64, days: i64)
    requires
        expiry_fits(now, days),
    ensures
        renewed_session(s, now, days) == (SessionView { key_expiration_time: (now + days * 86400) as i64, ..s }),
        renewed_session(s, now, days).key_expiration_time == now + days * 86400,
{
}

} // verus!
