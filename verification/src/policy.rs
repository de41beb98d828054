//! What opening a session does to the stored sessions of a user.
use vstd::prelude::*;
use crate::codec::{new_session_id, uuid_variant_is_rfc4122, uuid_version};
use crate::session::{
    expiry, expiry_fits, fresh_session, new_session_with_id, refresh_session, refreshed_session, RequestView,
    SessionRequest, SessionView, UserSessionDbo,
};

verus! {

/// The writes that open a session: first delete the session `remove` (if any),
/// then insert or replace `store`, whose session id is handed back to the client.
pub struct SessionPlan {
    pub remove: Option<u128>,
    pub store: UserSessionDbo,
}

/// Mathematical model of a plan.
pub struct PlanView {
    pub remove: Option<u128>,
    pub store: SessionView,
}

impl View for SessionPlan {
    type V = PlanView;

    open spec fn view(&self) -> PlanView {
        PlanView { remove: self.remove, store: self.store@ }
    }
}

/// Models of a list of stored sessions.
pub open spec fn sessions_view(v: Seq<UserSessionDbo>) -> Seq<SessionView> {
    v.map_values(|s: UserSessionDbo| s@)
}

/// Some session of the list was opened by the client with this fingerprint.
pub open spec fn has_fingerprint(s: Seq<SessionView>, fingerprint: Seq<char>) -> bool {
    exists|i: int| 0 <= i < s.len() && (#[trigger] s[i]).fingerprint == fingerprint
}

/// `i` is the first position of the list whose session has this fingerprint.
pub open spec fn is_first_with_fingerprint(s: Seq<SessionView>, fingerprint: Seq<char>, i: int) -> bool {
    &&& 0 <= i < s.len()
    &&& s[i].fingerprint == fingerprint
    &&& forall|j: int| 0 <= j < i ==> (#[trigger] s[j]).fingerprint != fingerprint
}

/// The first position of the list whose session has this fingerprint.
pub open spec fn first_with_fingerprint(s: Seq<SessionView>, fingerprint: Seq<char>) -> int {
    choose|i: int| is_first_with_fingerprint(s, fingerprint, i)
}

/// The list without its first (oldest) session, the last one taking its place.
pub open spec fn without_oldest(s: Seq<SessionView>) -> Seq<SessionView> {
    s.update(0, s.last()).drop_last()
}

/// The login takes over an existing session rather than opening a new one.
pub open spec fn takes_over(current: Seq<SessionView>, max_sessions_count: u8, fingerprint: Seq<char>) -> bool {
    if current.len() == 0 {
        false
    } else if current.len() > max_sessions_count {
        has_fingerprint(without_oldest(current), fingerprint)
    } else {
        has_fingerprint(current, fingerprint)
    }
}

/// The plan for a login, given the user's current sessions ordered from the
/// oldest login on, the most sessions kept before the oldest is given up, the
/// request, the time, and the id that a new session gets.
///
/// - No session yet: a new session.
/// - More than `max_sessions_count` sessions: the oldest is set aside; a session
///   of the same client among the others is taken over, else the oldest is
///   deleted and a new session opened.
/// - Otherwise: a session of the same client is taken over, else a new one opened.
pub open spec fn create_plan(
    current: Seq<SessionView>,
    max_sessions_count: u8,
    req: RequestView,
    now: i64,
    new_session_id: u128,
) -> PlanView {
    let fresh = fresh_session(req, now, new_session_id);
    if current.len() == 0 {
        PlanView { remove: None, store: fresh }
    } else if current.len() > max_sessions_count {
        let rest = without_oldest(current);
        if has_fingerprint(rest, req.fingerprint) {
            PlanView {
                remove: None,
                store: refreshed_session(rest[first_with_fingerprint(rest, req.fingerprint)], req, now),
            }
        } else {
            PlanView { remove: Some(current[0].session_id), store: fresh }
        }
    } else if has_fingerprint(current, req.fingerprint) {
        PlanView {
            remove: None,
            store: refreshed_session(current[first_with_fingerprint(current, req.fingerprint)], req, now),
        }
    } else {
        PlanView { remove: None, store: fresh }
    }
}

proof fn lemma_first_is_unique(s: Seq<SessionView>, fingerprint: Seq<char>, i: int)
    requires
        is_first_with_fingerprint(s, fingerprint, i),
    ensures
        first_with_fingerprint(s, fingerprint) == i,
{
    let k = first_with_fingerprint(s, fingerprint);
    assert(is_first_with_fingerprint(s, fingerprint, k));
    if k < i {
        assert(s[k].fingerprint != fingerprint);
    } else if i < k {
        assert(s[i].fingerprint != fingerprint);
    }
}

/// Position of the first session with this fingerprint, if any.
fn find_fingerprint(sessions: &Vec<UserSessionDbo>, fingerprint: &String) -> (found: Option<usize>)
    ensures
        match found {
            Some(i) => is_first_with_fingerprint(sessions_view(sessions@), fingerprint@, i as int),
            None => !has_fingerprint(sessions_view(sessions@), fingerprint@),
        },
{
    let ghost s = sessions_view(sessions@);
    let mut i: usize = 0;
    while i < sessions.len()
        invariant
            s == sessions_view(sessions@),
            i <= sessions.len(),
            forall|j: int| 0 <= j < i ==> (#[trigger] s[j]).fingerprint != fingerprint@,
        decreases sessions.len() - i,
    {
        if sessions[i].fingerprint == *fingerprint {
            return Some(i);
        }
        i = i + 1;
    }
    None
}

/// Whether a login of the client with `fingerprint` takes over one of `current`.
pub fn login_takes_over(current: &Vec<UserSessionDbo>, max_sessions_count: u8, fingerprint: &String) -> (r:
    bool)
    ensures
        r == takes_over(sessions_view(current@), max_sessions_count, fingerprint@),
{
    let ghost s = sessions_view(current@);
    let n = current.len();
    if n == 0 {
        return false;
    }
    let ghost rest = without_oldest(s);
    if n > max_sessions_count as usize {
        // the sessions other than the oldest, in any order
        let mut i: usize = 1;
        while i < n
            invariant
                s == sessions_view(current@),
                n == current.len(),
                rest == without_oldest(s),
                1 <= i <= n,
                forall|j: int| 1 <= j < i ==> (#[trigger] s[j]).fingerprint != fingerprint@,
            decreases n - i,
        {
            if current[i].fingerprint == *fingerprint {
                assert(rest[if i == n - 1 { 0 } else { i as int }] == s[i as int]);
                return true;
            }
            i = i + 1;
        }
        assert forall|k: int| 0 <= k < rest.len() implies (#[trigger] rest[k]).fingerprint != fingerprint@ by {
            if k == 0 {
                assert(rest[0] == s[n - 1]);
            } else {
                assert(rest[k] == s[k]);
            }
        }
        false
    } else {
        find_fingerprint(current, fingerprint).is_some()
    }
}

/// The plan for a login (see `create_plan`), a new session getting `new_session_id`.
pub fn plan_create_session_with_id(
    current_sessions: Vec<UserSessionDbo>,
    max_sessions_count: u8,
    request: SessionRequest,
    now: i64,
    new_session_id: u128,
) -> (plan: SessionPlan)
    requires
        expiry_fits(now, request.refresh_key_lifetime_days),
    ensures
        plan@ == create_plan(sessions_view(current_sessions@), max_sessions_count, request@, now, new_session_id),
        plan.store.logged_in == now,
        plan.store.key_expiration_time == now + request.refresh_key_lifetime_days * 86400,
        plan.store.role@ == request.role@,
        plan.store.ip_addr@ == request.ip_addr@,
        plan.store.fingerprint@ == request.fingerprint@,
        request.audience matches Some(v) ==> plan.store.audience.deep_view() == v.deep_view(),
        request.audience is None ==> plan.store.audience.len() == 0,
{
    let ghost s = sessions_view(current_sessions@);
    let ghost req = request@;
    let mut current = current_sessions;
    if current.len() == 0 {
        SessionPlan { remove: None, store: new_session_with_id(request, now, new_session_id) }
    } else if current.len() > max_sessions_count as usize {
        let oldest = current.swap_remove(0);
        assert(sessions_view(current@) =~= without_oldest(s));
        match find_fingerprint(&current, &request.fingerprint) {
            Some(k) => {
                proof {
                    lemma_first_is_unique(sessions_view(current@), req.fingerprint, k as int);
                }
                let taken = current.remove(k);
                SessionPlan { remove: None, store: refresh_session(taken, request, now) }
            },
            None => SessionPlan {
                remove: Some(oldest.session_id),
                store: new_session_with_id(request, now, new_session_id),
            },
        }
    } else {
        match find_fingerprint(&current, &request.fingerprint) {
            Some(k) => {
                proof {
                    lemma_first_is_unique(s, req.fingerprint, k as int);
                }
                let taken = current.remove(k);
                SessionPlan { remove: None, store: refresh_session(taken, request, now) }
            },
            None => SessionPlan { remove: None, store: new_session_with_id(request, now, new_session_id) },
        }
    }
}

/// The plan for a login (see `create_plan`); a new session gets a new version 7
/// UUID, drawn only when the login does not take over an existing session.
pub fn plan_create_session(
    current_sessions: Vec<UserSessionDbo>,
    max_sessions_count: u8,
    request: SessionRequest,
    now: i64,
) -> (plan: SessionPlan)
    requires
        expiry_fits(now, request.refresh_key_lifetime_days),
    ensures
        plan@ == create_plan(
            sessions_view(current_sessions@),
            max_sessions_count,
            request@,
            now,
            plan.store.session_id,
        ),
        !takes_over(sessions_view(current_sessions@), max_sessions_count, request@.fingerprint)
            ==> uuid_version(plan.store.session_id) == 7 && uuid_variant_is_rfc4122(plan.store.session_id),
        plan.store.logged_in == now,
        plan.store.key_expiration_time == now + request.refresh_key_lifetime_days * 86400,
        plan.store.role@ == request.role@,
        plan.store.ip_addr@ == request.ip_addr@,
        plan.store.fingerprint@ == request.fingerprint@,
        request.audience matches Some(v) ==> plan.store.audience.deep_view() == v.deep_view(),
        request.audience is None ==> plan.store.audience.len() == 0,
{
    let takes = login_takes_over(&current_sessions, max_sessions_count, &request.fingerprint);
    let session_id = if takes {
        0
    } else {
        new_session_id()
    };
    let plan = plan_create_session_with_id(current_sessions, max_sessions_count, request, now, session_id);
    plan
}

/// The stored sessions of one user after a plan is carried out: the session
/// `remove` is deleted, then `store` is inserted under its session id,
/// replacing a stored session with that id.
pub open spec fn apply_plan(table: Map<u128, SessionView>, plan: PlanView) -> Map<u128, SessionView> {
    let kept = match plan.remove {
        Some(k) => table.remove(k),
        None => table,
    };
    kept.insert(plan.store.session_id, plan.store)
}

/// `current` lists the stored sessions `table` of user `id`, keyed by session
/// id: each stored session once, and nothing else.
pub open spec fn lists(current: Seq<SessionView>, table: Map<u128, SessionView>, id: u128) -> bool {
    &&& table.dom().finite()
    &&& current.len() == table.dom().len()
    &&& forall|i: int|
        0 <= i < current.len() ==> {
            &&& table.contains_key((#[trigger] current[i]).session_id)
            &&& table[current[i].session_id] == current[i]
            &&& current[i].id == id
        }
    &&& forall|k: u128|
        #[trigger] table.contains_key(k) ==> exists|i: int| 0 <= i < current.len() && (#[trigger] current[i]).session_id == k
}

/// No two stored sessions were opened by the same client.
pub open spec fn unique_fingerprints(table: Map<u128, SessionView>) -> bool {
    forall|a: u128, b: u128|
        #[trigger] table.contains_key(a) && #[trigger] table.contains_key(b) && a != b ==> table[a].fingerprint
            != table[b].fingerprint
}

proof fn lemma_rest_covers(current: Seq<SessionView>, i: int)
    requires
        current.len() > 0,
        1 <= i < current.len(),
    ensures
        ({
            let rest = without_oldest(current);
            let j = if i == current.len() - 1 { 0 } else { i };
            0 <= j < rest.len() && rest[j] == current[i]
        }),
{
}

proof fn lemma_rest_from(current: Seq<SessionView>, k: int)
    requires
        current.len() > 0,
        0 <= k < without_oldest(current).len(),
    ensures
        ({
            let i = if k == 0 { current.len() - 1 } else { k };
            1 <= i < current.len() && without_oldest(current)[k] == current[i]
        }),
{
}

/// Where the stored session of a plan comes from: a taken-over session keeps its
/// stored session id and fingerprint; otherwise the session is new.
proof fn lemma_plan_store(
    current: Seq<SessionView>,
    table: Map<u128, SessionView>,
    max_sessions_count: u8,
    req: RequestView,
    now: i64,
    new_session_id: u128,
)
    requires
        lists(current, table, req.id),
    ensures
        ({
            let plan = create_plan(current, max_sessions_count, req, now, new_session_id);
            &&& takes_over(current, max_sessions_count, req.fingerprint) ==> {
                &&& plan.remove is None
                &&& table.contains_key(plan.store.session_id)
                &&& table[plan.store.session_id].fingerprint == req.fingerprint
                &&& plan.store == refreshed_session(table[plan.store.session_id], req, now)
            }
            &&& !takes_over(current, max_sessions_count, req.fingerprint) ==> {
                &&& plan.store == fresh_session(req, now, new_session_id)
                &&& plan.remove is Some ==> current.len() > max_sessions_count && plan.remove == Some(
                    current[0].session_id,
                )
            }
        }),
{
    let plan = create_plan(current, max_sessions_count, req, now, new_session_id);
    if current.len() > 0 && current.len() > max_sessions_count {
        let rest = without_oldest(current);
        if has_fingerprint(rest, req.fingerprint) {
            let w = choose|i: int| 0 <= i < rest.len() && (#[trigger] rest[i]).fingerprint == req.fingerprint;
            let f = first_with_fingerprint(rest, req.fingerprint);
            assert(is_first_with_fingerprint(rest, req.fingerprint, f)) by {
                lemma_exists_first(rest, req.fingerprint, w);
            }
            lemma_rest_from(current, f);
            let i = if f == 0 { current.len() - 1 } else { f };
            assert(current[i] == rest[f]);
        }
    } else if current.len() > 0 && has_fingerprint(current, req.fingerprint) {
        let w = choose|i: int| 0 <= i < current.len() && (#[trigger] current[i]).fingerprint == req.fingerprint;
        lemma_exists_first(current, req.fingerprint, w);
        let f = first_with_fingerprint(current, req.fingerprint);
        assert(table.contains_key(current[f].session_id));
    }
}

proof fn lemma_exists_first(s: Seq<SessionView>, fingerprint: Seq<char>, w: int)
    requires
        0 <= w < s.len(),
        s[w].fingerprint == fingerprint,
    ensures
        is_first_with_fingerprint(s, fingerprint, first_with_fingerprint(s, fingerprint)),
    decreases w,
{
    if exists|j: int| 0 <= j < w && (#[trigger] s[j]).fingerprint == fingerprint {
        let j = choose|j: int| 0 <= j < w && (#[trigger] s[j]).fingerprint == fingerprint;
        lemma_exists_first(s, fingerprint, j);
    } else {
        assert(is_first_with_fingerprint(s, fingerprint, w));
    }
}

/// The number of sessions of a user after a login: one more exactly when a new
/// client logs in while the user has at most `max_sessions_count` sessions, the
/// same otherwise (a returning client takes over its session; over the limit the
/// oldest gives way). So a login keeps the count within `max_sessions_count + 1`.
/// Assumes the new session id is not already taken by one of the user's sessions.
pub proof fn lemma_login_bounds_session_count(
    current: Seq<SessionView>,
    table: Map<u128, SessionView>,
    max_sessions_count: u8,
    req: RequestView,
    now: i64,
    new_session_id: u128,
)
    requires
        lists(current, table, req.id),
        !table.contains_key(new_session_id),
    ensures
        ({
            let after = apply_plan(table, create_plan(current, max_sessions_count, req, now, new_session_id));
            &&& after.dom().finite()
            &&& after.dom().len() == if !takes_over(current, max_sessions_count, req.fingerprint)
                && table.dom().len() <= max_sessions_count {
                table.dom().len() + 1
            } else {
                table.dom().len()
            }
            &&& after.dom().len() <= table.dom().len() + 1
            &&& table.dom().len() > max_sessions_count ==> after.dom().len() == table.dom().len()
            &&& table.dom().len() <= max_sessions_count + 1 ==> after.dom().len() <= max_sessions_count + 1
        }),
{
    let plan = create_plan(current, max_sessions_count, req, now, new_session_id);
    lemma_plan_store(current, table, max_sessions_count, req, now, new_session_id);
    if current.len() > 0 {
        assert(table.contains_key(current[0].session_id));
    }
    let kept = match plan.remove {
        Some(k) => table.remove(k),
        None => table,
    };
    assert(kept.dom().finite());
    if !takes_over(current, max_sessions_count, req.fingerprint) {
        assert(!kept.contains_key(new_session_id));
    }
}

/// Reading back the session that a login stores gives the request's user, role,
/// client address, fingerprint and audience, the login time, and a refresh key
/// that lives the requested number of days; a new session has the new id.
pub proof fn lemma_login_stores_requested_session(
    current: Seq<SessionView>,
    table: Map<u128, SessionView>,
    max_sessions_count: u8,
    req: RequestView,
    now: i64,
    new_session_id: u128,
)
    requires
        lists(current, table, req.id),
    ensures
        ({
            let plan = create_plan(current, max_sessions_count, req, now, new_session_id);
            let after = apply_plan(table, plan);
            let s = after[plan.store.session_id];
            &&& after.contains_key(plan.store.session_id)
            &&& s == plan.store
            &&& s.id == req.id
            &&& s.role == req.role
            &&& s.ip_addr == req.ip_addr
            &&& s.fingerprint == req.fingerprint
            &&& s.audience == req.audience
            &&& s.logged_in == now
            &&& s.key_expiration_time == expiry(now, req.refresh_key_lifetime_days)
            &&& expiry_fits(now, req.refresh_key_lifetime_days) ==> s.key_expiration_time == now
                + req.refresh_key_lifetime_days * 86400
            &&& takes_over(current, max_sessions_count, req.fingerprint) ==> table.contains_key(
                plan.store.session_id,
            )
            &&& !takes_over(current, max_sessions_count, req.fingerprint) ==> plan.store.session_id
                == new_session_id
        }),
{
    lemma_plan_store(current, table, max_sessions_count, req, now, new_session_id);
    let plan = create_plan(current, max_sessions_count, req, now, new_session_id);
    if takes_over(current, max_sessions_count, req.fingerprint) {
        let sid = plan.store.session_id;
        let i = choose|i: int| 0 <= i < current.len() && (#[trigger] current[i]).session_id == sid;
        assert(table[sid] == current[i]);
    }
}

/// A login never leaves two sessions of the same client: with the stored
/// sessions of distinct clients before, they are of distinct clients after, and
/// the stored session is the only one of the requesting client. Assumes the new
/// session id is not already taken by one of the user's sessions.
pub proof fn lemma_login_keeps_clients_distinct(
    current: Seq<SessionView>,
    table: Map<u128, SessionView>,
    max_sessions_count: u8,
    req: RequestView,
    now: i64,
    new_session_id: u128,
)
    requires
        lists(current, table, req.id),
        unique_fingerprints(table),
        !table.contains_key(new_session_id),
    ensures
        ({
            let plan = create_plan(current, max_sessions_count, req, now, new_session_id);
            let after = apply_plan(table, plan);
            &&& unique_fingerprints(after)
            &&& forall|k: u128|
                #[trigger] after.contains_key(k) && after[k].fingerprint == req.fingerprint ==> k
                    == plan.store.session_id
        }),
{
    lemma_plan_store(current, table, max_sessions_count, req, now, new_session_id);
    let plan = create_plan(current, max_sessions_count, req, now, new_session_id);
    let after = apply_plan(table, plan);
    let sid = plan.store.session_id;
    assert forall|k: u128| #[trigger] after.contains_key(k) && k != sid implies after[k].fingerprint
        != req.fingerprint by {
        assert(table.contains_key(k));
        assert(after[k] == table[k]);
        if takes_over(current, max_sessions_count, req.fingerprint) {
            assert(table.contains_key(sid));
        } else {
            let i = choose|i: int| 0 <= i < current.len() && (#[trigger] current[i]).session_id == k;
            assert(table[k] == current[i]);
            if current.len() > max_sessions_count {
                assert(i != 0);
                lemma_rest_covers(current, i);
                let j = if i == current.len() - 1 { 0 } else { i };
                assert(without_oldest(current)[j] == current[i]);
            } else {
                assert(current[i].fingerprint != req.fingerprint);
            }
        }
    }
    assert(plan.store.fingerprint == req.fingerprint);
}

/// The whole sessions table after a plan is carried out, keyed by user and
/// session id: every row with session id `remove` is deleted, then `store` is
/// inserted under its user and session id, replacing a row with that key.
pub open spec fn apply_plan_to_table(
    table: Map<(u128, u128), SessionView>,
    plan: PlanView,
) -> Map<(u128, u128), SessionView> {
    let kept = match plan.remove {
        Some(x) => Map::new(|k: (u128, u128)| table.contains_key(k) && k.1 != x, |k: (u128, u128)| table[k]),
        None => table,
    };
    kept.insert((plan.store.id, plan.store.session_id), plan.store)
}

/// The sessions of user `id` in the whole table, keyed by session id.
pub open spec fn user_rows(table: Map<(u128, u128), SessionView>, id: u128) -> Map<u128, SessionView> {
    Map::new(|sid: u128| table.contains_key((id, sid)), |sid: u128| table[(id, sid)])
}

/// No session id is used by two users.
pub open spec fn session_ids_unique(table: Map<(u128, u128), SessionView>) -> bool {
    forall|a: (u128, u128), b: (u128, u128)|
        #[trigger] table.contains_key(a) && #[trigger] table.contains_key(b) && a.1 == b.1 ==> a == b
}

/// A login touches only the sessions of the user who logs in: the rows of every
/// other user are kept unchanged and none is added, and the user's own sessions
/// change as `apply_plan` says. Assumes that no session id is used by two users.
pub proof fn lemma_login_touches_only_own_sessions(
    current: Seq<SessionView>,
    table: Map<(u128, u128), SessionView>,
    max_sessions_count: u8,
    req: RequestView,
    now: i64,
    new_session_id: u128,
)
    requires
        lists(current, user_rows(table, req.id), req.id),
        session_ids_unique(table),
    ensures
        ({
            let plan = create_plan(current, max_sessions_count, req, now, new_session_id);
            let after = apply_plan_to_table(table, plan);
            &&& forall|k: (u128, u128)|
                k.0 != req.id ==> (#[trigger] after.contains_key(k) <==> table.contains_key(k))
            &&& forall|k: (u128, u128)| k.0 != req.id && #[trigger] after.contains_key(k) ==> after[k] == table[k]
            &&& user_rows(after, req.id) == apply_plan(user_rows(table, req.id), plan)
        }),
{
    let rows = user_rows(table, req.id);
    let plan = create_plan(current, max_sessions_count, req, now, new_session_id);
    lemma_plan_store(current, rows, max_sessions_count, req, now, new_session_id);
    lemma_login_stores_requested_session(current, rows, max_sessions_count, req, now, new_session_id);
    let after = apply_plan_to_table(table, plan);
    if plan.remove is Some {
        assert(rows.contains_key(current[0].session_id));
        assert(table.contains_key((req.id, current[0].session_id)));
    }
    assert forall|k: (u128, u128)| k.0 != req.id implies (#[trigger] after.contains_key(k) <==> table.contains_key(k)) by {
        if let Some(x) = plan.remove {
            if table.contains_key(k) && k.1 == x {
                assert(table.contains_key((req.id, x)));
            }
        }
    }
    assert(user_rows(after, req.id) =~= apply_plan(rows, plan));
}

} // verus!
