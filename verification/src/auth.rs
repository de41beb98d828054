//! Values handed between the service and its clients.
use vstd::prelude::*;
use crate::error::Error;

verus! {

/// The keys handed to a client after a login: the short-lived access key and
/// the session key with which the access key is renewed.
#[derive(Debug, Clone)]
pub struct AuthInfo {
    pub access_key: String,
    pub session_key: String,
}

/// Settings of the running service (none yet).
#[derive(Debug, Clone)]
pub struct Settings {}

/// The characters that `str::trim` removes from an ASCII text.
pub open spec fn is_trimmed_char(c: char) -> bool {
    c == ' ' || c == '\t' || c == '\n' || c == '\u{b}' || c == '\u{c}' || c == '\r'
}

/// A text without its leading whitespace.
pub open spec fn trim_start(s: Seq<char>) -> Seq<char>
    decreases s.len(),
{
    if s.len() > 0 && is_trimmed_char(s[0]) {
        trim_start(s.drop_first())
    } else {
        s
    }
}

/// A text without its trailing whitespace.
pub open spec fn trim_end(s: Seq<char>) -> Seq<char>
    decreases s.len(),
{
    if s.len() > 0 && is_trimmed_char(s.last()) {
        trim_end(s.drop_last())
    } else {
        s
    }
}

/// The access key carried by an `Authorization` header value: what follows the
/// seven characters of the scheme (`Bearer `), without surrounding whitespace.
pub open spec fn bearer_token(value: Seq<char>) -> Seq<char> {
    trim_end(trim_start(value.skip(7)))
}

/// The message of the error for a request without an `Authorization` header.
pub open spec fn missing_header_message() -> Seq<char> {
    "Отсуствует заголовок Authorization"@
}

proof fn lemma_trim_start_skips(s: Seq<char>, k: int)
    requires
        0 <= k <= s.len(),
        forall|i: int| 0 <= i < k ==> is_trimmed_char(s[i]),
        k == s.len() || !is_trimmed_char(s[k]),
    ensures
        trim_start(s) == s.skip(k),
    decreases k,
{
    if k == 0 {
        assert(s.skip(0) =~= s);
    } else {
        lemma_trim_start_skips(s.drop_first(), k - 1);
        assert(s.drop_first().skip(k - 1) =~= s.skip(k));
    }
}

proof fn lemma_trim_end_takes(s: Seq<char>, m: int)
    requires
        0 <= m <= s.len(),
        forall|i: int| m <= i < s.len() ==> is_trimmed_char(s[i]),
        m == 0 || !is_trimmed_char(s[m - 1]),
    ensures
        trim_end(s) == s.take(m),
    decreases s.len() - m,
{
    if m == s.len() {
        assert(s.take(m) =~= s);
    } else {
        lemma_trim_end_takes(s.drop_last(), m);
        assert(s.drop_last().take(m) =~= s.take(m));
    }
}

/// The access key of a header text is its slice `a..b` after the scheme, where
/// everything in `7..a` and in `b..` is whitespace and the slice neither starts
/// nor ends with whitespace: all of the text after the first seven characters,
/// with only its leading and trailing whitespace removed.
pub proof fn lemma_bearer_token_is_trimmed_slice(v: Seq<char>, a: int, b: int)
    requires
        7 <= a <= b <= v.len(),
        forall|i: int| 7 <= i < a ==> is_trimmed_char(#[trigger] v[i]),
        forall|i: int| b <= i < v.len() ==> is_trimmed_char(#[trigger] v[i]),
        a < b ==> !is_trimmed_char(v[a]) && !is_trimmed_char(v[b - 1]),
    ensures
        bearer_token(v) == v.subrange(a, b),
        bearer_token(v).len() == b - a,
{
    let t = v.skip(7);
    if a == b {
        assert forall|i: int| 0 <= i < t.len() implies is_trimmed_char(t[i]) by {
            assert(t[i] == v[i + 7]);
        }
        lemma_trim_start_skips(t, t.len() as int);
        assert(t.skip(t.len() as int) =~= Seq::<char>::empty());
        assert(v.subrange(a, b) =~= Seq::<char>::empty());
    } else {
        assert forall|i: int| 0 <= i < a - 7 implies is_trimmed_char(t[i]) by {
            assert(t[i] == v[i + 7]);
        }
        assert(t[a - 7] == v[a]);
        lemma_trim_start_skips(t, a - 7);
        let u = v.subrange(a, v.len() as int);
        assert(t.skip(a - 7) =~= u);
        assert forall|i: int| b - a <= i < u.len() implies is_trimmed_char(u[i]) by {
            assert(u[i] == v[i + a]);
        }
        assert(u[b - a - 1] == v[b - 1]);
        lemma_trim_end_takes(u, b - a);
        assert(u.take(b - a) =~= v.subrange(a, b));
    }
}

/// The access key of a request, from the text of its `Authorization` header
/// (`None` when the request has no such header). The header text is ASCII (the
/// only text an HTTP header value converts to) and holds at least the scheme.
/// The key is all of the text after its first seven characters, with only
/// leading and trailing whitespace removed, whatever its length.
pub fn access_key_from_header(header: Option<&str>) -> (key: Result<String, Error>)
    requires
        header matches Some(v) ==> v.is_ascii() && v@.len() >= 7,
    ensures
        header matches Some(v) ==> (key matches Ok(k) && k@ == bearer_token(v@)),
        header matches Some(v) ==> (key matches Ok(k) && exists|a: int, b: int|
            {
                &&& 7 <= a <= b <= v@.len()
                &&& k@ == v@.subrange(a, b)
                &&& forall|i: int| 7 <= i < a ==> is_trimmed_char(#[trigger] v@[i])
                &&& forall|i: int| b <= i < v@.len() ==> is_trimmed_char(#[trigger] v@[i])
                &&& a < b ==> !is_trimmed_char(v@[a]) && !is_trimmed_char(v@[b - 1])
            }),
        header is None ==> (key matches Err(Error::AuthError(m)) && m@ == missing_header_message()),
{
    match header {
        Some(value) => {
            let n = value.unicode_len();
            let mut start: usize = 7;
            while start < n && is_whitespace_char(value.get_char(start))
                invariant
                    n == value@.len(),
                    7 <= start <= n,
                    forall|i: int| 7 <= i < start ==> is_trimmed_char(#[trigger] value@[i]),
                decreases n - start,
            {
                start = start + 1;
            }
            let mut end: usize = n;
            while end > start && is_whitespace_char(value.get_char(end - 1))
                invariant
                    n == value@.len(),
                    7 <= start <= end <= n,
                    forall|i: int| 7 <= i < start ==> is_trimmed_char(#[trigger] value@[i]),
                    start < n ==> !is_trimmed_char(value@[start as int]),
                    forall|i: int| end <= i < n ==> is_trimmed_char(#[trigger] value@[i]),
                decreases end - start,
            {
                end = end - 1;
            }
            proof {
                lemma_bearer_token_is_trimmed_slice(value@, start as int, end as int);
            }
            let token = value.substring_ascii(start, end);
            Ok(String::from_str(token))
        },
        None => Err(Error::AuthError(String::from_str("Отсуствует заголовок Authorization"))),
    }
}

/// Whether `str::trim` removes a character of an ASCII text.
fn is_whitespace_char(c: char) -> (r: bool)
    ensures
        r == is_trimmed_char(c),
{
    c == ' ' || c == '\t' || c == '\n' || c == '\u{b}' || c == '\u{c}' || c == '\r'
}

} // verus!
