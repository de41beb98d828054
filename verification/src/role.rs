use vstd::prelude::*;

verus! {

/// Access level carried by a session and by the access keys issued for it.
#[derive(Debug, Copy, Clone, PartialEq, Eq, Structural)]
pub enum Role {
    NonPrivileged,
    User,
    Administrator,
}

/// The text under which a role is stored and written into keys.
pub open spec fn role_name(role: Role) -> Seq<char> {
    match role {
        Role::NonPrivileged => "NonPrivileged"@,
        Role::User => "User"@,
        Role::Administrator => "Administrator"@,
    }
}

/// The role that a text denotes: the two privileged names are matched
/// exactly, and every other text is the unprivileged role.
pub open spec fn role_from_text(text: Seq<char>) -> Role {
    if text == "User"@ {
        Role::User
    } else if text == "Administrator"@ {
        Role::Administrator
    } else {
        Role::NonPrivileged
    }
}

/// Character-by-character comparison of two string slices.
pub fn text_equals(a: &str, b: &str) -> (same: bool)
    ensures
        same == (a@ == b@),
{
    let n = a.unicode_len();
    let m = b.unicode_len();
    if n != m {
        return false;
    }
    let mut i: usize = 0;
    while i < n
        invariant
            n == a@.len(),
            m == b@.len(),
            n == m,
            i <= n,
            forall|j: int| 0 <= j < i ==> a@[j] == b@[j],
        decreases n - i,
    {
        if a.get_char(i) != b.get_char(i) {
            return false;
        }
        i = i + 1;
    }
    assert(a@ =~= b@);
    true
}

impl Role {
    /// The stored name of the role.
    pub fn as_str(&self) -> (name: &'static str)
        ensures
            name@ == role_name(*self),
    {
        match self {
            Role::NonPrivileged => "NonPrivileged",
            Role::User => "User",
            Role::Administrator => "Administrator",
        }
    }

    /// The stored name of the role as an owned string.
    pub fn to_string(&self) -> (name: String)
        ensures
            name@ == role_name(*self),
    {
        String::from_str(self.as_str())
    }

    /// Reads a role from its text; unknown texts give the unprivileged role.
    pub fn from_text(text: &str) -> (role: Role)
        ensures
            role == role_from_text(text@),
    {
        if text_equals(text, "User") {
            Role::User
        } else if text_equals(text, "Administrator") {
            Role::Administrator
        } else {
            Role::NonPrivileged
        }
    }
}

impl<'a> From<&'a str> for Role {
    fn from(value: &'a str) -> (role: Role) {
        Role::from_text(value)
    }
}

impl<'a> vstd::std_specs::convert::FromSpecImpl<&'a str> for Role {
    open spec fn obeys_from_spec() -> bool {
        true
    }

    open spec fn from_spec(v: &'a str) -> Role {
        role_from_text(v@)
    }
}


impl From<String> for Role {
    fn from(value: String) -> (role: Role) {
        Role::from_text(value.as_str())
    }
}

impl vstd::std_specs::convert::FromSpecImpl<String> for Role {
    open spec fn obeys_from_spec() -> bool {
        true
    }

    open spec fn from_spec(v: String) -> Role {
        role_from_text(v@)
    }
}

impl<'a> From<&'a String> for Role {
    fn from(value: &'a String) -> (role: Role) {
        Role::from_text(value.as_str())
    }
}

impl<'a> vstd::std_specs::convert::FromSpecImpl<&'a String> for Role {
    open spec fn obeys_from_spec() -> bool {
        true
    }

    open spec fn from_spec(v: &'a String) -> Role {
        role_from_text(v@)
    }
}

impl core::str::FromStr for Role {
    type Err = String;

    fn from_str(s: &str) -> (role: Result<Role, String>)
        ensures
            role == Ok::<Role, String>(role_from_text(s@)),
    {
        Ok(Role::from_text(s))
    }
}

impl AsRef<str> for Role {
    fn as_ref(&self) -> (name: &str)
        ensures
            name@ == role_name(*self),
    {
        self.as_str()
    }
}

/// Reading back the stored name of a role gives the same role.
pub proof fn lemma_role_name_roundtrip(role: Role)
    ensures
        role_from_text(role_name(role)) == role,
{
    reveal_strlit("User");
    reveal_strlit("Administrator");
    reveal_strlit("NonPrivileged");
    assert("User"@[0] == 'U');
    assert("Administrator"@[0] == 'A');
    assert("NonPrivileged"@[0] == 'N');
}

} // verus!
