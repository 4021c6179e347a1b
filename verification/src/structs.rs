//! Plain data shared by the authentication components.

use vstd::prelude::*;
use vstd::string::StringExecFns;
use vstd::std_specs::convert::FromSpecImpl;
use crate::text::{lowercase_of, str_eq, to_lowercase};

verus! {

/// The privilege level of an account. The three roles are compared for
/// equality only; there is no ranking among them.
#[derive(Clone, Copy, Debug, PartialEq, Eq, Structural)]
pub enum UserRole {
    Admin,
    User,
    NoRole,
}

/// The role that a lowercase name stands for, if it is one of the three
/// known names.
pub open spec fn role_of_lowercase(lower: Seq<char>) -> Option<UserRole> {
    if lower == "admin"@ {
        Some(UserRole::Admin)
    } else if lower == "user"@ {
        Some(UserRole::User)
    } else if lower == "none"@ {
        Some(UserRole::NoRole)
    } else {
        None
    }
}

/// What parsing a text gives: the role whose name the text is, letter case
/// aside, or a message that quotes the text.
pub open spec fn parse_role(s: Seq<char>) -> Result<UserRole, Seq<char>> {
    match role_of_lowercase(lowercase_of(s)) {
        Some(role) => Ok(role),
        None => Err("Unknown role: "@ + s),
    }
}

/// The role that a text degrades to: an unknown name gives the least
/// privilege.
pub open spec fn role_or_none(s: Seq<char>) -> UserRole {
    match role_of_lowercase(lowercase_of(s)) {
        Some(role) => role,
        None => UserRole::NoRole,
    }
}

impl UserRole {
    /// The lowercase name of the role.
    pub open spec fn name(self) -> Seq<char> {
        match self {
            UserRole::Admin => "admin"@,
            UserRole::User => "user"@,
            UserRole::NoRole => "none"@,
        }
    }

    /// The lowercase name of the role.
    pub fn as_str(&self) -> (r: &'static str)
        ensures
            r@ == self.name(),
    {
        match self {
            UserRole::Admin => "admin",
            UserRole::User => "user",
            UserRole::NoRole => "none",
        }
    }

    /// The lowercase name of the role, as an owned text.
    pub fn to_string(&self) -> (r: String)
        ensures
            r@ == self.name(),
    {
        self.as_str().to_owned()
    }

    /// Whether this role is the administrator role.
    pub fn is_admin(&self) -> (r: bool)
        ensures
            r == (*self == UserRole::Admin),
    {
        *self == UserRole::Admin
    }

    /// The role named by a text that is already lowercase.
    pub fn from_lowercase(lower: &str) -> (r: Option<UserRole>)
        ensures
            r == role_of_lowercase(lower@),
    {
        if str_eq(lower, "admin") {
            Some(UserRole::Admin)
        } else if str_eq(lower, "user") {
            Some(UserRole::User)
        } else if str_eq(lower, "none") {
            Some(UserRole::NoRole)
        } else {
            None
        }
    }

    /// Parses a role name, ignoring letter case. An unknown name is an
    /// error whose message quotes the text.
    pub fn from_str(s: &str) -> (r: Result<UserRole, String>)
        ensures
            match parse_role(s@) {
                Ok(role) => r == Ok::<UserRole, String>(role),
                Err(msg) => r matches Err(e) && e@ == msg,
            },
    {
        let lower = to_lowercase(s);
        match UserRole::from_lowercase(lower.as_str()) {
            Some(role) => Ok(role),
            None => Err(String::from_str("Unknown role: ").concat(s)),
        }
    }

    /// The role named by a text, ignoring letter case; an unknown name
    /// gives `NoRole`.
    pub fn from_name(s: &str) -> (r: UserRole)
        ensures
            r == role_or_none(s@),
    {
        match UserRole::from_lowercase(to_lowercase(s).as_str()) {
            Some(role) => role,
            None => UserRole::NoRole,
        }
    }
}

/// A stored account.
#[derive(Clone, Debug)]
pub struct User {
    pub id: i64,
    pub email: String,
    /// The encoded hash of the account's password.
    pub password: String,
    pub role: UserRole,
    /// When the account was created, in seconds since the epoch.
    pub created_at: i64,
}

/// The form that changes the role of an account.
#[derive(Clone, Copy, Debug, PartialEq, Eq, Structural)]
pub struct UserUpdateForm {
    pub role: UserRole,
}

/// A column of a table view: its heading, the key of the row's value that
/// it shows, and the name of the format of its cells, if they have one.
#[derive(Clone, Debug, PartialEq, Eq)]
pub struct TableHeader {
    pub label: String,
    pub key: String,
    pub format: Option<String>,
}

/// An action that a table view offers: its caption, its target and the
/// request method that it is sent with.
#[derive(Clone, Debug, PartialEq, Eq)]
pub struct TableAction {
    pub label: String,
    pub action: String,
    pub method: String,
}

/// A table view: its columns, its rows and its actions.
#[derive(Clone, Debug)]
pub struct Table<T> {
    pub headers: Vec<TableHeader>,
    pub rows: Vec<T>,
    pub actions: Vec<TableAction>,
}

/// Two different roles never share a name.
pub proof fn lemma_names_distinct(a: UserRole, b: UserRole)
    requires
        a != b,
    ensures
        a.name() != b.name(),
{
    reveal_strlit("admin");
    reveal_strlit("user");
    reveal_strlit("none");
    assert("admin"@.len() == 5);
    assert("user"@.len() == 4);
    assert("none"@.len() == 4);
    assert("user"@[0] == 'u');
    assert("none"@[0] == 'n');
}

impl core::str::FromStr for UserRole {
    type Err = String;

    fn from_str(s: &str) -> (r: Result<UserRole, String>)
        ensures
            match parse_role(s@) {
                Ok(role) => r == Ok::<UserRole, String>(role),
                Err(msg) => r matches Err(e) && e@ == msg,
            },
    {
        UserRole::from_str(s)
    }
}

impl From<String> for UserRole {
    fn from(s: String) -> (r: UserRole) {
        UserRole::from_name(s.as_str())
    }
}

impl FromSpecImpl<String> for UserRole {
    open spec fn obeys_from_spec() -> bool {
        true
    }

    open spec fn from_spec(s: String) -> UserRole {
        role_or_none(s@)
    }
}

impl From<&str> for UserRole {
    fn from(s: &str) -> (r: UserRole) {
        UserRole::from_name(s)
    }
}

impl FromSpecImpl<&str> for UserRole {
    open spec fn obeys_from_spec() -> bool {
        true
    }

    open spec fn from_spec(s: &str) -> UserRole {
        role_or_none(s@)
    }
}

} // verus!
