//! The login flow: it checks submitted credentials against a stored
//! account in a way that does not reveal whether the account exists, and
//! issues the session cookie.

use vstd::prelude::*;
use vstd::utf8::{encode_utf8, is_ascii_chars, is_ascii_chars_encode_utf8};
use crate::config::Env;
use crate::password::{hash_password, password_matches, verify_password};
use crate::structs::{User, UserRole};
use crate::token::{
    create_jwt, create_jwt_at, issue_spec, issued_as, JwtError, SESSION_TTL_SECONDS,
};

verus! {

/// The password whose hash stands in for the hash of an unknown account.
pub const DUMMY_PASSWORD: &'static str = "dummy_password_for_timing_safety";

/// The hash that stands in where the dummy password cannot be hashed.
pub const FALLBACK_DUMMY_HASH: &'static str =
    "$argon2id$v=19$m=4096,t=3,p=1$c29tZXNhbHQ$i6PrS9n+AdfNf/U7/lH1XQ";

/// The name of the session cookie.
pub const COOKIE_NAME: &'static str = "token";

/// The path of the session cookie.
pub const COOKIE_PATH: &'static str = "/";

/// How long the client keeps the session cookie, in seconds.
pub const COOKIE_MAX_AGE_SECONDS: u64 = 3600;

/// Where the client is sent after a login.
pub const LANDING_ROUTE: &'static str = "/";

/// The one message of every rejected login.
pub const LOGIN_FAILURE_MESSAGE: &'static str = "Falsche Daten";

/// The credentials that a login attempt submits.
#[derive(Clone, Debug)]
pub struct FormData {
    pub email: String,
    pub password: String,
}

/// The session cookie with all its attributes.
#[derive(Clone, Debug)]
pub struct SessionCookie {
    pub name: String,
    pub value: String,
    pub domain: String,
    pub path: String,
    pub same_site_strict: bool,
    pub secure: bool,
    pub http_only: bool,
    pub max_age_seconds: u64,
}

/// The mathematical content of a `SessionCookie`.
pub ghost struct CookieView {
    pub name: Seq<char>,
    pub value: Seq<char>,
    pub domain: Seq<char>,
    pub path: Seq<char>,
    pub same_site_strict: bool,
    pub secure: bool,
    pub http_only: bool,
    pub max_age_seconds: u64,
}

impl View for SessionCookie {
    type V = CookieView;

    open spec fn view(&self) -> CookieView {
        CookieView {
            name: self.name@,
            value: self.value@,
            domain: self.domain@,
            path: self.path@,
            same_site_strict: self.same_site_strict,
            secure: self.secure,
            http_only: self.http_only,
            max_age_seconds: self.max_age_seconds,
        }
    }
}

/// How a login attempt ends.
#[derive(Clone, Debug)]
pub enum LoginOutcome {
    /// The credentials were accepted: the client gets this cookie and is
    /// sent to the landing route.
    Granted(SessionCookie),
    /// The attempt is rejected; the client sees the login view again with
    /// the one failure message, whatever the reason.
    Rejected,
    /// The credentials were accepted but no token could be issued.
    Failed(JwtError),
}

/// The mathematical content of a `LoginOutcome`.
pub ghost enum LoginView {
    Granted(CookieView),
    Rejected,
    Failed(JwtError),
}

impl View for LoginOutcome {
    type V = LoginView;

    open spec fn view(&self) -> LoginView {
        match self {
            LoginOutcome::Granted(cookie) => LoginView::Granted(cookie@),
            LoginOutcome::Rejected => LoginView::Rejected,
            LoginOutcome::Failed(e) => LoginView::Failed(*e),
        }
    }
}

/// The cookie that carries a token: named `token`, bound to the deployment
/// domain and the root path, same-site strict, never readable by scripts,
/// and restricted to secure transport everywhere but in development.
pub open spec fn session_cookie_spec(token: Seq<char>, domain: Seq<char>, env: Env) -> CookieView {
    CookieView {
        name: COOKIE_NAME@,
        value: token,
        domain,
        path: COOKIE_PATH@,
        same_site_strict: true,
        secure: env != Env::Dev,
        http_only: true,
        max_age_seconds: COOKIE_MAX_AGE_SECONDS,
    }
}

/// The hash that the submitted password is checked against: the account's
/// own, and the dummy hash where there is no account.
pub open spec fn comparison_hash_spec(user: Option<User>, dummy_hash: Seq<char>) -> Seq<char> {
    match user {
        Some(u) => u.password@,
        None => dummy_hash,
    }
}

/// Whether credentials are accepted: the account exists, the password
/// matched, and the account has the required role.
pub open spec fn accepted_spec(user: Option<User>, matched: bool, required: UserRole) -> bool {
    user matches Some(u) && matched && u.role == required
}

/// How a login attempt ends at the second `now`, given whether the
/// submitted password matched the comparison hash. Every rejection is the
/// same outcome, whatever its reason.
pub open spec fn login_spec(
    user: Option<User>,
    matched: bool,
    required: UserRole,
    secret: Seq<u8>,
    domain: Seq<char>,
    env: Env,
    now: u64,
) -> LoginView {
    match user {
        Some(u) => if matched && u.role == required {
            match issue_spec(u.id, u.role, SESSION_TTL_SECONDS, Some(secret), now) {
                Ok(token) => LoginView::Granted(session_cookie_spec(token, domain, env)),
                Err(e) => LoginView::Failed(e),
            }
        } else {
            LoginView::Rejected
        },
        None => LoginView::Rejected,
    }
}

/// Computes the dummy hash: a hash of the dummy password under a fresh
/// salt. The fallback hash stands by for a failure of the hash function,
/// which the dummy password, short as it is, never meets.
pub fn dummy_hash() -> (r: String)
    ensures
        password_matches(DUMMY_PASSWORD@, r@),
{
    proof {
        reveal_strlit("dummy_password_for_timing_safety");
        assert(is_ascii_chars(DUMMY_PASSWORD@));
        is_ascii_chars_encode_utf8(DUMMY_PASSWORD@);
    }
    match hash_password(DUMMY_PASSWORD) {
        Ok(hash) => hash,
        Err(_) => FALLBACK_DUMMY_HASH.to_owned(),
    }
}

/// The hash that the submitted password is checked against.
pub fn comparison_hash<'a>(user: &'a Option<User>, dummy_hash: &'a str) -> (r: &'a str)
    ensures
        r@ == comparison_hash_spec(*user, dummy_hash@),
{
    match user {
        Some(u) => u.password.as_str(),
        None => dummy_hash,
    }
}

/// Whether credentials are accepted, given whether the password matched.
pub fn credentials_accepted(user: &Option<User>, matched: bool, required: UserRole) -> (r: bool)
    ensures
        r == accepted_spec(*user, matched, required),
{
    match user {
        Some(u) => matched && u.role == required,
        None => false,
    }
}

/// Wraps a token in the session cookie.
pub fn session_cookie(token: String, domain: &str, env: Env) -> (r: SessionCookie)
    ensures
        r@ == session_cookie_spec(token@, domain@, env),
{
    SessionCookie {
        name: COOKIE_NAME.to_owned(),
        value: token,
        domain: domain.to_owned(),
        path: COOKIE_PATH.to_owned(),
        same_site_strict: true,
        secure: env != Env::Dev,
        http_only: true,
        max_age_seconds: COOKIE_MAX_AGE_SECONDS,
    }
}

/// The login flow of a deployment: the signing secret, the deployment
/// domain and environment, the role that may log in, and the dummy hash,
/// which is computed once when the flow is made and read by every login.
#[derive(Clone, Debug)]
pub struct LoginFlow {
    pub secret: String,
    pub domain: String,
    pub env: Env,
    pub required_role: UserRole,
    pub dummy_hash: String,
}

impl LoginFlow {
    /// Makes the login flow of a deployment whose logins are for
    /// administrators. Without a signing secret there is no flow:
    /// the result is `SecretNotSet`.
    pub fn new(secret: Option<String>, domain: String, env: Env) -> (r: Result<LoginFlow, JwtError>)
        ensures
            secret is None ==> r == Err::<LoginFlow, JwtError>(JwtError::SecretNotSet),
            secret matches Some(s) ==> r matches Ok(flow) && flow.secret == s && flow.domain
                == domain && flow.env == env && flow.required_role == UserRole::Admin
                && password_matches(DUMMY_PASSWORD@, flow.dummy_hash@),
    {
        match secret {
            Some(secret) => Ok(
                LoginFlow {
                    secret,
                    domain,
                    env,
                    required_role: UserRole::Admin,
                    dummy_hash: dummy_hash(),
                },
            ),
            None => Err(JwtError::SecretNotSet),
        }
    }

    /// Whether the submitted password matches the comparison hash of the
    /// looked-up account.
    pub open spec fn matched_spec(self, user: Option<User>, password: Seq<char>) -> bool {
        password_matches(password, comparison_hash_spec(user, self.dummy_hash@))
    }

    /// How a login attempt ends at the second `now`.
    pub open spec fn outcome_spec(self, user: Option<User>, matched: bool, now: u64) -> LoginView {
        login_spec(
            user,
            matched,
            self.required_role,
            encode_utf8(self.secret@),
            self.domain@,
            self.env,
            now,
        )
    }

    /// Ends a login attempt at the second `now`, given whether the
    /// submitted password matched.
    pub fn conclude_at(&self, user: Option<User>, matched: bool, now: u64) -> (r: LoginOutcome)
        ensures
            r@ == self.outcome_spec(user, matched, now),
    {
        if !credentials_accepted(&user, matched, self.required_role) {
            return LoginOutcome::Rejected;
        }
        match user {
            Some(u) => match create_jwt_at(&u, Some(self.secret.as_str()), now) {
                Ok(token) => LoginOutcome::Granted(
                    session_cookie(token, self.domain.as_str(), self.env),
                ),
                Err(e) => LoginOutcome::Failed(e),
            },
            None => LoginOutcome::Rejected,
        }
    }

    /// Runs a login attempt at the second `now` for the account that the
    /// lookup by email gave, if any.
    pub fn login_at(&self, user: Option<User>, password: &str, now: u64) -> (r: LoginOutcome)
        ensures
            r@ == self.outcome_spec(user, self.matched_spec(user, password@), now),
    {
        let matched = verify_password(password, comparison_hash(&user, self.dummy_hash.as_str()));
        self.conclude_at(user, matched, now)
    }

    /// Runs a login attempt at the current time.
    ///
    /// Credentials that are not accepted are rejected whatever the clock
    /// says. Accepted ones end as `login_at` ends at some second, or in
    /// `ExpirationError` where the clock cannot be read.
    pub fn login(&self, user: Option<User>, password: &str) -> (r: LoginOutcome)
        ensures
            !accepted_spec(user, self.matched_spec(user, password@), self.required_role) ==> r@
                == LoginView::Rejected,
            accepted_spec(user, self.matched_spec(user, password@), self.required_role) ==> r@
                == LoginView::Failed(JwtError::ExpirationError) || exists|now: u64|
                r@ == #[trigger] self.outcome_spec(user, self.matched_spec(user, password@), now),
    {
        let matched = verify_password(password, comparison_hash(&user, self.dummy_hash.as_str()));
        if !credentials_accepted(&user, matched, self.required_role) {
            return LoginOutcome::Rejected;
        }
        match user {
            Some(u) => {
                let ghost id = u.id;
                let ghost role = u.role;
                match create_jwt(u, Some(self.secret.as_str())) {
                    Ok(token) => {
                        let cookie = session_cookie(token, self.domain.as_str(), self.env);
                        proof {
                            let key = encode_utf8(self.secret@);
                            let now = choose|now: u64| #[trigger]
                                issued_as(
                                    Ok::<String, JwtError>(token),
                                    issue_spec(id, role, SESSION_TTL_SECONDS, Some(key), now),
                                );
                            assert(LoginView::Granted(cookie@) == self.outcome_spec(
                                user,
                                matched,
                                now,
                            ));
                        }
                        LoginOutcome::Granted(cookie)
                    },
                    Err(e) => {
                        proof {
                            if e != JwtError::ExpirationError {
                                let key = encode_utf8(self.secret@);
                                let now = choose|now: u64| #[trigger]
                                    issued_as(
                                        Err::<String, JwtError>(e),
                                        issue_spec(id, role, SESSION_TTL_SECONDS, Some(key), now),
                                    );
                                assert(LoginView::Failed(e) == self.outcome_spec(
                                    user,
                                    matched,
                                    now,
                                ));
                            }
                        }
                        LoginOutcome::Failed(e)
                    },
                }
            },
            None => LoginOutcome::Rejected,
        }
    }
}

/// An unknown email, a wrong password and a role that may not log in all
/// end in the same outcome, at any time and whatever else was submitted.
pub proof fn lemma_rejections_are_alike(
    known: User,
    other: User,
    matched: bool,
    required: UserRole,
    secret: Seq<u8>,
    domain: Seq<char>,
    env: Env,
    now: u64,
    later: u64,
)
    requires
        other.role != required,
    ensures
        login_spec(None, matched, required, secret, domain, env, now) == LoginView::Rejected,
        login_spec(Some(known), false, required, secret, domain, env, later) == LoginView::Rejected,
        login_spec(Some(other), matched, required, secret, domain, env, later)
            == LoginView::Rejected,
{
}

/// A login is granted only to an existing account with the required role
/// whose password matched; the cookie then carries a token for that
/// account and all the attributes of a session cookie.
pub proof fn lemma_granted_only_when_accepted(
    user: Option<User>,
    matched: bool,
    required: UserRole,
    secret: Seq<u8>,
    domain: Seq<char>,
    env: Env,
    now: u64,
)
    ensures
        login_spec(user, matched, required, secret, domain, env, now) matches LoginView::Granted(
            cookie,
        ) ==> accepted_spec(user, matched, required) && issue_spec(
            user->0.id,
            required,
            SESSION_TTL_SECONDS,
            Some(secret),
            now,
        ) == Ok::<Seq<char>, JwtError>(cookie.value) && cookie == session_cookie_spec(
            cookie.value,
            domain,
            env,
        ),
{
}

/// The client never keeps the session cookie for longer than its token
/// stays valid.
pub proof fn lemma_cookie_expires_before_token()
    ensures
        COOKIE_MAX_AGE_SECONDS <= SESSION_TTL_SECONDS,
{
}

} // verus!
