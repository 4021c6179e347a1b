//! The guard of protected routes: it takes the token of a request,
//! validates it, and lets the request through only with a role that the
//! route allows. Each evaluation stands alone; nothing is kept between
//! requests.

use vstd::prelude::*;
use crate::error::{translate, AuthError, LOGIN_ROUTE};
use crate::structs::UserRole;
use crate::token::{
    read_jwt, read_jwt_at, read_jwt_spec, secret_bytes, token_chars, Claims, JwtError,
};

verus! {

/// The principal of an authorized request, handed to the route's handler.
#[derive(Clone, Copy, Debug, PartialEq, Eq, Structural)]
pub struct AuthUser {
    pub claims: Claims,
}

/// The roles that may enter an administrator-only route.
pub open spec fn admin_only() -> Seq<UserRole> {
    seq![UserRole::Admin]
}

/// The last step of the guard: claims whose role the route allows make a
/// principal, any other role is `Unauthorized`.
pub open spec fn authorize_spec(claims: Claims, allowed: Seq<UserRole>) -> Result<
    AuthUser,
    JwtError,
> {
    if allowed.contains(claims.role) {
        Ok(AuthUser { claims })
    } else {
        Err(JwtError::Unauthorized)
    }
}

/// The guard on what was read from the request: a failure to read the
/// token is handed on as it is, and claims are held against the roles that
/// the route allows.
pub open spec fn screen_spec(read: Result<Claims, JwtError>, allowed: Seq<UserRole>) -> Result<
    AuthUser,
    JwtError,
> {
    match read {
        Ok(claims) => authorize_spec(claims, allowed),
        Err(e) => Err(e),
    }
}

/// The guard, from the request's token to the principal, at the second
/// `now`.
pub open spec fn guard_spec(
    token: Option<Seq<char>>,
    secret: Option<Seq<u8>>,
    allowed: Seq<UserRole>,
    now: u64,
) -> Result<AuthUser, JwtError> {
    screen_spec(read_jwt_spec(token, secret, now), allowed)
}

/// What the client of a guarded request gets: the principal, or the
/// outcome that the failure translates to.
pub open spec fn respond_spec(screened: Result<AuthUser, JwtError>) -> Result<
    AuthUser,
    AuthError,
> {
    match screened {
        Ok(user) => Ok(user),
        Err(e) => Err(translate(e)),
    }
}

/// Whether a role is among those that a route allows.
pub fn role_allowed(role: UserRole, allowed: &[UserRole]) -> (r: bool)
    ensures
        r == allowed@.contains(role),
{
    let mut i: usize = 0;
    while i < allowed.len()
        invariant
            i <= allowed.len(),
            forall|j: int| 0 <= j < i ==> allowed@[j] != role,
        decreases allowed.len() - i,
    {
        if allowed[i] == role {
            return true;
        }
        i += 1;
    }
    false
}

/// Holds claims against the roles that a route allows.
pub fn authorize(claims: Claims, allowed: &[UserRole]) -> (r: Result<AuthUser, JwtError>)
    ensures
        r == authorize_spec(claims, allowed@),
{
    if role_allowed(claims.role, allowed) {
        Ok(AuthUser { claims })
    } else {
        Err(JwtError::Unauthorized)
    }
}

/// The guard on what was read from the request.
pub fn screen(read: Result<Claims, JwtError>, allowed: &[UserRole]) -> (r: Result<
    AuthUser,
    JwtError,
>)
    ensures
        r == screen_spec(read, allowed@),
{
    match read {
        Ok(claims) => authorize(claims, allowed),
        Err(e) => Err(e),
    }
}

/// Guards a route at the second `now`: extracts the token, validates it,
/// and authorizes its role.
pub fn guard_at(token: Option<&str>, secret: Option<&str>, allowed: &[UserRole], now: u64) -> (r:
    Result<AuthUser, JwtError>)
    ensures
        r == guard_spec(token_chars(token), secret_bytes(secret), allowed@, now),
{
    screen(read_jwt_at(token, secret, now), allowed)
}

impl AuthUser {
    /// Whether the principal is an administrator.
    pub fn is_admin(&self) -> (r: bool)
        ensures
            r == (self.claims.role == UserRole::Admin),
    {
        self.claims.role.is_admin()
    }

    /// The principal of a request to an administrator-only route, from what
    /// was read from the request; a failure is translated for the client.
    pub fn from_claims(read: Result<Claims, JwtError>) -> (r: Result<AuthUser, AuthError>)
        ensures
            r == respond_spec(screen_spec(read, admin_only())),
    {
        let allowed = [UserRole::Admin];
        assert(allowed@ =~= admin_only());
        match screen(read, allowed.as_slice()) {
            Ok(user) => Ok(user),
            Err(e) => Err(AuthError::from(e)),
        }
    }

    /// The principal of a request to an administrator-only route at the
    /// second `now`.
    pub fn from_request_at(token: Option<&str>, secret: Option<&str>, now: u64) -> (r: Result<
        AuthUser,
        AuthError,
    >)
        ensures
            r == respond_spec(
                guard_spec(token_chars(token), secret_bytes(secret), admin_only(), now),
            ),
    {
        AuthUser::from_claims(read_jwt_at(token, secret, now))
    }

    /// The principal of a request to an administrator-only route at the
    /// current time.
    ///
    /// Whatever the clock says, a request without a token, or with one that
    /// cannot be read at any time, gets the translated failure, and no role
    /// but `Admin` is let through.
    pub fn from_request(token: Option<&str>, secret: Option<&str>) -> (r: Result<
        AuthUser,
        AuthError,
    >)
        ensures
            ({
                let timeless = read_jwt_spec(token_chars(token), secret_bytes(secret), 0);
                ||| exists|now: u64| r == respond_spec(#[trigger]
                    guard_spec(token_chars(token), secret_bytes(secret), admin_only(), now))
                ||| timeless is Ok && r == Err::<AuthUser, AuthError>(
                    translate(JwtError::JwtDecodingError),
                )
            }),
            r matches Ok(user) ==> user.claims.role == UserRole::Admin,
    {
        let read = read_jwt(token, secret);
        proof {
            let t = token_chars(token);
            let s = secret_bytes(secret);
            if exists|now: u64| read == #[trigger] read_jwt_spec(t, s, now) {
                let now = choose|now: u64| read == #[trigger] read_jwt_spec(t, s, now);
                assert(guard_spec(t, s, admin_only(), now) == screen_spec(read, admin_only()));
            }
        }
        AuthUser::from_claims(read)
    }
}

/// A valid token whose role is not `Admin` is refused on an
/// administrator-only route with `Unauthorized`, and the client is sent to
/// the login view.
pub proof fn lemma_other_role_is_redirected(claims: Claims)
    requires
        claims.role != UserRole::Admin,
    ensures
        screen_spec(Ok(claims), admin_only()) == Err::<AuthUser, JwtError>(JwtError::Unauthorized),
        respond_spec(screen_spec(Ok(claims), admin_only())) == Err::<AuthUser, AuthError>(
            AuthError::Redirect(LOGIN_ROUTE),
        ),
{
}

/// The guard lets a request through exactly when its token validates and
/// carries an allowed role; the principal then holds the token's claims.
pub proof fn lemma_guard_passes(
    token: Option<Seq<char>>,
    secret: Option<Seq<u8>>,
    allowed: Seq<UserRole>,
    now: u64,
)
    ensures
        guard_spec(token, secret, allowed, now) is Ok <==> (read_jwt_spec(token, secret, now)
            matches Ok(claims) && allowed.contains(claims.role)),
        guard_spec(token, secret, allowed, now) matches Ok(user) ==> read_jwt_spec(
            token,
            secret,
            now,
        ) == Ok::<Claims, JwtError>(user.claims),
{
}

} // verus!
