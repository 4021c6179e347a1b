//! The policy that turns an authentication failure into what the client
//! gets to see: a redirect to the login view, or an opaque server error.

use vstd::prelude::*;
use vstd::std_specs::convert::FromSpecImpl;
use crate::config::Env;
use crate::token::JwtError;

verus! {

/// Where a client without a valid session is sent.
pub const LOGIN_ROUTE: &'static str = "/login";

/// The status of a redirect to the login view.
pub const STATUS_FOUND: u16 = 302;

/// The status of a server error.
pub const STATUS_INTERNAL_SERVER_ERROR: u16 = 500;

/// What an authentication failure turns into at the boundary of a request.
#[derive(Clone, Copy, Debug, PartialEq, Eq)]
pub enum AuthError {
    /// The client is redirected to this location.
    Redirect(&'static str),
    /// The request fails with a server error caused by this failure.
    Other(JwtError),
}

/// The one outcome of each failure kind. A missing, expired, malformed or
/// forged token and a role that is not allowed send the client to the login
/// view; a missing secret, an unreadable clock and a failed encoding are
/// server errors.
pub open spec fn translate(err: JwtError) -> AuthError {
    match err {
        JwtError::TokenNotFound => AuthError::Redirect(LOGIN_ROUTE),
        JwtError::JwtExpired => AuthError::Redirect(LOGIN_ROUTE),
        JwtError::JwtDecodingError => AuthError::Redirect(LOGIN_ROUTE),
        JwtError::SignatureInvalid => AuthError::Redirect(LOGIN_ROUTE),
        JwtError::Unauthorized => AuthError::Redirect(LOGIN_ROUTE),
        JwtError::SecretNotSet => AuthError::Other(JwtError::SecretNotSet),
        JwtError::ExpirationError => AuthError::Other(JwtError::ExpirationError),
        JwtError::JwtEncodingError => AuthError::Other(JwtError::JwtEncodingError),
    }
}

impl From<JwtError> for AuthError {
    fn from(err: JwtError) -> (r: AuthError) {
        match err {
            JwtError::TokenNotFound
            | JwtError::JwtExpired
            | JwtError::JwtDecodingError
            | JwtError::SignatureInvalid
            | JwtError::Unauthorized => AuthError::Redirect(LOGIN_ROUTE),
            JwtError::SecretNotSet | JwtError::ExpirationError | JwtError::JwtEncodingError => {
                AuthError::Other(err)
            },
        }
    }
}

impl FromSpecImpl<JwtError> for AuthError {
    open spec fn obeys_from_spec() -> bool {
        true
    }

    open spec fn from_spec(err: JwtError) -> AuthError {
        translate(err)
    }
}

impl AuthError {
    /// The status that the response carries.
    pub open spec fn status_spec(self) -> u16 {
        match self {
            AuthError::Redirect(_) => STATUS_FOUND,
            AuthError::Other(_) => STATUS_INTERNAL_SERVER_ERROR,
        }
    }

    /// The status that the response carries.
    pub fn status(&self) -> (r: u16)
        ensures
            r == self.status_spec(),
    {
        match self {
            AuthError::Redirect(_) => STATUS_FOUND,
            AuthError::Other(_) => STATUS_INTERNAL_SERVER_ERROR,
        }
    }

    /// The detail of the outcome, for the server's own eyes.
    pub open spec fn detail_spec(self) -> Seq<char> {
        match self {
            AuthError::Redirect(_) => "Authentication required"@,
            AuthError::Other(err) => err.message(),
        }
    }

    /// The detail of the outcome, for the server's own eyes.
    pub fn detail(&self) -> (r: &'static str)
        ensures
            r@ == self.detail_spec(),
    {
        match self {
            AuthError::Redirect(_) => "Authentication required",
            AuthError::Other(err) => err.as_str(),
        }
    }
}

/// The message that an error page shows. In development it is the detail,
/// where there is one, and else the status's standard reason; in production
/// it is the standard reason, whatever the detail.
pub open spec fn display_error_spec(
    env: Env,
    detail: Option<Seq<char>>,
    reason: Option<Seq<char>>,
) -> Seq<char> {
    match env {
        Env::Dev => match detail {
            Some(d) => d,
            None => match reason {
                Some(text) => text,
                None => "Unknown Error"@,
            },
        },
        Env::Prod => match reason {
            Some(text) => text,
            None => "An unexpected error occurred"@,
        },
    }
}

/// The message that an error page shows, chosen by the deployment
/// environment.
pub fn display_error(env: Env, detail: Option<String>, reason: Option<&str>) -> (r: String)
    ensures
        r@ == display_error_spec(
            env,
            match detail {
                Some(d) => Some(d@),
                None => None,
            },
            match reason {
                Some(text) => Some(text@),
                None => None,
            },
        ),
{
    match env {
        Env::Dev => match detail {
            Some(d) => d,
            None => match reason {
                Some(text) => text.to_owned(),
                None => "Unknown Error".to_owned(),
            },
        },
        Env::Prod => match reason {
            Some(text) => text.to_owned(),
            None => "An unexpected error occurred".to_owned(),
        },
    }
}

/// The template of the error page for a status: one pair of pages for
/// refused access (401 and 403), another for every other status, each with
/// a page for visitors that hold a valid session and one for those that do
/// not.
pub open spec fn error_template_spec(status: u16, logged_in: bool) -> Seq<char> {
    if status == 401 || status == 403 {
        if logged_in {
            "noauth"@
        } else {
            "public_noauth"@
        }
    } else if logged_in {
        "error"@
    } else {
        "public_error"@
    }
}

/// The template of the error page for a status.
pub fn error_template(status: u16, logged_in: bool) -> (r: &'static str)
    ensures
        r@ == error_template_spec(status, logged_in),
{
    if status == 401 || status == 403 {
        if logged_in {
            "noauth"
        } else {
            "public_noauth"
        }
    } else if logged_in {
        "error"
    } else {
        "public_error"
    }
}

/// No production page shows the detail of a failure: whatever the detail,
/// the message is the same.
pub proof fn lemma_production_hides_detail(
    first: Option<Seq<char>>,
    second: Option<Seq<char>>,
    reason: Option<Seq<char>>,
)
    ensures
        display_error_spec(Env::Prod, first, reason) == display_error_spec(
            Env::Prod,
            second,
            reason,
        ),
{
}

/// Every failure kind has exactly one outcome: the five per-request
/// failures are redirects to the login view, the other three are server
/// errors that keep their cause.
pub proof fn lemma_translation_total(err: JwtError)
    ensures
        (err == JwtError::TokenNotFound || err == JwtError::JwtExpired || err
            == JwtError::JwtDecodingError || err == JwtError::SignatureInvalid || err
            == JwtError::Unauthorized) <==> translate(err) == AuthError::Redirect(LOGIN_ROUTE),
        (err == JwtError::SecretNotSet || err == JwtError::ExpirationError || err
            == JwtError::JwtEncodingError) <==> translate(err) == AuthError::Other(err),
        translate(err) is Redirect <==> !(translate(err) is Other),
{
}

} // verus!
