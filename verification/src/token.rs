//! Session tokens: compact signed artifacts that carry a subject, a role and
//! an expiry, issued and validated with a process-wide secret.

use vstd::prelude::*;
use vstd::string::StringSliceAdditionalSpecFns;
use vstd::utf8::encode_utf8;
use crate::structs::{User, UserRole};
use crate::text::str_eq;

verus! {

/// How long a freshly issued session token stays valid, in seconds.
pub const SESSION_TTL_SECONDS: u64 = 43200;

/// Why a token could not be issued or was not accepted.
#[derive(Clone, Copy, Debug, PartialEq, Eq, Structural)]
pub enum JwtError {
    /// The signing secret is not configured.
    SecretNotSet,
    /// The expiry could not be computed from the clock.
    ExpirationError,
    /// The token could not be encoded.
    JwtEncodingError,
    /// The token is malformed: it cannot be parsed into claims.
    JwtDecodingError,
    /// The token's signature does not match its content.
    SignatureInvalid,
    /// The token's expiry lies in the past.
    JwtExpired,
    /// The request carries no token.
    TokenNotFound,
    /// The token's role is not allowed on the route.
    Unauthorized,
}

impl JwtError {
    /// The message of the error.
    pub open spec fn message(self) -> Seq<char> {
        match self {
            JwtError::SecretNotSet => "JWT_SECRET not set"@,
            JwtError::ExpirationError => "Error calculating expiration time"@,
            JwtError::JwtEncodingError => "Error encoding the JWT"@,
            JwtError::JwtDecodingError => "Error decoding the JWT"@,
            JwtError::SignatureInvalid => "Invalid JWT signature"@,
            JwtError::JwtExpired => "JWT has expired"@,
            JwtError::TokenNotFound => "Token not found in request"@,
            JwtError::Unauthorized => "Unauthorized access"@,
        }
    }

    /// The message of the error.
    pub fn as_str(&self) -> (r: &'static str)
        ensures
            r@ == self.message(),
    {
        match self {
            JwtError::SecretNotSet => "JWT_SECRET not set",
            JwtError::ExpirationError => "Error calculating expiration time",
            JwtError::JwtEncodingError => "Error encoding the JWT",
            JwtError::JwtDecodingError => "Error decoding the JWT",
            JwtError::SignatureInvalid => "Invalid JWT signature",
            JwtError::JwtExpired => "JWT has expired",
            JwtError::TokenNotFound => "Token not found in request",
            JwtError::Unauthorized => "Unauthorized access",
        }
    }

    /// The message of the error, as an owned text.
    pub fn to_string(&self) -> (r: String)
        ensures
            r@ == self.message(),
    {
        self.as_str().to_owned()
    }
}

/// What a session token states: who the subject is, which role it has, and
/// the second, counted from the epoch, after which the token is expired.
#[derive(Clone, Copy, Debug, PartialEq, Eq, Structural)]
pub struct Claims {
    pub sub: i64,
    pub role: UserRole,
    pub exp: usize,
}

/// The claims of a token as they were read, before any of them is checked:
/// each is absent where the token does not hold it in the expected form.
#[derive(Debug)]
pub struct RawClaims {
    pub sub: Option<i64>,
    pub role: Option<String>,
    pub exp: Option<u64>,
}

/// The outcome of reading a token with a secret.
#[derive(Debug)]
pub enum Decoded {
    /// The signature is authentic and the content holds these claims.
    Claims(RawClaims),
    /// The token is well formed but its signature does not match.
    BadSignature,
    /// The token cannot be parsed.
    Malformed,
}

/// The mathematical content of a `Decoded`.
pub ghost enum TokenReading {
    Claims { sub: Option<i64>, role: Option<Seq<char>>, exp: Option<u64> },
    BadSignature,
    Malformed,
}

impl View for Decoded {
    type V = TokenReading;

    open spec fn view(&self) -> TokenReading {
        match self {
            Decoded::Claims(raw) => TokenReading::Claims {
                sub: raw.sub,
                role: match raw.role {
                    Some(name) => Some(name@),
                    None => None,
                },
                exp: raw.exp,
            },
            Decoded::BadSignature => TokenReading::BadSignature,
            Decoded::Malformed => TokenReading::Malformed,
        }
    }
}

/// The name under which a role is written into a token.
pub open spec fn claim_name(role: UserRole) -> Seq<char> {
    match role {
        UserRole::Admin => "Admin"@,
        UserRole::User => "User"@,
        UserRole::NoRole => "None"@,
    }
}

/// The role that a name read from a token stands for. Letter case counts.
pub open spec fn role_of_claim(name: Seq<char>) -> Option<UserRole> {
    if name == "Admin"@ {
        Some(UserRole::Admin)
    } else if name == "User"@ {
        Some(UserRole::User)
    } else if name == "None"@ {
        Some(UserRole::NoRole)
    } else {
        None
    }
}

/// Every role is read back from the name it is written under.
pub proof fn lemma_claim_name_roundtrip(role: UserRole)
    ensures
        role_of_claim(claim_name(role)) == Some(role),
{
    reveal_strlit("Admin");
    reveal_strlit("User");
    reveal_strlit("None");
    assert("Admin"@.len() == 5);
    assert("User"@.len() == 4);
    assert("None"@.len() == 4);
    assert("User"@[0] == 'U');
    assert("None"@[0] == 'N');
}

/// The name under which a role is written into a token.
pub fn role_claim_name(role: UserRole) -> (r: &'static str)
    ensures
        r@ == claim_name(role),
{
    match role {
        UserRole::Admin => "Admin",
        UserRole::User => "User",
        UserRole::NoRole => "None",
    }
}

/// The role that a name read from a token stands for, if any.
pub fn role_from_claim_name(name: &str) -> (r: Option<UserRole>)
    ensures
        r == role_of_claim(name@),
{
    if str_eq(name, "Admin") {
        Some(UserRole::Admin)
    } else if str_eq(name, "User") {
        Some(UserRole::User)
    } else if str_eq(name, "None") {
        Some(UserRole::NoRole)
    } else {
        None
    }
}

/// The reading of a token that holds all three claims.
pub open spec fn reading_of(sub: i64, role: Seq<char>, exp: u64) -> TokenReading {
    TokenReading::Claims { sub: Some(sub), role: Some(role), exp: Some(exp) }
}

/// The token that signing the three claims with a secret gives.
pub uninterp spec fn jwt_encoding(sub: i64, role: Seq<char>, exp: u64, secret: Seq<u8>) -> Seq<char>;

/// What reading a token with a secret gives.
pub uninterp spec fn jwt_decoding(token: Seq<char>, secret: Seq<u8>) -> TokenReading;

#[verifier::external_type_specification]
#[verifier::external_body]
pub struct ExJwtLibraryError(jsonwebtoken::errors::Error);

/// Calls `jsonwebtoken::encode` with the default header (HS256), a key made
/// from the secret, and a JSON object of the claims `sub`, `role` and
/// `exp`. Not proved: that it succeeds, as serialising numbers and text and
/// signing with an HMAC key have no failing case; that the token is a
/// function of claims and secret, named `jwt_encoding`; and that
/// `jsonwebtoken::decode` with the same secret, as `jwt_decode` calls it,
/// accepts the token and reads the same three claims from it.
#[verifier::external_body]
fn jwt_encode(sub: i64, role: &str, exp: u64, secret: &[u8]) -> (r: Result<String, jsonwebtoken::errors::Error>)
    ensures
        r is Ok,
        r matches Ok(t) ==> t@ == jwt_encoding(sub, role@, exp, secret@),
        r matches Ok(t) ==> jwt_decoding(t@, secret@) == reading_of(sub, role@, exp),
{
    let mut claims = serde_json::Map::new();
    claims.insert(String::from("sub"), serde_json::Value::from(sub));
    claims.insert(String::from("role"), serde_json::Value::from(role));
    claims.insert(String::from("exp"), serde_json::Value::from(exp));
    let key = jsonwebtoken::EncodingKey::from_secret(secret);
    jsonwebtoken::encode(&jsonwebtoken::Header::default(), &claims, &key)
}

/// Calls `jsonwebtoken::decode` with a key made from the secret and the
/// default validation (HS256, `exp` required) but for the expiry check,
/// which is switched off so that the outcome does not depend on the clock.
/// Of its errors only `InvalidSignature` is told apart; every other one
/// counts as a malformed token. From accepted content each of `sub`, `role`
/// and `exp` is handed out where it is there as a signed integer, a text
/// and an unsigned integer. Not proved: that the outcome is a function of
/// token and secret, named `jwt_decoding`.
#[verifier::external_body]
fn jwt_decode(token: &str, secret: &[u8]) -> (r: Decoded)
    ensures
        r@ == jwt_decoding(token@, secret@),
{
    let mut validation = jsonwebtoken::Validation::default();
    validation.validate_exp = false;
    let key = jsonwebtoken::DecodingKey::from_secret(secret);
    match jsonwebtoken::decode::<serde_json::Value>(token, &key, &validation) {
        Ok(data) => Decoded::Claims(RawClaims {
            sub: data.claims.get("sub").and_then(serde_json::Value::as_i64),
            role: data.claims.get("role").and_then(serde_json::Value::as_str).map(String::from),
            exp: data.claims.get("exp").and_then(serde_json::Value::as_u64),
        }),
        Err(e) => match e.kind() {
            jsonwebtoken::errors::ErrorKind::InvalidSignature => Decoded::BadSignature,
            _ => Decoded::Malformed,
        },
    }
}

/// Reads the system clock (`SystemTime::now`) as whole seconds since the
/// epoch; nothing where the clock stands before the epoch. Nothing is
/// stated of the value.
#[verifier::external_body]
fn epoch_seconds() -> (r: Option<u64>) {
    match std::time::SystemTime::now().duration_since(std::time::UNIX_EPOCH) {
        Ok(elapsed) => Some(elapsed.as_secs()),
        Err(_) => None,
    }
}

/// The bytes of a secret, where one is configured.
pub open spec fn secret_bytes(secret: Option<&str>) -> Option<Seq<u8>> {
    match secret {
        Some(s) => Some(s.spec_bytes()),
        None => None,
    }
}

/// The characters of a token, where the request carries one.
pub open spec fn token_chars(token: Option<&str>) -> Option<Seq<char>> {
    match token {
        Some(t) => Some(t@),
        None => None,
    }
}

/// What issuing a token gives: without a secret, `SecretNotSet`; where the
/// expiry `now + ttl` is out of range, `ExpirationError`; else the token
/// that signs subject, role and expiry with the secret.
pub open spec fn issue_spec(
    subject: i64,
    role: UserRole,
    ttl: u64,
    secret: Option<Seq<u8>>,
    now: u64,
) -> Result<Seq<char>, JwtError> {
    match secret {
        None => Err(JwtError::SecretNotSet),
        Some(key) => if now + ttl > usize::MAX {
            Err(JwtError::ExpirationError)
        } else {
            Ok(jwt_encoding(subject, claim_name(role), (now + ttl) as u64, key))
        },
    }
}

/// The claims that a reading of a token amounts to at the second `now`.
///
/// A token that cannot be parsed, or whose content lacks a claim, names no
/// role or holds an expiry out of range, is malformed. A signature that
/// does not match is reported before anything is read from the content.
/// Only an authentic, well-formed token is held against the clock: it is
/// expired when its expiry is less than `now`, and accepted at `now` itself.
pub open spec fn claims_of(reading: TokenReading, now: u64) -> Result<Claims, JwtError> {
    match reading {
        TokenReading::Malformed => Err(JwtError::JwtDecodingError),
        TokenReading::BadSignature => Err(JwtError::SignatureInvalid),
        TokenReading::Claims { sub: Some(sub), role: Some(name), exp: Some(exp) } => {
            match role_of_claim(name) {
                Some(role) => if exp > usize::MAX {
                    Err(JwtError::JwtDecodingError)
                } else if exp < now {
                    Err(JwtError::JwtExpired)
                } else {
                    Ok(Claims { sub, role, exp: exp as usize })
                },
                None => Err(JwtError::JwtDecodingError),
            }
        },
        TokenReading::Claims { .. } => Err(JwtError::JwtDecodingError),
    }
}

/// What validating a token with a secret gives at the second `now`.
pub open spec fn validate_spec(token: Seq<char>, secret: Seq<u8>, now: u64) -> Result<
    Claims,
    JwtError,
> {
    claims_of(jwt_decoding(token, secret), now)
}

/// What reading the token of a request gives at the second `now`: without a
/// token, `TokenNotFound`; without a secret, `SecretNotSet`; else what
/// validation gives.
pub open spec fn read_jwt_spec(
    token: Option<Seq<char>>,
    secret: Option<Seq<u8>>,
    now: u64,
) -> Result<Claims, JwtError> {
    match token {
        None => Err(JwtError::TokenNotFound),
        Some(t) => match secret {
            None => Err(JwtError::SecretNotSet),
            Some(key) => validate_spec(t, key, now),
        },
    }
}

/// An authentic token that holds its three claims is accepted up to and at
/// the second of its expiry, and expired from the next second on.
pub proof fn lemma_expiry_boundary(sub: i64, role: UserRole, exp: u64, now: u64)
    requires
        exp <= usize::MAX,
    ensures
        now <= exp ==> claims_of(reading_of(sub, claim_name(role), exp), now) == Ok::<
            Claims,
            JwtError,
        >(Claims { sub, role, exp: exp as usize }),
        exp < now ==> claims_of(reading_of(sub, claim_name(role), exp), now) == Err::<
            Claims,
            JwtError,
        >(JwtError::JwtExpired),
{
    lemma_claim_name_roundtrip(role);
}

/// A token that cannot be parsed and one whose signature does not match are
/// refused as such at every time: the clock is never asked about them.
pub proof fn lemma_signature_precedes_expiry(now: u64, later: u64)
    ensures
        claims_of(TokenReading::Malformed, now) == claims_of(TokenReading::Malformed, later),
        claims_of(TokenReading::BadSignature, now) == claims_of(TokenReading::BadSignature, later),
        claims_of(TokenReading::BadSignature, now) == Err::<Claims, JwtError>(
            JwtError::SignatureInvalid,
        ),
        claims_of(TokenReading::Malformed, now) == Err::<Claims, JwtError>(
            JwtError::JwtDecodingError,
        ),
{
}

/// Whether an issued token, or the error in its place, is the one that the
/// model gives.
pub open spec fn issued_as(r: Result<String, JwtError>, model: Result<Seq<char>, JwtError>) -> bool {
    match model {
        Ok(token) => r matches Ok(t) && t@ == token,
        Err(e) => r == Err::<String, JwtError>(e),
    }
}

/// Issues a token for a subject with a role, valid for `ttl_seconds` from
/// the second `now`.
///
/// A token that is issued validates with the same secret: up to and at its
/// expiry to the claims it was issued for, and after its expiry to
/// `JwtExpired`.
pub fn issue(
    subject: i64,
    role: UserRole,
    ttl_seconds: u64,
    secret: Option<&str>,
    now: u64,
) -> (r: Result<String, JwtError>)
    requires
        ttl_seconds > 0,
    ensures
        issued_as(r, issue_spec(subject, role, ttl_seconds, secret_bytes(secret), now)),
        r matches Ok(t) ==> forall|at: u64| #[trigger]
            validate_spec(t@, secret_bytes(secret)->0, at) == if at <= now + ttl_seconds {
                Ok::<Claims, JwtError>(
                    Claims { sub: subject, role, exp: (now + ttl_seconds) as usize },
                )
            } else {
                Err::<Claims, JwtError>(JwtError::JwtExpired)
            },
        r matches Ok(t) ==> now < now + ttl_seconds <= usize::MAX,
{
    let key = match secret {
        Some(s) => s,
        None => return Err(JwtError::SecretNotSet),
    };
    let exp = match now.checked_add(ttl_seconds) {
        Some(e) => e,
        None => return Err(JwtError::ExpirationError),
    };
    if exp > usize::MAX as u64 {
        return Err(JwtError::ExpirationError);
    }
    proof {
        lemma_claim_name_roundtrip(role);
    }
    match jwt_encode(subject, role_claim_name(role), exp, key.as_bytes()) {
        Ok(token) => Ok(token),
        Err(_) => Err(JwtError::JwtEncodingError),
    }
}

/// Issues the session token of an account at the second `now`: its subject
/// is the account's id, its role the account's role, and it stays valid for
/// `SESSION_TTL_SECONDS`.
pub fn create_jwt_at(user: &User, secret: Option<&str>, now: u64) -> (r: Result<String, JwtError>)
    ensures
        issued_as(
            r,
            issue_spec(user.id, user.role, SESSION_TTL_SECONDS, secret_bytes(secret), now),
        ),
        r matches Ok(t) ==> forall|at: u64| #[trigger]
            validate_spec(t@, secret_bytes(secret)->0, at) == if at <= now + SESSION_TTL_SECONDS {
                Ok::<Claims, JwtError>(
                    Claims {
                        sub: user.id,
                        role: user.role,
                        exp: (now + SESSION_TTL_SECONDS) as usize,
                    },
                )
            } else {
                Err::<Claims, JwtError>(JwtError::JwtExpired)
            },
{
    issue(user.id, user.role, SESSION_TTL_SECONDS, secret, now)
}

/// Issues the session token of an account at the current time.
///
/// Without a secret the result is `SecretNotSet`. With one it is what
/// `create_jwt_at` gives at some second, or `ExpirationError` where the
/// clock cannot be read.
pub fn create_jwt(user: User, secret: Option<&str>) -> (r: Result<String, JwtError>)
    ensures
        secret is None ==> r == Err::<String, JwtError>(JwtError::SecretNotSet),
        secret is Some ==> r == Err::<String, JwtError>(JwtError::ExpirationError) || exists|
            now: u64,
        | #[trigger]
            issued_as(
                r,
                issue_spec(user.id, user.role, SESSION_TTL_SECONDS, secret_bytes(secret), now),
            ),
{
    if secret.is_none() {
        return Err(JwtError::SecretNotSet);
    }
    match epoch_seconds() {
        Some(now) => create_jwt_at(&user, secret, now),
        None => Err(JwtError::ExpirationError),
    }
}

/// Turns the outcome of reading a token into claims, at the second `now`.
pub fn check_decoded(decoded: Decoded, now: u64) -> (r: Result<Claims, JwtError>)
    ensures
        r == claims_of(decoded@, now),
{
    match decoded {
        Decoded::Malformed => Err(JwtError::JwtDecodingError),
        Decoded::BadSignature => Err(JwtError::SignatureInvalid),
        Decoded::Claims(raw) => {
            let sub = match raw.sub {
                Some(sub) => sub,
                None => return Err(JwtError::JwtDecodingError),
            };
            let name = match raw.role {
                Some(name) => name,
                None => return Err(JwtError::JwtDecodingError),
            };
            let exp = match raw.exp {
                Some(exp) => exp,
                None => return Err(JwtError::JwtDecodingError),
            };
            let role = match role_from_claim_name(name.as_str()) {
                Some(role) => role,
                None => return Err(JwtError::JwtDecodingError),
            };
            if exp > usize::MAX as u64 {
                Err(JwtError::JwtDecodingError)
            } else if exp < now {
                Err(JwtError::JwtExpired)
            } else {
                Ok(Claims { sub, role, exp: exp as usize })
            }
        },
    }
}

/// Validates a token with a secret at the second `now`. Reading the token
/// settles whether it is malformed or forged; only an authentic,
/// well-formed token is held against the clock.
pub fn validate(token: &str, secret: &str, now: u64) -> (r: Result<Claims, JwtError>)
    ensures
        r == validate_spec(token@, secret.spec_bytes(), now),
{
    check_decoded(jwt_decode(token, secret.as_bytes()), now)
}

/// Reads the claims of a request's token at the second `now`.
pub fn read_jwt_at(token: Option<&str>, secret: Option<&str>, now: u64) -> (r: Result<
    Claims,
    JwtError,
>)
    ensures
        r == read_jwt_spec(token_chars(token), secret_bytes(secret), now),
{
    let token = match token {
        Some(t) => t,
        None => return Err(JwtError::TokenNotFound),
    };
    let secret = match secret {
        Some(s) => s,
        None => return Err(JwtError::SecretNotSet),
    };
    validate(token, secret, now)
}

/// Reads the claims of a request's token at the current time.
///
/// The result is what `read_jwt_at` gives at some second. Where the clock
/// cannot be read, a failure that does not depend on the time is reported
/// as it is, and a token that is otherwise in order is refused with
/// `JwtDecodingError`.
pub fn read_jwt(token: Option<&str>, secret: Option<&str>) -> (r: Result<Claims, JwtError>)
    ensures
        ({
            let timeless = read_jwt_spec(token_chars(token), secret_bytes(secret), 0);
            ||| exists|now: u64| r == #[trigger] read_jwt_spec(
                token_chars(token),
                secret_bytes(secret),
                now,
            )
            ||| timeless is Ok && r == Err::<Claims, JwtError>(JwtError::JwtDecodingError)
        }),
{
    match epoch_seconds() {
        Some(now) => read_jwt_at(token, secret, now),
        None => match read_jwt_at(token, secret, 0) {
            Ok(_) => Err(JwtError::JwtDecodingError),
            Err(e) => Err(e),
        },
    }
}

} // verus!
