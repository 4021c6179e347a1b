//! Registration: the checks on a submitted form, and the account that a
//! valid form amounts to, with the password already hashed.

use vstd::prelude::*;
use vstd::string::StringSliceAdditionalSpecFns;
use vstd::utf8::encode_utf8;
use crate::password::{hash_password, password_matches, MAX_INPUT_LENGTH};
use crate::structs::UserRole;
use crate::text::{contains_char, lowercase_of, str_eq, to_lowercase, trim, trimmed_of};

verus! {

/// The least number of bytes in a password.
pub const MIN_PASSWORD_LENGTH: usize = 8;

/// Where the client is sent after a registration.
pub const AFTER_REGISTRATION_ROUTE: &'static str = "/login";

/// The form that a registration submits.
#[derive(Clone, Debug)]
pub struct FormData {
    pub email: String,
    pub password: String,
    pub repeat_password: String,
}

/// Why a registration is refused.
#[derive(Clone, Copy, Debug, PartialEq, Eq, Structural)]
pub enum RegisterError {
    /// The password has fewer than `MIN_PASSWORD_LENGTH` bytes.
    PasswordTooShort,
    /// The password and its repetition differ.
    PasswordMismatch,
    /// The email address holds no `@`.
    InvalidEmail,
    /// An account with that email address exists already.
    EmailTaken,
    /// The password could not be hashed.
    HashingFailed,
}

impl RegisterError {
    /// The message that the registration view shows for the error.
    pub open spec fn message(self) -> Seq<char> {
        match self {
            RegisterError::PasswordTooShort => "Passwort muss mindestens 8 Zeichen lang sein"@,
            RegisterError::PasswordMismatch => "Passwörter stimmen nicht überein"@,
            RegisterError::InvalidEmail => "Ungültige E-Mail-Adresse"@,
            RegisterError::EmailTaken => "E-Mail wird bereits verwendet"@,
            RegisterError::HashingFailed => "Password is too long"@,
        }
    }

    /// The message that the registration view shows for the error.
    pub fn as_str(&self) -> (r: &'static str)
        ensures
            r@ == self.message(),
    {
        match self {
            RegisterError::PasswordTooShort => "Passwort muss mindestens 8 Zeichen lang sein",
            RegisterError::PasswordMismatch => "Passwörter stimmen nicht überein",
            RegisterError::InvalidEmail => "Ungültige E-Mail-Adresse",
            RegisterError::EmailTaken => "E-Mail wird bereits verwendet",
            RegisterError::HashingFailed => "Password is too long",
        }
    }
}

/// The account that a valid registration asks for.
#[derive(Clone, Debug)]
pub struct NewUser {
    pub email: String,
    /// The encoded hash of the submitted password.
    pub password: String,
    pub role: UserRole,
}

/// The form of an email address under which an account is stored: without
/// surrounding whitespace, in lowercase.
pub open spec fn normalized_email(email: Seq<char>) -> Seq<char> {
    lowercase_of(trimmed_of(email))
}

/// The first check that a form fails, given its email address in stored
/// form: the length of the password, then its repetition, then the `@` of
/// the address.
pub open spec fn first_failure(
    password: Seq<char>,
    repeat_password: Seq<char>,
    email: Seq<char>,
) -> Option<RegisterError> {
    if encode_utf8(password).len() < MIN_PASSWORD_LENGTH {
        Some(RegisterError::PasswordTooShort)
    } else if password != repeat_password {
        Some(RegisterError::PasswordMismatch)
    } else if !email.contains('@') {
        Some(RegisterError::InvalidEmail)
    } else {
        None
    }
}

/// The outcome of a registration once it is known whether the email
/// address is taken: a valid form is refused only then.
pub open spec fn after_lookup_spec(taken: bool) -> Option<RegisterError> {
    if taken {
        Some(RegisterError::EmailTaken)
    } else {
        None
    }
}

/// Brings an email address into the form under which accounts are stored.
pub fn normalize_email(email: &str) -> (r: String)
    ensures
        r@ == normalized_email(email@),
{
    to_lowercase(trim(email))
}

/// Checks a password, its repetition and an email address in stored form.
pub fn check_form(password: &str, repeat_password: &str, email: &str) -> (r: Result<
    (),
    RegisterError,
>)
    ensures
        match first_failure(password@, repeat_password@, email@) {
            Some(e) => r == Err::<(), RegisterError>(e),
            None => r == Ok::<(), RegisterError>(()),
        },
{
    if password.as_bytes().len() < MIN_PASSWORD_LENGTH {
        Err(RegisterError::PasswordTooShort)
    } else if !str_eq(password, repeat_password) {
        Err(RegisterError::PasswordMismatch)
    } else if !contains_char(email, '@') {
        Err(RegisterError::InvalidEmail)
    } else {
        Ok(())
    }
}

/// Turns a submitted form into the account to store.
///
/// A form that fails a check is refused with that check's error, and
/// nothing is hashed. A valid form gives an account under the normalized
/// email address, with the role `User` and a hash that the submitted
/// password matches; hashing fails only on a password of more than
/// `MAX_INPUT_LENGTH` bytes.
pub fn register(form: &FormData) -> (r: Result<NewUser, RegisterError>)
    ensures
        match first_failure(form.password@, form.repeat_password@, normalized_email(form.email@)) {
            Some(e) => r == Err::<NewUser, RegisterError>(e),
            None => if encode_utf8(form.password@).len() > MAX_INPUT_LENGTH {
                r == Err::<NewUser, RegisterError>(RegisterError::HashingFailed)
            } else {
                r matches Ok(user) && user.email@ == normalized_email(form.email@) && user.role
                    == UserRole::User && password_matches(form.password@, user.password@)
            },
        },
{
    let email = normalize_email(form.email.as_str());
    match check_form(form.password.as_str(), form.repeat_password.as_str(), email.as_str()) {
        Err(e) => Err(e),
        Ok(()) => match hash_password(form.password.as_str()) {
            Ok(password) => Ok(NewUser { email, password, role: UserRole::User }),
            Err(_) => Err(RegisterError::HashingFailed),
        },
    }
}

/// Ends a registration once the storage has said whether the email address
/// is taken.
pub fn after_lookup(taken: bool) -> (r: Result<(), RegisterError>)
    ensures
        match after_lookup_spec(taken) {
            Some(e) => r == Err::<(), RegisterError>(e),
            None => r == Ok::<(), RegisterError>(()),
        },
{
    if taken {
        Err(RegisterError::EmailTaken)
    } else {
        Ok(())
    }
}

} // verus!
