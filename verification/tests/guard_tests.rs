use my_rust_framework::error::{AuthError, LOGIN_ROUTE};
use my_rust_framework::guard::{authorize, guard_at, role_allowed, screen, AuthUser};
use my_rust_framework::structs::UserRole;
use my_rust_framework::token::{issue, Claims, JwtError};

const SECRET: &str = "guard secret";
const NOW: u64 = 1_700_000_000;

fn claims(role: UserRole) -> Claims {
    Claims { sub: 11, role, exp: 1_700_000_100 }
}

#[test]
fn role_allowed_looks_through_the_whole_set() {
    assert!(role_allowed(UserRole::Admin, &[UserRole::Admin]));
    assert!(!role_allowed(UserRole::User, &[UserRole::Admin]));
    assert!(role_allowed(UserRole::User, &[UserRole::Admin, UserRole::User]));
    assert!(role_allowed(UserRole::NoRole, &[UserRole::Admin, UserRole::User, UserRole::NoRole]));
    assert!(!role_allowed(UserRole::NoRole, &[UserRole::Admin, UserRole::User]));
    assert!(!role_allowed(UserRole::Admin, &[]));
}

#[test]
fn authorize_makes_a_principal_of_allowed_claims() {
    assert_eq!(
        authorize(claims(UserRole::Admin), &[UserRole::Admin]),
        Ok(AuthUser { claims: claims(UserRole::Admin) })
    );
    assert_eq!(
        authorize(claims(UserRole::User), &[UserRole::Admin]),
        Err(JwtError::Unauthorized)
    );
    assert_eq!(authorize(claims(UserRole::Admin), &[]), Err(JwtError::Unauthorized));
}

#[test]
fn screen_hands_a_failure_on_as_it_is() {
    for e in [
        JwtError::TokenNotFound,
        JwtError::JwtDecodingError,
        JwtError::SignatureInvalid,
        JwtError::JwtExpired,
        JwtError::SecretNotSet,
    ] {
        assert_eq!(screen(Err(e), &[UserRole::Admin]), Err(e));
    }
    assert_eq!(
        screen(Ok(claims(UserRole::User)), &[UserRole::User]),
        Ok(AuthUser { claims: claims(UserRole::User) })
    );
}

#[test]
fn user_token_on_an_admin_route_is_unauthorized_and_redirected() {
    let token = issue(11, UserRole::User, 100, Some(SECRET), NOW).unwrap();
    assert_eq!(
        guard_at(Some(&token), Some(SECRET), &[UserRole::Admin], NOW),
        Err(JwtError::Unauthorized)
    );
    assert_eq!(
        AuthUser::from_request_at(Some(&token), Some(SECRET), NOW),
        Err(AuthError::Redirect("/login"))
    );
    assert_eq!(
        AuthUser::from_request(Some(&token), Some(SECRET)),
        Err(AuthError::Redirect(LOGIN_ROUTE))
    );
}

#[test]
fn admin_token_on_an_admin_route_gives_the_principal() {
    let token = issue(11, UserRole::Admin, 100, Some(SECRET), NOW).unwrap();
    let user = AuthUser::from_request_at(Some(&token), Some(SECRET), NOW).unwrap();
    assert_eq!(user.claims, claims(UserRole::Admin));
    assert!(user.is_admin());
}

#[test]
fn a_route_may_allow_several_roles() {
    let token = issue(11, UserRole::User, 100, Some(SECRET), NOW).unwrap();
    let user =
        guard_at(Some(&token), Some(SECRET), &[UserRole::Admin, UserRole::User], NOW).unwrap();
    assert_eq!(user.claims.role, UserRole::User);
    assert!(!user.is_admin());
}

#[test]
fn the_guard_reports_each_step() {
    let allowed = [UserRole::Admin];
    assert_eq!(guard_at(None, Some(SECRET), &allowed, NOW), Err(JwtError::TokenNotFound));
    assert_eq!(guard_at(Some("x.y.z"), None, &allowed, NOW), Err(JwtError::SecretNotSet));
    assert_eq!(
        guard_at(Some("x.y.z"), Some(SECRET), &allowed, NOW),
        Err(JwtError::JwtDecodingError)
    );
    let token = issue(11, UserRole::Admin, 100, Some(SECRET), NOW).unwrap();
    assert_eq!(
        guard_at(Some(&token), Some("other"), &allowed, NOW),
        Err(JwtError::SignatureInvalid)
    );
    assert_eq!(
        guard_at(Some(&token), Some(SECRET), &allowed, NOW + 101),
        Err(JwtError::JwtExpired)
    );
    assert!(guard_at(Some(&token), Some(SECRET), &allowed, NOW + 100).is_ok());
}

#[test]
fn an_expired_user_token_is_expired_not_unauthorized() {
    let token = issue(11, UserRole::User, 100, Some(SECRET), NOW).unwrap();
    assert_eq!(
        guard_at(Some(&token), Some(SECRET), &[UserRole::Admin], NOW + 101),
        Err(JwtError::JwtExpired)
    );
}

#[test]
fn from_request_translates_failures() {
    assert_eq!(AuthUser::from_request(None, Some(SECRET)), Err(AuthError::Redirect("/login")));
    assert_eq!(
        AuthUser::from_request(Some("x.y.z"), Some(SECRET)),
        Err(AuthError::Redirect("/login"))
    );
    assert_eq!(
        AuthUser::from_request(Some("x.y.z"), None),
        Err(AuthError::Other(JwtError::SecretNotSet))
    );
    assert_eq!(
        AuthUser::from_claims(Err(JwtError::JwtExpired)),
        Err(AuthError::Redirect("/login"))
    );
    assert_eq!(
        AuthUser::from_claims(Ok(claims(UserRole::NoRole))),
        Err(AuthError::Redirect("/login"))
    );
    assert_eq!(
        AuthUser::from_claims(Ok(claims(UserRole::Admin))),
        Ok(AuthUser { claims: claims(UserRole::Admin) })
    );
}
