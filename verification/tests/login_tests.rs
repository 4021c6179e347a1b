use my_rust_framework::config::Env;
use my_rust_framework::login::{
    comparison_hash, credentials_accepted, dummy_hash, session_cookie, FormData, LoginFlow,
    LoginOutcome, COOKIE_MAX_AGE_SECONDS, DUMMY_PASSWORD, FALLBACK_DUMMY_HASH, LANDING_ROUTE,
    LOGIN_FAILURE_MESSAGE,
};
use my_rust_framework::password::{hash_password, verify_password};
use my_rust_framework::structs::{User, UserRole};
use my_rust_framework::token::{validate, JwtError, SESSION_TTL_SECONDS};

const SECRET: &str = "login secret";
const NOW: u64 = 1_700_000_000;

fn flow(env: Env) -> LoginFlow {
    LoginFlow::new(Some(String::from(SECRET)), String::from("example.com"), env).unwrap()
}

fn account(role: UserRole, password: &str) -> User {
    User {
        id: 42,
        email: String::from("admin@example.com"),
        password: hash_password(password).unwrap(),
        role,
        created_at: 1_600_000_000,
    }
}

fn is_rejected(outcome: &LoginOutcome) -> bool {
    matches!(outcome, LoginOutcome::Rejected)
}

#[test]
fn no_flow_without_a_secret() {
    let r = LoginFlow::new(None, String::from("example.com"), Env::Prod);
    assert!(matches!(r, Err(JwtError::SecretNotSet)));
}

#[test]
fn a_new_flow_holds_its_settings_and_a_dummy_hash() {
    let flow = flow(Env::Dev);
    assert_eq!(flow.secret, SECRET);
    assert_eq!(flow.domain, "example.com");
    assert_eq!(flow.env, Env::Dev);
    assert_eq!(flow.required_role, UserRole::Admin);
    assert!(verify_password(DUMMY_PASSWORD, &flow.dummy_hash));
}

#[test]
fn the_dummy_hash_is_a_real_hash_of_the_dummy_password() {
    let hash = dummy_hash();
    assert!(hash.starts_with("$argon2id$"));
    assert!(verify_password("dummy_password_for_timing_safety", &hash));
    assert!(!verify_password("anything else", &hash));
}

#[test]
fn the_fallback_dummy_hash_can_be_read() {
    // reading it and recomputing end in a plain mismatch, not in an error path
    // that a caller could tell apart
    assert!(!verify_password("some password", FALLBACK_DUMMY_HASH));
}

#[test]
fn every_login_of_a_flow_reads_the_same_dummy_hash() {
    let flow = flow(Env::Prod);
    let first = comparison_hash(&None, &flow.dummy_hash).to_string();
    let second = comparison_hash(&None, &flow.dummy_hash).to_string();
    assert_eq!(first, second);
    assert_eq!(first, flow.dummy_hash);
}

#[test]
fn comparison_hash_is_the_account_hash_or_the_dummy() {
    let user = account(UserRole::Admin, "pw");
    let expected = user.password.clone();
    assert_eq!(comparison_hash(&Some(user), "dummy"), expected);
    assert_eq!(comparison_hash(&None, "dummy"), "dummy");
}

#[test]
fn credentials_are_accepted_only_with_account_match_and_role() {
    let admin = Some(account(UserRole::Admin, "pw"));
    let user = Some(account(UserRole::User, "pw"));
    assert!(credentials_accepted(&admin, true, UserRole::Admin));
    assert!(!credentials_accepted(&admin, false, UserRole::Admin));
    assert!(!credentials_accepted(&user, true, UserRole::Admin));
    assert!(!credentials_accepted(&None, true, UserRole::Admin));
    assert!(!credentials_accepted(&None, false, UserRole::Admin));
    assert!(credentials_accepted(&user, true, UserRole::User));
}

#[test]
fn login_with_correct_credentials_grants_a_session_cookie() {
    let flow = flow(Env::Prod);
    let outcome = flow.login_at(Some(account(UserRole::Admin, "open sesame")), "open sesame", NOW);
    let cookie = match outcome {
        LoginOutcome::Granted(cookie) => cookie,
        other => panic!("not granted: {:?}", other),
    };
    assert_eq!(cookie.name, "token");
    assert_eq!(cookie.domain, "example.com");
    assert_eq!(cookie.path, "/");
    assert!(cookie.same_site_strict);
    assert!(cookie.secure);
    assert!(cookie.http_only);
    assert_eq!(cookie.max_age_seconds, 3600);
    let claims = validate(&cookie.value, SECRET, NOW).unwrap();
    assert_eq!(claims.sub, 42);
    assert_eq!(claims.role, UserRole::Admin);
    assert_eq!(claims.exp as u64, NOW + 43200);
}

#[test]
fn the_cookie_is_secure_everywhere_but_in_development() {
    assert!(session_cookie(String::from("t"), "d", Env::Prod).secure);
    assert!(!session_cookie(String::from("t"), "d", Env::Dev).secure);
    let dev = session_cookie(String::from("t"), "d", Env::Dev);
    assert!(dev.http_only);
    assert!(dev.same_site_strict);
    assert_eq!(dev.value, "t");
    assert_eq!(dev.domain, "d");
}

#[test]
fn the_cookie_does_not_outlive_the_token() {
    assert_eq!(COOKIE_MAX_AGE_SECONDS, 3600);
    assert!(COOKIE_MAX_AGE_SECONDS <= SESSION_TTL_SECONDS);
}

#[test]
fn unknown_email_and_wrong_password_end_alike() {
    let flow = flow(Env::Prod);
    let unknown = flow.login_at(None, "open sesame", NOW);
    let wrong = flow.login_at(Some(account(UserRole::Admin, "open sesame")), "open simsim", NOW);
    assert!(is_rejected(&unknown));
    assert!(is_rejected(&wrong));
    assert_eq!(format!("{:?}", unknown), format!("{:?}", wrong));
}

#[test]
fn the_dummy_password_opens_no_unknown_account() {
    let flow = flow(Env::Prod);
    assert!(is_rejected(&flow.login_at(None, DUMMY_PASSWORD, NOW)));
    assert!(is_rejected(&flow.login(None, DUMMY_PASSWORD)));
}

#[test]
fn valid_credentials_of_a_user_are_rejected_on_the_admin_login() {
    let flow = flow(Env::Prod);
    let outcome = flow.login_at(Some(account(UserRole::User, "open sesame")), "open sesame", NOW);
    assert!(is_rejected(&outcome));
    let outcome = flow.login(Some(account(UserRole::User, "open sesame")), "open sesame");
    assert!(is_rejected(&outcome));
    let outcome = flow.login(Some(account(UserRole::NoRole, "open sesame")), "open sesame");
    assert!(is_rejected(&outcome));
}

#[test]
fn login_at_the_current_time_grants_a_token_that_reads_back() {
    let flow = flow(Env::Dev);
    let outcome = flow.login(Some(account(UserRole::Admin, "open sesame")), "open sesame");
    match outcome {
        LoginOutcome::Granted(cookie) => {
            let claims =
                my_rust_framework::token::read_jwt(Some(&cookie.value), Some(SECRET)).unwrap();
            assert_eq!(claims.sub, 42);
            assert_eq!(claims.role, UserRole::Admin);
            assert!(!cookie.secure);
        }
        other => panic!("not granted: {:?}", other),
    }
}

#[test]
fn conclude_reports_a_token_that_cannot_be_issued() {
    let flow = flow(Env::Prod);
    let outcome = flow.conclude_at(Some(account(UserRole::Admin, "pw")), true, u64::MAX);
    assert!(matches!(outcome, LoginOutcome::Failed(JwtError::ExpirationError)));
    // a rejection comes before any token is issued
    let outcome = flow.conclude_at(Some(account(UserRole::Admin, "pw")), false, u64::MAX);
    assert!(is_rejected(&outcome));
    let outcome = flow.conclude_at(None, true, u64::MAX);
    assert!(is_rejected(&outcome));
}

#[test]
fn a_stored_hash_that_cannot_be_read_rejects() {
    let flow = flow(Env::Prod);
    let mut user = account(UserRole::Admin, "pw");
    user.password = String::from("garbage");
    assert!(is_rejected(&flow.login_at(Some(user), "pw", NOW)));
}

#[test]
fn texts_of_the_login_view() {
    assert_eq!(LANDING_ROUTE, "/");
    assert_eq!(LOGIN_FAILURE_MESSAGE, "Falsche Daten");
    let form = FormData { email: String::from("a@b.c"), password: String::from("pw") };
    assert_eq!(form.email, "a@b.c");
    assert_eq!(form.password, "pw");
}
