use server::auth::{
    authenticate, issue_claims, login, token_response, LoginError, TOKEN_LIFETIME,
};
use server::models::{LoginRequest, User};

/// The hash of "password" with the salt "somesalt": Argon2id, version 19,
/// 256 KiB, two passes, one lane.
const HASH_OF_PASSWORD: &str =
    "$argon2id$v=19$m=256,t=2,p=1$c29tZXNhbHQ$nf65EOgLrQMR/uIPnA4rEsF5h7TKyQwu9U1bMCHGi/4";

fn user(hash: &str) -> User {
    User { id: 42, username: String::from("alice"), password_hash: String::from(hash) }
}

fn request(password: &str) -> LoginRequest {
    LoginRequest { username: String::from("alice"), password: String::from(password) }
}

fn seconds_now() -> i64 {
    chrono::Utc::now().timestamp()
}

#[test]
fn the_right_password_logs_in() {
    let before = seconds_now();
    let claims = login(Some(user(HASH_OF_PASSWORD)), &request("password")).unwrap();
    let after = seconds_now();
    assert_eq!(claims.sub, "alice");
    assert_eq!(claims.uid, 42);
    assert!(claims.exp as i64 >= before + 86_400);
    assert!(claims.exp as i64 <= after + 86_400);
}

#[test]
fn a_hash_made_by_argon2_accepts_its_password() {
    let salt = argon2::password_hash::SaltString::from_b64("c29tZXNhbHRzb21lc2FsdA").unwrap();
    let hash = argon2::password_hash::PasswordHasher::hash_password(
        &argon2::Argon2::default(),
        b"correct horse",
        &salt,
    )
    .unwrap()
    .to_string();
    let claims = login(Some(user(&hash)), &request("correct horse")).unwrap();
    assert_eq!(claims.uid, 42);
    let refused = login(Some(user(&hash)), &request("correct horse "));
    assert!(matches!(refused, Err(LoginError::InvalidCredentials)));
}

#[test]
fn the_same_login_is_decided_the_same_way_each_time() {
    for _ in 0..3 {
        assert!(login(Some(user(HASH_OF_PASSWORD)), &request("password")).is_ok());
        assert!(login(Some(user(HASH_OF_PASSWORD)), &request("Password")).is_err());
    }
}

#[test]
fn the_wrong_password_is_turned_down() {
    let refused = login(Some(user(HASH_OF_PASSWORD)), &request("sassword"));
    assert!(matches!(refused, Err(LoginError::InvalidCredentials)));
}

#[test]
fn the_hash_itself_is_no_password() {
    let refused = login(Some(user(HASH_OF_PASSWORD)), &request(HASH_OF_PASSWORD));
    assert!(matches!(refused, Err(LoginError::InvalidCredentials)));
}

#[test]
fn an_unknown_user_is_turned_down() {
    let refused = login(None, &request("password"));
    assert!(matches!(refused, Err(LoginError::InvalidCredentials)));
}

#[test]
fn a_stored_hash_that_does_not_parse_is_the_servers_fault() {
    let refused = login(Some(user("not-a-hash")), &request("password"));
    assert!(matches!(refused, Err(LoginError::InvalidHashFormat)));
    let refused = login(Some(user("")), &request(""));
    assert!(matches!(refused, Err(LoginError::InvalidHashFormat)));
}

#[test]
fn a_hash_that_parses_but_cannot_be_computed_accepts_nothing() {
    let unknown_version =
        "$argon2i$v=42$m=65536,t=2,p=1$c29tZXNhbHQ$9sTbSlTio3Biev89thdrlKKiCaYsjjYVJxGAL3swxpQ";
    let refused = login(Some(user(unknown_version)), &request("password"));
    assert!(matches!(refused, Err(LoginError::InvalidCredentials)));
}

#[test]
fn authenticate_decides_in_order() {
    assert!(matches!(authenticate(None, true, true), Err(LoginError::InvalidCredentials)));
    assert!(matches!(
        authenticate(Some(user("x")), false, true),
        Err(LoginError::InvalidHashFormat)
    ));
    assert!(matches!(
        authenticate(Some(user("x")), false, false),
        Err(LoginError::InvalidHashFormat)
    ));
    assert!(matches!(
        authenticate(Some(user("x")), true, false),
        Err(LoginError::InvalidCredentials)
    ));
    let admitted = authenticate(Some(user("x")), true, true).unwrap();
    assert_eq!(admitted.id, 42);
    assert_eq!(admitted.username, "alice");
    assert_eq!(admitted.password_hash, "x");
}

#[test]
fn claims_expire_a_day_after_they_are_issued() {
    assert_eq!(TOKEN_LIFETIME, 24 * 60 * 60);
    let claims = issue_claims(user("x"), 1_700_000_000);
    assert_eq!(claims.sub, "alice");
    assert_eq!(claims.uid, 42);
    assert_eq!(claims.exp, 1_700_086_400);
    assert_eq!(issue_claims(user("x"), 0).exp, 86_400);
}

#[test]
fn claims_issued_before_the_epoch_wrap_as_the_cast_does() {
    let claims = issue_claims(user("x"), -86_401);
    assert_eq!(claims.exp, (-1i64) as usize);
}

#[test]
fn an_encoded_token_is_the_answer() {
    let response = token_response(Ok(String::from("abc.def.ghi"))).unwrap();
    assert_eq!(response.token, "abc.def.ghi");
}

#[test]
fn a_failed_encoding_is_the_servers_fault() {
    match token_response(Err(String::from("key rejected"))) {
        Err(error) => {
            assert_eq!(error.status(), 500);
            assert_eq!(error.message(), "key rejected");
        }
        Ok(_) => panic!("a failure gives no token"),
    }
}

#[test]
fn login_errors_answer_with_status_and_text() {
    assert_eq!(LoginError::InvalidCredentials.status(), 401);
    assert_eq!(LoginError::InvalidCredentials.message(), "Invalid credentials");
    assert_eq!(LoginError::InvalidHashFormat.status(), 500);
    assert_eq!(LoginError::InvalidHashFormat.message(), "Invalid hash format");
    let internal = LoginError::Internal(String::from("pool timed out"));
    assert_eq!(internal.status(), 500);
    assert_eq!(internal.message(), "pool timed out");
}
