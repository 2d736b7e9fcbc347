use multiplayer::accounts::{
    check_authentication, classify_create_user_error, default_per_page, require_signed_in, require_user, is_unique_violation, AppError, GamesQuery,
    RegisterBody,
};

fn body(username: &str, email: &str, password: &str) -> RegisterBody {
    RegisterBody { username: username.to_string(), email: email.to_string(), password: password.to_string() }
}

fn bad_request(r: Result<(), AppError>) -> &'static str {
    match r {
        Err(AppError::BadRequest(m)) => m,
        _ => panic!("expected a bad request"),
    }
}

#[test]
fn default_page_size() {
    assert_eq!(default_per_page(), 20);
    let q = GamesQuery::new_default();
    assert_eq!((q.page, q.per_page), (0, 20));
}

#[test]
fn page_window_clamps() {
    assert_eq!(GamesQuery { page: -3, per_page: 0 }.page_window(), (0, 1));
    assert_eq!(GamesQuery { page: 2, per_page: 500 }.page_window(), (2, 100));
    assert_eq!(GamesQuery { page: 4, per_page: 20 }.page_window(), (4, 20));
    assert_eq!(GamesQuery { page: i64::MIN, per_page: i64::MIN }.page_window(), (0, 1));
    let w = GamesQuery { page: 7, per_page: 101 }.page_window();
    assert_eq!(GamesQuery { page: w.0, per_page: w.1 }.page_window(), w);
}

#[test]
fn registration_rules() {
    assert!(body("bob", "b@x", "12345678").validate().is_ok());
    assert_eq!(bad_request(body("bo", "b@x", "12345678").validate()), "username must be 3–30 characters");
    assert_eq!(bad_request(body(&"a".repeat(31), "b@x", "12345678").validate()), "username must be 3–30 characters");
    assert!(body(&"a".repeat(30), "b@x", "12345678").validate().is_ok());
    assert_eq!(bad_request(body("bob", "b@x", "1234567").validate()), "password must be at least 8 characters");
    assert_eq!(bad_request(body("bob", "bx", "12345678").validate()), "invalid email address");
    // Lengths count bytes: two characters of two bytes each pass.
    assert!(body("éé", "b@x", "12345678").validate().is_ok());
    // The first broken rule is reported.
    assert_eq!(bad_request(body("b", "bx", "1").validate()), "username must be 3–30 characters");
}

#[test]
fn unique_violation_detection() {
    assert!(is_unique_violation("UNIQUE constraint failed: users.username"));
    assert!(is_unique_violation("error: UNIQUE constraint failed"));
    assert!(!is_unique_violation("unique constraint failed"));
    assert!(!is_unique_violation(""));
}

#[test]
fn create_user_errors() {
    match classify_create_user_error(Some("UNIQUE constraint failed: users.email"), "d".to_string()) {
        AppError::Conflict(m) => assert_eq!(m, "username or email already taken"),
        _ => panic!("expected a conflict"),
    }
    match classify_create_user_error(Some("disk full"), "disk full".to_string()) {
        AppError::Database(m) => assert_eq!(m, "disk full"),
        _ => panic!("expected a database error"),
    }
    match classify_create_user_error(None, "pool timed out".to_string()) {
        AppError::Database(m) => assert_eq!(m, "pool timed out"),
        _ => panic!("expected a database error"),
    }
}

#[test]
fn error_responses() {
    assert_eq!(AppError::Database("x".to_string()).status_and_body(), (500, "internal error"));
    assert_eq!(AppError::NotFound.status_and_body(), (404, ""));
    assert_eq!(AppError::Conflict("taken").status_and_body(), (409, "taken"));
    assert_eq!(AppError::BadRequest("bad").status_and_body(), (400, "bad"));
    assert_eq!(AppError::Unauthorized.status_and_body(), (401, ""));
    assert_eq!(AppError::Internal.status_and_body(), (500, ""));
}

#[test]
fn authentication_and_lookup_outcomes() {
    assert_eq!(check_authentication(Ok(Some(7))).ok(), Some(7));
    assert!(matches!(check_authentication::<i32>(Ok(None)), Err(AppError::Unauthorized)));
    assert!(matches!(check_authentication::<i32>(Err(())), Err(AppError::Internal)));
    assert_eq!(require_user(Some("ann")).ok(), Some("ann"));
    assert!(matches!(require_user::<i32>(None), Err(AppError::NotFound)));
    assert_eq!(require_signed_in(Some(1)).ok(), Some(1));
    assert!(matches!(require_signed_in::<i32>(None), Err(AppError::Unauthorized)));
}
