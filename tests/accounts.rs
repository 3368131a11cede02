use inlet_shop::email::reset_password;
use inlet_shop::error::AppError;
use inlet_shop::password::{
    handle_create_password, hash_password, valid_password, valid_token, CreatePasswordInput,
};

fn input(p: &str, c: &str) -> CreatePasswordInput {
    CreatePasswordInput { password: p.to_string(), confirm_password: c.to_string() }
}

#[test]
fn password_must_match_confirmation() {
    match valid_password(&"longenough1".to_string(), &"longenough2".to_string()) {
        Err(AppError::InvalidInput(m)) => assert_eq!(m, "Passwords do not match"),
        _ => panic!("mismatch accepted"),
    }
}

#[test]
fn password_needs_ten_characters() {
    match valid_password(&"short".to_string(), &"short".to_string()) {
        Err(AppError::InvalidInput(m)) => {
            assert_eq!(m, "Password must contain at least 10 characters")
        },
        _ => panic!("short password accepted"),
    }
    assert!(valid_password(&"0123456789".to_string(), &"0123456789".to_string()).is_ok());
    assert!(valid_password(&"ééééééééé".to_string(), &"ééééééééé".to_string()).is_err());
    assert!(valid_password(&"éééééééééé".to_string(), &"éééééééééé".to_string()).is_ok());
}

#[test]
fn token_must_match() {
    assert!(valid_token(&"abc".to_string(), &"abc".to_string()).is_ok());
    assert!(matches!(valid_token(&"abc".to_string(), &"abd".to_string()), Err(AppError::Auth)));
}

#[test]
fn hashing_gives_a_phc_string() {
    let h = hash_password(&"password123".to_string()).unwrap();
    assert!(h.starts_with("$argon2"));
    assert!(!h.contains("password123"));
}

#[test]
fn create_password_rules() {
    let t = "tok".to_string();
    match handle_create_password(true, &t, &t, &input("0123456789", "0123456789")) {
        Err(AppError::Forbidden(m)) => assert_eq!(m, "Vendor password already created"),
        _ => panic!("second password accepted"),
    }
    assert!(matches!(
        handle_create_password(false, &t, &"other".to_string(), &input("0123456789", "0123456789")),
        Err(AppError::Auth)
    ));
    assert!(matches!(
        handle_create_password(false, &t, &t, &input("0123456789", "012345678x")),
        Err(AppError::InvalidInput(_))
    ));
    let ok = handle_create_password(false, &t, &t, &input("0123456789", "0123456789")).unwrap();
    assert!(ok.pass_hash.starts_with("$argon2"));
    assert_eq!(ok.token.len(), 36);
    assert_ne!(ok.token, t);
}

#[test]
fn reset_mail_carries_link() {
    let body = reset_password("Ann".to_string(), "id1".to_string(), "tk".to_string());
    assert!(body.starts_with("\n<p>Hello Ann,</p>"));
    assert!(body.contains("<a href=\"https://vendor.inlet.shop/password/id1/tk\">"));
    assert!(body.contains("\n    vendor.inlet.shop/password/id1/tk\n</a>"));
    assert!(body.ends_with("<p>-Inlet Sites</p>\n"));
}

#[test]
fn error_status_and_message() {
    assert_eq!(AppError::InternalError.status_code(), 500);
    assert_eq!(AppError::invalid_input("bad").status_code(), 400);
    assert_eq!(AppError::Auth.status_code(), 401);
    assert_eq!(AppError::not_found("gone").status_code(), 404);
    assert_eq!(AppError::forbidden("no").status_code(), 403);
    assert_eq!(AppError::InternalError.message(), "Internal Server Error");
    assert_eq!(AppError::Auth.message(), "Unauthorized");
    assert_eq!(AppError::not_found("gone").message(), "gone");
}
