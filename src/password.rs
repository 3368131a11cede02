use vstd::prelude::*;
use crate::error::{is_forbidden, is_invalid_input, AppError};
use crate::ids::fresh_uuid;

verus! {

/// The fewest characters a password may have.
pub const MIN_PASSWORD_CHARS: usize = 10;

/// A vendor's first password, typed twice.
pub struct CreatePasswordInput {
    pub password: String,
    pub confirm_password: String,
}

/// What creating a password stores on the vendor: the password's hash and a
/// new token, which retires the one the link carried.
pub struct PasswordUpdate {
    pub pass_hash: String,
    pub token: String,
}

/// Checks a new password against its confirmation and the length rule.
pub fn valid_password(pass: &String, confirm_pass: &String) -> (r: Result<(), AppError>)
    ensures
        pass@ != confirm_pass@ ==> r is Err && is_invalid_input(
            r->Err_0,
            "Passwords do not match"@,
        ),
        pass@ == confirm_pass@ && pass@.len() < MIN_PASSWORD_CHARS ==> r is Err && is_invalid_input(
            r->Err_0,
            "Password must contain at least 10 characters"@,
        ),
        pass@ == confirm_pass@ && pass@.len() >= MIN_PASSWORD_CHARS ==> r is Ok,
{
    if *pass != *confirm_pass {
        return Err(AppError::invalid_input("Passwords do not match"));
    }
    if pass.as_str().unicode_len() < MIN_PASSWORD_CHARS {
        return Err(AppError::invalid_input("Password must contain at least 10 characters"));
    }
    Ok(())
}

/// Checks the token a link carries against the vendor's stored one.
pub fn valid_token(stored: &String, token: &String) -> (r: Result<(), AppError>)
    ensures
        stored@ == token@ ==> r is Ok,
        stored@ != token@ ==> r matches Err(AppError::Auth),
{
    if *stored == *token {
        return Ok(());
    }
    Err(AppError::Auth)
}

/// Relied on as an opaque value: a salt, B64-encoded, from password-hash.
#[verifier::external_type_specification]
#[verifier::external_body]
pub struct ExSaltString(argon2::password_hash::SaltString);

/// Relies on password-hash's `SaltString::generate` over the operating
/// system's random source: a fresh salt, of which nothing else is known.
#[verifier::external_body]
fn fresh_salt() -> (r: argon2::password_hash::SaltString) {
    argon2::password_hash::SaltString::generate(&mut argon2::password_hash::rand_core::OsRng)
}

/// Relies on argon2's `PasswordHasher::hash_password` with the default
/// Argon2 parameters, written as a PHC string; `None` where the hasher
/// reports an error.
#[verifier::external_body]
fn argon2_hash(pass: &str, salt: &argon2::password_hash::SaltString) -> (r: Option<String>) {
    argon2::PasswordHasher::hash_password(&argon2::Argon2::default(), pass.as_bytes(), salt).ok().map(
        |h| h.to_string(),
    )
}

/// Hashes a password under a fresh salt; a failure of the hasher is an
/// internal error.
pub fn hash_password(pass: &String) -> (r: Result<String, AppError>)
    ensures
        r is Err ==> r matches Err(AppError::InternalError),
{
    let salt = fresh_salt();
    match argon2_hash(pass.as_str(), &salt) {
        Some(h) => Ok(h),
        None => Err(AppError::InternalError),
    }
}

/// Decides whether a vendor may set its first password: not when it has one
/// already, nor with a token other than its own, nor with a password that
/// `valid_password` refuses. Otherwise the password is hashed and a new
/// token drawn.
pub fn handle_create_password(
    has_password: bool,
    stored_token: &String,
    token: &String,
    input: &CreatePasswordInput,
) -> (r: Result<PasswordUpdate, AppError>)
    ensures
        has_password ==> r is Err && is_forbidden(
            r->Err_0,
            "Vendor password already created"@,
        ),
        !has_password && stored_token@ != token@ ==> r matches Err(AppError::Auth),
        !has_password && stored_token@ == token@ && input.password@ != input.confirm_password@
            ==> r is Err && is_invalid_input(
            r->Err_0,
            "Passwords do not match"@,
        ),
        !has_password && stored_token@ == token@ && input.password@ == input.confirm_password@
            && input.password@.len() < MIN_PASSWORD_CHARS ==> r is Err && is_invalid_input(
            r->Err_0,
            "Password must contain at least 10 characters"@,
        ),
        !has_password && stored_token@ == token@ && input.password@ == input.confirm_password@
            && input.password@.len() >= MIN_PASSWORD_CHARS ==> (r is Ok || r matches Err(
            AppError::InternalError,
        )),
        r matches Ok(u) ==> u.token@.len() == 36,
{
    if has_password {
        return Err(AppError::forbidden("Vendor password already created"));
    }
    valid_token(stored_token, token)?;
    valid_password(&input.password, &input.confirm_password)?;
    let pass_hash = hash_password(&input.password)?;
    Ok(PasswordUpdate { pass_hash, token: fresh_uuid() })
}

} // verus!
