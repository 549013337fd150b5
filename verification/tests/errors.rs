//! Error codes, HTTP statuses, messages and conversions.

use authpost::errors::{
    AppError, AppErrorResponse, AuthError, LoginError, RegisterError, UserDbError, UserPostError,
};

#[test]
fn codes_are_stable() {
    assert_eq!(AppError::InvalidRequestPayload.code(), 10001);
    assert_eq!(LoginError::InvalidEmailOrPassword.code(), 10011);
    assert_eq!(RegisterError::GenericError.code(), 10021);
    assert_eq!(RegisterError::EmailAlreadyExist.code(), 10022);
    assert_eq!(RegisterError::DisplayNameAlreadyExist.code(), 10023);
    assert_eq!(UserPostError::GenericError.code(), 20011);
    assert_eq!(UserPostError::PostNotFound.code(), 20012);
}

#[test]
fn statuses_separate_client_and_server_faults() {
    assert_eq!(AppError::InvalidRequestPayload.status_code(), 400);
    assert_eq!(LoginError::InvalidEmailOrPassword.status_code(), 400);
    assert_eq!(RegisterError::GenericError.status_code(), 500);
    assert_eq!(RegisterError::EmailAlreadyExist.status_code(), 400);
    assert_eq!(RegisterError::DisplayNameAlreadyExist.status_code(), 400);
    assert_eq!(UserPostError::GenericError.status_code(), 500);
    assert_eq!(UserPostError::PostNotFound.status_code(), 404);
    assert_eq!(AuthError::NoAuthenticationToken.status_code(), 401);
    assert_eq!(AuthError::InvalidAuthenticationToken.status_code(), 401);
}

#[test]
fn auth_messages_match_the_gate() {
    assert_eq!(
        AuthError::NoAuthenticationToken.message(),
        "No authentication token sent!"
    );
    assert_eq!(
        AuthError::InvalidAuthenticationToken.message(),
        "Invalid authentication token sent!"
    );
}

#[test]
fn store_errors_map_to_register_errors() {
    assert_eq!(
        RegisterError::from(UserDbError::UserWithEmailAlreadyExist),
        RegisterError::EmailAlreadyExist
    );
    assert_eq!(
        RegisterError::from(UserDbError::UserWithDisplayNameAlreadyExist),
        RegisterError::DisplayNameAlreadyExist
    );
    assert_eq!(
        RegisterError::from(UserDbError::GenericError),
        RegisterError::GenericError
    );
    assert_eq!(
        RegisterError::from(UserDbError::UserNotFound),
        RegisterError::GenericError
    );
}

#[test]
fn responses_carry_code_and_message() {
    let r = AppErrorResponse::from_app_error(&AppError::InvalidRequestPayload);
    assert_eq!(r.error_code, 10001);
    assert_eq!(r.error_message, "Invalid request payload");

    let r = AppErrorResponse::from_login_error(&LoginError::InvalidEmailOrPassword);
    assert_eq!(r.error_code, 10011);
    assert_eq!(r.error_message, "Invalid email or password");

    let r = AppErrorResponse::from_register_error(&RegisterError::EmailAlreadyExist);
    assert_eq!(r.error_code, 10022);
    assert_eq!(r.error_message, "An account with email already exist");

    let r = AppErrorResponse::from_register_error(&RegisterError::DisplayNameAlreadyExist);
    assert_eq!(r.error_code, 10023);
    assert_eq!(r.error_message, "Display name already exist");

    let r = AppErrorResponse::from_register_error(&RegisterError::GenericError);
    assert_eq!(r.error_code, 10021);
    assert_eq!(r.error_message, "Unknown generic error");

    let r = AppErrorResponse::from_user_post_error(&UserPostError::GenericError);
    assert_eq!(r.error_code, 20011);
    assert_eq!(r.error_message, "Unknown generic error");

    let r = AppErrorResponse::from_user_post_error(&UserPostError::PostNotFound);
    assert_eq!(r.error_code, 20012);
    assert_eq!(r.error_message, "Post not found");
}
