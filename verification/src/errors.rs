//! Error taxonomy of the service, with stable machine-readable codes and the
//! HTTP status each kind maps to.

use vstd::prelude::*;

verus! {

/// Errors of the credential store.
#[derive(Clone, Copy, Debug, PartialEq, Eq, Structural)]
pub enum UserDbError {
    GenericError,
    UserWithEmailAlreadyExist,
    UserWithDisplayNameAlreadyExist,
    UserNotFound,
}

/// Request-layer error: the payload could not be read at all.
#[derive(Clone, Copy, Debug, PartialEq, Eq, Structural)]
pub enum AppError {
    InvalidRequestPayload,
}

/// The one externally visible login failure. An unknown email and a wrong
/// password are deliberately indistinguishable, to prevent account
/// enumeration.
#[derive(Clone, Copy, Debug, PartialEq, Eq, Structural)]
pub enum LoginError {
    InvalidEmailOrPassword,
}

/// Failures of registration.
#[derive(Clone, Copy, Debug, PartialEq, Eq, Structural)]
pub enum RegisterError {
    GenericError,
    EmailAlreadyExist,
    DisplayNameAlreadyExist,
}

/// Failures of the post operations.
#[derive(Clone, Copy, Debug, PartialEq, Eq, Structural)]
pub enum UserPostError {
    GenericError,
    PostNotFound,
}

/// Failures of token validation: a malformed token or a bad signature is
/// `Invalid`; a well-signed token checked at or past its expiry is `Expired`.
#[derive(Clone, Copy, Debug, PartialEq, Eq, Structural)]
pub enum TokenError {
    Invalid,
    Expired,
}

/// Failures of the auth gate. Every token-validation failure collapses into
/// `InvalidAuthenticationToken`: the caller learns nothing about why.
#[derive(Clone, Copy, Debug, PartialEq, Eq, Structural)]
pub enum AuthError {
    NoAuthenticationToken,
    InvalidAuthenticationToken,
}

impl AuthError {
    /// The message the request layer sends with the 401 response.
    pub fn message(&self) -> (r: &'static str)
        ensures
            r@ == match self {
                AuthError::NoAuthenticationToken => "No authentication token sent!"@,
                AuthError::InvalidAuthenticationToken => "Invalid authentication token sent!"@,
            },
    {
        match self {
            AuthError::NoAuthenticationToken => "No authentication token sent!",
            AuthError::InvalidAuthenticationToken => "Invalid authentication token sent!",
        }
    }

    /// The HTTP status this error maps to.
    pub fn status_code(&self) -> (r: u16)
        ensures
            r == 401,
    {
        401
    }
}

impl AppError {
    /// The stable machine-readable code of this error.
    pub fn code(&self) -> (r: u16)
        ensures
            r == 10001,
    {
        match self {
            AppError::InvalidRequestPayload => 10001,
        }
    }

    /// The HTTP status this error maps to.
    pub fn status_code(&self) -> (r: u16)
        ensures
            r == 400,
    {
        match self {
            AppError::InvalidRequestPayload => 400,
        }
    }
}

impl LoginError {
    /// The stable machine-readable code of this error.
    pub fn code(&self) -> (r: u16)
        ensures
            r == 10011,
    {
        match self {
            LoginError::InvalidEmailOrPassword => 10011,
        }
    }

    /// The HTTP status this error maps to.
    pub fn status_code(&self) -> (r: u16)
        ensures
            r == 400,
    {
        match self {
            LoginError::InvalidEmailOrPassword => 400,
        }
    }
}

impl RegisterError {
    /// The stable machine-readable code of this error.
    pub fn code(&self) -> (r: u16)
        ensures
            r == match self {
                RegisterError::GenericError => 10021u16,
                RegisterError::EmailAlreadyExist => 10022u16,
                RegisterError::DisplayNameAlreadyExist => 10023u16,
            },
    {
        match self {
            RegisterError::GenericError => 10021,
            RegisterError::EmailAlreadyExist => 10022,
            RegisterError::DisplayNameAlreadyExist => 10023,
        }
    }

    /// The HTTP status this error maps to: conflicts are the client's
    /// fault, anything else is internal.
    pub fn status_code(&self) -> (r: u16)
        ensures
            r == match self {
                RegisterError::GenericError => 500u16,
                RegisterError::EmailAlreadyExist => 400u16,
                RegisterError::DisplayNameAlreadyExist => 400u16,
            },
    {
        match self {
            RegisterError::GenericError => 500,
            RegisterError::EmailAlreadyExist => 400,
            RegisterError::DisplayNameAlreadyExist => 400,
        }
    }
}

impl UserPostError {
    /// The stable machine-readable code of this error.
    pub fn code(&self) -> (r: u16)
        ensures
            r == match self {
                UserPostError::GenericError => 20011u16,
                UserPostError::PostNotFound => 20012u16,
            },
    {
        match self {
            UserPostError::GenericError => 20011,
            UserPostError::PostNotFound => 20012,
        }
    }

    /// The HTTP status this error maps to.
    pub fn status_code(&self) -> (r: u16)
        ensures
            r == match self {
                UserPostError::GenericError => 500u16,
                UserPostError::PostNotFound => 404u16,
            },
    {
        match self {
            UserPostError::GenericError => 500,
            UserPostError::PostNotFound => 404,
        }
    }
}

/// The wire shape of an error: a stable machine-readable code and a
/// message. Every error kind converts into one.
#[derive(Clone, Debug)]
pub struct AppErrorResponse {
    pub error_code: u16,
    pub error_message: String,
}

impl AppErrorResponse {
    /// The response for a request-layer error.
    pub fn from_app_error(value: &AppError) -> (r: AppErrorResponse)
        ensures
            r.error_code == 10001,
            r.error_message@ == "Invalid request payload"@,
    {
        match value {
            AppError::InvalidRequestPayload => AppErrorResponse {
                error_code: 10001,
                error_message: String::from_str("Invalid request payload"),
            },
        }
    }

    /// The response for a login failure.
    pub fn from_login_error(value: &LoginError) -> (r: AppErrorResponse)
        ensures
            r.error_code == 10011,
            r.error_message@ == "Invalid email or password"@,
    {
        match value {
            LoginError::InvalidEmailOrPassword => AppErrorResponse {
                error_code: 10011,
                error_message: String::from_str("Invalid email or password"),
            },
        }
    }

    /// The response for a registration failure.
    pub fn from_register_error(value: &RegisterError) -> (r: AppErrorResponse)
        ensures
            r.error_code == match value {
                RegisterError::GenericError => 10021u16,
                RegisterError::EmailAlreadyExist => 10022u16,
                RegisterError::DisplayNameAlreadyExist => 10023u16,
            },
            r.error_message@ == match value {
                RegisterError::GenericError => "Unknown generic error"@,
                RegisterError::EmailAlreadyExist => "An account with email already exist"@,
                RegisterError::DisplayNameAlreadyExist => "Display name already exist"@,
            },
    {
        match value {
            RegisterError::GenericError => AppErrorResponse {
                error_code: 10021,
                error_message: String::from_str("Unknown generic error"),
            },
            RegisterError::EmailAlreadyExist => AppErrorResponse {
                error_code: 10022,
                error_message: String::from_str("An account with email already exist"),
            },
            RegisterError::DisplayNameAlreadyExist => AppErrorResponse {
                error_code: 10023,
                error_message: String::from_str("Display name already exist"),
            },
        }
    }

    /// The response for a post-operation failure.
    pub fn from_user_post_error(value: &UserPostError) -> (r: AppErrorResponse)
        ensures
            r.error_code == match value {
                UserPostError::GenericError => 20011u16,
                UserPostError::PostNotFound => 20012u16,
            },
            r.error_message@ == match value {
                UserPostError::GenericError => "Unknown generic error"@,
                UserPostError::PostNotFound => "Post not found"@,
            },
    {
        match value {
            UserPostError::GenericError => AppErrorResponse {
                error_code: 20011,
                error_message: String::from_str("Unknown generic error"),
            },
            UserPostError::PostNotFound => AppErrorResponse {
                error_code: 20012,
                error_message: String::from_str("Post not found"),
            },
        }
    }
}

/// How a credential-store failure surfaces to a registering client.
pub open spec fn register_error_of_db_error(value: UserDbError) -> RegisterError {
    match value {
        UserDbError::UserWithEmailAlreadyExist => RegisterError::EmailAlreadyExist,
        UserDbError::UserWithDisplayNameAlreadyExist => RegisterError::DisplayNameAlreadyExist,
        _ => RegisterError::GenericError,
    }
}

impl From<UserDbError> for RegisterError {
    fn from(value: UserDbError) -> (r: RegisterError)
        ensures
            r == register_error_of_db_error(value),
    {
        match value {
            UserDbError::UserWithEmailAlreadyExist => RegisterError::EmailAlreadyExist,
            UserDbError::UserWithDisplayNameAlreadyExist => RegisterError::DisplayNameAlreadyExist,
            _ => RegisterError::GenericError,
        }
    }
}

impl vstd::std_specs::convert::FromSpecImpl<UserDbError> for RegisterError {
    open spec fn obeys_from_spec() -> bool {
        true
    }

    open spec fn from_spec(value: UserDbError) -> RegisterError {
        register_error_of_db_error(value)
    }
}

} // verus!
