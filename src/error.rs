use vstd::prelude::*;

verus! {

/// Errors reported by the credential store.
#[derive(Debug, Clone, PartialEq, Eq, Hash)]
pub enum FopError {
    TooManyRequest,
    UserNameNotValid,
    EmailNotValid,
    PasswordMismatch,
    UserTooBig,
    UserNotFound,
    TokenInvalid,
    Other(String),
}

/// The human-readable message of each error.
pub open spec fn error_message(e: FopError) -> Seq<char> {
    match e {
        FopError::TooManyRequest => "Too many requests"@,
        FopError::UserNameNotValid => "Username is not valid"@,
        FopError::EmailNotValid => "Email is not valid"@,
        FopError::PasswordMismatch => "Password mismatch"@,
        FopError::UserTooBig => "User data too big"@,
        FopError::UserNotFound => "User not found"@,
        FopError::TokenInvalid => "Token is invalid"@,
        FopError::Other(msg) => msg@,
    }
}

impl FopError {
    /// The message shown to clients for this error.
    pub fn to_string(&self) -> (r: String)
        ensures
            r@ == error_message(*self),
    {
        match self {
            FopError::TooManyRequest => String::from_str("Too many requests"),
            FopError::UserNameNotValid => String::from_str("Username is not valid"),
            FopError::EmailNotValid => String::from_str("Email is not valid"),
            FopError::PasswordMismatch => String::from_str("Password mismatch"),
            FopError::UserTooBig => String::from_str("User data too big"),
            FopError::UserNotFound => String::from_str("User not found"),
            FopError::TokenInvalid => String::from_str("Token is invalid"),
            FopError::Other(msg) => msg.clone(),
        }
    }
}

} // verus!
