//! The closed set of failures a request can end in, and the one table that
//! turns each into an HTTP status and a message for the client.

use vstd::prelude::*;

use crate::models::user::PasswordError;

verus! {

/// What a failed request answers: the status line and the text of the body's
/// single `error` field.
#[derive(Debug, Clone, PartialEq, Eq)]
pub struct ErrorResponse {
    pub status: u16,
    pub error: String,
}

/// Every way a request can fail. No variant carries detail of the layer that
/// failed, so none of it can reach a client.
#[derive(Debug, Clone, PartialEq, Eq)]
pub enum ApiError {
    /// The persistence layer failed.
    Database,
    /// The session could not be loaded or written.
    Session,
    /// The email is already registered.
    UserExists,
    /// Unknown email or wrong password; the two are not told apart.
    InvalidCredentials,
    /// Any other internal failure, such as a stored hash that does not parse.
    Internal,
    /// A referenced entity does not exist.
    NotFound,
    /// The request failed validation; the text names the rule. It is fixed
    /// at compile time and so cannot hold detail of a failure.
    BadRequest(&'static str),
}

/// The HTTP status of a handler's outcome: 200 when it succeeded, else the
/// status of its failure.
pub open spec fn outcome_status<T>(outcome: Result<T, ApiError>) -> u16 {
    match outcome {
        Ok(_) => 200,
        Err(error) => error.status(),
    }
}

/// Computes [`outcome_status`].
pub fn status_of<T>(outcome: &Result<T, ApiError>) -> (code: u16)
    ensures
        code == outcome_status(*outcome),
{
    match outcome {
        Ok(_) => 200,
        Err(error) => error.status_code(),
    }
}

impl ApiError {
    /// The HTTP status of each failure.
    pub open spec fn status(self) -> u16 {
        match self {
            ApiError::Database => 500,
            ApiError::Session => 500,
            ApiError::UserExists => 409,
            ApiError::InvalidCredentials => 401,
            ApiError::Internal => 500,
            ApiError::NotFound => 404,
            ApiError::BadRequest(_) => 400,
        }
    }

    /// The message a client reads for each failure.
    pub open spec fn message_text(self) -> Seq<char> {
        match self {
            ApiError::Database => "Database error"@,
            ApiError::Session => "Session error"@,
            ApiError::UserExists => "User already exists"@,
            ApiError::InvalidCredentials => "Invalid credentials"@,
            ApiError::Internal => "Internal server error"@,
            ApiError::NotFound => "Not found"@,
            ApiError::BadRequest(text) => text@,
        }
    }

    /// Computes [`ApiError::status`].
    pub fn status_code(&self) -> (code: u16)
        ensures
            code == self.status(),
    {
        match self {
            ApiError::Database => 500,
            ApiError::Session => 500,
            ApiError::UserExists => 409,
            ApiError::InvalidCredentials => 401,
            ApiError::Internal => 500,
            ApiError::NotFound => 404,
            ApiError::BadRequest(_) => 400,
        }
    }

    /// Computes [`ApiError::message_text`].
    pub fn message(&self) -> (text: String)
        ensures
            text@ == self.message_text(),
    {
        match self {
            ApiError::Database => "Database error".to_owned(),
            ApiError::Session => "Session error".to_owned(),
            ApiError::UserExists => "User already exists".to_owned(),
            ApiError::InvalidCredentials => "Invalid credentials".to_owned(),
            ApiError::Internal => "Internal server error".to_owned(),
            ApiError::NotFound => "Not found".to_owned(),
            ApiError::BadRequest(text) => (*text).to_owned(),
        }
    }

    /// How a credential failure is classed. It is never the client's doing
    /// and tells the client nothing: either kind is an internal error.
    pub open spec fn classified(error: PasswordError) -> ApiError {
        match error {
            PasswordError::MalformedHash => ApiError::Internal,
            PasswordError::HashingFailed => ApiError::Internal,
        }
    }

    /// Classes a credential failure: see [`ApiError::classified`].
    pub fn classify(error: PasswordError) -> (class: ApiError)
        ensures
            class == ApiError::classified(error),
    {
        match error {
            PasswordError::MalformedHash => ApiError::Internal,
            PasswordError::HashingFailed => ApiError::Internal,
        }
    }

    /// Status and body of the response that reports this failure.
    pub fn into_response(self) -> (response: ErrorResponse)
        ensures
            response.status == self.status(),
            response.error@ == self.message_text(),
    {
        let status = self.status_code();
        let error = self.message();
        ErrorResponse { status, error }
    }
}

} // verus!
