use vstd::prelude::*;
use vstd::string::StringExecFns;

use crate::models::BookingStatus;

verus! {

/// Why a booking operation was refused. Each names the rule that failed.
#[derive(Clone, Copy, Debug, PartialEq, Eq, Structural)]
pub enum BookingError {
    /// The property or booking does not exist, or the property is inactive.
    NotFound,
    /// An empty or reversed date range, or a guest count the property cannot take.
    InvalidRequest,
    /// The dates overlap an active booking, or the booking changed meanwhile.
    Conflict,
    /// The lifecycle has no transition from `current` to `target`.
    InvalidTransition { current: BookingStatus, target: BookingStatus },
    /// The actor's role or identity does not allow the action.
    AuthorizationDenied,
}

/// The errors that reach a client, each carrying a message for it.
#[derive(Clone, Debug)]
pub enum AppError {
    Database(String),
    Validation(String),
    Authentication(String),
    Authorization(String),
    NotFound(String),
    BadRequest(String),
    Conflict(String),
    Internal(String),
    Jwt(String),
    Bcrypt(String),
}

/// The HTTP status of each error.
pub open spec fn status_of(e: AppError) -> u16 {
    match e {
        AppError::Database(_) => 500,
        AppError::Validation(_) => 400,
        AppError::Authentication(_) => 401,
        AppError::Authorization(_) => 403,
        AppError::NotFound(_) => 404,
        AppError::BadRequest(_) => 400,
        AppError::Conflict(_) => 409,
        AppError::Internal(_) => 500,
        AppError::Jwt(_) => 401,
        AppError::Bcrypt(_) => 500,
    }
}

/// The title shown for each error.
pub open spec fn title_of(e: AppError) -> &'static str {
    match e {
        AppError::Database(_) => "Database Error",
        AppError::Validation(_) => "Validation Error",
        AppError::Authentication(_) => "Authentication Error",
        AppError::Authorization(_) => "Authorization Error",
        AppError::NotFound(_) => "Not Found",
        AppError::BadRequest(_) => "Bad Request",
        AppError::Conflict(_) => "Conflict",
        AppError::Internal(_) => "Internal Server Error",
        AppError::Jwt(_) => "JWT Error",
        AppError::Bcrypt(_) => "Password Error",
    }
}

/// The message shown for each error: its own text, except for failures whose
/// details stay on the server.
pub open spec fn message_of(e: AppError) -> Seq<char> {
    match e {
        AppError::Database(_) => "An internal database error occurred"@,
        AppError::Jwt(_) => "Invalid or expired token"@,
        AppError::Bcrypt(_) => "Error processing password"@,
        AppError::Validation(m) => m@,
        AppError::Authentication(m) => m@,
        AppError::Authorization(m) => m@,
        AppError::NotFound(m) => m@,
        AppError::BadRequest(m) => m@,
        AppError::Conflict(m) => m@,
        AppError::Internal(m) => m@,
    }
}

impl AppError {
    pub fn status_code(&self) -> (r: u16)
        ensures
            r == status_of(*self),
    {
        match self {
            AppError::Database(_) => 500,
            AppError::Validation(_) => 400,
            AppError::Authentication(_) => 401,
            AppError::Authorization(_) => 403,
            AppError::NotFound(_) => 404,
            AppError::BadRequest(_) => 400,
            AppError::Conflict(_) => 409,
            AppError::Internal(_) => 500,
            AppError::Jwt(_) => 401,
            AppError::Bcrypt(_) => 500,
        }
    }

    pub fn error_type(&self) -> (r: &'static str)
        ensures
            r == title_of(*self),
    {
        match self {
            AppError::Database(_) => "Database Error",
            AppError::Validation(_) => "Validation Error",
            AppError::Authentication(_) => "Authentication Error",
            AppError::Authorization(_) => "Authorization Error",
            AppError::NotFound(_) => "Not Found",
            AppError::BadRequest(_) => "Bad Request",
            AppError::Conflict(_) => "Conflict",
            AppError::Internal(_) => "Internal Server Error",
            AppError::Jwt(_) => "JWT Error",
            AppError::Bcrypt(_) => "Password Error",
        }
    }

    pub fn message(&self) -> (r: String)
        ensures
            r@ == message_of(*self),
    {
        match self {
            AppError::Database(_) => String::from_str("An internal database error occurred"),
            AppError::Jwt(_) => String::from_str("Invalid or expired token"),
            AppError::Bcrypt(_) => String::from_str("Error processing password"),
            AppError::Validation(m) => m.clone(),
            AppError::Authentication(m) => m.clone(),
            AppError::Authorization(m) => m.clone(),
            AppError::NotFound(m) => m.clone(),
            AppError::BadRequest(m) => m.clone(),
            AppError::Conflict(m) => m.clone(),
            AppError::Internal(m) => m.clone(),
        }
    }

    /// The response for an error: status, title and message.
    pub fn error_response(&self) -> (r: (u16, &'static str, String))
        ensures
            r.0 == status_of(*self),
            r.1 == title_of(*self),
            r.2@ == message_of(*self),
    {
        (self.status_code(), self.error_type(), self.message())
    }

    /// The client-facing error for a refused booking operation.
    pub fn from_booking_error(e: BookingError) -> (r: AppError)
        ensures
            e is NotFound ==> r is NotFound,
            e is InvalidRequest ==> r is BadRequest,
            e is Conflict ==> r is Conflict,
            e is InvalidTransition ==> r is BadRequest,
            e is AuthorizationDenied ==> r is Authorization,
    {
        match e {
            BookingError::NotFound => AppError::NotFound(String::from_str("Property or booking not found")),
            BookingError::InvalidRequest => AppError::BadRequest(
                String::from_str("Invalid dates or guest count for this property"),
            ),
            BookingError::Conflict => AppError::Conflict(
                String::from_str("Property is not available for the selected dates"),
            ),
            BookingError::InvalidTransition { .. } => AppError::BadRequest(
                String::from_str("The booking cannot move to the requested status"),
            ),
            BookingError::AuthorizationDenied => AppError::Authorization(
                String::from_str("You are not allowed to perform this action"),
            ),
        }
    }
}

} // verus!
