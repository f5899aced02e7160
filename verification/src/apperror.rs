//! The handler-level error taxonomy and its mapping to status codes and
//! response bodies. A server-error response always carries a fixed generic
//! body; the underlying detail is kept server-side only.

use vstd::prelude::*;
use vstd::string::StringExecFns;

verus! {

/// Errors a route handler can produce. Failures carrying data from a
/// collaborator (a rejected body, a decode failure, a wrapped generic error)
/// hold the collaborator's message as plain text.
#[derive(Debug, Clone)]
pub enum AppError {
    Doomed,
    Unlucky,
    Unforseen,
    TooLittleTooLate,
    Oops,
    ShouldNeverHappen,
    BytesRejection(String),
    CiboriumIoError(String),
    GenericError(String),
}

/// The status code each handler error is reported as. Any error without an
/// explicit mapping is reported as not-implemented.
pub open spec fn spec_app_error_status(e: AppError) -> u16 {
    match e {
        AppError::Doomed => 500,
        AppError::Unlucky => 421,
        AppError::TooLittleTooLate => 417,
        AppError::Oops => 418,
        AppError::GenericError(_) => 500,
        _ => 501,
    }
}

/// The response body for each handler error: a fixed generic message for the
/// server-error class (detail is logged, never echoed), the error's own
/// description otherwise.
pub open spec fn spec_app_error_body(e: AppError) -> Seq<char> {
    if spec_app_error_status(e) == 500 {
        "Internal server error"@
    } else {
        spec_app_error_description(e)
    }
}

/// A short description of each handler error.
pub open spec fn spec_app_error_description(e: AppError) -> Seq<char> {
    match e {
        AppError::Doomed => "doomed to fail"@,
        AppError::Unlucky => "just plain unlucky"@,
        AppError::Unforseen => "unforseen consequences"@,
        AppError::TooLittleTooLate => "too little too late"@,
        AppError::Oops => "oops"@,
        AppError::ShouldNeverHappen => "strange! this should never happen..."@,
        AppError::BytesRejection(_) => "bytes rejection"@,
        AppError::CiboriumIoError(_) => "Ciborium IO error"@,
        AppError::GenericError(detail) => detail@,
    }
}

impl AppError {
    /// The status code this error is reported as.
    pub fn status_code(&self) -> (code: u16)
        ensures
            code == spec_app_error_status(*self),
    {
        match self {
            AppError::Doomed => 500,
            AppError::Unlucky => 421,
            AppError::TooLittleTooLate => 417,
            AppError::Oops => 418,
            AppError::GenericError(_) => 500,
            _ => 501,
        }
    }

    /// A short description of this error.
    pub fn description(&self) -> (body: String)
        ensures
            body@ == spec_app_error_description(*self),
    {
        match self {
            AppError::Doomed => String::from_str("doomed to fail"),
            AppError::Unlucky => String::from_str("just plain unlucky"),
            AppError::Unforseen => String::from_str("unforseen consequences"),
            AppError::TooLittleTooLate => String::from_str("too little too late"),
            AppError::Oops => String::from_str("oops"),
            AppError::ShouldNeverHappen => String::from_str(
                "strange! this should never happen...",
            ),
            AppError::BytesRejection(_) => String::from_str("bytes rejection"),
            AppError::CiboriumIoError(_) => String::from_str("Ciborium IO error"),
            AppError::GenericError(detail) => detail.clone(),
        }
    }

    /// The body returned to the caller: generic for the server-error class,
    /// the error's own description otherwise.
    pub fn response_body(&self) -> (body: String)
        ensures
            body@ == spec_app_error_body(*self),
    {
        let code = self.status_code();
        if code == 500 {
            String::from_str("Internal server error")
        } else {
            self.description()
        }
    }
}

} // verus!
