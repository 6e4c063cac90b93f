use vstd::prelude::*;

use crate::ports::llm_backend::{backend_error_text, BackendError};

verus! {

/// An error answered to an API client.
#[derive(Debug)]
pub enum AppError {
    BadRequest(String),
    Backend(BackendError),
    Internal(String),
}

impl AppError {
    /// The HTTP status the error is answered with.
    pub fn status_code(&self) -> (r: u16)
        ensures
            match self {
                AppError::BadRequest(_) => r == 400,
                AppError::Backend(_) => r == 502,
                AppError::Internal(_) => r == 500,
            },
    {
        match self {
            AppError::BadRequest(_) => 400,
            AppError::Backend(_) => 502,
            AppError::Internal(_) => 500,
        }
    }

    /// The message in the error body.
    pub fn response_message(&self) -> (r: String)
        ensures
            match self {
                AppError::BadRequest(m) => r@ == m@,
                AppError::Backend(e) => r@ == backend_error_text(*e),
                AppError::Internal(m) => r@ == m@,
            },
    {
        match self {
            AppError::BadRequest(m) => m.clone(),
            AppError::Backend(e) => e.to_string(),
            AppError::Internal(m) => m.clone(),
        }
    }

    /// The error's own message.
    pub fn to_string(&self) -> (r: String)
        ensures
            match self {
                AppError::BadRequest(m) => r@ == m@,
                AppError::Backend(e) => r@ == "backend error: "@ + backend_error_text(*e),
                AppError::Internal(m) => r@ == "internal error: "@ + m@,
            },
    {
        match self {
            AppError::BadRequest(m) => m.clone(),
            AppError::Backend(e) => String::from_str("backend error: ").concat(e.to_string().as_str()),
            AppError::Internal(m) => String::from_str("internal error: ").concat(m.as_str()),
        }
    }
}

impl From<BackendError> for AppError {
    fn from(e: BackendError) -> (r: Self) {
        AppError::Backend(e)
    }
}

impl vstd::std_specs::convert::FromSpecImpl<BackendError> for AppError {
    open spec fn obeys_from_spec() -> bool {
        true
    }

    open spec fn from_spec(e: BackendError) -> Self {
        AppError::Backend(e)
    }
}

} // verus!
