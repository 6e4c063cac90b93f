use vstd::prelude::*;

verus! {

/// Why a model backend could not answer.
#[derive(Debug, Clone, PartialEq, Eq)]
pub enum BackendError {
    Transport(String),
    ModelNotFound(String),
    Upstream { status: u16, body: String },
    StreamParse(String),
    Timeout,
}

/// The message of a backend error.
pub open spec fn backend_error_text(e: BackendError) -> Seq<char> {
    match e {
        BackendError::Transport(s) => "transport: "@ + s@,
        BackendError::ModelNotFound(s) => "model not found: "@ + s@,
        BackendError::Upstream { status, body } => "upstream "@ + crate::text::decimal(status as nat)
            + ": "@ + body@,
        BackendError::StreamParse(s) => "stream parse: "@ + s@,
        BackendError::Timeout => "timeout"@,
    }
}

impl BackendError {
    /// The human-readable message of this error.
    pub fn to_string(&self) -> (r: String)
        ensures
            r@ == backend_error_text(*self),
    {
        match self {
            BackendError::Transport(s) => String::from_str("transport: ").concat(s.as_str()),
            BackendError::ModelNotFound(s) => String::from_str("model not found: ").concat(
                s.as_str(),
            ),
            BackendError::Upstream { status, body } => {
                let code = crate::text::decimal_string(*status as u128);
                String::from_str("upstream ").concat(code.as_str()).concat(": ").concat(
                    body.as_str(),
                )
            },
            BackendError::StreamParse(s) => String::from_str("stream parse: ").concat(s.as_str()),
            BackendError::Timeout => String::from_str("timeout"),
        }
    }
}

} // verus!
