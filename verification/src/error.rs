//! The error taxonomy of the supervisor core.

use vstd::prelude::*;

verus! {

/// Every failure the core can report, one variant per kind:
/// - `Configuration`: fatal start-up problems (bad settings, unbindable address);
/// - `LockContention`: a lifecycle method was called while another was in flight;
/// - `RequestTimeout`: a request ran past its configured per-request timeout;
/// - `Handler`: a failure raised by business logic, recovered into an envelope;
/// - `ExternalApi`: a non-success or malformed reply from a third-party service;
/// - `NotImplemented`: a capability a collaborator has not provided.
#[derive(Debug, Clone, PartialEq, Eq)]
pub enum AppError {
    Configuration(String),
    LockContention,
    RequestTimeout,
    Handler(String),
    ExternalApi(String),
    NotImplemented,
}

impl AppError {
    /// A human-readable description of the error.
    pub fn message(&self) -> (r: String)
        ensures
            self matches AppError::Configuration(m) ==> r@ == m@,
            self matches AppError::Handler(m) ==> r@ == m@,
            self matches AppError::ExternalApi(m) ==> r@ == m@,
            self is LockContention ==> r@ == "lifecycle operation already in flight"@,
            self is RequestTimeout ==> r@ == "request timed out"@,
            self is NotImplemented ==> r@ == "Not implemented"@,
    {
        match self {
            AppError::Configuration(m) => m.clone(),
            AppError::LockContention => "lifecycle operation already in flight".to_owned(),
            AppError::RequestTimeout => "request timed out".to_owned(),
            AppError::Handler(m) => m.clone(),
            AppError::ExternalApi(m) => m.clone(),
            AppError::NotImplemented => "Not implemented".to_owned(),
        }
    }
}

} // verus!
