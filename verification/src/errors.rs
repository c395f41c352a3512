//! The gateway's error kinds and how the stages' failures fold into the one
//! client-visible kind.

use vstd::prelude::*;

verus! {

/// A failure found while validating the incoming request, before any backend
/// work is considered.
#[derive(Debug, Clone, Copy, PartialEq, Eq, Structural)]
pub enum ValidationError {
    /// The query string carries no `url` parameter.
    MissingUrl,
    /// The `url` parameter is present but does not declare an http or https
    /// scheme.
    InvalidScheme,
}

/// A failure of the backend exchange: transport trouble, or a reply whose
/// shape is not the documented one.
#[derive(Debug, Clone, Copy, PartialEq, Eq, Structural)]
pub enum BackendError {
    /// The backend connection could not be opened.
    ConnectFailed,
    /// The connection opened but reading or writing on it failed, or it
    /// closed before a reply arrived.
    IoFailed,
    /// The reply arrived but does not have the documented shape.
    MalformedResponse,
}

/// Every failure the pipeline can surface, at any stage; the error mapper
/// turns exactly these into client-visible payloads.
#[derive(Debug, Clone, Copy, PartialEq, Eq, Structural)]
pub enum GatewayError {
    MissingUrl,
    InvalidUrlScheme,
    BackendConnectFailed,
    BackendIoFailed,
    BackendMalformedResponse,
    /// The backend answered, but with an explicit error report instead of
    /// content.
    BackendReportedError,
    CompressionFailed,
    ResponseWriteFailed,
}

/// How a validation failure surfaces to the client.
pub open spec fn spec_of_validation(e: ValidationError) -> GatewayError {
    match e {
        ValidationError::MissingUrl => GatewayError::MissingUrl,
        ValidationError::InvalidScheme => GatewayError::InvalidUrlScheme,
    }
}

/// Folds a validation failure into the client-visible kind.
pub fn of_validation(e: ValidationError) -> (r: GatewayError)
    ensures
        r == spec_of_validation(e),
{
    match e {
        ValidationError::MissingUrl => GatewayError::MissingUrl,
        ValidationError::InvalidScheme => GatewayError::InvalidUrlScheme,
    }
}

/// How a backend failure surfaces to the client.
pub open spec fn spec_of_backend(e: BackendError) -> GatewayError {
    match e {
        BackendError::ConnectFailed => GatewayError::BackendConnectFailed,
        BackendError::IoFailed => GatewayError::BackendIoFailed,
        BackendError::MalformedResponse => GatewayError::BackendMalformedResponse,
    }
}

/// Folds a backend failure into the client-visible kind.
pub fn of_backend(e: BackendError) -> (r: GatewayError)
    ensures
        r == spec_of_backend(e),
{
    match e {
        BackendError::ConnectFailed => GatewayError::BackendConnectFailed,
        BackendError::IoFailed => GatewayError::BackendIoFailed,
        BackendError::MalformedResponse => GatewayError::BackendMalformedResponse,
    }
}

} // verus!
