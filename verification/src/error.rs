//! The error type of every fallible operation of the client.
use vstd::prelude::*;

verus! {

/// The error type which is returned from zeebe processing failures.
///
/// The gRPC API for Zeebe is exposed through the gateway, which acts as a proxy
/// for the broker. Errors that occur between the gateway and the broker for
/// which the client is not at fault are reported through the `GRPC` variant
/// with the status code the gateway chose (`RESOURCE_EXHAUSTED` under
/// back-pressure, `UNAVAILABLE`, `INTERNAL`).
#[derive(Debug)]
pub enum ZeebeError {
    /// Error returned from invalid client gateway configuration.
    InvalidGatewayUri {
        /// The error message.
        message: String,
        /// The invalid uri argument.
        uri: String,
    },
    /// GRPC transport errors.
    Transport(tonic::transport::Error),
    /// GRPC result errors
    GRPC(tonic::Status),
    /// File I/O errors when reading processes from disk.
    FileIo {
        /// The specified resource file
        resource_file: String,
        /// The underlying `io::Error`.
        source: std::io::Error,
    },
    /// Invalid method parameters
    InvalidParameters(&'static str),
    /// Job payload deserialization error
    DeserializationError(serde_json::Error),
    /// Missing worker state configuration
    MissingWorkerStateConfig,
    /// Authentication failures
    Auth(String),
}

/// The result type returned by zeebe methods.
pub type Result<T> = core::result::Result<T, ZeebeError>;

/// Whether `r` is the `InvalidParameters` error carrying the message `msg`.
pub open spec fn is_invalid_parameters<T>(r: Result<T>, msg: &'static str) -> bool {
    r matches Err(ZeebeError::InvalidParameters(m)) && m@ == msg@
}

} // verus!
