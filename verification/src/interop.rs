//! Declarations of the types of other crates that the library carries, and
//! the trusted `Arc::clone` wrapper that several modules use.
use vstd::prelude::*;

verus! {

/// A gRPC status returned by the gateway; carried, never inspected.
#[verifier::external_type_specification]
#[verifier::external_body]
pub struct ExStatus(tonic::Status);

/// A transport-level failure of the gRPC stack; carried, never inspected.
#[verifier::external_type_specification]
#[verifier::external_body]
pub struct ExTransportError(tonic::transport::Error);

/// A balanced gRPC channel to the gateways.
#[verifier::external_type_specification]
#[verifier::external_body]
pub struct ExChannel(tonic::transport::Channel);

/// One configured gateway endpoint.
#[verifier::external_type_specification]
#[verifier::external_body]
pub struct ExEndpoint(tonic::transport::Endpoint);

/// TLS settings for the gateway connection.
#[verifier::external_type_specification]
#[verifier::external_body]
pub struct ExClientTlsConfig(tonic::transport::ClientTlsConfig);

/// A CA certificate in PEM form.
#[verifier::external_type_specification]
#[verifier::external_body]
pub struct ExCertificate(tonic::transport::Certificate);

/// An I/O failure (reading a resource file).
#[verifier::external_type_specification]
#[verifier::external_body]
pub struct ExIoError(std::io::Error);

/// A JSON (de)serialization failure.
#[verifier::external_type_specification]
#[verifier::external_body]
pub struct ExJsonError(serde_json::Error);

/// A JSON document.
#[verifier::external_type_specification]
#[verifier::external_body]
pub struct ExJsonValue(serde_json::Value);

/// A lock guarding shared state.
#[verifier::external_type_specification]
#[verifier::external_body]
#[verifier::reject_recursive_types(T)]
pub struct ExMutex<T: ?Sized>(std::sync::Mutex<T>);

/// The sending half of a broadcast channel.
#[verifier::external_type_specification]
#[verifier::external_body]
#[verifier::reject_recursive_types(T)]
pub struct ExBroadcastSender<T>(tokio::sync::broadcast::Sender<T>);

/// `Arc::clone`: the standard library documents that it makes another
/// pointer to the same allocation, so the contract says the clone is the
/// same value.
#[verifier::external_body]
pub(crate) fn share<T: ?Sized>(this: &std::sync::Arc<T>) -> (res: std::sync::Arc<T>)
    ensures
        res == *this,
{
    std::sync::Arc::clone(this)
}

} // verus!
