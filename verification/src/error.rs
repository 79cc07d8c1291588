//! The ways a call against one endpoint can fail.

use vstd::prelude::*;
use vstd::std_specs::convert::FromSpecImpl;

verus! {

/// hyper's error for a failed exchange with a server. Nothing is known of its contents.
#[verifier::external_type_specification]
#[verifier::external_body]
pub struct ExHttpError(hyper::Error);

/// hyper's error for a text that is no URI. Nothing is known of its contents.
#[verifier::external_type_specification]
#[verifier::external_body]
pub struct ExUriError(hyper::error::UriError);

/// serde_json's error for a body that could not be decoded. Nothing is known of its
/// contents.
#[verifier::external_type_specification]
#[verifier::external_body]
pub struct ExJsonError(serde_json::Error);

/// An error the etcd API itself answered with.
#[derive(Clone, Debug, PartialEq, Eq, Hash)]
pub struct ApiError {
    /// The key that was being operated on, or reason for the failure.
    pub cause: Option<String>,
    /// The etcd error code.
    pub error_code: u64,
    /// The etcd index.
    pub index: u64,
    /// A human-friendly description of the error.
    pub message: String,
}

/// Why a call against one endpoint failed.
#[derive(Debug)]
pub enum EtcdError {
    /// The server answered, with an error of its own.
    Api(ApiError),
    /// The exchange with the server failed.
    Http(hyper::Error),
    /// The URL of the request is no valid URI.
    InvalidUri(hyper::error::UriError),
    /// The body of the response could not be decoded.
    Serialization(serde_json::Error),
}

impl From<hyper::Error> for EtcdError {
    fn from(error: hyper::Error) -> (converted: EtcdError) {
        EtcdError::Http(error)
    }
}

impl FromSpecImpl<hyper::Error> for EtcdError {
    open spec fn obeys_from_spec() -> bool {
        true
    }

    open spec fn from_spec(error: hyper::Error) -> EtcdError {
        EtcdError::Http(error)
    }
}

impl From<hyper::error::UriError> for EtcdError {
    fn from(error: hyper::error::UriError) -> (converted: EtcdError) {
        EtcdError::InvalidUri(error)
    }
}

impl FromSpecImpl<hyper::error::UriError> for EtcdError {
    open spec fn obeys_from_spec() -> bool {
        true
    }

    open spec fn from_spec(error: hyper::error::UriError) -> EtcdError {
        EtcdError::InvalidUri(error)
    }
}

impl From<serde_json::Error> for EtcdError {
    fn from(error: serde_json::Error) -> (converted: EtcdError) {
        EtcdError::Serialization(error)
    }
}

impl FromSpecImpl<serde_json::Error> for EtcdError {
    open spec fn obeys_from_spec() -> bool {
        true
    }

    open spec fn from_spec(error: serde_json::Error) -> EtcdError {
        EtcdError::Serialization(error)
    }
}

} // verus!
