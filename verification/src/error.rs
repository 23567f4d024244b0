//! The failures that an operation of this library can report.

use vstd::prelude::*;

verus! {

/// Why an operation failed. Every failure belongs to the one operation that
/// met it; none is retried and none ends the process.
#[derive(Debug, PartialEq, Eq)]
pub enum RpcError {
    /// The endpoint text is not a URL.
    InvalidEndpoint,
    /// A request could not be carried out: the call's method and the cause.
    TransportError { method: String, cause: String },
    /// The keystore gave no usable private key.
    KeystoreError { cause: String },
    /// No account address is set.
    NoActiveIdentity,
    /// The active backend cannot sign.
    SigningUnsupported,
    /// A structured payload could not be encoded for signing.
    EncodingError,
    /// The parameter text of a passthrough call is not a JSON array.
    ParamsDecodeError,
    /// The bytes given for an address are not twenty.
    AddressDecodeError,
}

/// The mathematical value of an [`RpcError`].
pub enum RpcErrorView {
    InvalidEndpoint,
    TransportError { method: Seq<char>, cause: Seq<char> },
    KeystoreError { cause: Seq<char> },
    NoActiveIdentity,
    SigningUnsupported,
    EncodingError,
    ParamsDecodeError,
    AddressDecodeError,
}

impl View for RpcError {
    type V = RpcErrorView;

    open spec fn view(&self) -> RpcErrorView {
        match self {
            RpcError::InvalidEndpoint => RpcErrorView::InvalidEndpoint,
            RpcError::TransportError { method, cause } => RpcErrorView::TransportError {
                method: method@,
                cause: cause@,
            },
            RpcError::KeystoreError { cause } => RpcErrorView::KeystoreError { cause: cause@ },
            RpcError::NoActiveIdentity => RpcErrorView::NoActiveIdentity,
            RpcError::SigningUnsupported => RpcErrorView::SigningUnsupported,
            RpcError::EncodingError => RpcErrorView::EncodingError,
            RpcError::ParamsDecodeError => RpcErrorView::ParamsDecodeError,
            RpcError::AddressDecodeError => RpcErrorView::AddressDecodeError,
        }
    }
}

impl Clone for RpcError {
    fn clone(&self) -> (res: RpcError)
        ensures
            res@ == self@,
    {
        match self {
            RpcError::InvalidEndpoint => RpcError::InvalidEndpoint,
            RpcError::TransportError { method, cause } => RpcError::TransportError {
                method: method.clone(),
                cause: cause.clone(),
            },
            RpcError::KeystoreError { cause } => RpcError::KeystoreError { cause: cause.clone() },
            RpcError::NoActiveIdentity => RpcError::NoActiveIdentity,
            RpcError::SigningUnsupported => RpcError::SigningUnsupported,
            RpcError::EncodingError => RpcError::EncodingError,
            RpcError::ParamsDecodeError => RpcError::ParamsDecodeError,
            RpcError::AddressDecodeError => RpcError::AddressDecodeError,
        }
    }
}

} // verus!
