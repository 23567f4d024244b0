//! The remote delegated signer: it holds no key. Every signing operation
//! becomes an `eth_sign` call against the signer's own transport, and the
//! remote side is trusted to hold the key of the signer's address.

use vstd::prelude::*;
use crate::error::{RpcError, RpcErrorView};
use crate::primitives::{Address, Digest, Signature};
use crate::signing::{hash_message, personal_message_hash, sighash, transaction_sighash};
use crate::transport::{
    Expect, Params, ParamsView, Reply, ReplyView, RpcRequest, RpcRequestView, Transport,
    TransportView, unexpected_reply,
};

verus! {

/// A signer that delegates to the node behind its transport.
#[derive(Debug, PartialEq, Eq)]
pub struct RemoteSignerMiddleware {
    provider: Transport,
    chain_id: u64,
    address: Address,
}

/// The mathematical value of a [`RemoteSignerMiddleware`].
pub struct RemoteSignerView {
    pub provider: TransportView,
    pub chain_id: u64,
    pub address: Seq<u8>,
}

/// Why a remote signing operation failed.
#[derive(Debug, PartialEq, Eq)]
pub enum RemoteSignerMiddlewareError {
    /// The `eth_sign` call failed; the text is the cause.
    ProviderError(String),
    /// The structured payload could not be encoded; the text says why.
    Eip712Error(String),
}

/// The mathematical value of a [`RemoteSignerMiddlewareError`].
pub enum RemoteSignerErrorView {
    ProviderError(Seq<char>),
    Eip712Error(Seq<char>),
}

impl View for RemoteSignerMiddlewareError {
    type V = RemoteSignerErrorView;

    open spec fn view(&self) -> RemoteSignerErrorView {
        match self {
            RemoteSignerMiddlewareError::ProviderError(cause) => {
                RemoteSignerErrorView::ProviderError(cause@)
            },
            RemoteSignerMiddlewareError::Eip712Error(cause) => RemoteSignerErrorView::Eip712Error(
                cause@,
            ),
        }
    }
}

/// The method of every delegated signing call.
pub open spec fn eth_sign() -> Seq<char> {
    "eth_sign"@
}

/// The request that asks the node at `provider` to sign `digest`: an
/// `eth_sign` call with the digest as its one parameter.
pub open spec fn spec_sign_request(provider: TransportView, digest: Seq<u8>) -> RpcRequestView {
    RpcRequestView {
        url: provider.url,
        origin: provider.origin,
        method: eth_sign(),
        params: ParamsView::Digest(digest),
        expects: Expect::Signature,
    }
}

/// The library-wide error for a failure of the remote signer: a failed call
/// is a transport error of `eth_sign`, a payload that does not encode is an
/// encoding error.
pub open spec fn spec_rpc_error(error: RemoteSignerErrorView) -> RpcErrorView {
    match error {
        RemoteSignerErrorView::ProviderError(cause) => RpcErrorView::TransportError {
            method: eth_sign(),
            cause,
        },
        RemoteSignerErrorView::Eip712Error(_) => RpcErrorView::EncodingError,
    }
}

/// What the reply to an `eth_sign` call means: the signature exactly as it
/// came, or the cause of the failure; a reply of another kind is a failure
/// too.
pub open spec fn spec_signature_reply(reply: ReplyView) -> Result<Seq<u8>, RemoteSignerErrorView> {
    match reply {
        ReplyView::Signature(s) => Ok(s),
        ReplyView::Failed(cause) => Err(RemoteSignerErrorView::ProviderError(cause)),
        _ => Err(RemoteSignerErrorView::ProviderError(unexpected_reply())),
    }
}

/// The mathematical value of the result of a signing call.
pub open spec fn signature_result_view(
    res: Result<Signature, RemoteSignerMiddlewareError>,
) -> Result<Seq<u8>, RemoteSignerErrorView> {
    match res {
        Ok(s) => Ok(s@),
        Err(e) => Err(e@),
    }
}

/// The mathematical value of an encoded payload: the digest, or why there is
/// none.
pub open spec fn encoded_view(encoded: Result<Digest, String>) -> Result<Seq<u8>, Seq<char>> {
    match encoded {
        Ok(d) => Ok(d@),
        Err(cause) => Err(cause@),
    }
}

/// What signing a structured payload asks of the node: nothing where the
/// payload did not encode, else the signing of its digest.
pub open spec fn spec_typed_data_request(
    provider: TransportView,
    encoded: Result<Seq<u8>, Seq<char>>,
) -> Result<RpcRequestView, RemoteSignerErrorView> {
    match encoded {
        Ok(digest) => Ok(spec_sign_request(provider, digest)),
        Err(cause) => Err(RemoteSignerErrorView::Eip712Error(cause)),
    }
}

/// The mathematical value of a request that may have failed before it was
/// made.
pub open spec fn request_result_view(
    res: Result<RpcRequest, RemoteSignerMiddlewareError>,
) -> Result<RpcRequestView, RemoteSignerErrorView> {
    match res {
        Ok(r) => Ok(r@),
        Err(e) => Err(e@),
    }
}

impl RemoteSignerMiddlewareError {
    /// This failure as a library-wide error: see [`spec_rpc_error`].
    pub fn into_rpc_error(self) -> (res: RpcError)
        ensures
            res@ == spec_rpc_error(self@),
    {
        match self {
            RemoteSignerMiddlewareError::ProviderError(cause) => RpcError::TransportError {
                method: "eth_sign".to_owned(),
                cause,
            },
            RemoteSignerMiddlewareError::Eip712Error(_) => RpcError::EncodingError,
        }
    }
}

impl View for RemoteSignerMiddleware {
    type V = RemoteSignerView;

    closed spec fn view(&self) -> RemoteSignerView {
        RemoteSignerView {
            provider: self.provider@,
            chain_id: self.chain_id,
            address: self.address@,
        }
    }
}

impl Clone for RemoteSignerMiddleware {
    fn clone(&self) -> (res: RemoteSignerMiddleware)
        ensures
            res@ == self@,
    {
        proof {
            use_type_invariant(self);
        }
        RemoteSignerMiddleware {
            provider: self.provider.clone(),
            chain_id: self.chain_id,
            address: self.address,
        }
    }
}

impl RemoteSignerView {
    /// The invariant of a remote signer: its transport is well formed and
    /// its address has twenty bytes.
    pub open spec fn wf(self) -> bool {
        self.provider.wf() && self.address.len() == 20
    }
}

impl RemoteSignerMiddleware {
    /// The invariant of the type: every remote signer that exists meets it.
    #[verifier::type_invariant]
    pub open spec fn wf(&self) -> bool {
        self@.wf()
    }

    /// The signer for `address` on chain `chain_id`, delegating through
    /// `provider`.
    pub fn new(provider: Transport, chain_id: u64, address: Address) -> (res:
        RemoteSignerMiddleware)
        ensures
            res@ == (RemoteSignerView { provider: provider@, chain_id, address: address@ }),
    {
        proof {
            use_type_invariant(&provider);
        }
        RemoteSignerMiddleware { provider, chain_id, address }
    }

    /// The transport that this signer delegates through.
    pub fn inner(&self) -> (res: &Transport)
        ensures
            res@ == self@.provider,
    {
        &self.provider
    }

    /// The address whose key the remote side is trusted to hold.
    pub fn address(&self) -> (res: Address)
        ensures
            res@ == self@.address,
    {
        self.address
    }

    /// The chain identifier that this signer was made with.
    pub fn chain_id(&self) -> (res: u64)
        ensures
            res == self@.chain_id,
    {
        self.chain_id
    }

    /// The same signer on another chain.
    pub fn with_chain_id(self, chain_id: u64) -> (res: RemoteSignerMiddleware)
        ensures
            res@ == (RemoteSignerView { chain_id, ..self@ }),
    {
        proof {
            use_type_invariant(&self);
        }
        RemoteSignerMiddleware { provider: self.provider, chain_id, address: self.address }
    }

    /// The same signer behind another transport.
    pub fn with_provider(self, provider: Transport) -> (res: RemoteSignerMiddleware)
        ensures
            res@ == (RemoteSignerView { provider: provider@, ..self@ }),
    {
        proof {
            use_type_invariant(&provider);
        }
        RemoteSignerMiddleware { provider, chain_id: self.chain_id, address: self.address }
    }

    /// The request that signs a digest: see [`spec_sign_request`].
    pub fn sign_hash(&self, digest: &Digest) -> (res: RpcRequest)
        ensures
            res@ == spec_sign_request(self@.provider, digest@),
    {
        self.provider.request("eth_sign", Params::Digest(*digest), Expect::Signature)
    }

    /// The request that signs a message: the personal-message hash of the
    /// message is computed here, and the node is asked to sign that digest.
    pub fn sign_message(&self, message: &[u8]) -> (res: RpcRequest)
        ensures
            res@ == spec_sign_request(self@.provider, personal_message_hash(message@)),
    {
        let message_hash = hash_message(message);
        self.sign_hash(&message_hash)
    }

    /// The request that signs a transaction, given by its canonical
    /// encoding: the signing hash of the encoding is computed here, and the
    /// node is asked to sign that digest.
    pub fn sign_transaction(&self, encoded: &[u8]) -> (res: RpcRequest)
        ensures
            res@ == spec_sign_request(self@.provider, transaction_sighash(encoded@)),
    {
        let digest = sighash(encoded);
        self.sign_hash(&digest)
    }

    /// The request that signs a structured payload, given what encoding the
    /// payload came to. A payload that did not encode fails here, before any
    /// request is made: see [`spec_typed_data_request`].
    pub fn sign_typed_data(&self, encoded: Result<Digest, String>) -> (res: Result<
        RpcRequest,
        RemoteSignerMiddlewareError,
    >)
        ensures
            request_result_view(res) == spec_typed_data_request(
                self@.provider,
                encoded_view(encoded),
            ),
    {
        match encoded {
            Ok(payload) => Ok(self.sign_hash(&payload)),
            Err(cause) => Err(RemoteSignerMiddlewareError::Eip712Error(cause)),
        }
    }

    /// Reads the reply to a signing request: see [`spec_signature_reply`].
    pub fn signature(reply: &Reply) -> (res: Result<Signature, RemoteSignerMiddlewareError>)
        ensures
            signature_result_view(res) == spec_signature_reply(reply@),
    {
        match reply {
            Reply::Signature(s) => Ok(*s),
            Reply::Failed(cause) => Err(RemoteSignerMiddlewareError::ProviderError(cause.clone())),
            _ => Err(RemoteSignerMiddlewareError::ProviderError("unexpected reply".to_owned())),
        }
    }
}

} // verus!
