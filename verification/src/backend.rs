//! The signer backends: three interchangeable strategies behind one
//! capability surface. Every backend issues raw requests through its
//! transport; what differs is how a payload gets signed.

use vstd::prelude::*;
use crate::error::{RpcError, RpcErrorView};
use crate::frame_provider::{JsonRpcProvider, spec_accounts_request};
use crate::local_signer::{LocalKeySigner, LocalSignerView, spec_local_signature};
use crate::primitives::{Address, Digest, Signature};
use crate::remote_signer::{
    RemoteSignerMiddleware, RemoteSignerView, encoded_view, spec_sign_request,
};
use crate::signing::{personal_message_hash, transaction_sighash};
use crate::transport::{
    Expect, Params, ParamsView, RpcRequest, RpcRequestView, Transport, TransportView,
};

verus! {

/// One way of dispatching requests and producing signatures.
pub enum SignerBackend {
    /// Requests only; signing is unsupported.
    PassiveRpc(JsonRpcProvider),
    /// Signs locally with a decrypted private key.
    LocalKeySigner(LocalKeySigner),
    /// Delegates every signature to the node, by `eth_sign`.
    RemoteDelegatedSigner(RemoteSignerMiddleware),
}

/// The mathematical value of a [`SignerBackend`].
pub enum BackendView {
    PassiveRpc(TransportView),
    LocalKeySigner(LocalSignerView),
    RemoteDelegatedSigner(RemoteSignerView),
}

impl BackendView {
    /// The invariant of a backend, that of its variant.
    pub open spec fn wf(self) -> bool {
        match self {
            BackendView::PassiveRpc(t) => t.wf(),
            BackendView::LocalKeySigner(l) => l.wf(),
            BackendView::RemoteDelegatedSigner(r) => r.wf(),
        }
    }

    /// The transport that the backend wraps.
    pub open spec fn transport(self) -> TransportView {
        match self {
            BackendView::PassiveRpc(t) => t,
            BackendView::LocalKeySigner(l) => l.provider,
            BackendView::RemoteDelegatedSigner(r) => r.provider,
        }
    }

    /// The address that the backend signs for; a passive backend has none.
    pub open spec fn identity(self) -> Option<Seq<u8>> {
        match self {
            BackendView::PassiveRpc(_) => None,
            BackendView::LocalKeySigner(l) => Some(l.address),
            BackendView::RemoteDelegatedSigner(r) => Some(r.address),
        }
    }

    /// The same variant, with the same key, address and chain, around
    /// another transport.
    pub open spec fn rebuilt(self, transport: TransportView) -> BackendView {
        match self {
            BackendView::PassiveRpc(_) => BackendView::PassiveRpc(transport),
            BackendView::LocalKeySigner(l) => BackendView::LocalKeySigner(
                LocalSignerView { provider: transport, ..l },
            ),
            BackendView::RemoteDelegatedSigner(r) => BackendView::RemoteDelegatedSigner(
                RemoteSignerView { provider: transport, ..r },
            ),
        }
    }
}

impl View for SignerBackend {
    type V = BackendView;

    open spec fn view(&self) -> BackendView {
        match self {
            SignerBackend::PassiveRpc(p) => BackendView::PassiveRpc(p@),
            SignerBackend::LocalKeySigner(l) => BackendView::LocalKeySigner(l@),
            SignerBackend::RemoteDelegatedSigner(r) => BackendView::RemoteDelegatedSigner(r@),
        }
    }
}

impl Clone for SignerBackend {
    fn clone(&self) -> (res: SignerBackend)
        ensures
            res@ == self@,
    {
        match self {
            SignerBackend::PassiveRpc(p) => SignerBackend::PassiveRpc(p.clone()),
            SignerBackend::LocalKeySigner(l) => SignerBackend::LocalKeySigner(l.clone()),
            SignerBackend::RemoteDelegatedSigner(r) => SignerBackend::RemoteDelegatedSigner(
                r.clone(),
            ),
        }
    }
}

/// What a signing operation comes to where it does not fail: a signature
/// made on the spot, or the request that asks the node for one.
#[derive(Debug, PartialEq, Eq)]
pub enum Signing {
    /// The signature, made locally.
    Signed(Signature),
    /// The `eth_sign` request to send.
    Delegated(RpcRequest),
}

/// The mathematical value of a [`Signing`].
pub enum SigningView {
    Signed(Seq<u8>),
    Delegated(RpcRequestView),
}

impl View for Signing {
    type V = SigningView;

    open spec fn view(&self) -> SigningView {
        match self {
            Signing::Signed(s) => SigningView::Signed(s@),
            Signing::Delegated(r) => SigningView::Delegated(r@),
        }
    }
}

/// The mathematical value of the result of a signing operation.
pub open spec fn signing_view(res: Result<Signing, RpcError>) -> Result<SigningView, RpcErrorView> {
    match res {
        Ok(s) => Ok(s@),
        Err(e) => Err(e@),
    }
}

/// The mathematical value of an address that may be missing.
pub open spec fn identity_view(res: Result<Address, RpcError>) -> Result<Seq<u8>, RpcErrorView> {
    match res {
        Ok(a) => Ok(a@),
        Err(e) => Err(e@),
    }
}

/// What asking for an address gives: the address, or `NoActiveIdentity`
/// where there is none.
pub open spec fn spec_identity(identity: Option<Seq<u8>>) -> Result<Seq<u8>, RpcErrorView> {
    match identity {
        Some(a) => Ok(a),
        None => Err(RpcErrorView::NoActiveIdentity),
    }
}

/// The address of a backend: `NoActiveIdentity` for a passive one.
pub open spec fn spec_address(backend: BackendView) -> Result<Seq<u8>, RpcErrorView> {
    spec_identity(backend.identity())
}

/// The raw request of a backend: it goes through the backend's transport,
/// whichever the variant.
pub open spec fn spec_request(
    backend: BackendView,
    method: Seq<char>,
    params: ParamsView,
) -> RpcRequestView {
    RpcRequestView {
        url: backend.transport().url,
        origin: backend.transport().origin,
        method,
        params,
        expects: Expect::Json,
    }
}

/// How each backend signs a digest. A passive backend cannot. A local signer
/// signs with its key, with no request. A remote signer makes no signature:
/// it asks the node behind its own transport, by `eth_sign`.
pub open spec fn spec_sign_digest(backend: BackendView, digest: Seq<u8>) -> Result<
    SigningView,
    RpcErrorView,
> {
    match backend {
        BackendView::PassiveRpc(_) => Err(RpcErrorView::SigningUnsupported),
        BackendView::LocalKeySigner(l) => match spec_local_signature(l.key, digest) {
            Ok(s) => Ok(SigningView::Signed(s)),
            Err(e) => Err(e),
        },
        BackendView::RemoteDelegatedSigner(r) => Ok(
            SigningView::Delegated(spec_sign_request(r.provider, digest)),
        ),
    }
}

/// How each backend signs a message: it signs the personal-message hash of
/// the message.
pub open spec fn spec_sign_message(backend: BackendView, message: Seq<u8>) -> Result<
    SigningView,
    RpcErrorView,
> {
    spec_sign_digest(backend, personal_message_hash(message))
}

/// How each backend signs a transaction: it signs the signing hash of the
/// transaction's canonical encoding.
pub open spec fn spec_sign_transaction(backend: BackendView, encoded: Seq<u8>) -> Result<
    SigningView,
    RpcErrorView,
> {
    spec_sign_digest(backend, transaction_sighash(encoded))
}

/// How each backend signs a structured payload. Encoding comes first: a
/// payload that did not encode is an `EncodingError` under every backend,
/// before any request. The digest of one that did is signed as any digest.
pub open spec fn spec_sign_typed_data(
    backend: BackendView,
    encoded: Result<Seq<u8>, Seq<char>>,
) -> Result<SigningView, RpcErrorView> {
    match encoded {
        Ok(digest) => spec_sign_digest(backend, digest),
        Err(_) => Err(RpcErrorView::EncodingError),
    }
}

impl SignerBackend {
    /// Whether this backend meets the invariant of its variant.
    pub open spec fn wf(&self) -> bool {
        self@.wf()
    }

    /// The transport that this backend wraps. Every backend that exists
    /// meets the invariant of its variant, and this says so.
    pub fn transport(&self) -> (res: &Transport)
        ensures
            res@ == self@.transport(),
            self.wf(),
    {
        match self {
            SignerBackend::PassiveRpc(p) => {
                proof {
                    use_type_invariant(p);
                }
                p.inner()
            },
            SignerBackend::LocalKeySigner(l) => {
                proof {
                    use_type_invariant(l);
                }
                l.inner()
            },
            SignerBackend::RemoteDelegatedSigner(r) => {
                proof {
                    use_type_invariant(r);
                }
                r.inner()
            },
        }
    }

    /// The address this backend signs for: see [`spec_address`].
    pub fn address(&self) -> (res: Result<Address, RpcError>)
        ensures
            identity_view(res) == spec_address(self@),
    {
        match self {
            SignerBackend::PassiveRpc(_) => Err(RpcError::NoActiveIdentity),
            SignerBackend::LocalKeySigner(l) => Ok(l.address()),
            SignerBackend::RemoteDelegatedSigner(r) => Ok(r.address()),
        }
    }

    /// The request for a raw call: see [`spec_request`].
    pub fn request(&self, method: &str, params: Params) -> (res: RpcRequest)
        ensures
            res@ == spec_request(self@, method@, params@),
    {
        self.transport().request(method, params, Expect::Json)
    }

    /// The request that lists the node's accounts. It asks the node, not
    /// the signer, under every backend.
    pub fn get_accounts(&self) -> (res: RpcRequest)
        ensures
            res@ == spec_accounts_request(self@.transport()),
    {
        self.transport().request("eth_accounts", Params::Empty, Expect::Accounts)
    }

    /// Signs a digest: see [`spec_sign_digest`].
    pub fn sign_hash(&self, digest: &Digest) -> (res: Result<Signing, RpcError>)
        ensures
            signing_view(res) == spec_sign_digest(self@, digest@),
    {
        match self {
            SignerBackend::PassiveRpc(_) => Err(RpcError::SigningUnsupported),
            SignerBackend::LocalKeySigner(l) => match l.sign_hash(digest) {
                Ok(s) => Ok(Signing::Signed(s)),
                Err(e) => Err(e),
            },
            SignerBackend::RemoteDelegatedSigner(r) => Ok(Signing::Delegated(r.sign_hash(digest))),
        }
    }

    /// Signs a message: see [`spec_sign_message`].
    pub fn sign_message(&self, message: &[u8]) -> (res: Result<Signing, RpcError>)
        ensures
            signing_view(res) == spec_sign_message(self@, message@),
    {
        match self {
            SignerBackend::PassiveRpc(_) => Err(RpcError::SigningUnsupported),
            SignerBackend::LocalKeySigner(l) => match l.sign_message(message) {
                Ok(s) => Ok(Signing::Signed(s)),
                Err(e) => Err(e),
            },
            SignerBackend::RemoteDelegatedSigner(r) => Ok(
                Signing::Delegated(r.sign_message(message)),
            ),
        }
    }

    /// Signs a transaction, given by its canonical encoding: see
    /// [`spec_sign_transaction`].
    pub fn sign_transaction(&self, encoded: &[u8]) -> (res: Result<Signing, RpcError>)
        ensures
            signing_view(res) == spec_sign_transaction(self@, encoded@),
    {
        match self {
            SignerBackend::PassiveRpc(_) => Err(RpcError::SigningUnsupported),
            SignerBackend::LocalKeySigner(l) => match l.sign_transaction(encoded) {
                Ok(s) => Ok(Signing::Signed(s)),
                Err(e) => Err(e),
            },
            SignerBackend::RemoteDelegatedSigner(r) => Ok(
                Signing::Delegated(r.sign_transaction(encoded)),
            ),
        }
    }

    /// Signs a structured payload, given what encoding it came to: see
    /// [`spec_sign_typed_data`].
    pub fn sign_typed_data(&self, encoded: Result<Digest, String>) -> (res: Result<
        Signing,
        RpcError,
    >)
        ensures
            signing_view(res) == spec_sign_typed_data(self@, encoded_view(encoded)),
    {
        match encoded {
            Ok(payload) => self.sign_hash(&payload),
            Err(_) => Err(RpcError::EncodingError),
        }
    }

    /// The same backend around another transport: the variant, the key, the
    /// address and the chain stay.
    pub fn rebuild(self, transport: Transport) -> (res: SignerBackend)
        ensures
            res.wf(),
            res@ == self@.rebuilt(transport@),
    {
        match self {
            SignerBackend::PassiveRpc(_) => {
                let passive = JsonRpcProvider::wrap(transport);
                proof {
                    use_type_invariant(&passive);
                }
                SignerBackend::PassiveRpc(passive)
            },
            SignerBackend::LocalKeySigner(l) => {
                let local = l.with_provider(transport);
                proof {
                    use_type_invariant(&local);
                }
                SignerBackend::LocalKeySigner(local)
            },
            SignerBackend::RemoteDelegatedSigner(r) => {
                let remote = r.with_provider(transport);
                proof {
                    use_type_invariant(&remote);
                }
                SignerBackend::RemoteDelegatedSigner(remote)
            },
        }
    }
}

} // verus!
