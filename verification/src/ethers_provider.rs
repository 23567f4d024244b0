//! The provider that the host talks to. It holds the one active signer
//! backend, the chain identifier and the current account address, and turns
//! each host call into a step: a result that is known at once, or the
//! request whose reply will decide it.

use vstd::prelude::*;
use crate::backend::{
    BackendView, SignerBackend, Signing, SigningView, identity_view, spec_identity, spec_request,
    spec_sign_digest,
};
use crate::error::{RpcError, RpcErrorView};
use crate::frame_provider::{JsonRpcProvider, eth_accounts, spec_accounts_request};
use crate::json::{decode_params, json_array_items, spec_params};
use crate::local_signer::{LocalKeySigner, LocalSignerView, invalid_key};
use crate::primitives::{Address, Digest};
use crate::remote_signer::{RemoteSignerMiddleware, RemoteSignerView, eth_sign};
use crate::signing::{
    hash_message, is_private_key, key_address, personal_message_hash, sighash,
    transaction_sighash,
};
use crate::transport::{
    Answer, AnswerView, Expect, Reply, ReplyView, RpcRequest, RpcRequestView, Transport,
    TransportView, default_url, outcome_view, response, spec_response, url_parses,
};

verus! {

/// The chain that a new provider targets: Ethereum mainnet.
pub const DEFAULT_CHAIN_ID: u64 = 1;

/// The provider: exactly one active backend, the chain identifier, and the
/// account address once there is one.
pub struct EthersProvider {
    chain_id: u64,
    address: Option<Address>,
    active_provider: SignerBackend,
}

/// The mathematical value of an [`EthersProvider`].
pub struct ProviderView {
    pub chain_id: u64,
    pub address: Option<Seq<u8>>,
    pub backend: BackendView,
}

impl ProviderView {
    /// The invariant of a provider: its backend is well formed, and the
    /// current address is the one that the active backend signs for, so a
    /// passive backend goes with no address.
    pub open spec fn wf(self) -> bool {
        self.backend.wf() && self.address == self.backend.identity()
    }
}

/// The bytes of an optional address.
pub open spec fn current_view(address: Option<Address>) -> Option<Seq<u8>> {
    match address {
        Some(a) => Some(a@),
        None => None,
    }
}

impl View for EthersProvider {
    type V = ProviderView;

    closed spec fn view(&self) -> ProviderView {
        ProviderView {
            chain_id: self.chain_id,
            address: current_view(self.address),
            backend: self.active_provider@,
        }
    }
}

impl Clone for EthersProvider {
    fn clone(&self) -> (res: EthersProvider)
        ensures
            res@ == self@,
    {
        proof {
            use_type_invariant(self);
        }
        EthersProvider {
            chain_id: self.chain_id,
            address: self.address,
            active_provider: self.active_provider.clone(),
        }
    }
}

/// One call of the host.
#[derive(Debug, PartialEq, Eq)]
pub enum Call {
    /// List the node's accounts.
    GetAccounts,
    /// Sign a text message.
    SignMessage { message: String },
    /// Sign a transaction, given by its canonical encoding.
    SignTransaction { encoded: Vec<u8> },
    /// Pass a method and its parameters, a JSON array as text, to the node.
    Request { method: String, params_json: String },
}

/// The mathematical value of a [`Call`].
pub enum CallView {
    GetAccounts,
    SignMessage { message: Seq<char> },
    SignTransaction { encoded: Seq<u8> },
    Request { method: Seq<char>, params_json: Seq<char> },
}

impl View for Call {
    type V = CallView;

    open spec fn view(&self) -> CallView {
        match self {
            Call::GetAccounts => CallView::GetAccounts,
            Call::SignMessage { message } => CallView::SignMessage { message: message@ },
            Call::SignTransaction { encoded } => CallView::SignTransaction { encoded: encoded@ },
            Call::Request { method, params_json } => CallView::Request {
                method: method@,
                params_json: params_json@,
            },
        }
    }
}

impl Clone for Call {
    fn clone(&self) -> (res: Call)
        ensures
            res@ == self@,
    {
        match self {
            Call::GetAccounts => Call::GetAccounts,
            Call::SignMessage { message } => Call::SignMessage { message: message.clone() },
            Call::SignTransaction { encoded } => Call::SignTransaction { encoded: encoded.clone() },
            Call::Request { method, params_json } => Call::Request {
                method: method.clone(),
                params_json: params_json.clone(),
            },
        }
    }
}

impl CallView {
    /// The JSON-RPC method that the call goes out under.
    pub open spec fn method(self) -> Seq<char> {
        match self {
            CallView::GetAccounts => eth_accounts(),
            CallView::SignMessage { .. } => eth_sign(),
            CallView::SignTransaction { .. } => eth_sign(),
            CallView::Request { method, .. } => method,
        }
    }

    /// The kind of reply that the call waits for.
    pub open spec fn expects(self) -> Expect {
        match self {
            CallView::GetAccounts => Expect::Accounts,
            CallView::SignMessage { .. } => Expect::Signature,
            CallView::SignTransaction { .. } => Expect::Signature,
            CallView::Request { .. } => Expect::Json,
        }
    }
}

/// What a call comes to before any reply: its result, where no request is
/// needed, or the one request to send.
#[derive(Debug, PartialEq, Eq)]
pub enum Step {
    /// The call is complete.
    Done(Result<Answer, RpcError>),
    /// The call waits for the reply to this request.
    Send(RpcRequest),
}

/// The mathematical value of a [`Step`].
pub enum StepView {
    Done(Result<AnswerView, RpcErrorView>),
    Send(RpcRequestView),
}

impl View for Step {
    type V = StepView;

    open spec fn view(&self) -> StepView {
        match self {
            Step::Done(outcome) => StepView::Done(outcome_view(*outcome)),
            Step::Send(request) => StepView::Send(request@),
        }
    }
}

/// The step of a signing call of the host. Without a current address the
/// call fails with `NoActiveIdentity`. With one, the active backend signs
/// the digest: a local signature completes the call at once, a delegated one
/// sends the `eth_sign` request.
pub open spec fn spec_sign_step(provider: ProviderView, digest: Seq<u8>) -> StepView {
    match provider.address {
        None => StepView::Done(Err(RpcErrorView::NoActiveIdentity)),
        Some(_) => match spec_sign_digest(provider.backend, digest) {
            Ok(SigningView::Signed(s)) => StepView::Done(Ok(AnswerView::Signature(s))),
            Ok(SigningView::Delegated(request)) => StepView::Send(request),
            Err(e) => StepView::Done(Err(e)),
        },
    }
}

/// The step of a passthrough call. The parameter text is decoded first:
/// text that is not a JSON array fails with `ParamsDecodeError` and nothing
/// is sent. Else the method and the decoded parameters go to the node
/// through the active backend.
pub open spec fn spec_request_step(
    provider: ProviderView,
    method: Seq<char>,
    params_json: Seq<char>,
) -> StepView {
    match spec_params(json_array_items(params_json)) {
        Ok(params) => StepView::Send(spec_request(provider.backend, method, params)),
        Err(e) => StepView::Done(Err(e)),
    }
}

/// The bytes of a text message: its UTF-8 encoding.
pub open spec fn message_bytes(message: Seq<char>) -> Seq<u8> {
    vstd::utf8::encode_utf8(message)
}

/// The step of each call under a provider.
pub open spec fn spec_dispatch(provider: ProviderView, call: CallView) -> StepView {
    match call {
        CallView::GetAccounts => StepView::Send(
            spec_accounts_request(provider.backend.transport()),
        ),
        CallView::SignMessage { message } => spec_sign_step(
            provider,
            personal_message_hash(message_bytes(message)),
        ),
        CallView::SignTransaction { encoded } => spec_sign_step(
            provider,
            transaction_sighash(encoded),
        ),
        CallView::Request { method, params_json } => spec_request_step(
            provider,
            method,
            params_json,
        ),
    }
}

/// What the reply to the request of a call means to the caller: see
/// [`spec_response`].
pub open spec fn spec_settle(call: CallView, reply: ReplyView) -> Result<AnswerView, RpcErrorView> {
    spec_response(call.method(), call.expects(), reply)
}

/// A decrypted keystore as the host hands it over: the private key, or the
/// cause for which there is none.
pub open spec fn unlocked_view(unlocked: Result<Vec<u8>, String>) -> Result<Seq<u8>, Seq<char>> {
    match unlocked {
        Ok(key) => Ok(key@),
        Err(cause) => Err(cause@),
    }
}

/// The provider after a try to activate a local signer. A keystore that did
/// not open, and one whose content is no private key, leave the provider as
/// it was. A private key makes a local signer around the transport in use,
/// and the address derived from the key becomes the current one.
pub open spec fn spec_activate_local(
    provider: ProviderView,
    unlocked: Result<Seq<u8>, Seq<char>>,
) -> ProviderView {
    match unlocked {
        Ok(key) => if is_private_key(key) {
            ProviderView {
                chain_id: provider.chain_id,
                address: key_address(key),
                backend: BackendView::LocalKeySigner(
                    LocalSignerView {
                        provider: provider.backend.transport(),
                        key,
                        address: key_address(key)->0,
                    },
                ),
            }
        } else {
            provider
        },
        Err(_) => provider,
    }
}

/// What a try to activate a local signer returns: the derived address, or a
/// `KeystoreError` with the cause.
pub open spec fn spec_activate_local_result(unlocked: Result<Seq<u8>, Seq<char>>) -> Result<
    Seq<u8>,
    RpcErrorView,
> {
    match unlocked {
        Ok(key) => if is_private_key(key) {
            Ok(key_address(key)->0)
        } else {
            Err(RpcErrorView::KeystoreError { cause: invalid_key() })
        },
        Err(cause) => Err(RpcErrorView::KeystoreError { cause }),
    }
}

/// The provider after a try to activate a remote signer. Bytes that are not
/// twenty leave the provider as it was. Twenty bytes make a remote signer
/// around the transport in use, for the configured chain, and become the
/// current address.
pub open spec fn spec_activate_remote(provider: ProviderView, address: Seq<u8>) -> ProviderView {
    if address.len() == 20 {
        ProviderView {
            chain_id: provider.chain_id,
            address: Some(address),
            backend: BackendView::RemoteDelegatedSigner(
                RemoteSignerView {
                    provider: provider.backend.transport(),
                    chain_id: provider.chain_id,
                    address,
                },
            ),
        }
    } else {
        provider
    }
}

/// What a try to activate a remote signer returns: the address, or
/// `AddressDecodeError`.
pub open spec fn spec_activate_remote_result(address: Seq<u8>) -> Result<Seq<u8>, RpcErrorView> {
    if address.len() == 20 {
        Ok(address)
    } else {
        Err(RpcErrorView::AddressDecodeError)
    }
}

/// The provider after a try to change the endpoint. Text that is not a URL
/// leaves the provider as it was. A URL makes a new transport, with the
/// `Origin` header of the old one, and the active backend is built again
/// around it: same variant, same key, same address, same chain.
pub open spec fn spec_set_endpoint(provider: ProviderView, url: Seq<char>) -> ProviderView {
    if url_parses(url) {
        ProviderView {
            backend: provider.backend.rebuilt(
                TransportView { url, origin: provider.backend.transport().origin },
            ),
            ..provider
        }
    } else {
        provider
    }
}

impl EthersProvider {
    /// The invariant of the type: every provider that exists meets it.
    #[verifier::type_invariant]
    pub open spec fn wf(&self) -> bool {
        self@.wf()
    }

    /// A new provider: passive, against the default endpoint, on the default
    /// chain, with no address.
    pub fn new(origin: &str) -> (res: EthersProvider)
        ensures
            res@ == (ProviderView {
                chain_id: DEFAULT_CHAIN_ID,
                address: None,
                backend: BackendView::PassiveRpc(
                    TransportView { url: default_url(), origin: origin@ },
                ),
            }),
    {
        let passive = JsonRpcProvider::new(origin);
        proof {
            use_type_invariant(&passive);
        }
        EthersProvider {
            chain_id: DEFAULT_CHAIN_ID,
            address: None,
            active_provider: SignerBackend::PassiveRpc(passive),
        }
    }

    /// The configured chain identifier.
    pub fn chain_id(&self) -> (res: u64)
        ensures
            res == self@.chain_id,
    {
        self.chain_id
    }

    /// Sets the chain identifier. The active backend is not touched: the
    /// value counts when a remote signer is next activated.
    pub fn set_chain_id(&mut self, chain_id: u64)
        ensures
            final(self)@ == (ProviderView { chain_id, ..old(self)@ }),
    {
        proof {
            use_type_invariant(&*self);
        }
        self.chain_id = chain_id;
    }

    /// The endpoint URL in use.
    pub fn url(&self) -> (res: &String)
        ensures
            res@ == self@.backend.transport().url,
    {
        self.active_provider.transport().url()
    }

    /// The active backend.
    pub fn backend(&self) -> (res: &SignerBackend)
        ensures
            res@ == self@.backend,
            self.wf(),
    {
        proof {
            use_type_invariant(self);
        }
        &self.active_provider
    }

    /// The current account address: `NoActiveIdentity` where none is set.
    pub fn address(&self) -> (res: Result<Address, RpcError>)
        ensures
            identity_view(res) == spec_identity(self@.address),
    {
        match self.address {
            Some(a) => Ok(a),
            None => Err(RpcError::NoActiveIdentity),
        }
    }

    /// Activates a local signer from a decrypted keystore: see
    /// [`spec_activate_local`] and [`spec_activate_local_result`]. On failure
    /// nothing changes: the backend that was active stays active, with its
    /// address.
    pub fn activate_local(&mut self, unlocked: Result<Vec<u8>, String>) -> (res: Result<
        Address,
        RpcError,
    >)
        ensures
            final(self)@ == spec_activate_local(old(self)@, unlocked_view(unlocked)),
            identity_view(res) == spec_activate_local_result(unlocked_view(unlocked)),
            res is Err ==> final(self)@ == old(self)@,
    {
        match unlocked {
            Ok(key) => {
                let transport = self.active_provider.transport().clone();
                match LocalKeySigner::new(transport, key.as_slice()) {
                    Ok(signer) => {
                        proof {
                            use_type_invariant(&signer);
                        }
                        let address = signer.address();
                        *self = EthersProvider {
                            chain_id: self.chain_id,
                            address: Some(address),
                            active_provider: SignerBackend::LocalKeySigner(signer),
                        };
                        Ok(address)
                    },
                    Err(e) => Err(e),
                }
            },
            Err(cause) => Err(RpcError::KeystoreError { cause }),
        }
    }

    /// Activates a remote signer for an address given as bytes: see
    /// [`spec_activate_remote`] and [`spec_activate_remote_result`]. On
    /// failure nothing changes.
    pub fn activate_remote(&mut self, address_bytes: &[u8]) -> (res: Result<Address, RpcError>)
        ensures
            final(self)@ == spec_activate_remote(old(self)@, address_bytes@),
            identity_view(res) == spec_activate_remote_result(address_bytes@),
            res is Err ==> final(self)@ == old(self)@,
    {
        match Address::from_slice(address_bytes) {
            Some(address) => {
                let transport = self.active_provider.transport().clone();
                let signer = RemoteSignerMiddleware::new(transport, self.chain_id, address);
                proof {
                    use_type_invariant(&signer);
                }
                *self = EthersProvider {
                    chain_id: self.chain_id,
                    address: Some(address),
                    active_provider: SignerBackend::RemoteDelegatedSigner(signer),
                };
                Ok(address)
            },
            None => Err(RpcError::AddressDecodeError),
        }
    }

    /// Points the provider at another endpoint: see [`spec_set_endpoint`].
    /// Fails with `InvalidEndpoint` exactly when the text is not a URL, and
    /// then nothing changes.
    pub fn set_endpoint(&mut self, url: &str) -> (res: Result<(), RpcError>)
        ensures
            final(self)@ == spec_set_endpoint(old(self)@, url@),
            match res {
                Ok(_) => url_parses(url@),
                Err(e) => !url_parses(url@) && e@ == RpcErrorView::InvalidEndpoint,
            },
    {
        match Transport::new(url, self.active_provider.transport().origin().as_str()) {
            Ok(transport) => {
                proof {
                    use_type_invariant(&*self);
                }
                let rebuilt = self.active_provider.clone().rebuild(transport);
                *self = EthersProvider {
                    chain_id: self.chain_id,
                    address: self.address,
                    active_provider: rebuilt,
                };
                Ok(())
            },
            Err(e) => Err(e),
        }
    }

    /// The step that lists the node's accounts: always a request to the
    /// node, whichever backend is active.
    pub fn get_accounts(&self) -> (res: Step)
        ensures
            res@ == spec_dispatch(self@, CallView::GetAccounts),
    {
        Step::Send(self.active_provider.get_accounts())
    }

    /// The step that signs a digest for the current address: see
    /// [`spec_sign_step`].
    pub fn sign_hash(&self, digest: &Digest) -> (res: Step)
        ensures
            res@ == spec_sign_step(self@, digest@),
    {
        match self.address {
            None => Step::Done(Err(RpcError::NoActiveIdentity)),
            Some(_) => match self.active_provider.sign_hash(digest) {
                Ok(Signing::Signed(s)) => Step::Done(Ok(Answer::Signature(s))),
                Ok(Signing::Delegated(request)) => Step::Send(request),
                Err(e) => Step::Done(Err(e)),
            },
        }
    }

    /// The step that signs a text message: the personal-message hash of its
    /// UTF-8 bytes is signed for the current address.
    pub fn sign_message(&self, text: &str) -> (res: Step)
        ensures
            res@ == spec_dispatch(self@, CallView::SignMessage { message: text@ }),
    {
        let digest = hash_message(text.as_bytes());
        self.sign_hash(&digest)
    }

    /// The step that signs a transaction, given by its canonical encoding:
    /// the signing hash of the encoding is signed for the current address.
    pub fn sign_transaction(&self, encoded: &[u8]) -> (res: Step)
        ensures
            res@ == spec_dispatch(self@, CallView::SignTransaction { encoded: encoded@ }),
    {
        let digest = sighash(encoded);
        self.sign_hash(&digest)
    }

    /// The step of a passthrough call: see [`spec_request_step`].
    pub fn request(&self, method: &str, params_json: &str) -> (res: Step)
        ensures
            res@ == spec_dispatch(
                self@,
                CallView::Request { method: method@, params_json: params_json@ },
            ),
    {
        match decode_params(params_json) {
            Ok(params) => Step::Send(self.active_provider.request(method, params)),
            Err(e) => Step::Done(Err(e)),
        }
    }

    /// The step of a call: see [`spec_dispatch`].
    pub fn dispatch(&self, call: &Call) -> (res: Step)
        ensures
            res@ == spec_dispatch(self@, call@),
    {
        match call {
            Call::GetAccounts => self.get_accounts(),
            Call::SignMessage { message } => self.sign_message(message.as_str()),
            Call::SignTransaction { encoded } => self.sign_transaction(encoded.as_slice()),
            Call::Request { method, params_json } => self.request(
                method.as_str(),
                params_json.as_str(),
            ),
        }
    }

    /// The result of a call whose request was answered: see [`spec_settle`].
    pub fn settle(call: &Call, reply: &Reply) -> (res: Result<Answer, RpcError>)
        ensures
            outcome_view(res) == spec_settle(call@, reply@),
    {
        match call {
            Call::GetAccounts => response("eth_accounts", Expect::Accounts, reply),
            Call::SignMessage { .. } => response("eth_sign", Expect::Signature, reply),
            Call::SignTransaction { .. } => response("eth_sign", Expect::Signature, reply),
            Call::Request { method, .. } => response(method.as_str(), Expect::Json, reply),
        }
    }
}

} // verus!
