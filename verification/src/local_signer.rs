//! The local key signer: a transport and a decrypted private key. It signs
//! in memory, with no network round trip.

use vstd::prelude::*;
use crate::error::{RpcError, RpcErrorView};
use crate::primitives::{Address, Digest, Signature};
use crate::remote_signer::encoded_view;
use crate::signing::{
    SecretKey, ecdsa_signature, hash_message, is_private_key, key_address, personal_message_hash,
    sighash, transaction_sighash,
};
use crate::transport::{Transport, TransportView};

verus! {

/// A signer that holds its private key. The key lives as long as the signer
/// and is never written out.
pub struct LocalKeySigner {
    provider: Transport,
    key: SecretKey,
    address: Address,
}

/// The mathematical value of a [`LocalKeySigner`].
pub struct LocalSignerView {
    pub provider: TransportView,
    pub key: Seq<u8>,
    pub address: Seq<u8>,
}

impl LocalSignerView {
    /// The invariant of a local signer: its transport is well formed, its key
    /// is a private key, and its address is the one derived from the key.
    pub open spec fn wf(self) -> bool {
        self.provider.wf() && is_private_key(self.key) && key_address(self.key) == Some(
            self.address,
        ) && self.address.len() == 20
    }
}

impl View for LocalKeySigner {
    type V = LocalSignerView;

    closed spec fn view(&self) -> LocalSignerView {
        LocalSignerView { provider: self.provider@, key: self.key@, address: self.address@ }
    }
}

impl Clone for LocalKeySigner {
    fn clone(&self) -> (res: LocalKeySigner)
        ensures
            res@ == self@,
    {
        proof {
            use_type_invariant(self);
        }
        LocalKeySigner {
            provider: self.provider.clone(),
            key: self.key.clone(),
            address: self.address,
        }
    }
}

/// The cause reported for bytes that are not a private key.
pub open spec fn invalid_key() -> Seq<char> {
    "invalid private key"@
}

/// What signing a digest with a key comes to: the signature that the key
/// gives, or `SigningUnsupported` where it gives none.
pub open spec fn spec_local_signature(key: Seq<u8>, digest: Seq<u8>) -> Result<
    Seq<u8>,
    RpcErrorView,
> {
    match ecdsa_signature(key, digest) {
        Some(s) => Ok(s),
        None => Err(RpcErrorView::SigningUnsupported),
    }
}

/// What signing a structured payload with a key comes to: an encoding error
/// where the payload did not encode, else the signing of its digest.
pub open spec fn spec_local_typed_data(key: Seq<u8>, encoded: Result<Seq<u8>, Seq<char>>) -> Result<
    Seq<u8>,
    RpcErrorView,
> {
    match encoded {
        Ok(digest) => spec_local_signature(key, digest),
        Err(_) => Err(RpcErrorView::EncodingError),
    }
}

/// The mathematical value of the result of a local signing operation.
pub open spec fn signed_view(res: Result<Signature, RpcError>) -> Result<Seq<u8>, RpcErrorView> {
    match res {
        Ok(s) => Ok(s@),
        Err(e) => Err(e@),
    }
}

impl LocalKeySigner {
    /// The invariant of the type: every local signer that exists meets it.
    #[verifier::type_invariant]
    pub open spec fn wf(&self) -> bool {
        self@.wf()
    }

    /// The signer for a decrypted private key, wrapped around `provider`.
    /// Succeeds exactly when the bytes are a private key; its address is then
    /// the one derived from the key. Any other bytes are a `KeystoreError`.
    pub fn new(provider: Transport, key: &[u8]) -> (res: Result<LocalKeySigner, RpcError>)
        ensures
            match res {
                Ok(signer) => is_private_key(key@) && signer@ == (LocalSignerView {
                    provider: provider@,
                    key: key@,
                    address: key_address(key@)->0,
                }),
                Err(e) => !is_private_key(key@) && e@ == (RpcErrorView::KeystoreError {
                    cause: invalid_key(),
                }),
            },
    {
        proof {
            use_type_invariant(&provider);
        }
        match SecretKey::from_slice(key) {
            Some((key, address)) => Ok(LocalKeySigner { provider, key, address }),
            None => Err(RpcError::KeystoreError { cause: "invalid private key".to_owned() }),
        }
    }

    /// The transport that this signer wraps.
    pub fn inner(&self) -> (res: &Transport)
        ensures
            res@ == self@.provider,
    {
        &self.provider
    }

    /// The address derived from the key.
    pub fn address(&self) -> (res: Address)
        ensures
            res@ == self@.address,
    {
        self.address
    }

    /// The same signer behind another transport.
    pub fn with_provider(self, provider: Transport) -> (res: LocalKeySigner)
        ensures
            res@ == (LocalSignerView { provider: provider@, ..self@ }),
    {
        proof {
            use_type_invariant(&self);
            use_type_invariant(&provider);
        }
        LocalKeySigner { provider, key: self.key, address: self.address }
    }

    /// Signs a digest with the held key: see [`spec_local_signature`].
    pub fn sign_hash(&self, digest: &Digest) -> (res: Result<Signature, RpcError>)
        ensures
            signed_view(res) == spec_local_signature(self@.key, digest@),
    {
        match self.key.sign(digest) {
            Some(s) => Ok(s),
            None => Err(RpcError::SigningUnsupported),
        }
    }

    /// Signs a message: computes its personal-message hash and signs that
    /// digest with the held key.
    pub fn sign_message(&self, message: &[u8]) -> (res: Result<Signature, RpcError>)
        ensures
            signed_view(res) == spec_local_signature(self@.key, personal_message_hash(message@)),
    {
        let message_hash = hash_message(message);
        self.sign_hash(&message_hash)
    }

    /// Signs a transaction, given by its canonical encoding: computes the
    /// signing hash of the encoding and signs that digest with the held key.
    pub fn sign_transaction(&self, encoded: &[u8]) -> (res: Result<Signature, RpcError>)
        ensures
            signed_view(res) == spec_local_signature(self@.key, transaction_sighash(encoded@)),
    {
        let digest = sighash(encoded);
        self.sign_hash(&digest)
    }

    /// Signs a structured payload, given what encoding the payload came to:
    /// see [`spec_local_typed_data`].
    pub fn sign_typed_data(&self, encoded: Result<Digest, String>) -> (res: Result<
        Signature,
        RpcError,
    >)
        ensures
            signed_view(res) == spec_local_typed_data(self@.key, encoded_view(encoded)),
    {
        match encoded {
            Ok(payload) => self.sign_hash(&payload),
            Err(_) => Err(RpcError::EncodingError),
        }
    }
}

} // verus!
