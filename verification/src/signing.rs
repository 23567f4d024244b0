//! Hashing and local signing. The cryptography is done by `ethers`; this
//! module gives each of its results a name, so that contracts can say which
//! digest is signed and with which key.

use vstd::prelude::*;
use crate::primitives::{Address, Digest, Signature};

verus! {

/// The digest that `ethers::utils::keccak256` gives for some bytes.
pub uninterp spec fn keccak256(data: Seq<u8>) -> Seq<u8>;

/// The prefix of a personal message: the byte `0x19`, the text
/// `Ethereum Signed Message:` and a line feed.
pub open spec fn personal_prefix() -> Seq<u8> {
    seq![
        25u8, 69, 116, 104, 101, 114, 101, 117, 109, 32, 83, 105, 103, 110, 101, 100, 32, 77, 101,
        115, 115, 97, 103, 101, 58, 10,
    ]
}

/// The decimal digits of a number, in ASCII, without leading zeros.
pub open spec fn decimal_digits(n: nat) -> Seq<u8>
    decreases n,
{
    if n < 10 {
        seq![(48 + n) as u8]
    } else {
        decimal_digits(n / 10).push((48 + n % 10) as u8)
    }
}

/// A message as it is hashed for signing: the prefix, the length of the
/// message in decimal, and the message.
pub open spec fn personal_message(message: Seq<u8>) -> Seq<u8> {
    personal_prefix() + decimal_digits(message.len()) + message
}

/// The personal-message hash of a message: the Keccak-256 digest of the
/// prefixed message.
pub open spec fn personal_message_hash(message: Seq<u8>) -> Seq<u8> {
    keccak256(personal_message(message))
}

/// The address that `LocalWallet::from_bytes` derives for a 32-byte private
/// key, or `None` where it rejects the bytes as a key.
pub uninterp spec fn key_address(key: Seq<u8>) -> Option<Seq<u8>>;

/// The signature that the wallet made from a private key gives for a digest
/// with `sign_hash`, as sixty-five bytes, or `None` where the key is rejected
/// or signing fails.
pub uninterp spec fn ecdsa_signature(key: Seq<u8>, digest: Seq<u8>) -> Option<Seq<u8>>;

/// The bytes of an optional address.
pub open spec fn address_bytes(address: Option<Address>) -> Option<Seq<u8>> {
    match address {
        Some(a) => Some(a@),
        None => None,
    }
}

/// The bytes of an optional signature.
pub open spec fn signature_bytes(signature: Option<Signature>) -> Option<Seq<u8>> {
    match signature {
        Some(s) => Some(s@),
        None => None,
    }
}

/// Calls `ethers::utils::hash_message`, which puts the prefix and the
/// decimal length before the message and hashes the whole with its
/// `keccak256`.
#[verifier::external_body]
pub(crate) fn hash_message(message: &[u8]) -> (res: Digest)
    ensures
        res@ == keccak256(personal_message(message@)),
{
    Digest { bytes: ethers::utils::hash_message(message).to_fixed_bytes() }
}

/// Calls `ethers::utils::keccak256`. The result is a function of the bytes
/// alone; which function is not stated here, only named.
#[verifier::external_body]
pub(crate) fn keccak(data: &[u8]) -> (res: Digest)
    ensures
        res@ == keccak256(data@),
{
    Digest { bytes: ethers::utils::keccak256(data) }
}

/// Calls `LocalWallet::from_bytes` on the key and, where it accepts the key,
/// reads the wallet's address. The result is a function of the key alone.
#[verifier::external_body]
pub(crate) fn derive_address(key: &[u8; 32]) -> (res: Option<Address>)
    ensures
        address_bytes(res) == key_address(key@),
{
    match ethers::signers::LocalWallet::from_bytes(key) {
        Ok(wallet) => Some(
            Address { bytes: ethers::signers::Signer::address(&wallet).to_fixed_bytes() },
        ),
        Err(_) => None,
    }
}

/// Makes the wallet for the key with `LocalWallet::from_bytes` and calls
/// its `sign_hash` on the digest. Signing is deterministic: the result is a
/// function of the key and the digest alone.
#[verifier::external_body]
pub(crate) fn sign_hash(key: &[u8; 32], digest: &Digest) -> (res: Option<Signature>)
    ensures
        signature_bytes(res) == ecdsa_signature(key@, digest@),
{
    match ethers::signers::LocalWallet::from_bytes(key) {
        Ok(wallet) => match wallet.sign_hash(ethers::types::H256(digest.bytes)) {
            Ok(signature) => Some(Signature { bytes: <[u8; 65]>::from(&signature) }),
            Err(_) => None,
        },
        Err(_) => None,
    }
}

/// The signing hash of a transaction, given by its canonical encoding: the
/// Keccak-256 digest of the encoding.
pub open spec fn transaction_sighash(encoded: Seq<u8>) -> Seq<u8> {
    keccak256(encoded)
}

/// The signing hash of a transaction: see [`transaction_sighash`].
pub fn sighash(encoded: &[u8]) -> (res: Digest)
    ensures
        res@ == transaction_sighash(encoded@),
{
    keccak(encoded)
}

/// A private key, held in memory only: thirty-two bytes that the wallet
/// accepts as a key.
pub struct SecretKey {
    bytes: [u8; 32],
}

impl Clone for SecretKey {
    fn clone(&self) -> (res: SecretKey)
        ensures
            res@ == self@,
    {
        proof {
            use_type_invariant(self);
        }
        SecretKey { bytes: self.bytes }
    }
}

impl View for SecretKey {
    type V = Seq<u8>;

    closed spec fn view(&self) -> Seq<u8> {
        self.bytes@
    }
}

/// Whether the bytes are a private key: thirty-two bytes for which an
/// address, of twenty bytes, can be derived.
pub open spec fn is_private_key(bytes: Seq<u8>) -> bool {
    bytes.len() == 32 && key_address(bytes) is Some && key_address(bytes)->0.len() == 20
}

impl SecretKey {
    /// The invariant of the type: an address can be derived from every key
    /// that exists.
    #[verifier::type_invariant]
    pub open spec fn wf(&self) -> bool {
        is_private_key(self@)
    }

    /// Reads a private key and derives its address. `Some` exactly when the
    /// bytes are a private key; the address is the one derived from it.
    pub fn from_slice(bytes: &[u8]) -> (res: Option<(SecretKey, Address)>)
        ensures
            res is Some <==> is_private_key(bytes@),
            res matches Some(pair) ==> pair.0@ == bytes@ && pair.0.wf() && key_address(bytes@)
                == Some(pair.1@),
    {
        if bytes.len() != 32 {
            return None;
        }
        let mut key: [u8; 32] = [0u8; 32];
        let mut i: usize = 0;
        while i < 32
            invariant
                i <= 32,
                bytes@.len() == 32,
                forall|j: int| 0 <= j < i ==> key@[j] == bytes@[j],
            decreases 32 - i,
        {
            key[i] = bytes[i];
            i += 1;
        }
        assert(key@ =~= bytes@);
        match derive_address(&key) {
            Some(address) => Some((SecretKey { bytes: key }, address)),
            None => None,
        }
    }

    /// Signs a digest with this key. The signature is the one that the
    /// wallet of this key gives for the digest, and `None` where it gives
    /// none.
    pub fn sign(&self, digest: &Digest) -> (res: Option<Signature>)
        ensures
            signature_bytes(res) == ecdsa_signature(self@, digest@),
    {
        sign_hash(&self.bytes, digest)
    }
}

} // verus!
