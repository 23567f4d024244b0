use ethers::signers::LocalWallet;
use ethers::types::{RecoveryMessage, H256};
use frame_rpc::backend::SignerBackend;
use frame_rpc::error::RpcError;
use frame_rpc::ethers_provider::{Call, EthersProvider, Step, DEFAULT_CHAIN_ID};
use frame_rpc::keystore::resolve_keystore_path;
use frame_rpc::primitives::{Address, Digest, Signature};
use frame_rpc::transport::{Answer, Expect, Params, Reply, RpcRequest};

fn key_one() -> Vec<u8> {
    let mut key = vec![0u8; 32];
    key[31] = 1;
    key
}

fn address_of_key_one() -> Address {
    let parsed: ethers::types::Address =
        "7E5F4552091A69125d5DfCb7b8C2659029395Bdf".parse().unwrap();
    Address { bytes: parsed.to_fixed_bytes() }
}

fn hash_of(message: &str) -> Digest {
    Digest { bytes: ethers::utils::hash_message(message).to_fixed_bytes() }
}

fn unlock(path: &str, user_data_dir: &str, password: &str) -> Result<Vec<u8>, String> {
    let file = resolve_keystore_path(path, user_data_dir);
    match LocalWallet::decrypt_keystore(file, password) {
        Ok(wallet) => Ok(wallet.signer().to_bytes().to_vec()),
        Err(e) => Err(e.to_string()),
    }
}

fn write_keystore(name: &str, key: &[u8], password: &str) -> Address {
    let mut rng = ethers::prelude::rand::thread_rng();
    let (wallet, _) =
        LocalWallet::encrypt_keystore("/tmp", &mut rng, key, password, Some(name)).unwrap();
    Address { bytes: ethers::signers::Signer::address(&wallet).to_fixed_bytes() }
}

fn is_passive(provider: &EthersProvider) -> bool {
    matches!(provider.backend(), SignerBackend::PassiveRpc(_))
}

#[test]
fn new_provider_is_passive_on_the_default_endpoint() {
    let provider = EthersProvider::new("My Game");
    assert!(is_passive(&provider));
    assert_eq!(provider.url(), "http://localhost:8545");
    assert_eq!(provider.chain_id(), 1);
    assert_eq!(DEFAULT_CHAIN_ID, 1);
    assert_eq!(provider.address(), Err(RpcError::NoActiveIdentity));
    assert_eq!(provider.backend().transport().origin(), "My Game");
}

#[test]
fn unlocked_keystore_signs_hello_and_recovers_to_its_address() {
    let expected = write_keystore("frame_rpc_hello_keystore.json", &key_one(), "secret");
    assert_eq!(expected, address_of_key_one());
    let mut provider = EthersProvider::new("My Game");
    let unlocked = unlock("/tmp/frame_rpc_hello_keystore.json", "/nowhere", "secret");
    assert_eq!(provider.activate_local(unlocked), Ok(expected));
    assert_eq!(provider.address(), Ok(expected));
    match provider.sign_message("hello") {
        Step::Done(Ok(Answer::Signature(signature))) => {
            assert_eq!(signature.bytes.len(), 65);
            let parsed = ethers::types::Signature::try_from(&signature.bytes[..]).unwrap();
            let signer = parsed.recover("hello").unwrap();
            assert_eq!(signer.to_fixed_bytes(), expected.bytes);
        }
        other => panic!("expected a signature at once, got {:?}", other),
    }
}

#[test]
fn wrong_password_changes_nothing() {
    write_keystore("frame_rpc_wrong_password_keystore.json", &key_one(), "secret");
    let mut provider = EthersProvider::new("My Game");
    let wrong = unlock("/tmp/frame_rpc_wrong_password_keystore.json", "/nowhere", "not the secret");
    let cause = wrong.clone().unwrap_err();
    assert_eq!(provider.activate_local(wrong), Err(RpcError::KeystoreError { cause }));
    assert!(is_passive(&provider));
    assert_eq!(provider.address(), Err(RpcError::NoActiveIdentity));
    assert_eq!(provider.url(), "http://localhost:8545");
}

#[test]
fn wrong_password_keeps_the_active_signer() {
    write_keystore("frame_rpc_second_keystore.json", &[7u8; 32], "secret");
    let mut provider = EthersProvider::new("My Game");
    provider.activate_local(Ok(key_one())).unwrap();
    let before = provider.clone();
    let wrong = unlock("/tmp/frame_rpc_second_keystore.json", "/nowhere", "guess");
    assert!(matches!(provider.activate_local(wrong), Err(RpcError::KeystoreError { .. })));
    assert_eq!(provider.address(), Ok(address_of_key_one()));
    assert_eq!(provider.backend().address(), Ok(address_of_key_one()));
    assert!(matches!(provider.backend(), SignerBackend::LocalKeySigner(_)));
    assert_eq!(provider.sign_message("m"), before.sign_message("m"));
}

#[test]
fn missing_keystore_file_is_a_keystore_error() {
    let mut provider = EthersProvider::new("My Game");
    let missing = unlock("/tmp/frame_rpc_no_such_keystore.json", "/nowhere", "secret");
    assert!(missing.is_err());
    assert!(matches!(provider.activate_local(missing), Err(RpcError::KeystoreError { .. })));
    assert!(is_passive(&provider));
}

#[test]
fn keystore_content_that_is_no_key_is_a_keystore_error() {
    let mut provider = EthersProvider::new("My Game");
    let invalid = RpcError::KeystoreError { cause: "invalid private key".to_string() };
    assert_eq!(provider.activate_local(Ok(vec![0u8; 32])), Err(invalid.clone()));
    assert_eq!(provider.activate_local(Ok(vec![1u8; 8])), Err(invalid.clone()));
    assert_eq!(provider.activate_local(Ok(vec![])), Err(invalid));
    assert!(is_passive(&provider));
    assert_eq!(provider.address(), Err(RpcError::NoActiveIdentity));
}

#[test]
fn keystore_cause_is_handed_on() {
    let mut provider = EthersProvider::new("My Game");
    assert_eq!(
        provider.activate_local(Err("Mac Mismatch".to_string())),
        Err(RpcError::KeystoreError { cause: "Mac Mismatch".to_string() })
    );
}

#[test]
fn activate_local_wraps_the_transport_in_use() {
    let mut provider = EthersProvider::new("My Game");
    provider.set_endpoint("https://rpc.example.org").unwrap();
    assert_eq!(provider.activate_local(Ok(key_one())), Ok(address_of_key_one()));
    assert_eq!(provider.url(), "https://rpc.example.org");
    assert_eq!(provider.backend().transport().origin(), "My Game");
    assert!(matches!(provider.backend(), SignerBackend::LocalKeySigner(_)));
}

#[test]
fn activate_remote_wants_twenty_bytes() {
    let mut provider = EthersProvider::new("My Game");
    assert_eq!(provider.activate_remote(&[0u8; 19]), Err(RpcError::AddressDecodeError));
    assert_eq!(provider.activate_remote(&[0u8; 21]), Err(RpcError::AddressDecodeError));
    assert_eq!(provider.activate_remote(&[]), Err(RpcError::AddressDecodeError));
    assert!(is_passive(&provider));
    assert_eq!(provider.address(), Err(RpcError::NoActiveIdentity));
    let address = Address { bytes: [0x5au8; 20] };
    assert_eq!(provider.activate_remote(&address.bytes), Ok(address));
    assert_eq!(provider.address(), Ok(address));
}

#[test]
fn failed_activate_remote_keeps_the_active_signer() {
    let mut provider = EthersProvider::new("My Game");
    provider.activate_local(Ok(key_one())).unwrap();
    assert_eq!(provider.activate_remote(&[1u8; 32]), Err(RpcError::AddressDecodeError));
    assert_eq!(provider.address(), Ok(address_of_key_one()));
    assert!(matches!(provider.backend(), SignerBackend::LocalKeySigner(_)));
}

#[test]
fn activate_remote_uses_the_configured_chain() {
    let mut provider = EthersProvider::new("My Game");
    provider.set_chain_id(137);
    provider.activate_remote(&[3u8; 20]).unwrap();
    match provider.backend() {
        SignerBackend::RemoteDelegatedSigner(signer) => assert_eq!(signer.chain_id(), 137),
        _ => panic!("expected a remote signer"),
    }
    provider.set_chain_id(5);
    assert_eq!(provider.chain_id(), 5);
    match provider.backend() {
        SignerBackend::RemoteDelegatedSigner(signer) => assert_eq!(signer.chain_id(), 137),
        _ => panic!("expected a remote signer"),
    }
    assert_eq!(provider.address(), Ok(Address { bytes: [3u8; 20] }));
}

#[test]
fn remote_signing_sends_one_eth_sign_request_with_the_hash() {
    let mut provider = EthersProvider::new("My Game");
    provider.activate_remote(&[0u8; 20]).unwrap();
    let call = Call::SignMessage { message: "x".to_string() };
    match provider.dispatch(&call) {
        Step::Send(request) => assert_eq!(
            request,
            RpcRequest {
                url: "http://localhost:8545".to_string(),
                origin: "My Game".to_string(),
                method: "eth_sign".to_string(),
                params: Params::Digest(hash_of("x")),
                expects: Expect::Signature,
            }
        ),
        other => panic!("expected one request, got {:?}", other),
    }
    let mut raw = [0u8; 65];
    for (i, b) in raw.iter_mut().enumerate() {
        *b = 200u8.wrapping_add(i as u8);
    }
    let returned = Signature { bytes: raw };
    assert_eq!(
        EthersProvider::settle(&call, &Reply::Signature(returned)),
        Ok(Answer::Signature(returned))
    );
}

#[test]
fn signing_without_an_identity_fails() {
    let provider = EthersProvider::new("My Game");
    assert_eq!(provider.sign_message("hello"), Step::Done(Err(RpcError::NoActiveIdentity)));
    assert_eq!(
        provider.sign_transaction(&[0xc0u8]),
        Step::Done(Err(RpcError::NoActiveIdentity))
    );
    assert_eq!(
        provider.sign_hash(&Digest { bytes: [1u8; 32] }),
        Step::Done(Err(RpcError::NoActiveIdentity))
    );
}

#[test]
fn local_provider_signs_transactions_at_once() {
    let mut provider = EthersProvider::new("My Game");
    provider.activate_local(Ok(key_one())).unwrap();
    let tx: ethers::types::transaction::eip2718::TypedTransaction =
        ethers::types::TransactionRequest::new().nonce(3u64).gas(21_000u64).chain_id(1u64).into();
    match provider.sign_transaction(&tx.rlp()) {
        Step::Done(Ok(Answer::Signature(signature))) => {
            let parsed = ethers::types::Signature::try_from(&signature.bytes[..]).unwrap();
            let signer = parsed.recover(RecoveryMessage::Hash(tx.sighash())).unwrap();
            assert_eq!(signer.to_fixed_bytes(), address_of_key_one().bytes);
        }
        other => panic!("expected a signature at once, got {:?}", other),
    }
}

#[test]
fn remote_provider_sends_the_signing_hash_of_a_transaction() {
    let mut provider = EthersProvider::new("My Game");
    provider.activate_remote(&[6u8; 20]).unwrap();
    let tx: ethers::types::transaction::eip2718::TypedTransaction =
        ethers::types::TransactionRequest::new().nonce(3u64).gas(21_000u64).chain_id(1u64).into();
    match provider.sign_transaction(&tx.rlp()) {
        Step::Send(request) => {
            assert_eq!(request.method, "eth_sign");
            assert_eq!(
                request.params,
                Params::Digest(Digest { bytes: tx.sighash().to_fixed_bytes() })
            );
        }
        other => panic!("expected one request, got {:?}", other),
    }
}

#[test]
fn sign_message_hashes_the_utf8_bytes() {
    let mut provider = EthersProvider::new("My Game");
    provider.activate_remote(&[0u8; 20]).unwrap();
    match provider.sign_message("grüße") {
        Step::Send(request) => assert_eq!(request.params, Params::Digest(hash_of("grüße"))),
        other => panic!("expected one request, got {:?}", other),
    }
}

#[test]
fn malformed_params_fail_before_any_request() {
    let provider = EthersProvider::new("My Game");
    assert_eq!(
        provider.request("eth_getBalance", "not json"),
        Step::Done(Err(RpcError::ParamsDecodeError))
    );
    for text in ["", "{}", "1", "\"text\"", "[1, 2", "[1,]", "null", "[1] trailing"] {
        assert_eq!(
            provider.request("eth_getBalance", text),
            Step::Done(Err(RpcError::ParamsDecodeError))
        );
    }
}

#[test]
fn params_are_the_elements_of_the_array_in_order() {
    let provider = EthersProvider::new("My Game");
    let step = provider.request(
        "eth_getBalance",
        " [ \"0xabc\", 1, {\"b\": [true, null], \"a\": -2}, [ ], \"latest\" ] ",
    );
    let expected = RpcRequest {
        url: "http://localhost:8545".to_string(),
        origin: "My Game".to_string(),
        method: "eth_getBalance".to_string(),
        params: Params::Values(vec![
            "\"0xabc\"".to_string(),
            "1".to_string(),
            "{\"a\":-2,\"b\":[true,null]}".to_string(),
            "[]".to_string(),
            "\"latest\"".to_string(),
        ]),
        expects: Expect::Json,
    };
    assert_eq!(step, Step::Send(expected));
    match provider.request("eth_accounts", "[]") {
        Step::Send(request) => assert_eq!(request.params, Params::Values(vec![])),
        other => panic!("expected one request, got {:?}", other),
    }
}

#[test]
fn passthrough_result_comes_back_as_text() {
    let call = Call::Request { method: "eth_chainId".to_string(), params_json: "[]".to_string() };
    assert_eq!(
        EthersProvider::settle(&call, &Reply::Json("\"0x1\"".to_string())),
        Ok(Answer::Json("\"0x1\"".to_string()))
    );
    assert_eq!(
        EthersProvider::settle(&call, &Reply::Failed("HTTP 502".to_string())),
        Err(RpcError::TransportError {
            method: "eth_chainId".to_string(),
            cause: "HTTP 502".to_string(),
        })
    );
}

#[test]
fn get_accounts_asks_the_node_under_every_backend() {
    let mut provider = EthersProvider::new("My Game");
    let passive = provider.get_accounts();
    let passive_raw = provider.request("eth_accounts", "[]");
    provider.activate_local(Ok(key_one())).unwrap();
    assert_eq!(provider.get_accounts(), passive);
    assert_eq!(provider.request("eth_accounts", "[]"), passive_raw);
    provider.activate_remote(&[9u8; 20]).unwrap();
    assert_eq!(provider.get_accounts(), passive);
    assert_eq!(provider.request("eth_accounts", "[]"), passive_raw);
    match passive {
        Step::Send(request) => {
            assert_eq!(request.method, "eth_accounts");
            assert_eq!(request.params, Params::Empty);
            assert_eq!(request.expects, Expect::Accounts);
        }
        other => panic!("expected one request, got {:?}", other),
    }
    let listed = vec![Address { bytes: [1u8; 20] }, Address { bytes: [2u8; 20] }];
    assert_eq!(
        EthersProvider::settle(&Call::GetAccounts, &Reply::Accounts(listed.clone())),
        Ok(Answer::Accounts(listed))
    );
}

#[test]
fn set_endpoint_rebuilds_around_the_new_transport() {
    let mut provider = EthersProvider::new("My Game");
    provider.set_chain_id(10);
    provider.activate_local(Ok(key_one())).unwrap();
    let signed_before = provider.sign_message("m");
    assert_eq!(provider.set_endpoint("https://rpc.example.org/v1"), Ok(()));
    assert_eq!(provider.url(), "https://rpc.example.org/v1");
    assert_eq!(provider.backend().transport().origin(), "My Game");
    assert_eq!(provider.address(), Ok(address_of_key_one()));
    assert_eq!(provider.chain_id(), 10);
    assert!(matches!(provider.backend(), SignerBackend::LocalKeySigner(_)));
    assert_eq!(provider.sign_message("m"), signed_before);
    match provider.get_accounts() {
        Step::Send(request) => {
            assert_eq!(request.url, "https://rpc.example.org/v1");
            assert_eq!(request.origin, "My Game");
        }
        other => panic!("expected one request, got {:?}", other),
    }
}

#[test]
fn set_endpoint_rejects_malformed_urls_and_changes_nothing() {
    let mut provider = EthersProvider::new("My Game");
    provider.activate_remote(&[4u8; 20]).unwrap();
    assert_eq!(provider.set_endpoint("no url here"), Err(RpcError::InvalidEndpoint));
    assert_eq!(provider.url(), "http://localhost:8545");
    assert_eq!(provider.address(), Ok(Address { bytes: [4u8; 20] }));
    assert!(matches!(provider.backend(), SignerBackend::RemoteDelegatedSigner(_)));
}

#[test]
fn set_endpoint_keeps_the_remote_signers_chain() {
    let mut provider = EthersProvider::new("My Game");
    provider.set_chain_id(56);
    provider.activate_remote(&[4u8; 20]).unwrap();
    provider.set_chain_id(1);
    provider.set_endpoint("http://10.1.1.1:8545").unwrap();
    match provider.backend() {
        SignerBackend::RemoteDelegatedSigner(signer) => {
            assert_eq!(signer.chain_id(), 56);
            assert_eq!(signer.inner().url(), "http://10.1.1.1:8545");
        }
        _ => panic!("expected a remote signer"),
    }
}

#[test]
fn dispatch_agrees_with_the_single_operations() {
    let mut provider = EthersProvider::new("My Game");
    provider.activate_local(Ok(key_one())).unwrap();
    let encoded = vec![0xc3u8, 1, 2, 3];
    assert_eq!(provider.dispatch(&Call::GetAccounts), provider.get_accounts());
    assert_eq!(
        provider.dispatch(&Call::SignMessage { message: "hi".to_string() }),
        provider.sign_message("hi")
    );
    assert_eq!(
        provider.dispatch(&Call::SignTransaction { encoded: encoded.clone() }),
        provider.sign_transaction(&encoded)
    );
    assert_eq!(
        provider.dispatch(&Call::Request {
            method: "m".to_string(),
            params_json: "[1]".to_string()
        }),
        provider.request("m", "[1]")
    );
}
