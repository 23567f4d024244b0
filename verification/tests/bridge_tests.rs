use frame_rpc::bridge::{AsyncBridge, Completed, Delivery, Outgoing};
use frame_rpc::error::RpcError;
use frame_rpc::ethers_provider::{Call, EthersProvider};
use frame_rpc::init;
use frame_rpc::primitives::{Address, Digest, Signature};
use frame_rpc::transport::{Answer, Expect, Params, Reply};

fn key_one() -> Vec<u8> {
    let mut key = vec![0u8; 32];
    key[31] = 1;
    key
}

fn sign(message: &str) -> Call {
    Call::SignMessage { message: message.to_string() }
}

fn raw(method: &str, params_json: &str) -> Call {
    Call::Request { method: method.to_string(), params_json: params_json.to_string() }
}

fn json(handle: u64, text: &str) -> Delivery {
    Delivery { handle, reply: Reply::Json(text.to_string()) }
}

fn handles_of(outgoing: &[Outgoing]) -> Vec<u64> {
    outgoing.iter().map(|o| o.handle).collect()
}

fn done_handles(completed: &[Completed]) -> Vec<u64> {
    completed.iter().map(|c| c.handle).collect()
}

#[test]
fn init_gives_an_empty_bridge() {
    let bridge = init();
    assert_eq!(bridge.pending(), 0);
    assert!(bridge.can_submit());
    assert_eq!(bridge.teardown(), Vec::<u64>::new());
}

#[test]
fn drive_once_on_an_empty_queue_does_nothing() {
    let mut bridge = init();
    let tick = bridge.drive_once(&vec![]);
    assert!(tick.outgoing.is_empty());
    assert!(tick.completed.is_empty());
    assert_eq!(bridge.pending(), 0);
    let tick = bridge.drive_once(&vec![json(0, "1"), json(7, "2")]);
    assert!(tick.outgoing.is_empty());
    assert!(tick.completed.is_empty());
    assert_eq!(bridge.pending(), 0);
}

#[test]
fn handles_count_up_from_zero() {
    let mut bridge = AsyncBridge::new();
    let provider = EthersProvider::new("My Game");
    assert_eq!(bridge.submit(&provider, Call::GetAccounts), 0);
    assert_eq!(bridge.submit(&provider, Call::GetAccounts), 1);
    assert_eq!(bridge.submit(&provider, raw("m", "[]")), 2);
    assert_eq!(bridge.pending(), 3);
    bridge.drive_once(&vec![json(2, "null")]);
    assert_eq!(bridge.submit(&provider, Call::GetAccounts), 3);
}

#[test]
fn a_request_goes_out_once_and_completes_on_its_reply() {
    let mut bridge = init();
    let provider = EthersProvider::new("My Game");
    let handle = bridge.submit(&provider, Call::GetAccounts);
    let tick = bridge.drive_once(&vec![]);
    assert_eq!(tick.outgoing.len(), 1);
    assert_eq!(tick.outgoing[0].handle, handle);
    assert_eq!(tick.outgoing[0].request.method, "eth_accounts");
    assert_eq!(tick.outgoing[0].request.origin, "My Game");
    assert!(tick.completed.is_empty());
    assert_eq!(bridge.pending(), 1);

    let tick = bridge.drive_once(&vec![]);
    assert!(tick.outgoing.is_empty());
    assert!(tick.completed.is_empty());
    assert_eq!(bridge.pending(), 1);

    let accounts = vec![Address { bytes: [1u8; 20] }];
    let tick = bridge.drive_once(&vec![Delivery { handle, reply: Reply::Accounts(accounts.clone()) }]);
    assert!(tick.outgoing.is_empty());
    assert_eq!(tick.completed, vec![Completed { handle, outcome: Ok(Answer::Accounts(accounts)) }]);
    assert_eq!(bridge.pending(), 0);
}

#[test]
fn local_signing_completes_in_one_tick_without_any_request() {
    let mut bridge = init();
    let mut provider = EthersProvider::new("My Game");
    provider.activate_local(Ok(key_one())).unwrap();
    let handle = bridge.submit(&provider, sign("hello"));
    let tick = bridge.drive_once(&vec![]);
    assert!(tick.outgoing.is_empty());
    assert_eq!(tick.completed.len(), 1);
    assert_eq!(tick.completed[0].handle, handle);
    assert!(matches!(tick.completed[0].outcome, Ok(Answer::Signature(_))));
    assert_eq!(bridge.pending(), 0);
}

#[test]
fn remote_signing_through_the_bridge() {
    let mut bridge = init();
    let mut provider = EthersProvider::new("My Game");
    provider.activate_remote(&[0u8; 20]).unwrap();
    let handle = bridge.submit(&provider, sign("x"));
    let tick = bridge.drive_once(&vec![]);
    assert_eq!(tick.outgoing.len(), 1);
    assert_eq!(tick.outgoing[0].request.method, "eth_sign");
    assert_eq!(tick.outgoing[0].request.expects, Expect::Signature);
    let expected = ethers::utils::hash_message("x").to_fixed_bytes();
    assert_eq!(tick.outgoing[0].request.params, Params::Digest(Digest { bytes: expected }));
    assert!(tick.completed.is_empty());

    let returned = Signature { bytes: [0x5cu8; 65] };
    let tick = bridge.drive_once(&vec![Delivery { handle, reply: Reply::Signature(returned) }]);
    assert!(tick.outgoing.is_empty());
    assert_eq!(
        tick.completed,
        vec![Completed { handle, outcome: Ok(Answer::Signature(returned)) }]
    );
    let tick = bridge.drive_once(&vec![]);
    assert!(tick.outgoing.is_empty());
    assert!(tick.completed.is_empty());
}

#[test]
fn malformed_params_complete_with_a_failure_and_send_nothing() {
    let mut bridge = init();
    let provider = EthersProvider::new("My Game");
    let handle = bridge.submit(&provider, raw("eth_call", "not json"));
    let tick = bridge.drive_once(&vec![]);
    assert!(tick.outgoing.is_empty());
    assert_eq!(
        tick.completed,
        vec![Completed { handle, outcome: Err(RpcError::ParamsDecodeError) }]
    );
    assert_eq!(bridge.pending(), 0);
}

#[test]
fn a_task_runs_under_the_provider_of_its_submission() {
    let mut bridge = init();
    let mut provider = EthersProvider::new("My Game");
    provider.activate_remote(&[1u8; 20]).unwrap();
    let first = bridge.submit(&provider, sign("m"));
    provider.activate_local(Ok(key_one())).unwrap();
    provider.set_endpoint("https://elsewhere.example.org").unwrap();
    let second = bridge.submit(&provider, sign("m"));
    let third = bridge.submit(&provider, Call::GetAccounts);

    let tick = bridge.drive_once(&vec![]);
    assert_eq!(handles_of(&tick.outgoing), vec![first, third]);
    assert_eq!(tick.outgoing[0].request.method, "eth_sign");
    assert_eq!(tick.outgoing[0].request.url, "http://localhost:8545");
    assert_eq!(tick.outgoing[1].request.url, "https://elsewhere.example.org");
    assert_eq!(done_handles(&tick.completed), vec![second]);
    assert!(matches!(tick.completed[0].outcome, Ok(Answer::Signature(_))));
}

#[test]
fn a_switch_after_sending_does_not_reach_the_waiting_task() {
    let mut bridge = init();
    let mut provider = EthersProvider::new("My Game");
    provider.activate_remote(&[1u8; 20]).unwrap();
    let handle = bridge.submit(&provider, sign("m"));
    bridge.drive_once(&vec![]);
    provider.activate_local(Ok(key_one())).unwrap();
    let returned = Signature { bytes: [3u8; 65] };
    let tick = bridge.drive_once(&vec![Delivery { handle, reply: Reply::Signature(returned) }]);
    assert_eq!(
        tick.completed,
        vec![Completed { handle, outcome: Ok(Answer::Signature(returned)) }]
    );
}

#[test]
fn every_submitted_task_uses_its_snapshot() {
    let mut bridge = init();
    let mut provider = EthersProvider::new("My Game");
    let mut expected_urls = Vec::new();
    for i in 0..20 {
        let url = format!("http://node{}.example.org", i);
        provider.set_endpoint(&url).unwrap();
        bridge.submit(&provider, raw("m", "[]"));
        expected_urls.push(url);
    }
    provider.set_endpoint("http://last.example.org").unwrap();
    let tick = bridge.drive_once(&vec![]);
    let urls: Vec<String> = tick.outgoing.iter().map(|o| o.request.url.clone()).collect();
    assert_eq!(urls, expected_urls);
}

#[test]
fn tasks_complete_in_submission_order_within_a_tick() {
    let mut bridge = init();
    let provider = EthersProvider::new("My Game");
    let a = bridge.submit(&provider, raw("a", "[]"));
    let b = bridge.submit(&provider, raw("b", "oops"));
    let c = bridge.submit(&provider, raw("c", "[]"));
    let d = bridge.submit(&provider, sign("no identity"));
    let tick = bridge.drive_once(&vec![]);
    assert_eq!(handles_of(&tick.outgoing), vec![a, c]);
    assert_eq!(
        tick.completed,
        vec![
            Completed { handle: b, outcome: Err(RpcError::ParamsDecodeError) },
            Completed { handle: d, outcome: Err(RpcError::NoActiveIdentity) },
        ]
    );
    assert_eq!(bridge.pending(), 2);

    let tick = bridge.drive_once(&vec![json(c, "3"), json(a, "1")]);
    assert_eq!(
        tick.completed,
        vec![
            Completed { handle: a, outcome: Ok(Answer::Json("1".to_string())) },
            Completed { handle: c, outcome: Ok(Answer::Json("3".to_string())) },
        ]
    );
    assert_eq!(bridge.pending(), 0);
}

#[test]
fn independent_requests_may_complete_in_either_order() {
    let mut bridge = init();
    let provider = EthersProvider::new("My Game");
    let a = bridge.submit(&provider, raw("a", "[]"));
    let b = bridge.submit(&provider, raw("b", "[]"));
    bridge.drive_once(&vec![]);
    let tick = bridge.drive_once(&vec![json(b, "2")]);
    assert_eq!(done_handles(&tick.completed), vec![b]);
    assert_eq!(bridge.pending(), 1);
    let tick = bridge.drive_once(&vec![json(a, "1")]);
    assert_eq!(done_handles(&tick.completed), vec![a]);
    assert_eq!(bridge.pending(), 0);
}

#[test]
fn a_failed_exchange_is_a_completed_task_with_a_failure() {
    let mut bridge = init();
    let provider = EthersProvider::new("My Game");
    let handle = bridge.submit(&provider, raw("eth_blockNumber", "[]"));
    bridge.drive_once(&vec![]);
    let tick = bridge.drive_once(&vec![Delivery {
        handle,
        reply: Reply::Failed("connection refused".to_string()),
    }]);
    assert_eq!(
        tick.completed,
        vec![Completed {
            handle,
            outcome: Err(RpcError::TransportError {
                method: "eth_blockNumber".to_string(),
                cause: "connection refused".to_string(),
            }),
        }]
    );
    assert_eq!(bridge.pending(), 0);
    let tick = bridge.drive_once(&vec![]);
    assert!(tick.outgoing.is_empty());
}

#[test]
fn a_reply_of_the_wrong_kind_fails_the_task() {
    let mut bridge = init();
    let provider = EthersProvider::new("My Game");
    let handle = bridge.submit(&provider, Call::GetAccounts);
    bridge.drive_once(&vec![]);
    let tick = bridge.drive_once(&vec![json(handle, "[]")]);
    assert_eq!(
        tick.completed,
        vec![Completed {
            handle,
            outcome: Err(RpcError::TransportError {
                method: "eth_accounts".to_string(),
                cause: "unexpected reply".to_string(),
            }),
        }]
    );
}

#[test]
fn the_first_reply_for_a_handle_counts() {
    let mut bridge = init();
    let provider = EthersProvider::new("My Game");
    let handle = bridge.submit(&provider, raw("m", "[]"));
    bridge.drive_once(&vec![]);
    let tick = bridge.drive_once(&vec![json(99, "0"), json(handle, "1"), json(handle, "2")]);
    assert_eq!(
        tick.completed,
        vec![Completed { handle, outcome: Ok(Answer::Json("1".to_string())) }]
    );
}

#[test]
fn replies_for_tasks_that_do_not_wait_are_ignored() {
    let mut bridge = init();
    let provider = EthersProvider::new("My Game");
    let handle = bridge.submit(&provider, raw("m", "[]"));
    let tick = bridge.drive_once(&vec![json(handle, "early"), json(5, "stray")]);
    assert_eq!(handles_of(&tick.outgoing), vec![handle]);
    assert!(tick.completed.is_empty());
    assert_eq!(bridge.pending(), 1);
    let tick = bridge.drive_once(&vec![json(5, "stray")]);
    assert!(tick.completed.is_empty());
    assert_eq!(bridge.pending(), 1);
    let tick = bridge.drive_once(&vec![json(handle, "late")]);
    assert_eq!(
        tick.completed,
        vec![Completed { handle, outcome: Ok(Answer::Json("late".to_string())) }]
    );
}

#[test]
fn teardown_drops_what_is_pending() {
    let mut bridge = init();
    let provider = EthersProvider::new("My Game");
    let a = bridge.submit(&provider, raw("a", "[]"));
    let b = bridge.submit(&provider, raw("b", "[]"));
    let c = bridge.submit(&provider, raw("c", "[]"));
    bridge.drive_once(&vec![]);
    bridge.drive_once(&vec![json(b, "2")]);
    assert_eq!(bridge.teardown(), vec![a, c]);
}
