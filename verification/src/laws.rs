//! What holds of the library as a whole: properties that relate several
//! operations, each proved from the definitions that the contracts use.

use vstd::prelude::*;
use crate::backend::{BackendView, SigningView, spec_sign_message};
use crate::bridge::{
    BridgeView, CompletedView, DeliveryView, OutgoingView, Progress, TaskView, below, increasing,
    progress, reply_for, spec_completed, spec_outgoing, spec_remaining,
};
use crate::error::RpcErrorView;
use crate::frame_provider::{eth_accounts, spec_accounts_reply};
use crate::ethers_provider::{
    CallView, ProviderView, StepView, spec_activate_local, spec_activate_local_result,
    spec_activate_remote, spec_dispatch, spec_set_endpoint,
};
use crate::local_signer::LocalSignerView;
use crate::remote_signer::{RemoteSignerView, eth_sign, spec_rpc_error, spec_signature_reply};
use crate::signing::ecdsa_signature;
use crate::transport::{AnswerView, Expect, ParamsView, ReplyView, RpcRequestView, spec_response};

verus! {

/// Every request that a call sends goes to the URL of the active backend's
/// transport and carries that transport's `Origin` header, whatever the
/// endpoint, the backend and the call.
pub proof fn lemma_origin_on_every_request(provider: ProviderView, call: CallView)
    ensures
        spec_dispatch(provider, call) matches StepView::Send(request) ==> request.origin
            == provider.backend.transport().origin && request.url
            == provider.backend.transport().url,
{
}

/// Changing the endpoint does not change the `Origin` header: the header
/// does not depend on where requests go.
pub proof fn lemma_origin_independent_of_endpoint(provider: ProviderView, url: Seq<char>)
    ensures
        spec_set_endpoint(provider, url).backend.transport().origin
            == provider.backend.transport().origin,
{
}

/// Changing the endpoint keeps the variant of the active backend, the
/// current address and the chain identifier.
pub proof fn lemma_endpoint_keeps_identity(provider: ProviderView, url: Seq<char>)
    requires
        provider.wf(),
    ensures
        spec_set_endpoint(provider, url).address == provider.address,
        spec_set_endpoint(provider, url).chain_id == provider.chain_id,
        spec_set_endpoint(provider, url).backend.identity() == provider.backend.identity(),
        spec_set_endpoint(provider, url).backend is PassiveRpc == provider.backend is PassiveRpc,
        spec_set_endpoint(provider, url).backend is LocalKeySigner
            == provider.backend is LocalKeySigner,
        spec_set_endpoint(provider, url).wf(),
{
}

/// A keystore that does not open, as with a wrong password, leaves the
/// provider exactly as it was, address and backend, and the call reports a
/// `KeystoreError` with the cause.
pub proof fn lemma_failed_unlock_changes_nothing(provider: ProviderView, cause: Seq<char>)
    ensures
        spec_activate_local(provider, Err(cause)) == provider,
        spec_activate_local_result(Err(cause)) == Err::<Seq<u8>, RpcErrorView>(
            RpcErrorView::KeystoreError { cause },
        ),
{
}

/// Activation swaps backend and address together. After a try to activate a
/// local or a remote signer, successful or not, the current address is the
/// one that the active backend signs for, and the chain identifier and the
/// transport are the ones from before.
pub proof fn lemma_activation_is_atomic(
    provider: ProviderView,
    unlocked: Result<Seq<u8>, Seq<char>>,
    address: Seq<u8>,
)
    requires
        provider.wf(),
    ensures
        spec_activate_local(provider, unlocked).wf(),
        spec_activate_local(provider, unlocked).backend.transport()
            == provider.backend.transport(),
        spec_activate_local(provider, unlocked).chain_id == provider.chain_id,
        spec_activate_remote(provider, address).wf(),
        spec_activate_remote(provider, address).backend.transport()
            == provider.backend.transport(),
        spec_activate_remote(provider, address).chain_id == provider.chain_id,
{
}

/// The signature that a peer holding `key` returns for a signing request:
/// it signs the digest that the request carries.
pub open spec fn peer_signature(key: Seq<u8>, request: RpcRequestView) -> Option<Seq<u8>> {
    match request.params {
        ParamsView::Digest(digest) => ecdsa_signature(key, digest),
        _ => None,
    }
}

/// A local signer and a remote signer whose peer holds the same key give
/// the same signature for the same message, byte for byte: the remote signer
/// sends the digest that the local signer signs, and hands the peer's
/// signature on unchanged. Where the key gives no signature for that digest,
/// the local signer fails and the peer has nothing to return.
pub proof fn lemma_cross_backend_signature(
    local: LocalSignerView,
    remote: RemoteSignerView,
    message: Seq<u8>,
)
    ensures
        spec_sign_message(BackendView::RemoteDelegatedSigner(remote), message) matches Ok(
            SigningView::Delegated(request),
        ) && match peer_signature(local.key, request) {
            Some(signature) => spec_sign_message(BackendView::LocalKeySigner(local), message)
                == Ok::<SigningView, RpcErrorView>(SigningView::Signed(signature))
                && spec_signature_reply(ReplyView::Signature(signature)) == Ok::<
                Seq<u8>,
                crate::remote_signer::RemoteSignerErrorView,
            >(signature),
            None => spec_sign_message(BackendView::LocalKeySigner(local), message) is Err,
        },
{
}

/// Listing accounts and passing a call through ask the node, not the
/// signer: two providers on the same transport take the same step for such
/// a call, whichever backends are active. What the reply then means depends
/// on the call and the reply alone, so both callers get the same result.
pub proof fn lemma_node_calls_ignore_signer(one: ProviderView, other: ProviderView, call: CallView)
    requires
        one.backend.transport() == other.backend.transport(),
        call is GetAccounts || call is Request,
    ensures
        spec_dispatch(one, call) == spec_dispatch(other, call),
{
}

/// The readers of replies agree. What the passive provider reads from the
/// reply to an account listing, and what the remote signer reads from the
/// reply to a signing request, is what a call of the host completes with
/// for the same reply; a failure of the remote signer is the same failure
/// once it is a library-wide error.
pub proof fn lemma_reply_readers_agree(reply: ReplyView)
    ensures
        match spec_response(eth_accounts(), Expect::Accounts, reply) {
            Ok(AnswerView::Accounts(list)) => spec_accounts_reply(reply) == Ok::<
                Seq<Seq<u8>>,
                RpcErrorView,
            >(list),
            Ok(_) => false,
            Err(e) => spec_accounts_reply(reply) == Err::<Seq<Seq<u8>>, RpcErrorView>(e),
        },
        match spec_response(eth_sign(), Expect::Signature, reply) {
            Ok(AnswerView::Signature(s)) => spec_signature_reply(reply) == Ok::<
                Seq<u8>,
                crate::remote_signer::RemoteSignerErrorView,
            >(s),
            Ok(_) => false,
            Err(e) => spec_signature_reply(reply) matches Err(r) && spec_rpc_error(r) == e,
        },
{
}

/// A task runs under the provider that was active when it was submitted.
/// Whatever the host's provider has become by the time the task runs, the
/// task is in the queue with the provider of its submission, and its first
/// step is the step of its call under that provider.
pub proof fn lemma_snapshot_at_submit(
    bridge: BridgeView,
    at_submit: ProviderView,
    later: ProviderView,
    call: CallView,
    replies: Seq<DeliveryView>,
)
    ensures
        bridge.submitted(at_submit, call).queue.last().provider == at_submit,
        progress(bridge.submitted(at_submit, call).queue.last(), replies) == match spec_dispatch(
            at_submit,
            call,
        ) {
            StepView::Done(outcome) => Progress::Completed(outcome),
            StepView::Send(request) => Progress::Sent(request),
        },
{
}

/// Whether two tasks are the same work: the same handle, the same provider
/// snapshot and the same call.
pub open spec fn same_work(one: TaskView, other: TaskView) -> bool {
    one.handle == other.handle && one.provider == other.provider && one.call == other.call
}

/// A tick invents no task and changes no snapshot: every task in the queue
/// after a tick was in the queue before it, with the same handle, provider
/// and call.
pub proof fn lemma_tick_keeps_snapshot(
    queue: Seq<TaskView>,
    replies: Seq<DeliveryView>,
    k: int,
)
    requires
        0 <= k < spec_remaining(queue, replies).len(),
    ensures
        exists|i: int|
            0 <= i < queue.len() && same_work(
                #[trigger] queue[i],
                spec_remaining(queue, replies)[k],
            ),
    decreases queue.len(),
{
    let front = queue.drop_last();
    let rest = spec_remaining(front, replies);
    if k < rest.len() {
        lemma_tick_keeps_snapshot(front, replies, k);
        let i = choose|i: int| 0 <= i < front.len() && same_work(#[trigger] front[i], rest[k]);
        assert(front[i] == queue[i]);
        assert(spec_remaining(queue, replies)[k] == rest[k]);
        assert(same_work(queue[i], spec_remaining(queue, replies)[k]));
    } else {
        let i = queue.len() - 1;
        assert(same_work(queue[i], spec_remaining(queue, replies)[k]));
    }
}

/// A tick on an empty queue does nothing: no request goes out, nothing
/// completes and the queue stays empty, whatever replies are handed in.
pub proof fn lemma_idle_tick(bridge: BridgeView, replies: Seq<DeliveryView>)
    requires
        bridge.queue.len() == 0,
    ensures
        bridge.driven(replies) == bridge,
        bridge.tick(replies).outgoing.len() == 0,
        bridge.tick(replies).completed.len() == 0,
{
    assert(bridge.driven(replies).queue =~= bridge.queue);
}

/// No task is dropped by a tick. Each task of the queue either completes,
/// and then its result is among the completed, or stays in the queue with
/// its handle, provider and call; and the request of each task that started
/// is among the outgoing.
pub proof fn lemma_no_task_lost(queue: Seq<TaskView>, replies: Seq<DeliveryView>, i: int)
    requires
        0 <= i < queue.len(),
    ensures
        match progress(queue[i], replies) {
            Progress::Completed(outcome) => spec_completed(queue, replies).contains(
                CompletedView { handle: queue[i].handle, outcome },
            ),
            Progress::Sent(request) => spec_outgoing(queue, replies).contains(
                OutgoingView { handle: queue[i].handle, request },
            ) && spec_remaining(queue, replies).contains(TaskView { awaiting: true, ..queue[i] }),
            Progress::Stalled => spec_remaining(queue, replies).contains(queue[i]),
        },
    decreases queue.len(),
{
    let front = queue.drop_last();
    let task = queue.last();
    let kept = spec_remaining(front, replies);
    let sent = spec_outgoing(front, replies);
    let done = spec_completed(front, replies);
    if i == queue.len() - 1 {
        match progress(task, replies) {
            Progress::Completed(outcome) => {
                let item = CompletedView { handle: task.handle, outcome };
                assert(done.push(item)[done.len() as int] == item);
            },
            Progress::Sent(request) => {
                let item = OutgoingView { handle: task.handle, request };
                assert(sent.push(item)[sent.len() as int] == item);
                let stays = TaskView { awaiting: true, ..task };
                assert(kept.push(stays)[kept.len() as int] == stays);
            },
            Progress::Stalled => {
                assert(task.awaiting);
                let stays = TaskView { awaiting: true, ..task };
                assert(stays == task);
                assert(kept.push(stays)[kept.len() as int] == stays);
            },
        }
    } else {
        assert(front[i] == queue[i]);
        lemma_no_task_lost(front, replies, i);
        match progress(queue[i], replies) {
            Progress::Completed(outcome) => {
                let item = CompletedView { handle: queue[i].handle, outcome };
                let at = choose|at: int| 0 <= at < done.len() && done[at] == item;
                assert(spec_completed(queue, replies)[at] == item);
            },
            Progress::Sent(request) => {
                let item = OutgoingView { handle: queue[i].handle, request };
                let at = choose|at: int| 0 <= at < sent.len() && sent[at] == item;
                assert(spec_outgoing(queue, replies)[at] == item);
                let stays = TaskView { awaiting: true, ..queue[i] };
                let k = choose|k: int| 0 <= k < kept.len() && kept[k] == stays;
                assert(spec_remaining(queue, replies)[k] == stays);
            },
            Progress::Stalled => {
                let k = choose|k: int| 0 <= k < kept.len() && kept[k] == queue[i];
                assert(spec_remaining(queue, replies)[k] == queue[i]);
            },
        }
    }
}

/// Whether handles grow strictly along a list of completed tasks and stay
/// below `bound`.
pub open spec fn completed_in_order(list: Seq<CompletedView>, bound: int) -> bool {
    &&& forall|i: int, j: int| 0 <= i < j < list.len() ==> list[i].handle < list[j].handle
    &&& forall|i: int| 0 <= i < list.len() ==> (#[trigger] list[i]).handle < bound
}

/// Whether handles grow strictly along a list of outgoing requests and stay
/// below `bound`.
pub open spec fn outgoing_in_order(list: Seq<OutgoingView>, bound: int) -> bool {
    &&& forall|i: int, j: int| 0 <= i < j < list.len() ==> list[i].handle < list[j].handle
    &&& forall|i: int| 0 <= i < list.len() ==> (#[trigger] list[i]).handle < bound
}

/// What a tick hands out is in submission order: among the tasks that
/// complete in one tick, and among the requests that go out in one tick, the
/// one submitted first comes first, and none comes twice.
pub proof fn lemma_tick_in_submission_order(
    queue: Seq<TaskView>,
    replies: Seq<DeliveryView>,
    bound: int,
)
    requires
        increasing(queue),
        below(queue, bound),
    ensures
        completed_in_order(spec_completed(queue, replies), bound),
        outgoing_in_order(spec_outgoing(queue, replies), bound),
    decreases queue.len(),
{
    if queue.len() > 0 {
        let front = queue.drop_last();
        let task = queue.last();
        assert(increasing(front));
        assert(below(front, task.handle as int)) by {
            assert forall|i: int| 0 <= i < front.len() implies (#[trigger] front[i]).handle
                < task.handle by {
                assert(front[i] == queue[i]);
            }
        }
        lemma_tick_in_submission_order(front, replies, task.handle as int);
        assert(queue[queue.len() - 1].handle < bound);
    }
}

/// Whether every task of a queue waits for a reply.
pub open spec fn all_waiting(queue: Seq<TaskView>) -> bool {
    forall|i: int| 0 <= i < queue.len() ==> (#[trigger] queue[i]).awaiting
}

/// After a tick every task that is left waits for a reply: the tick ran
/// until nothing could go further without the network.
pub proof fn lemma_tick_runs_until_stalled(queue: Seq<TaskView>, replies: Seq<DeliveryView>)
    ensures
        all_waiting(spec_remaining(queue, replies)),
    decreases queue.len(),
{
    if queue.len() > 0 {
        lemma_tick_runs_until_stalled(queue.drop_last(), replies);
    }
}

/// A task that waits sends nothing, whatever arrives: the request of a task
/// goes out in the tick in which the task starts and is never sent again,
/// not even after a failure.
pub proof fn lemma_no_request_is_repeated(queue: Seq<TaskView>, replies: Seq<DeliveryView>)
    requires
        all_waiting(queue),
    ensures
        spec_outgoing(queue, replies).len() == 0,
    decreases queue.len(),
{
    if queue.len() > 0 {
        let front = queue.drop_last();
        assert(all_waiting(front)) by {
            assert forall|i: int| 0 <= i < front.len() implies (#[trigger] front[i]).awaiting by {
                assert(front[i] == queue[i]);
            }
        }
        lemma_no_request_is_repeated(front, replies);
        assert(queue.last().awaiting);
    }
}

/// Where every task waits and no reply arrived, a tick changes nothing:
/// waiting tasks yield to the host until their replies come.
pub proof fn lemma_waiting_tasks_yield(queue: Seq<TaskView>)
    requires
        all_waiting(queue),
    ensures
        spec_remaining(queue, Seq::empty()) == queue,
        spec_outgoing(queue, Seq::empty()).len() == 0,
        spec_completed(queue, Seq::empty()).len() == 0,
    decreases queue.len(),
{
    if queue.len() > 0 {
        let front = queue.drop_last();
        let task = queue.last();
        assert(all_waiting(front)) by {
            assert forall|i: int| 0 <= i < front.len() implies (#[trigger] front[i]).awaiting by {
                assert(front[i] == queue[i]);
            }
        }
        lemma_waiting_tasks_yield(front);
        assert(task.awaiting);
        assert(reply_for(Seq::<DeliveryView>::empty(), task.handle) is None);
        assert(progress(task, Seq::empty()) is Stalled);
        assert((TaskView { awaiting: true, ..task }) == task);
        assert(front.push(task) =~= queue);
    } else {
        assert(spec_remaining(queue, Seq::empty()) =~= queue);
    }
}

} // verus!
