//! The bridge between asynchronous work and a host that only offers a
//! per-tick callback. It is a cooperative scheduler on one thread: a queue
//! of pending tasks in submission order, advanced once per tick as far as
//! each task can go without waiting. The bridge performs no I/O: a tick
//! hands out the requests to send and takes in the replies that arrived.

use vstd::prelude::*;
use crate::error::{RpcError, RpcErrorView};
use crate::ethers_provider::{
    Call, CallView, EthersProvider, ProviderView, Step, StepView, spec_dispatch, spec_settle,
};
use crate::transport::{
    Answer, AnswerView, Reply, ReplyView, RpcRequest, RpcRequestView, outcome_view,
};

verus! {

/// A unit of work that is not complete yet. From submission to completion
/// the bridge alone owns it. It carries the provider as it was when the call
/// was submitted: a later switch of backend or endpoint does not reach it.
pub struct PendingTask {
    handle: u64,
    provider: EthersProvider,
    call: Call,
    awaiting: bool,
}

/// The mathematical value of a [`PendingTask`].
pub struct TaskView {
    pub handle: u64,
    pub provider: ProviderView,
    pub call: CallView,
    pub awaiting: bool,
}

impl View for PendingTask {
    type V = TaskView;

    closed spec fn view(&self) -> TaskView {
        TaskView {
            handle: self.handle,
            provider: self.provider@,
            call: self.call@,
            awaiting: self.awaiting,
        }
    }
}

/// A reply that arrived for the task with the given handle.
#[derive(Debug, PartialEq, Eq)]
pub struct Delivery {
    pub handle: u64,
    pub reply: Reply,
}

/// The mathematical value of a [`Delivery`].
pub struct DeliveryView {
    pub handle: u64,
    pub reply: ReplyView,
}

impl View for Delivery {
    type V = DeliveryView;

    open spec fn view(&self) -> DeliveryView {
        DeliveryView { handle: self.handle, reply: self.reply@ }
    }
}

/// A request to send on behalf of the task with the given handle.
#[derive(Debug, PartialEq, Eq)]
pub struct Outgoing {
    pub handle: u64,
    pub request: RpcRequest,
}

/// The mathematical value of an [`Outgoing`].
pub struct OutgoingView {
    pub handle: u64,
    pub request: RpcRequestView,
}

impl View for Outgoing {
    type V = OutgoingView;

    open spec fn view(&self) -> OutgoingView {
        OutgoingView { handle: self.handle, request: self.request@ }
    }
}

/// The result of the task with the given handle, which has left the queue.
#[derive(Debug, PartialEq, Eq)]
pub struct Completed {
    pub handle: u64,
    pub outcome: Result<Answer, RpcError>,
}

/// The mathematical value of a [`Completed`].
pub struct CompletedView {
    pub handle: u64,
    pub outcome: Result<AnswerView, RpcErrorView>,
}

impl View for Completed {
    type V = CompletedView;

    open spec fn view(&self) -> CompletedView {
        CompletedView { handle: self.handle, outcome: outcome_view(self.outcome) }
    }
}

/// What one tick produced: the requests to send and the tasks that
/// completed, each in submission order.
#[derive(Debug, PartialEq, Eq)]
pub struct Tick {
    pub outgoing: Vec<Outgoing>,
    pub completed: Vec<Completed>,
}

/// The mathematical value of a [`Tick`].
pub struct TickView {
    pub outgoing: Seq<OutgoingView>,
    pub completed: Seq<CompletedView>,
}

/// The views of a list of tasks, in order.
pub open spec fn tasks_view(list: Seq<PendingTask>) -> Seq<TaskView> {
    Seq::new(list.len(), |i: int| list[i]@)
}

/// The views of a list of deliveries, in order.
pub open spec fn deliveries_view(list: Seq<Delivery>) -> Seq<DeliveryView> {
    Seq::new(list.len(), |i: int| list[i]@)
}

/// The views of a list of outgoing requests, in order.
pub open spec fn outgoing_view(list: Seq<Outgoing>) -> Seq<OutgoingView> {
    Seq::new(list.len(), |i: int| list[i]@)
}

/// The views of a list of completed tasks, in order.
pub open spec fn completed_view(list: Seq<Completed>) -> Seq<CompletedView> {
    Seq::new(list.len(), |i: int| list[i]@)
}

impl View for Tick {
    type V = TickView;

    open spec fn view(&self) -> TickView {
        TickView {
            outgoing: outgoing_view(self.outgoing@),
            completed: completed_view(self.completed@),
        }
    }
}

/// The first reply among `replies` that is addressed to `handle`.
pub open spec fn reply_for(replies: Seq<DeliveryView>, handle: u64) -> Option<ReplyView>
    decreases replies.len(),
{
    if replies.len() == 0 {
        None
    } else if replies[0].handle == handle {
        Some(replies[0].reply)
    } else {
        reply_for(replies.drop_first(), handle)
    }
}

/// How far one task gets in one tick.
pub enum Progress {
    /// The task completes with this result and leaves the queue.
    Completed(Result<AnswerView, RpcErrorView>),
    /// The task's request goes out; the task stays and waits for the reply.
    Sent(RpcRequestView),
    /// The task waits for a reply that has not arrived; it stays as it is.
    Stalled,
}

/// How far a task gets in a tick in which `replies` arrived. A task that has
/// not started takes its step under the provider it was submitted with: it
/// completes at once or sends its request. A task that waits completes
/// exactly when a reply for its handle arrived, with what that reply means
/// for its call.
pub open spec fn progress(task: TaskView, replies: Seq<DeliveryView>) -> Progress {
    if task.awaiting {
        match reply_for(replies, task.handle) {
            Some(reply) => Progress::Completed(spec_settle(task.call, reply)),
            None => Progress::Stalled,
        }
    } else {
        match spec_dispatch(task.provider, task.call) {
            StepView::Done(outcome) => Progress::Completed(outcome),
            StepView::Send(request) => Progress::Sent(request),
        }
    }
}

/// The queue after a tick: the tasks that did not complete, in their order,
/// each now waiting for a reply.
pub open spec fn spec_remaining(queue: Seq<TaskView>, replies: Seq<DeliveryView>) -> Seq<TaskView>
    decreases queue.len(),
{
    if queue.len() == 0 {
        Seq::empty()
    } else {
        let rest = spec_remaining(queue.drop_last(), replies);
        let task = queue.last();
        match progress(task, replies) {
            Progress::Completed(_) => rest,
            _ => rest.push(TaskView { awaiting: true, ..task }),
        }
    }
}

/// The requests that a tick sends: one for each task that started in this
/// tick and needs the node, in queue order.
pub open spec fn spec_outgoing(queue: Seq<TaskView>, replies: Seq<DeliveryView>) -> Seq<
    OutgoingView,
>
    decreases queue.len(),
{
    if queue.len() == 0 {
        Seq::empty()
    } else {
        let rest = spec_outgoing(queue.drop_last(), replies);
        let task = queue.last();
        match progress(task, replies) {
            Progress::Sent(request) => rest.push(OutgoingView { handle: task.handle, request }),
            _ => rest,
        }
    }
}

/// The tasks that complete in a tick, with their results, in queue order.
pub open spec fn spec_completed(queue: Seq<TaskView>, replies: Seq<DeliveryView>) -> Seq<
    CompletedView,
>
    decreases queue.len(),
{
    if queue.len() == 0 {
        Seq::empty()
    } else {
        let rest = spec_completed(queue.drop_last(), replies);
        let task = queue.last();
        match progress(task, replies) {
            Progress::Completed(outcome) => rest.push(
                CompletedView { handle: task.handle, outcome },
            ),
            _ => rest,
        }
    }
}

/// Whether handles grow strictly along the queue.
pub open spec fn increasing(queue: Seq<TaskView>) -> bool {
    forall|i: int, j: int| 0 <= i < j < queue.len() ==> queue[i].handle < queue[j].handle
}

/// Whether every handle in the queue is below `bound`.
pub open spec fn below(queue: Seq<TaskView>, bound: int) -> bool {
    forall|i: int| 0 <= i < queue.len() ==> (#[trigger] queue[i]).handle < bound
}

/// The scheduler: the run-queue of tasks that are not complete, and the
/// handle that the next submission gets.
pub struct AsyncBridge {
    queue: Vec<PendingTask>,
    next_handle: u64,
}

/// The mathematical value of an [`AsyncBridge`].
pub struct BridgeView {
    pub queue: Seq<TaskView>,
    pub next_handle: u64,
}

impl BridgeView {
    /// The invariant of the bridge: the queue is in submission order, so
    /// handles grow strictly along it, and every handle in it was given out
    /// before.
    pub open spec fn wf(self) -> bool {
        increasing(self.queue) && below(self.queue, self.next_handle as int)
    }

    /// The bridge after a submission: the new task is last in the queue,
    /// has not started, and holds the provider as it is now.
    pub open spec fn submitted(self, provider: ProviderView, call: CallView) -> BridgeView {
        BridgeView {
            queue: self.queue.push(
                TaskView { handle: self.next_handle, provider, call, awaiting: false },
            ),
            next_handle: (self.next_handle + 1) as u64,
        }
    }

    /// The bridge after a tick in which `replies` arrived.
    pub open spec fn driven(self, replies: Seq<DeliveryView>) -> BridgeView {
        BridgeView { queue: spec_remaining(self.queue, replies), next_handle: self.next_handle }
    }

    /// What a tick in which `replies` arrived produces.
    pub open spec fn tick(self, replies: Seq<DeliveryView>) -> TickView {
        TickView {
            outgoing: spec_outgoing(self.queue, replies),
            completed: spec_completed(self.queue, replies),
        }
    }
}

impl View for AsyncBridge {
    type V = BridgeView;

    closed spec fn view(&self) -> BridgeView {
        BridgeView { queue: tasks_view(self.queue@), next_handle: self.next_handle }
    }
}

/// A tick keeps the queue in submission order and invents no handle.
pub proof fn lemma_remaining_ordered(queue: Seq<TaskView>, replies: Seq<DeliveryView>, bound: int)
    requires
        increasing(queue),
        below(queue, bound),
    ensures
        increasing(spec_remaining(queue, replies)),
        below(spec_remaining(queue, replies), bound),
    decreases queue.len(),
{
    if queue.len() > 0 {
        let front = queue.drop_last();
        let task = queue.last();
        assert(increasing(front));
        assert(below(front, task.handle as int)) by {
            assert forall|i: int| 0 <= i < front.len() implies (#[trigger] front[i]).handle
                < task.handle by {
                assert(front[i] == queue[i]);
            }
        }
        lemma_remaining_ordered(front, replies, task.handle as int);
        let rest = spec_remaining(front, replies);
        assert(below(rest, bound)) by {
            assert forall|i: int| 0 <= i < rest.len() implies (#[trigger] rest[i]).handle
                < bound by {
                assert(rest[i].handle < task.handle);
                assert(queue[queue.len() - 1].handle < bound);
            }
        }
    }
}

/// The handles of the tasks of a queue, in order.
pub open spec fn handles(queue: Seq<TaskView>) -> Seq<u64> {
    Seq::new(queue.len(), |i: int| queue[i].handle)
}

/// Finds the first reply that is addressed to `handle`.
fn find_reply(replies: &Vec<Delivery>, handle: u64) -> (res: Option<usize>)
    ensures
        match res {
            Some(index) => index < replies@.len() && reply_for(deliveries_view(replies@), handle)
                == Some(replies@[index as int].reply@),
            None => reply_for(deliveries_view(replies@), handle) is None,
        },
{
    let ghost all = deliveries_view(replies@);
    let mut index: usize = 0;
    proof {
        assert(all.skip(0) =~= all);
    }
    while index < replies.len()
        invariant
            index <= replies@.len(),
            all == deliveries_view(replies@),
            reply_for(all, handle) == reply_for(all.skip(index as int), handle),
        decreases replies@.len() - index,
    {
        proof {
            assert(all.skip(index as int).drop_first() =~= all.skip(index as int + 1));
        }
        if replies[index].handle == handle {
            return Some(index);
        }
        index += 1;
    }
    None
}

impl AsyncBridge {
    /// The invariant of the type: every bridge that exists meets it.
    #[verifier::type_invariant]
    pub open spec fn wf(&self) -> bool {
        self@.wf()
    }

    /// A bridge with no task.
    pub fn new() -> (res: AsyncBridge)
        ensures
            res@ == (BridgeView { queue: Seq::empty(), next_handle: 0 }),
    {
        let queue: Vec<PendingTask> = Vec::new();
        assert(tasks_view(queue@) =~= Seq::empty());
        AsyncBridge { queue, next_handle: 0 }
    }

    /// The number of tasks that are not complete.
    pub fn pending(&self) -> (res: usize)
        ensures
            res == self@.queue.len(),
    {
        self.queue.len()
    }

    /// Whether another task can be submitted: the handles are not used up.
    pub fn can_submit(&self) -> (res: bool)
        ensures
            res == (self@.next_handle < u64::MAX),
    {
        self.next_handle < u64::MAX
    }

    /// Takes a call into the queue and returns its handle. The task holds a
    /// copy of the provider as it is now, and completes under that copy
    /// whatever the host does to its provider afterwards.
    pub fn submit(&mut self, provider: &EthersProvider, call: Call) -> (handle: u64)
        requires
            old(self)@.next_handle < u64::MAX,
        ensures
            handle == old(self)@.next_handle,
            final(self)@ == old(self)@.submitted(provider@, call@),
    {
        proof {
            use_type_invariant(&*self);
        }
        let handle = self.next_handle;
        let task = PendingTask { handle, provider: provider.clone(), call, awaiting: false };
        let mut queue: Vec<PendingTask> = Vec::new();
        core::mem::swap(&mut self.queue, &mut queue);
        queue.push(task);
        proof {
            assert(tasks_view(queue@) =~= old(self)@.queue.push(task@));
        }
        *self = AsyncBridge { queue, next_handle: handle + 1 };
        handle
    }

    /// Takes a call into the queue as [`AsyncBridge::submit`] does, where a
    /// handle is left to give. Where none is left the bridge stays as it is
    /// and the result is `None`.
    pub fn try_submit(&mut self, provider: &EthersProvider, call: Call) -> (res: Option<u64>)
        ensures
            match res {
                Some(handle) => old(self)@.next_handle < u64::MAX && handle
                    == old(self)@.next_handle && final(self)@ == old(self)@.submitted(
                    provider@,
                    call@,
                ),
                None => old(self)@.next_handle == u64::MAX && final(self)@ == old(self)@,
            },
    {
        if self.can_submit() {
            Some(self.submit(provider, call))
        } else {
            None
        }
    }

    /// Tears the bridge down. The tasks that are still pending are dropped
    /// as they are, without a result; their handles are returned, in
    /// submission order.
    pub fn teardown(self) -> (dropped: Vec<u64>)
        ensures
            dropped@ == handles(self@.queue),
    {
        let mut dropped: Vec<u64> = Vec::new();
        let mut i: usize = 0;
        while i < self.queue.len()
            invariant
                i <= self.queue@.len(),
                dropped@ == handles(self@.queue).take(i as int),
            decreases self.queue@.len() - i,
        {
            dropped.push(self.queue[i].handle);
            proof {
                let all = handles(self@.queue);
                assert(all.take(i as int + 1) =~= all.take(i as int).push(all[i as int]));
            }
            i += 1;
        }
        proof {
            let all = handles(self@.queue);
            assert(all.take(all.len() as int) =~= all);
        }
        dropped
    }

    /// Runs one tick: every task goes as far as it can without waiting, in
    /// submission order, and the call returns. A task that has not started
    /// takes its step under the provider it was submitted with. A task that
    /// waits completes if a reply for it is among `replies`; the first such
    /// reply counts. No task is dropped: one leaves the queue only by
    /// completing. Replies for handles that are not waiting are ignored.
    pub fn drive_once(&mut self, replies: &Vec<Delivery>) -> (tick: Tick)
        ensures
            final(self)@ == old(self)@.driven(deliveries_view(replies@)),
            tick@ == old(self)@.tick(deliveries_view(replies@)),
    {
        proof {
            use_type_invariant(&*self);
        }
        let mut pending: Vec<PendingTask> = Vec::new();
        core::mem::swap(&mut self.queue, &mut pending);
        let ghost before = tasks_view(pending@);
        let ghost arrived = deliveries_view(replies@);
        let mut waiting: Vec<PendingTask> = Vec::new();
        let mut outgoing: Vec<Outgoing> = Vec::new();
        let mut completed: Vec<Completed> = Vec::new();
        proof {
            assert(before.take(0) =~= Seq::empty());
            assert(tasks_view(waiting@) =~= Seq::empty());
            assert(outgoing_view(outgoing@) =~= Seq::empty());
            assert(completed_view(completed@) =~= Seq::empty());
        }
        for task in it: pending.into_iter()
            invariant
                before == tasks_view(it.seq()),
                arrived == deliveries_view(replies@),
                tasks_view(waiting@) == spec_remaining(before.take(it.index() as int), arrived),
                outgoing_view(outgoing@) == spec_outgoing(
                    before.take(it.index() as int),
                    arrived,
                ),
                completed_view(completed@) == spec_completed(
                    before.take(it.index() as int),
                    arrived,
                ),
        {
            let ghost upto = before.take(it.index() as int + 1);
            let ghost kept = tasks_view(waiting@);
            let ghost sent = outgoing_view(outgoing@);
            let ghost done = completed_view(completed@);
            proof {
                assert(upto.drop_last() =~= before.take(it.index() as int));
                assert(upto.last() == task@);
            }
            let mut task = task;
            let handle = task.handle;
            if task.awaiting {
                match find_reply(replies, handle) {
                    Some(index) => {
                        let outcome = EthersProvider::settle(&task.call, &replies[index].reply);
                        let item = Completed { handle, outcome };
                        completed.push(item);
                        proof {
                            assert(completed_view(completed@) =~= done.push(item@));
                        }
                    },
                    None => {
                        waiting.push(task);
                        proof {
                            assert(tasks_view(waiting@) =~= kept.push(task@));
                        }
                    },
                }
            } else {
                match task.provider.dispatch(&task.call) {
                    Step::Done(outcome) => {
                        let item = Completed { handle, outcome };
                        completed.push(item);
                        proof {
                            assert(completed_view(completed@) =~= done.push(item@));
                        }
                    },
                    Step::Send(request) => {
                        let item = Outgoing { handle, request };
                        outgoing.push(item);
                        task.awaiting = true;
                        waiting.push(task);
                        proof {
                            assert(outgoing_view(outgoing@) =~= sent.push(item@));
                            assert(tasks_view(waiting@) =~= kept.push(task@));
                        }
                    },
                }
            }
        }
        proof {
            assert(before.take(before.len() as int) =~= before);
            lemma_remaining_ordered(before, arrived, old(self)@.next_handle as int);
        }
        *self = AsyncBridge { queue: waiting, next_handle: self.next_handle };
        Tick { outgoing, completed }
    }
}

} // verus!
