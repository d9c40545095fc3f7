//! How a single shutdown message stops a whole pool: each worker that takes
//! it puts a copy back on the queue and stops, so the next worker finds one.
use vstd::prelude::*;

use crate::message::KafkaPublishMessageType;
use crate::message::MessageView;
use crate::work_queue::drained;
use crate::work_queue::left_after_drain;
use crate::worker::ActionModel;
use crate::worker::EventModel;
use crate::worker::WorkerModel;
use crate::worker::WorkerState;
use crate::worker::is_publishable;
use crate::worker::is_unsupported;

verus! {

/// Whether `m` is a shutdown message.
pub open spec fn is_shutdown(m: MessageView) -> bool {
    m.msg_type == KafkaPublishMessageType::Shutdown
}

/// A worker performs its pending action on `queue`, its publishes
/// succeeding, and takes in the outcome.
pub open spec fn perform(w: WorkerModel, queue: Seq<MessageView>) -> (
    WorkerModel,
    Seq<MessageView>,
) {
    match w.pending() {
        ActionModel::Drain(n) => (
            w.step(EventModel::Drained(drained(queue, n))).0,
            left_after_drain(queue, n),
        ),
        ActionModel::Sleep(_) => (w.step(EventModel::Slept).0, queue),
        ActionModel::Publish(_) => (w.step(EventModel::Published(0)).0, queue),
        ActionModel::Requeue(m) => (w.step(EventModel::Requeued).0, queue.push(m)),
        ActionModel::Exit(_) => (w, queue),
    }
}

/// A worker alone on `queue` for at most `fuel` of its actions, stopping
/// early once it has stopped.
pub open spec fn run(w: WorkerModel, queue: Seq<MessageView>, fuel: nat) -> (
    WorkerModel,
    Seq<MessageView>,
)
    decreases fuel,
{
    if fuel == 0 || w.state == WorkerState::Terminated {
        (w, queue)
    } else {
        let (w1, q1) = perform(w, queue);
        run(w1, q1, (fuel - 1) as nat)
    }
}

/// Workers run one after another on a shared queue, each for as many
/// actions as stop it on the queue it finds.
pub open spec fn run_in_turn(workers: Seq<WorkerModel>, queue: Seq<MessageView>) -> (
    Seq<WorkerModel>,
    Seq<MessageView>,
)
    decreases workers.len(),
{
    if workers.len() == 0 {
        (workers, queue)
    } else {
        let (w0, q0) = run(workers[0], queue, 2 * queue.len() + 3);
        let (rest, q1) = run_in_turn(workers.drop_first(), q0);
        (seq![w0] + rest, q1)
    }
}

/// No message of a kind that workers discard.
pub open spec fn all_handled(queue: Seq<MessageView>) -> bool {
    forall|i: int| 0 <= i < queue.len() ==> !is_unsupported(#[trigger] queue[i].msg_type)
}

/// A shutdown message somewhere in the queue.
pub open spec fn has_shutdown(queue: Seq<MessageView>) -> bool {
    exists|i: int| 0 <= i < queue.len() && is_shutdown(#[trigger] queue[i])
}

/// A worker ready to drain, holding nothing.
pub open spec fn is_fresh(w: WorkerModel) -> bool {
    w.wf() && w.state == WorkerState::Draining && w.batch.len() == 0
}

proof fn lemma_run_stopped(w: WorkerModel, queue: Seq<MessageView>, fuel: nat, more: nat)
    requires
        run(w, queue, fuel).0.state == WorkerState::Terminated,
    ensures
        run(w, queue, fuel + more) == run(w, queue, fuel),
    decreases fuel,
{
    if fuel == 0 || w.state == WorkerState::Terminated {
        if w.state != WorkerState::Terminated {
            assert(run(w, queue, fuel) == (w, queue));
        }
    } else {
        let (w1, q1) = perform(w, queue);
        lemma_run_stopped(w1, q1, (fuel - 1) as nat, more);
        assert((fuel + more - 1) as nat == (fuel - 1) as nat + more);
    }
}

/// Taking up a batch whose `j`-th message is a shutdown message, with only
/// publishable or shutdown messages before it, stops the worker within
/// `j + 1` actions, with a shutdown message added to the queue.
proof fn lemma_batch_with_shutdown(
    w: WorkerModel,
    queue: Seq<MessageView>,
    batch: Seq<MessageView>,
    j: int,
)
    requires
        w.dropped <= usize::MAX,
        0 <= j < batch.len(),
        is_shutdown(batch[j]),
        forall|i: int| 0 <= i < j ==> !is_unsupported(#[trigger] batch[i].msg_type),
    ensures
        ({
            let (w2, q2) = run(w.take_up(batch).0, queue, (j + 1) as nat);
            &&& w2.state == WorkerState::Terminated
            &&& exists|m: MessageView| is_shutdown(m) && q2 == queue.push(m)
        }),
    decreases j,
{
    let w1 = w.take_up(batch).0;
    if is_shutdown(batch[0]) {
        let (w2, q2) = perform(w1, queue);
        assert(w2.state == WorkerState::Terminated);
        assert(q2 == queue.push(batch[0]));
        assert(run(w2, q2, 0) == (w2, q2));
        assert(run(w1, queue, 1) == (w2, q2));
        lemma_run_stopped(w1, queue, 1, j as nat);
        assert((1 + j) as nat == (j + 1) as nat);
    } else {
        assert(j > 0);
        assert(!is_unsupported(batch[0].msg_type));
        assert(is_publishable(batch[0].msg_type));
        let rest = batch.drop_first();
        let (w2, q2) = perform(w1, queue);
        assert(w2 == w.take_up(rest).0);
        assert(q2 == queue);
        assert forall|i: int| 0 <= i < j - 1 implies !is_unsupported(#[trigger] rest[i].msg_type) by {
            assert(rest[i] == batch[i + 1]);
        }
        lemma_batch_with_shutdown(w, queue, rest, j - 1);
    }
}

/// Taking up a batch of publishable messages publishes them all, in as
/// many actions, and leaves the worker ready to drain again.
proof fn lemma_batch_published(
    w: WorkerModel,
    queue: Seq<MessageView>,
    batch: Seq<MessageView>,
    fuel: nat,
)
    requires
        w.dropped <= usize::MAX,
        forall|i: int| 0 <= i < batch.len() ==> is_publishable(#[trigger] batch[i].msg_type),
    ensures
        run(w.take_up(batch).0, queue, batch.len() + fuel) == run(
            w.take_up(Seq::empty()).0,
            queue,
            fuel,
        ),
    decreases batch.len(),
{
    if batch.len() > 0 {
        let w1 = w.take_up(batch).0;
        let rest = batch.drop_first();
        assert(is_publishable(batch[0].msg_type));
        let (w2, q2) = perform(w1, queue);
        assert(w2 == w.take_up(rest).0);
        assert forall|i: int| 0 <= i < rest.len() implies is_publishable(
            #[trigger] rest[i].msg_type,
        ) by {
            assert(rest[i] == batch[i + 1]);
        }
        lemma_batch_published(w, queue, rest, fuel);
        assert((batch.len() + fuel - 1) as nat == rest.len() + fuel);
    } else {
        assert(batch =~= Seq::<MessageView>::empty());
    }
}

/// A worker ready to drain, alone on a queue whose `p`-th message is a
/// shutdown message and that holds no discarded kind, stops within
/// `2 * p + 3` actions and leaves such a queue behind.
proof fn lemma_worker_alone(w: WorkerModel, queue: Seq<MessageView>, p: int)
    requires
        is_fresh(w),
        0 <= p < queue.len(),
        is_shutdown(queue[p]),
        all_handled(queue),
    ensures
        ({
            let (w2, q2) = run(w, queue, (2 * p + 3) as nat);
            &&& w2.state == WorkerState::Terminated
            &&& has_shutdown(q2)
            &&& all_handled(q2)
        }),
    decreases p,
{
    let k = if queue.len() < 10 {
        queue.len()
    } else {
        10
    };
    let batch = drained(queue, 10);
    let rest = left_after_drain(queue, 10);
    assert(batch == queue.take(k as int));
    assert(rest == queue.skip(k as int));
    let w1 = w.take_up(batch).0;
    assert(perform(w, queue) == (w1, rest));
    assert(run(w, queue, (2 * p + 3) as nat) == run(w1, rest, (2 * p + 2) as nat));
    assert(all_handled(rest)) by {
        assert forall|i: int| 0 <= i < rest.len() implies !is_unsupported(
            #[trigger] rest[i].msg_type,
        ) by {
            assert(rest[i] == queue[i + k]);
        }
    }
    if exists|j: int| 0 <= j < k && is_shutdown(#[trigger] batch[j]) {
        let j = if p < k {
            p
        } else {
            choose|j: int| 0 <= j < k && is_shutdown(#[trigger] batch[j])
        };
        if p < k {
            assert(batch[p] == queue[p]);
        }
        assert(j <= p);
        assert forall|i: int| 0 <= i < j implies !is_unsupported(#[trigger] batch[i].msg_type) by {
            assert(batch[i] == queue[i]);
        }
        lemma_batch_with_shutdown(w, rest, batch, j);
        let (w2, q2) = run(w1, rest, (j + 1) as nat);
        let m = choose|m: MessageView| is_shutdown(m) && q2 == rest.push(m);
        lemma_run_stopped(w1, rest, (j + 1) as nat, (2 * p + 1 - j) as nat);
        assert((j + 1) as nat + (2 * p + 1 - j) as nat == (2 * p + 2) as nat);
        assert(q2[rest.len() as int] == m);
        assert(all_handled(q2)) by {
            assert forall|i: int| 0 <= i < q2.len() implies !is_unsupported(
                #[trigger] q2[i].msg_type,
            ) by {
                if i < rest.len() {
                    assert(q2[i] == rest[i]);
                }
            }
        }
    } else {
        assert(p >= k) by {
            if p < k {
                assert(batch[p] == queue[p]);
            }
        }
        assert forall|i: int| 0 <= i < batch.len() implies is_publishable(
            #[trigger] batch[i].msg_type,
        ) by {
            assert(batch[i] == queue[i]);
            assert(!is_shutdown(batch[i]));
        }
        let fuel = (2 * p + 2 - k) as nat;
        lemma_batch_published(w, rest, batch, fuel);
        assert(batch.len() + fuel == (2 * p + 2) as nat);
        let w3 = w.take_up(Seq::empty()).0;
        assert(is_fresh(w3));
        assert(rest[p - k] == queue[p]);
        lemma_worker_alone(w3, rest, p - k);
        lemma_run_stopped(w3, rest, (2 * (p - k) + 3) as nat, (fuel - (2 * (p - k) + 3)) as nat);
        assert((2 * (p - k) + 3) as nat + (fuel - (2 * (p - k) + 3)) as nat == fuel);
    }
}

/// Fresh workers, run one after another, each until it stops, on a queue
/// that holds a shutdown message and no kind that workers discard, all
/// stop; and a shutdown message is still queued when they have.
pub proof fn lemma_every_worker_stops(workers: Seq<WorkerModel>, queue: Seq<MessageView>)
    requires
        forall|i: int| 0 <= i < workers.len() ==> is_fresh(#[trigger] workers[i]),
        has_shutdown(queue),
        all_handled(queue),
    ensures
        ({
            let (done, q) = run_in_turn(workers, queue);
            &&& done.len() == workers.len()
            &&& forall|i: int| 0 <= i < done.len() ==> (#[trigger] done[i]).state
                == WorkerState::Terminated
            &&& has_shutdown(q)
        }),
    decreases workers.len(),
{
    if workers.len() > 0 {
        let p = choose|p: int| 0 <= p < queue.len() && is_shutdown(#[trigger] queue[p]);
        assert(is_fresh(workers[0]));
        lemma_worker_alone(workers[0], queue, p);
        let fuel = (2 * p + 3) as nat;
        lemma_run_stopped(workers[0], queue, fuel, (2 * queue.len() + 3 - fuel) as nat);
        assert(fuel + (2 * queue.len() + 3 - fuel) as nat == 2 * queue.len() + 3);
        let (w0, q0) = run(workers[0], queue, 2 * queue.len() + 3);
        let rest = workers.drop_first();
        assert forall|i: int| 0 <= i < rest.len() implies is_fresh(#[trigger] rest[i]) by {
            assert(rest[i] == workers[i + 1]);
        }
        lemma_every_worker_stops(rest, q0);
        let (done_rest, q1) = run_in_turn(rest, q0);
        let done = seq![w0] + done_rest;
        assert forall|i: int| 0 <= i < done.len() implies (#[trigger] done[i]).state
            == WorkerState::Terminated by {
            if i > 0 {
                assert(done[i] == done_rest[i - 1]);
            }
        }
    }
}

/// A worker performs its pending action on `queue`; a publish comes back
/// with `status`.
pub open spec fn perform_answered(w: WorkerModel, queue: Seq<MessageView>, status: i32) -> (
    WorkerModel,
    Seq<MessageView>,
) {
    match w.pending() {
        ActionModel::Publish(_) => (w.step(EventModel::Published(status)).0, queue),
        _ => perform(w, queue),
    }
}

/// Some shutdown message is queued or in a worker's local batch.
pub open spec fn pool_has_shutdown(workers: Seq<WorkerModel>, queue: Seq<MessageView>) -> bool {
    has_shutdown(queue) || exists|i: int|
        0 <= i < workers.len() && has_shutdown(#[trigger] workers[i].batch)
}

/// Neither the queue nor any local batch holds a kind that workers discard,
/// and every worker is well formed.
pub open spec fn pool_handled(workers: Seq<WorkerModel>, queue: Seq<MessageView>) -> bool {
    &&& all_handled(queue)
    &&& forall|i: int|
        0 <= i < workers.len() ==> (#[trigger] workers[i]).wf() && all_handled(workers[i].batch)
}

proof fn lemma_take_up_keeps(w: WorkerModel, batch: Seq<MessageView>)
    requires
        w.dropped <= usize::MAX,
        all_handled(batch),
    ensures
        w.take_up(batch).0.wf(),
        w.take_up(batch).0.batch == batch,
{
    if batch.len() > 0 {
        assert(!is_unsupported(batch[0].msg_type));
    }
}

/// Whatever worker acts, in whatever order, and whatever the broker
/// answers, no step loses the last shutdown message while no discarded kind
/// is about: a shutdown message stays queued or held.
pub proof fn lemma_shutdown_never_lost(
    workers: Seq<WorkerModel>,
    queue: Seq<MessageView>,
    i: int,
    status: i32,
)
    requires
        0 <= i < workers.len(),
        pool_handled(workers, queue),
        pool_has_shutdown(workers, queue),
    ensures
        ({
            let (w1, q1) = perform_answered(workers[i], queue, status);
            let after = workers.update(i, w1);
            &&& pool_handled(after, q1)
            &&& pool_has_shutdown(after, q1)
        }),
{
    let w = workers[i];
    let (w1, q1) = perform_answered(w, queue, status);
    let after = workers.update(i, w1);
    assert(w.wf() && all_handled(w.batch));
    match w.state {
        WorkerState::Draining => {
            let batch = drained(queue, 10);
            let rest = left_after_drain(queue, 10);
            assert(batch + rest =~= queue);
            assert(all_handled(batch)) by {
                assert forall|j: int| 0 <= j < batch.len() implies !is_unsupported(
                    #[trigger] batch[j].msg_type,
                ) by {
                    assert(batch[j] == queue[j]);
                }
            }
            assert(all_handled(rest)) by {
                assert forall|j: int| 0 <= j < rest.len() implies !is_unsupported(
                    #[trigger] rest[j].msg_type,
                ) by {
                    assert(rest[j] == queue[j + batch.len()]);
                }
            }
            if batch.len() > 0 {
                lemma_take_up_keeps(w, batch);
            }
            assert(w1.batch == batch);
            assert(q1 == rest);
            if has_shutdown(queue) {
                let p = choose|p: int| 0 <= p < queue.len() && is_shutdown(#[trigger] queue[p]);
                if p < batch.len() {
                    assert(w1.batch[p] == queue[p]);
                    assert(has_shutdown(after[i].batch));
                } else {
                    assert(q1[p - batch.len()] == queue[p]);
                }
            } else {
                let j = choose|j: int| 0 <= j < workers.len() && has_shutdown(#[trigger] workers[j].batch);
                assert(j != i);
                assert(after[j] == workers[j]);
            }
        },
        WorkerState::Publishing => {
            if status == 0 {
                let rest = w.batch.drop_first();
                assert(all_handled(rest)) by {
                    assert forall|j: int| 0 <= j < rest.len() implies !is_unsupported(
                        #[trigger] rest[j].msg_type,
                    ) by {
                        assert(rest[j] == w.batch[j + 1]);
                    }
                }
                lemma_take_up_keeps(w, rest);
                if !has_shutdown(queue) {
                    let j = choose|j: int| 0 <= j < workers.len() && has_shutdown(#[trigger] workers[j].batch);
                    if j == i {
                        let p = choose|p: int| 0 <= p < w.batch.len() && is_shutdown(#[trigger] w.batch[p]);
                        assert(p > 0);
                        assert(rest[p - 1] == w.batch[p]);
                        assert(has_shutdown(after[i].batch));
                    } else {
                        assert(after[j] == workers[j]);
                    }
                }
            } else {
                if !has_shutdown(queue) {
                    let j = choose|j: int| 0 <= j < workers.len() && has_shutdown(#[trigger] workers[j].batch);
                    assert(after[j].batch == workers[j].batch);
                }
            }
        },
        WorkerState::ShuttingDown => {
            assert(q1 == queue.push(w.batch[0]));
            assert(q1[queue.len() as int] == w.batch[0]);
            assert(all_handled(q1)) by {
                assert forall|j: int| 0 <= j < q1.len() implies !is_unsupported(
                    #[trigger] q1[j].msg_type,
                ) by {
                    if j < queue.len() {
                        assert(q1[j] == queue[j]);
                    }
                }
            }
        },
        _ => {
            assert(w1.batch == w.batch);
            if !has_shutdown(queue) {
                let j = choose|j: int| 0 <= j < workers.len() && has_shutdown(#[trigger] workers[j].batch);
                assert(after[j].batch == workers[j].batch);
            }
        },
    }
    assert forall|j: int| 0 <= j < after.len() implies (#[trigger] after[j]).wf() && all_handled(
        after[j].batch,
    ) by {
        if j != i {
            assert(after[j] == workers[j]);
        }
    }
}

} // verus!
