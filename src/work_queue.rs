//! The shared work queue: an ordered vector of pending messages behind one
//! lock, appended to at the back and drained from the front.
use std::sync::Arc;
use std::sync::Mutex;
use std::sync::MutexGuard;
use vstd::prelude::*;

use crate::message::KafkaPublishMessage;

verus! {

#[verifier::external_type_specification]
#[verifier::external_body]
#[verifier::reject_recursive_types(T)]
pub struct ExMutex<T: ?Sized>(Mutex<T>);

#[verifier::external_type_specification]
#[verifier::external_body]
#[verifier::reject_recursive_types(T)]
pub struct ExMutexGuard<'a, T: ?Sized + 'a>(MutexGuard<'a, T>);

/// The most messages one drain takes off the queue.
pub const MAX_BATCH: usize = 10;

/// What an empty batch is refused with.
pub open spec fn empty_batch_text() -> Seq<char> {
    "no msgs to add"@
}

/// How a failure to take the lock begins.
pub open spec fn lock_failure_prefix() -> Seq<char> {
    "failed to get lock on work vec with err="@
}

/// How many messages a drain of at most `max_batch` takes from a queue of
/// `len` messages.
pub open spec fn batch_len(len: nat, max_batch: nat) -> nat {
    if len < max_batch {
        len
    } else {
        max_batch
    }
}

/// The messages that a drain of at most `max_batch` hands out, front first.
pub open spec fn drained<T>(queue: Seq<T>, max_batch: nat) -> Seq<T> {
    queue.take(batch_len(queue.len(), max_batch) as int)
}

/// The messages that stay queued after a drain of at most `max_batch`.
pub open spec fn left_after_drain<T>(queue: Seq<T>, max_batch: nat) -> Seq<T> {
    queue.skip(batch_len(queue.len(), max_batch) as int)
}

/// Appends `msgs` to the back of `work`, keeping their order; refuses an
/// empty batch and leaves `work` as it was. On success, the new length.
pub fn append_messages(
    work: &mut Vec<KafkaPublishMessage>,
    msgs: Vec<KafkaPublishMessage>,
) -> (r: Result<usize, String>)
    ensures
        msgs@.len() == 0 ==> {
            &&& r matches Err(e) && e@ == empty_batch_text()
            &&& final(work)@ == old(work)@
        },
        msgs@.len() > 0 ==> {
            &&& final(work)@ == old(work)@ + msgs@
            &&& old(work)@.len() + msgs@.len() <= usize::MAX
            &&& r == Ok::<usize, String>((old(work)@.len() + msgs@.len()) as usize)
        },
{
    if msgs.len() == 0 {
        return Err(String::from_str("no msgs to add"));
    }
    let mut msgs = msgs;
    work.append(&mut msgs);
    Ok(work.len())
}

/// Takes up to `max_batch` messages off the front of `work` and returns them
/// in queue order.
pub fn drain_batch(work: &mut Vec<KafkaPublishMessage>, max_batch: usize) -> (r: Vec<
    KafkaPublishMessage,
>)
    ensures
        r@ == drained(old(work)@, max_batch as nat),
        final(work)@ == left_after_drain(old(work)@, max_batch as nat),
{
    let n = if work.len() < max_batch {
        work.len()
    } else {
        max_batch
    };
    let mut rest = work.split_off(n);
    std::mem::swap(work, &mut rest);
    proof {
        assert(rest@ =~= drained(old(work)@, max_batch as nat));
        assert(work@ =~= left_after_drain(old(work)@, max_batch as nat));
    }
    rest
}

/// Relies on `Mutex::new`: a mutex, not locked, that holds `t`.
pub assume_specification<T>[ Mutex::<T>::new ](t: T) -> Mutex<T>;

/// Relies on `Mutex::lock`: waits until the lock is held, and fails, with
/// the text of the poison error, when an earlier holder panicked.
#[verifier::external_body]
fn lock_work_vec(lockable_work_vec: &Arc<Mutex<Vec<KafkaPublishMessage>>>) -> (r: Result<
    MutexGuard<'_, Vec<KafkaPublishMessage>>,
    String,
>) {
    lockable_work_vec.lock().map_err(|e| e.to_string())
}

/// Relies on `MutexGuard`'s `DerefMut`: the vector that the lock guards.
#[verifier::external_body]
fn guarded_vec<'a, 'b>(guard: &'b mut MutexGuard<'a, Vec<KafkaPublishMessage>>) -> (r: &'b mut Vec<
    KafkaPublishMessage,
>) {
    &mut *guard
}

/// The error for a lock that could not be taken, with its reason.
fn lock_failure(reason: String) -> (r: String)
    ensures
        r@ == lock_failure_prefix() + reason@,
{
    String::from_str("failed to get lock on work vec with err=").concat(reason.as_str())
}

/// Appends `msgs`, in order, to the shared queue while holding its lock, and
/// returns the queue's new length. An empty batch is refused before the lock
/// is taken; a poisoned lock is reported, not waited on.
pub fn add_messages_to_locked_work_vec(
    lockable_work_vec: &Arc<Mutex<Vec<KafkaPublishMessage>>>,
    msgs: Vec<KafkaPublishMessage>,
) -> (r: Result<usize, String>)
    ensures
        msgs@.len() == 0 <==> (r matches Err(e) && e@ == empty_batch_text()),
        r matches Ok(n) ==> n >= msgs@.len() > 0,
        r matches Err(e) ==> (e@ == empty_batch_text() || (msgs@.len() > 0 && e@.len()
            >= lock_failure_prefix().len() && e@.take(lock_failure_prefix().len() as int)
            == lock_failure_prefix())),
{
    if msgs.len() == 0 {
        return Err(String::from_str("no msgs to add"));
    }
    match lock_work_vec(lockable_work_vec) {
        Ok(mut guard) => {
            let work = guarded_vec(&mut guard);
            append_messages(work, msgs)
        },
        Err(reason) => {
            let e = lock_failure(reason);
            proof {
                assert(e@.take(lock_failure_prefix().len() as int) =~= lock_failure_prefix());
                assert(e@ != empty_batch_text()) by {
                    reveal_strlit("no msgs to add");
                    reveal_strlit("failed to get lock on work vec with err=");
                    assert(e@.len() > empty_batch_text().len());
                }
            }
            Err(e)
        },
    }
}

/// Takes up to `max_batch` messages off the front of the shared queue while
/// holding its lock, in queue order. A poisoned lock gives an empty batch.
pub fn drain_messages_up_to(
    lockable_work_vec: &Arc<Mutex<Vec<KafkaPublishMessage>>>,
    max_batch: usize,
) -> (r: Vec<KafkaPublishMessage>)
    ensures
        r@.len() <= max_batch,
{
    match lock_work_vec(lockable_work_vec) {
        Ok(mut guard) => {
            let work = guarded_vec(&mut guard);
            drain_batch(work, max_batch)
        },
        Err(_) => Vec::new(),
    }
}

/// Takes up to `MAX_BATCH` messages off the front of the shared queue while
/// holding its lock, in queue order. A poisoned lock gives an empty batch.
pub fn drain_messages_from_locked_work_vec(
    lockable_work_vec: &Arc<Mutex<Vec<KafkaPublishMessage>>>,
) -> (r: Vec<KafkaPublishMessage>)
    ensures
        r@.len() <= MAX_BATCH,
{
    drain_messages_up_to(lockable_work_vec, MAX_BATCH)
}

/// A new, empty shared queue.
pub fn new_work_vec() -> (r: Arc<Mutex<Vec<KafkaPublishMessage>>>) {
    Arc::new(Mutex::new(Vec::new()))
}

/// A drain keeps order: the batch it hands out, followed by what stays
/// queued, is the queue as it was; and what stays is the old length less the
/// smaller of the batch bound and that length.
pub proof fn lemma_drain_keeps_order<T>(queue: Seq<T>, max_batch: nat)
    ensures
        drained(queue, max_batch) + left_after_drain(queue, max_batch) == queue,
        left_after_drain(queue, max_batch).len() == queue.len() - batch_len(
            queue.len(),
            max_batch,
        ),
        drained(queue, max_batch).len() == batch_len(queue.len(), max_batch),
{
    assert(drained(queue, max_batch) + left_after_drain(queue, max_batch) =~= queue);
}

} // verus!
