//! The decisions of one worker: what to do next, given what it holds and
//! what the last thing it asked for came back with. The caller performs the
//! actions (drain, sleep, publish, requeue) and hands back the outcome.
use vstd::prelude::*;

use crate::config::KafkaClientConfig;
use crate::message::KafkaPublishMessage;
use crate::message::KafkaPublishMessageType;
use crate::message::MessageView;
use crate::work_queue::MAX_BATCH;

verus! {

/// Where a worker stands in its loop.
#[derive(Debug, Clone, Copy, PartialEq, Eq, Structural)]
pub enum WorkerState {
    /// About to take a batch off the queue.
    Draining,
    /// Found the queue empty, sleeping before the next drain.
    Idle,
    /// Waiting for the broker to answer a publish of the batch's front.
    Publishing,
    /// The last publish failed, sleeping before the same message is retried.
    RetryWait,
    /// Took the shutdown message, waiting for its copy to be requeued.
    ShuttingDown,
    /// Done: the worker's loop has ended.
    Terminated,
}

/// The outcome of the action a worker last asked for.
pub enum WorkerEvent {
    /// A drain of the queue gave these messages, in queue order.
    Drained(Vec<KafkaPublishMessage>),
    /// A sleep has ended.
    Slept,
    /// A publish came back with this status; `0` is success.
    Published(i32),
    /// The shutdown message was put back on the queue (or that failed).
    Requeued(Result<usize, String>),
}

/// What a worker asks its caller to do next.
pub enum WorkerAction {
    /// Take up to this many messages off the front of the queue.
    Drain(usize),
    /// Sleep this many milliseconds.
    Sleep(u64),
    /// Publish this message.
    Publish(KafkaPublishMessage),
    /// Append this message to the queue.
    Requeue(KafkaPublishMessage),
    /// Stop; this many messages of the local batch were left unprocessed.
    Exit(usize),
}

/// An event as plain values.
pub ghost enum EventModel {
    Drained(Seq<MessageView>),
    Slept,
    Published(i32),
    Requeued,
}

/// An action as plain values.
pub ghost enum ActionModel {
    Drain(nat),
    Sleep(u64),
    Publish(MessageView),
    Requeue(MessageView),
    Exit(nat),
}

/// The plain values of each message, in order.
pub open spec fn views(msgs: Seq<KafkaPublishMessage>) -> Seq<MessageView> {
    msgs.map_values(|m: KafkaPublishMessage| m@)
}

impl View for WorkerEvent {
    type V = EventModel;

    open spec fn view(&self) -> EventModel {
        match self {
            WorkerEvent::Drained(v) => EventModel::Drained(views(v@)),
            WorkerEvent::Slept => EventModel::Slept,
            WorkerEvent::Published(s) => EventModel::Published(*s),
            WorkerEvent::Requeued(_) => EventModel::Requeued,
        }
    }
}

impl View for WorkerAction {
    type V = ActionModel;

    open spec fn view(&self) -> ActionModel {
        match self {
            WorkerAction::Drain(n) => ActionModel::Drain(*n as nat),
            WorkerAction::Sleep(ms) => ActionModel::Sleep(*ms),
            WorkerAction::Publish(m) => ActionModel::Publish(m@),
            WorkerAction::Requeue(m) => ActionModel::Requeue(m@),
            WorkerAction::Exit(n) => ActionModel::Exit(*n as nat),
        }
    }
}

/// A worker as plain values.
pub ghost struct WorkerModel {
    pub thread_num: u8,
    pub retry_sleep: u64,
    pub idle_sleep: u64,
    pub state: WorkerState,
    /// The local batch; its front is the message in hand.
    pub batch: Seq<MessageView>,
    /// How many messages this worker has discarded without publishing.
    pub dropped: nat,
}

/// The kinds a worker publishes.
pub open spec fn is_publishable(t: KafkaPublishMessageType) -> bool {
    t == KafkaPublishMessageType::Data || t == KafkaPublishMessageType::Sensitive
}

/// The kinds a worker does not handle: it discards the rest of its batch.
pub open spec fn is_unsupported(t: KafkaPublishMessageType) -> bool {
    t == KafkaPublishMessageType::LogBrokerDetails || t
        == KafkaPublishMessageType::LogBrokerTopicDetails
}

/// A count that stops at the largest `usize`.
pub open spec fn saturating(n: int) -> nat {
    if n > usize::MAX {
        usize::MAX as nat
    } else {
        n as nat
    }
}

impl WorkerModel {
    /// Whether this is worker `thread_num` of a pool with `config`, as it
    /// starts: draining, or, with no broker to connect to, already stopped.
    pub open spec fn starts(self, thread_num: int, config: KafkaClientConfig) -> bool {
        &&& self.thread_num == thread_num
        &&& self.retry_sleep == config.retry_sleep_sec
        &&& self.idle_sleep == config.idle_sleep_sec
        &&& self.state == if config.has_brokers() {
            WorkerState::Draining
        } else {
            WorkerState::Terminated
        }
        &&& self.batch.len() == 0
        &&& self.dropped == 0
    }

    /// What the state says of the local batch.
    pub open spec fn wf(self) -> bool {
        &&& self.dropped <= usize::MAX
        &&& match self.state {
            WorkerState::Draining | WorkerState::Idle | WorkerState::Terminated => self.batch.len()
                == 0,
            WorkerState::Publishing | WorkerState::RetryWait => self.batch.len() > 0
                && is_publishable(self.batch[0].msg_type),
            WorkerState::ShuttingDown => self.batch.len() > 0 && self.batch[0].msg_type
                == KafkaPublishMessageType::Shutdown,
        }
    }

    /// This worker in `state` with local batch `batch`.
    pub open spec fn with(self, state: WorkerState, batch: Seq<MessageView>) -> WorkerModel {
        WorkerModel { state, batch, ..self }
    }

    /// The action that the state stands for: asked for again whenever an
    /// event comes that the state does not wait for.
    pub open spec fn pending(self) -> ActionModel {
        match self.state {
            WorkerState::Draining => ActionModel::Drain(MAX_BATCH as nat),
            WorkerState::Idle => ActionModel::Sleep(self.idle_sleep),
            WorkerState::Publishing => ActionModel::Publish(self.batch[0]),
            WorkerState::RetryWait => ActionModel::Sleep(self.retry_sleep),
            WorkerState::ShuttingDown => ActionModel::Requeue(self.batch[0]),
            WorkerState::Terminated => ActionModel::Exit(0),
        }
    }

    /// Goes on with `batch` as the local batch, front first: a publishable
    /// message is published, the shutdown message is requeued, and a kind
    /// that is not handled discards the whole rest of the batch.
    pub open spec fn take_up(self, batch: Seq<MessageView>) -> (WorkerModel, ActionModel) {
        if batch.len() == 0 {
            (self.with(WorkerState::Draining, batch), ActionModel::Drain(MAX_BATCH as nat))
        } else if batch[0].msg_type == KafkaPublishMessageType::Shutdown {
            (self.with(WorkerState::ShuttingDown, batch), ActionModel::Requeue(batch[0]))
        } else if is_publishable(batch[0].msg_type) {
            (self.with(WorkerState::Publishing, batch), ActionModel::Publish(batch[0]))
        } else {
            (
                WorkerModel {
                    state: WorkerState::Draining,
                    batch: Seq::empty(),
                    dropped: saturating(self.dropped + batch.len() as int),
                    ..self
                },
                ActionModel::Drain(MAX_BATCH as nat),
            )
        }
    }

    /// One step of the worker's loop.
    pub open spec fn step(self, e: EventModel) -> (WorkerModel, ActionModel) {
        match (self.state, e) {
            (WorkerState::Draining, EventModel::Drained(b)) => {
                if b.len() == 0 {
                    (self.with(WorkerState::Idle, b), ActionModel::Sleep(self.idle_sleep))
                } else {
                    self.take_up(b)
                }
            },
            (WorkerState::Idle, EventModel::Slept) => (
                self.with(WorkerState::Draining, self.batch),
                ActionModel::Drain(MAX_BATCH as nat),
            ),
            (WorkerState::Publishing, EventModel::Published(status)) => {
                if status == 0 {
                    self.take_up(self.batch.drop_first())
                } else {
                    (self.with(WorkerState::RetryWait, self.batch), ActionModel::Sleep(self.retry_sleep))
                }
            },
            (WorkerState::RetryWait, EventModel::Slept) => (
                self.with(WorkerState::Publishing, self.batch),
                ActionModel::Publish(self.batch[0]),
            ),
            (WorkerState::ShuttingDown, EventModel::Requeued) => (
                WorkerModel {
                    state: WorkerState::Terminated,
                    batch: Seq::empty(),
                    dropped: saturating(self.dropped + (self.batch.len() - 1)),
                    ..self
                },
                ActionModel::Exit((self.batch.len() - 1) as nat),
            ),
            _ => (self, self.pending()),
        }
    }
}

/// One worker of the pool: its settings, where it stands, and its local
/// batch.
pub struct Worker {
    thread_num: u8,
    retry_sleep: u64,
    idle_sleep: u64,
    state: WorkerState,
    batch: Vec<KafkaPublishMessage>,
    dropped: usize,
}

impl View for Worker {
    type V = WorkerModel;

    closed spec fn view(&self) -> WorkerModel {
        WorkerModel {
            thread_num: self.thread_num,
            retry_sleep: self.retry_sleep,
            idle_sleep: self.idle_sleep,
            state: self.state,
            batch: views(self.batch@),
            dropped: self.dropped as nat,
        }
    }
}

impl Worker {
    /// What the state says of the local batch.
    pub open spec fn wf(&self) -> bool {
        self@.wf()
    }

    /// Worker `thread_num` of a pool with `config`. It starts draining, or,
    /// with no broker to connect to, has already stopped.
    pub fn new(thread_num: u8, config: &KafkaClientConfig) -> (r: Worker)
        ensures
            r.wf(),
            r@.starts(thread_num as int, *config),
    {
        let state = if config.brokers_available() {
            WorkerState::Draining
        } else {
            WorkerState::Terminated
        };
        let r = Worker {
            thread_num,
            retry_sleep: config.retry_sleep_sec,
            idle_sleep: config.idle_sleep_sec,
            state,
            batch: Vec::new(),
            dropped: 0,
        };
        assert(r@.batch =~= Seq::<MessageView>::empty());
        r
    }

    /// The worker's number in its pool, from 0.
    pub fn thread_num(&self) -> (r: u8)
        ensures
            r == self@.thread_num,
    {
        self.thread_num
    }

    /// Where the worker stands in its loop.
    pub fn state(&self) -> (r: WorkerState)
        ensures
            r == self@.state,
    {
        self.state
    }

    /// How many messages remain in the local batch.
    pub fn batch_len(&self) -> (r: usize)
        ensures
            r == self@.batch.len(),
    {
        self.batch.len()
    }

    /// How many messages this worker discarded without publishing them:
    /// the rest of a batch after a kind it does not handle, and what was left
    /// behind the shutdown message.
    pub fn dropped(&self) -> (r: usize)
        ensures
            r == self@.dropped,
    {
        self.dropped
    }

    /// The action that the worker's state stands for.
    pub fn pending_action(&self) -> (r: WorkerAction)
        requires
            self.wf(),
        ensures
            r@ == self@.pending(),
    {
        match self.state {
            WorkerState::Draining => WorkerAction::Drain(MAX_BATCH),
            WorkerState::Idle => WorkerAction::Sleep(self.idle_sleep),
            WorkerState::Publishing => WorkerAction::Publish(self.batch[0].clone()),
            WorkerState::RetryWait => WorkerAction::Sleep(self.retry_sleep),
            WorkerState::ShuttingDown => WorkerAction::Requeue(self.batch[0].clone()),
            WorkerState::Terminated => WorkerAction::Exit(0),
        }
    }

    fn add_dropped(&mut self, n: usize)
        ensures
            final(self)@ == (WorkerModel { dropped: saturating(old(self)@.dropped + n), ..old(self)@ }),
    {
        if self.dropped <= usize::MAX - n {
            self.dropped = self.dropped + n;
        } else {
            self.dropped = usize::MAX;
        }
    }

    /// Goes on with the local batch that `self.batch` now holds.
    fn take_up_batch(&mut self) -> (r: WorkerAction)
        requires
            old(self)@.dropped <= usize::MAX,
        ensures
            final(self).wf(),
            (final(self)@, r@) == old(self)@.take_up(old(self)@.batch),
    {
        if self.batch.len() == 0 {
            self.state = WorkerState::Draining;
            return WorkerAction::Drain(MAX_BATCH);
        }
        let kind = self.batch[0].msg_type;
        if kind == KafkaPublishMessageType::Shutdown {
            self.state = WorkerState::ShuttingDown;
            WorkerAction::Requeue(self.batch[0].clone())
        } else if kind == KafkaPublishMessageType::Data || kind == KafkaPublishMessageType::Sensitive {
            self.state = WorkerState::Publishing;
            WorkerAction::Publish(self.batch[0].clone())
        } else {
            let n = self.batch.len();
            self.batch.clear();
            self.state = WorkerState::Draining;
            self.add_dropped(n);
            assert(self@.batch =~= Seq::<MessageView>::empty());
            WorkerAction::Drain(MAX_BATCH)
        }
    }

    /// Takes in the outcome of the last action and returns the next one.
    pub fn step(&mut self, event: WorkerEvent) -> (r: WorkerAction)
        requires
            old(self).wf(),
        ensures
            final(self).wf(),
            (final(self)@, r@) == old(self)@.step(event@),
    {
        let ghost before = self@;
        match event {
            WorkerEvent::Drained(b) => {
                if self.state != WorkerState::Draining {
                    return self.pending_action();
                }
                if b.len() == 0 {
                    self.state = WorkerState::Idle;
                    assert(self@.batch =~= views(b@));
                    return WorkerAction::Sleep(self.idle_sleep);
                }
                self.batch = b;
                self.take_up_batch()
            },
            WorkerEvent::Slept => {
                if self.state == WorkerState::Idle {
                    self.state = WorkerState::Draining;
                    WorkerAction::Drain(MAX_BATCH)
                } else if self.state == WorkerState::RetryWait {
                    self.state = WorkerState::Publishing;
                    WorkerAction::Publish(self.batch[0].clone())
                } else {
                    self.pending_action()
                }
            },
            WorkerEvent::Published(status) => {
                if self.state != WorkerState::Publishing {
                    return self.pending_action();
                }
                if status == 0 {
                    self.batch.remove(0);
                    assert(self@.batch =~= before.batch.drop_first());
                    self.take_up_batch()
                } else {
                    self.state = WorkerState::RetryWait;
                    WorkerAction::Sleep(self.retry_sleep)
                }
            },
            WorkerEvent::Requeued(_) => {
                if self.state != WorkerState::ShuttingDown {
                    return self.pending_action();
                }
                let left = self.batch.len() - 1;
                self.batch.clear();
                self.state = WorkerState::Terminated;
                self.add_dropped(left);
                assert(self@.batch =~= Seq::<MessageView>::empty());
                WorkerAction::Exit(left)
            },
        }
    }
}

/// The workers of a pool with `config`: one per configured thread,
/// numbered from 0, each with the pool's sleeps.
pub fn pool_workers(config: &KafkaClientConfig) -> (r: Vec<Worker>)
    ensures
        r@.len() == config.num_threads,
        forall|i: int| 0 <= i < r@.len() ==> (#[trigger] r@[i]).wf() && r@[i]@.starts(i, *config),
{
    let mut workers: Vec<Worker> = Vec::new();
    let mut n: u8 = 0;
    while n < config.num_threads
        invariant
            n <= config.num_threads,
            workers@.len() == n,
            forall|i: int|
                0 <= i < workers@.len() ==> (#[trigger] workers@[i]).wf() && workers@[i]@.starts(
                    i,
                    *config,
                ),
        decreases config.num_threads - n,
    {
        workers.push(Worker::new(n, config));
        n = n + 1;
    }
    workers
}

} // verus!
