//! The submitting side of the worker pool: one shared FIFO channel that carries
//! tasks to a fixed number of workers, and one stop message per worker.
use vstd::prelude::*;
use crossbeam_channel::{Receiver, Sender};

verus! {

#[verifier::external_type_specification]
#[verifier::external_body]
#[verifier::reject_recursive_types(T)]
pub struct ExSender<T>(crossbeam_channel::Sender<T>);

#[verifier::external_type_specification]
#[verifier::external_body]
#[verifier::reject_recursive_types(T)]
pub struct ExReceiver<T>(crossbeam_channel::Receiver<T>);

/// What a worker takes off the queue.
pub enum PoolMessage<J> {
    /// Run the job it carries.
    NewJob(J),
    /// Leave the worker loop.
    Terminate,
}

/// What a worker does with a message it took off the queue.
#[derive(Debug, Clone, Copy, PartialEq, Eq, Structural)]
pub enum WorkerAction {
    /// Run the task, then take the next message.
    RunJob,
    /// Leave the loop; the worker thread ends.
    Exit,
}

/// A worker runs every task it is handed and leaves only on a stop message.
pub fn worker_action<J>(msg: &PoolMessage<J>) -> (r: WorkerAction)
    ensures
        (r == WorkerAction::Exit) == (msg is Terminate),
{
    match msg {
        PoolMessage::NewJob(_) => WorkerAction::RunJob,
        PoolMessage::Terminate => WorkerAction::Exit,
    }
}

/// Relies on crossbeam_channel::unbounded: a new channel with no capacity
/// limit, so that sending on it never waits.
#[verifier::external_body]
fn unbounded_channel<T>() -> (Sender<T>, Receiver<T>) {
    crossbeam_channel::unbounded()
}

/// `n` stop messages.
pub open spec fn stops<J>(n: nat) -> Seq<PoolMessage<J>> {
    Seq::new(n, |i: int| PoolMessage::<J>::Terminate)
}

/// The queue that feeds `workers` workers over an unbounded channel that it
/// built itself and alone sends on.
#[verifier::reject_recursive_types(J)]
pub struct JobQueue<J> {
    sender: Sender<PoolMessage<J>>,
    workers: usize,
    offered: Ghost<Seq<PoolMessage<J>>>,
    queued: Ghost<Seq<PoolMessage<J>>>,
}

/// Relies on crossbeam_channel::Sender::send on the queue's unbounded channel:
/// it returns without waiting, and either appends `msg` at the channel's tail
/// and returns `Ok`, or, once every receiver is gone, hands it back in `Err`
/// and leaves the channel as it was.
#[verifier::external_body]
fn send_message<J>(q: &mut JobQueue<J>, msg: PoolMessage<J>) -> (delivered: bool)
    ensures
        final(q).workers() == old(q).workers(),
        final(q).offered() == old(q).offered().push(msg),
        delivered ==> final(q).queued() == old(q).queued().push(msg),
        !delivered ==> final(q).queued() == old(q).queued(),
{
    q.sender.send(msg).is_ok()
}

impl<J> JobQueue<J> {
    /// A queue for `workers` workers, with the receiving end they are to share.
    /// Nothing has been offered to it yet.
    pub fn new(workers: usize) -> (r: (JobQueue<J>, Receiver<PoolMessage<J>>))
        ensures
            r.0.workers() == workers,
            r.0.offered() == Seq::<PoolMessage<J>>::empty(),
            r.0.queued() == Seq::<PoolMessage<J>>::empty(),
    {
        let (sender, receiver) = unbounded_channel();
        (JobQueue { sender, workers, offered: Ghost(Seq::empty()), queued: Ghost(Seq::empty()) }, receiver)
    }

    /// The number of workers that share the receiving end.
    pub closed spec fn workers(&self) -> usize {
        self.workers
    }

    /// Every message offered to the channel, oldest first.
    pub closed spec fn offered(&self) -> Seq<PoolMessage<J>> {
        self.offered@
    }

    /// Every message the channel took in, oldest first: the order in which the
    /// workers take them off.
    pub closed spec fn queued(&self) -> Seq<PoolMessage<J>> {
        self.queued@
    }

    /// The number of workers that share the receiving end.
    pub fn worker_count(&self) -> (r: usize)
        ensures
            r == self.workers(),
    {
        self.workers
    }

    /// Offers one task to the channel, behind everything offered before; never
    /// waits. Returns whether the channel took it, which it does while any
    /// worker's receiving end is still there.
    pub fn execute(&mut self, job: J) -> (delivered: bool)
        ensures
            final(self).workers() == old(self).workers(),
            final(self).offered() == old(self).offered().push(PoolMessage::NewJob(job)),
            delivered ==> final(self).queued() == old(self).queued().push(PoolMessage::NewJob(job)),
            !delivered ==> final(self).queued() == old(self).queued(),
    {
        send_message(self, PoolMessage::NewJob(job))
    }

    /// Offers one stop message per worker to the channel, behind every task
    /// offered before. Returns how many the channel took: at most one per
    /// worker, and those are the last messages queued.
    pub fn terminate_all(&mut self) -> (delivered: usize)
        ensures
            final(self).workers() == old(self).workers(),
            final(self).offered() == old(self).offered() + stops::<J>(old(self).workers() as nat),
            final(self).queued() == old(self).queued() + stops::<J>(delivered as nat),
            delivered <= old(self).workers(),
    {
        let mut delivered: usize = 0;
        let mut i: usize = 0;
        while i < self.workers
            invariant
                i <= self.workers,
                self.workers() == old(self).workers(),
                self.workers == old(self).workers,
                delivered <= i,
                self.offered() == old(self).offered() + stops::<J>(i as nat),
                self.queued() == old(self).queued() + stops::<J>(delivered as nat),
            decreases self.workers - i,
        {
            proof {
                assert(stops::<J>(i as nat).push(PoolMessage::Terminate) =~= stops::<J>((i + 1) as nat));
                assert(stops::<J>(delivered as nat).push(PoolMessage::Terminate) =~= stops::<J>((delivered + 1) as nat));
            }
            if send_message(self, PoolMessage::Terminate) {
                delivered = delivered + 1;
            }
            i = i + 1;
        }
        delivered
    }
}

} // verus!
