//! The worker pool: control messages, the worker's decision step, and the
//! pool lifecycle (construction, submission, graceful shutdown).
//!
//! The pool owns the sending end of a dispatch channel. Workers are threads
//! that share the receiving end behind a lock, take one control message at a
//! time, and either run the job it carries or terminate. Spawning the worker
//! threads, the blocking receive loop, and the protected call boundary around
//! a job cannot stand here; the caller runs them around this module's
//! verified decisions: [`worker_step`] says what a worker does with each
//! dequeued message, and [`Threadpool`] keeps the lifecycle state (how many
//! workers, whether the pool still accepts work, how many termination
//! messages were handed to the channel).

use vstd::prelude::*;

verus! {

/// A unit of work. Executing consumes the job and yields its result value
/// (which may be `()`).
pub trait Execute: Send {
    type Output: Send;

    fn execute(self) -> Self::Output;
}

/// A control message on the dispatch channel: either a job to run, or the
/// instruction to terminate.
pub enum Message<J> {
    NewJob(J),
    Exit,
}

/// The errors the pool reports: a submission that could not be enqueued, and
/// a termination message that could not be delivered during shutdown.
#[derive(Debug, PartialEq, Eq, Structural)]
pub enum ThreadPoolError {
    AddTaskError,
    ExitError,
}

/// What a worker does after dequeuing: run the job, or leave its loop. A
/// closed dispatch channel (no message will ever arrive again) also ends the
/// loop.
pub enum WorkerStep<J> {
    Run(J),
    Stop,
}

/// The worker's decision for one dequeued control message: a job is run; a
/// termination message, or a dispatch channel with no senders left, stops
/// the worker.
pub fn worker_step<J>(msg: Option<Message<J>>) -> (r: WorkerStep<J>)
    ensures
        (match msg {
            Some(Message::NewJob(j)) => r == WorkerStep::Run(j),
            Some(Message::Exit) => r == WorkerStep::<J>::Stop,
            None => r == WorkerStep::<J>::Stop,
        }),
{
    match msg {
        Some(Message::NewJob(job)) => WorkerStep::Run(job),
        _ => WorkerStep::Stop,
    }
}

/// Relies on std::sync::mpsc::Sender, the producing end of a channel; the
/// type is opaque here and only carried through.
#[verifier::external_type_specification]
#[verifier::external_body]
#[verifier::reject_recursive_types(T)]
pub struct ExSender<T>(std::sync::mpsc::Sender<T>);

/// Relies on std::sync::mpsc::Receiver, the consuming end of a channel; the
/// type is opaque here and only carried through.
#[verifier::external_type_specification]
#[verifier::external_body]
#[verifier::reject_recursive_types(T)]
pub struct ExReceiver<T>(std::sync::mpsc::Receiver<T>);

/// Relies on std::sync::mpsc::channel: the two ends of a fresh asynchronous
/// (unbounded, first-in first-out) channel.
#[verifier::external_body]
fn new_channel<T>() -> (r: (std::sync::mpsc::Sender<T>, std::sync::mpsc::Receiver<T>)) {
    std::sync::mpsc::channel()
}

/// Relies on std::sync::mpsc::Sender::send: enqueues the message without
/// blocking; it returns an error exactly when the receiving end has been
/// dropped, and the message is lost in that case.
#[verifier::external_body]
fn send_message<J>(s: &std::sync::mpsc::Sender<Message<J>>, m: Message<J>) -> (r: Result<
    (),
    (),
>) {
    match s.send(m) {
        Ok(()) => Ok(()),
        Err(_) => Err(()),
    }
}

/// Relies on std::sync::mpsc::Receiver::try_recv: the next queued value if
/// one is ready, without blocking; nothing when the channel is empty or all
/// senders are gone.
#[verifier::external_body]
fn try_recv_value<R>(rx: &std::sync::mpsc::Receiver<R>) -> (r: Option<R>) {
    rx.try_recv().ok()
}

/// Relies on std::sync::mpsc::Receiver::recv: blocks until a value arrives
/// and returns it; nothing only when every sending end has been dropped and
/// the channel has been drained.
#[verifier::external_body]
fn recv_value<R>(rx: &std::sync::mpsc::Receiver<R>) -> (r: Option<R>) {
    rx.recv().ok()
}

/// The most workers a pool may be built with.
pub const MAX_WORKERS: usize = 16;

/// The two channel ends the pool hands to whoever spawns the workers: the
/// shared receiving end of the dispatch channel, and the sending end of the
/// result channel (to be cloned, one handle per worker).
#[verifier::reject_recursive_types(J)]
pub struct WorkerHarness<J: Execute> {
    pub dispatch: std::sync::mpsc::Receiver<Message<J>>,
    pub results: std::sync::mpsc::Sender<J::Output>,
}

/// The pool: the sending end of the dispatch channel, the fixed worker
/// count, whether it still accepts work, and the receiving end of the result
/// channel.
#[verifier::reject_recursive_types(J)]
pub struct Threadpool<J: Execute> {
    n_threads: usize,
    open: bool,
    sender: std::sync::mpsc::Sender<Message<J>>,
    results: std::sync::mpsc::Receiver<J::Output>,
    exits_sent: Ghost<nat>,
}

impl<J: Execute> Threadpool<J> {
    /// The worker count fixed at construction.
    pub closed spec fn worker_count(self) -> nat {
        self.n_threads as nat
    }

    /// Whether the pool still accepts submissions; false once a shutdown has
    /// begun.
    pub closed spec fn is_open(self) -> bool {
        self.open
    }

    /// How many termination messages have been handed to the dispatch
    /// channel.
    pub closed spec fn exits_recorded(self) -> nat {
        self.exits_sent@
    }

    /// Build a pool of `n_threads` workers: both channels are created here;
    /// the caller spawns one worker thread per counted worker around the
    /// returned harness.
    pub fn new(n_threads: usize) -> (r: (Threadpool<J>, WorkerHarness<J>))
        requires
            n_threads <= MAX_WORKERS,
        ensures
            r.0.worker_count() == n_threads as nat,
            r.0.is_open(),
            r.0.exits_recorded() == 0,
    {
        let (sender, dispatch) = new_channel::<Message<J>>();
        let (result_sender, results) = new_channel::<J::Output>();
        let pool = Threadpool {
            n_threads,
            open: true,
            sender,
            results,
            exits_sent: Ghost(0),
        };
        (pool, WorkerHarness { dispatch, results: result_sender })
    }

    /// Submit one job. It is rejected exactly when the pool no longer
    /// accepts work: once a shutdown has begun, and also when every worker
    /// has already gone away (the dispatch channel reports that no receiver
    /// is left).
    pub fn add_task(&self, job: J) -> (r: Result<(), ThreadPoolError>)
        ensures
            !self.is_open() ==> r == Err::<(), ThreadPoolError>(ThreadPoolError::AddTaskError),
            r matches Ok(_) ==> self.is_open(),
            r matches Err(e) ==> e == ThreadPoolError::AddTaskError,
    {
        if !self.open {
            return Err(ThreadPoolError::AddTaskError);
        }
        match send_message(&self.sender, Message::NewJob(job)) {
            Ok(()) => Ok(()),
            Err(()) => Err(ThreadPoolError::AddTaskError),
        }
    }

    /// Begin the graceful shutdown: stop accepting submissions, then hand
    /// one termination message per worker to the dispatch channel. On
    /// success exactly `worker_count()` termination messages were enqueued;
    /// on failure some worker's message could not be delivered, and fewer
    /// went out. Either way the pool is closed afterward, and the caller
    /// still joins every worker thread.
    pub fn exit(&mut self) -> (r: Result<(), ThreadPoolError>)
        requires
            old(self).is_open(),
        ensures
            !final(self).is_open(),
            final(self).worker_count() == old(self).worker_count(),
            r matches Ok(_) ==> final(self).exits_recorded() == old(self).exits_recorded()
                + old(self).worker_count(),
            r matches Err(_) ==> final(self).exits_recorded() < old(self).exits_recorded()
                + old(self).worker_count(),
            r matches Err(e) ==> e == ThreadPoolError::ExitError,
    {
        self.open = false;
        let mut i: usize = 0;
        while i < self.n_threads
            invariant
                i <= self.n_threads,
                !self.open,
                self.n_threads == old(self).n_threads,
                self.exits_sent@ == old(self).exits_sent@ + i as nat,
                self.sender == old(self).sender,
                self.results == old(self).results,
            decreases self.n_threads - i,
        {
            match send_message(&self.sender, Message::Exit) {
                Ok(()) => {
                    self.exits_sent = Ghost(self.exits_sent@ + 1);
                },
                Err(()) => {
                    return Err(ThreadPoolError::ExitError);
                },
            }
            i = i + 1;
        }
        Ok(())
    }

    /// The next completed result, if one is already queued; nothing when no
    /// result is waiting. Results arrive in completion order, which need not
    /// be submission order.
    pub fn try_take_result(&self) -> (r: Option<J::Output>) {
        try_recv_value(&self.results)
    }

    /// Block until a completed result arrives and return it. Nothing is
    /// returned only when no result is queued and no worker holds a result
    /// channel handle any more; for a caller that awaits more results than
    /// its jobs produce, that is a logic error.
    pub fn take_result_blocking(&self) -> (r: Option<J::Output>) {
        recv_value(&self.results)
    }
}

} // verus!
