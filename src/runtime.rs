//! The tokio side of the pipeline: the backend that owns a runtime handle and
//! a writer template, and the worker handle that owns a queue's sending end.

use crate::statement::Message;
use vstd::prelude::*;

verus! {

#[verifier::external_type_specification]
#[verifier::external_body]
pub struct ExHandle(tokio::runtime::Handle);

#[verifier::external_type_specification]
#[verifier::external_body]
pub struct ExTryCurrentError(tokio::runtime::TryCurrentError);

#[verifier::external_type_specification]
#[verifier::external_body]
#[verifier::reject_recursive_types(T)]
pub struct ExJoinHandle<T>(tokio::task::JoinHandle<T>);

#[verifier::external_type_specification]
#[verifier::external_body]
pub struct ExJoinError(tokio::task::JoinError);

#[verifier::external_type_specification]
#[verifier::external_body]
#[verifier::reject_recursive_types(T)]
pub struct ExSender<T>(tokio::sync::mpsc::Sender<T>);

#[verifier::external_type_specification]
#[verifier::external_body]
#[verifier::reject_recursive_types(T)]
pub struct ExReceiver<T>(tokio::sync::mpsc::Receiver<T>);

#[verifier::external_type_specification]
#[verifier::external_body]
#[verifier::reject_recursive_types(T)]
pub struct ExSendError<T>(tokio::sync::mpsc::error::SendError<T>);

/// How many items the queue of one worker holds before producers wait.
pub const QUEUE_CAPACITY: usize = 16;

/// The ways in which the pipeline fails for good.
#[derive(Debug)]
#[allow(inconsistent_fields)]
pub enum Error {
    /// No tokio runtime was in context.
    GetCurrent { err: tokio::runtime::TryCurrentError },
    /// The queue's receiving end is gone, so the item could not be sent.
    EmitStatement { err: tokio::sync::mpsc::error::SendError<Message> },
}

impl Error {
    /// One line that says what went wrong.
    pub fn message(&self) -> (r: String)
        ensures
            self is GetCurrent ==> r@ == "Failed to get current tokio runtime"@,
            self is EmitStatement ==> r@ == "Failed to emit log message to backend worker"@,
    {
        match self {
            Error::GetCurrent { .. } => "Failed to get current tokio runtime".to_owned(),
            Error::EmitStatement { .. } => "Failed to emit log message to backend worker".to_owned(),
        }
    }
}

/// Relies on tokio::runtime::Handle::try_current: the handle of the runtime in
/// context, or an error where there is none; it never panics.
#[verifier::external_body]
fn try_current_handle() -> (r: Result<tokio::runtime::Handle, tokio::runtime::TryCurrentError>) {
    tokio::runtime::Handle::try_current()
}

/// The number of items that the queue behind `s` holds before a send waits:
/// the bound it was made with, which `Sender::max_capacity` reports.
pub uninterp spec fn queue_bound(s: tokio::sync::mpsc::Sender<Message>) -> nat;

/// Relies on tokio::sync::mpsc::channel: a fresh bounded queue whose bound is
/// the given capacity (it is stored as the channel's bound and read back by
/// `Sender::max_capacity`); it panics on a capacity of zero or above the semaphore's limit
/// of `usize::MAX >> 3` permits.
#[verifier::external_body]
fn bounded_queue(capacity: usize) -> (r: (tokio::sync::mpsc::Sender<Message>, tokio::sync::mpsc::Receiver<Message>))
    requires
        0 < capacity <= usize::MAX / 8,
    ensures
        queue_bound(r.0) == capacity,
{
    tokio::sync::mpsc::channel(capacity)
}

/// A backend that runs its workers on a tokio runtime and gives each of them a
/// copy of its writer.
#[derive(Debug)]
pub struct TokioBackend<W> {
    handle: tokio::runtime::Handle,
    writer: W,
}

impl<W> TokioBackend<W> {
    /// The runtime handle that workers are spawned on.
    pub closed spec fn runtime_spec(&self) -> tokio::runtime::Handle {
        self.handle
    }

    /// The writer that every worker gets a copy of.
    pub closed spec fn writer_spec(&self) -> W {
        self.writer
    }

    /// A backend on the tokio runtime in context. Where there is none, this
    /// fails with `GetCurrent`: the caller has no pipeline yet to report
    /// through and is expected to give up.
    pub fn current(writer: W) -> (r: Result<TokioBackend<W>, Error>)
        ensures
            r is Ok ==> r->Ok_0.writer_spec() == writer,
            r is Err ==> r->Err_0 is GetCurrent,
    {
        match try_current_handle() {
            Ok(handle) => Ok(TokioBackend { handle, writer }),
            Err(err) => Err(Error::GetCurrent { err }),
        }
    }

    /// A backend on the runtime that `handle` refers to.
    pub fn handle(handle: tokio::runtime::Handle, writer: W) -> (r: TokioBackend<W>)
        ensures
            r.runtime_spec() == handle,
            r.writer_spec() == writer,
    {
        TokioBackend { handle, writer }
    }

    /// The runtime handle that workers are spawned on.
    pub fn runtime(&self) -> (r: &tokio::runtime::Handle)
        ensures
            *r == self.runtime_spec(),
    {
        &self.handle
    }

    /// The writer template.
    pub fn writer(&self) -> (r: &W)
        ensures
            *r == self.writer_spec(),
    {
        &self.writer
    }
}

impl<W: Clone> TokioBackend<W> {
    /// What one new worker needs: a fresh queue of `QUEUE_CAPACITY` items and
    /// a copy of the writer. Each call gives a queue of its own.
    pub fn new_pipeline(&self) -> (r: (tokio::sync::mpsc::Sender<Message>, tokio::sync::mpsc::Receiver<Message>, W))
        ensures
            queue_bound(r.0) == QUEUE_CAPACITY,
            vstd::pervasive::cloned(self.writer_spec(), r.2),
    {
        let (sender, receiver) = bounded_queue(QUEUE_CAPACITY);
        (sender, receiver, self.writer.clone())
    }
}

/// The handle of one running consumer: its task and its queue's sending end.
#[derive(Debug)]
pub struct TokioWorker {
    task: tokio::task::JoinHandle<()>,
    sender: tokio::sync::mpsc::Sender<Message>,
}

impl TokioWorker {
    /// The sending end of the queue.
    pub closed spec fn sender_spec(&self) -> tokio::sync::mpsc::Sender<Message> {
        self.sender
    }

    /// The task that consumes the queue.
    pub closed spec fn task_spec(&self) -> tokio::task::JoinHandle<()> {
        self.task
    }

    /// A worker handle over a spawned consumer task and its queue's sender.
    pub fn new(task: tokio::task::JoinHandle<()>, sender: tokio::sync::mpsc::Sender<Message>) -> (r: TokioWorker)
        ensures
            r.task_spec() == task,
            r.sender_spec() == sender,
    {
        TokioWorker { task, sender }
    }

    /// The sending end of the queue.
    pub fn sender(&self) -> (r: &tokio::sync::mpsc::Sender<Message>)
        ensures
            *r == self.sender_spec(),
    {
        &self.sender
    }

    /// What a send on the queue comes to: nothing where it went through, and
    /// `EmitStatement`, which no caller should retry, where the consumer is gone.
    pub fn check_sent(sent: Result<(), tokio::sync::mpsc::error::SendError<Message>>) -> (r: Result<(), Error>)
        ensures
            sent is Ok <==> r is Ok,
            sent is Err ==> r == Err::<(), Error>(Error::EmitStatement { err: sent->Err_0 }),
    {
        match sent {
            Ok(()) => Ok(()),
            Err(err) => Err(Error::EmitStatement { err }),
        }
    }
}

} // verus!
