//! The producer-facing logger: a cheap filter check, and the hand-off of each
//! admitted statement to its one worker.

use crate::level::{current_filter, Level, LevelFilter};
use crate::statement::{Message, Statement};
use vstd::prelude::*;

verus! {

/// A logger for asynchronous programs. It owns one worker, the handle of the
/// background task that writes what the logger hands it.
#[derive(Debug)]
pub struct AsyncLogger<W> {
    background: W,
}

impl<W> AsyncLogger<W> {
    /// The worker of this logger.
    pub closed spec fn worker_spec(&self) -> W {
        self.background
    }

    /// A logger that hands its statements to `background`.
    pub fn new(background: W) -> (r: AsyncLogger<W>)
        ensures
            r.worker_spec() == background,
    {
        AsyncLogger { background }
    }

    /// The worker of this logger.
    pub fn worker(&self) -> (r: &W)
        ensures
            *r == self.worker_spec(),
    {
        &self.background
    }

    /// Whether the process-wide filter, as it stands now, admits `level`.
    /// Whatever that filter is, the answer is the one that `admits` gives for it.
    pub fn enabled(&self, level: Level) -> (r: bool)
        ensures
            exists|f: LevelFilter| r == f.admits_spec(level),
    {
        current_filter().admits(level)
    }

    /// The item to send for a statement at `level` under `filter`: a record of
    /// the statement where the filter admits it, and `None` where it does not,
    /// so that nothing below the filter ever reaches the queue.
    pub fn to_send(filter: LevelFilter, level: Level, message: String) -> (r: Option<Message>)
        ensures
            r is None <==> !filter.admits_spec(level),
            r is Some ==> r->Some_0 is Record && r->Some_0->Record_0.level == level
                && r->Some_0->Record_0.message@ == message@,
    {
        if filter.admits(level) {
            Some(Message::Record(Statement::new(level, message)))
        } else {
            None
        }
    }

    /// The item to send for a statement at `level` under the process-wide
    /// filter as it stands now.
    pub fn record(&self, level: Level, message: String) -> (r: Option<Message>)
        ensures
            exists|f: LevelFilter| (r is None <==> !f.admits_spec(level)),
            r is Some ==> r->Some_0 is Record && r->Some_0->Record_0.level == level
                && r->Some_0->Record_0.message@ == message@,
    {
        Self::to_send(current_filter(), level, message)
    }

    /// A barrier to send after the statements already sent, and the receiver
    /// that completes once the consumer has handled every one of them.
    pub fn flush_barrier(&self) -> (r: (Message, tokio::sync::oneshot::Receiver<()>))
        ensures
            r.0 is Barrier,
    {
        Message::barrier()
    }
}

} // verus!
