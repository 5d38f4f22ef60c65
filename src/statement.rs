//! What producers hand to the background consumer.

use crate::level::Level;
use vstd::prelude::*;

verus! {

#[verifier::external_type_specification]
#[verifier::external_body]
#[verifier::reject_recursive_types(T)]
pub struct ExOneshotSender<T>(tokio::sync::oneshot::Sender<T>);

#[verifier::external_type_specification]
#[verifier::external_body]
#[verifier::reject_recursive_types(T)]
pub struct ExOneshotReceiver<T>(tokio::sync::oneshot::Receiver<T>);

#[verifier::external_type_specification]
#[verifier::external_body]
pub struct ExOneshotRecvError(tokio::sync::oneshot::error::RecvError);

/// One log statement: its severity and its rendered text.
#[derive(Clone, Debug)]
pub struct Statement {
    /// The severity of this statement.
    pub level: Level,
    /// The rendered message.
    pub message: String,
}

impl Statement {
    /// Builds a statement from its parts.
    pub fn new(level: Level, message: String) -> (r: Statement)
        ensures
            r.level == level,
            r.message@ == message@,
    {
        Statement { level, message }
    }
}

/// An item of the queue between producers and the consumer: a statement, or a
/// barrier whose sender the consumer fires once every item before it is done.
#[derive(Debug)]
pub enum Message {
    Record(Statement),
    Barrier(tokio::sync::oneshot::Sender<()>),
}

/// Relies on tokio::sync::oneshot::channel: a fresh one-shot channel; the
/// receiver completes once the sender fires, or fails once it is dropped.
#[verifier::external_body]
pub(crate) fn one_shot() -> (r: (tokio::sync::oneshot::Sender<()>, tokio::sync::oneshot::Receiver<()>)) {
    tokio::sync::oneshot::channel()
}

impl Message {
    /// A new barrier, and the receiver on which a flushing producer waits
    /// until the consumer has passed it.
    pub fn barrier() -> (r: (Message, tokio::sync::oneshot::Receiver<()>))
        ensures
            r.0 is Barrier,
    {
        let (tx, rx) = one_shot();
        (Message::Barrier(tx), rx)
    }
}

} // verus!
