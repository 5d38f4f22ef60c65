//! Sinks that persist formatted statements.

use std::sync::Arc;
use vstd::prelude::*;

verus! {

#[verifier::external_type_specification]
#[verifier::external_body]
#[verifier::reject_recursive_types(T)]
pub struct ExMutex<T: ?Sized>(tokio::sync::Mutex<T>);

#[verifier::external_type_specification]
#[verifier::external_body]
pub struct ExFile(tokio::fs::File);

/// Relies on tokio::sync::Mutex::new: an unlocked lock that owns the file.
#[verifier::external_body]
fn guarded(file: tokio::fs::File) -> (r: tokio::sync::Mutex<tokio::fs::File>) {
    tokio::sync::Mutex::new(file)
}

/// A sink for formatted statements.
pub trait AsyncLogWriter {
    /// Whether this sink renders colours; a fixed property of the sink.
    fn use_color() -> bool;
}

/// A sink that appends to a file. Every clone shares the one file and the
/// one lock around it, so the writes of several workers never interleave.
#[derive(Clone, Debug)]
pub struct TokioFileWriter {
    handle: Arc<tokio::sync::Mutex<tokio::fs::File>>,
}

impl TokioFileWriter {
    /// The shared, lock-guarded file.
    pub closed spec fn handle_spec(&self) -> Arc<tokio::sync::Mutex<tokio::fs::File>> {
        self.handle
    }

    /// A writer that appends to `file`.
    pub fn new(file: tokio::fs::File) -> (r: TokioFileWriter) {
        TokioFileWriter { handle: Arc::new(guarded(file)) }
    }

    /// The shared, lock-guarded file.
    pub fn handle(&self) -> (r: &Arc<tokio::sync::Mutex<tokio::fs::File>>)
        ensures
            *r == self.handle_spec(),
    {
        &self.handle
    }
}

impl AsyncLogWriter for TokioFileWriter {
    fn use_color() -> (r: bool)
        ensures
            r == false,
    {
        false
    }
}

} // verus!
