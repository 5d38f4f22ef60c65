//! Severity levels and the level filter that admits them.

use vstd::prelude::*;

verus! {

/// The severity of a statement, from most to least severe.
#[derive(Clone, Copy, Debug, PartialEq, Eq, Structural)]
pub enum Level {
    Error,
    Warn,
    Info,
    Debug,
    Trace,
}

/// The most verbose level that is still admitted; `Off` admits nothing.
#[derive(Clone, Copy, Debug, PartialEq, Eq, Structural)]
pub enum LevelFilter {
    Off,
    Error,
    Warn,
    Info,
    Debug,
    Trace,
}

impl Level {
    /// Verbosity of the level: 1 for `Error` up to 5 for `Trace`.
    pub open spec fn rank(self) -> nat {
        match self {
            Level::Error => 1,
            Level::Warn => 2,
            Level::Info => 3,
            Level::Debug => 4,
            Level::Trace => 5,
        }
    }

    /// The verbosity of this level as a number.
    pub fn verbosity(&self) -> (r: u8)
        ensures
            r as nat == self.rank(),
    {
        match self {
            Level::Error => 1,
            Level::Warn => 2,
            Level::Info => 3,
            Level::Debug => 4,
            Level::Trace => 5,
        }
    }

    /// The filter that admits exactly this level and the more severe ones.
    pub fn to_level_filter(&self) -> (r: LevelFilter)
        ensures
            r.rank() == self.rank(),
    {
        match self {
            Level::Error => LevelFilter::Error,
            Level::Warn => LevelFilter::Warn,
            Level::Info => LevelFilter::Info,
            Level::Debug => LevelFilter::Debug,
            Level::Trace => LevelFilter::Trace,
        }
    }
}

impl LevelFilter {
    /// Verbosity of the filter: 0 for `Off` up to 5 for `Trace`.
    pub open spec fn rank(self) -> nat {
        match self {
            LevelFilter::Off => 0,
            LevelFilter::Error => 1,
            LevelFilter::Warn => 2,
            LevelFilter::Info => 3,
            LevelFilter::Debug => 4,
            LevelFilter::Trace => 5,
        }
    }

    /// Whether a statement at `level` passes this filter.
    pub open spec fn admits_spec(self, level: Level) -> bool {
        level.rank() <= self.rank()
    }

    /// The verbosity of this filter as a number.
    pub fn verbosity(&self) -> (r: u8)
        ensures
            r as nat == self.rank(),
    {
        match self {
            LevelFilter::Off => 0,
            LevelFilter::Error => 1,
            LevelFilter::Warn => 2,
            LevelFilter::Info => 3,
            LevelFilter::Debug => 4,
            LevelFilter::Trace => 5,
        }
    }

    /// Whether a statement at `level` passes this filter.
    pub fn admits(&self, level: Level) -> (r: bool)
        ensures
            r == self.admits_spec(level),
    {
        level.verbosity() <= self.verbosity()
    }
}

/// Relies on log::max_level: the process-wide filter of the `log` facade,
/// which configuration may change at any moment; its variants map one to one.
#[verifier::external_body]
pub(crate) fn facade_max_level() -> (r: LevelFilter) {
    match log::max_level() {
        log::LevelFilter::Off => LevelFilter::Off,
        log::LevelFilter::Error => LevelFilter::Error,
        log::LevelFilter::Warn => LevelFilter::Warn,
        log::LevelFilter::Info => LevelFilter::Info,
        log::LevelFilter::Debug => LevelFilter::Debug,
        log::LevelFilter::Trace => LevelFilter::Trace,
    }
}

/// The process-wide filter as it stands now. Another task may change it right
/// after, so nothing is promised of the value.
pub fn current_filter() -> (r: LevelFilter) {
    facade_max_level()
}

} // verus!
