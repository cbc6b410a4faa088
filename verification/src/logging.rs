//! Logger configuration.
//!
//! Log records from a vessel module are routed to the host engine's own log
//! file.  The decision of which records get through is pure configuration:
//! a verbosity filter and a quiet switch.  That decision logic lives here,
//! verified; the unverified rim registers the logger with the global
//! logging facade and formats and forwards the records the decision
//! admits.

use vstd::prelude::*;

verus! {

/// Verbosity of a single log record, from most to least severe.
#[derive(Debug, Clone, Copy, PartialEq, Eq, Structural)]
pub enum Level {
    /// A failure the module could not recover from
    Error,
    /// A suspicious condition worth surfacing
    Warn,
    /// Ordinary progress reporting
    Info,
    /// Detail useful while developing the module
    Debug,
    /// The most verbose tracing
    Trace,
}

/// A verbosity threshold: either a least severe admitted [`Level`], or
/// everything off.
#[derive(Debug, Clone, Copy, PartialEq, Eq, Structural)]
pub enum LevelFilter {
    /// Admit nothing
    Off,
    /// Admit `Error` only
    Error,
    /// Admit `Error` and `Warn`
    Warn,
    /// Admit `Error` through `Info`
    Info,
    /// Admit `Error` through `Debug`
    Debug,
    /// Admit everything
    Trace,
}

/// Numeric rank of a record level; higher means more verbose.
pub open spec fn level_rank(l: Level) -> int {
    match l {
        Level::Error => 1,
        Level::Warn => 2,
        Level::Info => 3,
        Level::Debug => 4,
        Level::Trace => 5,
    }
}

/// Numeric rank of a filter; a record passes a filter exactly when its
/// level rank does not exceed the filter rank.
pub open spec fn filter_rank(f: LevelFilter) -> int {
    match f {
        LevelFilter::Off => 0,
        LevelFilter::Error => 1,
        LevelFilter::Warn => 2,
        LevelFilter::Info => 3,
        LevelFilter::Debug => 4,
        LevelFilter::Trace => 5,
    }
}

/// The filter that admits exactly the levels at least as severe as `l`.
pub open spec fn filter_of(l: Level) -> LevelFilter {
    match l {
        Level::Error => LevelFilter::Error,
        Level::Warn => LevelFilter::Warn,
        Level::Info => LevelFilter::Info,
        Level::Debug => LevelFilter::Debug,
        Level::Trace => LevelFilter::Trace,
    }
}

/// Configuration of the logger that routes module log records to the host
/// engine's log.
#[derive(Debug, Clone)]
pub struct OrbiterLogger {
    verbosity: LevelFilter,
    quiet: bool,
}

impl OrbiterLogger {
    /// The configured verbosity threshold.
    pub closed spec fn spec_verbosity(self) -> LevelFilter {
        self.verbosity
    }

    /// Whether all output is silenced.
    pub closed spec fn spec_quiet(self) -> bool {
        self.quiet
    }

    /// The effective filter: nothing when silenced, the configured
    /// verbosity otherwise.
    pub open spec fn spec_filter(self) -> LevelFilter {
        if self.spec_quiet() {
            LevelFilter::Off
        } else {
            self.spec_verbosity()
        }
    }

    /// A fresh logger: error-level verbosity, not silenced.
    pub fn new() -> (r: Self)
        ensures
            r.spec_verbosity() == LevelFilter::Error,
            !r.spec_quiet(),
    {
        Self { verbosity: LevelFilter::Error, quiet: false }
    }

    /// Set the minimum severity a record must have to be written.  Returns
    /// the logger again so calls can be chained.
    pub fn level(&mut self, level: Level) -> (r: &mut Self)
        ensures
            (*r).spec_verbosity() == filter_of(level),
            (*r).spec_quiet() == old(self).spec_quiet(),
            *final(self) == *final(r),
    {
        let log_lvl = match level {
            Level::Error => LevelFilter::Error,
            Level::Warn => LevelFilter::Warn,
            Level::Info => LevelFilter::Info,
            Level::Debug => LevelFilter::Debug,
            Level::Trace => LevelFilter::Trace,
        };
        self.verbosity = log_lvl;
        self
    }

    /// Silence or restore all output, whatever the configured verbosity.
    /// Returns the logger again so calls can be chained.
    pub fn quiet(&mut self, quiet: bool) -> (r: &mut Self)
        ensures
            (*r).spec_verbosity() == old(self).spec_verbosity(),
            (*r).spec_quiet() == quiet,
            *final(self) == *final(r),
    {
        self.quiet = quiet;
        self
    }

    /// The filter the logger currently applies.
    pub fn log_level_filter(&self) -> (r: LevelFilter)
        ensures
            r == self.spec_filter(),
    {
        if self.quiet {
            LevelFilter::Off
        } else {
            self.verbosity
        }
    }

    /// Whether a record at `level` would be written to the host log under
    /// the current configuration.
    pub fn enabled(&self, level: Level) -> (r: bool)
        ensures
            r == (level_rank(level) <= filter_rank(self.spec_filter())),
    {
        let filter = self.log_level_filter();
        let record_rank: u8 = match level {
            Level::Error => 1,
            Level::Warn => 2,
            Level::Info => 3,
            Level::Debug => 4,
            Level::Trace => 5,
        };
        let admitted_rank: u8 = match filter {
            LevelFilter::Off => 0,
            LevelFilter::Error => 1,
            LevelFilter::Warn => 2,
            LevelFilter::Info => 3,
            LevelFilter::Debug => 4,
            LevelFilter::Trace => 5,
        };
        record_rank <= admitted_rank
    }
}

impl Default for OrbiterLogger {
    /// Same configuration as [`OrbiterLogger::new`].
    fn default() -> (r: Self)
        ensures
            r.spec_verbosity() == LevelFilter::Error,
            !r.spec_quiet(),
    {
        OrbiterLogger::new()
    }
}

} // verus!
