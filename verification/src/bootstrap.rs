//! Bootstrap sequencer: the fixed startup order of the logging scaffold.
//!
//! The steps run in one order and no other: resolve the log directory, open
//! the rotating sink, initialize the filter, register the logging front-end,
//! and only then — with logging live — install the panic-to-abort bridge.
//! Every failing step is fatal: a failed sequencer accepts no further step.
//! The caller performs the actual I/O of each step and reports its outcome.

use vstd::prelude::*;

use crate::identity::DirectoryResolutionError;

verus! {

/// A fatal startup error: which step failed.
#[derive(Clone, Copy, Debug, PartialEq, Eq, Structural)]
pub enum StartupError {
    /// The platform could not supply a per-user data directory.
    DirectoryResolution,
    /// The log directory could not be created or the file not opened.
    SinkOpen,
}

/// Where the bootstrap stands: each phase names the one step it accepts.
#[derive(Clone, Copy, Debug, PartialEq, Eq, Structural)]
pub enum Phase {
    /// Waiting for the log directory to be resolved.
    NeedDirectory,
    /// Waiting for the rotating sink to be opened.
    NeedSink,
    /// Waiting for the filter to be initialized.
    NeedFilter,
    /// Waiting for the logging front-end to be registered.
    NeedSubscriber,
    /// Waiting for the panic-to-abort bridge, installed after logging is
    /// live so the default panic report can reach the sink.
    NeedPanicHook,
    /// Startup is complete.
    Running,
    /// A step failed; startup is abandoned, never retried.
    Failed(StartupError),
}

/// How far into the fixed order a phase lies.
pub open spec fn phase_rank(p: Phase) -> int {
    match p {
        Phase::NeedDirectory => 0,
        Phase::NeedSink => 1,
        Phase::NeedFilter => 2,
        Phase::NeedSubscriber => 3,
        Phase::NeedPanicHook => 4,
        Phase::Running => 5,
        Phase::Failed(_) => 6,
    }
}

/// The bootstrap sequencer.
pub struct Bootstrap {
    /// The current phase.
    pub phase: Phase,
}

impl Bootstrap {
    /// A fresh bootstrap: nothing has run yet.
    pub fn new() -> (b: Bootstrap)
        ensures
            b.phase == Phase::NeedDirectory,
    {
        Bootstrap { phase: Phase::NeedDirectory }
    }

    /// Records the outcome of directory resolution: on success the sink may
    /// be opened; on failure startup is abandoned with the directory error.
    pub fn directory_resolved(&mut self, outcome: &Result<Vec<u8>, DirectoryResolutionError>)
        requires
            old(self).phase == Phase::NeedDirectory,
        ensures
            outcome is Ok ==> final(self).phase == Phase::NeedSink,
            outcome is Err ==> final(self).phase == Phase::Failed(
                StartupError::DirectoryResolution,
            ),
    {
        match outcome {
            Ok(_) => {
                self.phase = Phase::NeedSink;
            },
            Err(_) => {
                self.phase = Phase::Failed(StartupError::DirectoryResolution);
            },
        }
    }

    /// Records the outcome of opening the rotating sink (directory creation
    /// and file open, performed by the caller): on failure startup is
    /// abandoned with the sink error.
    pub fn sink_opened(&mut self, ok: bool)
        requires
            old(self).phase == Phase::NeedSink,
        ensures
            ok ==> final(self).phase == Phase::NeedFilter,
            !ok ==> final(self).phase == Phase::Failed(StartupError::SinkOpen),
    {
        if ok {
            self.phase = Phase::NeedFilter;
        } else {
            self.phase = Phase::Failed(StartupError::SinkOpen);
        }
    }

    /// Records that the filter is initialized. Filter initialization cannot
    /// fail: a malformed override falls back to the default level.
    pub fn filter_initialized(&mut self)
        requires
            old(self).phase == Phase::NeedFilter,
        ensures
            final(self).phase == Phase::NeedSubscriber,
    {
        self.phase = Phase::NeedSubscriber;
    }

    /// Records that the logging front-end is registered over the sink and
    /// filter.
    pub fn subscriber_registered(&mut self)
        requires
            old(self).phase == Phase::NeedSubscriber,
        ensures
            final(self).phase == Phase::NeedPanicHook,
    {
        self.phase = Phase::NeedPanicHook;
    }

    /// Records that the panic-to-abort bridge is installed — the last step,
    /// so the default panic report is capturable by the live logging sink.
    pub fn panic_hook_installed(&mut self)
        requires
            old(self).phase == Phase::NeedPanicHook,
        ensures
            final(self).phase == Phase::Running,
    {
        self.phase = Phase::Running;
    }

    /// The fatal error that ended startup, if any.
    pub fn failure(&self) -> (r: Option<StartupError>)
        ensures
            r matches Some(e) ==> self.phase == Phase::Failed(e),
            r is None ==> !(self.phase matches Phase::Failed(_)),
    {
        match self.phase {
            Phase::Failed(e) => Some(e),
            _ => None,
        }
    }
}

/// Law: the bootstrap order is fixed. Every step moves the sequencer
/// strictly forward — a step either reaches the next phase of the order or
/// fails — and a failed bootstrap is final: no step accepts it.
pub proof fn lemma_steps_move_forward(before: Phase, after: Phase)
    requires
        before == Phase::NeedDirectory && (after == Phase::NeedSink || after matches Phase::Failed(
            _,
        )) || before == Phase::NeedSink && (after == Phase::NeedFilter
            || after matches Phase::Failed(_)) || before == Phase::NeedFilter && after
            == Phase::NeedSubscriber || before == Phase::NeedSubscriber && after
            == Phase::NeedPanicHook || before == Phase::NeedPanicHook && after == Phase::Running,
    ensures
        phase_rank(after) > phase_rank(before),
        !(before matches Phase::Failed(_)),
{
}

} // verus!
