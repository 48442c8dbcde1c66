//! Panic-to-abort bridge: the model of the process-wide panic hook slot.
//!
//! The slot holds exactly one hook. Installing the bridge captures whatever
//! hook is installed and replaces it with one that first delegates to the
//! captured hook — so the default diagnostic is never lost — and then
//! terminates the process by an abort instead of letting the unwind
//! continue. Installing twice wraps the first wrapper: harmless, redundant,
//! and still abort-terminated.

use vstd::prelude::*;

verus! {

/// A panic hook: the runtime default, or the default chained behind an
/// abort.
pub enum PanicHook {
    /// The runtime's default hook: reports the panic to standard error,
    /// then lets the unwind continue.
    Default,
    /// Runs the captured previous hook, then aborts the process.
    AbortAfter(Box<PanicHook>),
}

/// How the process ends once a panic has been handled.
#[derive(Clone, Copy, Debug, PartialEq, Eq, Structural)]
pub enum Termination {
    /// The unwind continues; the process may keep running.
    Unwind,
    /// The process terminates immediately, bypassing unwind cleanup.
    Abort,
}

/// Whether running the hook emits the default panic diagnostic: chaining
/// always delegates first, so the diagnostic survives every install.
pub open spec fn emits_default_diagnostic(h: PanicHook) -> bool
    decreases h,
{
    match h {
        PanicHook::Default => true,
        PanicHook::AbortAfter(prev) => emits_default_diagnostic(*prev),
    }
}

/// How the process ends when the hook runs.
pub open spec fn termination_of(h: PanicHook) -> Termination {
    match h {
        PanicHook::Default => Termination::Unwind,
        PanicHook::AbortAfter(_) => Termination::Abort,
    }
}

/// What handling one panic does: which diagnostic is seen and how the
/// process ends.
pub struct PanicOutcome {
    /// The default diagnostic reached standard error.
    pub default_diagnostic_emitted: bool,
    /// How the process ends.
    pub termination: Termination,
}

/// The single process-wide panic hook slot.
pub struct PanicSlot {
    /// The hook currently installed.
    pub hook: PanicHook,
}

impl PanicSlot {
    /// The slot as a fresh process starts: the runtime default hook.
    pub fn new() -> (s: PanicSlot)
        ensures
            s.hook == PanicHook::Default,
    {
        PanicSlot { hook: PanicHook::Default }
    }

    /// Installs the panic-to-abort bridge: the previous hook is captured,
    /// never discarded, and the new hook delegates to it before aborting.
    pub fn install(self) -> (s: PanicSlot)
        ensures
            s.hook matches PanicHook::AbortAfter(prev) && *prev == self.hook,
    {
        PanicSlot { hook: PanicHook::AbortAfter(Box::new(self.hook)) }
    }

    /// What handling a panic does under the currently installed hook.
    pub fn on_panic(&self) -> (o: PanicOutcome)
        ensures
            o.default_diagnostic_emitted == emits_default_diagnostic(self.hook),
            o.termination == termination_of(self.hook),
    {
        let emitted = hook_emits_default(&self.hook);
        let termination = match &self.hook {
            PanicHook::Default => Termination::Unwind,
            PanicHook::AbortAfter(_) => Termination::Abort,
        };
        PanicOutcome { default_diagnostic_emitted: emitted, termination }
    }
}

/// Walks the chain: the default diagnostic is emitted exactly when the
/// default hook sits at the bottom.
fn hook_emits_default(h: &PanicHook) -> (b: bool)
    ensures
        b == emits_default_diagnostic(*h),
    decreases *h,
{
    match h {
        PanicHook::Default => true,
        PanicHook::AbortAfter(prev) => hook_emits_default(prev),
    }
}

/// Every hook in this model delegates down to the runtime default, so the
/// default diagnostic survives any number of installs.
pub proof fn lemma_default_diagnostic_survives(h: PanicHook)
    ensures
        emits_default_diagnostic(h),
    decreases h,
{
    match h {
        PanicHook::Default => {},
        PanicHook::AbortAfter(prev) => lemma_default_diagnostic_survives(*prev),
    }
}

/// Law: panic-then-abort. Once the bridge is installed over any previous
/// hook, a panic terminates the process by an abort — distinguishable from
/// a normal return — and the default diagnostic is still emitted first.
pub proof fn lemma_panic_then_abort(before: PanicHook, after: PanicHook)
    requires
        after matches PanicHook::AbortAfter(prev) && *prev == before,
    ensures
        termination_of(after) == Termination::Abort,
        emits_default_diagnostic(after),
{
    lemma_default_diagnostic_survives(before);
}

} // verus!
