//! The save-state policy: which of the two save paths actually writes a
//! payload into the state-transfer channel.

use vstd::prelude::*;

verus! {

/// Decides when a worker instance serializes durable state into the
/// state-transfer channel. Fixed at construction, never changed afterwards.
#[derive(Clone, Copy, Debug, PartialEq, Eq, Structural)]
pub enum SaveStatePolicy {
    /// Never publish a durable-state snapshot.
    Never,
    /// Publish a durable-state snapshot only on an explicit restart request.
    OnRestart,
    /// Like `OnRestart`, and additionally publish a payload with an empty
    /// state half (but a fresh reconnection descriptor) before every
    /// externally visible event, so that a usable payload survives even a
    /// kill with no warning.
    OomSafe,
}

impl SaveStatePolicy {
    /// Whether an explicit restart request publishes the full durable state.
    pub open spec fn spec_saves_on_restart(self) -> bool {
        !(self is Never)
    }

    /// Whether every event fire is followed by an intermediate save.
    pub open spec fn spec_oom_safe(self) -> bool {
        self is OomSafe
    }

    /// Whether an explicit restart request publishes the full durable state.
    pub fn saves_on_restart(&self) -> (r: bool)
        ensures
            r == self.spec_saves_on_restart(),
    {
        !matches!(self, SaveStatePolicy::Never)
    }

    /// Whether every event fire is followed by an intermediate save.
    pub fn oom_safe(&self) -> (r: bool)
        ensures
            r == self.spec_oom_safe(),
    {
        matches!(self, SaveStatePolicy::OomSafe)
    }
}

} // verus!
