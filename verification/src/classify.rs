//! Exit classification: the pure decision that tells the supervisor, after
//! a worker instance terminated, whether to relaunch, to shut the tree down
//! cleanly, or to fail fatally.
//!
//! The classification is a function of four observations only: the child's
//! exit code, whether the channel holds content, whether the channel says a
//! worker wants the tree to stop, and the save-state policy.

use vstd::prelude::*;
use crate::policy::SaveStatePolicy;

verus! {

/// Exit code reserved for "terminated by operator interrupt".
pub const CTRL_C_EXIT: i32 = 100;

/// Exit status of an instance destroyed by an uncatchable kill signal,
/// consistent with an out-of-memory reaper.
pub const KILL_SIGNAL_EXIT: i32 = 9;

/// How a terminated worker instance is classified.
#[derive(Clone, Copy, Debug, PartialEq, Eq, Structural)]
pub enum ExitClass {
    /// A worker asked the supervision tree to stop; the exit is deliberate.
    NormalExit,
    /// The instance was interrupted by the operator.
    UserInterrupt,
    /// The instance terminated while the channel holds a payload - the
    /// usual restart case, whether or not the exit itself was a crash.
    CrashWithCheckpoint,
    /// The instance terminated and left the channel empty.
    CrashWithoutCheckpoint,
    /// The instance was killed with no chance to save state, and the
    /// policy did not keep an eager payload around.
    ForcedKill,
}

/// What the supervisor does about a classified exit.
#[derive(Clone, Copy, Debug, PartialEq, Eq, Structural)]
pub enum ExitAction {
    /// Launch the next instance; it will restore whatever the channel holds.
    Relaunch,
    /// Detach cleanly from the aggregator and stop the loop permanently.
    Terminate,
    /// Detach and fail fatally: respawning could only loop without
    /// progress, so this is surfaced as a configuration or workload bug.
    Fail,
}

/// The classification decision table, checked in order: an operator
/// interrupt or a stop request ends supervision; content in the channel
/// makes the exit recoverable; an empty channel is still recoverable under
/// the eager-saving policy, and otherwise fatal - distinguishing a kill
/// signal from an exit that bypassed checkpointing.
pub open spec fn spec_classify(
    exit_code: int,
    has_content: bool,
    wants_exit: bool,
    policy: SaveStatePolicy,
) -> ExitClass {
    if exit_code == CTRL_C_EXIT {
        ExitClass::UserInterrupt
    } else if wants_exit {
        ExitClass::NormalExit
    } else if has_content {
        ExitClass::CrashWithCheckpoint
    } else if policy.spec_oom_safe() {
        ExitClass::CrashWithoutCheckpoint
    } else if exit_code == KILL_SIGNAL_EXIT {
        ExitClass::ForcedKill
    } else {
        ExitClass::CrashWithoutCheckpoint
    }
}

/// The action each classification drives. An empty channel is worth a
/// relaunch only under the eager-saving policy; under any other policy it
/// is fatal, to avoid an infinite respawn loop that masks a real bug.
pub open spec fn spec_exit_action(class: ExitClass, policy: SaveStatePolicy) -> ExitAction {
    match class {
        ExitClass::NormalExit => ExitAction::Terminate,
        ExitClass::UserInterrupt => ExitAction::Terminate,
        ExitClass::CrashWithCheckpoint => ExitAction::Relaunch,
        ExitClass::CrashWithoutCheckpoint => if policy.spec_oom_safe() {
            ExitAction::Relaunch
        } else {
            ExitAction::Fail
        },
        ExitClass::ForcedKill => ExitAction::Fail,
    }
}

/// Classifies a terminated instance from the four observations.
pub fn classify_exit(
    exit_code: i32,
    has_content: bool,
    wants_exit: bool,
    policy: SaveStatePolicy,
) -> (c: ExitClass)
    ensures
        c == spec_classify(exit_code as int, has_content, wants_exit, policy),
{
    if exit_code == CTRL_C_EXIT {
        ExitClass::UserInterrupt
    } else if wants_exit {
        ExitClass::NormalExit
    } else if has_content {
        ExitClass::CrashWithCheckpoint
    } else if policy.oom_safe() {
        ExitClass::CrashWithoutCheckpoint
    } else if exit_code == KILL_SIGNAL_EXIT {
        ExitClass::ForcedKill
    } else {
        ExitClass::CrashWithoutCheckpoint
    }
}

/// The supervisor's action for a classified exit.
pub fn exit_action(class: ExitClass, policy: SaveStatePolicy) -> (a: ExitAction)
    ensures
        a == spec_exit_action(class, policy),
{
    match class {
        ExitClass::NormalExit => ExitAction::Terminate,
        ExitClass::UserInterrupt => ExitAction::Terminate,
        ExitClass::CrashWithCheckpoint => ExitAction::Relaunch,
        ExitClass::CrashWithoutCheckpoint => if policy.oom_safe() {
            ExitAction::Relaunch
        } else {
            ExitAction::Fail
        },
        ExitClass::ForcedKill => ExitAction::Fail,
    }
}

/// Classification determinism: the classification is a pure function of the
/// exit code, the has-content flag, the wants-to-exit flag and the policy;
/// two terminations observed alike are classified alike, and driven to the
/// same action.
pub proof fn lemma_classification_deterministic(
    code_a: int,
    content_a: bool,
    wants_a: bool,
    policy_a: SaveStatePolicy,
    code_b: int,
    content_b: bool,
    wants_b: bool,
    policy_b: SaveStatePolicy,
)
    requires
        code_a == code_b,
        content_a == content_b,
        wants_a == wants_b,
        policy_a == policy_b,
    ensures
        spec_classify(code_a, content_a, wants_a, policy_a) == spec_classify(
            code_b,
            content_b,
            wants_b,
            policy_b,
        ),
        spec_exit_action(spec_classify(code_a, content_a, wants_a, policy_a), policy_a)
            == spec_exit_action(spec_classify(code_b, content_b, wants_b, policy_b), policy_b),
{
}

} // verus!
