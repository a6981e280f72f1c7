//! Crash-resilient process supervision: a respawn supervisor that relaunches
//! worker instances after unrecoverable faults, handing a checkpoint across
//! the restart boundary through a single-slot state-transfer channel.
//!
//! The library holds the protocol logic: the payload wire codec, the
//! single-slot channel, the save-state policy, the exit classification that
//! drives the respawn decision, the role resolution, and the checkpoint
//! protocol that keeps the channel consistent with the latest durable state.
//! The operating-system edges (forking, waiting, signals, the process
//! environment) live with the caller.

pub mod channel;
pub mod classify;
pub mod codec;
pub mod endpoint;
pub mod error;
pub mod manager;
pub mod policy;
pub mod role;
pub mod supervisor;

pub use channel::StateRestorer;
pub use classify::{ExitAction, ExitClass, CTRL_C_EXIT, KILL_SIGNAL_EXIT};
pub use codec::{CheckpointPayload, EndpointDescription};
pub use endpoint::EventEndpoint;
pub use error::SupervisionError;
pub use manager::LlmpRestartingEventManager;
pub use policy::SaveStatePolicy;
pub use role::{ClientDescription, ManagerKind, ResolvedRole};
pub use supervisor::RestartingMgr;
