//! Role resolution: whether a launched process instance acts as the
//! aggregator ("broker") or as a worker ("client").
//!
//! The race for the aggregator role is resolved by the transport's
//! bind/connect semantics on the local rendezvous port, not here; this
//! module decides what each outcome of that race means for each requested
//! role, and which affinity assignment the supervisor must apply before
//! the worker does any work.

use vstd::prelude::*;
use crate::error::SupervisionError;

verus! {

/// A specific addressable worker slot, e.g. pinned to a CPU core.
#[derive(Clone, Copy, Debug, PartialEq, Eq, Structural)]
pub struct ClientDescription {
    /// Index of the worker slot.
    pub id: usize,
    /// Index among workers sharing the same core.
    pub overcommit_id: usize,
    /// The CPU core this worker is pinned to.
    pub core_id: usize,
}

/// The kind of manager to set up for this process instance. Chosen once
/// per supervision tree, immutable afterwards.
#[derive(Debug, Clone)]
pub enum ManagerKind {
    /// Any kind will do: try to become the aggregator, fall back to client.
    Any,
    /// A client, getting messages from a local broker.
    Client {
        /// The client description.
        client_description: ClientDescription,
    },
    /// A forced aggregator, forwarding the packets of local clients.
    Broker,
}

/// The role a process instance ends up performing.
#[derive(Clone, Copy, Debug, PartialEq, Eq)]
pub enum ResolvedRole {
    /// This instance is the aggregator.
    Broker,
    /// This instance is a worker; when it is pinned to a slot, the core to
    /// bind it to before it does any work.
    Client {
        /// The affinity assignment to apply, if any.
        core_affinity: Option<usize>,
    },
}

/// What each requested role means for each outcome of the bind race:
/// `Any` takes the aggregator role exactly when it claimed the port and
/// degrades to an unpinned client otherwise; a forced `Broker` fails
/// fatally when the port is taken; a pinned `Client` never contends for
/// the port and always carries its affinity assignment.
pub open spec fn spec_resolve_role(kind: ManagerKind, port_claimed: bool) -> Result<
    ResolvedRole,
    SupervisionError,
> {
    match kind {
        ManagerKind::Any => if port_claimed {
            Ok(ResolvedRole::Broker)
        } else {
            Ok(ResolvedRole::Client { core_affinity: None })
        },
        ManagerKind::Broker => if port_claimed {
            Ok(ResolvedRole::Broker)
        } else {
            Err(SupervisionError::BrokerPortUnavailable)
        },
        ManagerKind::Client { client_description } => Ok(
            ResolvedRole::Client { core_affinity: Some(client_description.core_id) },
        ),
    }
}

/// Resolves the role of this instance from the requested kind and the
/// outcome of the bind race for the local rendezvous port.
pub fn resolve_role(kind: &ManagerKind, port_claimed: bool) -> (r: Result<
    ResolvedRole,
    SupervisionError,
>)
    ensures
        r == spec_resolve_role(*kind, port_claimed),
{
    match kind {
        ManagerKind::Any => if port_claimed {
            Ok(ResolvedRole::Broker)
        } else {
            Ok(ResolvedRole::Client { core_affinity: None })
        },
        ManagerKind::Broker => if port_claimed {
            Ok(ResolvedRole::Broker)
        } else {
            Err(SupervisionError::BrokerPortUnavailable)
        },
        ManagerKind::Client { client_description } => Ok(
            ResolvedRole::Client { core_affinity: Some(client_description.core_id) },
        ),
    }
}

} // verus!
