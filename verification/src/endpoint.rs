//! A messaging-endpoint handle.
//!
//! The event bus itself - the lock-free shared-memory transport between
//! workers and the aggregator - is an external collaborator. The endpoint
//! records exactly the state the checkpoint protocol reads and hands
//! across the restart boundary: the bus identity of this client, how many
//! events it has forwarded, and whether it announced that it is leaving.

use vstd::prelude::*;
use crate::codec::EndpointDescription;

verus! {

/// The handle a worker instance holds on the event bus.
#[derive(Clone, Copy, Debug, PartialEq, Eq, Structural)]
pub struct EventEndpoint {
    /// Identity of this client slot on the bus.
    pub client_id: u64,
    /// Events forwarded so far; a successor resumes from this offset.
    pub events_forwarded: u64,
    /// Whether this endpoint announced that it is permanently leaving.
    pub exiting: bool,
}

impl EventEndpoint {
    /// The endpoint after one more event was forwarded (saturating).
    pub open spec fn after_fire(self) -> EventEndpoint {
        EventEndpoint {
            events_forwarded: if self.events_forwarded == u64::MAX {
                u64::MAX
            } else {
                (self.events_forwarded + 1) as u64
            },
            ..self
        }
    }

    /// The reconnection descriptor this endpoint would hand out now.
    pub open spec fn spec_describe(self) -> EndpointDescription {
        EndpointDescription { client_id: self.client_id, resume_offset: self.events_forwarded }
    }

    /// A freshly attached endpoint under the given bus identity.
    pub fn new(client_id: u64) -> (r: EventEndpoint)
        ensures
            r == (EventEndpoint { client_id, events_forwarded: 0, exiting: false }),
    {
        EventEndpoint { client_id, events_forwarded: 0, exiting: false }
    }

    /// Re-attaches to the logical bus identity a predecessor described:
    /// the successor resumes exactly where the descriptor says.
    pub fn reconnect(d: &EndpointDescription) -> (r: EventEndpoint)
        ensures
            r == (EventEndpoint {
                client_id: d.client_id,
                events_forwarded: d.resume_offset,
                exiting: false,
            }),
    {
        EventEndpoint {
            client_id: d.client_id,
            events_forwarded: d.resume_offset,
            exiting: false,
        }
    }

    /// Forwards one event over the bus. The bus traffic itself is out of
    /// scope; the endpoint records the advance of its forwarding offset.
    pub fn fire(&mut self, event: &Vec<u8>)
        ensures
            *final(self) == old(self).after_fire(),
    {
        if self.events_forwarded < u64::MAX {
            self.events_forwarded = self.events_forwarded + 1;
        }
    }

    /// Describes this endpoint so a successor instance can reconnect.
    pub fn describe(&self) -> (r: EndpointDescription)
        ensures
            r == self.spec_describe(),
    {
        EndpointDescription {
            client_id: self.client_id,
            resume_offset: self.events_forwarded,
        }
    }

    /// Announces that this instance is permanently leaving the bus, so the
    /// aggregator can release its per-client resources.
    pub fn send_exiting(&mut self)
        ensures
            final(self).client_id == old(self).client_id,
            final(self).events_forwarded == old(self).events_forwarded,
            final(self).exiting,
    {
        self.exiting = true;
    }

    /// Blocks until the aggregator has mapped every shared page it still
    /// needs from this client. The rendezvous happens on the transport,
    /// outside this core; it changes nothing the protocol observes.
    pub fn await_restart_safe(&self) {
    }
}

} // verus!
