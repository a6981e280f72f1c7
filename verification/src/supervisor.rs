//! The respawn supervisor's decision core.
//!
//! The supervisor resolves the instance's role once, attaches the
//! state-transfer channel, and then repeatedly launches worker instances,
//! classifying each termination to decide whether to loop or to stop. The
//! launching itself - forking or spawning, waiting, signal handling, the
//! environment-variable handshake - is operating-system work that belongs
//! to the caller; what stands here is every decision in that loop: which
//! channel an instance starts from, what a freshly launched instance
//! restores, and what each observed exit means.

use vstd::prelude::*;
use crate::channel::{StateRestorer, slot_content, spec_decode_channel};
use crate::classify::{ExitClass, ExitAction, classify_exit, exit_action, spec_classify,
    spec_exit_action};
use crate::codec::{EndpointDescription, PayloadView, empty_state_payload, PAYLOAD_HEADER_LEN};
use crate::endpoint::EventEndpoint;
use crate::error::SupervisionError;
use crate::manager::LlmpRestartingEventManager;
use crate::policy::SaveStatePolicy;
use crate::role::ManagerKind;

verus! {

/// The durable-state half a freshly launched instance resumes with: the
/// restored payload's state when the channel held one, nothing otherwise.
pub open spec fn recovered_state(content: Option<PayloadView>) -> Option<Seq<u8>> {
    match content {
        Some(p) => p.state,
        None => None,
    }
}

/// The endpoint a freshly launched instance holds: reconnected from the
/// restored payload's descriptor when the channel held one, and from the
/// initial broker-client descriptor exported at setup otherwise.
pub open spec fn recovered_endpoint(
    content: Option<PayloadView>,
    initial: EndpointDescription,
) -> EventEndpoint {
    match content {
        Some(p) => EventEndpoint {
            client_id: p.descriptor.client_id,
            events_forwarded: p.descriptor.resume_offset,
            exiting: false,
        },
        None => EventEndpoint {
            client_id: initial.client_id,
            events_forwarded: initial.resume_offset,
            exiting: false,
        },
    }
}

/// The validated configuration record of one supervision tree, constructed
/// once and never mutated afterwards; only the generation counter, owned
/// solely by the supervisor and used for diagnostics, moves.
#[derive(Debug)]
pub struct RestartingMgr {
    /// The kind of manager to set up for this instance.
    pub kind: ManagerKind,
    /// The local rendezvous port the aggregator claims.
    pub broker_port: u16,
    /// An optional remote aggregator to bridge to, as an opaque connect
    /// target, connected once at aggregator startup.
    pub remote_broker_addr: Option<String>,
    /// How many external clients must have connected before the aggregator
    /// quits after the last one exits; `None` keeps it running forever.
    pub exit_cleanly_after: Option<u64>,
    /// The save-state policy of every manager in this tree.
    pub serialize_state: SaveStatePolicy,
    /// The aggregator's poll interval, in milliseconds.
    pub poll_interval_ms: u64,
    /// Size of the region backing the state-transfer channel, in bytes.
    pub channel_capacity: usize,
    /// How many instances were launched so far. Owned solely by the
    /// supervisor, incremented once per launch, diagnostics only.
    pub generation: u64,
}

impl RestartingMgr {
    /// How many instances this supervisor has launched so far.
    pub open spec fn spec_generation(self) -> u64 {
        self.generation
    }

    /// Builds the configuration record of a supervision tree.
    pub fn new(
        kind: ManagerKind,
        broker_port: u16,
        remote_broker_addr: Option<String>,
        exit_cleanly_after: Option<u64>,
        serialize_state: SaveStatePolicy,
        poll_interval_ms: u64,
        channel_capacity: usize,
    ) -> (r: RestartingMgr)
        ensures
            r.kind == kind,
            r.broker_port == broker_port,
            r.remote_broker_addr == remote_broker_addr,
            r.exit_cleanly_after == exit_cleanly_after,
            r.serialize_state == serialize_state,
            r.poll_interval_ms == poll_interval_ms,
            r.channel_capacity == channel_capacity,
            r.spec_generation() == 0,
    {
        RestartingMgr {
            kind,
            broker_port,
            remote_broker_addr,
            exit_cleanly_after,
            serialize_state,
            poll_interval_ms,
            channel_capacity,
            generation: 0,
        }
    }

    /// How many instances this supervisor has launched so far.
    pub fn generations_launched(&self) -> (r: u64)
        ensures
            r == self.spec_generation(),
    {
        self.generation
    }

    /// Counts one launched instance. Diagnostics only: the counter has no
    /// effect on protocol correctness, and saturates rather than wrap.
    pub fn record_launch(&mut self)
        ensures
            final(self).kind == old(self).kind,
            final(self).broker_port == old(self).broker_port,
            final(self).remote_broker_addr == old(self).remote_broker_addr,
            final(self).exit_cleanly_after == old(self).exit_cleanly_after,
            final(self).serialize_state == old(self).serialize_state,
            final(self).poll_interval_ms == old(self).poll_interval_ms,
            final(self).channel_capacity == old(self).channel_capacity,
            final(self).spec_generation() == if old(self).spec_generation() == u64::MAX {
                u64::MAX as int
            } else {
                old(self).spec_generation() + 1
            },
    {
        if self.generation < u64::MAX {
            self.generation = self.generation + 1;
        }
    }

    /// Attaching the channel: a fresh process (no inherited description
    /// found in its environment) is the top-level supervisor and creates a
    /// new, empty channel to export for its children; a process that found
    /// a description is itself a just-launched worker instance and imports
    /// the channel it was handed. The flag says which of the two this call
    /// was. This single branch point keeps the protocol portable across
    /// fork-based and re-exec-based restart strategies.
    pub fn attach_channel(&self, inherited: Option<&Vec<u8>>) -> (r: Result<
        (StateRestorer, bool),
        SupervisionError,
    >)
        ensures
            match r {
                Ok(pair) => pair.0.wf() && match inherited {
                    None => !pair.1 && pair.0@.capacity == self.channel_capacity
                        && pair.0.content() is None && !pair.0@.wants_exit,
                    Some(b) => pair.1 && spec_decode_channel(b@) == Some(pair.0@),
                },
                Err(e) => e == SupervisionError::ChannelDescriptionInvalid && (
                inherited matches Some(b) && spec_decode_channel(b@) is None),
            },
    {
        match inherited {
            None => Ok((StateRestorer::new(self.channel_capacity), false)),
            Some(b) => match StateRestorer::from_env_description(b.as_slice()) {
                Some(c) => Ok((c, true)),
                None => Err(SupervisionError::ChannelDescriptionInvalid),
            },
        }
    }

    /// Classifies a terminated child from its exit code and the channel it
    /// wrote to, and decides whether the loop relaunches, terminates
    /// cleanly, or fails fatally.
    pub fn classify_child_exit(&self, exit_code: i32, channel: &StateRestorer) -> (r: (
        ExitClass,
        ExitAction,
    ))
        requires
            channel.wf(),
        ensures
            r.0 == spec_classify(
                exit_code as int,
                channel.content() is Some,
                channel@.wants_exit,
                self.serialize_state,
            ),
            r.1 == spec_exit_action(r.0, self.serialize_state),
    {
        let has_content = channel.has_content();
        let wants_exit = channel.wants_to_exit();
        let class = classify_exit(exit_code, has_content, wants_exit, self.serialize_state);
        let action = exit_action(class, self.serialize_state);
        (class, action)
    }

    /// A freshly launched instance takes over the channel: it restores the
    /// last published payload if one is present, resumes its predecessor's
    /// durable state and bus identity from it (or starts fresh from the
    /// initial descriptor), and wraps channel and endpoint into a manager.
    /// Under the eager-saving policy the new manager immediately publishes
    /// an empty-state payload; under any other policy it resets the slot,
    /// so a stale payload can never be misread as fresh.
    pub fn recover(&self, staterestorer: StateRestorer, initial: &EndpointDescription) -> (r:
        Result<(Option<Vec<u8>>, LlmpRestartingEventManager), SupervisionError>)
        requires
            staterestorer.wf(),
        ensures
            r is Ok <==> (self.serialize_state.spec_oom_safe()
                ==> PAYLOAD_HEADER_LEN <= staterestorer@.capacity),
            r matches Err(e) ==> e == SupervisionError::PayloadTooLarge,
            r matches Ok(pair) ==> {
                &&& pair.1.wf()
                &&& pair.1@.save_state == self.serialize_state
                &&& pair.1@.endpoint == recovered_endpoint(staterestorer.content(), *initial)
                &&& (match pair.0 {
                    Some(v) => recovered_state(staterestorer.content()) == Some(v@),
                    None => recovered_state(staterestorer.content()) is None,
                })
                &&& pair.1@.channel.capacity == staterestorer@.capacity
                &&& (self.serialize_state.spec_oom_safe() ==> slot_content(pair.1@.channel)
                    == Some(empty_state_payload(pair.1@.endpoint.spec_describe())))
                &&& (!self.serialize_state.spec_oom_safe() ==> slot_content(
                    pair.1@.channel,
                ) is None)
            },
    {
        let (state, endpoint) = match staterestorer.restore() {
            Some(p) => (p.state, EventEndpoint::reconnect(&p.descriptor)),
            None => (None, EventEndpoint::reconnect(initial)),
        };
        let mut mgr = LlmpRestartingEventManager::with_save_state(
            endpoint,
            staterestorer,
            self.serialize_state,
        );
        if self.serialize_state.oom_safe() {
            match mgr.intermediate_save() {
                Ok(()) => {},
                Err(e) => {
                    return Err(e);
                },
            }
        } else {
            mgr.staterestorer_mut().reset();
        }
        Ok((state, mgr))
    }
}

} // verus!
