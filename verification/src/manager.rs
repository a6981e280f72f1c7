//! The checkpoint protocol: a manager that wraps a messaging endpoint and
//! a state-transfer channel together with a save-state policy, and keeps
//! the channel's payload consistent with the worker's latest durable
//! checkpoint.
//!
//! Every publish is preceded by a reset of the slot, so a reader that
//! observes content observes one complete payload. Which of the two save
//! paths actually writes - the explicit restart request, or the
//! intermediate save after every event fire - is decided by the policy
//! alone; that gating is stated and proved over an operation model at the
//! end of this module.

use vstd::prelude::*;
use crate::channel::{StateRestorer, ChannelView, slot_content, channel_wf};
use crate::codec::{
    CheckpointPayload, PayloadView, EndpointDescription, payload_wf, spec_encode_payload,
    empty_state_payload, lemma_empty_state_encoding_len, PAYLOAD_HEADER_LEN,
};
use crate::endpoint::EventEndpoint;
use crate::error::SupervisionError;
use crate::policy::SaveStatePolicy;

verus! {

broadcast use vstd::std_specs::vec::axiom_spec_len;

/// Mathematical model of a restarting event manager.
pub struct ManagerView {
    /// The endpoint's protocol-relevant state.
    pub endpoint: EventEndpoint,
    /// The channel's model.
    pub channel: ChannelView,
    /// The save-state policy, fixed at construction.
    pub save_state: SaveStatePolicy,
}

/// The payload an explicit restart request publishes: the full durable
/// state exactly when the policy permits serializing it, and the
/// descriptor the endpoint reports at the moment of the call.
pub open spec fn restart_payload(
    policy: SaveStatePolicy,
    state: Seq<u8>,
    d: EndpointDescription,
) -> PayloadView {
    PayloadView {
        state: if policy.spec_saves_on_restart() {
            Some(state)
        } else {
            None
        },
        descriptor: d,
    }
}

/// A manager that survives restarts on the fly, storing the worker's
/// checkpoint in the state-transfer channel in between.
#[derive(Debug)]
pub struct LlmpRestartingEventManager {
    /// The embedded messaging endpoint.
    llmp_mgr: EventEndpoint,
    /// The channel that carries the checkpoint to the next instance.
    staterestorer: StateRestorer,
    /// Decides which save paths actually publish a payload.
    save_state: SaveStatePolicy,
}

impl View for LlmpRestartingEventManager {
    type V = ManagerView;

    closed spec fn view(&self) -> ManagerView {
        ManagerView {
            endpoint: self.llmp_mgr,
            channel: self.staterestorer@,
            save_state: self.save_state,
        }
    }
}

impl LlmpRestartingEventManager {
    /// Well-formedness: the wrapped channel is well-formed.
    pub open spec fn wf(self) -> bool {
        channel_wf(self@.channel)
    }

    /// Creates a manager that serializes durable state on explicit restart
    /// requests only.
    pub fn new(llmp_mgr: EventEndpoint, staterestorer: StateRestorer) -> (r:
        LlmpRestartingEventManager)
        requires
            staterestorer.wf(),
        ensures
            r.wf(),
            r@ == (ManagerView {
                endpoint: llmp_mgr,
                channel: staterestorer@,
                save_state: SaveStatePolicy::OnRestart,
            }),
    {
        LlmpRestartingEventManager {
            llmp_mgr,
            staterestorer,
            save_state: SaveStatePolicy::OnRestart,
        }
    }

    /// Creates a manager with an explicit save-state policy.
    pub fn with_save_state(
        llmp_mgr: EventEndpoint,
        staterestorer: StateRestorer,
        save_state: SaveStatePolicy,
    ) -> (r: LlmpRestartingEventManager)
        requires
            staterestorer.wf(),
        ensures
            r.wf(),
            r@ == (ManagerView { endpoint: llmp_mgr, channel: staterestorer@, save_state }),
    {
        LlmpRestartingEventManager { llmp_mgr, staterestorer, save_state }
    }

    /// The wrapped state-transfer channel.
    pub fn staterestorer(&self) -> (r: &StateRestorer)
        ensures
            r@ == self@.channel,
    {
        &self.staterestorer
    }

    /// The wrapped state-transfer channel, mutably.
    pub fn staterestorer_mut(&mut self) -> (r: &mut StateRestorer)
        ensures
            r@ == old(self)@.channel,
            final(self)@.endpoint == old(self)@.endpoint,
            final(self)@.save_state == old(self)@.save_state,
            final(self)@.channel == final(r)@,
    {
        &mut self.staterestorer
    }

    /// The wrapped endpoint.
    pub fn endpoint(&self) -> (r: &EventEndpoint)
        ensures
            *r == self@.endpoint,
    {
        &self.llmp_mgr
    }

    /// Forwards one event through the endpoint; afterwards, under the
    /// eager-saving policy, immediately re-publishes a payload whose state
    /// half is empty and whose descriptor reflects the endpoint after the
    /// fire, so the channel always holds a descriptor recent enough to
    /// resume the bus identity even if the worker is killed with no
    /// warning.
    pub fn fire(&mut self, event: &Vec<u8>) -> (r: Result<(), SupervisionError>)
        requires
            old(self).wf(),
        ensures
            final(self).wf(),
            final(self)@.save_state == old(self)@.save_state,
            final(self)@.endpoint == old(self)@.endpoint.after_fire(),
            final(self)@.channel.capacity == old(self)@.channel.capacity,
            final(self)@.channel.wants_exit == old(self)@.channel.wants_exit,
            !old(self)@.save_state.spec_oom_safe() ==> r is Ok && final(self)@.channel == old(
                self,
            )@.channel,
            old(self)@.save_state.spec_oom_safe() ==> {
                &&& (r is Ok <==> PAYLOAD_HEADER_LEN <= old(self)@.channel.capacity)
                &&& (r is Ok ==> slot_content(final(self)@.channel) == Some(
                    empty_state_payload(final(self)@.endpoint.spec_describe()),
                ))
                &&& (r is Err ==> slot_content(final(self)@.channel) is None && r == Err::<
                    (),
                    SupervisionError,
                >(SupervisionError::PayloadTooLarge))
            },
            slot_content(final(self)@.channel) == protocol_step(
                old(self)@.save_state,
                old(self)@.channel.capacity,
                slot_content(old(self)@.channel),
                ProtocolOp::Fire,
                final(self)@.endpoint.spec_describe(),
            ),
    {
        self.llmp_mgr.fire(event);
        let r = self.intermediate_save();
        proof {
            lemma_empty_state_encoding_len(self.llmp_mgr.spec_describe());
        }
        r
    }

    /// Explicit checkpoint request, issued before the worker executes code
    /// that might crash: resets the channel's slot, then publishes a
    /// payload with the full durable state (when the policy permits) and
    /// the current reconnection descriptor, then waits until the
    /// aggregator has mapped all pages it still needs.
    pub fn on_restart(&mut self, state: &Vec<u8>) -> (r: Result<(), SupervisionError>)
        requires
            old(self).wf(),
        ensures
            final(self).wf(),
            final(self)@.save_state == old(self)@.save_state,
            final(self)@.endpoint == old(self)@.endpoint,
            final(self)@.channel.capacity == old(self)@.channel.capacity,
            final(self)@.channel.wants_exit == old(self)@.channel.wants_exit,
            r is Ok <==> spec_encode_payload(
                restart_payload(
                    old(self)@.save_state,
                    state@,
                    old(self)@.endpoint.spec_describe(),
                ),
            ).len() <= old(self)@.channel.capacity,
            r is Ok ==> slot_content(final(self)@.channel) == Some(
                restart_payload(
                    old(self)@.save_state,
                    state@,
                    old(self)@.endpoint.spec_describe(),
                ),
            ),
            r is Err ==> slot_content(final(self)@.channel) is None && r == Err::<
                (),
                SupervisionError,
            >(SupervisionError::PayloadTooLarge),
            slot_content(final(self)@.channel) == protocol_step(
                old(self)@.save_state,
                old(self)@.channel.capacity,
                slot_content(old(self)@.channel),
                ProtocolOp::OnRestart(state@),
                old(self)@.endpoint.spec_describe(),
            ),
    {
        self.staterestorer.reset();
        let d = self.llmp_mgr.describe();
        let p = if self.save_state.saves_on_restart() {
            CheckpointPayload {
                state: Some(vstd::slice::slice_to_vec(state.as_slice())),
                descriptor: d,
            }
        } else {
            CheckpointPayload { state: None, descriptor: d }
        };
        let r = match self.staterestorer.save(&p) {
            Ok(()) => Ok(()),
            Err(e) => Err(e),
        };
        // Block until the aggregator has mapped all shared pages it still
        // needs to keep forwarding this worker's traffic after it exits.
        self.await_restart_safe();
        r
    }

    /// Saves an empty-state payload with a fresh descriptor, but only under
    /// the eager-saving policy; under any other policy this call leaves the
    /// channel untouched.
    pub fn intermediate_save(&mut self) -> (r: Result<(), SupervisionError>)
        requires
            old(self).wf(),
        ensures
            final(self).wf(),
            final(self)@.save_state == old(self)@.save_state,
            final(self)@.endpoint == old(self)@.endpoint,
            final(self)@.channel.capacity == old(self)@.channel.capacity,
            final(self)@.channel.wants_exit == old(self)@.channel.wants_exit,
            !old(self)@.save_state.spec_oom_safe() ==> r is Ok && final(self)@.channel == old(
                self,
            )@.channel,
            old(self)@.save_state.spec_oom_safe() ==> {
                &&& (r is Ok <==> PAYLOAD_HEADER_LEN <= old(self)@.channel.capacity)
                &&& (r is Ok ==> slot_content(final(self)@.channel) == Some(
                    empty_state_payload(old(self)@.endpoint.spec_describe()),
                ))
                &&& (r is Err ==> slot_content(final(self)@.channel) is None && r == Err::<
                    (),
                    SupervisionError,
                >(SupervisionError::PayloadTooLarge))
            },
    {
        if self.save_state.oom_safe() {
            self.staterestorer.reset();
            let d = self.llmp_mgr.describe();
            let p = CheckpointPayload { state: None, descriptor: d };
            proof {
                lemma_empty_state_encoding_len(d);
            }
            match self.staterestorer.save(&p) {
                Ok(()) => Ok(()),
                Err(e) => Err(e),
            }
        } else {
            Ok(())
        }
    }

    /// Informs both the channel and the endpoint that this instance is
    /// permanently leaving: called exactly once, on every exit path.
    pub fn send_exiting(&mut self)
        requires
            old(self).wf(),
        ensures
            final(self).wf(),
            final(self)@.save_state == old(self)@.save_state,
            final(self)@.channel.capacity == old(self)@.channel.capacity,
            final(self)@.channel.slot == old(self)@.channel.slot,
            final(self)@.channel.wants_exit,
            final(self)@.endpoint.client_id == old(self)@.endpoint.client_id,
            final(self)@.endpoint.events_forwarded == old(self)@.endpoint.events_forwarded,
            final(self)@.endpoint.exiting,
    {
        self.staterestorer.send_exiting();
        self.llmp_mgr.send_exiting();
    }

    /// Waits until the aggregator has mapped all shared pages it needs, so
    /// the operating system cannot reclaim shared memory the aggregator is
    /// still forwarding from. The rendezvous is the transport's.
    pub fn await_restart_safe(&self) {
        self.llmp_mgr.await_restart_safe();
    }
}

/// One checkpoint-protocol call, as the channel sees it.
pub enum ProtocolOp {
    /// An externally visible event fire.
    Fire,
    /// An explicit restart request carrying the durable state.
    OnRestart(Seq<u8>),
}

/// Channel content after one protocol call, given the descriptor the
/// endpoint reports at that call: a fire publishes an empty-state payload
/// under the eager-saving policy and touches nothing otherwise; an
/// explicit restart request always publishes, gating only the state half
/// by the policy. A payload that does not fit the slot leaves it empty,
/// since the reset precedes the publish.
pub open spec fn protocol_step(
    policy: SaveStatePolicy,
    capacity: int,
    content: Option<PayloadView>,
    op: ProtocolOp,
    d: EndpointDescription,
) -> Option<PayloadView> {
    match op {
        ProtocolOp::Fire => if !policy.spec_oom_safe() {
            content
        } else if spec_encode_payload(empty_state_payload(d)).len() <= capacity {
            Some(empty_state_payload(d))
        } else {
            None
        },
        ProtocolOp::OnRestart(s) => if payload_wf(restart_payload(policy, s, d))
            && spec_encode_payload(restart_payload(policy, s, d)).len() <= capacity {
            Some(restart_payload(policy, s, d))
        } else {
            None
        },
    }
}

/// Channel content after a sequence of protocol calls, each paired with
/// the descriptor the endpoint reported at that call.
pub open spec fn protocol_run(
    policy: SaveStatePolicy,
    capacity: int,
    content: Option<PayloadView>,
    calls: Seq<(ProtocolOp, EndpointDescription)>,
) -> Option<PayloadView>
    decreases calls.len(),
{
    if calls.len() == 0 {
        content
    } else {
        protocol_step(
            policy,
            capacity,
            protocol_run(policy, capacity, content, calls.drop_last()),
            calls.last().0,
            calls.last().1,
        )
    }
}

/// Whether a channel content is free of durable-state snapshots.
pub open spec fn snapshot_free(content: Option<PayloadView>) -> bool {
    content matches Some(p) ==> p.state is None
}

/// Policy gating, `Never`: no sequence of protocol calls ever leaves a
/// payload with a non-empty durable-state half in the channel.
pub proof fn lemma_never_policy_publishes_no_snapshot(
    capacity: int,
    content: Option<PayloadView>,
    calls: Seq<(ProtocolOp, EndpointDescription)>,
)
    requires
        snapshot_free(content),
    ensures
        snapshot_free(protocol_run(SaveStatePolicy::Never, capacity, content, calls)),
    decreases calls.len(),
{
    if calls.len() > 0 {
        lemma_never_policy_publishes_no_snapshot(capacity, content, calls.drop_last());
    }
}

/// Policy gating, `OomSafe`: on a channel whose slot fits the fixed
/// payload header, every fire leaves a published payload whose state half
/// is empty and whose descriptor is exactly the one the endpoint reported
/// at that fire.
pub proof fn lemma_oom_safe_fire_publishes_fresh_descriptor(
    capacity: int,
    content: Option<PayloadView>,
    d: EndpointDescription,
)
    requires
        PAYLOAD_HEADER_LEN <= capacity,
    ensures
        protocol_step(SaveStatePolicy::OomSafe, capacity, content, ProtocolOp::Fire, d) == Some(
            empty_state_payload(d),
        ),
{
    lemma_empty_state_encoding_len(d);
}

/// Policy gating, `OnRestart`: a fire never changes the channel, and an
/// explicit restart request whose payload fits publishes the full durable
/// state.
pub proof fn lemma_on_restart_policy_gating(
    capacity: int,
    content: Option<PayloadView>,
    s: Seq<u8>,
    d: EndpointDescription,
)
    ensures
        protocol_step(SaveStatePolicy::OnRestart, capacity, content, ProtocolOp::Fire, d)
            == content,
        s.len() <= u64::MAX && spec_encode_payload(
            restart_payload(SaveStatePolicy::OnRestart, s, d),
        ).len() <= capacity ==> protocol_step(
            SaveStatePolicy::OnRestart,
            capacity,
            content,
            ProtocolOp::OnRestart(s),
            d,
        ) == Some((PayloadView { state: Some(s), descriptor: d })),
{
}

} // verus!
