//! The state-transfer channel: a fixed-size single-slot region that hands a
//! checkpoint payload from one worker instance to its successor.
//!
//! The slot holds at most one pending payload in wire form; publishing
//! overwrites, never appends. The channel has exactly one writer at a time
//! (the live instance), and a reset always precedes a publish, so a reader
//! that observes content observes one complete payload - never a slot whose
//! two halves come from different publish calls. That discipline is stated
//! here over an operation model and proved once for every operation
//! sequence.

use vstd::prelude::*;
use vstd::bytes::*;
use crate::codec::{
    CheckpointPayload, PayloadView, payload_wf, spec_encode_payload, spec_decode_payload,
    encode_payload, decode_payload, lemma_payload_round_trip,
};
use crate::error::SupervisionError;

verus! {

broadcast use vstd::std_specs::vec::axiom_spec_len;

/// Mathematical model of a state-transfer channel.
pub struct ChannelView {
    /// Size of the fixed region backing the slot, in bytes.
    pub capacity: int,
    /// Current wire-form content of the slot; empty when nothing is pending.
    pub slot: Seq<u8>,
    /// Whether a worker asked the whole supervision tree to stop.
    pub wants_exit: bool,
}

/// The payload a channel's slot currently holds, if any.
pub open spec fn slot_content(v: ChannelView) -> Option<PayloadView> {
    if v.slot.len() == 0 {
        None
    } else {
        spec_decode_payload(v.slot)
    }
}

/// Well-formedness: the slot fits the region and, when it is not empty, it
/// holds one complete decodable payload.
pub open spec fn channel_wf(v: ChannelView) -> bool {
    &&& 0 <= v.capacity <= usize::MAX
    &&& v.slot.len() <= v.capacity
    &&& (v.slot.len() > 0 ==> spec_decode_payload(v.slot) is Some)
}

/// The single-slot state-transfer channel.
#[derive(Debug)]
pub struct StateRestorer {
    buf: Vec<u8>,
    capacity: usize,
    wants_exit: bool,
}

impl View for StateRestorer {
    type V = ChannelView;

    closed spec fn view(&self) -> ChannelView {
        ChannelView { capacity: self.capacity as int, slot: self.buf@, wants_exit: self.wants_exit }
    }
}

impl StateRestorer {
    /// The payload this channel currently holds, if any.
    pub open spec fn content(self) -> Option<PayloadView> {
        slot_content(self@)
    }

    /// Well-formedness of the channel.
    pub open spec fn wf(self) -> bool {
        channel_wf(self@)
    }

    /// Creates an empty channel over a fresh region of the given size.
    pub fn new(capacity: usize) -> (r: StateRestorer)
        ensures
            r.wf(),
            r@.capacity == capacity,
            r.content() is None,
            !r@.wants_exit,
    {
        StateRestorer { buf: Vec::new(), capacity, wants_exit: false }
    }

    /// Empties the slot so the next publish writes from the start of the
    /// region. Every publish is preceded by a reset.
    pub fn reset(&mut self)
        requires
            old(self).wf(),
        ensures
            final(self).wf(),
            final(self)@.capacity == old(self)@.capacity,
            final(self)@.wants_exit == old(self)@.wants_exit,
            final(self).content() is None,
    {
        self.buf.clear();
    }

    /// Publishes a payload into the empty slot. Fails, leaving the channel
    /// unchanged, exactly when the payload's wire form exceeds the region.
    pub fn save(&mut self, payload: &CheckpointPayload) -> (r: Result<(), SupervisionError>)
        requires
            old(self).wf(),
            old(self).content() is None,
        ensures
            final(self).wf(),
            final(self)@.capacity == old(self)@.capacity,
            final(self)@.wants_exit == old(self)@.wants_exit,
            r is Ok <==> spec_encode_payload(payload@).len() <= old(self)@.capacity,
            r is Ok ==> final(self).content() == Some(payload@),
            r is Err ==> *final(self) == *old(self) && r == Err::<(), SupervisionError>(
                SupervisionError::PayloadTooLarge,
            ),
    {
        let enc = encode_payload(payload);
        if enc.len() <= self.capacity {
            proof {
                lemma_payload_round_trip(payload@);
            }
            self.buf = enc;
            Ok(())
        } else {
            Err(SupervisionError::PayloadTooLarge)
        }
    }

    /// Whether the slot holds a pending payload.
    pub fn has_content(&self) -> (r: bool)
        requires
            self.wf(),
        ensures
            r == (self.content() is Some),
    {
        self.buf.len() > 0
    }

    /// Reads the pending payload back out of the slot, if any. The channel
    /// is not consumed: restoring immediately after a publish yields exactly
    /// the last published payload.
    pub fn restore(&self) -> (r: Option<CheckpointPayload>)
        requires
            self.wf(),
        ensures
            match r {
                Some(p) => self.content() == Some(p@),
                None => self.content() is None,
            },
    {
        if self.buf.len() == 0 {
            None
        } else {
            decode_payload(self.buf.as_slice())
        }
    }

    /// Marks the channel: the writer is permanently leaving and supervision
    /// should stop. The slot itself is untouched.
    pub fn send_exiting(&mut self)
        requires
            old(self).wf(),
        ensures
            final(self).wf(),
            final(self)@.capacity == old(self)@.capacity,
            final(self)@.slot == old(self)@.slot,
            final(self)@.wants_exit,
    {
        self.wants_exit = true;
    }

    /// Whether a worker asked the supervision tree to stop.
    pub fn wants_to_exit(&self) -> (r: bool)
        ensures
            r == self@.wants_exit,
    {
        self.wants_exit
    }

    /// Serializes the whole channel for the environment-variable handshake,
    /// so a freshly spawned instance can import the same channel.
    pub fn to_env_description(&self) -> (r: Vec<u8>)
        requires
            self.wf(),
        ensures
            r@ == spec_encode_channel(self@),
    {
        let mut out = u64_to_le_bytes(self.capacity as u64);
        if self.wants_exit {
            out.push(1u8);
        } else {
            out.push(0u8);
        }
        out.extend_from_slice(self.buf.as_slice());
        assert(out@ =~= spec_encode_channel(self@));
        out
    }

    /// Reconstructs a channel from an exported description, validating it;
    /// `None` on any malformed description.
    pub fn from_env_description(b: &[u8]) -> (r: Option<StateRestorer>)
        ensures
            match r {
                Some(c) => spec_decode_channel(b@) == Some(c@) && c.wf(),
                None => spec_decode_channel(b@) is None,
            },
    {
        if b.len() < 9 {
            return None;
        }
        let cap64 = u64_from_le_bytes(vstd::slice::slice_subrange(b, 0, 8));
        if cap64 > usize::MAX as u64 {
            return None;
        }
        let capacity = cap64 as usize;
        let wants_byte = *vstd::slice::slice_index_get(b, 8);
        if wants_byte > 1 {
            return None;
        }
        let buf = vstd::slice::slice_to_vec(vstd::slice::slice_subrange(b, 9, b.len()));
        if buf.len() > capacity {
            return None;
        }
        if buf.len() > 0 {
            if decode_payload(buf.as_slice()).is_none() {
                return None;
            }
        }
        let c = StateRestorer { buf, capacity, wants_exit: wants_byte == 1 };
        proof {
            assert(spec_decode_channel(b@) == Some(c@));
        }
        Some(c)
    }
}

/// Wire form of a whole channel, for the environment handshake: the region
/// size, the stop flag, and the slot content.
pub open spec fn spec_encode_channel(v: ChannelView) -> Seq<u8> {
    spec_u64_to_le_bytes(v.capacity as u64) + seq![(if v.wants_exit { 1u8 } else { 0u8 })]
        + v.slot
}

/// Decoding of an exported channel description; `None` on any malformed or
/// ill-formed description, so that every imported channel is well-formed.
pub open spec fn spec_decode_channel(b: Seq<u8>) -> Option<ChannelView> {
    if b.len() < 9 {
        None
    } else {
        let cap = spec_u64_from_le_bytes(b.subrange(0, 8)) as int;
        let slot = b.subrange(9, b.len() as int);
        if cap <= usize::MAX && b[8] <= 1 && slot.len() <= cap && (slot.len() > 0
            ==> spec_decode_payload(slot) is Some) {
            Some(ChannelView { capacity: cap, slot, wants_exit: b[8] == 1 })
        } else {
            None
        }
    }
}

/// The environment handshake round-trips the channel: importing an exported
/// description yields a channel with the same region size, the same slot
/// content and the same stop flag.
pub proof fn lemma_env_handshake_round_trip(v: ChannelView)
    requires
        channel_wf(v),
    ensures
        spec_decode_channel(spec_encode_channel(v)) == Some(v),
{
    lemma_auto_spec_u64_to_from_le_bytes();
    let e = spec_encode_channel(v);
    assert(e.subrange(0, 8) =~= spec_u64_to_le_bytes(v.capacity as u64));
    assert(e.subrange(9, e.len() as int) =~= v.slot);
    assert(e[8] == (if v.wants_exit { 1u8 } else { 0u8 }));
    assert(spec_decode_channel(e) == Some(v));
}

/// One operation of the channel's single logical writer.
pub enum ChannelOp {
    /// Empty the slot.
    Reset,
    /// Publish a payload into the slot.
    Publish(PayloadView),
}

/// Whether a publish of this payload succeeds on a channel of this size.
pub open spec fn publish_applies(capacity: int, p: PayloadView) -> bool {
    payload_wf(p) && spec_encode_payload(p).len() <= capacity
}

/// The slot content after a sequence of writer operations runs on an
/// initially empty channel: a reset empties the slot, a publish that fits
/// fills it with exactly that payload, and a publish that does not fit
/// leaves the slot as it was.
pub open spec fn content_after(capacity: int, ops: Seq<ChannelOp>) -> Option<PayloadView>
    decreases ops.len(),
{
    if ops.len() == 0 {
        None
    } else {
        match ops.last() {
            ChannelOp::Reset => None,
            ChannelOp::Publish(p) => if publish_applies(capacity, p) {
                Some(p)
            } else {
                content_after(capacity, ops.drop_last())
            },
        }
    }
}

/// Single-writer consistency: whatever sequence of resets and publishes one
/// logical writer runs, a reader that observes a payload observes one that
/// a single publish wrote whole - its state half and its descriptor half
/// never come from different publish calls.
pub proof fn lemma_single_writer_consistency(capacity: int, ops: Seq<ChannelOp>, p: PayloadView)
    requires
        content_after(capacity, ops) == Some(p),
    ensures
        ops.contains(ChannelOp::Publish(p)),
    decreases ops.len(),
{
    match ops.last() {
        ChannelOp::Reset => {},
        ChannelOp::Publish(q) => {
            if publish_applies(capacity, q) {
                assert(ops[ops.len() - 1] == ChannelOp::Publish(p));
            } else {
                lemma_single_writer_consistency(capacity, ops.drop_last(), p);
                let i = choose|i: int|
                    0 <= i < ops.drop_last().len() && ops.drop_last()[i] == ChannelOp::Publish(p);
                assert(ops[i] == ChannelOp::Publish(p));
            }
        },
    }
}

/// Restore idempotence over the operation model: after a reset the reader
/// sees no content, and after a publish that fits the reader sees exactly
/// the published payload, whatever ran before.
pub proof fn lemma_restore_after_reset_and_publish(
    capacity: int,
    ops: Seq<ChannelOp>,
    p: PayloadView,
)
    ensures
        content_after(capacity, ops.push(ChannelOp::Reset)) is None,
        publish_applies(capacity, p) ==> content_after(
            capacity,
            ops.push(ChannelOp::Publish(p)),
        ) == Some(p),
{
    assert(ops.push(ChannelOp::Reset).last() == ChannelOp::Reset);
    assert(ops.push(ChannelOp::Publish(p)).last() == ChannelOp::Publish(p));
}

} // verus!
