//! The checkpoint payload and its wire form.
//!
//! A payload is an ordered pair: an optional serialized durable-state
//! snapshot, and the reconnection descriptor the next instance needs to
//! resume the same logical event-bus identity. The wire form is what the
//! single-slot channel actually holds; encoding and decoding round-trip
//! exactly, so a reader always recovers the pair that one publish wrote.

use vstd::prelude::*;
use vstd::bytes::*;

verus! {

/// Tag byte for a payload whose durable-state half is absent.
pub const TAG_STATE_ABSENT: u8 = 0;

/// Tag byte for a payload whose durable-state half is present.
pub const TAG_STATE_PRESENT: u8 = 1;

/// Byte length of the fixed payload header: one tag byte and the two
/// eight-byte halves of the reconnection descriptor.
pub const PAYLOAD_HEADER_LEN: usize = 17;

/// Reconnection descriptor for a messaging endpoint: the data a freshly
/// launched instance needs to re-attach to the same logical event-bus
/// identity as its predecessor.
#[derive(Clone, Copy, Debug, PartialEq, Eq, Structural)]
pub struct EndpointDescription {
    /// Identity of the client slot on the event bus.
    pub client_id: u64,
    /// How many events the endpoint had forwarded when it was described;
    /// the successor resumes from this point.
    pub resume_offset: u64,
}

/// A checkpoint payload: the optional durable-state snapshot published
/// before risky execution, plus the reconnection descriptor (always
/// present).
#[derive(Debug)]
pub struct CheckpointPayload {
    /// Serialized durable state, absent when the save-state policy forbids
    /// eager saving and no explicit restart has occurred.
    pub state: Option<Vec<u8>>,
    /// Reconnection descriptor for the messaging endpoint.
    pub descriptor: EndpointDescription,
}

/// Mathematical model of a checkpoint payload.
pub struct PayloadView {
    /// Model of the optional durable-state snapshot.
    pub state: Option<Seq<u8>>,
    /// The reconnection descriptor.
    pub descriptor: EndpointDescription,
}

impl View for CheckpointPayload {
    type V = PayloadView;

    open spec fn view(&self) -> PayloadView {
        PayloadView {
            state: match self.state {
                Some(s) => Some(s@),
                None => None,
            },
            descriptor: self.descriptor,
        }
    }
}

/// A payload whose state half is small enough that its length fits in the
/// wire form's length field. Every payload built from executable values
/// satisfies this.
pub open spec fn payload_wf(p: PayloadView) -> bool {
    p.state matches Some(s) ==> s.len() <= u64::MAX
}

/// The payload that an intermediate save publishes: an empty state half and
/// the given descriptor.
pub open spec fn empty_state_payload(d: EndpointDescription) -> PayloadView {
    PayloadView { state: None, descriptor: d }
}

/// Wire form of a reconnection descriptor: both halves little-endian.
pub open spec fn spec_encode_descriptor(d: EndpointDescription) -> Seq<u8> {
    spec_u64_to_le_bytes(d.client_id) + spec_u64_to_le_bytes(d.resume_offset)
}

/// Wire form of a payload: a tag byte, the descriptor, and - when the state
/// half is present - its length and its bytes.
pub open spec fn spec_encode_payload(p: PayloadView) -> Seq<u8> {
    match p.state {
        None => seq![TAG_STATE_ABSENT] + spec_encode_descriptor(p.descriptor),
        Some(s) => seq![TAG_STATE_PRESENT] + spec_encode_descriptor(p.descriptor)
            + spec_u64_to_le_bytes(s.len() as u64) + s,
    }
}

/// Decoding of a wire-form payload; `None` on any malformed input.
pub open spec fn spec_decode_payload(b: Seq<u8>) -> Option<PayloadView> {
    if b.len() < PAYLOAD_HEADER_LEN {
        None
    } else {
        let d = EndpointDescription {
            client_id: spec_u64_from_le_bytes(b.subrange(1, 9)),
            resume_offset: spec_u64_from_le_bytes(b.subrange(9, 17)),
        };
        if b[0] == TAG_STATE_ABSENT {
            if b.len() == PAYLOAD_HEADER_LEN {
                Some(PayloadView { state: None, descriptor: d })
            } else {
                None
            }
        } else if b[0] == TAG_STATE_PRESENT {
            if b.len() < PAYLOAD_HEADER_LEN + 8 {
                None
            } else if b.len() == PAYLOAD_HEADER_LEN + 8 + spec_u64_from_le_bytes(
                b.subrange(17, 25),
            ) {
                Some(PayloadView { state: Some(b.subrange(25, b.len() as int)), descriptor: d })
            } else {
                None
            }
        } else {
            None
        }
    }
}

/// A payload without a state half always encodes to the fixed header length,
/// whatever its descriptor holds.
pub proof fn lemma_empty_state_encoding_len(d: EndpointDescription)
    ensures
        spec_encode_payload(empty_state_payload(d)).len() == PAYLOAD_HEADER_LEN,
{
    lemma_auto_spec_u64_to_from_le_bytes();
}

/// Decoding inverts encoding: a reader of the wire form recovers exactly the
/// pair that was encoded, state presence, state bytes and descriptor alike.
pub proof fn lemma_payload_round_trip(p: PayloadView)
    requires
        payload_wf(p),
    ensures
        spec_decode_payload(spec_encode_payload(p)) == Some(p),
{
    lemma_auto_spec_u64_to_from_le_bytes();
    let e = spec_encode_payload(p);
    match p.state {
        None => {
            assert(e.len() == PAYLOAD_HEADER_LEN);
            assert(e[0] == TAG_STATE_ABSENT);
            assert(e.subrange(1, 9) =~= spec_u64_to_le_bytes(p.descriptor.client_id));
            assert(e.subrange(9, 17) =~= spec_u64_to_le_bytes(p.descriptor.resume_offset));
        },
        Some(s) => {
            assert(e.len() == PAYLOAD_HEADER_LEN + 8 + s.len());
            assert(e[0] == TAG_STATE_PRESENT);
            assert(e.subrange(1, 9) =~= spec_u64_to_le_bytes(p.descriptor.client_id));
            assert(e.subrange(9, 17) =~= spec_u64_to_le_bytes(p.descriptor.resume_offset));
            assert(e.subrange(17, 25) =~= spec_u64_to_le_bytes(s.len() as u64));
            assert(spec_u64_from_le_bytes(e.subrange(17, 25)) == s.len());
            assert(e.subrange(25, e.len() as int) =~= s);
        },
    }
}

/// Builds the wire form of a payload.
pub fn encode_payload(p: &CheckpointPayload) -> (r: Vec<u8>)
    ensures
        r@ == spec_encode_payload(p@),
{
    let mut out: Vec<u8> = Vec::new();
    match &p.state {
        None => out.push(TAG_STATE_ABSENT),
        Some(_) => out.push(TAG_STATE_PRESENT),
    }
    let mut cid = u64_to_le_bytes(p.descriptor.client_id);
    out.append(&mut cid);
    let mut off = u64_to_le_bytes(p.descriptor.resume_offset);
    out.append(&mut off);
    if let Some(s) = &p.state {
        let mut len_bytes = u64_to_le_bytes(s.len() as u64);
        out.append(&mut len_bytes);
        out.extend_from_slice(s.as_slice());
    }
    assert(out@ =~= spec_encode_payload(p@));
    out
}

/// Parses a wire-form payload; `None` on any malformed input.
pub fn decode_payload(b: &[u8]) -> (r: Option<CheckpointPayload>)
    ensures
        match r {
            Some(p) => spec_decode_payload(b@) == Some(p@),
            None => spec_decode_payload(b@) is None,
        },
{
    if b.len() < PAYLOAD_HEADER_LEN {
        return None;
    }
    let tag = *vstd::slice::slice_index_get(b, 0);
    let descriptor = EndpointDescription {
        client_id: u64_from_le_bytes(vstd::slice::slice_subrange(b, 1, 9)),
        resume_offset: u64_from_le_bytes(vstd::slice::slice_subrange(b, 9, 17)),
    };
    if tag == TAG_STATE_ABSENT {
        if b.len() == PAYLOAD_HEADER_LEN {
            Some(CheckpointPayload { state: None, descriptor })
        } else {
            None
        }
    } else if tag == TAG_STATE_PRESENT {
        if b.len() < PAYLOAD_HEADER_LEN + 8 {
            return None;
        }
        let stated_len = u64_from_le_bytes(vstd::slice::slice_subrange(b, 17, 25));
        let actual_len = (b.len() - PAYLOAD_HEADER_LEN - 8) as u64;
        if stated_len != actual_len {
            return None;
        }
        let state = vstd::slice::slice_to_vec(vstd::slice::slice_subrange(b, 25, b.len()));
        Some(CheckpointPayload { state: Some(state), descriptor })
    } else {
        None
    }
}

} // verus!
