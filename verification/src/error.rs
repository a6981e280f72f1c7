//! Failures the supervision core itself can report.
//!
//! Setup and transport failures abort supervision before or while a worker
//! is being attached; crash classification is not an error but a decision,
//! and detach failures are the caller's to log and swallow.

use vstd::prelude::*;

verus! {

/// An error of the supervision core.
#[derive(Clone, Copy, Debug, PartialEq, Eq, Structural)]
pub enum SupervisionError {
    /// A payload's wire form does not fit the channel's fixed-size slot:
    /// a setup or configuration failure, fatal for the call that hit it.
    PayloadTooLarge,
    /// The aggregator rendezvous port could not be claimed although the
    /// caller demanded the aggregator role: a fatal transport failure.
    BrokerPortUnavailable,
    /// An inherited channel description did not decode to a well-formed
    /// channel: a fatal setup failure, nothing has run yet.
    ChannelDescriptionInvalid,
}

} // verus!
