//! Sender classification: the single routing decision of the pipeline.

use crate::envelope::EnvelopeModel;
use crate::envelope::MailEnvelope;
use crate::strutil::str_eq;
use vstd::prelude::*;

verus! {

/// Which of the two handling paths a message takes.
#[derive(Clone, Copy, Debug, PartialEq, Eq, Structural)]
pub enum RoutingDecision {
    /// Mail from the storefront's release-notification sender: extract a
    /// structured release record.
    StructuredRelease,
    /// Mail from anyone else: build a digest and forward it.
    GenericForward,
}

/// The fixed sender address of the storefront notification system. The
/// match on it is exact and case-sensitive, a documented limitation: an
/// alias or a spoofed address of the same domain is routed generically.
pub open spec fn structured_sender() -> Seq<char> {
    "noreply@bandcamp.com"@
}

/// The exact sender address that routes to the structured-release path.
pub fn structured_sender_address() -> (s: String)
    ensures
        s@ == structured_sender(),
{
    "noreply@bandcamp.com".to_owned()
}

/// The routing owed for an envelope: the structured path exactly when the
/// sender is the fixed storefront address.
pub open spec fn classify_model(e: EnvelopeModel) -> RoutingDecision {
    if e.from == structured_sender() {
        RoutingDecision::StructuredRelease
    } else {
        RoutingDecision::GenericForward
    }
}

/// Classifies an envelope by its sender address: `StructuredRelease` for
/// every envelope whose sender equals the fixed storefront address, and
/// `GenericForward` for every other.
pub fn classify(env: &MailEnvelope) -> (d: RoutingDecision)
    ensures
        d == classify_model(env@),
        (d == RoutingDecision::StructuredRelease) <==> env.from@ == structured_sender(),
{
    if str_eq(env.from.as_str(), "noreply@bandcamp.com") {
        RoutingDecision::StructuredRelease
    } else {
        RoutingDecision::GenericForward
    }
}

} // verus!
