//! Pipeline orchestration: from one raw message to the single action its
//! handling owes, and the failure policy around it.
//!
//! The outside collaborators — object retrieval, the structured store, the
//! publish topic — sit beyond this crate; the orchestrator here decides
//! which one is to be invoked and with what payload. A structural mismatch
//! on the structured path is tolerated (acknowledged without persisting),
//! every other failure is fatal and surfaces to the caller.

use crate::classify::classify;
use crate::classify::classify_model;
use crate::classify::RoutingDecision;
use crate::digest::build_digest;
use crate::digest::digest_model;
use crate::digest::DigestError;
use crate::digest::DigestModel;
use crate::digest::ForwardDigest;
use crate::envelope::envelope_model_of;
use crate::envelope::mime_from_of;
use crate::envelope::mime_parses;
use crate::envelope::parse_envelope;
use crate::envelope::MailEnvelope;
use crate::envelope::EnvelopeError;
use crate::envelope::EnvelopeModel;
use crate::release::extract_model;
use crate::release::extract_release;
use crate::release::ExtractError;
use crate::release::ReleaseModel;
use crate::release::ReleaseRecord;
use vstd::prelude::*;

verus! {

/// The one action a processed message owes its caller.
#[derive(Debug, Clone)]
pub enum MessagePlan {
    /// Persist this release record to the structured store.
    PersistRelease(ReleaseRecord),
    /// A structured message whose template did not match: acknowledge it
    /// without persisting anything, so it is not redelivered.
    AcknowledgeMismatch(ExtractError),
    /// Publish this digest to the forward topic.
    PublishForward(ForwardDigest),
}

/// The mathematical view of [`MessagePlan`].
pub ghost enum PlanModel {
    PersistRelease(ReleaseModel),
    AcknowledgeMismatch(ExtractError),
    PublishForward(DigestModel),
}

/// The view of a plan.
pub open spec fn plan_view(p: MessagePlan) -> PlanModel {
    match p {
        MessagePlan::PersistRelease(rec) => PlanModel::PersistRelease(rec@),
        MessagePlan::AcknowledgeMismatch(e) => PlanModel::AcknowledgeMismatch(e),
        MessagePlan::PublishForward(d) => PlanModel::PublishForward(d@),
    }
}

/// A fatal pipeline failure, surfaced to the caller so the triggering
/// mechanism may redeliver the message.
#[derive(Clone, Copy, Debug, PartialEq, Eq, Structural)]
pub enum PipelineError {
    /// The raw message could not be decoded into an envelope.
    Envelope(EnvelopeError),
    /// A structured message without an HTML body part.
    MissingHtmlBody,
    /// Extraction failed in a way that is not a tolerated mismatch.
    Extraction(ExtractError),
    /// A forwarded message without a plain-text body part.
    MissingTextBody,
}

/// The plan owed for an envelope. The structured path requires an HTML
/// body and tolerates a structural mismatch by acknowledging it; the
/// generic path requires a plain-text body and publishes the digest.
pub open spec fn plan_model(e: EnvelopeModel) -> Result<PlanModel, PipelineError> {
    if classify_model(e) == RoutingDecision::StructuredRelease {
        match e.html_body {
            None => Err(PipelineError::MissingHtmlBody),
            Some(h) => match extract_model(h, e.to, e.date) {
                Ok(m) => Ok(PlanModel::PersistRelease(m)),
                Err(err) => if err.spec_is_structural_mismatch() {
                    Ok(PlanModel::AcknowledgeMismatch(err))
                } else {
                    Err(PipelineError::Extraction(err))
                },
            },
        }
    } else {
        match digest_model(e) {
            Ok(d) => Ok(PlanModel::PublishForward(d)),
            Err(DigestError::MissingTextBody) => Err(PipelineError::MissingTextBody),
        }
    }
}

/// The view of a planning outcome.
pub open spec fn plan_result_view(r: Result<MessagePlan, PipelineError>) -> Result<
    PlanModel,
    PipelineError,
> {
    match r {
        Ok(p) => Ok(plan_view(p)),
        Err(e) => Err(e),
    }
}

/// Decides how one parsed envelope is handled: exactly the plan owed for
/// it.
pub fn plan_for_envelope(env: &MailEnvelope) -> (r: Result<MessagePlan, PipelineError>)
    ensures
        plan_result_view(r) == plan_model(env@),
{
    match classify(env) {
        RoutingDecision::StructuredRelease => match &env.html_body {
            None => Err(PipelineError::MissingHtmlBody),
            Some(h) => match extract_release(h.as_str(), env) {
                Ok(rec) => Ok(MessagePlan::PersistRelease(rec)),
                Err(e) => {
                    if e.is_structural_mismatch() {
                        Ok(MessagePlan::AcknowledgeMismatch(e))
                    } else {
                        Err(PipelineError::Extraction(e))
                    }
                },
            },
        },
        RoutingDecision::GenericForward => match build_digest(env) {
            Ok(d) => Ok(MessagePlan::PublishForward(d)),
            Err(DigestError::MissingTextBody) => Err(PipelineError::MissingTextBody),
        },
    }
}

/// A structured message whose HTML holds no `div` is a tolerated
/// structural mismatch: the plan acknowledges it without persisting
/// anything, and the pipeline still reports success.
pub proof fn lemma_missing_div_tolerated(e: EnvelopeModel)
    requires
        e.from == crate::classify::structured_sender(),
        e.html_body matches Some(h) && crate::html::first_div_texts(h) is None,
    ensures
        plan_model(e) == Ok::<PlanModel, PipelineError>(
            PlanModel::AcknowledgeMismatch(ExtractError::MissingDiv),
        ),
{
}

/// Routing exclusivity: a generically routed envelope can only plan a
/// publish — never a persistence nor a mismatch acknowledgement — and a
/// structured envelope can never plan a publish.
pub proof fn lemma_routing_exclusive(e: EnvelopeModel)
    ensures
        classify_model(e) == RoutingDecision::GenericForward ==> (plan_model(e) matches Ok(p)
            ==> p matches PlanModel::PublishForward(_)),
        classify_model(e) == RoutingDecision::StructuredRelease ==> (plan_model(e) matches Ok(p)
            ==> !(p matches PlanModel::PublishForward(_))),
{
}

/// The outcome owed for one raw message: an envelope failure surfaces as
/// `Envelope`, otherwise the plan owed for the decoded envelope.
pub open spec fn process_model(raw: Seq<u8>) -> Result<PlanModel, PipelineError> {
    match envelope_model_of(raw) {
        Err(e) => Err(PipelineError::Envelope(e)),
        Ok(env) => plan_model(env),
    }
}

/// A message that does not decode, or whose decoded parts lack the sender
/// address, surfaces as a fatal pipeline failure — never as an
/// acknowledged plan.
pub proof fn lemma_envelope_failure_surfaces(raw: Seq<u8>)
    ensures
        !mime_parses(raw) ==> process_model(raw) == Err::<PlanModel, PipelineError>(
            PipelineError::Envelope(EnvelopeError::Unparseable),
        ),
        mime_parses(raw) && mime_from_of(raw) is None ==> process_model(raw) == Err::<
            PlanModel,
            PipelineError,
        >(PipelineError::Envelope(EnvelopeError::MissingFrom)),
{
}

/// Processes one raw message: decode the envelope, then plan its
/// handling. The result is exactly the outcome owed for the bytes.
pub fn process_message(raw: &[u8]) -> (r: Result<MessagePlan, PipelineError>)
    ensures
        plan_result_view(r) == process_model(raw@),
{
    let env = match parse_envelope(raw) {
        Ok(env) => env,
        Err(e) => {
            return Err(PipelineError::Envelope(e));
        },
    };
    plan_for_envelope(&env)
}

} // verus!
