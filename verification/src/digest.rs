//! Forward digests: the normalized bundle built for mail that is not a
//! structured release notification.

use crate::envelope::EnvelopeModel;
use crate::envelope::MailEnvelope;
use crate::strutil::normalize_newlines;
use crate::strutil::normalize_newlines_spec;
use vstd::prelude::*;

verus! {

/// The digest of one forwarded message: subject and sender verbatim, body
/// with line breaks collapsed to single spaces.
#[derive(Debug, Clone)]
pub struct ForwardDigest {
    pub subject: String,
    pub from: String,
    pub body: String,
}

/// The mathematical view of [`ForwardDigest`].
pub ghost struct DigestModel {
    pub subject: Seq<char>,
    pub from: Seq<char>,
    pub body: Seq<char>,
}

impl View for ForwardDigest {
    type V = DigestModel;

    open spec fn view(&self) -> DigestModel {
        DigestModel { subject: self.subject@, from: self.from@, body: self.body@ }
    }
}

/// Why a digest could not be built.
#[derive(Clone, Copy, Debug, PartialEq, Eq, Structural)]
pub enum DigestError {
    /// The message has no plain-text body part; fatal on the forward path.
    MissingTextBody,
}

/// The digest owed for an envelope: subject and sender copied verbatim,
/// the plain-text body with every `"\r\n"` or `"\n"` replaced by one
/// space; an envelope without a plain-text body yields the error.
pub open spec fn digest_model(e: EnvelopeModel) -> Result<DigestModel, DigestError> {
    match e.text_body {
        None => Err(DigestError::MissingTextBody),
        Some(t) => Ok(
            DigestModel { subject: e.subject, from: e.from, body: normalize_newlines_spec(t) },
        ),
    }
}

/// The view of a digest construction outcome.
pub open spec fn digest_result_view(r: Result<ForwardDigest, DigestError>) -> Result<
    DigestModel,
    DigestError,
> {
    match r {
        Ok(d) => Ok(d@),
        Err(e) => Err(e),
    }
}

/// Builds the forward digest for an envelope.
pub fn build_digest(env: &MailEnvelope) -> (r: Result<ForwardDigest, DigestError>)
    ensures
        digest_result_view(r) == digest_model(env@),
{
    match &env.text_body {
        None => Err(DigestError::MissingTextBody),
        Some(t) => Ok(
            ForwardDigest {
                subject: env.subject.clone(),
                from: env.from.clone(),
                body: normalize_newlines(t.as_str()),
            },
        ),
    }
}

} // verus!
