//! Mail envelopes: the addressable view of one inbound MIME message.
//!
//! Raw bytes are decoded by the `mail_parser` crate behind trusted wrappers
//! that hand back plain optional strings; the verified
//! [`envelope_from_parts`] then enforces which headers a processable message
//! must carry.

use vstd::prelude::*;

verus! {

/// The header and body parts that the MIME decoder found, each `None` when
/// the message does not carry it.
pub struct MimeParts {
    pub from: Option<String>,
    pub to: Option<String>,
    pub subject: Option<String>,
    pub date: Option<String>,
    pub html_body: Option<String>,
    pub text_body: Option<String>,
}

/// The mathematical view of [`MimeParts`].
pub ghost struct MimePartsModel {
    pub from: Option<Seq<char>>,
    pub to: Option<Seq<char>>,
    pub subject: Option<Seq<char>>,
    pub date: Option<Seq<char>>,
    pub html_body: Option<Seq<char>>,
    pub text_body: Option<Seq<char>>,
}

/// The view of optional text as an optional character sequence.
pub open spec fn opt_text_view(o: Option<String>) -> Option<Seq<char>> {
    match o {
        Some(s) => Some(s@),
        None => None,
    }
}

impl View for MimeParts {
    type V = MimePartsModel;

    open spec fn view(&self) -> MimePartsModel {
        MimePartsModel {
            from: opt_text_view(self.from),
            to: opt_text_view(self.to),
            subject: opt_text_view(self.subject),
            date: opt_text_view(self.date),
            html_body: opt_text_view(self.html_body),
            text_body: opt_text_view(self.text_body),
        }
    }
}

/// One parsed message: sender and recipient addresses, subject, date in
/// RFC 3339 form, and the optional HTML and plain-text bodies.
#[derive(Debug, Clone)]
pub struct MailEnvelope {
    pub from: String,
    pub to: String,
    pub subject: String,
    pub date: String,
    pub html_body: Option<String>,
    pub text_body: Option<String>,
}

/// The mathematical view of [`MailEnvelope`].
pub ghost struct EnvelopeModel {
    pub from: Seq<char>,
    pub to: Seq<char>,
    pub subject: Seq<char>,
    pub date: Seq<char>,
    pub html_body: Option<Seq<char>>,
    pub text_body: Option<Seq<char>>,
}

impl View for MailEnvelope {
    type V = EnvelopeModel;

    open spec fn view(&self) -> EnvelopeModel {
        EnvelopeModel {
            from: self.from@,
            to: self.to@,
            subject: self.subject@,
            date: self.date@,
            html_body: opt_text_view(self.html_body),
            text_body: opt_text_view(self.text_body),
        }
    }
}

/// Why a raw message could not be turned into a [`MailEnvelope`].
#[derive(Clone, Copy, Debug, PartialEq, Eq, Structural)]
pub enum EnvelopeError {
    /// The bytes are not a decodable MIME message.
    Unparseable,
    /// No resolvable sender address.
    MissingFrom,
    /// No resolvable recipient address.
    MissingTo,
    /// No subject header.
    MissingSubject,
    /// No parseable date header.
    MissingDate,
}

/// The envelope owed for decoded parts: every header field is required,
/// checked in the order sender, recipient, subject, date; the two bodies
/// stay optional.
pub open spec fn envelope_of_parts(p: MimePartsModel) -> Result<EnvelopeModel, EnvelopeError> {
    if p.from is None {
        Err(EnvelopeError::MissingFrom)
    } else if p.to is None {
        Err(EnvelopeError::MissingTo)
    } else if p.subject is None {
        Err(EnvelopeError::MissingSubject)
    } else if p.date is None {
        Err(EnvelopeError::MissingDate)
    } else {
        Ok(
            EnvelopeModel {
                from: p.from->0,
                to: p.to->0,
                subject: p.subject->0,
                date: p.date->0,
                html_body: p.html_body,
                text_body: p.text_body,
            },
        )
    }
}

/// The view of an envelope construction outcome.
pub open spec fn envelope_result_view(r: Result<MailEnvelope, EnvelopeError>) -> Result<
    EnvelopeModel,
    EnvelopeError,
> {
    match r {
        Ok(env) => Ok(env@),
        Err(e) => Err(e),
    }
}

/// Builds the envelope from decoded parts, rejecting a message that lacks
/// any required header.
pub fn envelope_from_parts(parts: MimeParts) -> (r: Result<MailEnvelope, EnvelopeError>)
    ensures
        envelope_result_view(r) == envelope_of_parts(parts@),
{
    let from = match parts.from {
        Some(f) => f,
        None => {
            return Err(EnvelopeError::MissingFrom);
        },
    };
    let to = match parts.to {
        Some(t) => t,
        None => {
            return Err(EnvelopeError::MissingTo);
        },
    };
    let subject = match parts.subject {
        Some(s) => s,
        None => {
            return Err(EnvelopeError::MissingSubject);
        },
    };
    let date = match parts.date {
        Some(d) => d,
        None => {
            return Err(EnvelopeError::MissingDate);
        },
    };
    Ok(
        MailEnvelope {
            from,
            to,
            subject,
            date,
            html_body: parts.html_body,
            text_body: parts.text_body,
        },
    )
}

/// Whether the raw bytes decode as a MIME message at all: the decoder
/// finds at least one header. The decode reads nothing but the bytes, so
/// this is a function of them alone.
pub uninterp spec fn mime_parses(raw: Seq<u8>) -> bool;

/// The first sender address the decoder finds in the bytes; `None` when
/// the header is absent or unresolvable.
pub uninterp spec fn mime_from_of(raw: Seq<u8>) -> Option<Seq<char>>;

/// The first recipient address the decoder finds in the bytes; `None`
/// when the header is absent or unresolvable.
pub uninterp spec fn mime_to_of(raw: Seq<u8>) -> Option<Seq<char>>;

/// The decoded subject header; `None` when absent.
pub uninterp spec fn mime_subject_of(raw: Seq<u8>) -> Option<Seq<char>>;

/// The decoded date header, rendered in RFC 3339 form; `None` when absent
/// or unparseable.
pub uninterp spec fn mime_date_of(raw: Seq<u8>) -> Option<Seq<char>>;

/// The first HTML body part; `None` when the message has none.
pub uninterp spec fn mime_html_of(raw: Seq<u8>) -> Option<Seq<char>>;

/// The first plain-text body part; `None` when the message has none.
pub uninterp spec fn mime_text_of(raw: Seq<u8>) -> Option<Seq<char>>;

/// The parts the decoder owes for bytes that parse, by their names.
pub open spec fn decoded_parts(raw: Seq<u8>) -> MimePartsModel {
    MimePartsModel {
        from: mime_from_of(raw),
        to: mime_to_of(raw),
        subject: mime_subject_of(raw),
        date: mime_date_of(raw),
        html_body: mime_html_of(raw),
        text_body: mime_text_of(raw),
    }
}

/// Relies on `mail_parser::MessageParser::parse` — a best-effort MIME
/// decode that never panics and returns `None` when the bytes hold no
/// headers — and on the accessors `Message::from` and `Message::to`
/// (through `Address::first` and `Addr::address`: of a multi-address or
/// group header the first address is taken, a slight widening over
/// accepting single-address headers only), `Message::subject`,
/// `Message::date` with `DateTime::to_rfc3339`, `Message::body_html(0)`
/// and `Message::body_text(0)`. The decode reads nothing but its
/// argument, so each result is pinned to its name.
#[verifier::external_body]
fn mime_decode(raw: &[u8]) -> (r: Option<MimeParts>)
    ensures
        r is Some <==> mime_parses(raw@),
        r matches Some(p) ==> opt_text_view(p.from) == mime_from_of(raw@),
        r matches Some(p) ==> opt_text_view(p.to) == mime_to_of(raw@),
        r matches Some(p) ==> opt_text_view(p.subject) == mime_subject_of(raw@),
        r matches Some(p) ==> opt_text_view(p.date) == mime_date_of(raw@),
        r matches Some(p) ==> opt_text_view(p.html_body) == mime_html_of(raw@),
        r matches Some(p) ==> opt_text_view(p.text_body) == mime_text_of(raw@),
{
    let m = mail_parser::MessageParser::new().parse(raw)?;
    Some(MimeParts {
        from: m.from().and_then(|a| a.first()).and_then(|a| a.address()).map(String::from),
        to: m.to().and_then(|a| a.first()).and_then(|a| a.address()).map(String::from),
        subject: m.subject().map(String::from),
        date: m.date().map(|d| d.to_rfc3339()),
        html_body: m.body_html(0).map(|c| c.into_owned()),
        text_body: m.body_text(0).map(|c| c.into_owned()),
    })
}

/// The envelope owed for raw bytes: `Unparseable` when they do not decode
/// as a MIME message, otherwise the envelope owed for the decoded parts.
pub open spec fn envelope_model_of(raw: Seq<u8>) -> Result<EnvelopeModel, EnvelopeError> {
    if !mime_parses(raw) {
        Err(EnvelopeError::Unparseable)
    } else {
        envelope_of_parts(decoded_parts(raw))
    }
}

/// Decodes one raw message into an envelope: exactly the envelope owed
/// for the bytes.
pub fn parse_envelope(raw: &[u8]) -> (r: Result<MailEnvelope, EnvelopeError>)
    ensures
        envelope_result_view(r) == envelope_model_of(raw@),
{
    let parts = match mime_decode(raw) {
        Some(p) => p,
        None => {
            return Err(EnvelopeError::Unparseable);
        },
    };
    proof {
        assert(parts@ == decoded_parts(raw@));
    }
    envelope_from_parts(parts)
}

} // verus!
