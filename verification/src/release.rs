//! Release extraction: ordered text-pattern search and DOM anchors over the
//! HTML body of a structured release notification.
//!
//! The HTML template has no stable tagging for semantic fields, so the
//! extraction scans the first `div`'s text nodes in document order: the
//! first node containing `"released"` is the label line, the node after it
//! is the title, and the artist is sought from the position right after the
//! label line. The rules are deliberately brittle: a caller must treat any
//! failure as a signal to inspect the raw payload, never as something to
//! retry.

use crate::envelope::MailEnvelope;
use crate::html::first_anchor_href;
use crate::html::first_anchor_img_src;
use crate::html::first_div_texts;
use crate::html::html_first_anchor_href;
use crate::html::html_first_anchor_img_src;
use crate::html::html_first_div_texts;
use crate::html::texts_view;
use crate::strutil::contains_seq;
use crate::strutil::contains_sub;
use crate::strutil::replace_all;
use crate::strutil::replace_spec;
use crate::strutil::strip_query;
use crate::strutil::strip_query_spec;
use vstd::prelude::*;

verus! {

/// One extracted release: every field but the artist is required.
#[derive(Debug, Clone)]
pub struct ReleaseRecord {
    pub recipient: String,
    pub date: String,
    pub label: String,
    pub title: String,
    pub artist: Option<String>,
    pub link: String,
    pub cover_link: String,
}

/// The mathematical view of [`ReleaseRecord`].
pub ghost struct ReleaseModel {
    pub recipient: Seq<char>,
    pub date: Seq<char>,
    pub label: Seq<char>,
    pub title: Seq<char>,
    pub artist: Option<Seq<char>>,
    pub link: Seq<char>,
    pub cover_link: Seq<char>,
}

impl View for ReleaseRecord {
    type V = ReleaseModel;

    open spec fn view(&self) -> ReleaseModel {
        ReleaseModel {
            recipient: self.recipient@,
            date: self.date@,
            label: self.label@,
            title: self.title@,
            artist: crate::envelope::opt_text_view(self.artist),
            link: self.link@,
            cover_link: self.cover_link@,
        }
    }
}

/// Why extraction failed. The first two variants are structural
/// mismatches, tolerated by the orchestrator; the rest are fatal.
#[derive(Clone, Copy, Debug, PartialEq, Eq, Structural)]
pub enum ExtractError {
    /// The document holds no `div` element.
    MissingDiv,
    /// No text node of the content `div` contains `"released"`.
    ReleasedClauseNotFound,
    /// The text nodes end right after the label line.
    MissingTitle,
    /// No `a` element with an `href` inside the content `div`.
    MissingAnchor,
    /// No `img` element with a `src` inside that `a`.
    MissingCover,
}

impl ExtractError {
    /// A structural mismatch: the expected HTML pattern is absent in a way
    /// the pipeline tolerates rather than fails on.
    pub open spec fn spec_is_structural_mismatch(self) -> bool {
        self == ExtractError::MissingDiv || self == ExtractError::ReleasedClauseNotFound
    }

    /// Whether this failure is a tolerated structural mismatch.
    pub fn is_structural_mismatch(self) -> (r: bool)
        ensures
            r == self.spec_is_structural_mismatch(),
    {
        match self {
            ExtractError::MissingDiv => true,
            ExtractError::ReleasedClauseNotFound => true,
            _ => false,
        }
    }
}

/// The smallest index at or after `from` of a text node containing `pat`.
pub open spec fn first_text_containing(
    texts: Seq<Seq<char>>,
    pat: Seq<char>,
    from: int,
) -> Option<int>
    decreases texts.len() - from
    when 0 <= from <= texts.len()
{
    if from >= texts.len() {
        None
    } else if contains_seq(texts[from], pat) {
        Some(from)
    } else {
        first_text_containing(texts, pat, from + 1)
    }
}

/// The first text node at or after `from` that contains `pat`.
pub fn find_text_containing(texts: &Vec<String>, pat: &str, from: usize) -> (r: Option<usize>)
    requires
        from <= texts@.len(),
    ensures
        r matches Some(i) ==> from <= i < texts@.len() && Some(i as int) == first_text_containing(
            texts_view(*texts),
            pat@,
            from as int,
        ),
        r is None ==> first_text_containing(texts_view(*texts), pat@, from as int) is None,
{
    let mut i: usize = from;
    while i < texts.len()
        invariant
            from <= i,
            i <= texts@.len(),
            first_text_containing(texts_view(*texts), pat@, from as int) == first_text_containing(
                texts_view(*texts),
                pat@,
                i as int,
            ),
        decreases texts@.len() - i,
    {
        proof {
            assert(texts_view(*texts)[i as int] == texts@[i as int]@);
        }
        if contains_sub(texts[i].as_str(), pat) {
            return Some(i);
        }
        i = i + 1;
    }
    None
}

/// The label: the label line with the literal `" just released "` and all
/// line feeds removed.
pub open spec fn strip_label(line: Seq<char>) -> Seq<char> {
    replace_spec(replace_spec(line, " just released "@, Seq::empty()), "\n"@, Seq::empty())
}

/// The artist: the matched line with the literal `" by "`, all line feeds
/// and all `", "` removed.
pub open spec fn strip_artist(line: Seq<char>) -> Seq<char> {
    replace_spec(
        replace_spec(replace_spec(line, " by "@, Seq::empty()), "\n"@, Seq::empty()),
        ", "@,
        Seq::empty(),
    )
}

/// The extraction owed for an HTML body and the envelope's recipient and
/// date: the first `div` is the content container, the first text node
/// containing `"released"` is the label line, the node right after it is
/// the title, and the artist is sought from the position just after the
/// label line — so the title node itself is inspected for `"by"`, a
/// deliberate fidelity point on multi-paragraph bodies.
pub open spec fn extract_model(html: Seq<char>, recipient: Seq<char>, date: Seq<char>) -> Result<
    ReleaseModel,
    ExtractError,
> {
    match first_div_texts(html) {
        None => Err(ExtractError::MissingDiv),
        Some(texts) => match first_text_containing(texts, "released"@, 0) {
            None => Err(ExtractError::ReleasedClauseNotFound),
            Some(i) => if i + 1 >= texts.len() {
                Err(ExtractError::MissingTitle)
            } else {
                match first_anchor_href(html) {
                    None => Err(ExtractError::MissingAnchor),
                    Some(href) => match first_anchor_img_src(html) {
                        None => Err(ExtractError::MissingCover),
                        Some(src) => Ok(
                            ReleaseModel {
                                recipient,
                                date,
                                label: strip_label(texts[i]),
                                title: texts[i + 1],
                                artist: match first_text_containing(texts, "by"@, i + 1) {
                                    Some(j) => Some(strip_artist(texts[j])),
                                    None => None,
                                },
                                link: strip_query_spec(href),
                                cover_link: src,
                            },
                        ),
                    },
                }
            },
        },
    }
}

/// The view of an extraction outcome.
pub open spec fn extract_result_view(r: Result<ReleaseRecord, ExtractError>) -> Result<
    ReleaseModel,
    ExtractError,
> {
    match r {
        Ok(rec) => Ok(rec@),
        Err(e) => Err(e),
    }
}

/// Extraction is deterministic: identical HTML, recipient and date always
/// yield an identical record or an identical failure.
pub proof fn lemma_extract_deterministic(
    html1: Seq<char>,
    recipient1: Seq<char>,
    date1: Seq<char>,
    html2: Seq<char>,
    recipient2: Seq<char>,
    date2: Seq<char>,
)
    requires
        html1 == html2,
        recipient1 == recipient2,
        date1 == date2,
    ensures
        extract_model(html1, recipient1, date1) == extract_model(html2, recipient2, date2),
{
}

/// A found text index lies in range and really contains the pattern.
pub proof fn lemma_first_text_containing_in_range(
    texts: Seq<Seq<char>>,
    pat: Seq<char>,
    from: int,
)
    requires
        0 <= from <= texts.len(),
        first_text_containing(texts, pat, from) is Some,
    ensures
        from <= first_text_containing(texts, pat, from)->0 < texts.len(),
        contains_seq(texts[first_text_containing(texts, pat, from)->0], pat),
    decreases texts.len() - from,
{
    if from >= texts.len() {
    } else if contains_seq(texts[from], pat) {
    } else {
        lemma_first_text_containing_in_range(texts, pat, from + 1);
    }
}

/// If no text node at or after `from` contains `pat`, none at or after
/// any later start does either.
pub proof fn lemma_first_text_containing_monotonic(
    texts: Seq<Seq<char>>,
    pat: Seq<char>,
    from: int,
    later: int,
)
    requires
        0 <= from <= later <= texts.len(),
        first_text_containing(texts, pat, from) is None,
    ensures
        first_text_containing(texts, pat, later) is None,
    decreases later - from,
{
    if from < later {
        lemma_first_text_containing_monotonic(texts, pat, from + 1, later);
    }
}

/// A body none of whose text nodes contains `"by"` yields, whenever
/// extraction succeeds, a record without an artist; the absence of an
/// artist line is never itself an error.
pub proof fn lemma_absent_by_yields_no_artist(
    html: Seq<char>,
    recipient: Seq<char>,
    date: Seq<char>,
    texts: Seq<Seq<char>>,
)
    requires
        first_div_texts(html) == Some(texts),
        first_text_containing(texts, "by"@, 0) is None,
    ensures
        extract_model(html, recipient, date) matches Ok(m) ==> m.artist is None,
{
    if extract_model(html, recipient, date) is Ok {
        lemma_first_text_containing_in_range(texts, "released"@, 0);
        let i = first_text_containing(texts, "released"@, 0)->0;
        lemma_first_text_containing_monotonic(texts, "by"@, 0, i + 1);
    }
}

/// Success is owed exactly when the structure is present: a `div` whose
/// text nodes contain `"released"` somewhere before their last node, an
/// anchor with an `href` and a cover image with a `src`. The artist plays
/// no part in success.
pub proof fn lemma_extract_success_condition(
    html: Seq<char>,
    recipient: Seq<char>,
    date: Seq<char>,
    texts: Seq<Seq<char>>,
)
    requires
        first_div_texts(html) == Some(texts),
    ensures
        extract_model(html, recipient, date) is Ok <==> (first_text_containing(
            texts,
            "released"@,
            0,
        ) matches Some(i) && i + 1 < texts.len() && first_anchor_href(html) is Some
            && first_anchor_img_src(html) is Some),
{
}

/// Extracts a release record from the HTML body, with the recipient and
/// date taken from the envelope. The result is exactly the extraction owed
/// for the document text: identical input yields an identical record or an
/// identical failure.
pub fn extract_release(html: &str, env: &MailEnvelope) -> (r: Result<ReleaseRecord, ExtractError>)
    ensures
        extract_result_view(r) == extract_model(html@, env.to@, env.date@),
{
    proof {
        reveal_strlit("");
        assert(""@ =~= Seq::<char>::empty());
        reveal_strlit(" just released ");
        reveal_strlit(" by ");
        reveal_strlit("\n");
        reveal_strlit(", ");
    }
    let texts = match html_first_div_texts(html) {
        Some(t) => t,
        None => {
            return Err(ExtractError::MissingDiv);
        },
    };
    let label_idx = match find_text_containing(&texts, "released", 0) {
        Some(i) => i,
        None => {
            return Err(ExtractError::ReleasedClauseNotFound);
        },
    };
    if label_idx + 1 >= texts.len() {
        return Err(ExtractError::MissingTitle);
    }
    proof {
        assert(texts_view(texts)[label_idx as int] == texts@[label_idx as int]@);
        assert(texts_view(texts)[label_idx + 1] == texts@[label_idx + 1]@);
    }
    let label_step = replace_all(texts[label_idx].as_str(), " just released ", "");
    let label = replace_all(label_step.as_str(), "\n", "");
    let title = texts[label_idx + 1].clone();
    let artist = match find_text_containing(&texts, "by", label_idx + 1) {
        Some(j) => {
            proof {
                assert(texts_view(texts)[j as int] == texts@[j as int]@);
            }
            let artist_step = replace_all(texts[j].as_str(), " by ", "");
            let artist_step = replace_all(artist_step.as_str(), "\n", "");
            Some(replace_all(artist_step.as_str(), ", ", ""))
        },
        None => None,
    };
    let href = match html_first_anchor_href(html) {
        Some(h) => h,
        None => {
            return Err(ExtractError::MissingAnchor);
        },
    };
    let cover_link = match html_first_anchor_img_src(html) {
        Some(c) => c,
        None => {
            return Err(ExtractError::MissingCover);
        },
    };
    let link = strip_query(href.as_str());
    Ok(
        ReleaseRecord {
            recipient: env.to.clone(),
            date: env.date.clone(),
            label,
            title,
            artist,
            link,
            cover_link,
        },
    )
}

} // verus!
