//! Trusted HTML queries over the `scraper` crate.
//!
//! The release extraction needs three facts about an HTML document: the
//! ordered text nodes of its first `div`, the `href` of the first `a`
//! inside that `div`, and the `src` of the first `img` inside that `a`.
//! Each is a pure function of the document text, so each gets an
//! uninterpreted name that the wrapper's contract applies; the verified
//! extraction logic is stated over those names.

use vstd::prelude::*;

verus! {

/// The descendant text nodes, in document order, of the first `div`
/// element (in document order) of the HTML document parsed from `html`;
/// `None` when the document holds no `div`.
pub uninterp spec fn first_div_texts(html: Seq<char>) -> Option<Seq<Seq<char>>>;

/// The `href` attribute of the first `a` element, in document order,
/// among the descendants of the first `div` of the document parsed from
/// `html`; `None` when there is no `div`, no such `a`, or no `href` on it.
pub uninterp spec fn first_anchor_href(html: Seq<char>) -> Option<Seq<char>>;

/// The `src` attribute of the first `img` element among the descendants
/// of the first `a` of the first `div` of the document parsed from
/// `html`; `None` when any of the three elements or the attribute is
/// absent.
pub uninterp spec fn first_anchor_img_src(html: Seq<char>) -> Option<Seq<char>>;

/// The per-string view of a list of text nodes.
pub open spec fn texts_view(v: Vec<String>) -> Seq<Seq<char>> {
    v@.map_values(|s: String| s@)
}

/// The view of an optional string.
pub open spec fn opt_str_view(o: Option<String>) -> Option<Seq<char>> {
    match o {
        Some(s) => Some(s@),
        None => None,
    }
}

/// Relies on `scraper::Html::parse_document`, `Html::select` and
/// `ElementRef::text`: parses the document, takes its first `div` and
/// collects that element's descendant text nodes in document order.
#[verifier::external_body]
pub(crate) fn html_first_div_texts(html: &str) -> (r: Option<Vec<String>>)
    ensures
        r matches Some(v) ==> first_div_texts(html@) == Some(texts_view(v)),
        r is None ==> first_div_texts(html@) is None,
{
    let doc = scraper::Html::parse_document(html);
    let div_sel = scraper::Selector::parse("div").unwrap();
    let div = doc.select(&div_sel).next()?;
    Some(div.text().map(|t| t.to_string()).collect())
}

/// Relies on `scraper::Html::parse_document`, `Html::select`,
/// `ElementRef::select` and `Element::attr`: the `href` of the first `a`
/// under the first `div`.
#[verifier::external_body]
pub(crate) fn html_first_anchor_href(html: &str) -> (r: Option<String>)
    ensures
        opt_str_view(r) == first_anchor_href(html@),
{
    let doc = scraper::Html::parse_document(html);
    let div_sel = scraper::Selector::parse("div").unwrap();
    let a_sel = scraper::Selector::parse("a").unwrap();
    let div = doc.select(&div_sel).next()?;
    let a = div.select(&a_sel).next()?;
    a.value().attr("href").map(|s| s.to_string())
}

/// Relies on `scraper::Html::parse_document`, `Html::select`,
/// `ElementRef::select` and `Element::attr`: the `src` of the first `img`
/// under the first `a` under the first `div`.
#[verifier::external_body]
pub(crate) fn html_first_anchor_img_src(html: &str) -> (r: Option<String>)
    ensures
        opt_str_view(r) == first_anchor_img_src(html@),
{
    let doc = scraper::Html::parse_document(html);
    let div_sel = scraper::Selector::parse("div").unwrap();
    let a_sel = scraper::Selector::parse("a").unwrap();
    let img_sel = scraper::Selector::parse("img").unwrap();
    let div = doc.select(&div_sel).next()?;
    let a = div.select(&a_sel).next()?;
    let img = a.select(&img_sel).next()?;
    img.value().attr("src").map(|s| s.to_string())
}

} // verus!
