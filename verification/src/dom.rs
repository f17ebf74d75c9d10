//! The markup-selection capability the parser rests on: CSS-selector
//! queries over a parsed document, consumed from the scraper crate
//! through one trusted wrapper.

use vstd::prelude::*;

verus! {

/// What selecting `sel` in the parse of the markup `doc` yields: the
/// (inner markup, outer markup) of each matched element, in the order the
/// parsed tree stores them. Parsing and matching are functions of the two
/// strings alone, so the result is a function of them too.
pub uninterp spec fn doc_selected(doc: Seq<char>, sel: Seq<char>) -> Seq<(Seq<char>, Seq<char>)>;

/// Relies on scraper's `Html::parse_document`, `Selector::parse`,
/// `Html::select`, `ElementRef::inner_html` and `ElementRef::html`: parses
/// `doc`, matches the selector `sel` against the tree, and hands back each
/// matched element's inner and outer markup. A selector that does not
/// compile matches nothing.
#[verifier::external_body]
pub(crate) fn select_in_document(doc: &str, sel: &str) -> (r: Vec<(String, String)>)
    ensures
        r.deep_view() == doc_selected(doc@, sel@),
{
    let document = scraper::Html::parse_document(doc);
    match scraper::Selector::parse(sel) {
        Ok(selector) => document
            .select(&selector)
            .map(|e| (e.inner_html(), e.html()))
            .collect(),
        Err(_) => Vec::new(),
    }
}

} // verus!
