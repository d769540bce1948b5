//! The boundary to the HTML parser: building the document model from markup.
//!
//! Parsing is scraper's work; what it yields for a given markup string is a
//! function of that string alone, so the selected elements are given names at
//! the spec level and the extraction's contracts are stated over those names.
//! Documents and fragments are parsed by different entry points of scraper,
//! so each has its own pair of names.

use vstd::prelude::*;
use crate::extract::{extract_proverbs, res_view, spec_extract};
use crate::model::{ArabicItem, DocModel, ExtractError, ItemView, Proverb, SibNode};

verus! {

/// Per Arabic-text element of the parsed fragment `html`, in document order:
/// its text content and its following sibling chain.
pub uninterp spec fn fragment_arabic_items(html: Seq<char>) -> Seq<ItemView>;

/// The text contents of the direction-marked elements of the parsed fragment
/// `html`, in document order.
pub uninterp spec fn fragment_ltr_texts(html: Seq<char>) -> Seq<Seq<char>>;

/// As `fragment_arabic_items`, for `html` parsed as a whole document.
pub uninterp spec fn document_arabic_items(html: Seq<char>) -> Seq<ItemView>;

/// As `fragment_ltr_texts`, for `html` parsed as a whole document.
pub uninterp spec fn document_ltr_texts(html: Seq<char>) -> Seq<Seq<char>>;

/// Relies on scraper: `Html::parse_fragment` parses the markup, `Html::select`
/// with the selector `span.arabic` yields the matching elements in document
/// order, `ElementRef::text` concatenates an element's text content, and
/// `NodeRef::next_siblings` walks the following siblings, each one either a
/// `Node::Text` or some other markup node. All of it depends on the markup
/// string alone.
#[verifier::external_body]
fn fragment_items(html: &str) -> (r: Vec<ArabicItem>)
    ensures
        r.deep_view() == fragment_arabic_items(html@),
{
    let doc = scraper::Html::parse_fragment(html);
    let sel = scraper::Selector::parse("span.arabic").unwrap();
    doc.select(&sel).map(|e| ArabicItem {
        arabic: e.text().collect(),
        siblings: e.next_siblings().map(|n| match n.value() {
            scraper::Node::Text(t) => SibNode::Text(t.to_string()),
            _ => SibNode::Markup,
        }).collect(),
    }).collect()
}

/// Relies on scraper: `Html::parse_fragment`, then `Html::select` with the
/// selector `span[dir='ltr']` yields the direction-marked elements in
/// document order, and `ElementRef::text` concatenates each one's text
/// content. All of it depends on the markup string alone.
#[verifier::external_body]
fn fragment_ltrs(html: &str) -> (r: Vec<String>)
    ensures
        r.deep_view() == fragment_ltr_texts(html@),
{
    let doc = scraper::Html::parse_fragment(html);
    let sel = scraper::Selector::parse("span[dir='ltr']").unwrap();
    doc.select(&sel).map(|e| e.text().collect()).collect()
}

/// Relies on scraper, as `fragment_items`, with `Html::parse_document` in
/// place of `Html::parse_fragment`.
#[verifier::external_body]
fn document_items(html: &str) -> (r: Vec<ArabicItem>)
    ensures
        r.deep_view() == document_arabic_items(html@),
{
    let doc = scraper::Html::parse_document(html);
    let sel = scraper::Selector::parse("span.arabic").unwrap();
    doc.select(&sel).map(|e| ArabicItem {
        arabic: e.text().collect(),
        siblings: e.next_siblings().map(|n| match n.value() {
            scraper::Node::Text(t) => SibNode::Text(t.to_string()),
            _ => SibNode::Markup,
        }).collect(),
    }).collect()
}

/// Relies on scraper, as `fragment_ltrs`, with `Html::parse_document` in
/// place of `Html::parse_fragment`.
#[verifier::external_body]
fn document_ltrs(html: &str) -> (r: Vec<String>)
    ensures
        r.deep_view() == document_ltr_texts(html@),
{
    let doc = scraper::Html::parse_document(html);
    let sel = scraper::Selector::parse("span[dir='ltr']").unwrap();
    doc.select(&sel).map(|e| e.text().collect()).collect()
}

/// The document model of `html` parsed as a fragment.
pub fn fragment_model(html: &str) -> (m: DocModel)
    ensures
        m.deep_view().items == fragment_arabic_items(html@),
        m.deep_view().ltr_texts == fragment_ltr_texts(html@),
{
    let items = fragment_items(html);
    let ltr_texts = fragment_ltrs(html);
    DocModel { items, ltr_texts }
}

/// The document model of `html` parsed as a whole document.
pub fn document_model(html: &str) -> (m: DocModel)
    ensures
        m.deep_view().items == document_arabic_items(html@),
        m.deep_view().ltr_texts == document_ltr_texts(html@),
{
    let items = document_items(html);
    let ltr_texts = document_ltrs(html);
    DocModel { items, ltr_texts }
}

/// Extracts every proverb of `html` parsed as a fragment, in document order.
pub fn extract_from_fragment(html: &str) -> (r: Result<Vec<Proverb>, ExtractError>)
    ensures
        res_view(r) == spec_extract(fragment_arabic_items(html@), fragment_ltr_texts(html@), 0),
{
    let m = fragment_model(html);
    extract_proverbs(&m)
}

/// Extracts every proverb of `html` parsed as a whole document, in document
/// order.
pub fn extract_from_document(html: &str) -> (r: Result<Vec<Proverb>, ExtractError>)
    ensures
        res_view(r) == spec_extract(document_arabic_items(html@), document_ltr_texts(html@), 0),
{
    let m = document_model(html);
    extract_proverbs(&m)
}

} // verus!
