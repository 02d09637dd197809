//! The document-locator boundary: a parsed HTML document is held as
//! scraper's `Html`, and the four locator operations the extractors use are
//! trusted wrappers around scraper's selector machinery.
//!
//! The model: a parsed document determines, for each selector text, the
//! trimmed text of the first matching element (`doc_text_at`), the number of
//! elements matching an entry selector (`doc_entry_count`), and, within the
//! entry at a given position, the text of the first match and the texts of
//! all matches of a field selector (`entry_text_at`, `entry_texts_at`).
//! scraper computes all four from the document and the selector texts alone,
//! so each is named as a function of those arguments. A selector text that
//! scraper cannot parse, or an entry position past the count, locates
//! nothing and yields empty text.

use vstd::prelude::*;

use scraper::{Html, Selector};

verus! {

#[verifier::external_type_specification]
#[verifier::external_body]
pub struct ExHtml(Html);

/// The trimmed, concatenated text content of the first element of `doc`
/// matched by `selector`; empty if none matches or the selector text is
/// malformed.
pub uninterp spec fn doc_text_at(doc: Html, selector: Seq<char>) -> Seq<char>;

/// How many elements of `doc` the entry selector `selector` matches, in
/// document order; 0 if the selector text is malformed.
pub uninterp spec fn doc_entry_count(doc: Html, selector: Seq<char>) -> nat;

/// The trimmed text of the first element matching `field_selector` within
/// the element of `doc` at position `index` among those matching
/// `entry_selector`; empty if anything fails to match.
pub uninterp spec fn entry_text_at(
    doc: Html,
    entry_selector: Seq<char>,
    index: int,
    field_selector: Seq<char>,
) -> Seq<char>;

/// The texts of every element matching `field_selector` within the element
/// of `doc` at position `index` among those matching `entry_selector`, in
/// document order; empty if the entry does not exist.
pub uninterp spec fn entry_texts_at(
    doc: Html,
    entry_selector: Seq<char>,
    index: int,
    field_selector: Seq<char>,
) -> Seq<Seq<char>>;

/// Relies on scraper's Selector::parse, Html::select and ElementRef::text:
/// the trimmed text content of the first element matching `selector`, the
/// empty string if none does or the selector is malformed.
#[verifier::external_body]
pub fn element_by_selector_to_string(document: &Html, selector: &str) -> (r: String)
    ensures
        r@ == doc_text_at(*document, selector@),
{
    let sel = match Selector::parse(selector) {
        Ok(s) => s,
        Err(_) => return String::new(),
    };
    match document.select(&sel).next() {
        Some(el) => el.text().collect::<String>().trim().to_string(),
        None => String::new(),
    }
}

/// Relies on scraper's Selector::parse and Html::select: how many elements
/// of the document the selector matches, 0 if it is malformed.
#[verifier::external_body]
pub fn count_elements(document: &Html, selector: &str) -> (n: usize)
    ensures
        n as nat == doc_entry_count(*document, selector@),
{
    let sel = match Selector::parse(selector) {
        Ok(s) => s,
        Err(_) => return 0,
    };
    document.select(&sel).count()
}

/// Relies on scraper's Selector::parse, Html::select, ElementRef::select and
/// ElementRef::text: the trimmed text of the first `field_selector` match
/// within the `index`-th `entry_selector` match, the empty string wherever a
/// match is missing or a selector is malformed.
#[verifier::external_body]
pub fn sub_element_by_selector_to_string(
    document: &Html,
    entry_selector: &str,
    index: usize,
    field_selector: &str,
) -> (r: String)
    ensures
        r@ == entry_text_at(*document, entry_selector@, index as int, field_selector@),
{
    let entry_sel = match Selector::parse(entry_selector) {
        Ok(s) => s,
        Err(_) => return String::new(),
    };
    let field_sel = match Selector::parse(field_selector) {
        Ok(s) => s,
        Err(_) => return String::new(),
    };
    match document.select(&entry_sel).nth(index) {
        Some(el) => match el.select(&field_sel).next() {
            Some(sub) => sub.text().collect::<String>().trim().to_string(),
            None => String::new(),
        },
        None => String::new(),
    }
}

/// Relies on scraper's Selector::parse, Html::select, ElementRef::select and
/// ElementRef::text: the text of every `field_selector` match within the
/// `index`-th `entry_selector` match, in document order.
#[verifier::external_body]
pub fn extract_elements_as_text_vec(
    document: &Html,
    entry_selector: &str,
    index: usize,
    field_selector: &str,
) -> (r: Vec<String>)
    ensures
        r.deep_view() == entry_texts_at(*document, entry_selector@, index as int, field_selector@),
{
    let entry_sel = match Selector::parse(entry_selector) {
        Ok(s) => s,
        Err(_) => return Vec::new(),
    };
    let field_sel = match Selector::parse(field_selector) {
        Ok(s) => s,
        Err(_) => return Vec::new(),
    };
    match document.select(&entry_sel).nth(index) {
        Some(el) => el.select(&field_sel).map(|e| e.text().collect::<String>()).collect(),
        None => Vec::new(),
    }
}

} // verus!
