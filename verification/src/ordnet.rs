//! The primary provider: extraction of a single dictionary entry from an
//! ordnet.dk result document.

use vstd::prelude::*;

use scraper::Html;

use crate::text::{filter_alpha, filter_alphabetic};
use crate::webpage::{doc_text_at, element_by_selector_to_string};
use crate::word::{word_built_from, Word, WordSource};

verus! {

/// The query URL for this provider: its base followed by the query text.
pub open spec fn spec_query_url(query: Seq<char>) -> Seq<char> {
    "https://ordnet.dk/ddo/ordbog?query="@ + query
}

/// Builds the provider's query URL for `query`, as `spec_query_url` states.
pub fn get_query_url(query: &str) -> (r: String)
    ensures
        r@ == spec_query_url(query@),
{
    String::from_str("https://ordnet.dk/ddo/ordbog?query=").concat(query)
}

/// How a raw source extracted from an ordnet result document relates to that
/// document: each field is the text at its location rule, the headword is
/// stripped to its alphabetic characters, the synonym list is empty (this
/// provider publishes none), and the query URL is kept for provenance.
pub open spec fn ordnet_source_from(s: WordSource, doc: Html, url: Seq<char>) -> bool {
    &&& s.value@ == filter_alpha(doc_text_at(doc, "div.artikel span.match"@))
    &&& s.group@ == doc_text_at(doc, "div.definitionBoxTop span.tekstmedium"@)
    &&& s.bending@ == doc_text_at(doc, "#id-boj span.tekstmedium"@)
    &&& s.pronunciation@ == doc_text_at(doc, "#id-udt span.tekstmedium"@)
    &&& s.origin@ == doc_text_at(doc, "#id-ety span.tekstmedium"@)
    &&& s.synonyms@ == Seq::<String>::empty()
    &&& s.url@ == url
}

/// Extracts the single entry of an ordnet result document into a raw source,
/// as `ordnet_source_from` states. A field whose location rule matches
/// nothing is the empty string, never an error.
pub fn build_source(document: &Html, url: &str) -> (s: WordSource)
    ensures
        ordnet_source_from(s, *document, url@),
{
    WordSource {
        value: get_match_value(document),
        group: element_by_selector_to_string(document, "div.definitionBoxTop span.tekstmedium"),
        bending: element_by_selector_to_string(document, "#id-boj span.tekstmedium"),
        pronunciation: element_by_selector_to_string(document, "#id-udt span.tekstmedium"),
        origin: element_by_selector_to_string(document, "#id-ety span.tekstmedium"),
        synonyms: Vec::new(),
        url: String::from_str(url),
    }
}

/// The matched headword of the document, stripped of every non-alphabetic
/// character (homograph markers, trailing index digits).
fn get_match_value(document: &Html) -> (r: String)
    ensures
        r@ == filter_alpha(doc_text_at(*document, "div.artikel span.match"@)),
{
    let text = element_by_selector_to_string(document, "div.artikel span.match");
    filter_alphabetic(text.as_str())
}

/// Extracts and normalizes: one `Word`, built from the single raw source of
/// the document.
pub fn build_words(document: &Html, url: &str) -> (words: Vec<Word>)
    ensures
        words@.len() == 1,
        ordnet_source_from(words@[0].source, *document, url@),
        word_built_from(words@[0], words@[0].source),
{
    let word_source = build_source(document, url);
    let words: Vec<Word> = vec![Word::build(word_source)];
    words
}

} // verus!
