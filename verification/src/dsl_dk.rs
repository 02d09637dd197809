//! The secondary provider: extraction of every homograph entry from a
//! ws.dsl.dk result document. A document may carry several entry blocks for
//! one query; each block yields its own raw source, with every field located
//! inside that block alone.

use vstd::prelude::*;

use scraper::Html;

use crate::webpage::{
    count_elements, doc_entry_count, entry_text_at, entry_texts_at,
    extract_elements_as_text_vec, sub_element_by_selector_to_string,
};
use crate::word::{word_built_from, Word, WordSource};

verus! {

/// The query URL for this provider: its base followed by the query text.
pub open spec fn spec_query_url(query: Seq<char>) -> Seq<char> {
    "https://ws.dsl.dk/ddo/query?q="@ + query
}

/// Builds the provider's query URL for `query`, as `spec_query_url` states.
pub fn get_query_url(query: &str) -> (r: String)
    ensures
        r@ == spec_query_url(query@),
{
    String::from_str("https://ws.dsl.dk/ddo/query?q=").concat(query)
}

/// How a raw source relates to the entry block of `doc` at position `index`:
/// every field is the text at its location rule within that block and no
/// other, the synonym list holds the block's synonym texts in document
/// order, and the query URL is kept for provenance.
pub open spec fn dsl_source_at(s: WordSource, doc: Html, index: int, url: Seq<char>) -> bool {
    &&& s.value@ == entry_text_at(doc, ".ar"@, index, ".ar .head .k"@)
    &&& s.group@ == entry_text_at(doc, ".ar"@, index, ".ar .pos"@)
    &&& s.bending@ == entry_text_at(doc, ".ar"@, index, "#id-boj span.tekstmedium"@)
    &&& s.pronunciation@ == entry_text_at(doc, ".ar"@, index, ".ar .phon"@)
    &&& s.origin@ == entry_text_at(doc, ".ar"@, index, ".ar .etym"@)
    &&& s.synonyms.deep_view() == entry_texts_at(doc, ".ar"@, index, ".synonyms .k a"@)
    &&& s.url@ == url
}

/// Extracts the entry block at `index` into a raw source, as `dsl_source_at`
/// states. A field whose location rule matches nothing inside the block is
/// the empty string, never an error.
fn build_source_from_element(document: &Html, index: usize, url: &str) -> (s: WordSource)
    ensures
        dsl_source_at(s, *document, index as int, url@),
{
    WordSource {
        value: sub_element_by_selector_to_string(document, ".ar", index, ".ar .head .k"),
        group: sub_element_by_selector_to_string(document, ".ar", index, ".ar .pos"),
        bending: sub_element_by_selector_to_string(document, ".ar", index, "#id-boj span.tekstmedium"),
        pronunciation: sub_element_by_selector_to_string(document, ".ar", index, ".ar .phon"),
        origin: sub_element_by_selector_to_string(document, ".ar", index, ".ar .etym"),
        synonyms: extract_elements_as_text_vec(document, ".ar", index, ".synonyms .k a"),
        url: String::from_str(url),
    }
}

/// Extracts one raw source per entry block of the document, in document
/// order: exactly as many sources as there are blocks, the source at each
/// position built from that block alone. A document with no blocks yields
/// the empty sequence, not an error.
pub fn build_word_sources(document: &Html, url: &str) -> (sources: Vec<WordSource>)
    ensures
        sources@.len() == doc_entry_count(*document, ".ar"@),
        forall|i: int|
            0 <= i < sources@.len() ==> dsl_source_at(#[trigger] sources@[i], *document, i, url@),
{
    let n = count_elements(document, ".ar");
    let mut word_sources: Vec<WordSource> = Vec::new();
    let mut i: usize = 0;
    while i < n
        invariant
            n as nat == doc_entry_count(*document, ".ar"@),
            i <= n,
            word_sources@.len() == i,
            forall|j: int|
                0 <= j < i ==> dsl_source_at(#[trigger] word_sources@[j], *document, j, url@),
        decreases n - i,
    {
        let word_source = build_source_from_element(document, i, url);
        word_sources.push(word_source);
        i += 1;
    }
    word_sources
}

/// Extracts and normalizes every entry of the document: one `Word` per entry
/// block, in document order, each built from its own block's raw source.
pub fn build_words(document: &Html, url: &str) -> (words: Vec<Word>)
    ensures
        words@.len() == doc_entry_count(*document, ".ar"@),
        forall|i: int|
            0 <= i < words@.len() ==> dsl_source_at(
                (#[trigger] words@[i]).source,
                *document,
                i,
                url@,
            ) && word_built_from(words@[i], words@[i].source),
{
    let mut word_sources = build_word_sources(document, url);
    let ghost all = word_sources@;
    let mut words: Vec<Word> = Vec::new();
    while word_sources.len() > 0
        invariant
            all.len() == words@.len() + word_sources@.len(),
            word_sources@ == all.skip(words@.len() as int),
            forall|i: int| 0 <= i < all.len() ==> dsl_source_at(#[trigger] all[i], *document, i, url@),
            forall|i: int|
                0 <= i < words@.len() ==> (#[trigger] words@[i]).source == all[i]
                    && word_built_from(words@[i], all[i]),
        decreases word_sources.len(),
    {
        let ghost done = words@.len() as int;
        let ghost before = word_sources@;
        let word_source = word_sources.remove(0);
        proof {
            assert(word_source == all[done]);
            assert(before.remove(0) =~= all.skip(done + 1));
        }
        let word = Word::build(word_source);
        words.push(word);
    }
    words
}

} // verus!
