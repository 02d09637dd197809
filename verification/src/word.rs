//! The word data model: grammatical groups, raw extraction records and the
//! normalized `Word` record.

use vstd::prelude::*;

use crate::text::{spec_trim, str_eq, trim_substring};

verus! {

/// Gender sub-tag of a nominal group.
#[derive(Debug, PartialEq, Eq, Structural, Clone, Copy)]
pub enum SubstantivGroup {
    /// Common gender ("n-word": prefixed with "en").
    Faelleskoen,
    /// Neuter gender ("t-word": prefixed with "et").
    Intetkoen,
}

/// Closed taxonomy of grammatical groups. `Ingen` marks a group text in
/// which no recognized token occurs.
#[derive(Debug, PartialEq, Eq, Structural, Clone, Copy)]
pub enum WordGroup {
    Ingen,
    Substantiv(SubstantivGroup),
    Verbum,
    Adjektiv,
    Adverbium,
}

/// The article or infinitive marker owed to a grammatical group: "en" and
/// "et" for the two noun genders, "at" for a verb, nothing otherwise.
pub open spec fn spec_prefix(g: WordGroup) -> Seq<char> {
    match g {
        WordGroup::Substantiv(SubstantivGroup::Faelleskoen) => "en"@,
        WordGroup::Substantiv(SubstantivGroup::Intetkoen) => "et"@,
        WordGroup::Verbum => "at"@,
        _ => Seq::empty(),
    }
}

impl WordGroup {
    /// The display prefix for this group, as `spec_prefix` states it.
    pub fn get_prefix(&self) -> (r: &'static str)
        ensures
            r@ == spec_prefix(*self),
    {
        match *self {
            WordGroup::Substantiv(SubstantivGroup::Faelleskoen) => "en",
            WordGroup::Substantiv(SubstantivGroup::Intetkoen) => "et",
            WordGroup::Verbum => "at",
            _ => {
                let none = "";
                proof {
                    reveal_strlit("");
                    assert(none@ =~= Seq::<char>::empty());
                }
                none
            },
        }
    }
}

/// The group that a single trimmed segment of a group text names, by the
/// fixed token table; `Ingen` for any unrecognized segment.
pub open spec fn spec_token_group(seg: Seq<char>) -> WordGroup {
    if seg == "fælleskøn"@ {
        WordGroup::Substantiv(SubstantivGroup::Faelleskoen)
    } else if seg == "intetkøn"@ {
        WordGroup::Substantiv(SubstantivGroup::Intetkoen)
    } else if seg == "verbum"@ {
        WordGroup::Verbum
    } else if seg == "adjektiv"@ {
        WordGroup::Adjektiv
    } else if seg == "adverbium"@ {
        WordGroup::Adverbium
    } else {
        WordGroup::Ingen
    }
}

/// One step of classification: `rest` is the unread tail of the group text
/// and `seg` the characters of the current segment read so far. At a comma
/// the current segment is trimmed and classified, and the first segment
/// naming a recognized token decides; the final segment is treated the same
/// way when the text runs out.
pub open spec fn spec_classify_loop(rest: Seq<char>, seg: Seq<char>) -> WordGroup
    decreases rest.len(),
{
    if rest.len() == 0 {
        spec_token_group(spec_trim(seg))
    } else if rest[0] == ',' {
        let g = spec_token_group(spec_trim(seg));
        if g != WordGroup::Ingen {
            g
        } else {
            spec_classify_loop(rest.drop_first(), Seq::empty())
        }
    } else {
        spec_classify_loop(rest.drop_first(), seg.push(rest[0]))
    }
}

/// Classification of a raw group text: split on commas, trim each segment,
/// and return the group of the first segment naming a recognized token, or
/// `Ingen` if no segment does. Total over all texts.
pub open spec fn spec_classify(s: Seq<char>) -> WordGroup {
    spec_classify_loop(s, Seq::empty())
}

/// Trims and classifies the segment of `s` between character positions
/// `from` and `to`.
fn classify_segment(s: &str, from: usize, to: usize) -> (g: WordGroup)
    requires
        from <= to <= s@.len(),
    ensures
        g == spec_token_group(spec_trim(s@.subrange(from as int, to as int))),
{
    let seg = trim_substring(s, from, to);
    if str_eq(seg, "fælleskøn") {
        WordGroup::Substantiv(SubstantivGroup::Faelleskoen)
    } else if str_eq(seg, "intetkøn") {
        WordGroup::Substantiv(SubstantivGroup::Intetkoen)
    } else if str_eq(seg, "verbum") {
        WordGroup::Verbum
    } else if str_eq(seg, "adjektiv") {
        WordGroup::Adjektiv
    } else if str_eq(seg, "adverbium") {
        WordGroup::Adverbium
    } else {
        WordGroup::Ingen
    }
}

/// Classifies a free-text grammatical description into the closed
/// `WordGroup` taxonomy, exactly as `spec_classify` states it.
pub fn detect_word_group(group_text: &str) -> (g: WordGroup)
    ensures
        g == spec_classify(group_text@),
{
    let ghost s = group_text@;
    let n = group_text.unicode_len();
    let mut seg_start: usize = 0;
    let mut k: usize = 0;
    proof {
        assert(s.skip(0) =~= s);
        assert(s.subrange(0, 0) =~= Seq::<char>::empty());
    }
    loop
        invariant
            group_text@ == s,
            n == s.len(),
            seg_start <= k <= n,
            spec_classify(s) == spec_classify_loop(
                s.skip(k as int),
                s.subrange(seg_start as int, k as int),
            ),
        decreases n - k,
    {
        if k == n {
            proof {
                assert(s.skip(k as int).len() == 0);
            }
            return classify_segment(group_text, seg_start, k);
        }
        let c = group_text.get_char(k);
        proof {
            assert(s.skip(k as int)[0] == s[k as int]);
            assert(s.skip(k as int).drop_first() =~= s.skip(k as int + 1));
        }
        if c == ',' {
            let g = classify_segment(group_text, seg_start, k);
            if g != WordGroup::Ingen {
                return g;
            }
            seg_start = k + 1;
            proof {
                assert(s.subrange(k as int + 1, k as int + 1) =~= Seq::<char>::empty());
            }
        } else {
            proof {
                assert(s.subrange(seg_start as int, k as int).push(s[k as int]) =~= s.subrange(
                    seg_start as int,
                    k as int + 1,
                ));
            }
        }
        k = k + 1;
    }
}

/// A raw extraction result: one dictionary entry's fields as the page gives
/// them. Every field but `url` is the empty string where the page omits it.
#[derive(Debug)]
pub struct WordSource {
    pub value: String,
    pub group: String,
    pub bending: String,
    pub pronunciation: String,
    pub origin: String,
    pub synonyms: Vec<String>,
    pub url: String,
}

/// The normalized record: the raw source it was built from, the display form
/// with its grammatical prefix, the classified group, and the URL-encoded
/// display form.
#[derive(Debug)]
pub struct Word {
    pub source: WordSource,
    pub value: String,
    pub group: WordGroup,
    pub value_encoded: String,
}

/// The display form of a headword under a group: the group's prefix, a
/// space, and the headword; the bare headword where the group has no prefix.
pub open spec fn spec_prefixed(value: Seq<char>, g: WordGroup) -> Seq<char> {
    if spec_prefix(g).len() == 0 {
        value
    } else {
        spec_prefix(g) + " "@ + value
    }
}

/// Builds the display form of `value` under `group`, as `spec_prefixed`
/// states it.
pub fn get_prefixed_value(value: &str, group: &WordGroup) -> (r: String)
    ensures
        r@ == spec_prefixed(value@, *group),
{
    let prefix = group.get_prefix();
    if prefix.is_empty() {
        String::from_str(value)
    } else {
        let mut r = String::from_str(prefix);
        r.append(" ");
        r.append(value);
        r
    }
}

/// The RFC 3986 percent-encoding of the UTF-8 bytes of `s`: ASCII
/// alphanumerics and `-`, `_`, `.`, `~` stand as they are, every other byte
/// as `%` and two hex digits. A function of `s` alone.
pub uninterp spec fn percent_encoding_of(s: Seq<char>) -> Seq<char>;

/// Relies on urlencoding::encode: percent-encodes every byte of `s` except
/// ASCII alphanumerics and `-`, `_`, `.`, `~`; depends on `s` alone.
#[verifier::external_body]
fn get_url_encoded(s: &str) -> (r: String)
    ensures
        r@ == percent_encoding_of(s@),
{
    urlencoding::encode(s).into_owned()
}

/// How a normalized `Word` relates to the raw source it was built from: the
/// source is embedded unchanged, the group classifies the source's group
/// text, the display form is the prefixed headword, and the encoded form is
/// the percent-encoding of the display form.
pub open spec fn word_built_from(w: Word, s: WordSource) -> bool {
    &&& w.source == s
    &&& w.group == spec_classify(s.group@)
    &&& w.value@ == spec_prefixed(s.value@, spec_classify(s.group@))
    &&& w.value_encoded@ == percent_encoding_of(w.value@)
}

impl Word {
    /// Normalizes a raw source into a `Word`, as `word_built_from` states.
    pub fn build(source: WordSource) -> (w: Word)
        ensures
            word_built_from(w, source),
    {
        let group = detect_word_group(source.group.as_str());
        let value = get_prefixed_value(source.value.as_str(), &group);
        let value_encoded = get_url_encoded(value.as_str());
        Word { source, value, group, value_encoded }
    }
}

/// A group without a prefix — an adjective, an adverb, an unrecognized text
/// — leaves the headword exactly as it stands.
pub proof fn lemma_unprefixed_groups_keep_value(value: Seq<char>, g: WordGroup)
    requires
        g == WordGroup::Ingen || g == WordGroup::Adjektiv || g == WordGroup::Adverbium,
    ensures
        spec_prefixed(value, g) == value,
{
}

/// A group with a prefix — a noun of either gender, a verb — puts that
/// prefix and one space in front of the headword.
pub proof fn lemma_prefixed_groups_prepend_prefix(value: Seq<char>, g: WordGroup)
    requires
        g matches WordGroup::Substantiv(_) || g == WordGroup::Verbum,
    ensures
        spec_prefixed(value, g) == spec_prefix(g) + " "@ + value,
        spec_prefixed(value, g).len() == value.len() + 3,
{
    reveal_strlit("en");
    reveal_strlit("et");
    reveal_strlit("at");
    reveal_strlit(" ");
}

/// Classification is deterministic: two classifications of the same group
/// text agree. Together with `spec_classify` being a total function of the
/// text, this pins `detect_word_group`'s result for every input.
pub proof fn lemma_classify_deterministic(g1: WordGroup, g2: WordGroup, s: Seq<char>)
    requires
        g1 == spec_classify(s),
        g2 == spec_classify(s),
    ensures
        g1 == g2,
{
}

/// Normalization is idempotent: a `Word` built from the source embedded in
/// an earlier `Word` agrees with that earlier `Word` in every field.
pub proof fn lemma_normalize_idempotent(w1: Word, w2: Word, s: WordSource)
    requires
        word_built_from(w1, s),
        word_built_from(w2, w1.source),
    ensures
        w2.source == w1.source,
        w2.group == w1.group,
        w2.value@ == w1.value@,
        w2.value_encoded@ == w1.value_encoded@,
{
}

} // verus!
