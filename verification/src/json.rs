//! Verified JSON rendering of the normalized record: a compact form and a
//! human-readable, indented form, both pinned character for character by
//! spec functions. String values are escaped as JSON asks: quote, backslash
//! and the named control characters by a backslash pair, any other control
//! character as a four-digit escape, everything else stands as it is.

use vstd::prelude::*;

use crate::word::{SubstantivGroup, Word, WordGroup, WordSource};

verus! {

/// The single lower-case hex digit naming `n`.
pub open spec fn hex_digit_text(n: int) -> Seq<char> {
    if n == 0 {
        "0"@
    } else if n == 1 {
        "1"@
    } else if n == 2 {
        "2"@
    } else if n == 3 {
        "3"@
    } else if n == 4 {
        "4"@
    } else if n == 5 {
        "5"@
    } else if n == 6 {
        "6"@
    } else if n == 7 {
        "7"@
    } else if n == 8 {
        "8"@
    } else if n == 9 {
        "9"@
    } else if n == 10 {
        "a"@
    } else if n == 11 {
        "b"@
    } else if n == 12 {
        "c"@
    } else if n == 13 {
        "d"@
    } else if n == 14 {
        "e"@
    } else {
        "f"@
    }
}

/// What a character contributes to a JSON string body.
pub open spec fn escape_char(c: char) -> Seq<char> {
    if c == '"' {
        "\\\""@
    } else if c == '\\' {
        "\\\\"@
    } else if c == '\n' {
        "\\n"@
    } else if c == '\r' {
        "\\r"@
    } else if c == '\t' {
        "\\t"@
    } else if (c as u32) < 32 {
        "\\u00"@ + hex_digit_text((c as u32) as int / 16) + hex_digit_text((c as u32) as int % 16)
    } else {
        seq![c]
    }
}

/// The body of the JSON string rendering `s`: each character escaped.
pub open spec fn escape_text(s: Seq<char>) -> Seq<char>
    decreases s.len(),
{
    if s.len() == 0 {
        Seq::empty()
    } else {
        escape_text(s.drop_last()) + escape_char(s.last())
    }
}

/// The JSON string rendering `s`: the escaped body between quotes.
pub open spec fn json_string(s: Seq<char>) -> Seq<char> {
    "\""@ + escape_text(s) + "\""@
}

/// The comma-separated JSON strings of `items`, without brackets.
pub open spec fn json_string_list(items: Seq<Seq<char>>) -> Seq<char>
    decreases items.len(),
{
    if items.len() == 0 {
        Seq::empty()
    } else if items.len() == 1 {
        json_string(items[0])
    } else {
        json_string_list(items.drop_last()) + ","@ + json_string(items.last())
    }
}

/// The JSON array of the strings of `items`, in order.
pub open spec fn json_array_of_strings(items: Seq<Seq<char>>) -> Seq<char> {
    "["@ + json_string_list(items) + "]"@
}

/// The name of a nominal gender variant.
pub open spec fn substantiv_name(sub: SubstantivGroup) -> Seq<char> {
    match sub {
        SubstantivGroup::Faelleskoen => "Faelleskoen"@,
        SubstantivGroup::Intetkoen => "Intetkoen"@,
    }
}

/// The name of a unit group variant.
pub open spec fn group_name(g: WordGroup) -> Seq<char> {
    match g {
        WordGroup::Ingen => "Ingen"@,
        WordGroup::Verbum => "Verbum"@,
        WordGroup::Adjektiv => "Adjektiv"@,
        WordGroup::Adverbium => "Adverbium"@,
        WordGroup::Substantiv(_) => Seq::empty(),
    }
}

/// The compact JSON rendering of a group: a unit variant as its name, the
/// nominal variant as an object carrying its gender.
pub open spec fn json_of_group(g: WordGroup) -> Seq<char> {
    match g {
        WordGroup::Substantiv(sub) => "{\"Substantiv\":"@ + json_string(substantiv_name(sub))
            + "}"@,
        _ => json_string(group_name(g)),
    }
}

/// The compact JSON rendering of a raw source record.
pub open spec fn json_of_source(s: WordSource) -> Seq<char> {
    "{\"value\":"@ + json_string(s.value@) + ",\"group\":"@ + json_string(s.group@)
        + ",\"bending\":"@ + json_string(s.bending@) + ",\"pronunciation\":"@ + json_string(
        s.pronunciation@,
    ) + ",\"origin\":"@ + json_string(s.origin@) + ",\"synonyms\":"@ + json_array_of_strings(
        s.synonyms.deep_view(),
    ) + ",\"url\":"@ + json_string(s.url@) + "}"@
}

/// The compact JSON rendering of a normalized record.
pub open spec fn json_of_word(w: Word) -> Seq<char> {
    "{\"source\":"@ + json_of_source(w.source) + ",\"value\":"@ + json_string(w.value@)
        + ",\"group\":"@ + json_of_group(w.group) + ",\"value_encoded\":"@ + json_string(
        w.value_encoded@,
    ) + "}"@
}

/// The indented synonym items, each on its own line.
pub open spec fn json_pretty_item_list(items: Seq<Seq<char>>) -> Seq<char>
    decreases items.len(),
{
    if items.len() == 0 {
        Seq::empty()
    } else if items.len() == 1 {
        "      "@ + json_string(items[0])
    } else {
        json_pretty_item_list(items.drop_last()) + ",\n      "@ + json_string(items.last())
    }
}

/// The indented JSON array of the synonym texts.
pub open spec fn json_pretty_synonyms(items: Seq<Seq<char>>) -> Seq<char> {
    if items.len() == 0 {
        "[]"@
    } else {
        "[\n"@ + json_pretty_item_list(items) + "\n    ]"@
    }
}

/// The indented JSON rendering of a group.
pub open spec fn json_pretty_group(g: WordGroup) -> Seq<char> {
    match g {
        WordGroup::Substantiv(sub) => "{\n    \"Substantiv\": "@ + json_string(
            substantiv_name(sub),
        ) + "\n  }"@,
        _ => json_string(group_name(g)),
    }
}

/// The human-readable JSON rendering of a normalized record: the same data
/// as the compact form, indented by two spaces per level.
pub open spec fn json_pretty_of_word(w: Word) -> Seq<char> {
    "{\n  \"source\": {\n    \"value\": "@ + json_string(w.source.value@) + ",\n    \"group\": "@
        + json_string(w.source.group@) + ",\n    \"bending\": "@ + json_string(w.source.bending@)
        + ",\n    \"pronunciation\": "@ + json_string(w.source.pronunciation@)
        + ",\n    \"origin\": "@ + json_string(w.source.origin@) + ",\n    \"synonyms\": "@
        + json_pretty_synonyms(w.source.synonyms.deep_view()) + ",\n    \"url\": "@ + json_string(
        w.source.url@,
    ) + "\n  },\n  \"value\": "@ + json_string(w.value@) + ",\n  \"group\": "@ + json_pretty_group(
        w.group,
    ) + ",\n  \"value_encoded\": "@ + json_string(w.value_encoded@) + "\n}"@
}

/// The lower-case hex digit naming `n`.
fn hex_digit_str(n: u32) -> (r: &'static str)
    requires
        n < 16,
    ensures
        r@ == hex_digit_text(n as int),
{
    if n == 0 {
        "0"
    } else if n == 1 {
        "1"
    } else if n == 2 {
        "2"
    } else if n == 3 {
        "3"
    } else if n == 4 {
        "4"
    } else if n == 5 {
        "5"
    } else if n == 6 {
        "6"
    } else if n == 7 {
        "7"
    } else if n == 8 {
        "8"
    } else if n == 9 {
        "9"
    } else if n == 10 {
        "a"
    } else if n == 11 {
        "b"
    } else if n == 12 {
        "c"
    } else if n == 13 {
        "d"
    } else if n == 14 {
        "e"
    } else {
        "f"
    }
}

/// Appends the escaped body of `s` to `out`.
fn append_escaped(out: &mut String, s: &str)
    ensures
        final(out)@ == old(out)@ + escape_text(s@),
{
    let ghost base = out@;
    let n = s.unicode_len();
    let mut i: usize = 0;
    proof {
        assert(base + escape_text(s@.subrange(0, 0)) =~= base);
    }
    while i < n
        invariant
            n == s@.len(),
            i <= n,
            out@ == base + escape_text(s@.subrange(0, i as int)),
        decreases n - i,
    {
        let c = s.get_char(i);
        proof {
            assert(s@.subrange(0, i as int + 1).drop_last() =~= s@.subrange(0, i as int));
            assert(s@.subrange(0, i as int + 1).last() == s@[i as int]);
        }
        if c == '"' {
            out.append("\\\"");
        } else if c == '\\' {
            out.append("\\\\");
        } else if c == '\n' {
            out.append("\\n");
        } else if c == '\r' {
            out.append("\\r");
        } else if c == '\t' {
            out.append("\\t");
        } else if (c as u32) < 32 {
            let code = c as u32;
            out.append("\\u00");
            out.append(hex_digit_str(code / 16));
            out.append(hex_digit_str(code % 16));
        } else {
            out.append(s.substring_char(i, i + 1));
            proof {
                assert(s@.subrange(i as int, i as int + 1) =~= seq![s@[i as int]]);
            }
        }
        proof {
            assert(out@ =~= base + escape_text(s@.subrange(0, i as int + 1)));
        }
        i += 1;
    }
    proof {
        assert(s@.subrange(0, n as int) =~= s@);
    }
}

/// Appends the JSON string rendering `s` to `out`.
fn append_json_string(out: &mut String, s: &str)
    ensures
        final(out)@ == old(out)@ + json_string(s@),
{
    let ghost base = out@;
    out.append("\"");
    append_escaped(out, s);
    out.append("\"");
    proof {
        assert(out@ =~= base + json_string(s@));
    }
}

/// Appends the JSON array of the texts of `items` to `out`.
fn append_json_array(out: &mut String, items: &Vec<String>)
    ensures
        final(out)@ == old(out)@ + json_array_of_strings(items.deep_view()),
{
    let ghost base = out@;
    let ghost deep = items.deep_view();
    out.append("[");
    let mut i: usize = 0;
    proof {
        assert(out@ =~= base + "["@ + json_string_list(deep.subrange(0, 0)));
    }
    while i < items.len()
        invariant
            deep == items.deep_view(),
            deep.len() == items@.len(),
            i <= items@.len(),
            out@ == base + "["@ + json_string_list(deep.subrange(0, i as int)),
        decreases items@.len() - i,
    {
        if i > 0 {
            out.append(",");
        }
        append_json_string(out, items[i].as_str());
        proof {
            assert(deep[i as int] == items@[i as int]@);
            assert(deep.subrange(0, i as int + 1).drop_last() =~= deep.subrange(0, i as int));
            assert(deep.subrange(0, i as int + 1).last() == deep[i as int]);
            assert(out@ =~= base + "["@ + json_string_list(deep.subrange(0, i as int + 1)));
        }
        i += 1;
    }
    proof {
        assert(deep.subrange(0, deep.len() as int) =~= deep);
    }
    out.append("]");
    proof {
        assert(out@ =~= base + json_array_of_strings(deep));
    }
}

/// The name of a nominal gender variant.
fn substantiv_name_str(sub: &SubstantivGroup) -> (r: &'static str)
    ensures
        r@ == substantiv_name(*sub),
{
    match *sub {
        SubstantivGroup::Faelleskoen => "Faelleskoen",
        SubstantivGroup::Intetkoen => "Intetkoen",
    }
}

/// Appends the compact JSON rendering of `g` to `out`.
fn append_json_group(out: &mut String, g: &WordGroup)
    ensures
        final(out)@ == old(out)@ + json_of_group(*g),
{
    let ghost base = out@;
    match *g {
        WordGroup::Substantiv(sub) => {
            out.append("{\"Substantiv\":");
            append_json_string(out, substantiv_name_str(&sub));
            out.append("}");
            proof {
                assert(out@ =~= base + json_of_group(*g));
            }
        },
        WordGroup::Ingen => append_json_string(out, "Ingen"),
        WordGroup::Verbum => append_json_string(out, "Verbum"),
        WordGroup::Adjektiv => append_json_string(out, "Adjektiv"),
        WordGroup::Adverbium => append_json_string(out, "Adverbium"),
    }
}

/// Appends the compact JSON rendering of `s` to `out`.
fn append_json_source(out: &mut String, s: &WordSource)
    ensures
        final(out)@ == old(out)@ + json_of_source(*s),
{
    let ghost base = out@;
    out.append("{\"value\":");
    append_json_string(out, s.value.as_str());
    out.append(",\"group\":");
    append_json_string(out, s.group.as_str());
    out.append(",\"bending\":");
    append_json_string(out, s.bending.as_str());
    out.append(",\"pronunciation\":");
    append_json_string(out, s.pronunciation.as_str());
    out.append(",\"origin\":");
    append_json_string(out, s.origin.as_str());
    out.append(",\"synonyms\":");
    append_json_array(out, &s.synonyms);
    out.append(",\"url\":");
    append_json_string(out, s.url.as_str());
    out.append("}");
    proof {
        assert(out@ =~= base + json_of_source(*s));
    }
}

/// Appends the indented JSON array of the texts of `items` to `out`.
fn append_json_pretty_synonyms(out: &mut String, items: &Vec<String>)
    ensures
        final(out)@ == old(out)@ + json_pretty_synonyms(items.deep_view()),
{
    let ghost base = out@;
    let ghost deep = items.deep_view();
    if items.len() == 0 {
        out.append("[]");
        return ;
    }
    out.append("[\n");
    let mut i: usize = 0;
    proof {
        assert(out@ =~= base + "[\n"@ + json_pretty_item_list(deep.subrange(0, 0)));
    }
    while i < items.len()
        invariant
            deep == items.deep_view(),
            deep.len() == items@.len(),
            i <= items@.len(),
            out@ == base + "[\n"@ + json_pretty_item_list(deep.subrange(0, i as int)),
        decreases items@.len() - i,
    {
        if i > 0 {
            out.append(",\n      ");
        } else {
            out.append("      ");
        }
        append_json_string(out, items[i].as_str());
        proof {
            assert(deep[i as int] == items@[i as int]@);
            assert(deep.subrange(0, i as int + 1).drop_last() =~= deep.subrange(0, i as int));
            assert(deep.subrange(0, i as int + 1).last() == deep[i as int]);
            assert(out@ =~= base + "[\n"@ + json_pretty_item_list(deep.subrange(0, i as int + 1)));
        }
        i += 1;
    }
    proof {
        assert(deep.subrange(0, deep.len() as int) =~= deep);
    }
    out.append("\n    ]");
    proof {
        assert(out@ =~= base + json_pretty_synonyms(deep));
    }
}

/// Appends the indented JSON rendering of `g` to `out`.
fn append_json_pretty_group(out: &mut String, g: &WordGroup)
    ensures
        final(out)@ == old(out)@ + json_pretty_group(*g),
{
    let ghost base = out@;
    match *g {
        WordGroup::Substantiv(sub) => {
            out.append("{\n    \"Substantiv\": ");
            append_json_string(out, substantiv_name_str(&sub));
            out.append("\n  }");
            proof {
                assert(out@ =~= base + json_pretty_group(*g));
            }
        },
        WordGroup::Ingen => append_json_string(out, "Ingen"),
        WordGroup::Verbum => append_json_string(out, "Verbum"),
        WordGroup::Adjektiv => append_json_string(out, "Adjektiv"),
        WordGroup::Adverbium => append_json_string(out, "Adverbium"),
    }
}

impl Word {
    /// The compact JSON rendering of this record, exactly as `json_of_word`
    /// states it.
    pub fn to_json(&self) -> (r: String)
        ensures
            r@ == json_of_word(*self),
    {
        let mut out = String::new();
        out.append("{\"source\":");
        append_json_source(&mut out, &self.source);
        out.append(",\"value\":");
        append_json_string(&mut out, self.value.as_str());
        out.append(",\"group\":");
        append_json_group(&mut out, &self.group);
        out.append(",\"value_encoded\":");
        append_json_string(&mut out, self.value_encoded.as_str());
        out.append("}");
        proof {
            assert(out@ =~= json_of_word(*self));
        }
        out
    }

    /// The human-readable JSON rendering of this record, exactly as
    /// `json_pretty_of_word` states it.
    pub fn to_json_pretty(&self) -> (r: String)
        ensures
            r@ == json_pretty_of_word(*self),
    {
        let mut out = String::new();
        out.append("{\n  \"source\": {\n    \"value\": ");
        append_json_string(&mut out, self.source.value.as_str());
        out.append(",\n    \"group\": ");
        append_json_string(&mut out, self.source.group.as_str());
        out.append(",\n    \"bending\": ");
        append_json_string(&mut out, self.source.bending.as_str());
        out.append(",\n    \"pronunciation\": ");
        append_json_string(&mut out, self.source.pronunciation.as_str());
        out.append(",\n    \"origin\": ");
        append_json_string(&mut out, self.source.origin.as_str());
        out.append(",\n    \"synonyms\": ");
        append_json_pretty_synonyms(&mut out, &self.source.synonyms);
        out.append(",\n    \"url\": ");
        append_json_string(&mut out, self.source.url.as_str());
        out.append("\n  },\n  \"value\": ");
        append_json_string(&mut out, self.value.as_str());
        out.append(",\n  \"group\": ");
        append_json_pretty_group(&mut out, &self.group);
        out.append(",\n  \"value_encoded\": ");
        append_json_string(&mut out, self.value_encoded.as_str());
        out.append("\n}");
        proof {
            assert(out@ =~= json_pretty_of_word(*self));
        }
        out
    }
}

} // verus!
