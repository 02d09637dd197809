//! Verified text helpers: character-wise string equality and whitespace
//! trimming over `Seq<char>` views.

use vstd::prelude::*;

verus! {

/// The whitespace characters that segment trimming removes.
pub open spec fn is_space_char(c: char) -> bool {
    c == ' ' || c == '\t' || c == '\n' || c == '\r'
}

/// `s` with its leading whitespace removed.
pub open spec fn trim_start(s: Seq<char>) -> Seq<char>
    decreases s.len(),
{
    if s.len() > 0 && is_space_char(s[0]) {
        trim_start(s.drop_first())
    } else {
        s
    }
}

/// `s` with its trailing whitespace removed.
pub open spec fn trim_end(s: Seq<char>) -> Seq<char>
    decreases s.len(),
{
    if s.len() > 0 && is_space_char(s.last()) {
        trim_end(s.drop_last())
    } else {
        s
    }
}

/// `s` with leading and trailing whitespace removed.
pub open spec fn spec_trim(s: Seq<char>) -> Seq<char> {
    trim_end(trim_start(s))
}

/// Character-wise equality of two string slices.
pub fn str_eq(a: &str, b: &str) -> (r: bool)
    ensures
        r == (a@ == b@),
{
    let na = a.unicode_len();
    let nb = b.unicode_len();
    if na != nb {
        return false;
    }
    let mut i: usize = 0;
    while i < na
        invariant
            na == a@.len(),
            na == b@.len(),
            i <= na,
            forall|j: int| 0 <= j < i ==> a@[j] == b@[j],
        decreases na - i,
    {
        if a.get_char(i) != b.get_char(i) {
            return false;
        }
        i += 1;
    }
    proof {
        assert(a@ =~= b@);
    }
    true
}

/// Returns the sub-slice of `s` between the character positions `from` and
/// `to`, with surrounding whitespace removed.
pub fn trim_substring<'a>(s: &'a str, from: usize, to: usize) -> (r: &'a str)
    requires
        from <= to <= s@.len(),
    ensures
        r@ == spec_trim(s@.subrange(from as int, to as int)),
{
    let ghost orig = s@.subrange(from as int, to as int);
    let mut lo = from;
    while lo < to && is_space(s.get_char(lo))
        invariant
            from <= lo <= to <= s@.len(),
            trim_start(orig) == trim_start(s@.subrange(lo as int, to as int)),
        decreases to - lo,
    {
        proof {
            let cur = s@.subrange(lo as int, to as int);
            assert(cur.drop_first() =~= s@.subrange(lo as int + 1, to as int));
        }
        lo += 1;
    }
    proof {
        assert(trim_start(orig) == s@.subrange(lo as int, to as int));
    }
    let ghost started = s@.subrange(lo as int, to as int);
    let mut hi = to;
    while hi > lo && is_space(s.get_char(hi - 1))
        invariant
            lo <= hi <= to <= s@.len(),
            trim_start(orig) == started,
            started == s@.subrange(lo as int, to as int),
            trim_end(started) == trim_end(s@.subrange(lo as int, hi as int)),
        decreases hi - lo,
    {
        proof {
            let cur = s@.subrange(lo as int, hi as int);
            assert(cur.drop_last() =~= s@.subrange(lo as int, hi as int - 1));
        }
        hi -= 1;
    }
    proof {
        assert(trim_end(started) == s@.subrange(lo as int, hi as int));
    }
    s.substring_char(lo, hi)
}

/// Whether `c` has the Unicode `Alphabetic` property; what
/// `char::is_alphabetic` decides. A function of `c` alone.
pub uninterp spec fn char_alphabetic(c: char) -> bool;

/// Relies on char::is_alphabetic: whether `c` has the Unicode `Alphabetic`
/// property. ASCII letters have it; ASCII digits and the space do not.
#[verifier::external_body]
pub fn is_alphabetic_char(c: char) -> (r: bool)
    ensures
        r == char_alphabetic(c),
        ('a' <= c && c <= 'z') ==> r,
        ('A' <= c && c <= 'Z') ==> r,
        ('0' <= c && c <= '9') ==> !r,
        c == ' ' ==> !r,
{
    c.is_alphabetic()
}

/// The alphabetic characters of `s`, in order.
pub open spec fn filter_alpha(s: Seq<char>) -> Seq<char> {
    s.filter(|c: char| char_alphabetic(c))
}

/// Keeps exactly the alphabetic characters of `s`, in order.
pub fn filter_alphabetic(s: &str) -> (r: String)
    ensures
        r@ == filter_alpha(s@),
{
    let n = s.unicode_len();
    let mut r = String::new();
    let mut i: usize = 0;
    proof {
        reveal(Seq::filter);
        assert(s@.subrange(0, 0) =~= Seq::<char>::empty());
    }
    while i < n
        invariant
            n == s@.len(),
            i <= n,
            r@ == filter_alpha(s@.subrange(0, i as int)),
        decreases n - i,
    {
        let c = s.get_char(i);
        proof {
            reveal(Seq::filter);
            assert(s@.subrange(0, i as int + 1).drop_last() =~= s@.subrange(0, i as int));
            assert(s@.subrange(0, i as int + 1).last() == s@[i as int]);
        }
        if is_alphabetic_char(c) {
            r.append(s.substring_char(i, i + 1));
            proof {
                assert(s@.subrange(i as int, i as int + 1) =~= seq![s@[i as int]]);
                assert(r@ =~= filter_alpha(s@.subrange(0, i as int)).push(s@[i as int]));
            }
        }
        i += 1;
    }
    proof {
        assert(s@.subrange(0, n as int) =~= s@);
    }
    r
}

/// Every character of a filtered text is alphabetic: no non-alphabetic
/// character — a digit, a space, punctuation — survives the filter.
pub proof fn lemma_filter_alpha_all_alphabetic(s: Seq<char>, i: int)
    requires
        0 <= i < filter_alpha(s).len(),
    ensures
        char_alphabetic(filter_alpha(s)[i]),
{
    s.lemma_filter_pred(|c: char| char_alphabetic(c), i);
}

/// Whether `c` is one of the whitespace characters that trimming removes.
pub fn is_space(c: char) -> (r: bool)
    ensures
        r == is_space_char(c),
{
    c == ' ' || c == '\t' || c == '\n' || c == '\r'
}

} // verus!
