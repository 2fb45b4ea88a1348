//! Small string helpers shared by the other modules.

use vstd::prelude::*;
use vstd::std_specs::iter::IteratorSpec;

verus! {

/// `a` and `b` agree before position `k` and `a` has the smaller character there.
pub open spec fn differ_at(a: Seq<char>, b: Seq<char>, k: int) -> bool {
    &&& 0 <= k < a.len()
    &&& k < b.len()
    &&& a.subrange(0, k) =~= b.subrange(0, k)
    &&& (a[k] as int) < (b[k] as int)
}

/// Strict lexicographic order on strings, by code point.
pub open spec fn lex_lt(a: Seq<char>, b: Seq<char>) -> bool {
    ||| (a.len() < b.len() && a =~= b.subrange(0, a.len() as int))
    ||| exists|k: int| differ_at(a, b, k)
}

proof fn lemma_lex_from(a: Seq<char>, b: Seq<char>, k: int)
    requires
        0 <= k <= a.len(),
        k <= b.len(),
        a.subrange(0, k) =~= b.subrange(0, k),
    ensures
        lex_lt(a, b) || a == b || lex_lt(b, a),
    decreases a.len() - k,
{
    if k == a.len() || k == b.len() {
        if a.len() == b.len() {
            assert(a =~= a.subrange(0, k));
            assert(b =~= b.subrange(0, k));
        } else if a.len() < b.len() {
            assert(a =~= a.subrange(0, k));
        } else {
            assert(b =~= b.subrange(0, k));
        }
    } else if a[k] == b[k] {
        let a1 = a.subrange(0, k + 1);
        let b1 = b.subrange(0, k + 1);
        assert forall|i: int| 0 <= i < k + 1 implies #[trigger] a1[i] == b1[i] by {
            if i < k {
                assert(a.subrange(0, k)[i] == b.subrange(0, k)[i]);
            }
        }
        assert(a1 =~= b1);
        lemma_lex_from(a, b, k + 1);
    } else if (a[k] as int) < (b[k] as int) {
        assert(differ_at(a, b, k));
    } else {
        assert(differ_at(b, a, k));
    }
}

/// Of two strings, one is smaller or they are equal.
pub proof fn lemma_lex_total(a: Seq<char>, b: Seq<char>)
    ensures
        lex_lt(a, b) || a == b || lex_lt(b, a),
{
    lemma_lex_from(a, b, 0);
}

/// The order on strings is transitive.
pub proof fn lemma_lex_transitive(a: Seq<char>, b: Seq<char>, c: Seq<char>)
    requires
        lex_lt(a, b),
        lex_lt(b, c),
    ensures
        lex_lt(a, c),
{
    let ab_prefix = a.len() < b.len() && a =~= b.subrange(0, a.len() as int);
    let bc_prefix = b.len() < c.len() && b =~= c.subrange(0, b.len() as int);
    if ab_prefix && bc_prefix {
        assert(a =~= c.subrange(0, a.len() as int));
    } else if ab_prefix {
        let k = choose|k: int| differ_at(b, c, k);
        if k < a.len() {
            assert(a.subrange(0, k) =~= b.subrange(0, k));
            assert(differ_at(a, c, k));
        } else {
            assert forall|i: int| 0 <= i < a.len() implies #[trigger] a[i] == c[i] by {
                assert(b.subrange(0, k)[i] == c.subrange(0, k)[i]);
            }
            assert(a =~= c.subrange(0, a.len() as int));
        }
    } else if bc_prefix {
        let k = choose|k: int| differ_at(a, b, k);
        assert(a.subrange(0, k) =~= c.subrange(0, k));
        assert(differ_at(a, c, k));
    } else {
        let k1 = choose|k: int| differ_at(a, b, k);
        let k2 = choose|k: int| differ_at(b, c, k);
        let k = if k1 <= k2 {
            k1
        } else {
            k2
        };
        let ak = a.subrange(0, k);
        let ck = c.subrange(0, k);
        assert forall|i: int| 0 <= i < k implies #[trigger] ak[i] == ck[i] by {
            assert(a.subrange(0, k1)[i] == b.subrange(0, k1)[i]);
            assert(b.subrange(0, k2)[i] == c.subrange(0, k2)[i]);
        }
        assert(ak =~= ck);
        if k1 < k2 {
            assert(b.subrange(0, k2)[k1] == c.subrange(0, k2)[k1]);
        } else if k2 < k1 {
            assert(a.subrange(0, k1)[k2] == b.subrange(0, k1)[k2]);
        }
        assert(differ_at(a, c, k));
    }
}

/// The order on strings is a strict weak order.
pub proof fn lemma_lex_strict_weak(a: Seq<char>, b: Seq<char>, c: Seq<char>)
    ensures
        !lex_lt(a, a),
        lex_lt(a, b) && lex_lt(b, c) ==> lex_lt(a, c),
        !lex_lt(a, b) && !lex_lt(b, c) ==> !lex_lt(a, c),
{
    if lex_lt(a, b) && lex_lt(b, c) {
        lemma_lex_transitive(a, b, c);
    }
    if !lex_lt(a, b) && !lex_lt(b, c) && lex_lt(a, c) {
        lemma_lex_total(a, b);
        lemma_lex_total(b, c);
        if a == b {
        } else if b == c {
        } else {
            lemma_lex_transitive(c, b, a);
            lemma_lex_transitive(c, a, c);
        }
    }
}

/// `needle` occurs in `haystack` at position `i`.
pub open spec fn occurs_at(haystack: Seq<char>, needle: Seq<char>, i: int) -> bool {
    &&& 0 <= i
    &&& i + needle.len() <= haystack.len()
    &&& haystack.subrange(i, i + needle.len()) =~= needle
}

/// `needle` occurs somewhere in `haystack`.
pub open spec fn has_substring(haystack: Seq<char>, needle: Seq<char>) -> bool {
    exists|i: int| occurs_at(haystack, needle, i)
}

/// Appends one character to a string (`String::push`).
#[verifier::external_body]
pub(crate) fn push_char(s: &mut String, c: char)
    ensures
        final(s)@ == old(s)@.push(c),
{
    s.push(c);
}

/// Equality of string slices (`str::eq`): the same characters in the same order.
#[verifier::external_body]
pub(crate) fn str_eq(a: &str, b: &str) -> (r: bool)
    ensures
        r == (a@ == b@),
{
    a == b
}

/// Order of string slices (`str::lt`): std orders strings lexicographically
/// by their bytes, which is the order of their code points.
#[verifier::external_body]
pub(crate) fn str_lt(a: &str, b: &str) -> (r: bool)
    ensures
        r == lex_lt(a@, b@),
{
    a < b
}

/// Substring search (`str::contains` with a string pattern).
#[verifier::external_body]
pub(crate) fn str_contains(haystack: &str, needle: &str) -> (r: bool)
    ensures
        r == has_substring(haystack@, needle@),
{
    haystack.contains(needle)
}

/// How many line feeds a text holds.
pub open spec fn newline_count(text: Seq<char>) -> nat
    decreases text.len(),
{
    if text.len() == 0 {
        0
    } else {
        newline_count(text.drop_last()) + if text.last() == '\n' {
            1nat
        } else {
            0nat
        }
    }
}

/// How many lines a text has: one for each line feed, and one more for
/// what follows the last line feed, if anything does.
pub open spec fn line_count_spec(text: Seq<char>) -> nat {
    newline_count(text) + if text.len() > 0 && text.last() != '\n' {
        1nat
    } else {
        0nat
    }
}

/// One more character leaves the line feeds as they were, or adds one.
pub proof fn lemma_newline_count_push(text: Seq<char>, c: char)
    ensures
        newline_count(text.push(c)) == newline_count(text) + if c == '\n' {
            1nat
        } else {
            0nat
        },
        newline_count(text) <= text.len(),
    decreases text.len(),
{
    assert(text.push(c).drop_last() =~= text);
    if text.len() > 0 {
        lemma_newline_count_push(text.drop_last(), text.last());
        assert(text.drop_last().push(text.last()) =~= text);
    }
}

/// Counts the lines of a text: lines end at a line feed, and a line feed
/// at the very end starts no further line.
pub fn count_lines(text: &str) -> (n: usize)
    ensures
        n == line_count_spec(text@),
{
    let len = text.unicode_len();
    let mut chars = text.chars();
    let mut feeds: usize = 0;
    let mut open = false;
    let ghost mut seen: Seq<char> = Seq::empty();
    proof {
        assert(seen + chars.remaining() =~= text@);
    }
    loop
        invariant
            seen + chars.remaining() == text@,
            len == text@.len(),
            feeds == newline_count(seen),
            feeds + (if open { 1nat } else { 0nat }) <= seen.len(),
            open == (seen.len() > 0 && seen.last() != '\n'),
            chars.obeys_prophetic_iter_laws(),
        ensures
            seen == text@,
            len == text@.len(),
            feeds == newline_count(seen),
            feeds + (if open { 1nat } else { 0nat }) <= seen.len(),
            open == (seen.len() > 0 && seen.last() != '\n'),
        decreases len - seen.len(),
    {
        let ghost before = chars;
        match chars.next() {
            None => {
                proof {
                    assert(before.remaining().len() == 0);
                    assert(seen =~= text@);
                }
                break ;
            },
            Some(c) => {
                proof {
                    lemma_newline_count_push(seen, c);
                    assert(seen.push(c) + chars.remaining() =~= seen + before.remaining());
                    seen = seen.push(c);
                }
                if c == '\n' {
                    feeds += 1;
                    open = false;
                } else {
                    open = true;
                }
            },
        }
    }
    if open {
        feeds + 1
    } else {
        feeds
    }
}

/// `s` without white space at its ends, as `str::trim` leaves it.
pub uninterp spec fn trimmed(s: Seq<char>) -> Seq<char>;

/// Removes white space at both ends (`str::trim`). What comes back
/// depends on the text alone.
#[verifier::external_body]
pub(crate) fn trim(s: &str) -> (r: String)
    ensures
        r@ == trimmed(s@),
{
    s.trim().to_string()
}

/// `prefix` stands at the start of `s`.
pub open spec fn is_prefix(s: Seq<char>, prefix: Seq<char>) -> bool {
    prefix.len() <= s.len() && s.subrange(0, prefix.len() as int) =~= prefix
}

/// Prefix test (`str::starts_with` with a string pattern).
#[verifier::external_body]
pub(crate) fn str_starts_with(s: &str, prefix: &str) -> (r: bool)
    ensures
        r == is_prefix(s@, prefix@),
{
    s.starts_with(prefix)
}

/// Whether the path `path` lies at or below the path `base`, component
/// by component, as `Path::starts_with` decides it.
pub uninterp spec fn path_within(path: Seq<char>, base: Seq<char>) -> bool;

/// Path prefix test (`std::path::Path::starts_with`): whole components
/// are compared. What comes back depends on the two paths alone.
#[verifier::external_body]
pub(crate) fn path_starts_with(path: &str, base: &str) -> (r: bool)
    ensures
        r == path_within(path@, base@),
{
    std::path::Path::new(path).starts_with(base)
}

/// `s` followed by spaces up to `width` characters; `s` itself where it
/// is that long already.
pub open spec fn padded(s: Seq<char>, width: int) -> Seq<char> {
    if s.len() >= width {
        s
    } else {
        s + Seq::new((width - s.len()) as nat, |i: int| ' ')
    }
}

/// Pads a text on the right.
pub fn pad(s: &str, width: usize) -> (r: String)
    ensures
        r@ == padded(s@, width as int),
{
    let mut out = String::from_str(s);
    let n = s.unicode_len();
    if n >= width {
        return out;
    }
    assert(out@ =~= s@ + Seq::new(0nat, |k: int| ' '));
    let mut i: usize = n;
    while i < width
        invariant
            n <= i <= width,
            n == s@.len(),
            out@ == s@ + Seq::new((i - n) as nat, |k: int| ' '),
        decreases width - i,
    {
        push_char(&mut out, ' ');
        assert(out@ =~= s@ + Seq::new((i + 1 - n) as nat, |k: int| ' '));
        i += 1;
    }
    out
}

/// A copy of an optional string.
pub fn clone_opt(s: &Option<String>) -> (r: Option<String>)
    ensures
        r.deep_view() == s.deep_view(),
{
    match s {
        Some(v) => Some(v.clone()),
        None => None,
    }
}

/// Equality of an optional string with a string slice.
pub fn opt_is(s: &Option<String>, t: &str) -> (r: bool)
    ensures
        r == (s.deep_view() == Some(t@)),
{
    match s {
        Some(v) => str_eq(v.as_str(), t),
        None => false,
    }
}

/// The decimal digits of `n`, most significant first; empty for zero.
pub open spec fn digits_spec(n: nat) -> Seq<char>
    decreases n,
{
    if n == 0 {
        Seq::empty()
    } else {
        digits_spec(n / 10).push(((48 + n % 10) as u8) as char)
    }
}

/// Decimal notation of an integer, with a leading `-` for negative numbers.
pub open spec fn decimal_spec(n: int) -> Seq<char> {
    if n == 0 {
        seq!['0']
    } else if n > 0 {
        digits_spec(n as nat)
    } else {
        seq!['-'] + digits_spec((-n) as nat)
    }
}

fn push_digits(n: u128, out: &mut String)
    ensures
        final(out)@ == old(out)@ + digits_spec(n as nat),
    decreases n,
{
    if n > 0 {
        push_digits(n / 10, out);
        push_char(out, (48 + (n % 10) as u8) as char);
    }
}

/// Writes an integer in decimal notation.
pub fn decimal(n: i128) -> (s: String)
    ensures
        s@ == decimal_spec(n as int),
{
    let mut out = String::new();
    let wide: i128 = n;
    if wide == 0 {
        push_char(&mut out, '0');
    } else if wide > 0 {
        push_digits(wide as u128, &mut out);
    } else {
        push_char(&mut out, '-');
        let magnitude: u128 = if wide == i128::MIN {
            170141183460469231731687303715884105728u128
        } else {
            (-wide) as u128
        };
        push_digits(magnitude, &mut out);
    }
    assert(out@ =~= decimal_spec(n as int));
    out
}

/// `s` with every occurrence of `from` replaced by `to`: occurrences are
/// found from left to right and do not overlap.
pub open spec fn replace_spec(s: Seq<char>, from: Seq<char>, to: Seq<char>) -> Seq<char>
    decreases s.len(),
{
    if from.len() == 0 || s.len() < from.len() {
        s
    } else if s.subrange(0, from.len() as int) == from {
        to + replace_spec(s.subrange(from.len() as int, s.len() as int), from, to)
    } else {
        seq![s[0]] + replace_spec(s.subrange(1, s.len() as int), from, to)
    }
}

/// Replaces every occurrence of a pattern (`str::replace` with a string
/// pattern): matches are taken from left to right and do not overlap.
#[verifier::external_body]
pub(crate) fn str_replace(s: &str, from: &str, to: &str) -> (r: String)
    requires
        from@.len() > 0,
    ensures
        r@ == replace_spec(s@, from@, to@),
{
    s.replace(from, to)
}

} // verus!
