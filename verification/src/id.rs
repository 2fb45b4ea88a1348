//! Sortable identifiers: a 128-bit value written as 22 base62 digits.

use crate::text::{differ_at, lex_lt, push_char};
use vstd::prelude::*;

verus! {

/// Number of base62 digits in an identifier.
pub const ID_LEN: usize = 22;

/// The base62 digit for a value below 62: `0-9`, then `A-Z`, then `a-z`.
pub open spec fn digit_char(d: int) -> char {
    if d < 10 {
        ((48 + d) as u8) as char
    } else if d < 36 {
        ((55 + d) as u8) as char
    } else {
        ((61 + d) as u8) as char
    }
}

/// The `len` least significant base62 digits of `n`, most significant first.
pub open spec fn encode_spec(n: nat, len: nat) -> Seq<char>
    decreases len,
{
    if len == 0 {
        Seq::empty()
    } else {
        encode_spec(n / 62, (len - 1) as nat).push(digit_char((n % 62) as int))
    }
}

/// Every character of `s` is a base62 digit.
pub open spec fn is_base62(s: Seq<char>) -> bool {
    forall|i: int| 0 <= i < s.len() ==> exists|d: int| 0 <= d < 62 && #[trigger] s[i] == digit_char(d)
}

/// A well-formed identifier: the encoding of some 128-bit value.
pub open spec fn is_id(s: Seq<char>) -> bool {
    exists|n: nat| n <= u128::MAX && s == #[trigger] encode_spec(n, ID_LEN as nat)
}

/// What remains of `n` after dropping its `len` least significant base62 digits.
pub open spec fn drop_digits(n: nat, len: nat) -> nat
    decreases len,
{
    if len == 0 {
        n
    } else {
        drop_digits(n / 62, (len - 1) as nat)
    }
}

/// An encoding has exactly as many characters as digits were asked for.
pub proof fn lemma_encode_len(n: nat, len: nat)
    ensures
        encode_spec(n, len).len() == len,
    decreases len,
{
    if len > 0 {
        lemma_encode_len(n / 62, (len - 1) as nat);
    }
}

/// An encoding holds base62 digits only.
pub proof fn lemma_encode_base62(n: nat, len: nat)
    ensures
        is_base62(encode_spec(n, len)),
    decreases len,
{
    if len > 0 {
        lemma_encode_base62(n / 62, (len - 1) as nat);
        lemma_encode_len(n / 62, (len - 1) as nat);
        let prefix = encode_spec(n / 62, (len - 1) as nat);
        let s = encode_spec(n, len);
        assert forall|i: int| 0 <= i < s.len() implies exists|d: int|
            0 <= d < 62 && #[trigger] s[i] == digit_char(d) by {
            if i < len - 1 {
                assert(s[i] == prefix[i]);
            } else {
                assert(s[i] == digit_char((n % 62) as int));
            }
        }
    }
}

/// Larger digits are written with larger characters.
pub proof fn lemma_digit_char_monotonic(a: int, b: int)
    requires
        0 <= a < b < 62,
    ensures
        (digit_char(a) as int) < (digit_char(b) as int),
{
}

/// Among values that fit in `len` digits, the encoding preserves order.
pub proof fn lemma_encode_monotonic(a: nat, b: nat, len: nat)
    requires
        a < b,
        drop_digits(b, len) == 0,
    ensures
        lex_lt(encode_spec(a, len), encode_spec(b, len)),
    decreases len,
{
    if len > 0 {
        let pa = encode_spec(a / 62, (len - 1) as nat);
        let pb = encode_spec(b / 62, (len - 1) as nat);
        let ea = encode_spec(a, len);
        let eb = encode_spec(b, len);
        lemma_encode_len(a / 62, (len - 1) as nat);
        lemma_encode_len(b / 62, (len - 1) as nat);
        if a / 62 < b / 62 {
            lemma_encode_monotonic(a / 62, b / 62, (len - 1) as nat);
            let k = choose|k: int| differ_at(pa, pb, k);
            assert(ea.subrange(0, k) =~= pa.subrange(0, k));
            assert(eb.subrange(0, k) =~= pb.subrange(0, k));
            assert(ea[k] == pa[k] && eb[k] == pb[k]);
            assert(differ_at(ea, eb, k));
        } else {
            assert(a / 62 == b / 62);
            assert(a % 62 < b % 62);
            lemma_digit_char_monotonic((a % 62) as int, (b % 62) as int);
            let k = len - 1;
            assert(ea.subrange(0, k) =~= pa);
            assert(eb.subrange(0, k) =~= pb);
            assert(differ_at(ea, eb, k));
        }
    }
}

proof fn lemma_drop_digits_monotonic(x: nat, c: nat, len: nat)
    requires
        x <= c,
    ensures
        drop_digits(x, len) <= drop_digits(c, len),
    decreases len,
{
    if len > 0 {
        lemma_drop_digits_monotonic(x / 62, c / 62, (len - 1) as nat);
    }
}

/// Every 128-bit value fits in 22 base62 digits.
pub proof fn lemma_u128_fits(n: nat)
    requires
        n <= u128::MAX,
    ensures
        drop_digits(n, ID_LEN as nat) == 0,
{
    lemma_drop_digits_monotonic(n, u128::MAX as nat, 22);
    reveal_with_fuel(drop_digits, 23);
    assert(drop_digits(u128::MAX as nat, 22) == 0);
}

/// Identifiers made from increasing values are lexicographically ascending.
pub proof fn lemma_id_order(a: u128, b: u128)
    requires
        a < b,
    ensures
        lex_lt(encode_spec(a as nat, ID_LEN as nat), encode_spec(b as nat, ID_LEN as nat)),
{
    lemma_u128_fits(b as nat);
    lemma_encode_monotonic(a as nat, b as nat, ID_LEN as nat);
}

fn digit(d: u8) -> (c: char)
    requires
        d < 62,
    ensures
        c == digit_char(d as int),
{
    if d < 10 {
        (48 + d) as char
    } else if d < 36 {
        (55 + d) as char
    } else {
        (61 + d) as char
    }
}

fn encode_into(n: u128, len: usize, out: &mut String)
    ensures
        final(out)@ == old(out)@ + encode_spec(n as nat, len as nat),
    decreases len,
{
    if len > 0 {
        encode_into(n / 62, len - 1, out);
        push_char(out, digit((n % 62) as u8));
    }
}

/// Writes `n` as exactly 22 base62 digits, zero-padded on the left.
pub fn encode_base62(n: u128) -> (s: String)
    ensures
        s@ == encode_spec(n as nat, ID_LEN as nat),
{
    let mut out = String::new();
    encode_into(n, ID_LEN, &mut out);
    out
}

/// The 128-bit value of a fresh time-ordered identifier (`uuid::Uuid::now_v7`,
/// read with `Uuid::as_u128`). The value depends on the clock and on random
/// bits, so nothing is claimed of it.
#[verifier::external_body]
fn fresh_value() -> u128 {
    uuid::Uuid::now_v7().as_u128()
}

/// A fresh identifier: 22 base62 characters that encode a 128-bit value.
pub fn new_id() -> (s: String)
    ensures
        is_id(s@),
        s@.len() == ID_LEN,
        is_base62(s@),
{
    let n = fresh_value();
    proof {
        lemma_encode_len(n as nat, ID_LEN as nat);
        lemma_encode_base62(n as nat, ID_LEN as nat);
    }
    encode_base62(n)
}

} // verus!
