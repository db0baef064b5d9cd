//! Decimal rendering of cycle amounts, with `_` between groups of three digits.
use vstd::prelude::*;

use crate::text::push_char;

verus! {

/// The character of a decimal digit `d` (`0 <= d < 10`).
pub open spec fn digit_char(d: nat) -> char {
    (48 + d) as char
}

/// The decimal representation of `v`, most significant digit first,
/// without leading zeros (`0` is written `"0"`).
pub open spec fn decimal(v: nat) -> Seq<char>
    decreases v,
{
    if v < 10 {
        seq![digit_char(v)]
    } else {
        decimal(v / 10).push(digit_char(v % 10))
    }
}

/// Whether `c` is one of `0` .. `9`.
pub open spec fn is_digit(c: char) -> bool {
    '0' <= c && c <= '9'
}

/// Whether every character of `s` is a decimal digit.
pub open spec fn all_digits(s: Seq<char>) -> bool {
    forall|i: int| 0 <= i < s.len() ==> is_digit(#[trigger] s[i])
}

/// `s` with `_` put between groups of three characters, counted from the
/// right: the last three stay together, then the three before them, and so
/// on; the leftmost group has one to three characters.
pub open spec fn group_thousands(s: Seq<char>) -> Seq<char>
    decreases s.len(),
{
    if s.len() <= 3 {
        s
    } else {
        group_thousands(s.take(s.len() - 3)) + seq!['_'] + s.skip(s.len() - 3)
    }
}

/// The text `fmt_cycles` gives for `v`.
pub open spec fn cycles_text(v: nat) -> Seq<char> {
    group_thousands(decimal(v))
}

/// Whether `c` is not the group separator.
pub open spec fn not_separator(c: char) -> bool {
    c != '_'
}

/// `s` with every `_` left out.
pub open spec fn strip_separators(s: Seq<char>) -> Seq<char> {
    s.filter(|c: char| not_separator(c))
}

/// The first `i` characters of `s` processed left to right: before the
/// character at `j > 0`, a `_` goes in when the number of characters from
/// `j` to the end of `s` is a multiple of three.
spec fn grouped_prefix(s: Seq<char>, i: nat) -> Seq<char>
    decreases i,
{
    if i == 0 {
        Seq::empty()
    } else {
        let j = (i - 1) as nat;
        let sep: Seq<char> = if j > 0 && (s.len() - j) % 3 == 0 {
            seq!['_']
        } else {
            Seq::empty()
        };
        grouped_prefix(s, j) + sep + seq![s[j as int]]
    }
}

proof fn lemma_grouped_prefix_of_take(s: Seq<char>, k: nat, i: nat)
    requires
        k <= s.len(),
        (s.len() - k) % 3 == 0,
        i <= k,
    ensures
        grouped_prefix(s, i) == grouped_prefix(s.take(k as int), i),
    decreases i,
{
    if i > 0 {
        lemma_grouped_prefix_of_take(s, k, (i - 1) as nat);
        let j = (i - 1) as int;
        assert((s.len() - j) % 3 == (k - j) % 3) by (nonlinear_arith)
            requires
                (s.len() - k) % 3 == 0,
                k <= s.len(),
                j < k,
        ;
    }
}

proof fn lemma_grouped_prefix_is_grouping(s: Seq<char>)
    ensures
        grouped_prefix(s, s.len()) == group_thousands(s),
    decreases s.len(),
{
    let n = s.len();
    if n <= 3 {
        reveal_with_fuel(grouped_prefix, 4);
        if n == 0 {
            assert(grouped_prefix(s, 0) =~= s);
        } else if n == 1 {
            assert(grouped_prefix(s, 1) =~= s);
        } else if n == 2 {
            assert(grouped_prefix(s, 2) =~= s);
        } else {
            assert(grouped_prefix(s, 3) =~= s);
        }
    } else {
        let k = (n - 3) as nat;
        let t = s.take(k as int);
        lemma_grouped_prefix_of_take(s, k, k);
        lemma_grouped_prefix_is_grouping(t);
        reveal_with_fuel(grouped_prefix, 4);
        assert(grouped_prefix(s, n) == grouped_prefix(s, k) + seq!['_'] + seq![s[k as int]]
            + seq![s[k as int + 1]] + seq![s[k as int + 2]]);
        assert(grouped_prefix(s, n) =~= group_thousands(t) + seq!['_'] + s.skip(k as int));
    }
}

proof fn lemma_strip_all_kept(s: Seq<char>)
    requires
        forall|i: int| 0 <= i < s.len() ==> not_separator(#[trigger] s[i]),
    ensures
        strip_separators(s) == s,
    decreases s.len(),
{
    reveal(Seq::filter);
    if s.len() > 0 {
        lemma_strip_all_kept(s.drop_last());
        assert(s.drop_last().push(s.last()) =~= s);
    }
}

/// Leaving out the `_` separators of a grouped string of digits gives the
/// digits back.
pub proof fn lemma_strip_group_thousands(s: Seq<char>)
    requires
        all_digits(s),
    ensures
        strip_separators(group_thousands(s)) == s,
    decreases s.len(),
{
    broadcast use Seq::filter_distributes_over_add;

    lemma_strip_all_kept(s);
    if s.len() > 3 {
        let t = s.take(s.len() - 3);
        let u = s.skip(s.len() - 3);
        assert(all_digits(t));
        lemma_strip_group_thousands(t);
        lemma_strip_all_kept(u);
        reveal(Seq::filter);
        assert(strip_separators(seq!['_']) =~= Seq::<char>::empty()) by {
            reveal_with_fuel(Seq::filter, 2);
        }
        assert(t + u =~= s);
    }
}

/// Where the separators of a grouped string stand: one before every full
/// group of three counted from the right, so that reading from the right
/// every fourth character is `_` and no other one is; the length grows by
/// one per full group beyond the first.
pub proof fn lemma_group_thousands_shape(s: Seq<char>)
    requires
        s.len() >= 1,
        all_digits(s),
    ensures
        group_thousands(s).len() == s.len() + (s.len() - 1) / 3,
        forall|j: int|
            0 <= j < group_thousands(s).len() ==> ((#[trigger] group_thousands(s)[j] == '_') <==> (
            group_thousands(s).len() - j) % 4 == 0),
    decreases s.len(),
{
    let g = group_thousands(s);
    if s.len() <= 3 {
        assert forall|j: int| 0 <= j < g.len() implies ((#[trigger] g[j] == '_') <==> (g.len() - j)
            % 4 == 0) by {
            assert(is_digit(s[j]));
        }
    } else {
        let t = s.take(s.len() - 3);
        let u = s.skip(s.len() - 3);
        lemma_group_thousands_shape(t);
        let h = group_thousands(t);
        assert(g == h + seq!['_'] + u);
        assert(g.len() == s.len() + (s.len() - 1) / 3) by (nonlinear_arith)
            requires
                g.len() == h.len() + 4,
                h.len() == (s.len() - 3) + (s.len() - 3 - 1) / 3,
                s.len() > 3,
        ;
        assert forall|j: int| 0 <= j < g.len() implies ((#[trigger] g[j] == '_') <==> (g.len() - j)
            % 4 == 0) by {
            if j < h.len() {
                assert(g[j] == h[j]);
                assert((g.len() - j) % 4 == (h.len() - j) % 4) by (nonlinear_arith)
                    requires
                        g.len() == h.len() + 4,
                ;
            } else if j == h.len() {
            } else {
                assert(g[j] == u[j - h.len() - 1]);
                assert(is_digit(s[s.len() - 3 + (j - h.len() - 1)]));
            }
        }
    }
}

/// Every character of `decimal(v)` is a digit, and there is at least one.
pub proof fn lemma_decimal_digits(v: nat)
    ensures
        decimal(v).len() >= 1,
        all_digits(decimal(v)),
    decreases v,
{
    if v >= 10 {
        lemma_decimal_digits(v / 10);
    }
}

/// The digit character of `d`, as an executable value.
fn digit_to_char(d: u8) -> (c: char)
    requires
        d < 10,
    ensures
        c == digit_char(d as nat),
{
    (48u8 + d) as char
}

/// Appends the decimal digits of `v` to `out`.
pub fn push_decimal_u128(out: &mut Vec<char>, v: u128)
    ensures
        final(out)@ == old(out)@ + decimal(v as nat),
    decreases v,
{
    if v >= 10 {
        push_decimal_u128(out, v / 10);
    }
    let d: u8 = (v % 10) as u8;
    out.push(digit_to_char(d));
    proof {
        if v >= 10 {
            assert(decimal(v as nat) == decimal((v / 10) as nat).push(digit_char((v % 10) as nat)));
        }
    }
    assert(out@ =~= old(out)@ + decimal(v as nat));
}

/// The decimal digits of `v` as a `String`.
pub fn decimal_string(v: u128) -> (res: String)
    ensures
        res@ == decimal(v as nat),
{
    let mut digits: Vec<char> = Vec::new();
    push_decimal_u128(&mut digits, v);
    assert(digits@ =~= decimal(v as nat));
    let mut res = String::new();
    let mut i: usize = 0;
    while i < digits.len()
        invariant
            i <= digits@.len(),
            res@ == digits@.take(i as int),
        decreases digits.len() - i,
    {
        push_char(&mut res, digits[i]);
        i = i + 1;
        assert(res@ =~= digits@.take(i as int));
    }
    assert(digits@.take(i as int) =~= digits@);
    res
}

/// Formats a cycle amount in decimal with `_` between groups of three
/// digits, counted from the right (`1307692307692` is `1_307_692_307_692`).
pub fn fmt_cycles(v: u128) -> (res: String)
    ensures
        res@ == cycles_text(v as nat),
{
    let mut s: Vec<char> = Vec::new();
    push_decimal_u128(&mut s, v);
    assert(s@ =~= decimal(v as nat));
    let mut result = String::new();
    let len = s.len();
    let mut i: usize = 0;
    while i < len
        invariant
            len == s@.len(),
            i <= len,
            result@ == grouped_prefix(s@, i as nat),
        decreases len - i,
    {
        if i > 0 && (len - i) % 3 == 0 {
            push_char(&mut result, '_');
        }
        push_char(&mut result, s[i]);
        i = i + 1;
        assert(result@ =~= grouped_prefix(s@, i as nat));
    }
    proof {
        lemma_grouped_prefix_is_grouping(s@);
    }
    result
}

} // verus!

verus! {

/// The number that the decimal digits `s` denote.
pub open spec fn digits_value(s: Seq<char>) -> nat
    decreases s.len(),
{
    if s.len() == 0 {
        0
    } else {
        digits_value(s.drop_last()) * 10 + ((s.last() as int) - 48) as nat
    }
}

/// `decimal(v)` denotes `v` and has no leading zero.
pub proof fn lemma_decimal_value(v: nat)
    ensures
        digits_value(decimal(v)) == v,
        v > 0 ==> decimal(v)[0] != '0',
    decreases v,
{
    if v >= 10 {
        lemma_decimal_value(v / 10);
        let d = decimal(v);
        assert(d.drop_last() == decimal(v / 10));
        assert(d.last() == digit_char(v % 10));
        assert((digit_char(v % 10) as int) == 48 + v % 10);
        assert(v == (v / 10) * 10 + v % 10);
        lemma_decimal_digits(v / 10);
        assert(d[0] == decimal(v / 10)[0]);
        assert(digits_value(d) == digits_value(d.drop_last()) * 10 + ((d.last() as int) - 48) as nat);
    } else {
        assert((digit_char(v) as int) == 48 + v);
        let d = decimal(v);
        assert(d.drop_last() =~= Seq::<char>::empty());
        assert(digits_value(d.drop_last()) == 0);
        assert(digits_value(d) == digits_value(d.drop_last()) * 10 + ((d.last() as int) - 48) as nat);
    }
}

/// What `fmt_cycles` writes for an amount `v`: leaving out the `_`
/// separators gives the decimal digits of `v` (no leading zero), which
/// denote `v`; reading from the right, every fourth character is `_` and no
/// other one is, so each group but the leftmost has three digits.
pub proof fn law_cycles_text(v: nat)
    ensures
        strip_separators(cycles_text(v)) == decimal(v),
        digits_value(strip_separators(cycles_text(v))) == v,
        v > 0 ==> decimal(v)[0] != '0',
        cycles_text(v).len() == decimal(v).len() + (decimal(v).len() - 1) / 3,
        forall|j: int|
            0 <= j < cycles_text(v).len() ==> ((#[trigger] cycles_text(v)[j] == '_') <==> (
            cycles_text(v).len() - j) % 4 == 0),
{
    lemma_decimal_digits(v);
    lemma_strip_group_thousands(decimal(v));
    lemma_group_thousands_shape(decimal(v));
    lemma_decimal_value(v);
}

/// Different amounts are written differently.
pub proof fn law_cycles_text_injective(a: nat, b: nat)
    ensures
        cycles_text(a) == cycles_text(b) ==> a == b,
{
    law_cycles_text(a);
    law_cycles_text(b);
}

/// The three digits of `r < 1000`, with leading zeros (`7` is `007`).
pub open spec fn three_digits(r: nat) -> Seq<char> {
    seq![digit_char(r / 100), digit_char((r / 10) % 10), digit_char(r % 10)]
}

proof fn lemma_decimal_short(v: nat)
    requires
        v < 1000,
    ensures
        decimal(v).len() <= 3,
{
    if v >= 10 {
        let a = v / 10;
        assert(decimal(v).len() == decimal(a).len() + 1);
        if a >= 10 {
            let b = a / 10;
            assert(b < 10);
            assert(decimal(a).len() == decimal(b).len() + 1);
            assert(decimal(b).len() == 1);
        } else {
            assert(decimal(a).len() == 1);
        }
    }
}

proof fn lemma_decimal_split_thousands(v: nat)
    requires
        v >= 1000,
    ensures
        decimal(v) == decimal(v / 1000) + three_digits(v % 1000),
{
    let a = v / 10;
    let b = a / 10;
    assert(b / 10 == v / 1000 && b % 10 == (v % 1000) / 100 && a % 10 == ((v % 1000) / 10) % 10
        && v % 10 == (v % 1000) % 10 && a >= 10 && b >= 10) by (nonlinear_arith)
        requires
            a == v / 10,
            b == a / 10,
            v >= 1000,
    {
        assert(v == 1000 * (v / 1000) + v % 1000);
        assert(v % 1000 < 1000);
    }
    assert(decimal(v) == decimal(a).push(digit_char(v % 10)));
    assert(decimal(a) == decimal(b).push(digit_char(a % 10)));
    assert(decimal(b) == decimal(b / 10).push(digit_char(b % 10)));
    assert(decimal(v) =~= decimal(v / 1000) + three_digits(v % 1000));
}

/// `fmt_cycles` from the right: an amount below 1000 is written as its
/// decimal digits; a larger one is the text of `v / 1000`, then `_`, then
/// the last three digits of `v` (with leading zeros).
pub proof fn law_cycles_text_by_thousands(v: nat)
    ensures
        v < 1000 ==> cycles_text(v) == decimal(v),
        v >= 1000 ==> cycles_text(v) == cycles_text(v / 1000) + seq!['_'] + three_digits(v % 1000),
{
    if v < 1000 {
        lemma_decimal_short(v);
    } else {
        lemma_decimal_split_thousands(v);
        lemma_decimal_digits(v / 1000);
        let d = decimal(v);
        let k = decimal(v / 1000).len();
        assert(d.len() == k + 3);
        assert(d.take(d.len() - 3) =~= decimal(v / 1000));
        assert(d.skip(d.len() - 3) =~= three_digits(v % 1000));
    }
}

} // verus!
