//! Hexadecimal rendering of unsigned integers, and the reading that undoes it.
use vstd::prelude::*;

verus! {

/// The sixteen digits, in order of their value.
pub open spec fn hex_digit_table() -> Seq<char> {
    seq!['0', '1', '2', '3', '4', '5', '6', '7', '8', '9', 'A', 'B', 'C', 'D', 'E', 'F']
}

/// The uppercase digit of value `d` (for `d < 16`).
pub open spec fn hex_digit_char(d: nat) -> char {
    hex_digit_table()[d as int]
}

/// The digits of `v` in base 16, most significant first, without leading zeros
/// (zero is the single digit `0`).
pub open spec fn hex_digits(v: nat) -> Seq<char>
    decreases v,
{
    if v < 16 {
        seq![hex_digit_char(v)]
    } else {
        hex_digits(v / 16).push(hex_digit_char(v % 16))
    }
}

/// The literal for `v`: the prefix `0x`, then its uppercase digits.
pub open spec fn hex_literal(v: nat) -> Seq<char> {
    seq!['0', 'x'] + hex_digits(v)
}

/// Whether `c` is a digit of base 16 as a reader of the literal accepts it,
/// in upper case.
pub open spec fn is_upper_hex_char(c: char) -> bool {
    ('0' <= c && c <= '9') || ('A' <= c && c <= 'F')
}

/// The value of one digit, from its character code.
pub open spec fn hex_char_value(c: char) -> nat {
    if '0' <= c && c <= '9' {
        (c as int - '0' as int) as nat
    } else if 'A' <= c && c <= 'F' {
        (c as int - 'A' as int + 10) as nat
    } else if 'a' <= c && c <= 'f' {
        (c as int - 'a' as int + 10) as nat
    } else {
        0
    }
}

/// The value that a reader gives to a run of digits in base 16.
pub open spec fn hex_value(s: Seq<char>) -> nat
    decreases s.len(),
{
    if s.len() == 0 {
        0
    } else {
        hex_value(s.drop_last()) * 16 + hex_char_value(s.last())
    }
}

/// The value that a reader gives to a literal `0x...`, if it is one.
pub open spec fn parse_hex_literal(s: Seq<char>) -> Option<nat> {
    if s.len() > 2 && s[0] == '0' && (s[1] == 'x' || s[1] == 'X') && (forall|i: int|
        2 <= i < s.len() ==> #[trigger] is_upper_hex_char(s[i])) {
        Some(hex_value(s.subrange(2, s.len() as int)))
    } else {
        None
    }
}

proof fn lemma_digit_char(d: nat)
    requires
        d < 16,
    ensures
        is_upper_hex_char(hex_digit_char(d)),
        hex_char_value(hex_digit_char(d)) == d,
{
    let t = hex_digit_table();
    assert(t.len() == 16);
    assert(t[d as int] == hex_digit_char(d));
}

proof fn lemma_digits(v: nat)
    ensures
        hex_digits(v).len() > 0,
        forall|i: int| 0 <= i < hex_digits(v).len() ==> #[trigger] is_upper_hex_char(hex_digits(v)[i]),
        hex_value(hex_digits(v)) == v,
    decreases v,
{
    if v < 16 {
        lemma_digit_char(v);
        assert(hex_digits(v).drop_last() =~= Seq::<char>::empty());
        assert(hex_value(hex_digits(v)) == hex_value(Seq::<char>::empty()) * 16 + v);
    } else {
        lemma_digits(v / 16);
        lemma_digit_char(v % 16);
        let s = hex_digits(v);
        assert(s.drop_last() =~= hex_digits(v / 16));
        assert(s.last() == hex_digit_char(v % 16));
        assert(hex_value(s) == v / 16 * 16 + v % 16);
        assert(v == v / 16 * 16 + v % 16) by (nonlinear_arith);
    }
}

/// Every literal that [`hex_literal`] gives is `0x` followed by one or more
/// uppercase digits of base 16, and reading it back gives the value it was
/// made from.
pub proof fn lemma_hex_round_trip(v: nat)
    ensures
        hex_literal(v).len() > 2,
        hex_literal(v)[0] == '0',
        hex_literal(v)[1] == 'x',
        forall|i: int| 2 <= i < hex_literal(v).len() ==> #[trigger] is_upper_hex_char(hex_literal(v)[i]),
        parse_hex_literal(hex_literal(v)) == Some(v),
{
    lemma_digits(v);
    let s = hex_literal(v);
    assert(s.subrange(2, s.len() as int) =~= hex_digits(v));
    assert forall|i: int| 2 <= i < s.len() implies #[trigger] is_upper_hex_char(s[i]) by {
        assert(s[i] == hex_digits(v)[i - 2]);
    }
}

/// The one-character string of the digit of value `d`.
fn hex_digit_str(d: usize) -> (r: &'static str)
    requires
        d < 16,
    ensures
        r@ == seq![hex_digit_char(d as nat)],
{
    let digits = "0123456789ABCDEF";
    proof {
        reveal_strlit("0123456789ABCDEF");
    }
    assert(digits@ =~= hex_digit_table());
    let r = digits.substring_char(d, d + 1);
    assert(r@ =~= seq![hex_digit_char(d as nat)]);
    r
}

/// Appends the uppercase digits of `v` in base 16 to `output`.
pub fn append_hex_digits(output: &mut String, v: usize)
    ensures
        final(output)@ == old(output)@ + hex_digits(v as nat),
    decreases v,
{
    if v < 16 {
        output.append(hex_digit_str(v));
    } else {
        append_hex_digits(output, v / 16);
        output.append(hex_digit_str(v % 16));
        assert(final(output)@ =~= old(output)@ + hex_digits(v as nat));
    }
}

} // verus!
