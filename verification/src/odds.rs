//! Sportsbook moneylines.
use vstd::prelude::*;
use crate::text::{
    chars_of, decimal_string, is_digit, lemma_decimal_read_back, lemma_filter_no_spaces,
    lemma_nat_digits_read_back, lemma_trim_decimal, nat_digits, not_space, parse_i64_chars, parse_i64_spec,
    remove_spaces, trim_chars, trim_spec,
};

verus! {

/// What a moneyline string reads as: the text without surrounding
/// whitespace and without any space, as a decimal integer.
pub open spec fn moneyline_spec(s: Seq<char>) -> Option<i64> {
    parse_i64_spec(trim_spec(s).filter(|c: char| not_space(c)))
}

/// Parse a moneyline string like "+150" or "-200" into an integer.
pub fn parse_moneyline(s: &str) -> (res: Option<i64>)
    ensures
        res == moneyline_spec(s@),
{
    let cs = chars_of(s);
    let trimmed = trim_chars(&cs);
    let compact = remove_spaces(&trimmed);
    parse_i64_chars(&compact)
}


/// Decimal text of a number reads back: every character is a digit or a
/// leading sign, so nothing is trimmed or removed.
proof fn lemma_signed_digits_read_back(sign: Seq<char>, n: nat)
    requires
        sign.len() <= 1,
        sign.len() == 1 ==> (sign[0] == '-' || sign[0] == '+'),
    ensures
        moneyline_spec(sign + nat_digits(n)) == parse_i64_spec(sign + nat_digits(n)),
{
    lemma_nat_digits_read_back(n);
    let d = nat_digits(n);
    let s = sign + d;
    assert forall|i: int| 0 <= i < s.len() implies s[i] != ' ' by {
        if i >= sign.len() {
            assert(s[i] == d[i - sign.len()]);
            assert(is_digit(d[i - sign.len()]));
        }
    }
    assert(s.last() == d.last());
    assert(is_digit(d[d.len() - 1]));
    if sign.len() == 0 {
        assert(s[0] == d[0]);
        assert(is_digit(d[0]));
    }
    lemma_trim_decimal(s);
    lemma_filter_no_spaces(s);
}

/// A moneyline written as an integer reads back as that integer: the
/// decimal text of any `i64`, and the digits of a non-negative one behind
/// a `+` ("+150"), both parse to the number.
pub proof fn lemma_moneyline_read_back(v: i64)
    ensures
        moneyline_spec(decimal_string(v as int)) == Some(v),
        v >= 0 ==> moneyline_spec(seq!['+'] + nat_digits(v as nat)) == Some(v),
{
    lemma_decimal_read_back(v);
    if v < 0 {
        lemma_signed_digits_read_back(seq!['-'], (-(v as int)) as nat);
    } else {
        lemma_signed_digits_read_back(Seq::empty(), v as nat);
        assert(Seq::<char>::empty() + nat_digits(v as nat) =~= nat_digits(v as nat));
        lemma_signed_digits_read_back(seq!['+'], v as nat);
    }
}

} // verus!
