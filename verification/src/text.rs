//! Text building: decimal numbers and the few string operations shared by the
//! other modules.

use vstd::prelude::*;

verus! {

/// `String::push` appends the given character to the end of the string.
pub assume_specification[ String::push ](string: &mut String, ch: char)
    ensures
        final(string)@ == old(string)@.push(ch),
;

/// The character of a decimal digit.
pub open spec fn digit_char(d: nat) -> char {
    ('0' as u32 + d) as char
}

/// The decimal digits of a number, without leading zeros.
pub open spec fn decimal(n: nat) -> Seq<char>
    decreases n,
{
    if n < 10 {
        seq![digit_char(n)]
    } else {
        decimal(n / 10).push(digit_char(n % 10))
    }
}

/// The decimal text of an integer, with a minus sign when it is negative.
pub open spec fn signed_decimal(n: int) -> Seq<char> {
    if n < 0 {
        seq!['-'] + decimal((-n) as nat)
    } else {
        decimal(n as nat)
    }
}

/// Whether a character is a decimal digit.
pub open spec fn is_digit(c: char) -> bool {
    '0' <= c <= '9'
}

/// The number that a sequence of digits stands for.
pub open spec fn digits_value(s: Seq<char>) -> int
    decreases s.len(),
{
    if s.len() == 0 {
        0
    } else {
        digits_value(s.drop_last()) * 10 + (s.last() as int - '0' as int)
    }
}

/// A decimal text is made of digits, and stands for the number it was made of.
pub proof fn lemma_decimal(n: nat)
    ensures
        decimal(n).len() > 0,
        forall|i: int| 0 <= i < decimal(n).len() ==> is_digit(#[trigger] decimal(n)[i]),
        digits_value(decimal(n)) == n,
    decreases n,
{
    if n < 10 {
        reveal_with_fuel(digits_value, 2);
        assert(decimal(n).drop_last() =~= Seq::empty());
    } else {
        lemma_decimal(n / 10);
        assert(decimal(n).drop_last() =~= decimal(n / 10));
        assert(decimal(n).last() == digit_char(n % 10));
    }
}

/// Appends the decimal digits of `n`.
pub fn push_decimal(out: &mut String, n: u64)
    ensures
        final(out)@ == old(out)@ + decimal(n as nat),
    decreases n,
{
    if n >= 10 {
        push_decimal(out, n / 10);
    }
    let digit: u8 = (n % 10) as u8;
    out.push((48u8 + digit) as char);
    assert(out@ =~= old(out)@ + decimal(n as nat));
}

/// Appends the decimal text of `n`.
pub fn push_signed_decimal(out: &mut String, n: i32)
    ensures
        final(out)@ == old(out)@ + signed_decimal(n as int),
{
    if n < 0 {
        out.push('-');
        push_decimal(out, (-(n as i64)) as u64);
        assert(out@ =~= old(out)@ + signed_decimal(n as int));
    } else {
        push_decimal(out, n as u64);
    }
}

/// Whether two strings hold the same characters.
pub fn same_text(a: &str, b: &str) -> (same: bool)
    ensures
        same == (a@ == b@),
{
    a.to_owned() == b.to_owned()
}

/// The characters of a string, in order.
pub fn char_vec(s: &str) -> (chars: Vec<char>)
    ensures
        chars@ == s@,
{
    let mut chars: Vec<char> = Vec::new();
    for c in it: s.chars()
        invariant
            it.seq() == s@,
            chars@ == s@.take(it.index() as int),
    {
        chars.push(c);
        assert(s@.take(it.index() + 1) =~= s@.take(it.index() as int).push(c));
    }
    assert(s@.take(s@.len() as int) =~= s@);
    chars
}

/// A number's decimal text has digits only, no needless zero in front, and reads as
/// that number in base ten.
pub proof fn law_decimal_reads_as_the_number(n: nat)
    ensures
        decimal(n).len() > 0,
        forall|i: int| 0 <= i < decimal(n).len() ==> 48 <= (#[trigger] decimal(n)[i]) as int <= 57,
        decimal(n).len() > 1 ==> decimal(n)[0] != '0',
        digits_value(decimal(n)) == n,
    decreases n,
{
    lemma_decimal(n);
    assert forall|i: int| 0 <= i < decimal(n).len() implies 48 <= (#[trigger] decimal(n)[i]) as int
        <= 57 by {
        assert(is_digit(decimal(n)[i]));
    }
    if n >= 10 {
        law_decimal_reads_as_the_number(n / 10);
        assert(decimal(n)[0] == decimal(n / 10)[0]);
        if n / 10 < 10 {
            assert(decimal(n / 10)[0] == digit_char(n / 10));
        } else {
            assert(decimal(n / 10) == decimal(n / 10 / 10).push(digit_char(n / 10 % 10)));
            lemma_decimal(n / 10 / 10);
        }
    }
}

/// An integer's text is its magnitude's, behind a minus sign where it is negative.
pub proof fn law_signed_decimal_shows_the_sign(n: int)
    ensures
        n >= 0 ==> signed_decimal(n) == decimal(n as nat),
        n < 0 ==> signed_decimal(n).len() > 0 && signed_decimal(n)[0] == '-'
            && signed_decimal(n).skip(1) == decimal((-n) as nat),
{
    if n < 0 {
        assert(signed_decimal(n).skip(1) =~= decimal((-n) as nat));
    }
}

/// Digits are the ten characters from `0` to `9`, and one more digit behind a number
/// multiplies it by ten and adds the digit.
pub proof fn law_digits_are_base_ten(s: Seq<char>, c: char)
    ensures
        is_digit(c) <==> 48 <= c as int <= 57,
        digits_value(Seq::empty()) == 0,
        digits_value(s.push(c)) == digits_value(s) * 10 + (c as int - 48),
{
    assert(s.push(c).drop_last() =~= s);
}

} // verus!
