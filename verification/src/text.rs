//! Text: comparing with a literal, and writing numbers.
use vstd::prelude::*;

verus! {

/// Whether `text` holds exactly the characters of `literal`.
pub fn same_text(text: &String, literal: &str) -> (same: bool)
    ensures
        same == (text@ == literal@),
{
    *text == literal.to_owned()
}

/// The character of a decimal digit.
pub open spec fn digit(d: int) -> char {
    if d == 0 {
        '0'
    } else if d == 1 {
        '1'
    } else if d == 2 {
        '2'
    } else if d == 3 {
        '3'
    } else if d == 4 {
        '4'
    } else if d == 5 {
        '5'
    } else if d == 6 {
        '6'
    } else if d == 7 {
        '7'
    } else if d == 8 {
        '8'
    } else {
        '9'
    }
}

/// The decimal notation of a natural number, without leading zeros.
pub open spec fn decimal(n: nat) -> Seq<char>
    decreases n,
{
    if n < 10 {
        seq![digit(n as int)]
    } else {
        decimal(n / 10).push(digit((n % 10) as int))
    }
}

/// The decimal notation of an integer, with a sign where it is negative.
pub open spec fn signed_decimal(n: int) -> Seq<char> {
    if n < 0 {
        seq!['-'] + decimal((-n) as nat)
    } else {
        decimal(n as nat)
    }
}

fn digit_text(d: u64) -> (text: &'static str)
    requires
        d < 10,
    ensures
        text@ == seq![digit(d as int)],
{
    proof {
        reveal_strlit("0");
        reveal_strlit("1");
        reveal_strlit("2");
        reveal_strlit("3");
        reveal_strlit("4");
        reveal_strlit("5");
        reveal_strlit("6");
        reveal_strlit("7");
        reveal_strlit("8");
        reveal_strlit("9");
    }
    if d == 0 {
        "0"
    } else if d == 1 {
        "1"
    } else if d == 2 {
        "2"
    } else if d == 3 {
        "3"
    } else if d == 4 {
        "4"
    } else if d == 5 {
        "5"
    } else if d == 6 {
        "6"
    } else if d == 7 {
        "7"
    } else if d == 8 {
        "8"
    } else {
        "9"
    }
}

/// Writes a number in decimal notation.
pub fn write_decimal(n: u64) -> (text: String)
    ensures
        text@ == decimal(n as nat),
    decreases n,
{
    if n < 10 {
        digit_text(n).to_owned()
    } else {
        let mut text = write_decimal(n / 10);
        text.append(digit_text(n % 10));
        assert(text@ =~= decimal(n as nat));
        text
    }
}

/// Writes an integer in decimal notation.
pub fn write_signed_decimal(n: i64) -> (text: String)
    ensures
        text@ == signed_decimal(n as int),
{
    if n >= 0 {
        write_decimal(n as u64)
    } else {
        proof {
            reveal_strlit("-");
        }
        let magnitude: u64 = (-(n + 1)) as u64 + 1;
        let digits = write_decimal(magnitude);
        let text = "-".to_owned().concat(digits.as_str());
        assert("-"@ =~= seq!['-']);
        text
    }
}

/// The decimal notation has at least one digit.
proof fn lemma_decimal_not_empty(n: nat)
    ensures
        decimal(n).len() > 0,
{
    reveal_with_fuel(decimal, 2);
}

/// Two numbers with the same decimal notation are the same number.
pub proof fn law_decimal_is_injective(a: nat, b: nat)
    requires
        decimal(a) == decimal(b),
    ensures
        a == b,
    decreases a,
{
    if a < 10 && b < 10 {
        assert(decimal(a)[0] == digit(a as int));
        assert(decimal(b)[0] == digit(b as int));
    } else if a < 10 {
        lemma_decimal_not_empty(b / 10);
        assert(decimal(a).len() == 1);
        assert(decimal(b).len() > 1);
    } else if b < 10 {
        lemma_decimal_not_empty(a / 10);
        assert(decimal(b).len() == 1);
        assert(decimal(a).len() > 1);
    } else {
        assert(decimal(a).last() == digit((a % 10) as int));
        assert(decimal(b).last() == digit((b % 10) as int));
        assert(a % 10 == b % 10);
        assert(decimal(a).drop_last() =~= decimal(a / 10));
        assert(decimal(b).drop_last() =~= decimal(b / 10));
        law_decimal_is_injective(a / 10, b / 10);
    }
}

/// Whether the character is a decimal digit.
pub open spec fn is_digit(c: char) -> bool {
    '0' <= c <= '9'
}

/// The number that a text of decimal digits stands for, read from left to right.
pub open spec fn number(text: Seq<char>) -> int
    decreases text.len(),
{
    if text.len() == 0 {
        0
    } else {
        number(text.drop_last()) * 10 + (text.last() as int - '0' as int)
    }
}

/// The integer that a text stands for: digits, with a sign before them or not.
pub open spec fn signed_number(text: Seq<char>) -> int {
    if text.len() > 0 && text[0] == '-' {
        -number(text.drop_first())
    } else {
        number(text)
    }
}

/// The decimal notation of a number is made of digits, begins with a zero only where it is the
/// number zero, and reads back as the number.
pub proof fn law_decimal_reads_back(n: nat)
    ensures
        decimal(n).len() > 0,
        forall|i: int| 0 <= i < decimal(n).len() ==> is_digit(#[trigger] decimal(n)[i]),
        decimal(n)[0] == '0' <==> n == 0,
        n == 0 ==> decimal(n).len() == 1,
        number(decimal(n)) == n,
    decreases n,
{
    reveal_with_fuel(number, 2);
    if n >= 10 {
        law_decimal_reads_back(n / 10);
        assert(decimal(n).drop_last() =~= decimal(n / 10));
        assert(decimal(n)[0] == decimal(n / 10)[0]);
    } else {
        assert(decimal(n).drop_last().len() == 0);
    }
}

/// The notation of an integer reads back as the integer.
pub proof fn law_signed_decimal_reads_back(n: int)
    ensures
        signed_decimal(n)[0] == '-' <==> n < 0,
        signed_number(signed_decimal(n)) == n,
{
    if n < 0 {
        law_decimal_reads_back((-n) as nat);
        assert(signed_decimal(n).drop_first() =~= decimal((-n) as nat));
    } else {
        law_decimal_reads_back(n as nat);
        assert(is_digit(decimal(n as nat)[0]));
    }
}

/// What is written for a number reads back as the number.
pub proof fn law_written_numbers_read_back(n: u64, i: i64, text: String)
    ensures
        call_ensures(write_decimal, (n,), text) ==> number(text@) == n,
        call_ensures(write_signed_decimal, (i,), text) ==> signed_number(text@) == i,
{
    law_decimal_reads_back(n as nat);
    law_signed_decimal_reads_back(i as int);
}

} // verus!
