//! The one-line summary that closes a successful build.

use vstd::prelude::*;
use vstd::string::*;

verus! {

/// How many definitions each target program of a build holds.
#[derive(Clone, Copy, Debug, PartialEq, Eq, Hash, Structural)]
pub struct DocumentCounts {
    pub reader: usize,
    pub normalization: usize,
    pub operation_text: usize,
}

/// The character that stands for a digit.
pub open spec fn digit_char(digit: nat) -> char
    recommends
        digit < 10,
{
    if digit == 0 {
        '0'
    } else if digit == 1 {
        '1'
    } else if digit == 2 {
        '2'
    } else if digit == 3 {
        '3'
    } else if digit == 4 {
        '4'
    } else if digit == 5 {
        '5'
    } else if digit == 6 {
        '6'
    } else if digit == 7 {
        '7'
    } else if digit == 8 {
        '8'
    } else {
        '9'
    }
}

/// The digit that a character stands for; 0 for any other character.
pub open spec fn digit_value(c: char) -> nat {
    if c == '1' {
        1
    } else if c == '2' {
        2
    } else if c == '3' {
        3
    } else if c == '4' {
        4
    } else if c == '5' {
        5
    } else if c == '6' {
        6
    } else if c == '7' {
        7
    } else if c == '8' {
        8
    } else if c == '9' {
        9
    } else {
        0
    }
}

/// Whether a character stands for a digit.
pub open spec fn is_digit(c: char) -> bool {
    c == '0' || digit_value(c) > 0
}

/// A number written in decimal, without leading zeros.
pub open spec fn decimal_digits(n: nat) -> Seq<char>
    decreases n,
{
    if n < 10 {
        seq![digit_char(n)]
    } else {
        decimal_digits(n / 10).push(digit_char(n % 10))
    }
}

/// The number that a sequence of digits denotes in decimal.
pub open spec fn decimal_value(digits: Seq<char>) -> nat
    decreases digits.len(),
{
    if digits.len() == 0 {
        0
    } else {
        decimal_value(digits.drop_last()) * 10 + digit_value(digits.last())
    }
}

/// The summary of a successful build of `project_name`.
pub open spec fn summary_of(project_name: Seq<char>, counts: DocumentCounts) -> Seq<char> {
    "["@ + project_name + "] documents: "@ + decimal_digits(counts.reader as nat) + " reader, "@
        + decimal_digits(counts.normalization as nat) + " normalization, "@ + decimal_digits(
        counts.operation_text as nat,
    ) + " operation"@
}

fn digit_str(digit: usize) -> (text: &'static str)
    requires
        digit < 10,
    ensures
        text@ == seq![digit_char(digit as nat)],
{
    proof {
        reveal_strlit("0");
        reveal_strlit("1");
        reveal_strlit("2");
        reveal_strlit("3");
        reveal_strlit("4");
        reveal_strlit("5");
        reveal_strlit("6");
        reveal_strlit("7");
        reveal_strlit("8");
        reveal_strlit("9");
    }
    if digit == 0 {
        "0"
    } else if digit == 1 {
        "1"
    } else if digit == 2 {
        "2"
    } else if digit == 3 {
        "3"
    } else if digit == 4 {
        "4"
    } else if digit == 5 {
        "5"
    } else if digit == 6 {
        "6"
    } else if digit == 7 {
        "7"
    } else if digit == 8 {
        "8"
    } else {
        "9"
    }
}

/// Writes a number in decimal.
pub fn decimal(n: usize) -> (text: String)
    ensures
        text@ == decimal_digits(n as nat),
    decreases n,
{
    if n < 10 {
        String::from_str(digit_str(n))
    } else {
        let mut text = decimal(n / 10);
        text.append(digit_str(n % 10));
        text
    }
}

/// The summary of a successful build: the project's name in brackets, then
/// the number of definitions of the reader, the normalization and the
/// operation text program.
pub fn summary_line(project_name: &str, counts: DocumentCounts) -> (line: String)
    ensures
        line@ == summary_of(project_name@, counts),
{
    let mut line = String::from_str("[");
    line.append(project_name);
    line.append("] documents: ");
    line.append(decimal(counts.reader).as_str());
    line.append(" reader, ");
    line.append(decimal(counts.normalization).as_str());
    line.append(" normalization, ");
    line.append(decimal(counts.operation_text).as_str());
    line.append(" operation");
    line
}

/// Decimal notation is faithful: the digits of a number denote that number,
/// there is at least one of them, all of them are digits, and the first one is
/// a zero only for the number 0.
pub proof fn law_decimal_digits_denote(n: nat)
    ensures
        decimal_value(decimal_digits(n)) == n,
        decimal_digits(n).len() >= 1,
        forall|i: int| 0 <= i < decimal_digits(n).len() ==> is_digit(#[trigger] decimal_digits(n)[i]),
        decimal_digits(n)[0] == '0' <==> n == 0,
    decreases n,
{
    if n < 10 {
        let digits = decimal_digits(n);
        assert(digits.drop_last() =~= Seq::<char>::empty());
        assert(decimal_value(digits.drop_last()) == 0);
    } else {
        law_decimal_digits_denote(n / 10);
        let front = decimal_digits(n / 10);
        let digits = decimal_digits(n);
        assert(digits.drop_last() =~= front);
        assert(digits.last() == digit_char(n % 10));
        assert(digits[0] == front[0]);
    }
}

/// Two numbers with the same decimal digits are the same number.
pub proof fn law_decimal_digits_distinguish(m: nat, n: nat)
    requires
        decimal_digits(m) == decimal_digits(n),
    ensures
        m == n,
{
    law_decimal_digits_denote(m);
    law_decimal_digits_denote(n);
}

} // verus!
