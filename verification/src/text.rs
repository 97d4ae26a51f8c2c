//! Small text helpers shared by the messages of the crate.

use vstd::prelude::*;

verus! {

/// The decimal digit for `d`, which is below ten.
pub open spec fn digit(d: nat) -> char {
    ((48 + d) as u8) as char
}

/// The decimal digits of `n`, without leading zeros.
pub open spec fn spec_digits(n: nat) -> Seq<char>
    decreases n,
{
    if n < 10 {
        seq![digit(n)]
    } else {
        spec_digits(n / 10).push(digit(n % 10))
    }
}

/// `n` in decimal, with `-` in front where it is negative.
pub open spec fn spec_decimal(n: int) -> Seq<char> {
    if n < 0 {
        seq!['-'] + spec_digits((-n) as nat)
    } else {
        spec_digits(n as nat)
    }
}

/// `text` without one line feed at its end, if it ends in one.
pub open spec fn spec_trim_line_end(text: Seq<char>) -> Seq<char> {
    if text.len() > 0 && text.last() == '\n' {
        text.drop_last()
    } else {
        text
    }
}

/// `a`, `b` and `c` one after the other.
pub open spec fn join3(a: Seq<char>, b: Seq<char>, c: Seq<char>) -> Seq<char> {
    a + b + c
}

fn digit_text(d: u64) -> (text: &'static str)
    requires
        d < 10,
    ensures
        text@ == seq![digit(d as nat)],
{
    proof {
        reveal_strlit("0");
        reveal_strlit("1");
        reveal_strlit("2");
        reveal_strlit("3");
        reveal_strlit("4");
        reveal_strlit("5");
        reveal_strlit("6");
        reveal_strlit("7");
        reveal_strlit("8");
        reveal_strlit("9");
    }
    let text = if d == 0 {
        "0"
    } else if d == 1 {
        "1"
    } else if d == 2 {
        "2"
    } else if d == 3 {
        "3"
    } else if d == 4 {
        "4"
    } else if d == 5 {
        "5"
    } else if d == 6 {
        "6"
    } else if d == 7 {
        "7"
    } else if d == 8 {
        "8"
    } else {
        "9"
    };
    assert(text@ =~= seq![digit(d as nat)]);
    text
}

fn digits(n: u64) -> (text: String)
    ensures
        text@ == spec_digits(n as nat),
    decreases n,
{
    if n < 10 {
        digit_text(n).to_owned()
    } else {
        let mut text = digits(n / 10);
        text.append(digit_text(n % 10));
        assert(text@ =~= spec_digits(n as nat));
        text
    }
}

/// `n` written in decimal.
pub fn decimal(n: i32) -> (text: String)
    ensures
        text@ == spec_decimal(n as int),
{
    if n < 0 {
        let magnitude: u64 = (-(n as i64)) as u64;
        let mut text = "-".to_owned();
        proof {
            reveal_strlit("-");
        }
        text.append(digits(magnitude).as_str());
        assert(text@ =~= spec_decimal(n as int));
        text
    } else {
        digits(n as u64)
    }
}

/// `text` without one line feed at its end, if it ends in one.
pub fn trim_line_end(text: String) -> (trimmed: String)
    ensures
        trimmed@ == spec_trim_line_end(text@),
{
    let length: usize = text.as_str().unicode_len();
    if length > 0 && text.as_str().get_char(length - 1) == '\n' {
        let trimmed = text.as_str().substring_char(0, length - 1).to_owned();
        assert(trimmed@ =~= text@.drop_last());
        trimmed
    } else {
        text
    }
}

/// `a`, `b` and `c` one after the other.
pub fn concat3(a: &str, b: &str, c: &str) -> (text: String)
    ensures
        text@ == join3(a@, b@, c@),
{
    let mut text = a.to_owned();
    text.append(b);
    text.append(c);
    text
}

} // verus!
