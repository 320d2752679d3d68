//! Text helpers: decimal rendering of numbers for messages.

use vstd::prelude::*;
use vstd::string::StringExecFns;

verus! {

/// The character of one decimal digit.
pub open spec fn digit_char(d: nat) -> char {
    if d == 0 {
        '0'
    } else if d == 1 {
        '1'
    } else if d == 2 {
        '2'
    } else if d == 3 {
        '3'
    } else if d == 4 {
        '4'
    } else if d == 5 {
        '5'
    } else if d == 6 {
        '6'
    } else if d == 7 {
        '7'
    } else if d == 8 {
        '8'
    } else {
        '9'
    }
}

/// The decimal numeral of `n`, without leading zeros.
pub open spec fn decimal(n: nat) -> Seq<char>
    decreases n,
{
    if n < 10 {
        seq![digit_char(n)]
    } else {
        decimal(n / 10).push(digit_char(n % 10))
    }
}

/// The numeral of a single digit as a string slice.
fn digit_str(d: u128) -> (s: &'static str)
    requires
        d < 10,
    ensures
        s@ == seq![digit_char(d as nat)],
{
    proof {
        reveal_strlit("0");
        reveal_strlit("1");
        reveal_strlit("2");
        reveal_strlit("3");
        reveal_strlit("4");
        reveal_strlit("5");
        reveal_strlit("6");
        reveal_strlit("7");
        reveal_strlit("8");
        reveal_strlit("9");
    }
    let s = if d == 0 {
        "0"
    } else if d == 1 {
        "1"
    } else if d == 2 {
        "2"
    } else if d == 3 {
        "3"
    } else if d == 4 {
        "4"
    } else if d == 5 {
        "5"
    } else if d == 6 {
        "6"
    } else if d == 7 {
        "7"
    } else if d == 8 {
        "8"
    } else {
        "9"
    };
    assert(s@ =~= seq![digit_char(d as nat)]);
    s
}

/// Appends the decimal numeral of `n` to `out`.
pub fn push_decimal(out: &mut String, n: u128)
    ensures
        final(out)@ == old(out)@ + decimal(n as nat),
    decreases n,
{
    if n >= 10 {
        push_decimal(out, n / 10);
    }
    let d = digit_str(n % 10);
    out.append(d);
    proof {
        if n >= 10 {
            assert(final(out)@ =~= old(out)@ + decimal(n as nat));
        } else {
            assert(final(out)@ =~= old(out)@ + decimal(n as nat));
        }
    }
}

/// The decimal numeral of `n` as a new string.
pub fn decimal_string(n: u128) -> (s: String)
    ensures
        s@ == decimal(n as nat),
{
    let mut s = String::new();
    push_decimal(&mut s, n);
    assert(s@ =~= decimal(n as nat));
    s
}

/// The label of one item of a numbered series: its name, its ordinal and the
/// number of items.
pub open spec fn numbered(name: Seq<char>, ordinal: nat, total: nat) -> Seq<char> {
    name + " ("@ + decimal(ordinal) + " of "@ + decimal(total) + ")"@
}

/// The label of a list of which a number of valid items is expected.
pub open spec fn expected(count: nat, what: Seq<char>) -> Seq<char> {
    "Expected "@ + decimal(count) + " valid "@ + what
}

/// Returns the label of one item of a numbered series
pub fn numbered_label(name: &str, ordinal: u128, total: u128) -> (s: String)
    ensures
        s@ == numbered(name@, ordinal as nat, total as nat),
{
    let mut s = String::from_str(name);
    s.append(" (");
    push_decimal(&mut s, ordinal);
    s.append(" of ");
    push_decimal(&mut s, total);
    s.append(")");
    s
}

/// Returns the label of a list of which a number of valid items is expected
pub fn expected_label(count: u128, what: &str) -> (s: String)
    ensures
        s@ == expected(count as nat, what@),
{
    let mut s = String::from_str("Expected ");
    push_decimal(&mut s, count);
    s.append(" valid ");
    s.append(what);
    s
}

/// Returns the two texts joined
pub fn joined(first: &str, second: &str) -> (s: String)
    ensures
        s@ == first@ + second@,
{
    let mut s = String::from_str(first);
    s.append(second);
    s
}

/// The decimal numeral of an integer, with a minus sign where it is negative.
pub open spec fn signed_decimal(v: int) -> Seq<char> {
    if v < 0 {
        "-"@ + decimal((-v) as nat)
    } else {
        decimal(v as nat)
    }
}

/// Returns the text followed by the decimal numeral of an integer
pub fn with_number(text: &str, v: i64) -> (s: String)
    ensures
        s@ == text@ + signed_decimal(v as int),
{
    let mut s = String::from_str(text);
    if v < 0 {
        s.append("-");
        push_decimal(&mut s, (-(v as i128)) as u128);
        assert(s@ =~= text@ + signed_decimal(v as int));
    } else {
        push_decimal(&mut s, v as u128);
    }
    s
}

} // verus!
