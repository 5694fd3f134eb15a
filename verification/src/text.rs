//! The values written out for a reader: `Point2(8, 5)`, `Rect2[(0, 0)-(10, 10)]`.
//!
//! The text is meant for people. Nothing reads it back.

use vstd::prelude::*;
use vstd::string::StringExecFns;

verus! {

/// The character for a single digit; `'0'` for any number beyond nine.
pub open spec fn digit(d: nat) -> char {
    if d == 1 {
        '1'
    } else if d == 2 {
        '2'
    } else if d == 3 {
        '3'
    } else if d == 4 {
        '4'
    } else if d == 5 {
        '5'
    } else if d == 6 {
        '6'
    } else if d == 7 {
        '7'
    } else if d == 8 {
        '8'
    } else if d == 9 {
        '9'
    } else {
        '0'
    }
}

/// The decimal digits of `n`, the highest first, without leading zeros; `0`
/// for zero.
pub open spec fn digits(n: nat) -> Seq<char>
    decreases n,
{
    if n < 10 {
        seq![digit(n)]
    } else {
        digits(n / 10).push(digit(n % 10))
    }
}

/// The decimal form of `v`: its digits, after a minus sign if it is negative.
pub open spec fn decimal(v: int) -> Seq<char> {
    if v < 0 {
        seq!['-'] + digits((-v) as nat)
    } else {
        digits(v as nat)
    }
}

/// The text of a two-component value: the name, then the components in round
/// brackets with a comma and a space between them.
pub open spec fn pair_text(name: Seq<char>, x: int, y: int) -> Seq<char> {
    name + seq!['('] + decimal(x) + seq![',', ' '] + decimal(y) + seq![')']
}

/// The text of a rectangle: the name, then in square brackets the left top
/// corner and the right bottom corner with a hyphen between them.
pub open spec fn rect_text(name: Seq<char>, left: int, top: int, right: int, bottom: int) -> Seq<
    char,
> {
    name + seq!['[', '('] + decimal(left) + seq![',', ' '] + decimal(top) + seq![')', '-', '(']
        + decimal(right) + seq![',', ' '] + decimal(bottom) + seq![')', ']']
}

/// The one-character text of the digit `d`.
fn digit_str(d: u64) -> (r: &'static str)
    requires
        d < 10,
    ensures
        r@ == seq![digit(d as nat)],
{
    proof {
        reveal_strlit("0");
        reveal_strlit("1");
        reveal_strlit("2");
        reveal_strlit("3");
        reveal_strlit("4");
        reveal_strlit("5");
        reveal_strlit("6");
        reveal_strlit("7");
        reveal_strlit("8");
        reveal_strlit("9");
    }
    let r = if d == 0 {
        "0"
    } else if d == 1 {
        "1"
    } else if d == 2 {
        "2"
    } else if d == 3 {
        "3"
    } else if d == 4 {
        "4"
    } else if d == 5 {
        "5"
    } else if d == 6 {
        "6"
    } else if d == 7 {
        "7"
    } else if d == 8 {
        "8"
    } else {
        "9"
    };
    assert(r@ =~= seq![digit(d as nat)]);
    r
}

/// Appends the decimal digits of `n` to `out`.
fn push_digits(out: &mut String, n: u64)
    ensures
        final(out)@ == old(out)@ + digits(n as nat),
    decreases n,
{
    if n >= 10 {
        push_digits(out, n / 10);
    }
    out.append(digit_str(n % 10));
    assert(final(out)@ =~= old(out)@ + digits(n as nat));
}

/// Appends the decimal form of `v` to `out`.
pub fn push_decimal(out: &mut String, v: i64)
    ensures
        final(out)@ == old(out)@ + decimal(v as int),
{
    if v < 0 {
        proof {
            reveal_strlit("-");
        }
        out.append("-");
        let size: u64 = (-(v + 1)) as u64 + 1;
        push_digits(out, size);
        assert(final(out)@ =~= old(out)@ + decimal(v as int));
    } else {
        push_digits(out, v as u64);
    }
}

/// Writes a two-component value out under the name `name`.
pub fn pair_to_string(name: &str, x: i64, y: i64) -> (r: String)
    ensures
        r@ == pair_text(name@, x as int, y as int),
{
    proof {
        reveal_strlit("(");
        reveal_strlit(", ");
        reveal_strlit(")");
    }
    let mut out = String::new();
    out.append(name);
    out.append("(");
    push_decimal(&mut out, x);
    out.append(", ");
    push_decimal(&mut out, y);
    out.append(")");
    assert(out@ =~= pair_text(name@, x as int, y as int));
    out
}

/// Writes a rectangle out under the name `name`.
pub fn rect_to_string(name: &str, left: i64, top: i64, right: i64, bottom: i64) -> (r: String)
    ensures
        r@ == rect_text(name@, left as int, top as int, right as int, bottom as int),
{
    proof {
        reveal_strlit("[(");
        reveal_strlit(", ");
        reveal_strlit(")-(");
        reveal_strlit(")]");
    }
    let mut out = String::new();
    out.append(name);
    out.append("[(");
    push_decimal(&mut out, left);
    out.append(", ");
    push_decimal(&mut out, top);
    out.append(")-(");
    push_decimal(&mut out, right);
    out.append(", ");
    push_decimal(&mut out, bottom);
    out.append(")]");
    assert(out@ =~= rect_text(name@, left as int, top as int, right as int, bottom as int));
    out
}

} // verus!
