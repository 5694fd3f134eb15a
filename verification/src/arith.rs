//! Integer division as the machine performs it on signed numbers.

use vstd::prelude::*;

verus! {

/// The quotient of `a` by `b` rounded toward zero, for `b` other than zero.
pub open spec fn quotient(a: int, b: int) -> int {
    if a >= 0 {
        a / b
    } else {
        -((-a) / b)
    }
}

/// A quotient is no further from zero than the number divided, and reaches its
/// negation only for the divisor minus one.
pub proof fn lemma_quotient_bounds(a: int, b: int)
    requires
        b != 0,
    ensures
        a >= 0 ==> -a <= quotient(a, b) <= a,
        a < 0 ==> a <= quotient(a, b) <= -a,
        a < 0 && b != -1 ==> quotient(a, b) < -a,
{
    let size = if a >= 0 {
        a
    } else {
        -a
    };
    lemma_floor_bounds(size, b);
}

/// The bounds of the floor quotient of a number that is not negative.
proof fn lemma_floor_bounds(c: int, b: int)
    by (nonlinear_arith)
    requires
        c >= 0,
        b != 0,
    ensures
        -c <= c / b <= c,
        c > 0 && b != -1 ==> -c < c / b,
{
}

} // verus!
