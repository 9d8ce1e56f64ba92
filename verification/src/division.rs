//! Integer division that reports a zero divisor as an error value.

use vstd::prelude::*;

verus! {

/// The message carried by the error that `divide` returns for a zero divisor.
pub open spec fn division_by_zero_message() -> Seq<char> {
    "Division by zero is not allowed."@
}

/// The absolute value of `x`.
pub open spec fn magnitude(x: int) -> int {
    if x < 0 {
        -x
    } else {
        x
    }
}

/// The quotient of `a` by a non-zero `b`, rounded toward zero: the quotient of
/// the magnitudes, negated when exactly one of the operands is negative.
pub open spec fn quotient_toward_zero(a: int, b: int) -> int {
    let q = magnitude(a) / magnitude(b);
    if (a < 0) != (b < 0) {
        -q
    } else {
        q
    }
}

/// For a non-negative `x` and a positive `d`, the quotient of `x` by `d` lies
/// between zero and `x`, below `x` when `d` is at least two and `x` is not
/// zero, and dividing by `-d` instead negates it.
proof fn lemma_quotient_of_magnitudes(x: int, d: int)
    requires
        0 <= x,
        0 < d,
    ensures
        0 <= x / d <= x,
        d >= 2 && x > 0 ==> x / d < x,
        x / (-d) == -(x / d),
{
    assert(0 <= x / d <= x && (d >= 2 && x > 0 ==> x / d < x) && x / (-d) == -(x / d))
        by (nonlinear_arith)
        requires
            0 <= x,
            0 < d,
    ;
}

/// Divides `a` by `b`, rounding toward zero.
///
/// A zero divisor gives an error with a fixed message. The one quotient that
/// does not fit in an `i32`, `i32::MIN / -1`, is excluded.
pub fn divide(a: i32, b: i32) -> (r: Result<i32, String>)
    requires
        !(a == i32::MIN && b == -1),
    ensures
        b == 0 ==> r is Err && r->Err_0@ == division_by_zero_message(),
        b != 0 ==> r is Ok && r->Ok_0 == quotient_toward_zero(a as int, b as int),
{
    if b == 0 {
        Err("Division by zero is not allowed.".to_owned())
    } else {
        proof {
            lemma_quotient_of_magnitudes(magnitude(a as int), magnitude(b as int));
        }
        Ok(a / b)
    }
}

} // verus!
