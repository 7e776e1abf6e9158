use vstd::prelude::*;

verus! {

/// Quotient of two integers with the fractional part dropped (rounding toward
/// zero): the magnitudes are divided and the sign of the exact quotient is put
/// back.
pub open spec fn truncated_quotient(a: int, b: int) -> int {
    if a >= 0 && b > 0 {
        a / b
    } else if a >= 0 && b < 0 {
        -(a / (-b))
    } else if a < 0 && b > 0 {
        -((-a) / b)
    } else {
        (-a) / (-b)
    }
}

/// Returns `a + b`. The sum has to fit the machine integer.
pub fn add(a: i32, b: i32) -> (r: i32)
    requires
        i32::MIN <= a + b <= i32::MAX,
    ensures
        r == a + b,
{
    a + b
}

/// Returns `a - b`. The difference has to fit the machine integer.
pub fn subtract(a: i32, b: i32) -> (r: i32)
    requires
        i32::MIN <= a - b <= i32::MAX,
    ensures
        r == a - b,
{
    a - b
}

/// Returns `a * b`. The product has to fit the machine integer.
pub fn multiply(a: i32, b: i32) -> (r: i32)
    requires
        i32::MIN <= a * b <= i32::MAX,
    ensures
        r == a * b,
{
    a * b
}

/// Returns `a / b`, rounded toward zero. The divisor is not zero, and the one
/// quotient that does not fit the machine integer is left out.
pub fn divide(a: i32, b: i32) -> (r: i32)
    requires
        b != 0,
        !(a == i32::MIN && b == -1),
    ensures
        r == truncated_quotient(a as int, b as int),
{
    if b > 0 {
        a / b
    } else if b == i32::MIN {
        if a == i32::MIN {
            1
        } else {
            0
        }
    } else {
        let m: i32 = -b;
        proof {
            lemma_quotient_bounded(if a >= 0 { a as int } else { -(a as int) }, m as int);
        }
        let q: i32 = a / m;
        -q
    }
}

/// A quotient by a positive divisor is never larger than its dividend, and
/// smaller once the divisor exceeds one.
proof fn lemma_quotient_bounded(a: int, m: int)
    by (nonlinear_arith)
    requires
        a >= 0,
        m > 0,
    ensures
        0 <= a / m <= a,
        m > 1 && a > 0 ==> a / m < a,
{
}

} // verus!
