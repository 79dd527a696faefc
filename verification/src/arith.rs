//! The five binary operators and their arithmetic on 32-bit signed integers.

use vstd::prelude::*;

verus! {

/// A binary operator of the calculator.
#[derive(Clone, Copy, Debug, PartialEq, Eq, Structural)]
pub enum Op {
    Add,
    Sub,
    Mul,
    Div,
    Rem,
}

/// Why an operator could not be applied to a pair of operands.
#[derive(Clone, Copy, Debug, PartialEq, Eq, Structural)]
pub enum ArithError {
    /// The right-hand operand of `/` or `%` is zero.
    DivisionByZero,
    /// The exact result does not fit in 32 bits.
    Overflow,
}

/// Whether `v` is the value of some `i32`.
pub open spec fn fits(v: int) -> bool {
    i32::MIN <= v <= i32::MAX
}

/// The absolute value of `v`.
pub open spec fn magnitude(v: int) -> int {
    if v < 0 {
        -v
    } else {
        v
    }
}

/// The quotient of `x` by `y` rounded toward zero, for `y != 0`: the quotient
/// of the magnitudes, negative exactly when the signs of `x` and `y` differ.
pub open spec fn trunc_div(x: int, y: int) -> int {
    let q = magnitude(x) / magnitude(y);
    if (x < 0) != (y < 0) {
        -q
    } else {
        q
    }
}

/// The remainder that goes with `trunc_div`, for `y != 0`: the remainder of
/// the magnitudes, carrying the sign of the dividend `x`.
pub open spec fn trunc_rem(x: int, y: int) -> int {
    let r = magnitude(x) % magnitude(y);
    if x < 0 {
        -r
    } else {
        r
    }
}

/// The exact, unbounded result of `x op y`. For `Div` and `Rem` it is
/// meaningful only when `y != 0`.
pub open spec fn exact(op: Op, x: int, y: int) -> int {
    match op {
        Op::Add => x + y,
        Op::Sub => x - y,
        Op::Mul => x * y,
        Op::Div => trunc_div(x, y),
        Op::Rem => trunc_rem(x, y),
    }
}

/// The outcome of `x op y` on 32-bit operands: division and remainder by
/// zero are refused first, then any result that leaves the 32-bit range.
pub open spec fn apply_spec(op: Op, x: i32, y: i32) -> Result<i32, ArithError> {
    if (op == Op::Div || op == Op::Rem) && y == 0 {
        Err(ArithError::DivisionByZero)
    } else if fits(exact(op, x as int, y as int)) {
        Ok(exact(op, x as int, y as int) as i32)
    } else {
        Err(ArithError::Overflow)
    }
}

/// Division rounds toward zero, and the remainder makes up for it: for
/// `y != 0` the quotient and the remainder give `x` back, the remainder is
/// smaller in magnitude than `y`, and it is zero or has the sign of `x`.
pub proof fn lemma_trunc_div_rem(x: int, y: int)
    requires
        y != 0,
    ensures
        x == y * trunc_div(x, y) + trunc_rem(x, y),
        magnitude(trunc_rem(x, y)) < magnitude(y),
        x >= 0 ==> trunc_rem(x, y) >= 0,
        x <= 0 ==> trunc_rem(x, y) <= 0,
        magnitude(y * trunc_div(x, y)) <= magnitude(x),
{
    let a = magnitude(x);
    let b = magnitude(y);
    let q = a / b;
    let r = a % b;
    vstd::arithmetic::div_mod::lemma_fundamental_div_mod(a, b);
    vstd::arithmetic::div_mod::lemma_mod_pos_bound(a, b);
    vstd::arithmetic::div_mod::lemma_div_pos_is_pos(a, b);
    assert(a == b * q + r);
    assert(0 <= b * q) by (nonlinear_arith)
        requires
            0 <= q,
            0 < b,
    ;
    assert((-b) * q == -(b * q)) by (nonlinear_arith);
    assert(b * (-q) == -(b * q)) by (nonlinear_arith);
    assert((-b) * (-q) == b * q) by (nonlinear_arith);
}

/// Adds two numbers whose sum fits in 32 bits.
pub fn add(x: i32, y: i32) -> (sum: i32)
    requires
        fits(x + y),
    ensures
        sum == x + y,
{
    x + y
}

/// Applies `op` to the left operand `x` and the right operand `y`.
pub fn apply(op: Op, x: i32, y: i32) -> (r: Result<i32, ArithError>)
    ensures
        r == apply_spec(op, x, y),
{
    match op {
        Op::Add => match x.checked_add(y) {
            Some(v) => Ok(v),
            None => Err(ArithError::Overflow),
        },
        Op::Sub => match x.checked_sub(y) {
            Some(v) => Ok(v),
            None => Err(ArithError::Overflow),
        },
        Op::Mul => match x.checked_mul(y) {
            Some(v) => Ok(v),
            None => Err(ArithError::Overflow),
        },
        Op::Div => {
            if y == 0 {
                Err(ArithError::DivisionByZero)
            } else {
                match x.checked_div(y) {
                    Some(v) => Ok(v),
                    None => Err(ArithError::Overflow),
                }
            }
        },
        Op::Rem => {
            if y == 0 {
                Err(ArithError::DivisionByZero)
            } else if y == -1 {
                Ok(0)
            } else {
                match x.checked_rem(y) {
                    Some(v) => Ok(v),
                    None => Err(ArithError::Overflow),
                }
            }
        },
    }
}

} // verus!
