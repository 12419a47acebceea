use vstd::prelude::*;

verus! {

/// The 32-bit two's-complement value congruent to `x`: what a fixed-width
/// signed integer holds after an operation whose exact result is `x`.
pub open spec fn wrap_i32(x: int) -> int {
    (x - i32::MIN) % 0x1_0000_0000 + i32::MIN
}

/// Integer division that rounds toward zero.
pub open spec fn trunc_div(a: int, b: int) -> int {
    let q = abs(a) / abs(b);
    if (a >= 0) == (b > 0) || a == 0 {
        q
    } else {
        -q
    }
}

/// The magnitude of `x`.
pub open spec fn abs(x: int) -> int {
    if x >= 0 {
        x
    } else {
        -x
    }
}

/// The single way an evaluation can fail.
#[derive(PartialEq, Eq, Structural, Debug, Clone, Copy)]
pub enum EvalError {
    DivisionByZero,
}

impl EvalError {
    /// A human-readable description of the error.
    pub fn message(&self) -> (r: String)
        ensures
            r@ == "cannot divide by zero"@,
    {
        match self {
            EvalError::DivisionByZero => "cannot divide by zero".to_owned(),
        }
    }
}

/// An arithmetic operation together with its operands.
#[derive(PartialEq, Eq, Structural, Debug, Clone, Copy)]
pub enum Operation {
    Add(i32, i32),
    Multiply(i32, i32),
    Subtract { first: i32, second: i32 },
    Divide { dividend: i32, divisor: i32 },
}

impl Operation {
    /// The exact mathematical value of the operation, when it has one.
    pub open spec fn exact(self) -> int {
        match self {
            Operation::Add(a, b) => a + b,
            Operation::Multiply(a, b) => a * b,
            Operation::Subtract { first, second } => first - second,
            Operation::Divide { dividend, divisor } => trunc_div(dividend as int, divisor as int),
        }
    }

    /// What evaluating the operation yields: an error exactly for a division
    /// by zero, otherwise the exact value brought into 32-bit range.
    pub open spec fn outcome(self) -> Result<i32, EvalError> {
        if self matches Operation::Divide { divisor, .. } && divisor == 0 {
            Err(EvalError::DivisionByZero)
        } else {
            Ok(wrap_i32(self.exact()) as i32)
        }
    }

    /// Evaluates the operation. Results outside the 32-bit range wrap around.
    pub fn execute(self) -> (r: Result<i32, EvalError>)
        ensures
            r == self.outcome(),
    {
        match self {
            Operation::Add(a, b) => Ok(a.wrapping_add(b)),
            Operation::Multiply(a, b) => Ok(a.wrapping_mul(b)),
            Operation::Subtract { first, second } => Ok(first.wrapping_sub(second)),
            Operation::Divide { dividend, divisor } => {
                if divisor == 0 {
                    Err(EvalError::DivisionByZero)
                } else {
                    match dividend.checked_div(divisor) {
                        Some(q) => Ok(q),
                        None => Ok(i32::MIN),
                    }
                }
            },
        }
    }
}

/// Adding two integers whose sum fits in 32 bits succeeds with that sum.
pub proof fn lemma_add_is_sum(a: i32, b: i32)
    requires
        i32::MIN <= a + b <= i32::MAX,
    ensures
        Operation::Add(a, b).outcome() matches Ok(v) && v == a + b,
{
}

/// Multiplying two integers whose product fits in 32 bits succeeds with that
/// product.
pub proof fn lemma_multiply_is_product(a: i32, b: i32)
    requires
        i32::MIN <= a * b <= i32::MAX,
    ensures
        Operation::Multiply(a, b).outcome() matches Ok(v) && v == a * b,
{
}

/// Subtracting two integers whose difference fits in 32 bits succeeds with
/// that difference.
pub proof fn lemma_subtract_is_difference(first: i32, second: i32)
    requires
        i32::MIN <= first - second <= i32::MAX,
    ensures
        (Operation::Subtract { first, second }).outcome() matches Ok(v) && v == first - second,
{
}

/// Dividing by a nonzero divisor succeeds with the quotient rounded toward
/// zero: the remainder is smaller than the divisor in magnitude and never has
/// the opposite sign of the dividend. The one quotient that does not fit in
/// 32 bits, that of the smallest integer by -1, is left out.
pub proof fn lemma_divide_truncates(dividend: i32, divisor: i32)
    requires
        divisor != 0,
        !(dividend == i32::MIN && divisor == -1),
    ensures
        (Operation::Divide { dividend, divisor }).outcome() matches Ok(q) && {
            &&& q == trunc_div(dividend as int, divisor as int)
            &&& abs(dividend - q * divisor) < abs(divisor as int)
            &&& dividend >= 0 ==> dividend - q * divisor >= 0
            &&& dividend <= 0 ==> dividend - q * divisor <= 0
        },
{
    let a = dividend as int;
    let b = divisor as int;
    let q = abs(a) / abs(b);
    let r = abs(a) % abs(b);
    assert(abs(a) == abs(b) * q + r && 0 <= r < abs(b)) by (nonlinear_arith)
        requires
            abs(b) > 0,
            q == abs(a) / abs(b),
            r == abs(a) % abs(b),
    ;
    assert(0 <= q <= abs(a)) by (nonlinear_arith)
        requires
            abs(b) > 0,
            abs(a) >= 0,
            q == abs(a) / abs(b),
    ;
    assert(a - trunc_div(a, b) * b == if a >= 0 { r } else { -r }) by (nonlinear_arith)
        requires
            abs(a) == abs(b) * q + r,
            a >= 0 ==> abs(a) == a,
            a < 0 ==> abs(a) == -a,
            b >= 0 ==> abs(b) == b,
            b < 0 ==> abs(b) == -b,
            trunc_div(a, b) == if (a >= 0) == (b > 0) || a == 0 { q } else { -q },
    ;
    if abs(b) >= 2 {
        assert(2 * q <= abs(a)) by (nonlinear_arith)
            requires
                abs(a) == abs(b) * q + r,
                abs(b) >= 2,
                q >= 0,
                r >= 0,
        ;
    }
    assert(i32::MIN <= trunc_div(a, b) <= i32::MAX);
    assert(wrap_i32(trunc_div(a, b)) == trunc_div(a, b));
}

/// Dividing any integer by zero fails with the division-by-zero error.
pub proof fn lemma_divide_by_zero_fails(dividend: i32)
    ensures
        (Operation::Divide { dividend, divisor: 0 }).outcome() == Err::<i32, EvalError>(
            EvalError::DivisionByZero,
        ),
{
}

} // verus!
