//! The abstract sign-analysis domain: integers are tracked only by
//! their sign (positive, negative, zero, or unknown); addresses are
//! carried through unabstracted. The operator table is a sound
//! over-approximation: where the sign of a result cannot be derived
//! from the operand signs alone, the result is unknown, never a guess.
use vstd::prelude::*;

use crate::ast::{BinOp, Lit, LiteralKind};
use crate::concrete::{tdiv, SimpleAddr, SimpleValue, ValCompute};
use crate::semantics::ErrorKind;

verus! {

/// An abstract value: the sign of an integer, or an address.
#[derive(PartialEq, Eq, Debug, Copy, Clone, Structural)]
pub enum SignedValue {
    VPos,
    VNeg,
    VZero,
    VUnknown,
    VAddr(SimpleAddr),
}

/// The sign-combination table. It is total: a combination with no rule
/// yields the unknown sign, and no combination is an error. Division
/// keeps only a zero dividend: truncation toward zero can collapse any
/// quotient of nonzero operands to zero (1 divided by 2 is 0), so no
/// definite sign is derivable from the operand signs alone.
pub open spec fn sign_op(o: BinOp, e1: SignedValue, e2: SignedValue) -> SignedValue {
    match o {
        BinOp::Add => {
            if e1 == e2 {
                e1
            } else if e1 == SignedValue::VZero {
                e2
            } else if e2 == SignedValue::VZero {
                e1
            } else {
                SignedValue::VUnknown
            }
        },
        BinOp::Sub => match (e1, e2) {
            (SignedValue::VZero, SignedValue::VPos) => SignedValue::VNeg,
            (SignedValue::VZero, SignedValue::VNeg) => SignedValue::VPos,
            (SignedValue::VZero, SignedValue::VZero) => SignedValue::VZero,
            (SignedValue::VPos, SignedValue::VNeg) => SignedValue::VPos,
            (SignedValue::VNeg, SignedValue::VPos) => SignedValue::VNeg,
            _ => SignedValue::VUnknown,
        },
        BinOp::Mul => {
            if e1 == SignedValue::VZero || e2 == SignedValue::VZero {
                SignedValue::VZero
            } else if e1 == SignedValue::VPos {
                e2
            } else if e1 == SignedValue::VNeg && e2 == SignedValue::VNeg {
                SignedValue::VPos
            } else if e1 == SignedValue::VNeg && e2 == SignedValue::VPos {
                SignedValue::VNeg
            } else {
                SignedValue::VUnknown
            }
        },
        BinOp::Div => {
            if e2 == SignedValue::VUnknown {
                SignedValue::VUnknown
            } else if e1 == SignedValue::VZero {
                SignedValue::VZero
            } else {
                SignedValue::VUnknown
            }
        },
        _ => SignedValue::VUnknown,
    }
}

impl ValCompute for SignedValue {
    open spec fn spec_zero() -> Self {
        SignedValue::VZero
    }

    open spec fn spec_is_true(v: Self) -> bool {
        v == SignedValue::VPos
    }

    open spec fn spec_op(o: BinOp, e1: Self, e2: Self) -> Result<Self, ErrorKind> {
        Ok(sign_op(o, e1, e2))
    }

    open spec fn spec_from_lit(l: Lit) -> Self {
        match l.lit {
            LiteralKind::LInt(v) => if v > 0 {
                SignedValue::VPos
            } else if v < 0 {
                SignedValue::VNeg
            } else {
                SignedValue::VZero
            },
            LiteralKind::LBool(b) => if b {
                SignedValue::VPos
            } else {
                SignedValue::VZero
            },
        }
    }

    open spec fn spec_from_loc(l: SimpleAddr) -> Self {
        SignedValue::VAddr(l)
    }

    open spec fn spec_unwrap_loc(v: Self) -> Result<SimpleAddr, ErrorKind> {
        match v {
            SignedValue::VAddr(a) => Ok(a),
            _ => Err(ErrorKind::TypeMismatch),
        }
    }

    proof fn lemma_loc_roundtrip(l: SimpleAddr) {
    }

    fn zero() -> (r: Self) {
        SignedValue::VZero
    }

    /// In this domain a value counts as true only when it is certainly
    /// a positive integer: the injection of the literal `true`.
    fn is_true(v: &Self) -> (r: bool) {
        match v {
            SignedValue::VPos => true,
            _ => false,
        }
    }

    fn op(o: &BinOp, e1: Self, e2: Self) -> (r: Result<Self, ErrorKind>) {
        let v = match o {
            BinOp::Add => {
                match (e1, e2) {
                    (SignedValue::VPos, SignedValue::VPos) => SignedValue::VPos,
                    (SignedValue::VNeg, SignedValue::VNeg) => SignedValue::VNeg,
                    (SignedValue::VZero, x) => x,
                    (x, SignedValue::VZero) => x,
                    (SignedValue::VUnknown, SignedValue::VUnknown) => SignedValue::VUnknown,
                    (SignedValue::VAddr(a), SignedValue::VAddr(b)) => if a == b {
                        SignedValue::VAddr(a)
                    } else {
                        SignedValue::VUnknown
                    },
                    _ => SignedValue::VUnknown,
                }
            },
            BinOp::Sub => match (e1, e2) {
                (SignedValue::VZero, SignedValue::VPos) => SignedValue::VNeg,
                (SignedValue::VZero, SignedValue::VNeg) => SignedValue::VPos,
                (SignedValue::VZero, SignedValue::VZero) => SignedValue::VZero,
                (SignedValue::VPos, SignedValue::VNeg) => SignedValue::VPos,
                (SignedValue::VNeg, SignedValue::VPos) => SignedValue::VNeg,
                _ => SignedValue::VUnknown,
            },
            BinOp::Mul => match (e1, e2) {
                (SignedValue::VZero, _) => SignedValue::VZero,
                (_, SignedValue::VZero) => SignedValue::VZero,
                (SignedValue::VPos, x) => x,
                (SignedValue::VNeg, SignedValue::VNeg) => SignedValue::VPos,
                (SignedValue::VNeg, SignedValue::VPos) => SignedValue::VNeg,
                _ => SignedValue::VUnknown,
            },
            BinOp::Div => match (e1, e2) {
                (_, SignedValue::VUnknown) => SignedValue::VUnknown,
                (SignedValue::VZero, _) => SignedValue::VZero,
                _ => SignedValue::VUnknown,
            },
            _ => SignedValue::VUnknown,
        };
        Ok(v)
    }

    fn from_lit(l: &Lit) -> (r: Self) {
        match l.lit {
            LiteralKind::LInt(v) => if v > 0 {
                SignedValue::VPos
            } else if v < 0 {
                SignedValue::VNeg
            } else {
                SignedValue::VZero
            },
            LiteralKind::LBool(b) => if b {
                SignedValue::VPos
            } else {
                SignedValue::VZero
            },
        }
    }

    fn from_loc(l: &SimpleAddr) -> (r: Self) {
        SignedValue::VAddr(*l)
    }

    fn unwrap_loc(v: Self) -> (r: Result<SimpleAddr, ErrorKind>) {
        match v {
            SignedValue::VAddr(a) => Ok(a),
            _ => Err(ErrorKind::TypeMismatch),
        }
    }

    fn dup(v: &Self) -> (r: Self) {
        *v
    }
}

/// The sign of an integer, as an abstract value.
pub open spec fn sign_of(i: int) -> SignedValue {
    if i > 0 {
        SignedValue::VPos
    } else if i < 0 {
        SignedValue::VNeg
    } else {
        SignedValue::VZero
    }
}

/// The exact mathematical result of an arithmetic operator (division
/// truncating toward zero, as the concrete domain divides).
pub open spec fn int_op(o: BinOp, m: int, n: int) -> int {
    match o {
        BinOp::Add => m + n,
        BinOp::Sub => m - n,
        BinOp::Mul => m * n,
        _ => tdiv(m, n),
    }
}

/// Soundness of the sign table for addition, subtraction,
/// multiplication and division: the abstract result of combining the
/// operands' signs is never a wrong sign for the exact result; at
/// worst it is unknown. Division asks only that its divisor be
/// nonzero, since a zero divisor has no exact result at all (concrete
/// execution aborts there instead).
pub proof fn lemma_sign_soundness(o: BinOp, m: int, n: int)
    requires
        o == BinOp::Add || o == BinOp::Sub || o == BinOp::Mul || o == BinOp::Div,
        o == BinOp::Div ==> n != 0,
    ensures
        ({
            let a = sign_op(o, sign_of(m), sign_of(n));
            a == SignedValue::VUnknown || a == sign_of(int_op(o, m, n))
        }),
{
    match o {
        BinOp::Mul => {
            if m > 0 && n > 0 {
                assert(m * n > 0) by (nonlinear_arith)
                    requires
                        m > 0 && n > 0,
                ;
            } else if m > 0 && n < 0 {
                assert(m * n < 0) by (nonlinear_arith)
                    requires
                        m > 0 && n < 0,
                ;
            } else if m < 0 && n > 0 {
                assert(m * n < 0) by (nonlinear_arith)
                    requires
                        m < 0 && n > 0,
                ;
            } else if m < 0 && n < 0 {
                assert(m * n > 0) by (nonlinear_arith)
                    requires
                        m < 0 && n < 0,
                ;
            } else {
                assert(m * n == 0) by (nonlinear_arith)
                    requires
                        m == 0 || n == 0,
                ;
            }
        },
        BinOp::Div => {
            if m == 0 {
                assert(tdiv(m, n) == 0);
            }
        },
        _ => {},
    }
}

/// Where the exact result fits in 64 bits (and the divisor is nonzero
/// for division), the concrete domain's operator returns exactly that
/// result: together with the soundness of the sign table, the abstract
/// interpretation never reports a wrong sign for what concrete
/// execution computes.
pub proof fn lemma_concrete_op_exact(o: BinOp, m: i64, n: i64)
    requires
        o == BinOp::Add || o == BinOp::Sub || o == BinOp::Mul || o == BinOp::Div,
        o == BinOp::Div ==> n != 0,
        i64::MIN <= int_op(o, m as int, n as int) <= i64::MAX,
    ensures
        SimpleValue::spec_op(o, SimpleValue::VInt(m), SimpleValue::VInt(n)) == Ok::<
            SimpleValue,
            crate::semantics::ErrorKind,
        >(SimpleValue::VInt(int_op(o, m as int, n as int) as i64)),
{
}

} // verus!
