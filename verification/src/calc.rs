//! The calculator's decision logic: recognising the quit token, picking
//! the arithmetic operation from its symbol, and refusing division by
//! zero before any division is attempted.  The arithmetic itself runs on
//! floating-point numbers outside the library.

use vstd::prelude::*;
use vstd::string::StringExecFns;
use crate::text::str_eq;

verus! {

/// The four arithmetic operations the calculator performs.
#[derive(Clone, Copy, PartialEq, Eq, Structural, Debug)]
pub enum Op {
    Add,
    Sub,
    Mul,
    Div,
}

/// Why a calculation was refused.
#[derive(Clone, PartialEq, Eq, Debug)]
pub enum CalcError {
    /// The operation was "/" and the second operand was zero.
    DivisionByZero,
    /// The operation symbol is none of "+", "-", "*", "/"; the offending
    /// symbol is carried along.
    InvalidOperation(String),
}

/// The operation a symbol stands for, if any.
pub open spec fn spec_op_of(s: Seq<char>) -> Option<Op> {
    if s == "+"@ {
        Some(Op::Add)
    } else if s == "-"@ {
        Some(Op::Sub)
    } else if s == "*"@ {
        Some(Op::Mul)
    } else if s == "/"@ {
        Some(Op::Div)
    } else {
        None
    }
}

/// Whether `s` is the calculator's quit token: the letter q in either
/// case, entered in place of the first operand.
pub fn is_quit_token(s: &str) -> (r: bool)
    ensures
        r <==> (s@ == "q"@ || s@ == "Q"@),
{
    str_eq(s, "q") || str_eq(s, "Q")
}

/// Decides one calculator round from the operation symbol and whether
/// the second operand is zero.  Division by zero is refused before the
/// symbol is dispatched; an unknown symbol is refused with the symbol
/// itself in the error.
pub fn calculate_op(operation: &str, divisor_is_zero: bool) -> (r: Result<Op, CalcError>)
    ensures
        operation@ == "/"@ && divisor_is_zero ==> r is Err && r->Err_0 is DivisionByZero,
        !(operation@ == "/"@ && divisor_is_zero) ==> match spec_op_of(operation@) {
            Some(op) => r is Ok && r->Ok_0 == op,
            None => r is Err && r->Err_0 is InvalidOperation
                && r->Err_0->InvalidOperation_0@ == operation@,
        },
        r is Err ==> (r->Err_0 is DivisionByZero <==> operation@ == "/"@),
{
    proof {
        reveal_strlit("+");
        reveal_strlit("-");
        reveal_strlit("*");
        reveal_strlit("/");
        assert("+"@[0] == '+');
        assert("-"@[0] == '-');
        assert("*"@[0] == '*');
        assert("/"@[0] == '/');
    }
    if str_eq(operation, "/") {
        if divisor_is_zero {
            Err(CalcError::DivisionByZero)
        } else {
            Ok(Op::Div)
        }
    } else if str_eq(operation, "+") {
        Ok(Op::Add)
    } else if str_eq(operation, "-") {
        Ok(Op::Sub)
    } else if str_eq(operation, "*") {
        Ok(Op::Mul)
    } else {
        Err(CalcError::InvalidOperation(String::from_str(operation)))
    }
}

impl CalcError {
    /// The human-readable message the calculator prints for this error.
    pub fn message(&self) -> (m: String)
        ensures
            self is DivisionByZero ==> m@ == "Division by zero is not allowed"@,
            self is InvalidOperation ==> m@ == "Invalid operation: '"@
                + self->InvalidOperation_0@ + "'"@,
    {
        match self {
            CalcError::DivisionByZero => String::from_str("Division by zero is not allowed"),
            CalcError::InvalidOperation(op) => {
                let head = String::from_str("Invalid operation: '");
                let with_op = head.concat(op.as_str());
                with_op.concat("'")
            },
        }
    }
}

} // verus!
