//! Deciding whether two operands and an operator make a calculation that has
//! a value.

use crate::operand::Operand;
use crate::operator::Operator;
use vstd::prelude::*;

verus! {

/// Why a calculation has no value: it divides by zero.
#[derive(Clone, Copy, Debug, PartialEq, Eq, Structural)]
pub struct DivisionByZero;

/// Whether applying `op` with `b` on the right is a division by exactly zero.
pub open spec fn divides_by_zero(b: Operand, op: Operator) -> bool {
    op == Operator::Divide && b.is_zero()
}

/// Two operands and an operator that have a value: the arithmetic may be
/// carried out on them. A `Calculation` never divides by zero.
#[derive(Clone, Copy, Debug, PartialEq, Eq, Structural)]
pub struct Calculation {
    a: Operand,
    b: Operand,
    op: Operator,
}

impl Calculation {
    #[verifier::type_invariant]
    spec fn has_a_value(self) -> bool {
        !divides_by_zero(self.b, self.op)
    }

    /// The operand on the left.
    pub closed spec fn left(self) -> Operand {
        self.a
    }

    /// The operand on the right.
    pub closed spec fn right(self) -> Operand {
        self.b
    }

    /// The operator between the two.
    pub closed spec fn operator(self) -> Operator {
        self.op
    }

    /// The operand on the left.
    pub fn a(&self) -> (r: Operand)
        ensures
            r == self.left(),
    {
        self.a
    }

    /// The operand on the right. It is not zero where the operator divides.
    pub fn b(&self) -> (r: Operand)
        ensures
            r == self.right(),
            !divides_by_zero(r, self.operator()),
    {
        proof {
            use_type_invariant(self);
        }
        self.b
    }

    /// The operator between the two.
    pub fn op(&self) -> (r: Operator)
        ensures
            r == self.operator(),
            !divides_by_zero(self.right(), r),
    {
        proof {
            use_type_invariant(self);
        }
        self.op
    }
}

/// Forms the calculation `a op b`, or refuses it as a division by zero. A
/// division by zero is an answer like any other: nothing stops, and the
/// caller goes on as it sees fit.
pub fn calculate(a: Operand, b: Operand, op: Operator) -> (r: Result<Calculation, DivisionByZero>)
    ensures
        r is Err <==> divides_by_zero(b, op),
        r matches Ok(c) ==> c.left() == a && c.right() == b && c.operator() == op,
{
    match op {
        Operator::Divide => {
            if b.is_exactly_zero() {
                Err(DivisionByZero)
            } else {
                Ok(Calculation { a, b, op })
            }
        },
        _ => Ok(Calculation { a, b, op }),
    }
}

} // verus!
