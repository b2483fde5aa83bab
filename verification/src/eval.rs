//! Numeric evaluation at a point, over machine integers with checked
//! arithmetic: the result is exactly [`crate::semantics::eval_spec`].

use vstd::prelude::*;

use crate::expr::Expr;
use crate::semantics::checked_pow;
use crate::semantics::eval_spec;

verus! {

/// A failed power step never recovers: once the running product has left
/// the `i64` range at width `j`, every wider power fails too.
proof fn lemma_checked_pow_none(b: i64, j: i64, k: i64)
    requires
        0 < j <= k,
        checked_pow(b, j) is None,
    ensures
        checked_pow(b, k) is None,
    decreases k - j,
{
    if j < k {
        assert(checked_pow(b, (j + 1) as i64) is None);
        lemma_checked_pow_none(b, (j + 1) as i64, k);
    }
}

/// `b` to the power `k` by repeated checked multiplication.
pub(crate) fn pow_checked(b: i64, k: i64) -> (r: Option<i64>)
    requires
        0 <= k,
    ensures
        r == checked_pow(b, k),
{
    let mut result: i64 = 1;
    let mut i: i64 = 0;
    while i < k
        invariant
            0 <= i <= k,
            checked_pow(b, i) == Some(result),
        decreases k - i,
    {
        match result.checked_mul(b) {
            Some(next) => {
                result = next;
                i = i + 1;
            },
            None => {
                proof {
                    lemma_checked_pow_none(b, (i + 1) as i64, k);
                }
                return None;
            },
        }
    }
    Some(result)
}

impl Expr {
    /// The value of the tree at the point `x`, or `None` where the value
    /// is not a machine integer: where the tree holds an exponential, a
    /// logarithm, a sine, a cosine or a negative power, or where an
    /// intermediate result leaves the `i64` range.
    pub fn evaluate(&self, x: i64) -> (r: Option<i64>)
        ensures
            r == eval_spec(*self, x),
        decreases self,
    {
        match self {
            Expr::Const(c) => Some(c.0),
            Expr::Var(_) => Some(x),
            Expr::Add(a) => match (a.0.evaluate(x), a.1.evaluate(x)) {
                (Some(u), Some(v)) => u.checked_add(v),
                _ => None,
            },
            Expr::Sub(s) => match (s.0.evaluate(x), s.1.evaluate(x)) {
                (Some(u), Some(v)) => u.checked_sub(v),
                _ => None,
            },
            Expr::Mul(m) => match (m.0.evaluate(x), m.1.evaluate(x)) {
                (Some(u), Some(v)) => u.checked_mul(v),
                _ => None,
            },
            Expr::Neg(n) => match n.0.evaluate(x) {
                Some(v) => if v != i64::MIN {
                    Some(-v)
                } else {
                    None
                },
                None => None,
            },
            Expr::Pow(p) => match p.0.evaluate(x) {
                Some(v) => if p.1 >= 0 {
                    pow_checked(v, p.1)
                } else {
                    None
                },
                None => None,
            },
            Expr::Exp(_) => None,
            Expr::Log(_) => None,
            Expr::Sin(_) => None,
            Expr::Cos(_) => None,
            Expr::Relu(r) => match r.0.evaluate(x) {
                Some(v) => Some(if v >= 0 { v } else { 0 }),
                None => None,
            },
            Expr::Step(s) => match s.0.evaluate(x) {
                Some(v) => Some(if v >= 0 { 1 } else { 0 }),
                None => None,
            },
        }
    }
}

} // verus!
