//! The mathematical models of the four operations.
//!
//! Every executable operation of the crate is pinned to one of the
//! specification functions here: `sem` gives the ideal, unbounded integer
//! meaning of a tree, `eval_spec` and `fold_spec` the range-checked meanings
//! that the evaluator and the constant folder realise, and `diff_spec` the
//! exact derivative tree.

use vstd::prelude::*;

use crate::expr::Expr;
use crate::expr::mk_add;
use crate::expr::mk_const;
use crate::expr::mk_cos;
use crate::expr::mk_exp;
use crate::expr::mk_mul;
use crate::expr::mk_neg;
use crate::expr::mk_pow;
use crate::expr::mk_sin;
use crate::expr::mk_step;
use crate::expr::mk_sub;

verus! {

/// `b` to the power `k` over the unbounded integers.
pub open spec fn pow_int(b: int, k: nat) -> int
    decreases k,
{
    if k == 0 {
        1
    } else {
        pow_int(b, (k - 1) as nat) * b
    }
}

/// The checked integer power the evaluator computes: starting from one, the
/// base is multiplied in `k` times, and the power fails as soon as one step
/// leaves the `i64` range.
pub open spec fn checked_pow(b: i64, k: i64) -> Option<i64>
    decreases k,
{
    if k <= 0 {
        Some(1)
    } else {
        match checked_pow(b, (k - 1) as i64) {
            Some(r) => r.checked_mul(b),
            None => None,
        }
    }
}

/// The ideal meaning of a tree at the point `x`, over the unbounded
/// integers. Nodes whose value is not an integer — the exponential, the
/// logarithm, the trigonometric functions, and powers with a negative
/// exponent — have no ideal meaning, and the gap propagates upward.
pub open spec fn sem(e: Expr, x: int) -> Option<int>
    decreases e,
{
    match e {
        Expr::Const(c) => Some(c.0 as int),
        Expr::Var(_) => Some(x),
        Expr::Add(a) => match (sem(*a.0, x), sem(*a.1, x)) {
            (Some(u), Some(v)) => Some(u + v),
            _ => None,
        },
        Expr::Sub(s) => match (sem(*s.0, x), sem(*s.1, x)) {
            (Some(u), Some(v)) => Some(u - v),
            _ => None,
        },
        Expr::Mul(m) => match (sem(*m.0, x), sem(*m.1, x)) {
            (Some(u), Some(v)) => Some(u * v),
            _ => None,
        },
        Expr::Neg(n) => match sem(*n.0, x) {
            Some(v) => Some(-v),
            None => None,
        },
        Expr::Pow(p) => match sem(*p.0, x) {
            Some(v) => if p.1 >= 0 {
                Some(pow_int(v, p.1 as nat))
            } else {
                None
            },
            None => None,
        },
        Expr::Exp(_) => None,
        Expr::Log(_) => None,
        Expr::Sin(_) => None,
        Expr::Cos(_) => None,
        Expr::Relu(r) => match sem(*r.0, x) {
            Some(v) => Some(if v >= 0 { v } else { 0 }),
            None => None,
        },
        Expr::Step(s) => match sem(*s.0, x) {
            Some(v) => Some(if v >= 0 { 1int } else { 0int }),
            None => None,
        },
    }
}

/// The meaning the evaluator realises: `sem` restricted to machine
/// integers, failing as soon as an intermediate result leaves the `i64`
/// range.
pub open spec fn eval_spec(e: Expr, x: i64) -> Option<i64>
    decreases e,
{
    match e {
        Expr::Const(c) => Some(c.0),
        Expr::Var(_) => Some(x),
        Expr::Add(a) => match (eval_spec(*a.0, x), eval_spec(*a.1, x)) {
            (Some(u), Some(v)) => u.checked_add(v),
            _ => None,
        },
        Expr::Sub(s) => match (eval_spec(*s.0, x), eval_spec(*s.1, x)) {
            (Some(u), Some(v)) => u.checked_sub(v),
            _ => None,
        },
        Expr::Mul(m) => match (eval_spec(*m.0, x), eval_spec(*m.1, x)) {
            (Some(u), Some(v)) => u.checked_mul(v),
            _ => None,
        },
        Expr::Neg(n) => match eval_spec(*n.0, x) {
            Some(v) => if v != i64::MIN {
                Some((-(v as int)) as i64)
            } else {
                None
            },
            None => None,
        },
        Expr::Pow(p) => match eval_spec(*p.0, x) {
            Some(v) => if p.1 >= 0 {
                checked_pow(v, p.1)
            } else {
                None
            },
            None => None,
        },
        Expr::Exp(_) => None,
        Expr::Log(_) => None,
        Expr::Sin(_) => None,
        Expr::Cos(_) => None,
        Expr::Relu(r) => match eval_spec(*r.0, x) {
            Some(v) => Some(if v >= 0 { v } else { 0 }),
            None => None,
        },
        Expr::Step(s) => match eval_spec(*s.0, x) {
            Some(v) => Some(if v >= 0 { 1i64 } else { 0i64 }),
            None => None,
        },
    }
}

/// The meaning the constant folder realises: the value of a variable-free
/// tree, with one strength reduction — a product one of whose sides folds
/// to exactly zero folds to zero even where the other side cannot fold.
pub open spec fn fold_spec(e: Expr) -> Option<i64>
    decreases e,
{
    match e {
        Expr::Const(c) => Some(c.0),
        Expr::Var(_) => None,
        Expr::Add(a) => match (fold_spec(*a.0), fold_spec(*a.1)) {
            (Some(u), Some(v)) => u.checked_add(v),
            _ => None,
        },
        Expr::Sub(s) => match (fold_spec(*s.0), fold_spec(*s.1)) {
            (Some(u), Some(v)) => u.checked_sub(v),
            _ => None,
        },
        Expr::Mul(m) => {
            let l = fold_spec(*m.0);
            let r = fold_spec(*m.1);
            if l == Some(0i64) {
                Some(0i64)
            } else if r == Some(0i64) {
                Some(0i64)
            } else {
                match (l, r) {
                    (Some(u), Some(v)) => u.checked_mul(v),
                    _ => None,
                }
            }
        },
        Expr::Neg(n) => match fold_spec(*n.0) {
            Some(v) => if v != i64::MIN {
                Some((-(v as int)) as i64)
            } else {
                None
            },
            None => None,
        },
        Expr::Pow(p) => match fold_spec(*p.0) {
            Some(v) => if p.1 >= 0 {
                checked_pow(v, p.1)
            } else {
                None
            },
            None => None,
        },
        Expr::Exp(_) => None,
        Expr::Log(_) => None,
        Expr::Sin(_) => None,
        Expr::Cos(_) => None,
        Expr::Relu(r) => match fold_spec(*r.0) {
            Some(v) => Some(if v >= 0 { v } else { 0 }),
            None => None,
        },
        Expr::Step(s) => match fold_spec(*s.0) {
            Some(v) => Some(if v >= 0 { 1i64 } else { 0i64 }),
            None => None,
        },
    }
}

/// The exact derivative tree, or `None` where the tree has no derivative:
/// where it contains a reachable `Step` node, or a power whose exponent is
/// the smallest machine integer and so cannot be decremented.
pub open spec fn diff_spec(e: Expr) -> Option<Expr>
    decreases e,
{
    match e {
        Expr::Const(_) => Some(mk_const(0)),
        Expr::Var(_) => Some(mk_const(1)),
        Expr::Add(a) => match (diff_spec(*a.0), diff_spec(*a.1)) {
            (Some(dl), Some(dr)) => Some(mk_add(dl, dr)),
            _ => None,
        },
        Expr::Sub(s) => match (diff_spec(*s.0), diff_spec(*s.1)) {
            (Some(dl), Some(dr)) => Some(mk_sub(dl, dr)),
            _ => None,
        },
        Expr::Mul(m) => match (diff_spec(*m.0), diff_spec(*m.1)) {
            (Some(dl), Some(dr)) => Some(mk_add(mk_mul(dl, *m.1), mk_mul(*m.0, dr))),
            _ => None,
        },
        Expr::Neg(n) => match diff_spec(*n.0) {
            Some(d) => Some(mk_neg(d)),
            None => None,
        },
        Expr::Pow(p) => if p.1 == 0 {
            Some(mk_const(0))
        } else if p.1 == i64::MIN {
            None
        } else {
            match diff_spec(*p.0) {
                Some(d) => Some(mk_mul(mk_const(p.1), mk_mul(mk_pow(*p.0, (p.1 - 1) as i64), d))),
                None => None,
            }
        },
        Expr::Exp(e2) => match diff_spec(*e2.0) {
            Some(d) => Some(mk_mul(mk_exp(*e2.0), d)),
            None => None,
        },
        Expr::Log(l) => match diff_spec(*l.0) {
            Some(d) => Some(mk_mul(mk_pow(*l.0, -1i64), d)),
            None => None,
        },
        Expr::Sin(s) => match diff_spec(*s.0) {
            Some(d) => Some(mk_mul(mk_cos(*s.0), d)),
            None => None,
        },
        Expr::Cos(c) => match diff_spec(*c.0) {
            Some(d) => Some(mk_mul(mk_neg(mk_sin(*c.0)), d)),
            None => None,
        },
        Expr::Relu(r) => match diff_spec(*r.0) {
            Some(d) => Some(mk_mul(mk_step(*r.0), d)),
            None => None,
        },
        Expr::Step(_) => None,
    }
}

/// Whether a tree has a derivative.
pub open spec fn differentiable(e: Expr) -> bool {
    diff_spec(e) is Some
}

} // verus!
