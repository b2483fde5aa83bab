//! The general laws of the engine, stated over the specification functions
//! and proved once for every tree.

use vstd::prelude::*;

use crate::expr::Expr;
use crate::expr::mk_add;
use crate::expr::mk_const;
use crate::expr::mk_mul;
use crate::expr::mk_pow;
use crate::expr::mk_relu;
use crate::expr::mk_step;
use crate::expr::mk_var;
use crate::semantics::checked_pow;
use crate::semantics::diff_spec;
use crate::semantics::differentiable;
use crate::semantics::eval_spec;
use crate::semantics::fold_spec;
use crate::semantics::pow_int;
use crate::semantics::sem;

verus! {

/// A constant evaluates to itself at every point.
pub proof fn lemma_constant_evaluates_to_itself(c: i64, x: int)
    ensures
        sem(mk_const(c), x) == Some(c as int),
{
}

/// The variable evaluates to the point itself, everywhere.
pub proof fn lemma_variable_evaluates_to_point(x: int)
    ensures
        sem(mk_var(), x) == Some(x),
{
}

/// The derivative of the variable is a tree that evaluates to one
/// everywhere.
pub proof fn lemma_variable_derivative(x: int)
    ensures
        diff_spec(mk_var()) == Some(mk_const(1)),
        sem(diff_spec(mk_var()).unwrap(), x) == Some(1int),
{
}

/// The derivative of a constant is a tree that evaluates to zero
/// everywhere.
pub proof fn lemma_constant_derivative(c: i64, x: int)
    ensures
        diff_spec(mk_const(c)) == Some(mk_const(0)),
        sem(diff_spec(mk_const(c)).unwrap(), x) == Some(0int),
{
}

/// Linearity of differentiation: the derivative of a sum is the sum of the
/// derivatives, and at every point its value is the sum of their values.
pub proof fn lemma_sum_rule(f: Expr, g: Expr, x: int)
    requires
        differentiable(f),
        differentiable(g),
    ensures
        diff_spec(mk_add(f, g)) == Some(mk_add(diff_spec(f).unwrap(), diff_spec(g).unwrap())),
        (match (sem(diff_spec(f).unwrap(), x), sem(diff_spec(g).unwrap(), x)) {
            (Some(u), Some(v)) => sem(diff_spec(mk_add(f, g)).unwrap(), x) == Some(u + v),
            _ => sem(diff_spec(mk_add(f, g)).unwrap(), x) is None,
        }),
{
}

/// The product rule: the derivative of a product is the first factor's
/// derivative times the second factor, plus the first factor times the
/// second factor's derivative.
pub proof fn lemma_product_rule(f: Expr, g: Expr)
    requires
        differentiable(f),
        differentiable(g),
    ensures
        diff_spec(mk_mul(f, g)) == Some(
            mk_add(mk_mul(diff_spec(f).unwrap(), g), mk_mul(f, diff_spec(g).unwrap())),
        ),
{
}

/// The product rule numerically: wherever the factors and their
/// derivatives all have a value, the derivative of the product evaluates
/// to `f' * g + f * g'`.
pub proof fn lemma_product_rule_semantics(f: Expr, g: Expr, x: int)
    requires
        differentiable(f),
        differentiable(g),
        sem(f, x) is Some,
        sem(g, x) is Some,
        sem(diff_spec(f).unwrap(), x) is Some,
        sem(diff_spec(g).unwrap(), x) is Some,
    ensures
        sem(diff_spec(mk_mul(f, g)).unwrap(), x) == Some(
            sem(diff_spec(f).unwrap(), x).unwrap() * sem(g, x).unwrap() + sem(f, x).unwrap()
                * sem(diff_spec(g).unwrap(), x).unwrap(),
        ),
{
    let df = diff_spec(f).unwrap();
    let dg = diff_spec(g).unwrap();
    assert(diff_spec(mk_mul(f, g)) == Some(mk_add(mk_mul(df, g), mk_mul(f, dg))));
    assert(sem(mk_mul(df, g), x) == Some(sem(df, x).unwrap() * sem(g, x).unwrap()));
    assert(sem(mk_mul(f, dg), x) == Some(sem(f, x).unwrap() * sem(dg, x).unwrap()));
    assert(sem(mk_add(mk_mul(df, g), mk_mul(f, dg)), x) == Some(
        sem(df, x).unwrap() * sem(g, x).unwrap() + sem(f, x).unwrap() * sem(dg, x).unwrap(),
    ));
}

/// The power rule: for a non-zero exponent that can be decremented, the
/// derivative of `e^k` is `k * (e^(k-1) * e')`.
pub proof fn lemma_power_rule(e: Expr, k: i64)
    requires
        differentiable(e),
        k != 0,
        k != i64::MIN,
    ensures
        diff_spec(mk_pow(e, k)) == Some(
            mk_mul(mk_const(k), mk_mul(mk_pow(e, (k - 1) as i64), diff_spec(e).unwrap())),
        ),
{
}

/// A power with exponent zero is constant, so its derivative is the zero
/// constant, whatever stands under it.
pub proof fn lemma_power_zero_exponent(e: Expr)
    ensures
        diff_spec(mk_pow(e, 0)) == Some(mk_const(0)),
{
}

/// The zero short-circuit of constant folding: a product with a literal
/// zero on either side folds to zero, whatever the other side is — even a
/// tree that cannot itself be folded.
pub proof fn lemma_fold_zero_short_circuit(e: Expr)
    ensures
        fold_spec(mk_mul(mk_const(0), e)) == Some(0i64),
        fold_spec(mk_mul(e, mk_const(0))) == Some(0i64),
{
    assert(fold_spec(mk_const(0)) == Some(0i64));
    assert(fold_spec(mk_mul(mk_const(0), e)) == Some(0i64));
    assert(fold_spec(mk_mul(e, mk_const(0))) == Some(0i64));
}

/// The derivative of a rectifier contains a `Step` factor, so
/// differentiating it a second time always fails.
pub proof fn lemma_relu_second_derivative_fails(e: Expr)
    ensures
        (diff_spec(mk_relu(e)) matches Some(d) ==> diff_spec(d) is None),
{
    match diff_spec(e) {
        Some(de) => {
            assert(diff_spec(mk_relu(e)) == Some(mk_mul(mk_step(e), de)));
            assert(diff_spec(mk_step(e)) is None);
            assert(diff_spec(mk_mul(mk_step(e), de)) is None);
        },
        None => {
            assert(diff_spec(mk_relu(e)) is None);
        },
    }
}

/// The checked power agrees with the unbounded power wherever it yields a
/// value.
proof fn lemma_checked_pow_sound(b: i64, k: i64)
    requires
        0 <= k,
    ensures
        (checked_pow(b, k) matches Some(w) ==> pow_int(b as int, k as nat) == w as int),
    decreases k,
{
    if k > 0 {
        lemma_checked_pow_sound(b, (k - 1) as i64);
    }
}

/// Soundness of the checked evaluator: wherever it yields a value, that
/// value is the ideal, unbounded meaning of the tree.
pub proof fn lemma_evaluation_sound(e: Expr, x: i64)
    ensures
        (eval_spec(e, x) matches Some(v) ==> sem(e, x as int) == Some(v as int)),
    decreases e,
{
    match e {
        Expr::Const(_) => {},
        Expr::Var(_) => {},
        Expr::Add(a) => {
            lemma_evaluation_sound(*a.0, x);
            lemma_evaluation_sound(*a.1, x);
        },
        Expr::Sub(s) => {
            lemma_evaluation_sound(*s.0, x);
            lemma_evaluation_sound(*s.1, x);
        },
        Expr::Mul(m) => {
            lemma_evaluation_sound(*m.0, x);
            lemma_evaluation_sound(*m.1, x);
        },
        Expr::Neg(n) => {
            lemma_evaluation_sound(*n.0, x);
        },
        Expr::Pow(p) => {
            lemma_evaluation_sound(*p.0, x);
            if p.1 >= 0 {
                match eval_spec(*p.0, x) {
                    Some(b) => lemma_checked_pow_sound(b, p.1),
                    None => {},
                }
            }
        },
        Expr::Exp(_) => {},
        Expr::Log(_) => {},
        Expr::Sin(_) => {},
        Expr::Cos(_) => {},
        Expr::Relu(r) => {
            lemma_evaluation_sound(*r.0, x);
        },
        Expr::Step(s) => {
            lemma_evaluation_sound(*s.0, x);
        },
    }
}

/// Soundness of constant folding: a tree that folds to a value evaluates
/// to that value at every point at which it has an ideal meaning at all.
pub proof fn lemma_fold_sound(e: Expr, x: int)
    ensures
        (fold_spec(e) matches Some(v) ==> (sem(e, x) is Some ==> sem(e, x) == Some(v as int))),
    decreases e,
{
    match e {
        Expr::Const(_) => {},
        Expr::Var(_) => {},
        Expr::Add(a) => {
            lemma_fold_sound(*a.0, x);
            lemma_fold_sound(*a.1, x);
        },
        Expr::Sub(s) => {
            lemma_fold_sound(*s.0, x);
            lemma_fold_sound(*s.1, x);
        },
        Expr::Mul(m) => {
            lemma_fold_sound(*m.0, x);
            lemma_fold_sound(*m.1, x);
        },
        Expr::Neg(n) => {
            lemma_fold_sound(*n.0, x);
        },
        Expr::Pow(p) => {
            lemma_fold_sound(*p.0, x);
            if p.1 >= 0 {
                match fold_spec(*p.0) {
                    Some(b) => lemma_checked_pow_sound(b, p.1),
                    None => {},
                }
            }
        },
        Expr::Exp(_) => {},
        Expr::Log(_) => {},
        Expr::Sin(_) => {},
        Expr::Cos(_) => {},
        Expr::Relu(r) => {
            lemma_fold_sound(*r.0, x);
        },
        Expr::Step(s) => {
            lemma_fold_sound(*s.0, x);
        },
    }
}

} // verus!
