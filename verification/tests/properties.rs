use auto_diff::contracts::Diff;
use auto_diff::contracts::Eval;
use auto_diff::expr::Const;
use auto_diff::expr::Expr;
use auto_diff::expr::Var;

#[test]
fn constant_evaluates_to_itself() {
    for x in [-7, 0, 3, 100] {
        assert_eq!(Expr::constant(42).eval(x).unwrap(), 42);
        assert_eq!(Expr::constant(-5).eval(x).unwrap(), -5);
    }
}

#[test]
fn variable_evaluates_to_point() {
    for x in [-7, 0, 3, 100] {
        assert_eq!(Expr::variable().eval(x).unwrap(), x);
    }
}

#[test]
fn leaf_derivatives() {
    let dv = Var.diff().unwrap();
    let dc = Const(42).diff().unwrap();
    for x in [-7, 0, 3, 100] {
        assert_eq!(dv.eval(x).unwrap(), 1);
        assert_eq!(dc.eval(x).unwrap(), 0);
    }
}

#[test]
fn sum_derivative_is_sum_of_derivatives() {
    let f = Expr::mul(Expr::constant(3), Expr::variable());
    let g = Expr::pow(Expr::variable(), 2);
    let df = f.diff().unwrap();
    let dg = g.diff().unwrap();
    let dsum = Expr::add(f, g).diff().unwrap();
    for x in [-4, 0, 5] {
        assert_eq!(dsum.eval(x).unwrap(), df.eval(x).unwrap() + dg.eval(x).unwrap());
    }
}

#[test]
fn chain_rule_derivative_shape() {
    // The derivative of exp(2 * x^5) is exp(2 * x^5) * (0 * x^5 + 2 * (5 * (x^4 * 1))).
    let inner = Expr::mul(Expr::constant(2), Expr::pow(Expr::variable(), 5));
    let tree = Expr::exp(inner);
    let d = tree.diff().unwrap();
    let expected_inner_derivative = Expr::add(
        Expr::mul(Expr::constant(0), Expr::pow(Expr::variable(), 5)),
        Expr::mul(
            Expr::constant(2),
            Expr::mul(
                Expr::constant(5),
                Expr::mul(Expr::pow(Expr::variable(), 4), Expr::constant(1)),
            ),
        ),
    );
    let expected = Expr::mul(
        Expr::exp(Expr::mul(Expr::constant(2), Expr::pow(Expr::variable(), 5))),
        expected_inner_derivative,
    );
    assert!(d.equals(&expected));
}

#[test]
fn chain_rule_inner_derivative_values() {
    // The inner factor of the derivative of exp(2 * x^5) is the derivative
    // of 2 * x^5, which at 2 is 10 * 2^4.
    let inner = Expr::mul(Expr::constant(2), Expr::pow(Expr::variable(), 5));
    let d = inner.diff().unwrap();
    assert_eq!(d.eval(2).unwrap(), 160);
}

#[test]
fn subtraction_and_negation_evaluate() {
    let difference = Expr::sub(Expr::variable(), Expr::constant(9));
    assert_eq!(difference.eval(4).unwrap(), -5);
    let negated = Expr::neg(Expr::variable());
    assert_eq!(negated.eval(4).unwrap(), -4);
    assert_eq!(negated.eval(-4).unwrap(), 4);
}

#[test]
fn fold_zero_short_circuit() {
    let unfoldable = Expr::exp(Expr::variable());
    assert!(unfoldable.const_eval().is_err());
    let y = Expr::mul(Expr::constant(0), Expr::exp(Expr::variable()));
    assert_eq!(y.const_eval().unwrap().0, 0);
    let z = Expr::mul(Expr::exp(Expr::variable()), Expr::constant(0));
    assert_eq!(z.const_eval().unwrap().0, 0);
}

#[test]
fn fold_fails_on_variable() {
    assert!(Expr::variable().const_eval().is_err());
    assert!(Expr::add(Expr::constant(1), Expr::variable()).const_eval().is_err());
}

#[test]
fn fold_arithmetic() {
    let y = Expr::sub(
        Expr::mul(Expr::constant(6), Expr::constant(7)),
        Expr::neg(Expr::constant(8)),
    );
    assert_eq!(y.const_eval().unwrap().0, 50);
    let p = Expr::pow(Expr::constant(3), 4);
    assert_eq!(p.const_eval().unwrap().0, 81);
}

#[test]
fn relu_not_differentiable_twice() {
    let relu = Expr::relu(Expr::log(Expr::variable()));
    let first = relu.diff().unwrap();
    let expected = Expr::mul(
        Expr::step(Expr::log(Expr::variable())),
        Expr::mul(Expr::pow(Expr::variable(), -1), Expr::constant(1)),
    );
    assert!(first.equals(&expected));
    assert!(first.diff().is_err());
}

#[test]
fn step_is_not_differentiable() {
    assert!(Expr::step(Expr::variable()).diff().is_err());
    assert!(Expr::add(Expr::variable(), Expr::step(Expr::variable())).diff().is_err());
}

#[test]
fn relu_and_step_evaluate_piecewise() {
    let relu = Expr::relu(Expr::variable());
    let step = Expr::step(Expr::variable());
    assert_eq!(relu.eval(5).unwrap(), 5);
    assert_eq!(relu.eval(-5).unwrap(), 0);
    assert_eq!(relu.eval(0).unwrap(), 0);
    assert_eq!(step.eval(5).unwrap(), 1);
    assert_eq!(step.eval(-5).unwrap(), 0);
    assert_eq!(step.eval(0).unwrap(), 1);
}

#[test]
fn transcendental_nodes_have_no_integer_value() {
    assert!(Expr::exp(Expr::variable()).eval(0).is_none());
    assert!(Expr::log(Expr::variable()).eval(1).is_none());
    assert!(Expr::sin(Expr::variable()).eval(0).is_none());
    assert!(Expr::cos(Expr::variable()).eval(0).is_none());
    assert!(Expr::pow(Expr::variable(), -1).eval(1).is_none());
}

#[test]
fn evaluation_checks_the_machine_range() {
    let big = Expr::add(Expr::constant(i64::MAX), Expr::constant(1));
    assert!(big.eval(0).is_none());
    assert!(big.const_eval().is_err());
    let low = Expr::neg(Expr::constant(i64::MIN));
    assert!(low.eval(0).is_none());
    assert!(low.const_eval().is_err());
    let wide = Expr::pow(Expr::constant(2), 63);
    assert!(wide.eval(0).is_none());
    assert!(wide.const_eval().is_err());
}

#[test]
fn zero_exponent_differentiates_to_zero() {
    let p = Expr::pow(Expr::variable(), 0);
    let d = p.diff().unwrap();
    assert!(d.equals(&Expr::constant(0)));
}

#[test]
fn minimum_exponent_cannot_be_differentiated() {
    let p = Expr::pow(Expr::variable(), i64::MIN);
    assert!(p.diff().is_err());
}

#[test]
fn trigonometric_derivative_shapes() {
    let dsin = Expr::sin(Expr::variable()).diff().unwrap();
    assert!(dsin.equals(&Expr::mul(Expr::cos(Expr::variable()), Expr::constant(1))));
    let dcos = Expr::cos(Expr::variable()).diff().unwrap();
    assert!(dcos.equals(&Expr::mul(
        Expr::neg(Expr::sin(Expr::variable())),
        Expr::constant(1),
    )));
}

#[test]
fn log_derivative_shape() {
    let dlog = Expr::log(Expr::variable()).diff().unwrap();
    assert!(dlog.equals(&Expr::mul(
        Expr::pow(Expr::variable(), -1),
        Expr::constant(1),
    )));
}

#[test]
fn duplicate_preserves_structure() {
    let tree = Expr::sub(
        Expr::neg(Expr::pow(Expr::variable(), 3)),
        Expr::sin(Expr::constant(-2)),
    );
    let copy = tree.duplicate();
    assert!(copy.equals(&tree));
    assert!(!copy.equals(&Expr::variable()));
}
