use auto_diff::expr::Expr;

#[test]
fn render_leaves() {
    assert_eq!(Expr::constant(16).render(), "16");
    assert_eq!(Expr::constant(-3).render(), "-3");
    assert_eq!(Expr::constant(0).render(), "0");
    assert_eq!(Expr::variable().render(), "x");
}

#[test]
fn render_binary_operators() {
    let sum = Expr::add(Expr::constant(1), Expr::variable());
    assert_eq!(sum.render(), "(1) + (x)");
    let difference = Expr::sub(Expr::variable(), Expr::constant(2));
    assert_eq!(difference.render(), "(x) - (2)");
    let product = Expr::mul(Expr::constant(16), Expr::variable());
    assert_eq!(product.render(), "(16) * (x)");
}

#[test]
fn render_unary_functions() {
    assert_eq!(Expr::neg(Expr::variable()).render(), "-(x)");
    assert_eq!(Expr::exp(Expr::variable()).render(), "exp(x)");
    assert_eq!(Expr::log(Expr::variable()).render(), "log(x)");
    assert_eq!(Expr::sin(Expr::variable()).render(), "sin(x)");
    assert_eq!(Expr::cos(Expr::variable()).render(), "cos(x)");
    assert_eq!(Expr::relu(Expr::variable()).render(), "relu(x)");
    assert_eq!(Expr::step(Expr::variable()).render(), "step(x)");
}

#[test]
fn render_powers_and_nesting() {
    assert_eq!(Expr::pow(Expr::variable(), 6).render(), "(x)^6");
    assert_eq!(Expr::pow(Expr::variable(), -1).render(), "(x)^-1");
    let nested = Expr::mul(
        Expr::exp(Expr::variable()),
        Expr::add(Expr::constant(1), Expr::exp(Expr::variable())),
    );
    assert_eq!(nested.render(), "(exp(x)) * ((1) + (exp(x)))");
}

#[test]
fn render_large_numerals() {
    assert_eq!(Expr::constant(9007199254).render(), "9007199254");
    assert_eq!(Expr::constant(i64::MIN).render(), format!("{}", i64::MIN));
    assert_eq!(Expr::constant(i64::MAX).render(), format!("{}", i64::MAX));
}
