use auto_diff::contracts::Diff;
use auto_diff::contracts::Eval;
use auto_diff::expr::Const;
use auto_diff::expr::Expr;

#[test]
fn const_test() {
    let x = Const(16);
    let dx = x.diff().unwrap();
    assert_eq!(x.eval(6).unwrap(), 16);
    assert_eq!(dx.eval(6).unwrap(), 0);
}

#[test]
fn add_test() {
    let x = Expr::constant(16);
    let y = Expr::constant(4);
    let x_add_y = Expr::add(x, y);
    let res = x_add_y.diff().unwrap();
    assert_eq!(x_add_y.eval(6).unwrap(), 20);
    assert_eq!(res.eval(6).unwrap(), 0);
}

#[test]
fn mul_test() {
    let x = Expr::constant(16);
    let y = Expr::variable();
    let x_mul_y = Expr::mul(x, y);
    assert_eq!(x_mul_y.eval(4).unwrap(), 64);
    let res = x_mul_y.diff().unwrap();
    assert_eq!(res.eval(6).unwrap(), 16);
}

#[test]
fn pow_test() {
    let x = Expr::pow(Expr::variable(), 6);
    assert_eq!(x.eval(2).unwrap(), 64);
    let dx = x.diff().unwrap();
    assert_eq!(dx.eval(2).unwrap(), 192);
}

#[test]
fn const_eval_test() {
    let y = Expr::mul(Expr::constant(0), Expr::exp(Expr::variable()));
    assert_eq!(y.const_eval().unwrap().0, 0);

    let y = Expr::add(
        Expr::mul(Expr::constant(1), Expr::constant(2)),
        Expr::exp(Expr::log(Expr::variable())),
    );
    assert!(y.const_eval().is_err());
}
