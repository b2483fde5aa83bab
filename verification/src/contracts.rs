//! The capability protocols of the engine: every renderable term offers
//! differentiation and evaluation against the same specification
//! functions, so a caller can work uniformly with whole trees and with the
//! individual node types.

use vstd::prelude::*;

use crate::expr::Add;
use crate::expr::Const;
use crate::expr::Cos;
use crate::expr::Error;
use crate::expr::Exp;
use crate::expr::Expr;
use crate::expr::Log;
use crate::expr::Mul;
use crate::expr::Neg;
use crate::expr::Pow;
use crate::expr::Relu;
use crate::expr::Sin;
use crate::expr::Step;
use crate::expr::Sub;
use crate::expr::Var;
use crate::semantics::diff_spec;
use crate::semantics::eval_spec;
use crate::semantics::fold_spec;

verus! {

/// The capability of symbolic differentiation.
pub trait Diff {
    /// The tree the implementor stands for.
    spec fn as_expr(&self) -> Expr;

    /// The derivative of that tree, or `Error` where it has none.
    fn diff(&self) -> (r: Result<Expr, Error>)
        ensures
            (match r {
                Ok(d) => diff_spec(self.as_expr()) == Some(d),
                Err(_) => diff_spec(self.as_expr()) is None,
            }),
    ;
}

/// The capability of numeric and constant evaluation.
pub trait Eval {
    /// The tree the implementor stands for.
    spec fn as_expr(&self) -> Expr;

    /// The value of that tree at the point `x`.
    fn eval(&self, x: i64) -> (r: Option<i64>)
        ensures
            r == eval_spec(self.as_expr(), x),
    ;

    /// That tree folded to a single constant.
    fn const_eval(&self) -> (r: Result<Const, ()>)
        ensures
            (match r {
                Ok(c) => fold_spec(self.as_expr()) == Some(c.0),
                Err(_) => fold_spec(self.as_expr()) is None,
            }),
    ;
}

impl Diff for Expr {
    open spec fn as_expr(&self) -> Expr {
        *self
    }

    fn diff(&self) -> (r: Result<Expr, Error>) {
        self.differentiate()
    }
}

impl Eval for Expr {
    open spec fn as_expr(&self) -> Expr {
        *self
    }

    fn eval(&self, x: i64) -> (r: Option<i64>) {
        self.evaluate(x)
    }

    fn const_eval(&self) -> (r: Result<Const, ()>) {
        Expr::const_eval(self)
    }
}

impl Diff for Const {
    open spec fn as_expr(&self) -> Expr {
        Expr::Const(*self)
    }

    fn diff(&self) -> (r: Result<Expr, Error>) {
        Ok(Expr::constant(0))
    }
}

impl Eval for Const {
    open spec fn as_expr(&self) -> Expr {
        Expr::Const(*self)
    }

    fn eval(&self, _x: i64) -> (r: Option<i64>) {
        Some(self.0)
    }

    fn const_eval(&self) -> (r: Result<Const, ()>) {
        Ok(Const(self.0))
    }
}

impl Diff for Var {
    open spec fn as_expr(&self) -> Expr {
        Expr::Var(*self)
    }

    fn diff(&self) -> (r: Result<Expr, Error>) {
        Ok(Expr::constant(1))
    }
}

impl Eval for Var {
    open spec fn as_expr(&self) -> Expr {
        Expr::Var(*self)
    }

    fn eval(&self, x: i64) -> (r: Option<i64>) {
        Some(x)
    }

    fn const_eval(&self) -> (r: Result<Const, ()>) {
        Err(())
    }
}

impl Diff for Add {
    open spec fn as_expr(&self) -> Expr {
        Expr::Add(*self)
    }

    fn diff(&self) -> (r: Result<Expr, Error>) {
        let dl = self.0.differentiate()?;
        let dr = self.1.differentiate()?;
        Ok(Expr::add(dl, dr))
    }
}

impl Diff for Sub {
    open spec fn as_expr(&self) -> Expr {
        Expr::Sub(*self)
    }

    fn diff(&self) -> (r: Result<Expr, Error>) {
        let dl = self.0.differentiate()?;
        let dr = self.1.differentiate()?;
        Ok(Expr::sub(dl, dr))
    }
}

impl Diff for Mul {
    open spec fn as_expr(&self) -> Expr {
        Expr::Mul(*self)
    }

    fn diff(&self) -> (r: Result<Expr, Error>) {
        let dl = self.0.differentiate()?;
        let dr = self.1.differentiate()?;
        Ok(Expr::add(Expr::mul(dl, self.1.duplicate()), Expr::mul(self.0.duplicate(), dr)))
    }
}

impl Diff for Neg {
    open spec fn as_expr(&self) -> Expr {
        Expr::Neg(*self)
    }

    fn diff(&self) -> (r: Result<Expr, Error>) {
        let d = self.0.differentiate()?;
        Ok(Expr::neg(d))
    }
}

impl Diff for Pow {
    open spec fn as_expr(&self) -> Expr {
        Expr::Pow(*self)
    }

    fn diff(&self) -> (r: Result<Expr, Error>) {
        if self.1 == 0 {
            Ok(Expr::constant(0))
        } else if self.1 == i64::MIN {
            Err(Error)
        } else {
            let d = self.0.differentiate()?;
            Ok(Expr::mul(
                Expr::constant(self.1),
                Expr::mul(Expr::pow(self.0.duplicate(), self.1 - 1), d),
            ))
        }
    }
}

impl Diff for Exp {
    open spec fn as_expr(&self) -> Expr {
        Expr::Exp(*self)
    }

    fn diff(&self) -> (r: Result<Expr, Error>) {
        let d = self.0.differentiate()?;
        Ok(Expr::mul(Expr::exp(self.0.duplicate()), d))
    }
}

impl Diff for Log {
    open spec fn as_expr(&self) -> Expr {
        Expr::Log(*self)
    }

    fn diff(&self) -> (r: Result<Expr, Error>) {
        let d = self.0.differentiate()?;
        Ok(Expr::mul(Expr::pow(self.0.duplicate(), -1), d))
    }
}

impl Diff for Sin {
    open spec fn as_expr(&self) -> Expr {
        Expr::Sin(*self)
    }

    fn diff(&self) -> (r: Result<Expr, Error>) {
        let d = self.0.differentiate()?;
        Ok(Expr::mul(Expr::cos(self.0.duplicate()), d))
    }
}

impl Diff for Cos {
    open spec fn as_expr(&self) -> Expr {
        Expr::Cos(*self)
    }

    fn diff(&self) -> (r: Result<Expr, Error>) {
        let d = self.0.differentiate()?;
        Ok(Expr::mul(Expr::neg(Expr::sin(self.0.duplicate())), d))
    }
}

impl Diff for Relu {
    open spec fn as_expr(&self) -> Expr {
        Expr::Relu(*self)
    }

    fn diff(&self) -> (r: Result<Expr, Error>) {
        let d = self.0.differentiate()?;
        Ok(Expr::mul(Expr::step(self.0.duplicate()), d))
    }
}

impl Diff for Step {
    open spec fn as_expr(&self) -> Expr {
        Expr::Step(*self)
    }

    fn diff(&self) -> (r: Result<Expr, Error>) {
        Err(Error)
    }
}

} // verus!
