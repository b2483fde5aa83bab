//! Constant folding: collapsing a variable-free tree to a single constant
//! without a point to evaluate at. The result is exactly
//! [`crate::semantics::fold_spec`], including the zero short-circuit on
//! products.

use vstd::prelude::*;

use crate::expr::Const;
use crate::expr::Expr;
use crate::semantics::fold_spec;

verus! {

impl Expr {
    /// Folds the tree to a single constant, or fails where a `Variable`
    /// node, a node with no integer value, or a result outside the `i64`
    /// range is reached. A product one of whose sides folds to exactly
    /// zero folds to zero even where the other side cannot fold.
    pub fn const_eval(&self) -> (r: Result<Const, ()>)
        ensures
            match r {
                Ok(c) => fold_spec(*self) == Some(c.0),
                Err(_) => fold_spec(*self) is None,
            },
        decreases self,
    {
        match self {
            Expr::Const(c) => Ok(Const(c.0)),
            Expr::Var(_) => Err(()),
            Expr::Add(a) => match (a.0.const_eval(), a.1.const_eval()) {
                (Ok(u), Ok(v)) => match u.0.checked_add(v.0) {
                    Some(w) => Ok(Const(w)),
                    None => Err(()),
                },
                _ => Err(()),
            },
            Expr::Sub(s) => match (s.0.const_eval(), s.1.const_eval()) {
                (Ok(u), Ok(v)) => match u.0.checked_sub(v.0) {
                    Some(w) => Ok(Const(w)),
                    None => Err(()),
                },
                _ => Err(()),
            },
            Expr::Mul(m) => {
                let l = m.0.const_eval();
                let r = m.1.const_eval();
                match (l, r) {
                    (Ok(u), rhs) => {
                        if u.0 == 0 {
                            Ok(Const(0))
                        } else {
                            match rhs {
                                Ok(v) => {
                                    if v.0 == 0 {
                                        Ok(Const(0))
                                    } else {
                                        match u.0.checked_mul(v.0) {
                                            Some(w) => Ok(Const(w)),
                                            None => Err(()),
                                        }
                                    }
                                },
                                Err(_) => Err(()),
                            }
                        }
                    },
                    (Err(_), rhs) => match rhs {
                        Ok(v) => {
                            if v.0 == 0 {
                                Ok(Const(0))
                            } else {
                                Err(())
                            }
                        },
                        Err(_) => Err(()),
                    },
                }
            },
            Expr::Neg(n) => match n.0.const_eval() {
                Ok(v) => {
                    if v.0 != i64::MIN {
                        Ok(Const(-v.0))
                    } else {
                        Err(())
                    }
                },
                Err(_) => Err(()),
            },
            Expr::Pow(p) => match p.0.const_eval() {
                Ok(v) => {
                    if p.1 >= 0 {
                        match crate::eval::pow_checked(v.0, p.1) {
                            Some(w) => Ok(Const(w)),
                            None => Err(()),
                        }
                    } else {
                        Err(())
                    }
                },
                Err(_) => Err(()),
            },
            Expr::Exp(_) => Err(()),
            Expr::Log(_) => Err(()),
            Expr::Sin(_) => Err(()),
            Expr::Cos(_) => Err(()),
            Expr::Relu(r) => match r.0.const_eval() {
                Ok(v) => Ok(Const(if v.0 >= 0 { v.0 } else { 0 })),
                Err(_) => Err(()),
            },
            Expr::Step(s) => match s.0.const_eval() {
                Ok(v) => Ok(Const(if v.0 >= 0 { 1 } else { 0 })),
                Err(_) => Err(()),
            },
        }
    }
}

} // verus!
