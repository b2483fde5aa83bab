//! Symbolic differentiation: a pure structural recursion implementing the
//! textbook chain, product and power rules. The derivative tree is pinned
//! down exactly by [`crate::semantics::diff_spec`].

use vstd::prelude::*;

use crate::expr::Error;
use crate::expr::Expr;
use crate::semantics::diff_spec;

verus! {

impl Expr {
    /// The derivative of the tree with respect to the variable, as a new
    /// tree, or `Error` where no derivative exists: where the tree holds a
    /// reachable `Step` node, or a power whose exponent is the smallest
    /// machine integer.
    pub fn differentiate(&self) -> (r: Result<Expr, Error>)
        ensures
            match r {
                Ok(d) => diff_spec(*self) == Some(d),
                Err(_) => diff_spec(*self) is None,
            },
        decreases self,
    {
        match self {
            Expr::Const(_) => Ok(Expr::constant(0)),
            Expr::Var(_) => Ok(Expr::constant(1)),
            Expr::Add(a) => {
                let dl = a.0.differentiate()?;
                let dr = a.1.differentiate()?;
                Ok(Expr::add(dl, dr))
            },
            Expr::Sub(s) => {
                let dl = s.0.differentiate()?;
                let dr = s.1.differentiate()?;
                Ok(Expr::sub(dl, dr))
            },
            Expr::Mul(m) => {
                let dl = m.0.differentiate()?;
                let dr = m.1.differentiate()?;
                Ok(Expr::add(Expr::mul(dl, m.1.duplicate()), Expr::mul(m.0.duplicate(), dr)))
            },
            Expr::Neg(n) => {
                let d = n.0.differentiate()?;
                Ok(Expr::neg(d))
            },
            Expr::Pow(p) => {
                if p.1 == 0 {
                    Ok(Expr::constant(0))
                } else if p.1 == i64::MIN {
                    Err(Error)
                } else {
                    let d = p.0.differentiate()?;
                    Ok(Expr::mul(
                        Expr::constant(p.1),
                        Expr::mul(Expr::pow(p.0.duplicate(), p.1 - 1), d),
                    ))
                }
            },
            Expr::Exp(e) => {
                let d = e.0.differentiate()?;
                Ok(Expr::mul(Expr::exp(e.0.duplicate()), d))
            },
            Expr::Log(l) => {
                let d = l.0.differentiate()?;
                Ok(Expr::mul(Expr::pow(l.0.duplicate(), -1), d))
            },
            Expr::Sin(s) => {
                let d = s.0.differentiate()?;
                Ok(Expr::mul(Expr::cos(s.0.duplicate()), d))
            },
            Expr::Cos(c) => {
                let d = c.0.differentiate()?;
                Ok(Expr::mul(Expr::neg(Expr::sin(c.0.duplicate())), d))
            },
            Expr::Relu(r) => {
                let d = r.0.differentiate()?;
                Ok(Expr::mul(Expr::step(r.0.duplicate()), d))
            },
            Expr::Step(_) => Err(Error),
        }
    }
}

} // verus!
