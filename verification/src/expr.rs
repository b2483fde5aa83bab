use vstd::prelude::*;

verus! {

/// Returned by differentiation when the tree contains a node that has no
/// derivative rule (a `Step` node, or a power whose exponent cannot be
/// decremented).
#[derive(Debug)]
pub struct Error;

/// A literal integer constant.
#[derive(Clone, Copy, Debug)]
pub struct Const(pub i64);

/// The single free variable `x`.
#[derive(Clone, Copy, Debug)]
pub struct Var;

/// Sum of two sub-expressions.
pub struct Add(pub Box<Expr>, pub Box<Expr>);

/// Difference of two sub-expressions.
pub struct Sub(pub Box<Expr>, pub Box<Expr>);

/// Product of two sub-expressions.
pub struct Mul(pub Box<Expr>, pub Box<Expr>);

/// Negation of a sub-expression.
pub struct Neg(pub Box<Expr>);

/// A sub-expression raised to a literal integer exponent.
pub struct Pow(pub Box<Expr>, pub i64);

/// The exponential function of a sub-expression.
pub struct Exp(pub Box<Expr>);

/// The natural logarithm of a sub-expression.
pub struct Log(pub Box<Expr>);

/// The sine of a sub-expression.
pub struct Sin(pub Box<Expr>);

/// The cosine of a sub-expression.
pub struct Cos(pub Box<Expr>);

/// The rectifier: the sub-expression's value where it is non-negative, else zero.
pub struct Relu(pub Box<Expr>);

/// The unit step: one where the sub-expression's value is non-negative, else zero.
/// `Step` is the derivative factor of `Relu` and is itself not differentiable.
pub struct Step(pub Box<Expr>);

/// An immutable expression tree in one free variable.
pub enum Expr {
    Const(Const),
    Var(Var),
    Add(Add),
    Sub(Sub),
    Mul(Mul),
    Neg(Neg),
    Pow(Pow),
    Exp(Exp),
    Log(Log),
    Sin(Sin),
    Cos(Cos),
    Relu(Relu),
    Step(Step),
}

pub open spec fn mk_const(c: i64) -> Expr {
    Expr::Const(Const(c))
}

pub open spec fn mk_var() -> Expr {
    Expr::Var(Var)
}

pub open spec fn mk_add(l: Expr, r: Expr) -> Expr {
    Expr::Add(Add(Box::new(l), Box::new(r)))
}

pub open spec fn mk_sub(l: Expr, r: Expr) -> Expr {
    Expr::Sub(Sub(Box::new(l), Box::new(r)))
}

pub open spec fn mk_mul(l: Expr, r: Expr) -> Expr {
    Expr::Mul(Mul(Box::new(l), Box::new(r)))
}

pub open spec fn mk_neg(e: Expr) -> Expr {
    Expr::Neg(Neg(Box::new(e)))
}

pub open spec fn mk_pow(e: Expr, k: i64) -> Expr {
    Expr::Pow(Pow(Box::new(e), k))
}

pub open spec fn mk_exp(e: Expr) -> Expr {
    Expr::Exp(Exp(Box::new(e)))
}

pub open spec fn mk_log(e: Expr) -> Expr {
    Expr::Log(Log(Box::new(e)))
}

pub open spec fn mk_sin(e: Expr) -> Expr {
    Expr::Sin(Sin(Box::new(e)))
}

pub open spec fn mk_cos(e: Expr) -> Expr {
    Expr::Cos(Cos(Box::new(e)))
}

pub open spec fn mk_relu(e: Expr) -> Expr {
    Expr::Relu(Relu(Box::new(e)))
}

pub open spec fn mk_step(e: Expr) -> Expr {
    Expr::Step(Step(Box::new(e)))
}

impl Expr {
    /// Builds a constant leaf.
    pub fn constant(c: i64) -> (r: Expr)
        ensures
            r == mk_const(c),
    {
        Expr::Const(Const(c))
    }

    /// Builds the variable leaf.
    pub fn variable() -> (r: Expr)
        ensures
            r == mk_var(),
    {
        Expr::Var(Var)
    }

    /// Combines two trees into their sum.
    pub fn add(l: Expr, r: Expr) -> (out: Expr)
        ensures
            out == mk_add(l, r),
    {
        Expr::Add(Add(Box::new(l), Box::new(r)))
    }

    /// Combines two trees into their difference.
    pub fn sub(l: Expr, r: Expr) -> (out: Expr)
        ensures
            out == mk_sub(l, r),
    {
        Expr::Sub(Sub(Box::new(l), Box::new(r)))
    }

    /// Combines two trees into their product.
    pub fn mul(l: Expr, r: Expr) -> (out: Expr)
        ensures
            out == mk_mul(l, r),
    {
        Expr::Mul(Mul(Box::new(l), Box::new(r)))
    }

    /// Negates a tree.
    pub fn neg(e: Expr) -> (out: Expr)
        ensures
            out == mk_neg(e),
    {
        Expr::Neg(Neg(Box::new(e)))
    }

    /// Raises a tree to a literal integer exponent.
    pub fn pow(e: Expr, k: i64) -> (out: Expr)
        ensures
            out == mk_pow(e, k),
    {
        Expr::Pow(Pow(Box::new(e), k))
    }

    /// Wraps a tree in the exponential function.
    pub fn exp(e: Expr) -> (out: Expr)
        ensures
            out == mk_exp(e),
    {
        Expr::Exp(Exp(Box::new(e)))
    }

    /// Wraps a tree in the natural logarithm.
    pub fn log(e: Expr) -> (out: Expr)
        ensures
            out == mk_log(e),
    {
        Expr::Log(Log(Box::new(e)))
    }

    /// Wraps a tree in the sine function.
    pub fn sin(e: Expr) -> (out: Expr)
        ensures
            out == mk_sin(e),
    {
        Expr::Sin(Sin(Box::new(e)))
    }

    /// Wraps a tree in the cosine function.
    pub fn cos(e: Expr) -> (out: Expr)
        ensures
            out == mk_cos(e),
    {
        Expr::Cos(Cos(Box::new(e)))
    }

    /// Wraps a tree in the rectifier.
    pub fn relu(e: Expr) -> (out: Expr)
        ensures
            out == mk_relu(e),
    {
        Expr::Relu(Relu(Box::new(e)))
    }

    /// Wraps a tree in the unit step.
    pub fn step(e: Expr) -> (out: Expr)
        ensures
            out == mk_step(e),
    {
        Expr::Step(Step(Box::new(e)))
    }

    /// Structure-for-structure copy of the tree.
    pub fn duplicate(&self) -> (r: Expr)
        ensures
            r == *self,
        decreases self,
    {
        match self {
            Expr::Const(c) => Expr::Const(Const(c.0)),
            Expr::Var(_) => Expr::Var(Var),
            Expr::Add(a) => Expr::Add(Add(Box::new(a.0.duplicate()), Box::new(a.1.duplicate()))),
            Expr::Sub(s) => Expr::Sub(Sub(Box::new(s.0.duplicate()), Box::new(s.1.duplicate()))),
            Expr::Mul(m) => Expr::Mul(Mul(Box::new(m.0.duplicate()), Box::new(m.1.duplicate()))),
            Expr::Neg(n) => Expr::Neg(Neg(Box::new(n.0.duplicate()))),
            Expr::Pow(p) => Expr::Pow(Pow(Box::new(p.0.duplicate()), p.1)),
            Expr::Exp(e) => Expr::Exp(Exp(Box::new(e.0.duplicate()))),
            Expr::Log(l) => Expr::Log(Log(Box::new(l.0.duplicate()))),
            Expr::Sin(s) => Expr::Sin(Sin(Box::new(s.0.duplicate()))),
            Expr::Cos(c) => Expr::Cos(Cos(Box::new(c.0.duplicate()))),
            Expr::Relu(r) => Expr::Relu(Relu(Box::new(r.0.duplicate()))),
            Expr::Step(s) => Expr::Step(Step(Box::new(s.0.duplicate()))),
        }
    }

    /// Deep structural equality of two trees.
    pub fn equals(&self, other: &Expr) -> (r: bool)
        ensures
            r <==> *self == *other,
        decreases self,
    {
        match (self, other) {
            (Expr::Const(a), Expr::Const(b)) => a.0 == b.0,
            (Expr::Var(_), Expr::Var(_)) => true,
            (Expr::Add(a), Expr::Add(b)) => a.0.equals(&b.0) && a.1.equals(&b.1),
            (Expr::Sub(a), Expr::Sub(b)) => a.0.equals(&b.0) && a.1.equals(&b.1),
            (Expr::Mul(a), Expr::Mul(b)) => a.0.equals(&b.0) && a.1.equals(&b.1),
            (Expr::Neg(a), Expr::Neg(b)) => a.0.equals(&b.0),
            (Expr::Pow(a), Expr::Pow(b)) => a.1 == b.1 && a.0.equals(&b.0),
            (Expr::Exp(a), Expr::Exp(b)) => a.0.equals(&b.0),
            (Expr::Log(a), Expr::Log(b)) => a.0.equals(&b.0),
            (Expr::Sin(a), Expr::Sin(b)) => a.0.equals(&b.0),
            (Expr::Cos(a), Expr::Cos(b)) => a.0.equals(&b.0),
            (Expr::Relu(a), Expr::Relu(b)) => a.0.equals(&b.0),
            (Expr::Step(a), Expr::Step(b)) => a.0.equals(&b.0),
            _ => false,
        }
    }
}

} // verus!
