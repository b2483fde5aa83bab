//! Rendering a tree as a fully-parenthesized infix formula. The exact
//! character sequence of the output is pinned down by [`render_spec`].

use vstd::prelude::*;

use vstd::string::StringExecFns;

use crate::expr::Expr;

verus! {

/// The decimal digit character for a value below ten.
pub open spec fn digit_char(d: nat) -> char {
    if d == 0 {
        '0'
    } else if d == 1 {
        '1'
    } else if d == 2 {
        '2'
    } else if d == 3 {
        '3'
    } else if d == 4 {
        '4'
    } else if d == 5 {
        '5'
    } else if d == 6 {
        '6'
    } else if d == 7 {
        '7'
    } else if d == 8 {
        '8'
    } else {
        '9'
    }
}

/// The decimal digits of a natural number, most significant first.
pub open spec fn dec_digits(n: nat) -> Seq<char>
    decreases n,
{
    if n < 10 {
        seq![digit_char(n)]
    } else {
        dec_digits(n / 10) + seq![digit_char(n % 10)]
    }
}

/// The decimal numeral of an integer: a minus sign before the digits of
/// the magnitude where it is negative.
pub open spec fn int_digits(n: int) -> Seq<char> {
    if n < 0 {
        seq!['-'] + dec_digits((-n) as nat)
    } else {
        dec_digits(n as nat)
    }
}

/// The rendered text of a tree: a literal numeral for constants, `x` for
/// the variable, fully-parenthesized infix forms for the binary
/// combinators, prefix-with-parentheses forms for the unary functions, and
/// `(E)^k` for powers.
pub open spec fn render_spec(e: Expr) -> Seq<char>
    decreases e,
{
    match e {
        Expr::Const(c) => int_digits(c.0 as int),
        Expr::Var(_) => seq!['x'],
        Expr::Add(a) => seq!['('] + render_spec(*a.0) + seq![')', ' ', '+', ' ', '(']
            + render_spec(*a.1) + seq![')'],
        Expr::Sub(s) => seq!['('] + render_spec(*s.0) + seq![')', ' ', '-', ' ', '(']
            + render_spec(*s.1) + seq![')'],
        Expr::Mul(m) => seq!['('] + render_spec(*m.0) + seq![')', ' ', '*', ' ', '(']
            + render_spec(*m.1) + seq![')'],
        Expr::Neg(n) => seq!['-', '('] + render_spec(*n.0) + seq![')'],
        Expr::Pow(p) => seq!['('] + render_spec(*p.0) + seq![')', '^'] + int_digits(p.1 as int),
        Expr::Exp(x) => seq!['e', 'x', 'p', '('] + render_spec(*x.0) + seq![')'],
        Expr::Log(l) => seq!['l', 'o', 'g', '('] + render_spec(*l.0) + seq![')'],
        Expr::Sin(s) => seq!['s', 'i', 'n', '('] + render_spec(*s.0) + seq![')'],
        Expr::Cos(c) => seq!['c', 'o', 's', '('] + render_spec(*c.0) + seq![')'],
        Expr::Relu(r) => seq!['r', 'e', 'l', 'u', '('] + render_spec(*r.0) + seq![')'],
        Expr::Step(s) => seq!['s', 't', 'e', 'p', '('] + render_spec(*s.0) + seq![')'],
    }
}

/// One decimal digit as text.
fn digit_string(d: u64) -> (s: String)
    requires
        d < 10,
    ensures
        s@ == seq![digit_char(d as nat)],
{
    let lit: &str = match d {
        0 => "0",
        1 => "1",
        2 => "2",
        3 => "3",
        4 => "4",
        5 => "5",
        6 => "6",
        7 => "7",
        8 => "8",
        _ => "9",
    };
    proof {
        reveal_strlit("0");
        reveal_strlit("1");
        reveal_strlit("2");
        reveal_strlit("3");
        reveal_strlit("4");
        reveal_strlit("5");
        reveal_strlit("6");
        reveal_strlit("7");
        reveal_strlit("8");
        reveal_strlit("9");
    }
    let s = lit.to_owned();
    assert(s@ =~= seq![digit_char(d as nat)]);
    s
}

/// The decimal digits of a natural number, most significant first.
fn dec_string(m: u64) -> (s: String)
    ensures
        s@ == dec_digits(m as nat),
    decreases m,
{
    if m < 10 {
        digit_string(m)
    } else {
        let hi = dec_string(m / 10);
        let lo = digit_string(m % 10);
        let s = hi.concat(lo.as_str());
        assert(s@ =~= dec_digits(m as nat));
        s
    }
}

/// The decimal numeral of a machine integer.
fn int_string(n: i64) -> (s: String)
    ensures
        s@ == int_digits(n as int),
{
    if n < 0 {
        let mag: u64 = (-(n as i128)) as u64;
        assert(mag as nat == (-(n as int)) as nat);
        let d = dec_string(mag);
        proof {
            reveal_strlit("-");
        }
        let s = "-".to_owned().concat(d.as_str());
        assert(s@ =~= int_digits(n as int));
        s
    } else {
        let d = dec_string(n as u64);
        assert(d@ =~= int_digits(n as int));
        d
    }
}

impl Expr {
    /// The tree as text, reflecting its structure exactly, redundant
    /// parentheses included.
    pub fn render(&self) -> (r: String)
        ensures
            r@ == render_spec(*self),
        decreases self,
    {
        match self {
            Expr::Const(c) => int_string(c.0),
            Expr::Var(_) => {
                proof {
                    reveal_strlit("x");
                }
                let s = "x".to_owned();
                assert(s@ =~= render_spec(*self));
                s
            },
            Expr::Add(a) => {
                let l = a.0.render();
                let r2 = a.1.render();
                proof {
                    reveal_strlit("(");
                    reveal_strlit(") + (");
                    reveal_strlit(")");
                }
                let s = "(".to_owned().concat(l.as_str()).concat(") + (").concat(
                    r2.as_str(),
                ).concat(")");
                assert(s@ =~= render_spec(*self));
                s
            },
            Expr::Sub(sb) => {
                let l = sb.0.render();
                let r2 = sb.1.render();
                proof {
                    reveal_strlit("(");
                    reveal_strlit(") - (");
                    reveal_strlit(")");
                }
                let s = "(".to_owned().concat(l.as_str()).concat(") - (").concat(
                    r2.as_str(),
                ).concat(")");
                assert(s@ =~= render_spec(*self));
                s
            },
            Expr::Mul(m) => {
                let l = m.0.render();
                let r2 = m.1.render();
                proof {
                    reveal_strlit("(");
                    reveal_strlit(") * (");
                    reveal_strlit(")");
                }
                let s = "(".to_owned().concat(l.as_str()).concat(") * (").concat(
                    r2.as_str(),
                ).concat(")");
                assert(s@ =~= render_spec(*self));
                s
            },
            Expr::Neg(n) => {
                let inner = n.0.render();
                proof {
                    reveal_strlit("-(");
                    reveal_strlit(")");
                }
                let s = "-(".to_owned().concat(inner.as_str()).concat(")");
                assert(s@ =~= render_spec(*self));
                s
            },
            Expr::Pow(p) => {
                let base = p.0.render();
                let exponent = int_string(p.1);
                proof {
                    reveal_strlit("(");
                    reveal_strlit(")^");
                }
                let s = "(".to_owned().concat(base.as_str()).concat(")^").concat(
                    exponent.as_str(),
                );
                assert(s@ =~= render_spec(*self));
                s
            },
            Expr::Exp(x) => {
                let inner = x.0.render();
                proof {
                    reveal_strlit("exp(");
                    reveal_strlit(")");
                }
                let s = "exp(".to_owned().concat(inner.as_str()).concat(")");
                assert(s@ =~= render_spec(*self));
                s
            },
            Expr::Log(l) => {
                let inner = l.0.render();
                proof {
                    reveal_strlit("log(");
                    reveal_strlit(")");
                }
                let s = "log(".to_owned().concat(inner.as_str()).concat(")");
                assert(s@ =~= render_spec(*self));
                s
            },
            Expr::Sin(sn) => {
                let inner = sn.0.render();
                proof {
                    reveal_strlit("sin(");
                    reveal_strlit(")");
                }
                let s = "sin(".to_owned().concat(inner.as_str()).concat(")");
                assert(s@ =~= render_spec(*self));
                s
            },
            Expr::Cos(c) => {
                let inner = c.0.render();
                proof {
                    reveal_strlit("cos(");
                    reveal_strlit(")");
                }
                let s = "cos(".to_owned().concat(inner.as_str()).concat(")");
                assert(s@ =~= render_spec(*self));
                s
            },
            Expr::Relu(rl) => {
                let inner = rl.0.render();
                proof {
                    reveal_strlit("relu(");
                    reveal_strlit(")");
                }
                let s = "relu(".to_owned().concat(inner.as_str()).concat(")");
                assert(s@ =~= render_spec(*self));
                s
            },
            Expr::Step(st) => {
                let inner = st.0.render();
                proof {
                    reveal_strlit("step(");
                    reveal_strlit(")");
                }
                let s = "step(".to_owned().concat(inner.as_str()).concat(")");
                assert(s@ =~= render_spec(*self));
                s
            },
        }
    }
}

} // verus!
