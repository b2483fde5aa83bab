//! A symbolic-expression engine over a single integer-valued variable.
//!
//! Expression trees are built from constants, the variable, arithmetic
//! combinators and elementary functions; they can be evaluated at a point,
//! differentiated symbolically, collapsed by constant folding, and rendered
//! as text. All four operations are pure structural recursions whose results
//! are pinned down exactly by the specification functions in [`semantics`].

pub mod contracts;
pub mod diff;
pub mod eval;
pub mod expr;
pub mod fold;
pub mod laws;
pub mod render;
pub mod semantics;
