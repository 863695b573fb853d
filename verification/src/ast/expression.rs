//! Expression nodes. Every construct of the language is an expression; the
//! evaluator produces a value (or a control-flow signal) for each of them.

use vstd::prelude::*;

use super::{Name, Path};

verus! {

/// A sequence of expressions evaluated in order.
pub struct Block {
    pub expressions: Vec<BExpr>,
}

/// Binds the value of an expression to a name in the current scope frame.
pub struct Assignment {
    pub variable_name: Name,
    pub value: BExpr,
}

/// Reads a variable from the visible scope frames.
pub struct Invoke {
    pub variable_name: Name,
}

/// A literal. `Float` carries the bit pattern of an IEEE 754 single-precision
/// number; the core only stores and moves it, it never computes with it.
pub enum Litteral {
    String(String),
    Integer(i32),
    Float(u32),
    Bool(bool),
    List(Vec<BExpr>),
    Object(Vec<(Name, BExpr)>),
}

impl From<String> for Litteral {
    fn from(input: String) -> (r: Litteral)
        ensures
            r == Litteral::String(input),
    {
        Self::String(input)
    }
}

impl vstd::std_specs::convert::FromSpecImpl<String> for Litteral {
    open spec fn obeys_from_spec() -> bool {
        true
    }

    open spec fn from_spec(v: String) -> Litteral {
        Litteral::String(v)
    }
}

impl<'s> From<&'s str> for Litteral {
    fn from(input: &'s str) -> (r: Litteral)
        ensures
            r matches Litteral::String(s) && s@ == input@,
    {
        Self::String(input.to_owned())
    }
}

impl<'s> vstd::std_specs::convert::FromSpecImpl<&'s str> for Litteral {
    open spec fn obeys_from_spec() -> bool {
        false
    }

    open spec fn from_spec(v: &'s str) -> Litteral {
        arbitrary()
    }
}

impl From<i32> for Litteral {
    fn from(input: i32) -> (r: Litteral)
        ensures
            r == Litteral::Integer(input),
    {
        Self::Integer(input)
    }
}

impl vstd::std_specs::convert::FromSpecImpl<i32> for Litteral {
    open spec fn obeys_from_spec() -> bool {
        true
    }

    open spec fn from_spec(v: i32) -> Litteral {
        Litteral::Integer(v)
    }
}

impl From<bool> for Litteral {
    fn from(input: bool) -> (r: Litteral)
        ensures
            r == Litteral::Bool(input),
    {
        Self::Bool(input)
    }
}

impl vstd::std_specs::convert::FromSpecImpl<bool> for Litteral {
    open spec fn obeys_from_spec() -> bool {
        true
    }

    open spec fn from_spec(v: bool) -> Litteral {
        Litteral::Bool(v)
    }
}

/// Calls the function that `fn_path` names, on the given argument expressions.
pub struct FnCall {
    pub fn_path: Path,
    pub arguments: Vec<BExpr>,
}

/// Evaluates `condition`, then exactly one of the two branches.
pub struct Condition {
    pub condition: BExpr,
    pub true_case: BExpr,
    pub false_case: BExpr,
}

/// Evaluates `body` repeatedly until the body breaks or returns.
pub struct Loop {
    pub body: BExpr,
}

/// Wraps its inner value as an early return from the enclosing function.
pub struct Return {
    pub expression: BExpr,
}

/// Wraps its inner value as a break out of the enclosing loop.
pub struct Break {
    pub expression: BExpr,
}

/// An expression node.
pub enum Expr {
    Block(Block),
    Assignment(Assignment),
    Invoke(Invoke),
    Litteral(Litteral),
    FnCall(FnCall),
    Condition(Condition),
    Loop(Loop),
    Return(Return),
    Break(Break),
}

impl Expr {
    pub fn boxed(self) -> (r: BExpr)
        ensures
            *r == self,
    {
        Box::new(self)
    }
}

pub type BExpr = Box<Expr>;

} // verus!
