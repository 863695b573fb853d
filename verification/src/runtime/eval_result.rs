//! The three-way result of evaluating one expression: a plain value, an
//! early return travelling to the enclosing function boundary, or a break
//! travelling to the enclosing loop.

use crate::Value;
use vstd::prelude::*;

verus! {

/// The control-flow signal produced by every sub-expression evaluation.
#[derive(Debug)]
pub enum EvRes {
    /// Normal completion: evaluation continues with the next sibling.
    Value(Value),
    /// An early return; consumed by the nearest function invocation.
    ReturnSC(Value),
    /// A loop break; consumed by the nearest enclosing loop.
    BreakSC(Value),
}

impl EvRes {
    pub fn new_val(value: Value) -> (r: EvRes)
        ensures
            r == EvRes::Value(value),
    {
        Self::Value(value)
    }

    pub fn is_short_circuit(&self) -> (r: bool)
        ensures
            r == !(*self matches EvRes::Value(_)),
    {
        match self {
            EvRes::Value(_) => false,
            _ => true,
        }
    }

    pub fn into_value(self) -> (r: Option<Value>)
        ensures
            match self {
                EvRes::Value(v) => r == Some(v),
                _ => r is None,
            },
    {
        match self {
            Self::Value(val) => Some(val),
            _ => None,
        }
    }
}

} // verus!
