//! The errors an evaluation can surface. All of them abort the evaluation
//! in which they arise and reach the caller of the top-level entry point as
//! a distinguishable value.

use vstd::prelude::*;

verus! {

/// Why an evaluation failed.
#[derive(Clone, Copy, Debug, PartialEq, Eq, Structural)]
pub enum Error {
    /// The argument count does not match a function's declared parameter
    /// count or native arity.
    ArityError,
    /// An `Invoke` names a variable not visible under the bubble rule.
    UnboundVariable,
    /// A call path names a function absent from its module.
    UnboundFunction,
    /// A call path names a module absent from the registry.
    UnknownModule,
    /// A condition expression did not narrow to `Bool`.
    TypeError,
    /// A break reached a function-invocation boundary or the top level, a
    /// return reached the top level, or an assignment found no open frame.
    ControlFlowError,
    /// An `Imported` function was called; cross-module calls are not yet
    /// supported.
    UnsupportedOperation,
    /// The evaluation exceeded its fuel: nesting of calls and loop
    /// iterations is bounded so that every evaluation terminates.
    RecursionLimit,
}

} // verus!
