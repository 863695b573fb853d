//! The composition rules of the language, written down once as spec
//! functions. `frame_eval` decides the read-only fragment: every construct
//! that reads the scope frames — scalar literals, variable reads, blocks,
//! conditions, loops, returns and breaks — but performs no assignment, no
//! call and no allocation. The evaluator contracts promise to agree with it
//! exactly, with the state unchanged, wherever it is defined; assignments,
//! calls and compound literals carry their own clauses.

use crate::ast::{BExpr, Expr, Litteral, Name};
use crate::error::Error;
use crate::runtime::{lookup_frames, EvRes, ScopeV};
use crate::Value;
use vstd::prelude::*;

verus! {

broadcast use {vstd::seq::group_seq_axioms, vstd::std_specs::vec::group_vec_axioms};

/// The value of a scalar literal. List and object literals allocate, so
/// they are not scalar.
pub open spec fn scalar_value(l: Litteral) -> Option<Value> {
    match l {
        Litteral::String(s) => Some(Value::String(s)),
        Litteral::Integer(i) => Some(Value::Integer(i)),
        Litteral::Float(f) => Some(Value::Float(f)),
        Litteral::Bool(b) => Some(Value::Bool(b)),
        _ => None,
    }
}

/// Evaluation of the read-only fragment over fixed frames. `None` means
/// the expression falls outside the fragment (it writes a variable, calls
/// a function, or allocates); `Some` gives the exact outcome the evaluator
/// must produce, with no state change at all.
pub open spec fn frame_eval(frames: Seq<ScopeV>, e: Expr) -> Option<Result<EvRes, Error>>
    decreases e,
{
    match e {
        Expr::Litteral(l) => match scalar_value(l) {
            Some(v) => Some(Ok(EvRes::Value(v))),
            None => None,
        },
        Expr::Invoke(inv) => Some(
            match lookup_frames(frames, inv.variable_name@) {
                Some(v) => Ok(EvRes::Value(v)),
                None => Err(Error::UnboundVariable),
            },
        ),
        Expr::Block(b) => frame_eval_block(frames, b.expressions@),
        Expr::Condition(c) => match frame_eval(frames, *c.condition) {
            None => None,
            Some(Err(err)) => Some(Err(err)),
            Some(Ok(EvRes::Value(Value::Bool(cond)))) => if cond {
                frame_eval(frames, *c.true_case)
            } else {
                frame_eval(frames, *c.false_case)
            },
            Some(Ok(EvRes::Value(_))) => Some(Err(Error::TypeError)),
            Some(Ok(sig)) => Some(Ok(sig)),
        },
        Expr::Loop(l) => match frame_eval(frames, *l.body) {
            Some(Ok(EvRes::BreakSC(v))) => Some(Ok(EvRes::Value(v))),
            Some(Ok(EvRes::ReturnSC(v))) => Some(Ok(EvRes::ReturnSC(v))),
            Some(Err(err)) => Some(Err(err)),
            _ => None,
        },
        Expr::Return(r) => match frame_eval(frames, *r.expression) {
            None => None,
            Some(Err(err)) => Some(Err(err)),
            Some(Ok(res)) => Some(Ok(wrap_return(res))),
        },
        Expr::Break(b) => match frame_eval(frames, *b.expression) {
            None => None,
            Some(Err(err)) => Some(Err(err)),
            Some(Ok(res)) => Some(Ok(wrap_break(res))),
        },
        _ => None,
    }
}

/// A block evaluates its children strictly in order, stops at the first
/// signal or error, and is the last child's value otherwise — or `Unit`
/// when it has no children.
pub open spec fn frame_eval_block(frames: Seq<ScopeV>, es: Seq<BExpr>) -> Option<
    Result<EvRes, Error>,
>
    decreases es,
{
    if es.len() == 0 {
        Some(Ok(EvRes::Value(Value::Unit)))
    } else {
        match frame_eval(frames, *es[0]) {
            None => None,
            Some(Err(err)) => Some(Err(err)),
            Some(Ok(EvRes::Value(v))) => if es.len() == 1 {
                Some(Ok(EvRes::Value(v)))
            } else {
                frame_eval_block(frames, es.drop_first())
            },
            Some(Ok(sig)) => Some(Ok(sig)),
        }
    }
}

/// The values of a sequence of read-only expressions, in order; absent as
/// soon as one element falls outside the fragment or fails to yield a
/// plain value.
pub open spec fn frame_values(frames: Seq<ScopeV>, es: Seq<BExpr>) -> Option<Seq<Value>>
    decreases es.len(),
{
    if es.len() == 0 {
        Some(Seq::empty())
    } else {
        match frame_values(frames, es.drop_last()) {
            Some(vs) => match frame_eval(frames, *es.last()) {
                Some(Ok(EvRes::Value(v))) => Some(vs.push(v)),
                _ => None,
            },
            None => None,
        }
    }
}

/// The field map of an object literal whose entry values are read-only
/// expressions yielding plain values, later entries winning.
pub open spec fn frame_object(frames: Seq<ScopeV>, entries: Seq<(Name, BExpr)>) -> Option<
    Map<Seq<char>, Value>,
>
    decreases entries.len(),
{
    if entries.len() == 0 {
        Some(Map::empty())
    } else {
        match frame_object(frames, entries.drop_last()) {
            Some(m) => match frame_eval(frames, *entries.last().1) {
                Some(Ok(EvRes::Value(v))) => Some(m.insert(entries.last().0@, v)),
                _ => None,
            },
            None => None,
        }
    }
}

/// What interrupts a left-to-right evaluation of the given expressions,
/// as far as the read-only fragment decides it: the first error or signal
/// among them, each element before it being a plain value. Absent when the
/// decidable prefix runs out without one.
pub open spec fn frame_elems_interrupt(frames: Seq<ScopeV>, es: Seq<BExpr>) -> Option<
    Result<EvRes, Error>,
>
    decreases es,
{
    if es.len() == 0 {
        None
    } else {
        match frame_eval(frames, *es[0]) {
            None => None,
            Some(Err(err)) => Some(Err(err)),
            Some(Ok(EvRes::Value(_))) => frame_elems_interrupt(frames, es.drop_first()),
            Some(Ok(sig)) => Some(Ok(sig)),
        }
    }
}

/// Every prefix of a read-only object literal is itself one.
pub proof fn lemma_frame_object_prefix(frames: Seq<ScopeV>, entries: Seq<(Name, BExpr)>, k: int)
    requires
        frame_object(frames, entries) is Some,
        0 <= k <= entries.len(),
    ensures
        frame_object(frames, entries.subrange(0, k)) is Some,
    decreases entries.len(),
{
    if k == entries.len() {
        assert(entries.subrange(0, k) =~= entries);
    } else {
        lemma_frame_object_prefix(frames, entries.drop_last(), k);
        assert(entries.drop_last().subrange(0, k) =~= entries.subrange(0, k));
    }
}

/// Each entry of a read-only object literal evaluates to its value.
pub proof fn lemma_frame_object_at(frames: Seq<ScopeV>, entries: Seq<(Name, BExpr)>, i: int)
    requires
        frame_object(frames, entries) is Some,
        0 <= i < entries.len(),
    ensures
        match frame_eval(frames, *entries[i].1) {
            Some(Ok(EvRes::Value(_))) => true,
            _ => false,
        },
    decreases entries.len(),
{
    if i < entries.len() - 1 {
        lemma_frame_object_at(frames, entries.drop_last(), i);
        assert(entries.drop_last()[i] == entries[i]);
    }
}

/// A sequence of read-only expressions has one value per element.
pub proof fn lemma_frame_values_len(frames: Seq<ScopeV>, es: Seq<BExpr>, vs: Seq<Value>)
    requires
        frame_values(frames, es) == Some(vs),
    ensures
        vs.len() == es.len(),
    decreases es.len(),
{
    if es.len() > 0 {
        let prev = frame_values(frames, es.drop_last());
        lemma_frame_values_len(frames, es.drop_last(), prev->0);
    }
}

/// Each element of a read-only value sequence evaluates to the matching
/// value.
pub proof fn lemma_frame_values_at(frames: Seq<ScopeV>, es: Seq<BExpr>, vs: Seq<Value>, i: int)
    requires
        frame_values(frames, es) == Some(vs),
        0 <= i < es.len(),
    ensures
        vs.len() == es.len(),
        frame_eval(frames, *es[i]) == Some(Ok::<EvRes, Error>(EvRes::Value(vs[i]))),
    decreases es.len(),
{
    lemma_frame_values_len(frames, es, vs);
    if i < es.len() - 1 {
        let prev = frame_values(frames, es.drop_last());
        lemma_frame_values_at(frames, es.drop_last(), prev->0, i);
        assert(es.drop_last()[i] == es[i]);
    }
}

/// The `Return` construct's rule: a plain value is wrapped as a return
/// signal; a result that is already a signal propagates unchanged.
pub open spec fn wrap_return(res: EvRes) -> EvRes {
    match res {
        EvRes::Value(v) => EvRes::ReturnSC(v),
        EvRes::ReturnSC(v) => EvRes::ReturnSC(v),
        EvRes::BreakSC(v) => EvRes::BreakSC(v),
    }
}

/// The `Break` construct's rule: a plain value is wrapped as a break
/// signal, and a return dominates a break.
pub open spec fn wrap_break(res: EvRes) -> EvRes {
    match res {
        EvRes::Value(v) => EvRes::BreakSC(v),
        EvRes::ReturnSC(v) => EvRes::ReturnSC(v),
        EvRes::BreakSC(v) => EvRes::BreakSC(v),
    }
}

/// A `Return` is transparent for signals: whatever is already a return or
/// a break leaves it exactly as it arrived.
pub proof fn lemma_return_propagates_signals(res: EvRes)
    requires
        !(res matches EvRes::Value(_)),
    ensures
        wrap_return(res) == res,
{
}

/// The function-invocation boundary's rule: a plain value and a return
/// both become the function's result; a residual break is a control-flow
/// fault.
pub open spec fn invocation_result(res: EvRes) -> Result<Value, Error> {
    match res {
        EvRes::Value(v) => Ok(v),
        EvRes::ReturnSC(v) => Ok(v),
        EvRes::BreakSC(_) => Err(Error::ControlFlowError),
    }
}

/// The top-level rule: only a plain value may leave a whole evaluation;
/// any unconsumed signal is a control-flow fault.
pub open spec fn toplevel_result(res: EvRes) -> Result<Value, Error> {
    match res {
        EvRes::Value(v) => Ok(v),
        _ => Err(Error::ControlFlowError),
    }
}

/// Every block with no children evaluates to `Unit`.
pub proof fn lemma_empty_block_is_unit(frames: Seq<ScopeV>, es: Seq<BExpr>)
    requires
        es.len() == 0,
    ensures
        frame_eval_block(frames, es) == Some(Ok::<EvRes, Error>(EvRes::Value(Value::Unit))),
{
}

/// A block of plain values is its last child's value: if every child of a
/// read-only block evaluates to a plain value, the block evaluates to the
/// value of the last child.
pub proof fn lemma_block_of_values_is_last(frames: Seq<ScopeV>, es: Seq<BExpr>, vs: Seq<Value>)
    requires
        es.len() > 0,
        vs.len() == es.len(),
        forall|i: int|
            0 <= i < es.len() ==> frame_eval(frames, *es[i]) == Some(Ok::<EvRes, Error>(
                EvRes::Value(#[trigger] vs[i]),
            )),
    ensures
        frame_eval_block(frames, es) == Some(Ok::<EvRes, Error>(EvRes::Value(vs.last()))),
    decreases es.len(),
{
    assert(frame_eval(frames, *es[0]) == Some(Ok::<EvRes, Error>(EvRes::Value(vs[0]))));
    if es.len() > 1 {
        let es2 = es.drop_first();
        let vs2 = vs.drop_first();
        assert forall|i: int| 0 <= i < es2.len() implies frame_eval(frames, *es2[i]) == Some(
            Ok::<EvRes, Error>(EvRes::Value(#[trigger] vs2[i])),
        ) by {
            assert(es2[i] == es[i + 1]);
            assert(vs2[i] == vs[i + 1]);
        }
        lemma_block_of_values_is_last(frames, es2, vs2);
        assert(vs2.last() == vs.last());
    }
}

/// A block stops at the first signal: if every child before position `i`
/// evaluates to a plain value and child `i` evaluates to a signal, the
/// block's outcome is exactly that signal, whatever stands after `i`.
pub proof fn lemma_block_short_circuits(frames: Seq<ScopeV>, es: Seq<BExpr>, i: int, sig: EvRes)
    requires
        0 <= i < es.len(),
        !(sig matches EvRes::Value(_)),
        frame_eval(frames, *es[i]) == Some(Ok::<EvRes, Error>(sig)),
        forall|j: int|
            0 <= j < i ==> (match frame_eval(frames, *#[trigger] es[j]) {
                Some(Ok(EvRes::Value(_))) => true,
                _ => false,
            }),
    ensures
        frame_eval_block(frames, es) == Some(Ok::<EvRes, Error>(sig)),
    decreases i,
{
    if i > 0 {
        let es2 = es.drop_first();
        assert forall|j: int| 0 <= j < i - 1 implies (match frame_eval(
            frames,
            *#[trigger] es2[j],
        ) {
            Some(Ok(EvRes::Value(_))) => true,
            _ => false,
        }) by {
            assert(es2[j] == es[j + 1]);
        }
        assert(es2[i - 1] == es[i]);
        lemma_block_short_circuits(frames, es2, i - 1, sig);
        assert(match frame_eval(frames, *es[0]) {
            Some(Ok(EvRes::Value(_))) => true,
            _ => false,
        });
    }
}

/// A loop whose body immediately breaks with a scalar literal evaluates to
/// that literal's value: in particular `Loop(Break(Literal(n)))` is
/// `Integer(n)`.
pub proof fn lemma_loop_immediate_break(
    frames: Seq<ScopeV>,
    l: crate::ast::Loop,
    lit: Litteral,
    v: Value,
)
    requires
        *l.body matches Expr::Break(b) && *b.expression == Expr::Litteral(lit),
        scalar_value(lit) == Some(v),
    ensures
        frame_eval(frames, Expr::Loop(l)) == Some(Ok::<EvRes, Error>(EvRes::Value(v))),
{
    match *l.body {
        Expr::Break(b) => {
            assert(frame_eval(frames, *b.expression) == Some(Ok::<EvRes, Error>(EvRes::Value(v))));
            assert(frame_eval(frames, *l.body) == Some(Ok::<EvRes, Error>(EvRes::BreakSC(v))));
        },
        _ => {
            assert(false);
        },
    }
}

/// A break that reaches a function-invocation boundary is a control-flow
/// fault, never a function result.
pub proof fn lemma_break_never_leaves_invocation(v: Value)
    ensures
        invocation_result(EvRes::BreakSC(v)) == Err::<Value, Error>(Error::ControlFlowError),
{
}

/// A return dominates a break: wrapping a return signal with `Break` keeps
/// the return.
pub proof fn lemma_return_dominates_break(v: Value)
    ensures
        wrap_break(EvRes::ReturnSC(v)) == EvRes::ReturnSC(v),
{
}

} // verus!
