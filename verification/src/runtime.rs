//! The runtime: the registry owning every module, the per-invocation scope
//! frames, and the evaluation entry point.

pub use context::{
    assign_post, assign_rhs_post, call_post, callee_frames, lookup_frames, param_bindings,
    state_kept, Context,
};
pub use eval_result::EvRes;

mod context;
mod eval_result;

use crate::ast::{Expr, Litteral, Name};
use crate::error::Error;
use crate::function::NativeHost;
use crate::module::{registry_wf, Module};
use crate::semantics::{frame_eval, frame_object, frame_values, toplevel_result};
use crate::table::{entries_view, NameTable};
use crate::value::{heap_extends, CellV, Heap};
use crate::Value;
use vstd::prelude::*;

verus! {

/// How many nested calls plus loop iterations one evaluation may spend
/// before it fails with `RecursionLimit`.
pub const DEFAULT_FUEL: u64 = 1000000;

/// One level of name-to-value bindings, visible during one function
/// invocation. `bubble_variables == false` makes the frame an opaque
/// visibility boundary: lookup inspects the frame itself and then stops.
pub struct Scope {
    pub bubble_variables: bool,
    pub variables: NameTable<Value>,
}

/// The view of a frame: its bubble flag and its binding map.
pub struct ScopeV {
    pub bubble: bool,
    pub vars: Map<Seq<char>, Value>,
}

impl View for Scope {
    type V = ScopeV;

    open spec fn view(&self) -> ScopeV {
        ScopeV { bubble: self.bubble_variables, vars: self.variables@ }
    }
}

impl Scope {
    pub open spec fn wf(&self) -> bool {
        self.variables.wf()
    }

    pub fn new(bubble_variables: bool) -> (r: Scope)
        ensures
            r.wf(),
            r@ == (ScopeV { bubble: bubble_variables, vars: Map::<Seq<char>, Value>::empty() }),
    {
        Self { bubble_variables, variables: NameTable::new() }
    }

    /// A frame holding the given bindings, later pairs winning.
    pub fn new_with(variables: Vec<(Name, Value)>, bubble_variables: bool) -> (r: Scope)
        ensures
            r.wf(),
            r@ == (ScopeV { bubble: bubble_variables, vars: entries_view(variables@) }),
    {
        let ghost all = variables@;
        let mut rest = variables;
        let mut result = Self::new(bubble_variables);
        let ghost mut seen: Seq<(Name, Value)> = Seq::empty();
        while rest.len() > 0
            invariant
                result.wf(),
                result@.bubble == bubble_variables,
                seen + rest@ =~= all,
                result@.vars == entries_view(seen),
            decreases rest@.len(),
        {
            let entry = rest.remove(0);
            let (name, value) = entry;
            proof {
                let pre_seen = seen;
                seen = seen.push((name, value));
                assert(seen.drop_last() =~= pre_seen);
                assert(seen + rest@ =~= all);
                assert(entries_view(seen) == entries_view(pre_seen).insert(name@, value));
            }
            result.insert(name, value);
        }
        proof {
            assert(seen =~= all);
        }
        result
    }

    pub fn insert(&mut self, name: Name, value: Value)
        requires
            old(self).wf(),
        ensures
            final(self).wf(),
            final(self)@ == (ScopeV {
                bubble: old(self)@.bubble,
                vars: old(self)@.vars.insert(name@, value),
            }),
    {
        self.variables.insert(name, value);
    }

    /// Mutable access to a binding of this frame; the frame afterwards maps
    /// the name to whatever the caller wrote through the reference.
    pub fn get_mut(&mut self, name: &Name) -> (r: Option<&mut Value>)
        requires
            old(self).wf(),
        ensures
            match r {
                Some(v) => old(self)@.vars.contains_key(name@) && *v == old(self)@.vars[name@]
                    && final(self).wf() && final(self)@ == (ScopeV {
                    bubble: old(self)@.bubble,
                    vars: old(self)@.vars.insert(name@, *final(v)),
                }),
                None => !old(self)@.vars.contains_key(name@) && final(self).variables.entries@
                    == old(self).variables.entries@ && final(self).bubble_variables == old(
                    self,
                ).bubble_variables,
            },
    {
        self.variables.get_mut(name)
    }

    pub fn get(&self, name: &Name) -> (r: Option<&Value>)
        requires
            self.wf(),
        ensures
            match r {
                Some(v) => self@.vars.contains_key(name@) && *v == self@.vars[name@],
                None => !self@.vars.contains_key(name@),
            },
    {
        self.variables.get(name)
    }
}

/// The registry: the sole owner of all modules and, through the heap, of
/// every compound value's backing store.
pub struct Runtime {
    pub modules: NameTable<Module>,
    pub heap: Heap,
}

impl Runtime {
    pub open spec fn wf(&self) -> bool {
        &&& registry_wf(&self.modules)
        &&& self.heap.wf()
    }
}

impl Default for Runtime {
    fn default() -> (r: Runtime)
        ensures
            r.wf(),
            r.modules@ == Map::<Seq<char>, Module>::empty(),
            r.heap@ == Seq::<crate::value::CellV>::empty(),
    {
        Self { modules: NameTable::new(), heap: Heap::new() }
    }
}

impl Runtime {
    /// Inserts the module under its name, replacing any module already
    /// registered under it.
    pub fn register(&mut self, module: Module)
        requires
            old(self).wf(),
            module.wf(),
        ensures
            final(self).wf(),
            final(self).modules@ == old(self).modules@.insert(module.name@, module),
            final(self).heap == old(self).heap,
    {
        let name = module.name.clone();
        self.modules.insert(name, module);
    }

    /// Evaluates one top-level expression with a caller-chosen fuel bound
    /// on nested calls and loop iterations. The context starts with an
    /// empty scope stack; a signal that is still unconsumed at the top
    /// level is a `ControlFlowError`. On the read-only fragment the result
    /// is exactly what `frame_eval` gives over the empty frame stack.
    pub fn evaluate_with_fuel<H: NativeHost>(
        &mut self,
        expression: Expr,
        host: &mut H,
        fuel: u64,
    ) -> (r: Result<Value, Error>)
        requires
            old(self).wf(),
        ensures
            final(self).wf(),
            final(self).modules == old(self).modules,
            heap_extends(old(self).heap@, final(self).heap@),
            match frame_eval(Seq::<ScopeV>::empty(), expression) {
                Some(out) => r == (match out {
                    Ok(res) => toplevel_result(res),
                    Err(err) => Err(err),
                }),
                None => true,
            },
            expression matches Expr::Invoke(_) ==> r == Err::<Value, Error>(
                Error::UnboundVariable,
            ),
            expression matches Expr::Litteral(Litteral::List(elems)) ==> (match frame_values(
                Seq::<ScopeV>::empty(),
                elems@,
            ) {
                Some(vs) => final(self).heap@ == old(self).heap@.push(CellV::List(vs)) && r
                    == Ok::<Value, Error>(Value::List(old(self).heap.cells@.len() as usize)),
                None => true,
            }),
            expression matches Expr::Litteral(Litteral::Object(entries)) ==> (match frame_object(
                Seq::<ScopeV>::empty(),
                entries@,
            ) {
                Some(m) => fuel >= 1 ==> final(self).heap@ == old(self).heap@.push(
                    CellV::Object(m),
                ) && r == Ok::<Value, Error>(Value::Object(old(self).heap.cells@.len() as usize)),
                None => true,
            }),
            match expression {
                Expr::FnCall(fc) => match frame_values(Seq::<ScopeV>::empty(), fc.arguments@) {
                    Some(vs) => fuel >= 1 ==> call_post(
                        old(self).modules@,
                        Seq::<ScopeV>::empty(),
                        fc.fn_path,
                        vs,
                        (match r {
                            Ok(v) => Ok::<EvRes, Error>(EvRes::Value(v)),
                            Err(err) => Err::<EvRes, Error>(err),
                        }),
                    ),
                    None => true,
                },
                _ => true,
            },
    {
        let mut context = Context::new();
        let res = context.eval_expr(&self.modules, &mut self.heap, host, &expression, fuel);
        match res {
            Err(err) => Err(err),
            Ok(EvRes::Value(v)) => Ok(v),
            Ok(_) => Err(Error::ControlFlowError),
        }
    }

    /// Evaluates one top-level expression with the default fuel bound.
    pub fn evaluate<H: NativeHost>(&mut self, expression: Expr, host: &mut H) -> (r: Result<
        Value,
        Error,
    >)
        requires
            old(self).wf(),
        ensures
            final(self).wf(),
            final(self).modules == old(self).modules,
            heap_extends(old(self).heap@, final(self).heap@),
            match frame_eval(Seq::<ScopeV>::empty(), expression) {
                Some(out) => r == (match out {
                    Ok(res) => toplevel_result(res),
                    Err(err) => Err(err),
                }),
                None => true,
            },
            expression matches Expr::Invoke(_) ==> r == Err::<Value, Error>(
                Error::UnboundVariable,
            ),
            expression matches Expr::Litteral(Litteral::List(elems)) ==> (match frame_values(
                Seq::<ScopeV>::empty(),
                elems@,
            ) {
                Some(vs) => final(self).heap@ == old(self).heap@.push(CellV::List(vs)) && r
                    == Ok::<Value, Error>(Value::List(old(self).heap.cells@.len() as usize)),
                None => true,
            }),
            expression matches Expr::Litteral(Litteral::Object(entries)) ==> (match frame_object(
                Seq::<ScopeV>::empty(),
                entries@,
            ) {
                Some(m) => final(self).heap@ == old(self).heap@.push(CellV::Object(m)) && r
                    == Ok::<Value, Error>(Value::Object(old(self).heap.cells@.len() as usize)),
                None => true,
            }),
            match expression {
                Expr::FnCall(fc) => match frame_values(Seq::<ScopeV>::empty(), fc.arguments@) {
                    Some(vs) => call_post(
                        old(self).modules@,
                        Seq::<ScopeV>::empty(),
                        fc.fn_path,
                        vs,
                        (match r {
                            Ok(v) => Ok::<EvRes, Error>(EvRes::Value(v)),
                            Err(err) => Err::<EvRes, Error>(err),
                        }),
                    ),
                    None => true,
                },
                _ => true,
            },
    {
        self.evaluate_with_fuel(expression, host, DEFAULT_FUEL)
    }
}

} // verus!
