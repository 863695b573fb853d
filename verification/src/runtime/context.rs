//! The invocation context: the scope stack and the recursive tree-walking
//! evaluation. Every evaluation function promises three things: the scope
//! frames below the top survive untouched and the stack keeps its depth;
//! the heap only grows; and on the read-only fragment the result is exactly
//! what `frame_eval` gives, with no state change at all.

use crate::ast::{Assignment, Block, Condition, Expr, FnCall, FnDef, Invoke, Litteral, Name, Path};
use crate::error::Error;
use crate::function::{FnImpl, Function, NativeHost};
use crate::module::{find_function_spec, registry_wf, Module};
use crate::runtime::eval_result::EvRes;
use crate::runtime::{Scope, ScopeV};
use crate::semantics::{
    frame_elems_interrupt, frame_eval, frame_eval_block, frame_object, frame_values,
    invocation_result,
};
use crate::table::NameTable;
use crate::value::{heap_extends, CellV, Heap, InnerObj};
use crate::Value;
use vstd::prelude::*;

verus! {

broadcast use {vstd::seq::group_seq_axioms, vstd::std_specs::vec::group_vec_axioms};

/// Lookup walks the frames from the top down: the first frame holding the
/// name decides; a frame with `bubble == false` is inspected but stops the
/// walk; running out of frames is absence.
pub open spec fn lookup_frames(frames: Seq<ScopeV>, name: Seq<char>) -> Option<Value>
    decreases frames.len(),
{
    if frames.len() == 0 {
        None
    } else {
        let top = frames.last();
        if top.vars.contains_key(name) {
            Some(top.vars[name])
        } else if top.bubble {
            lookup_frames(frames.drop_last(), name)
        } else {
            None
        }
    }
}

/// What every evaluation step may do to the state: keep the stack's depth,
/// keep every frame below the top intact, keep the top frame's bubble flag,
/// and only append to the heap.
pub open spec fn state_kept(
    pre_frames: Seq<ScopeV>,
    post_frames: Seq<ScopeV>,
    pre_heap: Seq<CellV>,
    post_heap: Seq<CellV>,
) -> bool {
    &&& post_frames.len() == pre_frames.len()
    &&& forall|i: int| 0 <= i < pre_frames.len() - 1 ==> post_frames[i] == pre_frames[i]
    &&& (pre_frames.len() > 0 ==> post_frames.last().bubble == pre_frames.last().bubble)
    &&& heap_extends(pre_heap, post_heap)
}

/// What an assignment does, given the outcome of its value expression: a
/// plain value is stored in the top frame (no open frame is a control-flow
/// fault) and is the assignment's own result; signals and errors pass
/// through with nothing stored.
pub open spec fn assign_post(
    pre_frames: Seq<ScopeV>,
    name: Seq<char>,
    out: Result<EvRes, Error>,
    post_frames: Seq<ScopeV>,
    r: Result<EvRes, Error>,
) -> bool {
    match out {
        Ok(EvRes::Value(v)) => if pre_frames.len() == 0 {
            r == Err::<EvRes, Error>(Error::ControlFlowError) && post_frames == pre_frames
        } else {
            r == Ok::<EvRes, Error>(EvRes::Value(v)) && post_frames == pre_frames.update(
                pre_frames.len() - 1,
                ScopeV {
                    bubble: pre_frames.last().bubble,
                    vars: pre_frames.last().vars.insert(name, v),
                },
            )
        },
        Ok(sig) => r == Ok::<EvRes, Error>(sig) && post_frames == pre_frames,
        Err(err) => r == Err::<EvRes, Error>(err) && post_frames == pre_frames,
    }
}

/// What an assignment does for the right-hand sides the contracts decide
/// beyond the read-only fragment: a variable read stores the looked-up
/// value (so a copied compound value keeps its handle), and a compound
/// literal of read-only elements stores the handle of the one cell it
/// allocates.
pub open spec fn assign_rhs_post(
    pre_frames: Seq<ScopeV>,
    pre_heap: Seq<CellV>,
    fresh: usize,
    a: Assignment,
    fuel: u64,
    post_frames: Seq<ScopeV>,
    post_heap: Seq<CellV>,
    r: Result<EvRes, Error>,
) -> bool {
    match *a.value {
        Expr::Invoke(inv) => post_heap == pre_heap && assign_post(
            pre_frames,
            a.variable_name@,
            (match lookup_frames(pre_frames, inv.variable_name@) {
                Some(v) => Ok::<EvRes, Error>(EvRes::Value(v)),
                None => Err::<EvRes, Error>(Error::UnboundVariable),
            }),
            post_frames,
            r,
        ),
        Expr::Litteral(Litteral::List(elems)) => match frame_values(pre_frames, elems@) {
            Some(vs) => post_heap == pre_heap.push(CellV::List(vs)) && assign_post(
                pre_frames,
                a.variable_name@,
                Ok::<EvRes, Error>(EvRes::Value(Value::List(fresh))),
                post_frames,
                r,
            ),
            None => true,
        },
        Expr::Litteral(Litteral::Object(entries)) => match frame_object(pre_frames, entries@) {
            Some(m) => fuel >= 1 ==> post_heap == pre_heap.push(CellV::Object(m)) && assign_post(
                pre_frames,
                a.variable_name@,
                Ok::<EvRes, Error>(EvRes::Value(Value::Object(fresh))),
                post_frames,
                r,
            ),
            None => true,
        },
        _ => true,
    }
}

/// What a call produces once its arguments are known: the registry decides
/// `UnknownModule` against `UnboundFunction`; an `Imported` callee is
/// unsupported; a `Native` callee checks its arity; a `Defined` callee
/// checks its parameter count and, on a read-only body, yields exactly the
/// body's outcome — evaluated in a fresh non-bubbling parameter frame —
/// through the invocation boundary.
pub open spec fn call_post(
    mods: Map<Seq<char>, Module>,
    frames: Seq<ScopeV>,
    path: Path,
    vs: Seq<Value>,
    r: Result<EvRes, Error>,
) -> bool {
    match find_function_spec(mods, path) {
        Err(err) => r == Err::<EvRes, Error>(err),
        Ok(f) => match f.implem {
            FnImpl::Imported(_) => r == Err::<EvRes, Error>(Error::UnsupportedOperation),
            FnImpl::Native(n) => {
                &&& vs.len() != n.arg_count <==> r == Err::<EvRes, Error>(Error::ArityError)
                &&& vs.len() == n.arg_count ==> r matches Ok(EvRes::Value(_))
            },
            FnImpl::Defined(d) => {
                &&& vs.len() != d.parameters@.len() ==> r == Err::<EvRes, Error>(Error::ArityError)
                &&& match frame_eval_block(
                    callee_frames(frames, d.parameters@, vs),
                    d.expressions.expressions@,
                ) {
                    Some(body) => vs.len() == d.parameters@.len() ==> r == (match body {
                        Ok(res) => match invocation_result(res) {
                            Ok(v) => Ok(EvRes::Value(v)),
                            Err(err) => Err(err),
                        },
                        Err(err) => Err(err),
                    }),
                    None => true,
                }
            },
        },
    }
}

/// The frame a defined function starts from: each parameter bound to the
/// matching argument, in order, a later duplicate parameter winning.
pub open spec fn param_bindings(names: Seq<Name>, values: Seq<Value>) -> Map<Seq<char>, Value>
    decreases names.len(),
{
    if names.len() == 0 || values.len() == 0 {
        Map::empty()
    } else {
        param_bindings(names.drop_last(), values.drop_last()).insert(
            names.last()@,
            values.last(),
        )
    }
}

/// The frame stack a defined function's body runs on: the caller's frames
/// with a fresh non-bubbling parameter frame on top. The body can only see
/// that top frame.
pub open spec fn callee_frames(
    frames: Seq<ScopeV>,
    names: Seq<Name>,
    values: Seq<Value>,
) -> Seq<ScopeV> {
    frames.push(ScopeV { bubble: false, vars: param_bindings(names, values) })
}

/// A pair list made of matching names and values denotes exactly the
/// parameter-binding map.
proof fn lemma_param_bindings(pairs: Seq<(Name, Value)>, names: Seq<Name>, values: Seq<Value>)
    requires
        pairs.len() == names.len(),
        names.len() == values.len(),
        forall|j: int|
            0 <= j < pairs.len() ==> (#[trigger] pairs[j]).0 == names[j] && pairs[j].1
                == values[j],
    ensures
        crate::table::entries_view(pairs) == param_bindings(names, values),
    decreases pairs.len(),
{
    if pairs.len() > 0 {
        assert forall|j: int| 0 <= j < pairs.len() - 1 implies (#[trigger] pairs.drop_last()[j]).0
            == names.drop_last()[j] && pairs.drop_last()[j].1 == values.drop_last()[j] by {
            assert(pairs.drop_last()[j] == pairs[j]);
        }
        lemma_param_bindings(pairs.drop_last(), names.drop_last(), values.drop_last());
        assert(pairs.last() == pairs[pairs.len() - 1]);
    }
}

/// The per-invocation context: the scope stack. The module registry and
/// the heap are borrowed by each evaluation call rather than owned here, so
/// a function found in the registry can be called while the context is
/// mutated.
pub struct Context {
    pub scopes: Vec<Scope>,
}

impl Context {
    pub open spec fn frames(&self) -> Seq<ScopeV> {
        self.scopes@.map_values(|s: Scope| s@)
    }

    pub open spec fn wf(&self) -> bool {
        forall|i: int| 0 <= i < self.scopes@.len() ==> (#[trigger] self.scopes@[i]).wf()
    }

    pub fn new() -> (r: Context)
        ensures
            r.wf(),
            r.frames() == Seq::<ScopeV>::empty(),
    {
        let r = Context { scopes: Vec::new() };
        proof {
            assert(r.frames() =~= Seq::<ScopeV>::empty());
        }
        r
    }

    /// Resolves a call path in the registry: the module first, then the
    /// function, each absence being its own error.
    pub fn find_function<'m>(&self, modules: &'m NameTable<Module>, path: &Path) -> (r: Result<
        &'m Function,
        Error,
    >)
        requires
            registry_wf(modules),
        ensures
            match r {
                Ok(f) => find_function_spec(modules@, *path) == Ok::<Function, Error>(*f),
                Err(e) => find_function_spec(modules@, *path) == Err::<Function, Error>(e),
            },
    {
        match modules.get(&path.module) {
            Some(m) => match m.get_function(&path.item) {
                Some(f) => Ok(f),
                None => Err(Error::UnboundFunction),
            },
            None => Err(Error::UnknownModule),
        }
    }

    /// Looks a variable up across the visible frames, top down, honouring
    /// the bubble rule; the result is a copy of the stored value.
    pub fn find_variable(&self, name: &Name) -> (r: Option<Value>)
        requires
            self.wf(),
        ensures
            r == lookup_frames(self.frames(), name@),
    {
        proof {
            assert(self.frames().subrange(0, self.frames().len() as int) =~= self.frames());
        }
        let mut i: usize = self.scopes.len();
        while i > 0
            invariant
                i <= self.scopes@.len(),
                self.wf(),
                lookup_frames(self.frames().subrange(0, i as int), name@) == lookup_frames(
                    self.frames(),
                    name@,
                ),
            decreases i,
        {
            i = i - 1;
            let scope = &self.scopes[i];
            proof {
                assert(self.frames().subrange(0, i + 1).last() == self.frames()[i as int]);
                assert(self.frames().subrange(0, i + 1).drop_last() =~= self.frames().subrange(
                    0,
                    i as int,
                ));
            }
            match scope.get(name) {
                Some(v) => {
                    return Some(v.clone());
                },
                None => {
                    if !scope.bubble_variables {
                        return None;
                    }
                },
            }
        }
        None
    }

    fn push_scope(&mut self, scope: Scope)
        requires
            old(self).wf(),
            scope.wf(),
        ensures
            final(self).wf(),
            final(self).frames() == old(self).frames().push(scope@),
    {
        self.scopes.push(scope);
        proof {
            assert(self.frames() =~= old(self).frames().push(scope@));
        }
    }

    fn pop_scope(&mut self)
        requires
            old(self).wf(),
            old(self).scopes@.len() > 0,
        ensures
            final(self).wf(),
            final(self).frames() == old(self).frames().drop_last(),
    {
        let _popped = self.scopes.pop();
        proof {
            assert(self.frames() =~= old(self).frames().drop_last());
        }
    }

    /// The frame assignments write into, if any is open.
    pub fn top_scope(&self) -> (r: Option<&Scope>)
        ensures
            match r {
                Some(s) => self.scopes@.len() > 0 && *s == self.scopes@.last(),
                None => self.scopes@.len() == 0,
            },
    {
        let n = self.scopes.len();
        if n > 0 {
            Some(&self.scopes[n - 1])
        } else {
            None
        }
    }

    pub fn top_index(&self) -> (r: usize)
        requires
            self.scopes@.len() > 0,
        ensures
            r == self.scopes@.len() - 1,
    {
        self.scopes.len() - 1
    }

    /// Runs a defined function: checks the parameter count, binds the
    /// parameters in a fresh non-bubbling frame, evaluates the body, pops
    /// the frame on every path, and consumes the resulting signal. The
    /// caller's frames come back exactly as they were.
    pub fn run_fun<H: NativeHost>(
        &mut self,
        fn_def: &FnDef,
        params: Vec<Value>,
        modules: &NameTable<Module>,
        heap: &mut Heap,
        host: &mut H,
        fuel: u64,
    ) -> (r: Result<Value, Error>)
        requires
            old(self).wf(),
            registry_wf(modules),
            old(heap).wf(),
        ensures
            final(self).wf(),
            final(heap).wf(),
            final(self).frames() == old(self).frames(),
            heap_extends(old(heap)@, final(heap)@),
            params@.len() != fn_def.parameters@.len() ==> r == Err::<Value, Error>(
                Error::ArityError,
            ) && final(heap)@ == old(heap)@,
            match frame_eval_block(
                callee_frames(old(self).frames(), fn_def.parameters@, params@),
                fn_def.expressions.expressions@,
            ) {
                Some(body) => params@.len() == fn_def.parameters@.len() ==> final(heap)@ == old(heap)@ && r == (match body {
                    Ok(res) => invocation_result(res),
                    Err(err) => Err(err),
                }),
                None => true,
            },
        decreases fuel, 1int, fn_def.expressions,
    {
        if params.len() != fn_def.parameters.len() {
            return Err(Error::ArityError);
        }
        let ghost all_params = params@;
        let mut bindings: Vec<(Name, Value)> = Vec::new();
        let mut values = params;
        let n = fn_def.parameters.len();
        let mut i: usize = 0;
        while i < n
            invariant
                i <= n,
                n == fn_def.parameters@.len(),
                n == all_params.len(),
                values@.len() == n - i,
                bindings@.len() == i,
                forall|j: int|
                    0 <= j < i ==> (#[trigger] bindings@[j]).0 == fn_def.parameters@[j]
                        && bindings@[j].1 == all_params[j],
                forall|j: int| 0 <= j < values@.len() ==> #[trigger] values@[j] == all_params[
                    j + i
                ],
            decreases n - i,
        {
            let name = fn_def.parameters[i].clone();
            let value = values.remove(0);
            bindings.push((name, value));
            i += 1;
        }
        proof {
            lemma_param_bindings(bindings@, fn_def.parameters@, all_params);
        }
        self.push_scope(Scope::new_with(bindings, false));
        let ghost pushed = self.frames();
        let res = self.eval_block(modules, heap, host, &fn_def.expressions, fuel);
        self.pop_scope();
        proof {
            assert(final(self).frames() =~= old(self).frames());
            assert(pushed.last().vars == param_bindings(fn_def.parameters@, all_params));
            assert(!pushed.last().bubble);
            assert(pushed =~= callee_frames(old(self).frames(), fn_def.parameters@, all_params));
        }
        match res {
            Ok(EvRes::Value(v)) => Ok(v),
            Ok(EvRes::ReturnSC(v)) => Ok(v),
            Ok(EvRes::BreakSC(_)) => Err(Error::ControlFlowError),
            Err(err) => Err(err),
        }
    }

    /// Evaluates one expression as a whole evaluation would: a residual
    /// signal at this level is a control-flow fault.
    pub fn run_expr<H: NativeHost>(
        &mut self,
        modules: &NameTable<Module>,
        heap: &mut Heap,
        host: &mut H,
        expr: &Expr,
        fuel: u64,
    ) -> (r: Result<Value, Error>)
        requires
            old(self).wf(),
            registry_wf(modules),
            old(heap).wf(),
        ensures
            final(self).wf(),
            final(heap).wf(),
            state_kept(old(self).frames(), final(self).frames(), old(heap)@, final(heap)@),
            match frame_eval(old(self).frames(), *expr) {
                Some(out) => r == (match out {
                    Ok(res) => crate::semantics::toplevel_result(res),
                    Err(err) => Err(err),
                }),
                None => true,
            },
    {
        let res = self.eval_expr(modules, heap, host, expr, fuel);
        match res {
            Ok(EvRes::Value(v)) => Ok(v),
            Ok(_) => Err(Error::ControlFlowError),
            Err(err) => Err(err),
        }
    }

    /// The dispatcher: evaluates one node by its construct's rule.
    pub(crate) fn eval_expr<H: NativeHost>(
        &mut self,
        modules: &NameTable<Module>,
        heap: &mut Heap,
        host: &mut H,
        e: &Expr,
        fuel: u64,
    ) -> (r: Result<EvRes, Error>)
        requires
            old(self).wf(),
            registry_wf(modules),
            old(heap).wf(),
        ensures
            final(self).wf(),
            final(heap).wf(),
            state_kept(old(self).frames(), final(self).frames(), old(heap)@, final(heap)@),
            match frame_eval(old(self).frames(), *e) {
                Some(out) => r == out && final(self).frames() == old(self).frames() && final(heap)@ == old(heap)@,
                None => true,
            },
            *e matches Expr::Litteral(Litteral::List(elems)) ==> (match frame_values(
                old(self).frames(),
                elems@,
            ) {
                Some(vs) => final(self).frames() == old(self).frames() && final(heap)@ == old(heap)@.push(CellV::List(vs)) && r == Ok::<EvRes, Error>(
                    EvRes::Value(Value::List(old(heap).cells@.len() as usize)),
                ),
                None => true,
            }),
            *e matches Expr::Litteral(Litteral::Object(entries)) ==> (match frame_object(
                old(self).frames(),
                entries@,
            ) {
                Some(m) => fuel >= 1 ==> final(self).frames() == old(self).frames() && final(heap)@ == old(heap)@.push(CellV::Object(m)) && r == Ok::<EvRes, Error>(
                    EvRes::Value(Value::Object(old(heap).cells@.len() as usize)),
                ),
                None => true,
            }),
            *e matches Expr::Assignment(a) ==> (match frame_eval(old(self).frames(), *a.value) {
                Some(out) => final(heap)@ == old(heap)@ && assign_post(
                    old(self).frames(),
                    a.variable_name@,
                    out,
                    final(self).frames(),
                    r,
                ),
                None => true,
            }),
            *e matches Expr::FnCall(fc) ==> (match frame_values(old(self).frames(), fc.arguments@) {
                Some(vs) => fuel >= 1 ==> final(self).frames() == old(self).frames() && call_post(
                    modules@,
                    old(self).frames(),
                    fc.fn_path,
                    vs,
                    r,
                ),
                None => true,
            }),
            *e matches Expr::Litteral(Litteral::List(elems)) ==> (match frame_elems_interrupt(
                old(self).frames(),
                elems@,
            ) {
                Some(out) => r == out && final(self).frames() == old(self).frames() && final(heap)@
                    == old(heap)@,
                None => true,
            }),
            *e matches Expr::Litteral(Litteral::Object(entries)) ==> (match frame_elems_interrupt(
                old(self).frames(),
                entries@.map_values(|en: (Name, crate::ast::BExpr)| en.1),
            ) {
                Some(out) => fuel >= 1 ==> r == out && final(self).frames() == old(self).frames()
                    && final(heap)@ == old(heap)@,
                None => true,
            }),
            *e matches Expr::FnCall(fc) ==> (match frame_elems_interrupt(
                old(self).frames(),
                fc.arguments@,
            ) {
                Some(out) => r == out && final(self).frames() == old(self).frames() && final(heap)@
                    == old(heap)@,
                None => true,
            }),
            *e matches Expr::Assignment(a) ==> assign_rhs_post(
                old(self).frames(),
                old(heap)@,
                old(heap).cells@.len() as usize,
                a,
                fuel,
                final(self).frames(),
                final(heap)@,
                r,
            ),
        decreases fuel, 0int, *e,
    {
        match e {
            Expr::Block(block) => self.eval_block(modules, heap, host, block, fuel),
            Expr::Assignment(assignment) => self.eval_assignment(
                modules,
                heap,
                host,
                assignment,
                fuel,
            ),
            Expr::Invoke(invoke) => self.eval_invoke(invoke),
            Expr::Litteral(litteral) => self.eval_litteral(modules, heap, host, litteral, fuel),
            Expr::FnCall(fn_call) => self.eval_fn_call(modules, heap, host, fn_call, fuel),
            Expr::Condition(condition) => self.eval_condition(modules, heap, host, condition, fuel),
            Expr::Loop(loop_) => self.eval_loop(modules, heap, host, loop_, fuel),
            Expr::Return(return_) => self.eval_return(modules, heap, host, return_, fuel),
            Expr::Break(break_) => self.eval_break(modules, heap, host, break_, fuel),
        }
    }

    fn eval_block<H: NativeHost>(
        &mut self,
        modules: &NameTable<Module>,
        heap: &mut Heap,
        host: &mut H,
        block: &Block,
        fuel: u64,
    ) -> (r: Result<EvRes, Error>)
        requires
            old(self).wf(),
            registry_wf(modules),
            old(heap).wf(),
        ensures
            final(self).wf(),
            final(heap).wf(),
            state_kept(old(self).frames(), final(self).frames(), old(heap)@, final(heap)@),
            match frame_eval_block(old(self).frames(), block.expressions@) {
                Some(out) => r == out && final(self).frames() == old(self).frames() && final(heap)@ == old(heap)@,
                None => true,
            },
        decreases fuel, 0int, *block,
    {
        let ghost es = block.expressions@;
        proof {
            assert(es.skip(0) =~= es);
        }
        let n = block.expressions.len();
        let mut acc: EvRes = EvRes::Value(Value::Unit);
        let mut i: usize = 0;
        while i < n
            invariant
                i <= n,
                n == es.len(),
                es == block.expressions@,
                self.wf(),
                heap.wf(),
                registry_wf(modules),
                state_kept(old(self).frames(), self.frames(), old(heap)@, heap@),
                match frame_eval_block(old(self).frames(), es) {
                    Some(out) => self.frames() == old(self).frames() && heap@ == old(heap)@ && (i
                        < n ==> frame_eval_block(old(self).frames(), es.skip(i as int)) == Some(
                        out,
                    )) && (i == n ==> out == Ok::<EvRes, Error>(acc)),
                    None => true,
                },
            decreases n - i,
        {
            let res = match self.eval_expr(modules, heap, host, &block.expressions[i], fuel) {
                Ok(res) => res,
                Err(err) => {
                    proof {
                        assert(es.skip(i as int)[0] == es[i as int]);
                    }
                    return Err(err);
                },
            };
            proof {
                assert(es.skip(i as int)[0] == es[i as int]);
                assert(es.skip(i as int).drop_first() =~= es.skip(i + 1));
            }
            match res {
                EvRes::Value(v) => {
                    acc = EvRes::Value(v);
                },
                _ => {
                    return Ok(res);
                },
            }
            i += 1;
        }
        Ok(acc)
    }

    fn eval_assignment<H: NativeHost>(
        &mut self,
        modules: &NameTable<Module>,
        heap: &mut Heap,
        host: &mut H,
        assignment: &Assignment,
        fuel: u64,
    ) -> (r: Result<EvRes, Error>)
        requires
            old(self).wf(),
            registry_wf(modules),
            old(heap).wf(),
        ensures
            final(self).wf(),
            final(heap).wf(),
            state_kept(old(self).frames(), final(self).frames(), old(heap)@, final(heap)@),
            match frame_eval(old(self).frames(), *assignment.value) {
                Some(out) => final(heap)@ == old(heap)@ && assign_post(
                    old(self).frames(),
                    assignment.variable_name@,
                    out,
                    final(self).frames(),
                    r,
                ),
                None => true,
            },
            assign_rhs_post(
                old(self).frames(),
                old(heap)@,
                old(heap).cells@.len() as usize,
                *assignment,
                fuel,
                final(self).frames(),
                final(heap)@,
                r,
            ),
        decreases fuel, 0int, *assignment,
    {
        let res = match self.eval_expr(modules, heap, host, &assignment.value, fuel) {
            Ok(res) => res,
            Err(err) => {
                return Err(err);
            },
        };
        match res {
            EvRes::Value(v) => {
                let stored = v.clone();
                let name = assignment.variable_name.clone();
                let mut top = match self.scopes.pop() {
                    Some(top) => top,
                    None => {
                        proof {
                            assert(self.frames() =~= old(self).frames());
                        }
                        return Err(Error::ControlFlowError);
                    },
                };
                top.insert(name, stored);
                self.scopes.push(top);
                proof {
                    assert(self.frames() =~= old(self).frames().update(
                        old(self).frames().len() - 1,
                        self.frames().last(),
                    ));
                }
                Ok(EvRes::Value(v))
            },
            _ => Ok(res),
        }
    }

    fn eval_invoke(&self, invoke: &Invoke) -> (r: Result<EvRes, Error>)
        requires
            self.wf(),
        ensures
            r == (match lookup_frames(self.frames(), invoke.variable_name@) {
                Some(v) => Ok::<EvRes, Error>(EvRes::Value(v)),
                None => Err::<EvRes, Error>(Error::UnboundVariable),
            }),
    {
        match self.find_variable(&invoke.variable_name) {
            Some(v) => Ok(EvRes::Value(v)),
            None => Err(Error::UnboundVariable),
        }
    }

    fn eval_litteral<H: NativeHost>(
        &mut self,
        modules: &NameTable<Module>,
        heap: &mut Heap,
        host: &mut H,
        litteral: &Litteral,
        fuel: u64,
    ) -> (r: Result<EvRes, Error>)
        requires
            old(self).wf(),
            registry_wf(modules),
            old(heap).wf(),
        ensures
            final(self).wf(),
            final(heap).wf(),
            state_kept(old(self).frames(), final(self).frames(), old(heap)@, final(heap)@),
            match crate::semantics::scalar_value(*litteral) {
                Some(v) => r == Ok::<EvRes, Error>(EvRes::Value(v)) && final(self).frames() == old(self).frames() && final(heap)@ == old(heap)@,
                None => true,
            },
            *litteral matches Litteral::List(elems) ==> (match frame_values(
                old(self).frames(),
                elems@,
            ) {
                Some(vs) => final(self).frames() == old(self).frames() && final(heap)@ == old(heap)@.push(CellV::List(vs)) && r == Ok::<EvRes, Error>(
                    EvRes::Value(Value::List(old(heap).cells@.len() as usize)),
                ),
                None => true,
            }),
            *litteral matches Litteral::Object(entries) ==> (match frame_object(
                old(self).frames(),
                entries@,
            ) {
                Some(m) => fuel >= 1 ==> final(self).frames() == old(self).frames() && final(heap)@
                    == old(heap)@.push(CellV::Object(m)) && r == Ok::<EvRes, Error>(
                    EvRes::Value(Value::Object(old(heap).cells@.len() as usize)),
                ),
                None => true,
            }),
            *litteral matches Litteral::List(elems) ==> (match frame_elems_interrupt(
                old(self).frames(),
                elems@,
            ) {
                Some(out) => r == out && final(self).frames() == old(self).frames() && final(heap)@
                    == old(heap)@,
                None => true,
            }),
            *litteral matches Litteral::Object(entries) ==> (match frame_elems_interrupt(
                old(self).frames(),
                entries@.map_values(|en: (Name, crate::ast::BExpr)| en.1),
            ) {
                Some(out) => fuel >= 1 ==> r == out && final(self).frames() == old(self).frames()
                    && final(heap)@ == old(heap)@,
                None => true,
            }),
        decreases fuel, 0int, *litteral,
    {
        match litteral {
            Litteral::String(s) => Ok(EvRes::Value(Value::String(s.clone()))),
            Litteral::Integer(i) => Ok(EvRes::Value(Value::Integer(*i))),
            Litteral::Float(f) => Ok(EvRes::Value(Value::Float(*f))),
            Litteral::Bool(b) => Ok(EvRes::Value(Value::Bool(*b))),
            Litteral::List(vec) => {
                let ghost es = vec@;
                proof {
                    assert(es.skip(0) =~= es);
                }
                let mut results: Vec<Value> = Vec::new();
                let n = vec.len();
                let mut i: usize = 0;
                while i < n
                    invariant
                        i <= n,
                        n == es.len(),
                        es == vec@,
                        *litteral == Litteral::List(*vec),
                        self.wf(),
                        heap.wf(),
                        registry_wf(modules),
                        state_kept(old(self).frames(), self.frames(), old(heap)@, heap@),
                        match frame_values(old(self).frames(), es) {
                            Some(vs) => self.frames() == old(self).frames() && heap@ == old(heap)@
                                && results@ == vs.subrange(0, i as int),
                            None => true,
                        },
                        match frame_elems_interrupt(old(self).frames(), es) {
                            Some(out) => self.frames() == old(self).frames() && heap@ == old(heap)@
                                && i < n && frame_elems_interrupt(
                                old(self).frames(),
                                es.skip(i as int),
                            ) == Some(out),
                            None => true,
                        },
                    decreases n - i,
                {
                    proof {
                        match frame_values(old(self).frames(), es) {
                            Some(vs) => {
                                crate::semantics::lemma_frame_values_at(
                                    old(self).frames(),
                                    es,
                                    vs,
                                    i as int,
                                );
                            },
                            None => {},
                        }
                        match frame_elems_interrupt(old(self).frames(), es) {
                            Some(out) => {
                                assert(es.skip(i as int)[0] == es[i as int]);
                                assert(es.skip(i as int).drop_first() =~= es.skip(i + 1));
                            },
                            None => {},
                        }
                    }
                    let res = match self.eval_expr(modules, heap, host, &vec[i], fuel) {
                        Ok(res) => res,
                        Err(err) => {
                            return Err(err);
                        },
                    };
                    match res {
                        EvRes::Value(v) => {
                            results.push(v);
                            proof {
                                match frame_values(old(self).frames(), es) {
                                    Some(vs) => {
                                        assert(results@ =~= vs.subrange(0, i + 1));
                                    },
                                    None => {},
                                }
                            }
                        },
                        _ => {
                            return Ok(res);
                        },
                    }
                    i += 1;
                }
                proof {
                    match frame_values(old(self).frames(), es) {
                        Some(vs) => {
                            crate::semantics::lemma_frame_values_len(old(self).frames(), es, vs);
                            assert(results@ =~= vs);
                        },
                        None => {},
                    }
                }
                Ok(EvRes::Value(heap.alloc_list(results)))
            },
            Litteral::Object(entries) => {
                if fuel == 0 {
                    return Err(Error::RecursionLimit);
                }
                let ghost vexprs = entries@.map_values(|en: (Name, crate::ast::BExpr)| en.1);
                let mut table: NameTable<Value> = NameTable::new();
                let n = entries.len();
                let mut i: usize = 0;
                proof {
                    assert(entries@.subrange(0, 0) =~= Seq::<(Name, crate::ast::BExpr)>::empty());
                    assert(vexprs.skip(0) =~= vexprs);
                }
                while i < n
                    invariant
                        fuel >= 1,
                        i <= n,
                        n == entries@.len(),
                        *litteral == Litteral::Object(*entries),
                        vexprs == entries@.map_values(|en: (Name, crate::ast::BExpr)| en.1),
                        self.wf(),
                        heap.wf(),
                        registry_wf(modules),
                        table.wf(),
                        state_kept(old(self).frames(), self.frames(), old(heap)@, heap@),
                        match frame_object(old(self).frames(), entries@) {
                            Some(m) => self.frames() == old(self).frames() && heap@ == old(heap)@
                                && frame_object(old(self).frames(), entries@.subrange(0, i as int))
                                == Some(table@),
                            None => true,
                        },
                        match frame_elems_interrupt(old(self).frames(), vexprs) {
                            Some(out) => self.frames() == old(self).frames() && heap@ == old(heap)@
                                && i < n && frame_elems_interrupt(
                                old(self).frames(),
                                vexprs.skip(i as int),
                            ) == Some(out),
                            None => true,
                        },
                    decreases n - i,
                {
                    proof {
                        match frame_object(old(self).frames(), entries@) {
                            Some(m) => {
                                crate::semantics::lemma_frame_object_at(
                                    old(self).frames(),
                                    entries@,
                                    i as int,
                                );
                                crate::semantics::lemma_frame_object_prefix(
                                    old(self).frames(),
                                    entries@,
                                    i + 1,
                                );
                                assert(entries@.subrange(0, i + 1).drop_last() =~= entries@.subrange(
                                    0,
                                    i as int,
                                ));
                                assert(entries@.subrange(0, i + 1).last() == entries@[i as int]);
                            },
                            None => {},
                        }
                        match frame_elems_interrupt(old(self).frames(), vexprs) {
                            Some(out) => {
                                assert(vexprs.skip(i as int)[0] == vexprs[i as int]);
                                assert(vexprs[i as int] == entries@[i as int].1);
                                assert(vexprs.skip(i as int).drop_first() =~= vexprs.skip(i + 1));
                            },
                            None => {},
                        }
                    }
                    let res = match self.eval_expr(modules, heap, host, &entries[i].1, fuel - 1) {
                        Ok(res) => res,
                        Err(err) => {
                            return Err(err);
                        },
                    };
                    match res {
                        EvRes::Value(v) => {
                            table.insert(entries[i].0.clone(), v);
                        },
                        _ => {
                            return Ok(res);
                        },
                    }
                    i += 1;
                }
                proof {
                    match frame_object(old(self).frames(), entries@) {
                        Some(m) => {
                            assert(entries@.subrange(0, n as int) =~= entries@);
                        },
                        None => {},
                    }
                }
                Ok(EvRes::Value(heap.alloc_object(InnerObj(table))))
            },
        }
    }

    fn eval_fn_call<H: NativeHost>(
        &mut self,
        modules: &NameTable<Module>,
        heap: &mut Heap,
        host: &mut H,
        fn_call: &FnCall,
        fuel: u64,
    ) -> (r: Result<EvRes, Error>)
        requires
            old(self).wf(),
            registry_wf(modules),
            old(heap).wf(),
        ensures
            final(self).wf(),
            final(heap).wf(),
            state_kept(old(self).frames(), final(self).frames(), old(heap)@, final(heap)@),
            match frame_values(old(self).frames(), fn_call.arguments@) {
                Some(vs) => fuel >= 1 ==> final(self).frames() == old(self).frames() && call_post(
                    modules@,
                    old(self).frames(),
                    fn_call.fn_path,
                    vs,
                    r,
                ),
                None => true,
            },
            match frame_elems_interrupt(old(self).frames(), fn_call.arguments@) {
                Some(out) => r == out && final(self).frames() == old(self).frames() && final(heap)@
                    == old(heap)@,
                None => true,
            },
        decreases fuel, 0int, *fn_call,
    {
        let ghost es = fn_call.arguments@;
        proof {
            assert(es.skip(0) =~= es);
        }
        let mut args: Vec<Value> = Vec::new();
        let n = fn_call.arguments.len();
        let mut i: usize = 0;
        while i < n
            invariant
                i <= n,
                n == es.len(),
                es == fn_call.arguments@,
                self.wf(),
                heap.wf(),
                registry_wf(modules),
                state_kept(old(self).frames(), self.frames(), old(heap)@, heap@),
                match frame_values(old(self).frames(), es) {
                    Some(vs) => self.frames() == old(self).frames() && heap@ == old(heap)@
                        && args@ == vs.subrange(0, i as int),
                    None => true,
                },
                match frame_elems_interrupt(old(self).frames(), es) {
                    Some(out) => self.frames() == old(self).frames() && heap@ == old(heap)@ && i
                        < n && frame_elems_interrupt(old(self).frames(), es.skip(i as int))
                        == Some(out),
                    None => true,
                },
            decreases n - i,
        {
            proof {
                match frame_values(old(self).frames(), es) {
                    Some(vs) => {
                        crate::semantics::lemma_frame_values_at(
                            old(self).frames(),
                            es,
                            vs,
                            i as int,
                        );
                    },
                    None => {},
                }
                match frame_elems_interrupt(old(self).frames(), es) {
                    Some(out) => {
                        assert(es.skip(i as int)[0] == es[i as int]);
                        assert(es.skip(i as int).drop_first() =~= es.skip(i + 1));
                    },
                    None => {},
                }
            }
            let res = match self.eval_expr(modules, heap, host, &fn_call.arguments[i], fuel) {
                Ok(res) => res,
                Err(err) => {
                    return Err(err);
                },
            };
            match res {
                EvRes::Value(v) => {
                    args.push(v);
                    proof {
                        match frame_values(old(self).frames(), es) {
                            Some(vs) => {
                                assert(args@ =~= vs.subrange(0, i + 1));
                            },
                            None => {},
                        }
                    }
                },
                _ => {
                    return Ok(res);
                },
            }
            i += 1;
        }
        proof {
            match frame_values(old(self).frames(), es) {
                Some(vs) => {
                    crate::semantics::lemma_frame_values_len(old(self).frames(), es, vs);
                    assert(args@ =~= vs);
                },
                None => {},
            }
        }
        if fuel == 0 {
            return Err(Error::RecursionLimit);
        }
        let function = match self.find_function(modules, &fn_call.fn_path) {
            Ok(f) => f,
            Err(err) => {
                return Err(err);
            },
        };
        let res = function.call(
            &fn_call.fn_path.module,
            args,
            self,
            modules,
            heap,
            host,
            fuel - 1,
        );
        match res {
            Ok(v) => Ok(EvRes::Value(v)),
            Err(err) => Err(err),
        }
    }

    fn eval_condition<H: NativeHost>(
        &mut self,
        modules: &NameTable<Module>,
        heap: &mut Heap,
        host: &mut H,
        condition: &Condition,
        fuel: u64,
    ) -> (r: Result<EvRes, Error>)
        requires
            old(self).wf(),
            registry_wf(modules),
            old(heap).wf(),
        ensures
            final(self).wf(),
            final(heap).wf(),
            state_kept(old(self).frames(), final(self).frames(), old(heap)@, final(heap)@),
            match frame_eval(old(self).frames(), Expr::Condition(*condition)) {
                Some(out) => r == out && final(self).frames() == old(self).frames() && final(heap)@ == old(heap)@,
                None => true,
            },
        decreases fuel, 0int, *condition,
    {
        let res = match self.eval_expr(modules, heap, host, &condition.condition, fuel) {
            Ok(res) => res,
            Err(err) => {
                return Err(err);
            },
        };
        match res {
            EvRes::Value(v) => match v {
                Value::Bool(b) => {
                    if b {
                        self.eval_expr(modules, heap, host, &condition.true_case, fuel)
                    } else {
                        self.eval_expr(modules, heap, host, &condition.false_case, fuel)
                    }
                },
                _ => Err(Error::TypeError),
            },
            _ => Ok(res),
        }
    }

    fn eval_loop<H: NativeHost>(
        &mut self,
        modules: &NameTable<Module>,
        heap: &mut Heap,
        host: &mut H,
        loop_: &crate::ast::Loop,
        fuel: u64,
    ) -> (r: Result<EvRes, Error>)
        requires
            old(self).wf(),
            registry_wf(modules),
            old(heap).wf(),
        ensures
            final(self).wf(),
            final(heap).wf(),
            state_kept(old(self).frames(), final(self).frames(), old(heap)@, final(heap)@),
            match frame_eval(old(self).frames(), Expr::Loop(*loop_)) {
                Some(out) => r == out && final(self).frames() == old(self).frames() && final(heap)@ == old(heap)@,
                None => true,
            },
        decreases fuel, 0int, *loop_,
    {
        let mut rem = fuel;
        loop
            invariant
                rem <= fuel,
                self.wf(),
                heap.wf(),
                registry_wf(modules),
                state_kept(old(self).frames(), self.frames(), old(heap)@, heap@),
                match frame_eval(old(self).frames(), Expr::Loop(*loop_)) {
                    Some(out) => self.frames() == old(self).frames() && heap@ == old(heap)@,
                    None => true,
                },
            decreases rem,
        {
            let res = match self.eval_expr(modules, heap, host, &loop_.body, rem) {
                Ok(res) => res,
                Err(err) => {
                    return Err(err);
                },
            };
            match res {
                EvRes::ReturnSC(v) => {
                    return Ok(EvRes::ReturnSC(v));
                },
                EvRes::BreakSC(v) => {
                    return Ok(EvRes::Value(v));
                },
                EvRes::Value(_) => {
                    if rem == 0 {
                        return Err(Error::RecursionLimit);
                    }
                    rem = rem - 1;
                },
            }
        }
    }

    fn eval_return<H: NativeHost>(
        &mut self,
        modules: &NameTable<Module>,
        heap: &mut Heap,
        host: &mut H,
        return_: &crate::ast::Return,
        fuel: u64,
    ) -> (r: Result<EvRes, Error>)
        requires
            old(self).wf(),
            registry_wf(modules),
            old(heap).wf(),
        ensures
            final(self).wf(),
            final(heap).wf(),
            state_kept(old(self).frames(), final(self).frames(), old(heap)@, final(heap)@),
            match frame_eval(old(self).frames(), Expr::Return(*return_)) {
                Some(out) => r == out && final(self).frames() == old(self).frames() && final(heap)@ == old(heap)@,
                None => true,
            },
        decreases fuel, 0int, *return_,
    {
        let res = match self.eval_expr(modules, heap, host, &return_.expression, fuel) {
            Ok(res) => res,
            Err(err) => {
                return Err(err);
            },
        };
        match res {
            EvRes::ReturnSC(v) => Ok(EvRes::ReturnSC(v)),
            EvRes::Value(v) => Ok(EvRes::ReturnSC(v)),
            EvRes::BreakSC(v) => Ok(EvRes::BreakSC(v)),
        }
    }

    fn eval_break<H: NativeHost>(
        &mut self,
        modules: &NameTable<Module>,
        heap: &mut Heap,
        host: &mut H,
        break_: &crate::ast::Break,
        fuel: u64,
    ) -> (r: Result<EvRes, Error>)
        requires
            old(self).wf(),
            registry_wf(modules),
            old(heap).wf(),
        ensures
            final(self).wf(),
            final(heap).wf(),
            state_kept(old(self).frames(), final(self).frames(), old(heap)@, final(heap)@),
            match frame_eval(old(self).frames(), Expr::Break(*break_)) {
                Some(out) => r == out && final(self).frames() == old(self).frames() && final(heap)@ == old(heap)@,
                None => true,
            },
        decreases fuel, 0int, *break_,
    {
        let res = match self.eval_expr(modules, heap, host, &break_.expression, fuel) {
            Ok(res) => res,
            Err(err) => {
                return Err(err);
            },
        };
        match res {
            EvRes::ReturnSC(v) => Ok(EvRes::ReturnSC(v)),
            EvRes::Value(v) => Ok(EvRes::BreakSC(v)),
            EvRes::BreakSC(v) => Ok(EvRes::BreakSC(v)),
        }
    }
}

} // verus!
