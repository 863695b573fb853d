//! The polymorphic callable: host-native, defined in the language, or
//! imported from another module, dispatched through one `call` contract.

use crate::ast::{FnDef, Name, Path};
use crate::error::Error;
use crate::module::{registry_wf, Module};
use crate::runtime::{callee_frames, Context, ScopeV};
use crate::semantics::{frame_eval_block, invocation_result};
use crate::table::NameTable;
use crate::value::{heap_extends, Heap};
use crate::Value;
use vstd::prelude::*;

verus! {

/// A reference to an item of another module. Calling one is not yet
/// supported and fails with `UnsupportedOperation`.
pub struct Imported {
    pub path: Path,
}

/// A host-implemented function: the runtime checks the declared argument
/// count, the host supplies the behaviour through [`NativeHost`].
pub struct Native {
    pub arg_count: usize,
}

/// The extension point for host capabilities (I/O, arithmetic, anything
/// beyond the core). The evaluator calls `call_native` for every `Native`
/// function it dispatches, after checking the arity; nothing is assumed
/// about the returned value.
pub trait NativeHost {
    fn call_native(&mut self, module: &Name, item: &Name, args: Vec<Value>) -> Value;
}

/// A host with no capabilities: every native call yields `Unit`.
pub struct SilentHost;

impl NativeHost for SilentHost {
    fn call_native(&mut self, _module: &Name, _item: &Name, _args: Vec<Value>) -> Value {
        Value::Unit
    }
}

impl Native {
    /// Checks the declared arity, then hands the arguments to the host.
    pub fn run<H: NativeHost>(
        &self,
        module: &Name,
        item: &Name,
        args: Vec<Value>,
        host: &mut H,
    ) -> (r: Result<Value, Error>)
        ensures
            args@.len() != self.arg_count ==> r == Err::<Value, Error>(Error::ArityError),
            args@.len() == self.arg_count ==> r is Ok,
    {
        if args.len() != self.arg_count {
            return Err(Error::ArityError);
        }
        Ok(host.call_native(module, item, args))
    }
}

/// What dispatching a call through a function must yield, given the
/// argument values and the caller's frames: an `Imported` callee is
/// unsupported; a `Native` callee fails with `ArityError` exactly when the
/// argument count misses its declared arity, and otherwise returns whatever
/// the host computed; a `Defined` callee checks its parameter count and,
/// when its body lies in the read-only fragment over the fresh parameter
/// frame, yields exactly the body's outcome through the invocation
/// boundary.
pub open spec fn dispatch_post(
    f: Function,
    args: Seq<Value>,
    frames: Seq<ScopeV>,
    r: Result<Value, Error>,
) -> bool {
    match f.implem {
        FnImpl::Imported(_) => r == Err::<Value, Error>(Error::UnsupportedOperation),
        FnImpl::Native(n) => {
            &&& args.len() != n.arg_count <==> r == Err::<Value, Error>(Error::ArityError)
            &&& args.len() == n.arg_count ==> r is Ok
        },
        FnImpl::Defined(d) => {
            &&& args.len() != d.parameters@.len() ==> r == Err::<Value, Error>(Error::ArityError)
            &&& match frame_eval_block(
                callee_frames(frames, d.parameters@, args),
                d.expressions.expressions@,
            ) {
                Some(body) => args.len() == d.parameters@.len() ==> r == (match body {
                    Ok(res) => invocation_result(res),
                    Err(err) => Err(err),
                }),
                None => true,
            }
        },
    }
}

/// The three shapes a function can take, chosen at construction.
pub enum FnImpl {
    Imported(Imported),
    Defined(FnDef),
    Native(Native),
}

/// A callable: its own declared name (independent of the table key it is
/// stored under) and its implementation.
pub struct Function {
    pub name: Name,
    pub implem: FnImpl,
}

impl Function {
    pub fn new_defined(name: Name, definition: FnDef) -> (r: Function)
        ensures
            r == (Function { name, implem: FnImpl::Defined(definition) }),
    {
        let implem = FnImpl::Defined(definition);
        Self { name, implem }
    }

    pub fn new_imported(name: Name, module: Name) -> (r: Function)
        ensures
            r == (Function {
                name,
                implem: FnImpl::Imported(Imported { path: Path { item: name, module } }),
            }),
    {
        let implem = FnImpl::Imported(Imported { path: Path { item: name.clone(), module } });
        Self { name, implem }
    }

    pub fn new_native(name: Name, arg_count: usize) -> (r: Function)
        ensures
            r == (Function { name, implem: FnImpl::Native(Native { arg_count }) }),
    {
        Self { name, implem: FnImpl::Native(Native { arg_count }) }
    }

    pub fn name(&self) -> (r: &Name)
        ensures
            *r == self.name,
    {
        &self.name
    }

    /// Dispatches one call. A `Defined` function runs its body in a fresh
    /// non-bubbling frame; a `Native` function goes to the host after the
    /// arity check; an `Imported` function is not yet supported.
    pub fn call<H: NativeHost>(
        &self,
        module: &Name,
        args: Vec<Value>,
        context: &mut Context,
        modules: &NameTable<Module>,
        heap: &mut Heap,
        host: &mut H,
        fuel: u64,
    ) -> (r: Result<Value, Error>)
        requires
            old(context).wf(),
            registry_wf(modules),
            old(heap).wf(),
        ensures
            final(context).wf(),
            final(heap).wf(),
            final(context).frames() == old(context).frames(),
            heap_extends(old(heap)@, final(heap)@),
            dispatch_post(*self, args@, old(context).frames(), r),
        decreases fuel, 2int, self.implem,
    {
        match &self.implem {
            FnImpl::Defined(definition) => context.run_fun(
                definition,
                args,
                modules,
                heap,
                host,
                fuel,
            ),
            FnImpl::Native(native) => native.run(module, &self.name, args, host),
            FnImpl::Imported(_imported) => Err(Error::UnsupportedOperation),
        }
    }
}

} // verus!
