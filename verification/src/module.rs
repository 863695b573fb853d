//! A runtime module: a name, a table of callable functions, and the set of
//! exported names. Export membership is tracked but not enforced on lookup;
//! any function in the table is callable from any path.

use crate::ast::{self, Name, Path, TopLevel};
use crate::error::Error;
use crate::function::{FnImpl, Function};
use crate::table::{names_view, NameSet, NameTable};
use vstd::prelude::*;

verus! {

/// A named table of functions plus the declared exports.
pub struct Module {
    pub name: Name,
    pub functions: NameTable<Function>,
    pub exports: NameSet,
}

/// The function table a parsed module denotes: each definition under its
/// declared name, later definitions winning.
pub open spec fn functions_of_ast(items: Seq<TopLevel>) -> Map<Seq<char>, Function>
    decreases items.len(),
{
    if items.len() == 0 {
        Map::empty()
    } else {
        let m = functions_of_ast(items.drop_last());
        match items.last() {
            TopLevel::FnDef(fndef) => m.insert(
                fndef.name@,
                Function { name: fndef.name, implem: FnImpl::Defined(fndef) },
            ),
            TopLevel::Export(_) => m,
        }
    }
}

/// The export set a parsed module denotes: the union of all export
/// declarations.
pub open spec fn exports_of_ast(items: Seq<TopLevel>) -> Set<Seq<char>>
    decreases items.len(),
{
    if items.len() == 0 {
        Set::empty()
    } else {
        let s = exports_of_ast(items.drop_last());
        match items.last() {
            TopLevel::Export(export) => s.union(names_view(export.items@)),
            TopLevel::FnDef(_) => s,
        }
    }
}

/// How a call path resolves in a registry: a missing module and a missing
/// function are distinguished errors.
pub open spec fn find_function_spec(mods: Map<Seq<char>, Module>, path: Path) -> Result<
    Function,
    Error,
> {
    if !mods.contains_key(path.module@) {
        Err(Error::UnknownModule)
    } else if !mods[path.module@].functions@.contains_key(path.item@) {
        Err(Error::UnboundFunction)
    } else {
        Ok(mods[path.module@].functions@[path.item@])
    }
}

/// A well-formed registry: the module table and every module in it are
/// well formed.
pub open spec fn registry_wf(modules: &NameTable<Module>) -> bool {
    &&& modules.wf()
    &&& forall|k: Seq<char>|
        modules@.contains_key(k) ==> (#[trigger] modules@[k]).wf()
}

impl Module {
    pub open spec fn wf(&self) -> bool {
        self.functions.wf()
    }

    pub fn new_empty(name: Name) -> (r: Module)
        ensures
            r.wf(),
            r.name == name,
            r.functions@ == Map::<Seq<char>, Function>::empty(),
            r.exports@ == Set::<Seq<char>>::empty(),
    {
        Self { name, functions: NameTable::new(), exports: NameSet::new() }
    }

    /// Converts a parsed module: collects the exports and turns each
    /// function definition into a `Defined` function, in order.
    pub fn from_ast(name: Name, content: ast::Module) -> (r: Module)
        ensures
            r.wf(),
            r.name == name,
            r.functions@ == functions_of_ast(content.items@),
            r.exports@ == exports_of_ast(content.items@),
    {
        let ghost all_items = content.items@;
        let mut items = content.items;
        let mut functions: NameTable<Function> = NameTable::new();
        let mut exports: NameSet = NameSet::new();
        let ghost mut seen: Seq<TopLevel> = Seq::empty();

        proof {
            assert(seen =~= all_items.subrange(0, 0));
        }
        while items.len() > 0
            invariant
                functions.wf(),
                seen + items@ =~= all_items,
                functions@ == functions_of_ast(seen),
                exports@ == exports_of_ast(seen),
            decreases items@.len(),
        {
            let ghost pre_items = items@;
            let item = items.remove(0);
            proof {
                let pre_seen = seen;
                seen = seen.push(item);
                assert(seen.drop_last() =~= pre_seen);
                assert(seen + items@ =~= all_items);
            }
            match item {
                TopLevel::Export(export) => {
                    let mut names = export.items;
                    let ghost all_names = names@;
                    let ghost mut seen_names: Seq<Name> = Seq::empty();
                    while names.len() > 0
                        invariant
                            seen_names + names@ =~= all_names,
                            exports@ == exports_of_ast(seen.drop_last()).union(
                                names_view(seen_names),
                            ),
                        decreases names@.len(),
                    {
                        let ghost pre_names = names@;
                        let n = names.remove(0);
                        proof {
                            let pre_seen_names = seen_names;
                            seen_names = seen_names.push(n);
                            assert(seen_names.drop_last() =~= pre_seen_names);
                            assert(seen_names + names@ =~= all_names);
                            assert(exports_of_ast(seen.drop_last()).union(
                                names_view(pre_seen_names),
                            ).insert(n@) =~= exports_of_ast(seen.drop_last()).union(
                                names_view(seen_names),
                            ));
                        }
                        exports.insert(n);
                    }
                    proof {
                        assert(seen_names =~= all_names);
                    }
                }
                TopLevel::FnDef(fndef) => {
                    let fn_name = fndef.name.clone();
                    let fun = Function::new_defined(fn_name.clone(), fndef);
                    functions.insert(fn_name, fun);
                }
            }
        }
        proof {
            assert(seen =~= all_items);
        }
        Self { name, functions, exports }
    }

    /// Registers a host-implemented function of the given arity under its
    /// name.
    pub fn push_native(&mut self, name: Name, arg_count: usize)
        requires
            old(self).wf(),
        ensures
            final(self).wf(),
            final(self).name == old(self).name,
            final(self).exports == old(self).exports,
            final(self).functions@ == old(self).functions@.insert(
                name@,
                Function { name, implem: FnImpl::Native(crate::function::Native { arg_count }) },
            ),
    {
        let native_fn = Function::new_native(name.clone(), arg_count);
        self.functions.insert(name, native_fn);
    }

    pub fn name(&self) -> (r: &Name)
        ensures
            *r == self.name,
    {
        &self.name
    }

    pub fn get_function(&self, name: &Name) -> (r: Option<&Function>)
        requires
            self.wf(),
        ensures
            match r {
                Some(f) => self.functions@.contains_key(name@) && *f == self.functions@[name@],
                None => !self.functions@.contains_key(name@),
            },
    {
        self.functions.get(name)
    }
}

} // verus!
