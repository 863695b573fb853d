//! The syntax tree the evaluator consumes: identifiers, module-qualified
//! paths, and top-level module items. Expressions live in [`expression`].

pub use expression::{
    Assignment, BExpr, Block, Break, Condition, Expr, FnCall, Invoke, Litteral, Loop, Return,
};
pub mod expression;

use vstd::prelude::*;

verus! {

/// An identifier used for variable, function, and module names.
/// Equality is structural string equality; the view is the character sequence.
#[derive(Debug)]
pub struct Name(pub String);

impl View for Name {
    type V = Seq<char>;

    open spec fn view(&self) -> Seq<char> {
        self.0@
    }
}

impl Clone for Name {
    fn clone(&self) -> (r: Name)
        ensures
            r == *self,
    {
        Name(self.0.clone())
    }
}

impl PartialEq for Name {
    fn eq(&self, other: &Name) -> (r: bool) {
        self.0 == other.0
    }
}

impl vstd::std_specs::cmp::PartialEqSpecImpl for Name {
    open spec fn obeys_eq_spec() -> bool {
        true
    }

    open spec fn eq_spec(&self, other: &Name) -> bool {
        self.0@ == other.0@
    }
}

impl From<String> for Name {
    fn from(input: String) -> (r: Name)
        ensures
            r == Name(input),
    {
        Name(input)
    }
}

impl vstd::std_specs::convert::FromSpecImpl<String> for Name {
    open spec fn obeys_from_spec() -> bool {
        true
    }

    open spec fn from_spec(v: String) -> Name {
        Name(v)
    }
}

impl From<Name> for String {
    fn from(input: Name) -> (r: String)
        ensures
            r == input.0,
    {
        let Name(result) = input;
        result
    }
}

impl vstd::std_specs::convert::FromSpecImpl<Name> for String {
    open spec fn obeys_from_spec() -> bool {
        true
    }

    open spec fn from_spec(v: Name) -> String {
        v.0
    }
}

impl<'s> From<&'s str> for Name {
    fn from(input: &'s str) -> (r: Name)
        ensures
            r@ == input@,
    {
        Name(input.to_owned())
    }
}

impl<'s> vstd::std_specs::convert::FromSpecImpl<&'s str> for Name {
    open spec fn obeys_from_spec() -> bool {
        false
    }

    open spec fn from_spec(v: &'s str) -> Name {
        arbitrary()
    }
}

/// A module-qualified function identifier.
pub struct Path {
    pub module: Name,
    pub item: Name,
}

impl Clone for Path {
    fn clone(&self) -> (r: Path)
        ensures
            r == *self,
    {
        Path { module: self.module.clone(), item: self.item.clone() }
    }
}

/// A request to bring items of another module into scope.
pub struct Import {
    pub module_name: Name,
    pub items: Vec<Name>,
}

/// The list of names a module offers to other modules.
pub struct Export {
    pub items: Vec<Name>,
}

/// A function definition: its declared name, parameter names, and body.
pub struct FnDef {
    pub name: Name,
    pub parameters: Vec<Name>,
    pub expressions: Block,
}

/// One top-level item of a parsed module.
pub enum TopLevel {
    Export(Export),
    FnDef(FnDef),
}

impl TopLevel {
    pub fn as_fndef(&self) -> (r: Option<&FnDef>)
        ensures
            match r {
                Some(f) => *self matches TopLevel::FnDef(g) && *f == g,
                None => !(*self matches TopLevel::FnDef(_)),
            },
    {
        match self {
            Self::FnDef(result) => Some(result),
            _ => None,
        }
    }

    pub fn into_fndef(self) -> (r: Option<FnDef>)
        ensures
            match r {
                Some(f) => self matches TopLevel::FnDef(g) && f == g,
                None => !(self matches TopLevel::FnDef(_)),
            },
    {
        match self {
            Self::FnDef(result) => Some(result),
            _ => None,
        }
    }
}

/// A parsed module: export declarations and function definitions.
pub struct Module {
    pub items: Vec<TopLevel>,
}

} // verus!
