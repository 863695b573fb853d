//! Runtime values and the store backing compound values.
//!
//! Scalars are copied on every move. `List` and `Object` values are handles
//! (indices) into a [`Heap`]: a single owning arena, so copying a compound
//! value duplicates only the handle and two copies alias the same backing
//! cell. Cells are never mutated after allocation, and cycles cannot arise
//! as an ownership concern because the arena owns every cell.

use crate::ast::Name;
use crate::table::NameTable;
use vstd::prelude::*;

verus! {

/// The backing store of an `Object` value: a field table keyed by name.
pub struct InnerObj(pub NameTable<Value>);

/// A runtime value. `Float` carries the bit pattern of an IEEE 754
/// single-precision number; the core stores and moves it, nothing more.
#[derive(Debug)]
pub enum Value {
    String(String),
    Integer(i32),
    Float(u32),
    Bool(bool),
    List(usize),
    Object(usize),
    Unit,
}

impl Clone for Value {
    fn clone(&self) -> (r: Value)
        ensures
            r == *self,
    {
        match self {
            Value::String(s) => Value::String(s.clone()),
            Value::Integer(i) => Value::Integer(*i),
            Value::Float(f) => Value::Float(*f),
            Value::Bool(b) => Value::Bool(*b),
            Value::List(h) => Value::List(*h),
            Value::Object(h) => Value::Object(*h),
            Value::Unit => Value::Unit,
        }
    }
}

impl PartialEq for Value {
    fn eq(&self, other: &Value) -> (r: bool) {
        match (self, other) {
            (Value::String(a), Value::String(b)) => *a == *b,
            (Value::Integer(a), Value::Integer(b)) => *a == *b,
            (Value::Float(a), Value::Float(b)) => *a == *b,
            (Value::Bool(a), Value::Bool(b)) => *a == *b,
            (Value::List(a), Value::List(b)) => *a == *b,
            (Value::Object(a), Value::Object(b)) => *a == *b,
            (Value::Unit, Value::Unit) => true,
            _ => false,
        }
    }
}

impl vstd::std_specs::cmp::PartialEqSpecImpl for Value {
    open spec fn obeys_eq_spec() -> bool {
        true
    }

    open spec fn eq_spec(&self, other: &Value) -> bool {
        match (self, other) {
            (Value::String(a), Value::String(b)) => a@ == b@,
            (Value::Integer(a), Value::Integer(b)) => a == b,
            (Value::Float(a), Value::Float(b)) => a == b,
            (Value::Bool(a), Value::Bool(b)) => a == b,
            (Value::List(a), Value::List(b)) => a == b,
            (Value::Object(a), Value::Object(b)) => a == b,
            (Value::Unit, Value::Unit) => true,
            _ => false,
        }
    }
}

impl Value {
    /// Narrows to the `String` variant; any other variant is absent.
    pub fn into_string(self) -> (r: Option<String>)
        ensures
            match self {
                Value::String(s) => r == Some(s),
                _ => r is None,
            },
    {
        match self {
            Self::String(s) => Some(s),
            _ => None,
        }
    }

    /// Narrows to the `Integer` variant; any other variant is absent.
    pub fn into_i32(self) -> (r: Option<i32>)
        ensures
            match self {
                Value::Integer(i) => r == Some(i),
                _ => r is None,
            },
    {
        match self {
            Self::Integer(i) => Some(i),
            _ => None,
        }
    }

    /// Narrows to the `Bool` variant; any other variant is absent.
    pub fn into_bool(self) -> (r: Option<bool>)
        ensures
            match self {
                Value::Bool(b) => r == Some(b),
                _ => r is None,
            },
    {
        match self {
            Self::Bool(b) => Some(b),
            _ => None,
        }
    }
}

impl From<String> for Value {
    fn from(input: String) -> (r: Value)
        ensures
            r == Value::String(input),
    {
        Self::String(input)
    }
}

impl vstd::std_specs::convert::FromSpecImpl<String> for Value {
    open spec fn obeys_from_spec() -> bool {
        true
    }

    open spec fn from_spec(v: String) -> Value {
        Value::String(v)
    }
}

impl From<i32> for Value {
    fn from(input: i32) -> (r: Value)
        ensures
            r == Value::Integer(input),
    {
        Self::Integer(input)
    }
}

impl vstd::std_specs::convert::FromSpecImpl<i32> for Value {
    open spec fn obeys_from_spec() -> bool {
        true
    }

    open spec fn from_spec(v: i32) -> Value {
        Value::Integer(v)
    }
}

impl From<bool> for Value {
    fn from(input: bool) -> (r: Value)
        ensures
            r == Value::Bool(input),
    {
        Self::Bool(input)
    }
}

impl vstd::std_specs::convert::FromSpecImpl<bool> for Value {
    open spec fn obeys_from_spec() -> bool {
        true
    }

    open spec fn from_spec(v: bool) -> Value {
        Value::Bool(v)
    }
}

/// One allocated backing store.
pub enum HeapCell {
    List(Vec<Value>),
    Object(InnerObj),
}

/// The view of a cell: list contents as a sequence, object contents as a
/// map from field characters to values.
pub enum CellV {
    List(Seq<Value>),
    Object(Map<Seq<char>, Value>),
}

impl View for HeapCell {
    type V = CellV;

    open spec fn view(&self) -> CellV {
        match self {
            HeapCell::List(items) => CellV::List(items@),
            HeapCell::Object(obj) => CellV::Object(obj.0@),
        }
    }
}

impl HeapCell {
    pub open spec fn wf(&self) -> bool {
        match self {
            HeapCell::List(_) => true,
            HeapCell::Object(obj) => obj.0.wf(),
        }
    }
}

/// The arena owning every `List` and `Object` backing store. Handles are
/// indices into `cells`; a cell is never changed once allocated.
pub struct Heap {
    pub cells: Vec<HeapCell>,
}

impl View for Heap {
    type V = Seq<CellV>;

    open spec fn view(&self) -> Seq<CellV> {
        self.cells@.map_values(|c: HeapCell| c@)
    }
}

/// Evaluation only ever appends to the heap: old cells keep their contents.
pub open spec fn heap_extends(pre: Seq<CellV>, post: Seq<CellV>) -> bool {
    pre.len() <= post.len() && forall|i: int| 0 <= i < pre.len() ==> post[i] == pre[i]
}

impl Heap {
    pub open spec fn wf(&self) -> bool {
        forall|i: int| 0 <= i < self.cells@.len() ==> (#[trigger] self.cells@[i]).wf()
    }

    pub fn new() -> (r: Heap)
        ensures
            r@ == Seq::<CellV>::empty(),
            r.wf(),
    {
        let r = Heap { cells: Vec::new() };
        proof {
            assert(r@ =~= Seq::<CellV>::empty());
        }
        r
    }

    /// Allocates a list cell and hands back the `List` value aliasing it.
    pub fn alloc_list(&mut self, items: Vec<Value>) -> (r: Value)
        requires
            old(self).wf(),
        ensures
            final(self).wf(),
            final(self)@ =~= old(self)@.push(CellV::List(items@)),
            r == Value::List(old(self)@.len() as usize),
    {
        let handle = self.cells.len();
        self.cells.push(HeapCell::List(items));
        Value::List(handle)
    }

    /// Allocates an object cell and hands back the `Object` value aliasing it.
    pub fn alloc_object(&mut self, obj: InnerObj) -> (r: Value)
        requires
            old(self).wf(),
            obj.0.wf(),
        ensures
            final(self).wf(),
            final(self)@ =~= old(self)@.push(CellV::Object(obj.0@)),
            r == Value::Object(old(self)@.len() as usize),
    {
        let handle = self.cells.len();
        self.cells.push(HeapCell::Object(obj));
        Value::Object(handle)
    }

    /// Reads the list cell a handle points at, if it is one.
    pub fn get_list(&self, handle: usize) -> (r: Option<&Vec<Value>>)
        ensures
            match r {
                Some(items) => handle < self@.len() && self@[handle as int] == CellV::List(
                    items@,
                ),
                None => handle >= self@.len() || !(self@[handle as int] is List),
            },
    {
        if handle < self.cells.len() {
            match &self.cells[handle] {
                HeapCell::List(items) => Some(items),
                HeapCell::Object(_) => None,
            }
        } else {
            None
        }
    }

    /// Reads one field of the object cell a handle points at.
    pub fn get_object_entry(&self, handle: usize, name: &Name) -> (r: Option<&Value>)
        requires
            self.wf(),
        ensures
            match r {
                Some(v) => handle < self@.len() && (self@[handle as int] matches CellV::Object(m)
                    && m.contains_key(name@) && m[name@] == *v),
                None => handle >= self@.len() || !(self@[handle as int] matches CellV::Object(m)
                    && m.contains_key(name@)),
            },
    {
        if handle < self.cells.len() {
            match &self.cells[handle] {
                HeapCell::Object(obj) => obj.0.get(name),
                HeapCell::List(_) => None,
            }
        } else {
            None
        }
    }
}

} // verus!
