//! The Rust side of one object as the writer lays it out, for an object that
//! inherits from Qt's item model and overrides two of its methods. The C++
//! object owns the Rust struct; each override is reached from C++ through a
//! wrapper on the Rust struct, which hands the call on to the C++ type.

use vstd::prelude::*;

verus! {

/// A place in an item model: a row and a column.
#[derive(Clone, Copy, Debug, PartialEq, Eq)]
pub struct QModelIndex {
    pub row: i32,
    pub column: i32,
}

/// A value handed to Qt, or none.
#[derive(Clone, Copy, Debug, PartialEq, Eq)]
pub struct QVariant {
    pub value: Option<i32>,
}

impl Default for QVariant {
    /// The variant that holds no value.
    fn default() -> (variant: QVariant)
        ensures
            variant.value is None,
    {
        QVariant { value: None }
    }
}

/// The Rust struct of the object: the state that the model shows.
#[derive(Debug)]
pub struct MyObject {
    data: Vec<i32>,
}

impl View for MyObject {
    type V = Seq<i32>;

    closed spec fn view(&self) -> Seq<i32> {
        self.data@
    }
}

impl Default for MyObject {
    /// The struct with no data.
    fn default() -> (object: MyObject)
        ensures
            object@ == Seq::<i32>::empty(),
    {
        MyObject { data: Vec::new() }
    }
}

/// The C++ type of the object, which owns the Rust struct.
#[derive(Debug)]
pub struct MyObjectQt {
    rust: Box<MyObject>,
}

impl View for MyObjectQt {
    type V = Seq<i32>;

    closed spec fn view(&self) -> Seq<i32> {
        self.rust@
    }
}

impl MyObjectQt {
    /// The C++ object around the Rust struct `rust`.
    pub fn new(rust: Box<MyObject>) -> (cpp: MyObjectQt)
        ensures
            cpp@ == rust@,
    {
        MyObjectQt { rust }
    }

    /// The Rust struct of this object.
    pub fn rust(&self) -> (rust: &MyObject)
        ensures
            rust@ == self@,
    {
        &self.rust
    }

    /// The data of the object.
    pub fn data_ref(&self) -> (data: &Vec<i32>)
        ensures
            data@ == self@,
    {
        &self.rust.data
    }

    /// The data of the object, to be changed in place.
    pub fn data_mut(&mut self) -> (data: &mut Vec<i32>)
        ensures
            data@ == old(self)@,
            final(self)@ == final(data)@,
    {
        &mut self.rust.data
    }

    /// Replaces the data of the object by `value`.
    pub fn set_data(&mut self, value: Vec<i32>)
        ensures
            final(self)@ == value@,
    {
        self.rust.data = value;
    }

    /// The value that the model shows at `_index` in the role `_role`: none
    /// anywhere.
    pub fn data(&self, _index: &QModelIndex, _role: i32) -> (variant: QVariant)
        ensures
            variant.value is None,
    {
        QVariant::default()
    }

    /// Whether the model has anything below `_parent`: it never has.
    pub fn has_children(&self, _parent: &QModelIndex) -> (children: bool)
        ensures
            !children,
    {
        false
    }
}

impl MyObject {
    /// What C++ calls for `data`: the answer of `cpp`.
    pub fn data_wrapper(&self, cpp: &MyObjectQt, _index: &QModelIndex, _role: i32) -> (variant:
        QVariant)
        ensures
            variant.value is None,
    {
        return cpp.data(_index, _role);
    }

    /// What C++ calls for `hasChildren`: the answer of `cpp`.
    pub fn has_children_wrapper(&self, cpp: &MyObjectQt, _parent: &QModelIndex) -> (children: bool)
        ensures
            !children,
    {
        return cpp.has_children(_parent);
    }
}

/// Creates a boxed Rust struct of the object, with no data.
pub fn create_rs_my_object() -> (object: Box<MyObject>)
    ensures
        object@ == Seq::<i32>::empty(),
{
    Box::new(MyObject::default())
}

} // verus!
