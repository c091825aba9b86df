//! What the writer is given: one bridge module with its own content, and the
//! objects declared in it, each with the blocks generated for it.

use vstd::prelude::*;
use crate::syntax::{texts, Ident, Item, ItemMod, ItemModView};

verus! {

/// The blocks generated for one object, for either module.
#[derive(Clone, Debug, PartialEq, Eq)]
pub struct GeneratedRustQObjectBlocks {
    /// Items for the CXX bridge module.
    pub cxx_mod_contents: Vec<Item>,
    /// Items for the implementation module.
    pub cxx_qt_mod_contents: Vec<Item>,
}

/// One object of a bridge.
#[derive(Clone, Debug, PartialEq, Eq)]
pub struct GeneratedRustQObject {
    /// The C++ type that stands for the object.
    pub cpp_struct_ident: Ident,
    /// The type through which the object is reached from another thread.
    pub cxx_qt_thread_ident: Ident,
    /// The namespace that holds the object's constructors.
    pub namespace_internals: String,
    /// The Rust struct that holds the object's state.
    pub rust_struct_ident: Ident,
    pub blocks: GeneratedRustQObjectBlocks,
}

/// What a `GeneratedRustQObject` holds, as plain sequences.
pub struct GeneratedRustQObjectView {
    pub cpp_struct_ident: Seq<char>,
    pub cxx_qt_thread_ident: Seq<char>,
    pub namespace_internals: Seq<char>,
    pub rust_struct_ident: Seq<char>,
    pub cxx_mod_contents: Seq<Seq<char>>,
    pub cxx_qt_mod_contents: Seq<Seq<char>>,
}

impl View for GeneratedRustQObject {
    type V = GeneratedRustQObjectView;

    open spec fn view(&self) -> GeneratedRustQObjectView {
        GeneratedRustQObjectView {
            cpp_struct_ident: self.cpp_struct_ident@,
            cxx_qt_thread_ident: self.cxx_qt_thread_ident@,
            namespace_internals: self.namespace_internals@,
            rust_struct_ident: self.rust_struct_ident@,
            cxx_mod_contents: texts(self.blocks.cxx_mod_contents@),
            cxx_qt_mod_contents: texts(self.blocks.cxx_qt_mod_contents@),
        }
    }
}

/// One bridge: the module it was declared as, the content of its own, and
/// its objects in the order of their declaration.
#[derive(Clone, Debug, PartialEq, Eq)]
pub struct GeneratedRustBlocks {
    /// The module that becomes the CXX bridge.
    pub cxx_mod: ItemMod,
    /// Items of the bridge's own for the CXX bridge module.
    pub cxx_mod_contents: Vec<Item>,
    /// Items of the bridge's own for the implementation module.
    pub cxx_qt_mod_contents: Vec<Item>,
    /// The namespace of the bridge.
    pub namespace: String,
    pub qobjects: Vec<GeneratedRustQObject>,
}

/// What a `GeneratedRustBlocks` holds, as plain sequences.
pub struct GeneratedRustBlocksView {
    pub cxx_mod: ItemModView,
    pub cxx_mod_contents: Seq<Seq<char>>,
    pub cxx_qt_mod_contents: Seq<Seq<char>>,
    pub namespace: Seq<char>,
    pub qobjects: Seq<GeneratedRustQObjectView>,
}

impl View for GeneratedRustBlocks {
    type V = GeneratedRustBlocksView;

    open spec fn view(&self) -> GeneratedRustBlocksView {
        GeneratedRustBlocksView {
            cxx_mod: self.cxx_mod@,
            cxx_mod_contents: texts(self.cxx_mod_contents@),
            cxx_qt_mod_contents: texts(self.cxx_qt_mod_contents@),
            namespace: self.namespace@,
            qobjects: self.qobjects@.map_values(|qobject: GeneratedRustQObject| qobject@),
        }
    }
}

} // verus!
