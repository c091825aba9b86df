//! The writer for Rust: merges the blocks of a bridge and of its objects
//! into the bridge module and the implementation module.

use vstd::prelude::*;
use vstd::string::*;
use crate::generator::{
    GeneratedRustBlocks, GeneratedRustBlocksView, GeneratedRustQObject, GeneratedRustQObjectView,
};
use crate::naming::mangle;
use crate::syntax::{all_parse, extend_items, items_parse, texts, Ident, Item};
use crate::writer::common::{
    create_rs_name, cxx_bridge_blocks, cxx_qt_blocks, new_cpp_object_name,
    write_cxx_bridge_blocks, write_cxx_qt_blocks,
};
use crate::writer::module::{
    ImplementationModule, ImplementationModuleView, InterfaceModule, InterfaceModuleView,
    WrittenRust, WrittenRustView,
};

verus! {

/// Where among the blocks of an object a fragment stands.
#[derive(Clone, Copy, Debug, PartialEq, Eq)]
pub enum FragmentKind {
    /// A block generated for the object, for the bridge module.
    Interface,
    /// A common block of the object, for the bridge module.
    CommonInterface,
    /// A block generated for the object, for the implementation module.
    Implementation,
    /// A common block of the object, for the implementation module.
    CommonImplementation,
}

/// Why nothing was written for a bridge.
#[derive(Clone, Debug, PartialEq, Eq)]
pub enum WriteError {
    /// A fragment of `object` does not read as one item.
    MalformedFragment { object: Ident, kind: FragmentKind },
    /// A constructor of `object` would get the name `identifier`, which an
    /// earlier object of the bridge already has for the same constructor.
    DuplicateIdentifier { object: Ident, identifier: Ident },
}

/// What a `WriteError` holds, as plain sequences.
pub enum WriteErrorView {
    MalformedFragment { object: Seq<char>, kind: FragmentKind },
    DuplicateIdentifier { object: Seq<char>, identifier: Seq<char> },
}

impl View for WriteError {
    type V = WriteErrorView;

    open spec fn view(&self) -> WriteErrorView {
        match self {
            WriteError::MalformedFragment { object, kind } => WriteErrorView::MalformedFragment {
                object: object@,
                kind: *kind,
            },
            WriteError::DuplicateIdentifier {
                object,
                identifier,
            } => WriteErrorView::DuplicateIdentifier { object: object@, identifier: identifier@ },
        }
    }
}

/// The words that a list of identifiers is written with, in order.
pub open spec fn words(idents: Seq<Ident>) -> Seq<Seq<char>> {
    idents.map_values(|ident: Ident| ident@)
}

/// The includes that every bridge needs, whatever its objects.
pub open spec fn common_includes_text() -> Seq<char> {
    "unsafe extern \"C++\" {\n    include!(<QtCore/QObject>);\n    include!(\"cxx-qt-lib/include/convert.h\");\n    include!(\"cxx-qt-lib/include/cxxqt_thread.h\");\n}"@
}

/// Writes the includes that every bridge needs.
pub fn common_includes() -> (item: Item)
    ensures
        item@ == common_includes_text(),
{
    Item::new(
        "unsafe extern \"C++\" {\n    include!(<QtCore/QObject>);\n    include!(\"cxx-qt-lib/include/convert.h\");\n    include!(\"cxx-qt-lib/include/cxxqt_thread.h\");\n}",
    )
}

/// Puts `fragments` at the end of `list` if they parse, and reports them as
/// malformed if they do not. `parse` says whether they do.
pub fn insert_fragments(
    list: &mut Vec<Item>,
    fragments: &Vec<Item>,
    parse: bool,
    object: &Ident,
    kind: FragmentKind,
) -> (result: Result<(), WriteError>)
    ensures
        match result {
            Ok(_) => parse && texts(final(list)@) == texts(old(list)@) + texts(fragments@),
            Err(error) => !parse && final(list)@ == old(list)@ && error@ == (
            WriteErrorView::MalformedFragment { object: object@, kind }),
        },
{
    if parse {
        extend_items(list, fragments);
        Ok(())
    } else {
        Err(WriteError::MalformedFragment { object: object.clone(), kind })
    }
}

/// Whether one of `names` is written as `name` is.
pub fn is_taken(names: &Vec<Ident>, name: &Ident) -> (taken: bool)
    ensures
        taken == words(names@).contains(name@),
{
    let mut i: usize = 0;
    while i < names.len()
        invariant
            i <= names.len(),
            forall|k: int| 0 <= k < i ==> words(names@)[k] != name@,
        decreases names.len() - i,
    {
        if names[i].name == name.name {
            assert(words(names@)[i as int] == name@);
            return true;
        }
        i += 1;
    }
    false
}

/// Takes `name` for a constructor of `object`: puts it at the end of `names`,
/// unless one of `names` is written the same, which is reported.
pub fn claim_name(names: &mut Vec<Ident>, name: &Ident, object: &Ident) -> (result: Result<
    (),
    WriteError,
>)
    ensures
        match result {
            Ok(_) => !words(old(names)@).contains(name@) && words(final(names)@) == words(
                old(names)@,
            ).push(name@),
            Err(error) => words(old(names)@).contains(name@) && final(names)@ == old(names)@
                && error@ == (WriteErrorView::DuplicateIdentifier {
                object: object@,
                identifier: name@,
            }),
        },
{
    if is_taken(names, name) {
        Err(
            WriteError::DuplicateIdentifier {
                object: object.clone(),
                identifier: name.clone(),
            },
        )
    } else {
        let ghost before = names@;
        names.push(name.clone());
        assert(words(names@) =~= words(before).push(name@));
        Ok(())
    }
}

/// What stops the writer at `qobject`, if anything does, where the earlier
/// objects of the bridge have taken the names `new_cpp_object_names` and
/// `create_rs_names` for their constructors. The fragments are looked at in
/// the order in which they are written, and the names are taken between the
/// object's own blocks for the bridge and its common ones.
pub open spec fn qobject_failure(
    qobject: GeneratedRustQObjectView,
    new_cpp_object_names: Seq<Seq<char>>,
    create_rs_names: Seq<Seq<char>>,
) -> Option<WriteErrorView> {
    let object = qobject.cpp_struct_ident;
    if !all_parse(qobject.cxx_mod_contents) {
        Some(WriteErrorView::MalformedFragment { object, kind: FragmentKind::Interface })
    } else if new_cpp_object_names.contains(new_cpp_object_name(qobject.cpp_struct_ident)) {
        Some(
            WriteErrorView::DuplicateIdentifier {
                object,
                identifier: new_cpp_object_name(qobject.cpp_struct_ident),
            },
        )
    } else if create_rs_names.contains(create_rs_name(qobject.rust_struct_ident)) {
        Some(
            WriteErrorView::DuplicateIdentifier {
                object,
                identifier: create_rs_name(qobject.rust_struct_ident),
            },
        )
    } else if !all_parse(cxx_bridge_blocks(qobject)) {
        Some(WriteErrorView::MalformedFragment { object, kind: FragmentKind::CommonInterface })
    } else if !all_parse(qobject.cxx_qt_mod_contents) {
        Some(WriteErrorView::MalformedFragment { object, kind: FragmentKind::Implementation })
    } else if !all_parse(cxx_qt_blocks(qobject)) {
        Some(
            WriteErrorView::MalformedFragment { object, kind: FragmentKind::CommonImplementation },
        )
    } else {
        None
    }
}

/// The names that the first `count` objects of `generated` take for the
/// constructor of their C++ object.
pub open spec fn new_cpp_object_names(generated: GeneratedRustBlocksView, count: nat) -> Seq<
    Seq<char>,
> {
    Seq::new(count, |i: int| new_cpp_object_name(generated.qobjects[i].cpp_struct_ident))
}

/// The names that the first `count` objects of `generated` take for the
/// constructor of their Rust struct.
pub open spec fn create_rs_names(generated: GeneratedRustBlocksView, count: nat) -> Seq<
    Seq<char>,
> {
    Seq::new(count, |i: int| create_rs_name(generated.qobjects[i].rust_struct_ident))
}

/// What stops the writer within the first `count` objects of `generated`, if
/// anything does: the failure of the first object that has one.
pub open spec fn first_failure(generated: GeneratedRustBlocksView, count: nat) -> Option<
    WriteErrorView,
>
    decreases count,
{
    if count == 0 {
        None
    } else {
        match first_failure(generated, (count - 1) as nat) {
            Some(error) => Some(error),
            None => qobject_failure(
                generated.qobjects[count - 1],
                new_cpp_object_names(generated, (count - 1) as nat),
                create_rs_names(generated, (count - 1) as nat),
            ),
        }
    }
}

/// The items of the bridge module once the first `count` objects of
/// `generated` are written: what the module's body held, the includes, the
/// bridge's own items, and then for each object its own blocks followed by
/// its common ones.
pub open spec fn bridge_items(generated: GeneratedRustBlocksView, count: nat) -> Seq<Seq<char>>
    decreases count,
{
    if count == 0 {
        generated.cxx_mod.items() + seq![common_includes_text()] + generated.cxx_mod_contents
    } else {
        bridge_items(generated, (count - 1) as nat) + generated.qobjects[count
            - 1].cxx_mod_contents + cxx_bridge_blocks(generated.qobjects[count - 1])
    }
}

/// The items of the implementation module once the first `count` objects of
/// `generated` are written: the bridge's own items, and then for each object
/// its own blocks followed by its common ones.
pub open spec fn implementation_items(generated: GeneratedRustBlocksView, count: nat) -> Seq<
    Seq<char>,
>
    decreases count,
{
    if count == 0 {
        generated.cxx_qt_mod_contents
    } else {
        implementation_items(generated, (count - 1) as nat) + generated.qobjects[count
            - 1].cxx_qt_mod_contents + cxx_qt_blocks(generated.qobjects[count - 1])
    }
}

/// The name of the implementation module that goes with the bridge module
/// `cxx_mod_ident`.
pub open spec fn cxx_qt_mod_name(cxx_mod_ident: Seq<char>) -> Seq<char> {
    "cxx_qt_"@ + cxx_mod_ident
}

/// The two modules written for `generated`, where nothing stops the writer.
pub open spec fn written(generated: GeneratedRustBlocksView) -> WrittenRustView {
    WrittenRustView {
        bridge: InterfaceModuleView {
            namespace: generated.namespace,
            attrs: generated.cxx_mod.attrs,
            vis: generated.cxx_mod.vis,
            ident: generated.cxx_mod.ident,
            items: bridge_items(generated, generated.qobjects.len()),
        },
        implementation: ImplementationModuleView {
            ident: cxx_qt_mod_name(generated.cxx_mod.ident),
            bridge: generated.cxx_mod.ident,
            items: implementation_items(generated, generated.qobjects.len()),
        },
    }
}

/// What `write_rust` returns for `generated`: the failure of the first
/// object that has one, and both modules where no object has one.
pub open spec fn write_rust_result(generated: GeneratedRustBlocksView) -> Result<
    WrittenRustView,
    WriteErrorView,
> {
    match first_failure(generated, generated.qobjects.len()) {
        Some(error) => Err(error),
        None => Ok(written(generated)),
    }
}

/// What a result of the writer holds, as plain sequences.
pub open spec fn result_view(result: Result<WrittenRust, WriteError>) -> Result<
    WrittenRustView,
    WriteErrorView,
> {
    match result {
        Ok(rust) => Ok(rust@),
        Err(error) => Err(error@),
    }
}

/// Writes one object: its blocks and its common blocks go to the end of the
/// two lists of items, and the names of its constructors to the end of the
/// two lists of names.
fn write_qobject(
    qobject: &GeneratedRustQObject,
    cxx_mod_contents: &mut Vec<Item>,
    cxx_qt_mod_contents: &mut Vec<Item>,
    new_cpp_object_names: &mut Vec<Ident>,
    create_rs_names: &mut Vec<Ident>,
) -> (result: Result<(), WriteError>)
    ensures
        match qobject_failure(
            qobject@,
            words(old(new_cpp_object_names)@),
            words(old(create_rs_names)@),
        ) {
            Some(failure) => result matches Err(error) && error@ == failure,
            None => {
                &&& result is Ok
                &&& texts(final(cxx_mod_contents)@) == texts(old(cxx_mod_contents)@)
                    + qobject@.cxx_mod_contents + cxx_bridge_blocks(qobject@)
                &&& texts(final(cxx_qt_mod_contents)@) == texts(old(cxx_qt_mod_contents)@)
                    + qobject@.cxx_qt_mod_contents + cxx_qt_blocks(qobject@)
                &&& words(final(new_cpp_object_names)@) == words(old(new_cpp_object_names)@).push(
                    new_cpp_object_name(qobject@.cpp_struct_ident),
                )
                &&& words(final(create_rs_names)@) == words(old(create_rs_names)@).push(
                    create_rs_name(qobject@.rust_struct_ident),
                )
            },
        },
{
    let object = &qobject.cpp_struct_ident;
    let own = &qobject.blocks.cxx_mod_contents;
    match insert_fragments(
        cxx_mod_contents,
        own,
        items_parse(own),
        object,
        FragmentKind::Interface,
    ) {
        Err(error) => { return Err(error); },
        Ok(_) => {},
    }
    let new_cpp_object = mangle("new_cpp_object", &qobject.cpp_struct_ident);
    match claim_name(new_cpp_object_names, &new_cpp_object, object) {
        Err(error) => { return Err(error); },
        Ok(_) => {},
    }
    let create_rs = mangle("create_rs", &qobject.rust_struct_ident);
    match claim_name(create_rs_names, &create_rs, object) {
        Err(error) => { return Err(error); },
        Ok(_) => {},
    }
    let common = write_cxx_bridge_blocks(qobject, &new_cpp_object, &create_rs);
    match insert_fragments(
        cxx_mod_contents,
        &common,
        items_parse(&common),
        object,
        FragmentKind::CommonInterface,
    ) {
        Err(error) => { return Err(error); },
        Ok(_) => {},
    }
    let own = &qobject.blocks.cxx_qt_mod_contents;
    match insert_fragments(
        cxx_qt_mod_contents,
        own,
        items_parse(own),
        object,
        FragmentKind::Implementation,
    ) {
        Err(error) => { return Err(error); },
        Ok(_) => {},
    }
    let common = write_cxx_qt_blocks(qobject, &create_rs);
    match insert_fragments(
        cxx_qt_mod_contents,
        &common,
        items_parse(&common),
        object,
        FragmentKind::CommonImplementation,
    ) {
        Err(error) => { return Err(error); },
        Ok(_) => {},
    }
    Ok(())
}

/// For a given GeneratedRustBlocks write this into the bridge module and the
/// implementation module. The objects are written in the order in which they
/// were declared, all of one before any of the next; the first object with a
/// malformed fragment or a name that is taken stops the writer, and nothing is
/// written then.
///
/// The fragments are read and the literals written with `proc_macro2`
/// switched to its own implementation; inside a procedural macro, call this
/// from one thread at a time.
pub fn write_rust(generated: &GeneratedRustBlocks) -> (result: Result<WrittenRust, WriteError>)
    ensures
        result_view(result) == write_rust_result(generated@),
{
    // Add common includes for all objects
    let mut cxx_mod_contents: Vec<Item> = Vec::new();
    match &generated.cxx_mod.content {
        Some(items) => { extend_items(&mut cxx_mod_contents, items); },
        None => {},
    }
    cxx_mod_contents.push(common_includes());
    extend_items(&mut cxx_mod_contents, &generated.cxx_mod_contents);
    let mut cxx_qt_mod_contents: Vec<Item> = Vec::new();
    extend_items(&mut cxx_qt_mod_contents, &generated.cxx_qt_mod_contents);
    assert(texts(cxx_mod_contents@) =~= bridge_items(generated@, 0));
    assert(texts(cxx_qt_mod_contents@) =~= implementation_items(generated@, 0));

    let mut new_names: Vec<Ident> = Vec::new();
    let mut create_names: Vec<Ident> = Vec::new();
    assert(words(new_names@) =~= new_cpp_object_names(generated@, 0));
    assert(words(create_names@) =~= create_rs_names(generated@, 0));
    let mut i: usize = 0;
    while i < generated.qobjects.len()
        invariant
            i <= generated.qobjects.len(),
            first_failure(generated@, i as nat) is None,
            texts(cxx_mod_contents@) == bridge_items(generated@, i as nat),
            texts(cxx_qt_mod_contents@) == implementation_items(generated@, i as nat),
            words(new_names@) == new_cpp_object_names(generated@, i as nat),
            words(create_names@) == create_rs_names(generated@, i as nat),
        decreases generated.qobjects.len() - i,
    {
        let qobject = &generated.qobjects[i];
        assert(generated@.qobjects[i as int] == qobject@);
        match write_qobject(
            qobject,
            &mut cxx_mod_contents,
            &mut cxx_qt_mod_contents,
            &mut new_names,
            &mut create_names,
        ) {
            Err(error) => {
                proof {
                    lemma_failure_stays(generated@, (i + 1) as nat, generated@.qobjects.len());
                }
                return Err(error);
            },
            Ok(_) => {},
        }
        proof {
            assert(words(new_names@) =~= new_cpp_object_names(generated@, (i + 1) as nat));
            assert(words(create_names@) =~= create_rs_names(generated@, (i + 1) as nat));
        }
        i += 1;
    }

    // Build the module idents
    let mut cxx_qt_mod_ident = String::from_str("cxx_qt_");
    cxx_qt_mod_ident.append(generated.cxx_mod.ident.as_str());
    Ok(
        WrittenRust {
            bridge: InterfaceModule {
                namespace: generated.namespace.clone(),
                attrs: generated.cxx_mod.attrs.clone(),
                vis: generated.cxx_mod.vis.clone(),
                ident: generated.cxx_mod.ident.clone(),
                items: cxx_mod_contents,
            },
            implementation: ImplementationModule {
                ident: Ident { name: cxx_qt_mod_ident },
                bridge: generated.cxx_mod.ident.clone(),
                items: cxx_qt_mod_contents,
            },
        },
    )
}

/// A failure within the first `count` objects is the failure within any
/// longer run of them.
pub proof fn lemma_failure_stays(generated: GeneratedRustBlocksView, count: nat, longer: nat)
    requires
        count <= longer,
        first_failure(generated, count) is Some,
    ensures
        first_failure(generated, longer) == first_failure(generated, count),
    decreases longer,
{
    if count < longer {
        lemma_failure_stays(generated, count, (longer - 1) as nat);
    }
}

} // verus!
