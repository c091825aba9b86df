//! What holds of everything the writer for Rust produces.

use vstd::prelude::*;
use crate::generator::{GeneratedRustBlocks, GeneratedRustBlocksView, GeneratedRustQObjectView};
use crate::syntax::{all_parse, parses_as_item};
use crate::writer::common::{
    create_rs_name, cxx_bridge_blocks, cxx_qt_blocks, new_cpp_object_name,
};
use crate::writer::module::{reexport_text, ImplementationModuleView, WrittenRust};
use crate::writer::rust::{
    bridge_items, common_includes_text, create_rs_names, cxx_qt_mod_name, first_failure, implementation_items,
    new_cpp_object_names, result_view, write_rust_result, written, WriteError,
    WriteErrorView,
};

verus! {

/// Writing one bridge twice gives the same modules both times, or the same
/// failure both times.
pub proof fn lemma_write_rust_deterministic(
    generated: GeneratedRustBlocks,
    first: Result<WrittenRust, WriteError>,
    second: Result<WrittenRust, WriteError>,
)
    requires
        result_view(first) == write_rust_result(generated@),
        result_view(second) == write_rust_result(generated@),
    ensures
        result_view(first) == result_view(second),
        first matches Ok(rust) ==> second is Ok && rust@.text() == second->Ok_0@.text(),
{
}

/// The bridge items that are written for one object: its own blocks, then
/// its common ones.
pub open spec fn qobject_bridge_items(qobject: GeneratedRustQObjectView) -> Seq<Seq<char>> {
    qobject.cxx_mod_contents + cxx_bridge_blocks(qobject)
}

/// The implementation items that are written for one object: its own
/// blocks, then its common ones.
pub open spec fn qobject_implementation_items(qobject: GeneratedRustQObjectView) -> Seq<
    Seq<char>,
> {
    qobject.cxx_qt_mod_contents + cxx_qt_blocks(qobject)
}

/// The bridge items of the first `count` objects open those of any longer
/// run of objects, and the items of the object that follows them come next.
pub proof fn lemma_bridge_items_grow(generated: GeneratedRustBlocksView, count: nat, longer: nat)
    requires
        count <= longer,
    ensures
        bridge_items(generated, count).len() <= bridge_items(generated, longer).len(),
        bridge_items(generated, longer).subrange(0, bridge_items(generated, count).len() as int)
            == bridge_items(generated, count),
        count < longer ==> bridge_items(generated, (count + 1) as nat) == bridge_items(
            generated,
            count,
        ) + qobject_bridge_items(generated.qobjects[count as int]),
    decreases longer,
{
    if count < longer {
        lemma_bridge_items_grow(generated, count, (longer - 1) as nat);
        assert(bridge_items(generated, longer).subrange(
            0,
            bridge_items(generated, count).len() as int,
        ) =~= bridge_items(generated, count));
        assert(bridge_items(generated, (count + 1) as nat) =~= bridge_items(generated, count)
            + qobject_bridge_items(generated.qobjects[count as int]));
    } else {
        assert(bridge_items(generated, longer).subrange(
            0,
            bridge_items(generated, count).len() as int,
        ) =~= bridge_items(generated, count));
    }
}

/// The implementation items of the first `count` objects open those of any
/// longer run of objects, and the items of the object that follows them come
/// next.
pub proof fn lemma_implementation_items_grow(
    generated: GeneratedRustBlocksView,
    count: nat,
    longer: nat,
)
    requires
        count <= longer,
    ensures
        implementation_items(generated, count).len() <= implementation_items(
            generated,
            longer,
        ).len(),
        implementation_items(generated, longer).subrange(
            0,
            implementation_items(generated, count).len() as int,
        ) == implementation_items(generated, count),
        count < longer ==> implementation_items(generated, (count + 1) as nat)
            == implementation_items(generated, count) + qobject_implementation_items(
            generated.qobjects[count as int],
        ),
    decreases longer,
{
    if count < longer {
        lemma_implementation_items_grow(generated, count, (longer - 1) as nat);
        assert(implementation_items(generated, longer).subrange(
            0,
            implementation_items(generated, count).len() as int,
        ) =~= implementation_items(generated, count));
        assert(implementation_items(generated, (count + 1) as nat) =~= implementation_items(
            generated,
            count,
        ) + qobject_implementation_items(generated.qobjects[count as int]));
    } else {
        assert(implementation_items(generated, longer).subrange(
            0,
            implementation_items(generated, count).len() as int,
        ) =~= implementation_items(generated, count));
    }
}

/// Objects are written in the order of their declaration, all of one before
/// any of the next: in the bridge module, the item `i` of the object `a`
/// stands where the items of the objects before `a` end, `i` places on, and
/// that is before every item of a later object `b`.
pub proof fn lemma_bridge_in_declaration_order(
    generated: GeneratedRustBlocksView,
    a: nat,
    b: nat,
    i: int,
    j: int,
)
    requires
        a < b < generated.qobjects.len(),
        0 <= i < qobject_bridge_items(generated.qobjects[a as int]).len(),
        0 <= j < qobject_bridge_items(generated.qobjects[b as int]).len(),
    ensures
        ({
            let items = written(generated).bridge.items;
            let at_a = bridge_items(generated, a).len() + i;
            let at_b = bridge_items(generated, b).len() + j;
            &&& at_a < at_b < items.len()
            &&& items[at_a] == qobject_bridge_items(generated.qobjects[a as int])[i]
            &&& items[at_b] == qobject_bridge_items(generated.qobjects[b as int])[j]
        }),
{
    let count = generated.qobjects.len();
    let items = bridge_items(generated, count);
    lemma_bridge_items_grow(generated, a, (a + 1) as nat);
    lemma_bridge_items_grow(generated, (a + 1) as nat, b);
    lemma_bridge_items_grow(generated, b, (b + 1) as nat);
    lemma_bridge_items_grow(generated, (a + 1) as nat, count);
    lemma_bridge_items_grow(generated, (b + 1) as nat, count);
    let upto_a = bridge_items(generated, (a + 1) as nat);
    let upto_b = bridge_items(generated, (b + 1) as nat);
    let at_a = bridge_items(generated, a).len() + i;
    let at_b = bridge_items(generated, b).len() + j;
    assert(items.subrange(0, upto_a.len() as int)[at_a] == items[at_a]);
    assert(items.subrange(0, upto_b.len() as int)[at_b] == items[at_b]);
}

/// Objects are written in the order of their declaration, all of one before
/// any of the next: in the implementation module, the item `i` of the object
/// `a` stands where the items of the objects before `a` end, `i` places on,
/// and that is before every item of a later object `b`.
pub proof fn lemma_implementation_in_declaration_order(
    generated: GeneratedRustBlocksView,
    a: nat,
    b: nat,
    i: int,
    j: int,
)
    requires
        a < b < generated.qobjects.len(),
        0 <= i < qobject_implementation_items(generated.qobjects[a as int]).len(),
        0 <= j < qobject_implementation_items(generated.qobjects[b as int]).len(),
    ensures
        ({
            let items = written(generated).implementation.items;
            let at_a = implementation_items(generated, a).len() + i;
            let at_b = implementation_items(generated, b).len() + j;
            &&& at_a < at_b < items.len()
            &&& items[at_a] == qobject_implementation_items(generated.qobjects[a as int])[i]
            &&& items[at_b] == qobject_implementation_items(generated.qobjects[b as int])[j]
        }),
{
    let count = generated.qobjects.len();
    let items = implementation_items(generated, count);
    lemma_implementation_items_grow(generated, a, (a + 1) as nat);
    lemma_implementation_items_grow(generated, (a + 1) as nat, b);
    lemma_implementation_items_grow(generated, b, (b + 1) as nat);
    lemma_implementation_items_grow(generated, (a + 1) as nat, count);
    lemma_implementation_items_grow(generated, (b + 1) as nat, count);
    let upto_a = implementation_items(generated, (a + 1) as nat);
    let upto_b = implementation_items(generated, (b + 1) as nat);
    let at_a = implementation_items(generated, a).len() + i;
    let at_b = implementation_items(generated, b).len() + j;
    assert(items.subrange(0, upto_a.len() as int)[at_a] == items[at_a]);
    assert(items.subrange(0, upto_b.len() as int)[at_b] == items[at_b]);
}

/// A bridge without objects is written as the includes and its own content:
/// the bridge module holds what its body held, the includes and the bridge's
/// own items, and the implementation module holds the bridge's own items and
/// nothing else.
pub proof fn lemma_no_objects(generated: GeneratedRustBlocksView)
    requires
        generated.qobjects.len() == 0,
    ensures
        write_rust_result(generated) == Ok::<_, WriteErrorView>(written(generated)),
        written(generated).bridge.items == generated.cxx_mod.items() + seq![common_includes_text()]
            + generated.cxx_mod_contents,
        written(generated).implementation.items == generated.cxx_qt_mod_contents,
{
}

/// How many of `items` are written as `text` is.
pub open spec fn occurrences(items: Seq<Seq<char>>, text: Seq<char>) -> nat
    decreases items.len(),
{
    if items.len() == 0 {
        0
    } else {
        occurrences(items.drop_last(), text) + if items.last() == text {
            1nat
        } else {
            0nat
        }
    }
}

/// Whether none of `items` is written as `text` is.
pub open spec fn absent(items: Seq<Seq<char>>, text: Seq<char>) -> bool {
    forall|i: int| 0 <= i < items.len() ==> #[trigger] items[i] != text
}

/// What is absent from a list occurs in it no times.
pub proof fn lemma_absent_occurs_never(items: Seq<Seq<char>>, text: Seq<char>)
    requires
        absent(items, text),
    ensures
        occurrences(items, text) == 0,
    decreases items.len(),
{
    if items.len() > 0 {
        assert(items.last() == items[items.len() - 1]);
        assert forall|i: int| 0 <= i < items.drop_last().len() implies #[trigger] items.drop_last()[i]
            != text by {
            assert(items.drop_last()[i] == items[i]);
        }
        lemma_absent_occurs_never(items.drop_last(), text);
    }
}

/// The occurrences in two lists joined are those in the first and those in
/// the second.
pub proof fn lemma_occurrences_add(first: Seq<Seq<char>>, second: Seq<Seq<char>>, text: Seq<char>)
    ensures
        occurrences(first + second, text) == occurrences(first, text) + occurrences(second, text),
    decreases second.len(),
{
    if second.len() == 0 {
        assert(first + second =~= first);
    } else {
        assert((first + second).drop_last() =~= first + second.drop_last());
        assert((first + second).last() == second.last());
        lemma_occurrences_add(first, second.drop_last(), text);
    }
}

/// No common block of an object is written as the includes are.
pub proof fn lemma_common_blocks_are_not_includes(qobject: GeneratedRustQObjectView)
    ensures
        absent(cxx_bridge_blocks(qobject), common_includes_text()),
{
    reveal_strlit(
        "unsafe extern \"C++\" {\n    include!(<QtCore/QObject>);\n    include!(\"cxx-qt-lib/include/convert.h\");\n    include!(\"cxx-qt-lib/include/cxxqt_thread.h\");\n}",
    );
    reveal_strlit("unsafe extern \"C++\" {\n    type ");
    reveal_strlit(
        "extern \"C++\" {\n    #[cxx_name = \"unsafeRustMut\"]\n    unsafe fn rust_mut(self: Pin<&mut ",
    );
    reveal_strlit("extern \"Rust\" {\n    #[cxx_name = \"createRs\"]\n    #[namespace = ");
    let blocks = cxx_bridge_blocks(qobject);
    assert(common_includes_text()[26] == 'i');
    assert(common_includes_text()[0] == 'u');
    assert(blocks[0][26] == 't');
    assert(blocks[1][0] == 'e');
    assert(blocks[2][0] == 'e');
}

/// The includes stand in the bridge module once, however many objects the
/// bridge has, where nothing that the writer was given is itself written as
/// the includes are.
pub proof fn lemma_includes_once(generated: GeneratedRustBlocksView, count: nat)
    requires
        count <= generated.qobjects.len(),
        absent(generated.cxx_mod.items(), common_includes_text()),
        absent(generated.cxx_mod_contents, common_includes_text()),
        forall|k: int|
            0 <= k < generated.qobjects.len() ==> absent(
                (#[trigger] generated.qobjects[k]).cxx_mod_contents,
                common_includes_text(),
            ),
    ensures
        occurrences(bridge_items(generated, count), common_includes_text()) == 1,
    decreases count,
{
    if count == 0 {
        let head = generated.cxx_mod.items() + seq![common_includes_text()];
        lemma_absent_occurs_never(generated.cxx_mod.items(), common_includes_text());
        lemma_absent_occurs_never(generated.cxx_mod_contents, common_includes_text());
        lemma_occurrences_add(head, generated.cxx_mod_contents, common_includes_text());
        assert(head.drop_last() =~= generated.cxx_mod.items());
        assert(head.last() == common_includes_text());
    } else {
        let qobject = generated.qobjects[count - 1];
        lemma_includes_once(generated, (count - 1) as nat);
        lemma_common_blocks_are_not_includes(qobject);
        lemma_absent_occurs_never(qobject.cxx_mod_contents, common_includes_text());
        lemma_absent_occurs_never(cxx_bridge_blocks(qobject), common_includes_text());
        lemma_occurrences_add(
            bridge_items(generated, (count - 1) as nat),
            qobject.cxx_mod_contents,
            common_includes_text(),
        );
        lemma_occurrences_add(
            bridge_items(generated, (count - 1) as nat) + qobject.cxx_mod_contents,
            cxx_bridge_blocks(qobject),
            common_includes_text(),
        );
    }
}

/// Where the writer is not stopped, no two objects of the bridge have the
/// same name for the constructor of their C++ object, nor for the constructor
/// of their Rust struct.
pub proof fn lemma_written_names_differ(generated: GeneratedRustBlocksView, a: nat, b: nat)
    requires
        write_rust_result(generated) is Ok,
        a < b < generated.qobjects.len(),
    ensures
        new_cpp_object_name(generated.qobjects[a as int].cpp_struct_ident) != new_cpp_object_name(
            generated.qobjects[b as int].cpp_struct_ident,
        ),
        create_rs_name(generated.qobjects[a as int].rust_struct_ident) != create_rs_name(
            generated.qobjects[b as int].rust_struct_ident,
        ),
{
    lemma_no_failure_before(generated, (b + 1) as nat, generated.qobjects.len());
    assert(first_failure(generated, b) is None);
    assert(new_cpp_object_names(generated, b)[a as int] == new_cpp_object_name(
        generated.qobjects[a as int].cpp_struct_ident,
    ));
    assert(create_rs_names(generated, b)[a as int] == create_rs_name(
        generated.qobjects[a as int].rust_struct_ident,
    ));
}

/// Where the writer is not stopped, no two objects of the bridge are named
/// alike: their C++ types differ, and so do their Rust structs.
pub proof fn lemma_written_identifiers_differ(generated: GeneratedRustBlocksView, a: nat, b: nat)
    requires
        write_rust_result(generated) is Ok,
        a < b < generated.qobjects.len(),
    ensures
        generated.qobjects[a as int].cpp_struct_ident
            != generated.qobjects[b as int].cpp_struct_ident,
        generated.qobjects[a as int].rust_struct_ident
            != generated.qobjects[b as int].rust_struct_ident,
{
    lemma_written_names_differ(generated, a, b);
}

/// Two lists of texts that parse make one that parses.
pub proof fn lemma_all_parse_add(first: Seq<Seq<char>>, second: Seq<Seq<char>>)
    requires
        all_parse(first),
        all_parse(second),
    ensures
        all_parse(first + second),
{
    assert forall|i: int| 0 <= i < (first + second).len() implies parses_as_item(
        #[trigger] (first + second)[i],
    ) by {
        if i < first.len() {
            assert((first + second)[i] == first[i]);
        } else {
            assert((first + second)[i] == second[i - first.len()]);
        }
    }
}

/// Where the writer is not stopped, everything that it has written for an
/// object reads as an item, in both modules.
pub proof fn lemma_written_fragments_parse(generated: GeneratedRustBlocksView, a: nat)
    requires
        write_rust_result(generated) is Ok,
        a < generated.qobjects.len(),
    ensures
        all_parse(qobject_bridge_items(generated.qobjects[a as int])),
        all_parse(qobject_implementation_items(generated.qobjects[a as int])),
{
    let qobject = generated.qobjects[a as int];
    lemma_no_failure_before(generated, (a + 1) as nat, generated.qobjects.len());
    lemma_all_parse_add(qobject.cxx_mod_contents, cxx_bridge_blocks(qobject));
    lemma_all_parse_add(qobject.cxx_qt_mod_contents, cxx_qt_blocks(qobject));
}

/// Two lists of texts that make one that parses both parse.
pub proof fn lemma_all_parse_split(first: Seq<Seq<char>>, second: Seq<Seq<char>>)
    requires
        all_parse(first + second),
    ensures
        all_parse(first),
        all_parse(second),
{
    assert forall|i: int| 0 <= i < first.len() implies parses_as_item(#[trigger] first[i]) by {
        assert((first + second)[i] == first[i]);
    }
    assert forall|i: int| 0 <= i < second.len() implies parses_as_item(#[trigger] second[i]) by {
        assert((first + second)[i + first.len()] == second[i]);
    }
}

/// Whether a bridge can be written: everything that would be written for
/// its objects reads as an item, and no two objects get the same name for a
/// constructor.
pub open spec fn writable(generated: GeneratedRustBlocksView) -> bool {
    &&& forall|k: int|
        0 <= k < generated.qobjects.len() ==> all_parse(
            qobject_bridge_items(#[trigger] generated.qobjects[k]),
        ) && all_parse(qobject_implementation_items(generated.qobjects[k]))
    &&& forall|a: int, b: int|
        #![trigger generated.qobjects[a], generated.qobjects[b]]
        0 <= a < b < generated.qobjects.len() ==> new_cpp_object_name(
            generated.qobjects[a].cpp_struct_ident,
        ) != new_cpp_object_name(generated.qobjects[b].cpp_struct_ident) && create_rs_name(
            generated.qobjects[a].rust_struct_ident,
        ) != create_rs_name(generated.qobjects[b].rust_struct_ident)
}

/// Nothing stops the writer within the objects of a bridge that can be
/// written.
pub proof fn lemma_writable_has_no_failure(generated: GeneratedRustBlocksView, count: nat)
    requires
        writable(generated),
        count <= generated.qobjects.len(),
    ensures
        first_failure(generated, count) is None,
    decreases count,
{
    if count > 0 {
        lemma_writable_has_no_failure(generated, (count - 1) as nat);
        let qobject = generated.qobjects[count - 1];
        lemma_all_parse_split(qobject.cxx_mod_contents, cxx_bridge_blocks(qobject));
        lemma_all_parse_split(qobject.cxx_qt_mod_contents, cxx_qt_blocks(qobject));
        let new_names = new_cpp_object_names(generated, (count - 1) as nat);
        let create_names = create_rs_names(generated, (count - 1) as nat);
        assert forall|a: int| 0 <= a < count - 1 implies #[trigger] new_names[a]
            != new_cpp_object_name(qobject.cpp_struct_ident) by {
            assert(new_names[a] == new_cpp_object_name(generated.qobjects[a].cpp_struct_ident));
        }
        assert forall|a: int| 0 <= a < count - 1 implies #[trigger] create_names[a]
            != create_rs_name(qobject.rust_struct_ident) by {
            assert(create_names[a] == create_rs_name(generated.qobjects[a].rust_struct_ident));
        }
    }
}

/// The writer writes a bridge if and only if the bridge can be written:
/// a malformed fragment or a taken name stops it, and nothing else does.
pub proof fn lemma_written_exactly_when_writable(generated: GeneratedRustBlocksView)
    ensures
        write_rust_result(generated) is Ok <==> writable(generated),
{
    if write_rust_result(generated) is Ok {
        assert forall|k: int| 0 <= k < generated.qobjects.len() implies all_parse(
            qobject_bridge_items(#[trigger] generated.qobjects[k]),
        ) && all_parse(qobject_implementation_items(generated.qobjects[k])) by {
            lemma_written_fragments_parse(generated, k as nat);
        }
        assert forall|a: int, b: int|
            #![trigger generated.qobjects[a], generated.qobjects[b]]
            0 <= a < b < generated.qobjects.len() implies new_cpp_object_name(
            generated.qobjects[a].cpp_struct_ident,
        ) != new_cpp_object_name(generated.qobjects[b].cpp_struct_ident) && create_rs_name(
            generated.qobjects[a].rust_struct_ident,
        ) != create_rs_name(generated.qobjects[b].rust_struct_ident) by {
            lemma_written_names_differ(generated, a as nat, b as nat);
        }
    }
    if writable(generated) {
        lemma_writable_has_no_failure(generated, generated.qobjects.len());
    }
}

/// Where nothing stops the writer within a run of objects, nothing stops it
/// within a shorter one.
pub proof fn lemma_no_failure_before(generated: GeneratedRustBlocksView, count: nat, longer: nat)
    requires
        count <= longer,
        first_failure(generated, longer) is None,
    ensures
        first_failure(generated, count) is None,
    decreases longer,
{
    if count < longer {
        lemma_no_failure_before(generated, count, (longer - 1) as nat);
    }
}

/// Everything public in the implementation module is public beside it: the
/// text of the module opens with the line that says so, under the module's
/// own name.
pub proof fn lemma_reexported(module: ImplementationModuleView)
    ensures
        reexport_text(module.ident).len() <= module.text().len(),
        module.text().subrange(0, reexport_text(module.ident).len() as int) == reexport_text(
            module.ident,
        ),
{
    assert(module.text().subrange(0, reexport_text(module.ident).len() as int) =~= reexport_text(
        module.ident,
    ));
}

/// The implementation module that is written for a bridge is named after
/// the bridge module, brings the bridge module's declarations into scope, and
/// is made public beside it under that name.
pub proof fn lemma_written_reexported(generated: GeneratedRustBlocksView)
    ensures
        written(generated).implementation.ident == cxx_qt_mod_name(generated.cxx_mod.ident),
        written(generated).implementation.bridge == written(generated).bridge.ident,
        written(generated).implementation.text().subrange(
            0,
            reexport_text(cxx_qt_mod_name(generated.cxx_mod.ident)).len() as int,
        ) == reexport_text(cxx_qt_mod_name(generated.cxx_mod.ident)),
{
    lemma_reexported(written(generated).implementation);
}

} // verus!
