//! The blocks that every object of a bridge needs besides its own: the same
//! for each object but for the names in them.

use vstd::prelude::*;
use vstd::string::*;
use crate::generator::{GeneratedRustQObject, GeneratedRustQObjectView};
use crate::naming::{mangle, mangled};
use crate::syntax::{quote_string, string_literal, texts, Ident, Item};

verus! {

/// The block that declares the thread type of an object, the read-only way
/// from the C++ object to the Rust struct, the way to and through the thread
/// type, and the constructor of the C++ object. `new_cpp_object` and
/// `namespace` are string literals.
pub open spec fn thread_block_text(
    cpp: Seq<char>,
    rust: Seq<char>,
    thread: Seq<char>,
    new_cpp_object: Seq<char>,
    namespace: Seq<char>,
) -> Seq<char> {
    "unsafe extern \"C++\" {\n    type "@
        + thread
        + ";\n\n    #[cxx_name = \"unsafeRust\"]\n    fn rust(self: &"@
        + cpp
        + ") -> &"@
        + rust
        + ";\n\n    #[cxx_name = \"qtThread\"]\n    fn qt_thread(self: &"@
        + cpp
        + ") -> UniquePtr<"@
        + thread
        + ">;\n    fn queue(self: &"@
        + thread
        + ", func: fn(ctx: Pin<&mut "@
        + cpp
        + ">)) -> Result<()>;\n\n    #[rust_name = "@
        + new_cpp_object
        + "]\n    #[namespace = "@
        + namespace
        + "]\n    fn newCppObject() -> UniquePtr<"@
        + cpp
        + ">;\n}"@
}

/// Writes the block that declares the thread type of an object, the
/// read-only way from the C++ object to the Rust struct, the way to and through
/// the thread type, and the constructor of the C++ object. `new_cpp_object` and
/// `namespace` are written as given: they are string literals.
pub fn thread_block(
    cpp: &Ident,
    rust: &Ident,
    thread: &Ident,
    new_cpp_object: &str,
    namespace: &str,
) -> (item: Item)
    ensures
        item@ == thread_block_text(cpp@, rust@, thread@, new_cpp_object@, namespace@),
{
    let mut tokens = String::from_str("unsafe extern \"C++\" {\n    type ");
    tokens.append(thread.as_str());
    tokens.append(";\n\n    #[cxx_name = \"unsafeRust\"]\n    fn rust(self: &");
    tokens.append(cpp.as_str());
    tokens.append(") -> &");
    tokens.append(rust.as_str());
    tokens.append(";\n\n    #[cxx_name = \"qtThread\"]\n    fn qt_thread(self: &");
    tokens.append(cpp.as_str());
    tokens.append(") -> UniquePtr<");
    tokens.append(thread.as_str());
    tokens.append(">;\n    fn queue(self: &");
    tokens.append(thread.as_str());
    tokens.append(", func: fn(ctx: Pin<&mut ");
    tokens.append(cpp.as_str());
    tokens.append(">)) -> Result<()>;\n\n    #[rust_name = ");
    tokens.append(new_cpp_object);
    tokens.append("]\n    #[namespace = ");
    tokens.append(namespace);
    tokens.append("]\n    fn newCppObject() -> UniquePtr<");
    tokens.append(cpp.as_str());
    tokens.append(">;\n}");
    Item { tokens }
}

/// The block that declares the mutable way from the C++ object to the Rust
/// struct. It stands apart from the read-only one: CXX takes an `unsafe fn`
/// only in a block that is not itself marked `unsafe`.
pub open spec fn rust_mut_block_text(cpp: Seq<char>, rust: Seq<char>) -> Seq<char> {
    "extern \"C++\" {\n    #[cxx_name = \"unsafeRustMut\"]\n    unsafe fn rust_mut(self: Pin<&mut "@
        + cpp
        + ">) -> Pin<&mut "@
        + rust
        + ">;\n}"@
}

/// Writes the block that declares the mutable way from the C++ object to the
/// Rust struct.
pub fn rust_mut_block(cpp: &Ident, rust: &Ident) -> (item: Item)
    ensures
        item@ == rust_mut_block_text(cpp@, rust@),
{
    let mut tokens = String::from_str(
        "extern \"C++\" {\n    #[cxx_name = \"unsafeRustMut\"]\n    unsafe fn rust_mut(self: Pin<&mut ",
    );
    tokens.append(cpp.as_str());
    tokens.append(">) -> Pin<&mut ");
    tokens.append(rust.as_str());
    tokens.append(">;\n}");
    Item { tokens }
}

/// The block that offers the constructor of the Rust struct to C++, under the
/// name `create_rs`. `namespace` is a string literal.
pub open spec fn create_rs_block_text(
    rust: Seq<char>,
    create_rs: Seq<char>,
    namespace: Seq<char>,
) -> Seq<char> {
    "extern \"Rust\" {\n    #[cxx_name = \"createRs\"]\n    #[namespace = "@
        + namespace
        + "]\n    fn "@
        + create_rs
        + "() -> Box<"@
        + rust
        + ">;\n}"@
}

/// Writes the block that offers the constructor of the Rust struct to C++,
/// under the name `create_rs`. `namespace` is written as given: it is a string
/// literal.
pub fn create_rs_block(rust: &Ident, create_rs: &Ident, namespace: &str) -> (item: Item)
    ensures
        item@ == create_rs_block_text(rust@, create_rs@, namespace@),
{
    let mut tokens = String::from_str(
        "extern \"Rust\" {\n    #[cxx_name = \"createRs\"]\n    #[namespace = ",
    );
    tokens.append(namespace);
    tokens.append("]\n    fn ");
    tokens.append(create_rs.as_str());
    tokens.append("() -> Box<");
    tokens.append(rust.as_str());
    tokens.append(">;\n}");
    Item { tokens }
}

/// The item that marks the thread type of an object as safe to send to
/// another thread. The claim is taken on trust: it rests on how the C++ side
/// builds the type.
pub open spec fn send_marker_text(thread: Seq<char>) -> Seq<char> {
    "unsafe impl Send for "@
        + thread
        + " {}"@
}

/// Writes the item that marks the thread type of an object as safe to send
/// to another thread.
pub fn send_marker(thread: &Ident) -> (item: Item)
    ensures
        item@ == send_marker_text(thread@),
{
    let mut tokens = String::from_str("unsafe impl Send for ");
    tokens.append(thread.as_str());
    tokens.append(" {}");
    Item { tokens }
}

/// The constructor of the Rust struct, under the name `create_rs`: it boxes
/// the default value of the struct.
pub open spec fn create_rs_function_text(rust: Seq<char>, create_rs: Seq<char>) -> Seq<char> {
    "pub fn "@
        + create_rs
        + "() -> std::boxed::Box<"@
        + rust
        + "> {\n    std::default::Default::default()\n}"@
}

/// Writes the constructor of the Rust struct, under the name `create_rs`.
pub fn create_rs_function(rust: &Ident, create_rs: &Ident) -> (item: Item)
    ensures
        item@ == create_rs_function_text(rust@, create_rs@),
{
    let mut tokens = String::from_str("pub fn ");
    tokens.append(create_rs.as_str());
    tokens.append("() -> std::boxed::Box<");
    tokens.append(rust.as_str());
    tokens.append("> {\n    std::default::Default::default()\n}");
    Item { tokens }
}

/// The name under which the bridge declares the constructor of the C++
/// object `cpp_struct_ident`.
pub open spec fn new_cpp_object_name(cpp_struct_ident: Seq<char>) -> Seq<char> {
    mangled("new_cpp_object"@, cpp_struct_ident)
}

/// The name of the constructor of the Rust struct `rust_struct_ident`.
pub open spec fn create_rs_name(rust_struct_ident: Seq<char>) -> Seq<char> {
    mangled("create_rs"@, rust_struct_ident)
}

/// The common blocks of `qobject` for the CXX bridge, with the two
/// constructors under the names given.
pub open spec fn cxx_bridge_blocks_named(
    qobject: GeneratedRustQObjectView,
    new_cpp_object: Seq<char>,
    create_rs: Seq<char>,
) -> Seq<Seq<char>> {
    seq![
        thread_block_text(
            qobject.cpp_struct_ident,
            qobject.rust_struct_ident,
            qobject.cxx_qt_thread_ident,
            string_literal(new_cpp_object),
            string_literal(qobject.namespace_internals),
        ),
        rust_mut_block_text(qobject.cpp_struct_ident, qobject.rust_struct_ident),
        create_rs_block_text(
            qobject.rust_struct_ident,
            create_rs,
            string_literal(qobject.namespace_internals),
        ),
    ]
}

/// The common blocks of `qobject` for the CXX bridge.
pub open spec fn cxx_bridge_blocks(qobject: GeneratedRustQObjectView) -> Seq<Seq<char>> {
    cxx_bridge_blocks_named(
        qobject,
        new_cpp_object_name(qobject.cpp_struct_ident),
        create_rs_name(qobject.rust_struct_ident),
    )
}

/// The common blocks of `qobject` for the implementation module, with the
/// constructor of the Rust struct under the name given.
pub open spec fn cxx_qt_blocks_named(
    qobject: GeneratedRustQObjectView,
    create_rs: Seq<char>,
) -> Seq<Seq<char>> {
    seq![
        send_marker_text(qobject.cxx_qt_thread_ident),
        create_rs_function_text(qobject.rust_struct_ident, create_rs),
    ]
}

/// The common blocks of `qobject` for the implementation module.
pub open spec fn cxx_qt_blocks(qobject: GeneratedRustQObjectView) -> Seq<Seq<char>> {
    cxx_qt_blocks_named(qobject, create_rs_name(qobject.rust_struct_ident))
}

/// Writes the common blocks of `qobject` for the CXX bridge, with the two
/// constructors under the names given: the block of the thread type, the
/// block of the mutable accessor, and the block that offers `create_rs`.
pub fn write_cxx_bridge_blocks(
    qobject: &GeneratedRustQObject,
    new_cpp_object: &Ident,
    create_rs: &Ident,
) -> (blocks: Vec<Item>)
    ensures
        texts(blocks@) == cxx_bridge_blocks_named(qobject@, new_cpp_object@, create_rs@),
{
    let new_cpp_object_literal = quote_string(new_cpp_object.as_str());
    let namespace_literal = quote_string(qobject.namespace_internals.as_str());
    let mut blocks: Vec<Item> = Vec::new();
    blocks.push(
        thread_block(
            &qobject.cpp_struct_ident,
            &qobject.rust_struct_ident,
            &qobject.cxx_qt_thread_ident,
            new_cpp_object_literal.as_str(),
            namespace_literal.as_str(),
        ),
    );
    blocks.push(rust_mut_block(&qobject.cpp_struct_ident, &qobject.rust_struct_ident));
    blocks.push(
        create_rs_block(&qobject.rust_struct_ident, create_rs, namespace_literal.as_str()),
    );
    assert(texts(blocks@) =~= cxx_bridge_blocks_named(qobject@, new_cpp_object@, create_rs@));
    blocks
}

/// Writes the common blocks of `qobject` for the implementation module, with
/// the constructor of the Rust struct under the name given: the marker for the
/// thread type, and the constructor.
pub fn write_cxx_qt_blocks(qobject: &GeneratedRustQObject, create_rs: &Ident) -> (blocks: Vec<Item>)
    ensures
        texts(blocks@) == cxx_qt_blocks_named(qobject@, create_rs@),
{
    let mut blocks: Vec<Item> = Vec::new();
    blocks.push(send_marker(&qobject.cxx_qt_thread_ident));
    blocks.push(create_rs_function(&qobject.rust_struct_ident, create_rs));
    assert(texts(blocks@) =~= cxx_qt_blocks_named(qobject@, create_rs@));
    blocks
}

/// Return common blocks for CXX bridge which the C++ writer adds as well.
pub fn cxx_bridge_common_blocks(qobject: &GeneratedRustQObject) -> (blocks: Vec<Item>)
    ensures
        texts(blocks@) == cxx_bridge_blocks(qobject@),
{
    let new_cpp_object = mangle("new_cpp_object", &qobject.cpp_struct_ident);
    let create_rs = mangle("create_rs", &qobject.rust_struct_ident);
    write_cxx_bridge_blocks(qobject, &new_cpp_object, &create_rs)
}

/// Return common blocks for CXX-Qt implementation which the C++ writer adds
/// as well.
pub fn cxx_qt_common_blocks(qobject: &GeneratedRustQObject) -> (blocks: Vec<Item>)
    ensures
        texts(blocks@) == cxx_qt_blocks(qobject@),
{
    let create_rs = mangle("create_rs", &qobject.rust_struct_ident);
    write_cxx_qt_blocks(qobject, &create_rs)
}

} // verus!
