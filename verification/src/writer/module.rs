//! The two modules that the writer produces, and the text they are handed on
//! as.

use vstd::prelude::*;
use vstd::string::*;
use crate::syntax::{quote_string, string_literal, texts, Ident, Item};

verus! {

/// The CXX bridge module: the declarations shared with C++.
#[derive(Clone, Debug, PartialEq, Eq)]
pub struct InterfaceModule {
    /// The namespace of the bridge.
    pub namespace: String,
    /// The outer attributes that the module was declared with, as written.
    pub attrs: String,
    /// The visibility that the module was declared with, as written.
    pub vis: String,
    pub ident: Ident,
    pub items: Vec<Item>,
}

/// What an `InterfaceModule` holds, as plain sequences.
pub struct InterfaceModuleView {
    pub namespace: Seq<char>,
    pub attrs: Seq<char>,
    pub vis: Seq<char>,
    pub ident: Seq<char>,
    pub items: Seq<Seq<char>>,
}

impl View for InterfaceModule {
    type V = InterfaceModuleView;

    open spec fn view(&self) -> InterfaceModuleView {
        InterfaceModuleView {
            namespace: self.namespace@,
            attrs: self.attrs@,
            vis: self.vis@,
            ident: self.ident@,
            items: texts(self.items@),
        }
    }
}

/// The module that holds the Rust side of the objects. It stands beside the
/// bridge module, and everything public in it is public beside it too.
#[derive(Clone, Debug, PartialEq, Eq)]
pub struct ImplementationModule {
    pub ident: Ident,
    /// The name of the bridge module, whose declarations are in scope here.
    pub bridge: Ident,
    pub items: Vec<Item>,
}

/// What an `ImplementationModule` holds, as plain sequences.
pub struct ImplementationModuleView {
    pub ident: Seq<char>,
    pub bridge: Seq<char>,
    pub items: Seq<Seq<char>>,
}

impl View for ImplementationModule {
    type V = ImplementationModuleView;

    open spec fn view(&self) -> ImplementationModuleView {
        ImplementationModuleView {
            ident: self.ident@,
            bridge: self.bridge@,
            items: texts(self.items@),
        }
    }
}

/// The first `count` texts of `items`, each followed by an empty line.
pub open spec fn body_text(items: Seq<Seq<char>>, count: nat) -> Seq<char>
    decreases count,
{
    if count == 0 {
        Seq::empty()
    } else {
        body_text(items, (count - 1) as nat) + items[count - 1] + "\n\n"@
    }
}

/// Writes the items of a module's body, each followed by an empty line.
pub fn write_body(items: &Vec<Item>) -> (text: String)
    ensures
        text@ == body_text(texts(items@), items@.len()),
{
    let mut text = String::new();
    let mut i: usize = 0;
    while i < items.len()
        invariant
            i <= items.len(),
            text@ == body_text(texts(items@), i as nat),
        decreases items.len() - i,
    {
        text.append(items[i].as_str());
        text.append("\n\n");
        i += 1;
    }
    text
}

/// The line that makes everything public in the module `ident` public
/// beside it.
pub open spec fn reexport_text(ident: Seq<char>) -> Seq<char> {
    "pub use self::"@ + ident + "::*;\n"@
}

impl InterfaceModuleView {
    /// The text of the module where `namespace` is the string literal for its
    /// namespace: the bridge attribute with that literal, then the module as
    /// it was declared, with `items` as its body.
    pub open spec fn text_with(self, namespace: Seq<char>) -> Seq<char> {
        "#[cxx::bridge(namespace = "@ + namespace + ")]\n"@ + self.attrs + "\n"@ + self.vis
            + " mod "@ + self.ident + " {\n"@ + body_text(self.items, self.items.len()) + "}\n"@
    }

    /// The text of the module: the bridge attribute with the namespace as a
    /// string literal, then the module as it was declared, with `items` as
    /// its body.
    pub open spec fn text(self) -> Seq<char> {
        self.text_with(string_literal(self.namespace))
    }
}

impl InterfaceModule {
    /// Writes the module out.
    pub fn to_tokens(&self) -> (text: String)
        ensures
            text@ == self@.text(),
    {
        self.to_tokens_with(quote_string(self.namespace.as_str()).as_str())
    }

    /// Writes the module out, with `namespace` for the namespace of the
    /// bridge. `namespace` is written as given: it is a string literal.
    pub fn to_tokens_with(&self, namespace: &str) -> (text: String)
        ensures
            text@ == self@.text_with(namespace@),
    {
        let mut text = String::from_str("#[cxx::bridge(namespace = ");
        text.append(namespace);
        text.append(")]\n");
        text.append(self.attrs.as_str());
        text.append("\n");
        text.append(self.vis.as_str());
        text.append(" mod ");
        text.append(self.ident.as_str());
        text.append(" {\n");
        text.append(write_body(&self.items).as_str());
        text.append("}\n");
        text
    }
}

impl ImplementationModuleView {
    /// The text of the module: the line that makes its public items public
    /// beside it, then the module, which brings the bridge's declarations into
    /// scope, `Pin`, and `UniquePtr` as a name for `cxx::UniquePtr`, before
    /// `items`.
    pub open spec fn text(self) -> Seq<char> {
        reexport_text(self.ident) + "mod "@ + self.ident + " {\nuse super::"@ + self.bridge
            + "::*;\nuse std::pin::Pin;\n\ntype UniquePtr<T> = cxx::UniquePtr<T>;\n\n"@
            + body_text(self.items, self.items.len()) + "}\n"@
    }
}

impl ImplementationModule {
    /// Writes the module out.
    pub fn to_tokens(&self) -> (text: String)
        ensures
            text@ == self@.text(),
    {
        let mut text = String::from_str("pub use self::");
        text.append(self.ident.as_str());
        text.append("::*;\n");
        text.append("mod ");
        text.append(self.ident.as_str());
        text.append(" {\nuse super::");
        text.append(self.bridge.as_str());
        text.append("::*;\nuse std::pin::Pin;\n\ntype UniquePtr<T> = cxx::UniquePtr<T>;\n\n");
        text.append(write_body(&self.items).as_str());
        text.append("}\n");
        text
    }
}

/// What the writer produces for one bridge.
#[derive(Clone, Debug, PartialEq, Eq)]
pub struct WrittenRust {
    pub bridge: InterfaceModule,
    pub implementation: ImplementationModule,
}

/// What a `WrittenRust` holds, as plain sequences.
pub struct WrittenRustView {
    pub bridge: InterfaceModuleView,
    pub implementation: ImplementationModuleView,
}

impl View for WrittenRust {
    type V = WrittenRustView;

    open spec fn view(&self) -> WrittenRustView {
        WrittenRustView { bridge: self.bridge@, implementation: self.implementation@ }
    }
}

impl WrittenRustView {
    /// The text of both modules: the bridge, then the implementation.
    pub open spec fn text(self) -> Seq<char> {
        self.bridge.text() + "\n"@ + self.implementation.text()
    }
}

impl WrittenRust {
    /// Writes both modules out, the bridge first.
    pub fn to_tokens(&self) -> (text: String)
        ensures
            text@ == self@.text(),
    {
        let mut text = self.bridge.to_tokens();
        text.append("\n");
        text.append(self.implementation.to_tokens().as_str());
        text
    }
}

} // verus!
