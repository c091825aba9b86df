//! The pieces of Rust syntax that the writer moves around, held as the text
//! they are written with.
//!
//! Literals are written and items are read with `proc_macro2`, which inside a
//! procedural macro uses the compiler's implementation. For the length of each
//! such call the crate is switched to its own implementation, and the switch
//! is one for the whole process: inside a procedural macro, `quote_string` and
//! `is_item`, and so everything that writes or reads through them, must be
//! called from one thread at a time.

use vstd::prelude::*;
use vstd::string::*;

verus! {

/// An identifier, held as the word it is written with.
#[derive(Debug, PartialEq, Eq)]
pub struct Ident {
    pub name: String,
}

impl View for Ident {
    type V = Seq<char>;

    open spec fn view(&self) -> Seq<char> {
        self.name@
    }
}

impl Ident {
    /// The identifier written as `name`.
    pub fn new(name: &str) -> (ident: Ident)
        ensures
            ident@ == name@,
    {
        Ident { name: String::from_str(name) }
    }

    /// The word this identifier is written with.
    pub fn as_str(&self) -> (name: &str)
        ensures
            name@ == self@,
    {
        self.name.as_str()
    }
}

impl Clone for Ident {
    fn clone(&self) -> (ident: Ident)
        ensures
            ident@ == self@,
    {
        Ident { name: self.name.clone() }
    }
}

/// One item of a module, held as its token text. The writer never looks
/// inside an item: it only decides where the item goes.
#[derive(Debug, PartialEq, Eq)]
pub struct Item {
    pub tokens: String,
}

impl View for Item {
    type V = Seq<char>;

    open spec fn view(&self) -> Seq<char> {
        self.tokens@
    }
}

impl Item {
    /// The item written as `tokens`.
    pub fn new(tokens: &str) -> (item: Item)
        ensures
            item@ == tokens@,
    {
        Item { tokens: String::from_str(tokens) }
    }

    /// The token text of this item.
    pub fn as_str(&self) -> (tokens: &str)
        ensures
            tokens@ == self@,
    {
        self.tokens.as_str()
    }
}

impl Clone for Item {
    fn clone(&self) -> (item: Item)
        ensures
            item@ == self@,
    {
        Item { tokens: self.tokens.clone() }
    }
}

/// The token texts of a list of items, in order.
pub open spec fn texts(items: Seq<Item>) -> Seq<Seq<char>> {
    items.map_values(|item: Item| item@)
}

/// The string literal that `proc_macro2` writes for `text`: `text` between
/// double quotes, with the characters that cannot stand in a literal escaped.
pub uninterp spec fn string_literal(text: Seq<char>) -> Seq<char>;

/// `proc_macro2::Literal::string`, printed with `to_string`. Between
/// `proc_macro2::fallback::force` and `proc_macro2::fallback::unforce` the
/// crate uses its own implementation and not the compiler's, so that the
/// literal is the one that the crate's source gives for `text`, whatever
/// process this runs in: `text` between double quotes, each character escaped
/// as `char::escape_debug` does, but for `'`, which is left as it is, and for
/// the null character, which is written `\0`, or `\x00` before one of the
/// digits `0` to `7`.
///
/// `force` and `unforce` write a switch that the whole process shares.
/// `unforce` does not put back what the switch held before: it has the crate
/// find out anew whether the compiler's implementation is there, so a caller
/// that had forced the crate's own finds that undone. Outside a procedural
/// macro the switch holds the same before and after. Inside one, a call must
/// not overlap with another call of this function or of `is_item`: the
/// `unforce` of one would end the `force` of the other too early.
#[verifier::external_body]
pub(crate) fn quote_string(text: &str) -> (literal: String)
    ensures
        literal@ == string_literal(text@),
{
    proc_macro2::fallback::force();
    let literal = proc_macro2::Literal::string(text).to_string();
    proc_macro2::fallback::unforce();
    literal
}

/// Whether `syn` reads `text` as exactly one item.
pub uninterp spec fn parses_as_item(text: Seq<char>) -> bool;

/// `syn::parse_str` for `syn::Item`, asked only whether it succeeds: `text`
/// is split into tokens by `proc_macro2`, and the tokens must make up one
/// item with nothing left over. Between `proc_macro2::fallback::force` and
/// `proc_macro2::fallback::unforce` the tokens are made by the crate's own
/// lexer and not the compiler's, so that the answer depends on `text` alone.
/// A literal token that `syn` has no kind for is kept as it stands, so the
/// call answers for every text.
///
/// `force` and `unforce` write a switch that the whole process shares.
/// `unforce` does not put back what the switch held before: it has the crate
/// find out anew whether the compiler's implementation is there, so a caller
/// that had forced the crate's own finds that undone. Outside a procedural
/// macro the switch holds the same before and after. Inside one, a call must
/// not overlap with another call of this function or of `quote_string`: the
/// `unforce` of one would end the `force` of the other too early.
#[verifier::external_body]
pub(crate) fn is_item(text: &str) -> (parses: bool)
    ensures
        parses == parses_as_item(text@),
{
    proc_macro2::fallback::force();
    let parses = syn::parse_str::<syn::Item>(text).is_ok();
    proc_macro2::fallback::unforce();
    parses
}

/// Whether every text of `items` reads as one item.
pub open spec fn all_parse(items: Seq<Seq<char>>) -> bool {
    forall|i: int| 0 <= i < items.len() ==> parses_as_item(#[trigger] items[i])
}

/// Whether every item of `items` reads as one item.
pub fn items_parse(items: &Vec<Item>) -> (parse: bool)
    ensures
        parse == all_parse(texts(items@)),
{
    let mut i: usize = 0;
    while i < items.len()
        invariant
            i <= items.len(),
            forall|k: int| 0 <= k < i ==> parses_as_item(#[trigger] texts(items@)[k]),
        decreases items.len() - i,
    {
        if !is_item(items[i].as_str()) {
            assert(!parses_as_item(texts(items@)[i as int]));
            return false;
        }
        i += 1;
    }
    true
}

/// A module declaration: what stands before `mod`, the module's name, and its
/// body where it has one.
#[derive(Clone, Debug, PartialEq, Eq)]
pub struct ItemMod {
    /// The outer attributes of the module, as written; empty where it has none.
    pub attrs: String,
    /// The visibility of the module, as written; empty where it is private.
    pub vis: String,
    pub ident: Ident,
    /// The items of the body, or `None` for a module declared without one.
    pub content: Option<Vec<Item>>,
}

/// What an `ItemMod` holds, as plain sequences.
pub struct ItemModView {
    pub attrs: Seq<char>,
    pub vis: Seq<char>,
    pub ident: Seq<char>,
    pub content: Option<Seq<Seq<char>>>,
}

impl View for ItemMod {
    type V = ItemModView;

    open spec fn view(&self) -> ItemModView {
        ItemModView {
            attrs: self.attrs@,
            vis: self.vis@,
            ident: self.ident@,
            content: match self.content {
                Some(items) => Some(texts(items@)),
                None => None,
            },
        }
    }
}

impl ItemModView {
    /// The items that the module's body holds; none where it has no body.
    pub open spec fn items(self) -> Seq<Seq<char>> {
        match self.content {
            Some(items) => items,
            None => Seq::empty(),
        }
    }
}

/// Appends to `list` an item for each item of `items`, in order.
pub fn extend_items(list: &mut Vec<Item>, items: &Vec<Item>)
    ensures
        texts(final(list)@) == texts(old(list)@) + texts(items@),
{
    let ghost before = texts(list@);
    let mut i: usize = 0;
    while i < items.len()
        invariant
            i <= items.len(),
            texts(list@) == before + texts(items@).subrange(0, i as int),
        decreases items.len() - i,
    {
        let ghost prior = list@;
        list.push(items[i].clone());
        proof {
            assert(texts(list@) =~= texts(prior).push(items[i as int]@));
            assert(texts(items@).subrange(0, i + 1) =~= texts(items@).subrange(0, i as int).push(
                items[i as int]@,
            ));
        }
        i += 1;
    }
    assert(texts(items@).subrange(0, items.len() as int) =~= texts(items@));
}

} // verus!
