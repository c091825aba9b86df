use cxx_qt_gen::syntax::{extend_items, items_parse, Ident, Item};
use cxx_qt_gen::writer::module::write_body;
use cxx_qt_gen::writer::rust::{claim_name, insert_fragments, is_taken, FragmentKind, WriteError};

#[test]
fn items_parse_asks_for_one_item_each() {
    assert!(items_parse(&vec![]));
    assert!(items_parse(&vec![Item::new("struct A;"), Item::new("fn f() {}")]));
    assert!(!items_parse(&vec![Item::new("struct A;"), Item::new("struct B; struct C;")]));
    assert!(!items_parse(&vec![Item::new("struct A")]));
    assert!(!items_parse(&vec![Item::new("let x = 1;")]));
    assert!(!items_parse(&vec![Item::new("\"open")]));
}

#[test]
fn extend_items_appends_in_order() {
    let mut list = vec![Item::new("a")];
    extend_items(&mut list, &vec![Item::new("b"), Item::new("c")]);
    assert_eq!(list, vec![Item::new("a"), Item::new("b"), Item::new("c")]);
    extend_items(&mut list, &vec![]);
    assert_eq!(list.len(), 3);
}

#[test]
fn insert_fragments_that_parse() {
    let mut list = vec![Item::new("struct A;")];
    let result = insert_fragments(
        &mut list,
        &vec![Item::new("struct B;"), Item::new("struct C;")],
        true,
        &Ident::new("Object"),
        FragmentKind::Interface,
    );
    assert_eq!(result, Ok(()));
    assert_eq!(
        list,
        vec![Item::new("struct A;"), Item::new("struct B;"), Item::new("struct C;")]
    );
}

#[test]
fn insert_fragments_that_do_not_parse() {
    let mut list = vec![Item::new("struct A;")];
    let result = insert_fragments(
        &mut list,
        &vec![Item::new("struct B;")],
        false,
        &Ident::new("Object"),
        FragmentKind::CommonImplementation,
    );
    assert_eq!(
        result,
        Err(WriteError::MalformedFragment {
            object: Ident::new("Object"),
            kind: FragmentKind::CommonImplementation,
        })
    );
    assert_eq!(list, vec![Item::new("struct A;")]);
}

#[test]
fn claim_name_takes_a_free_name() {
    let mut names = vec![Ident::new("a")];
    assert!(!is_taken(&names, &Ident::new("b")));
    assert_eq!(claim_name(&mut names, &Ident::new("b"), &Ident::new("Object")), Ok(()));
    assert_eq!(names, vec![Ident::new("a"), Ident::new("b")]);
    assert!(is_taken(&names, &Ident::new("b")));
}

#[test]
fn claim_name_reports_a_taken_name() {
    let mut names = vec![Ident::new("a"), Ident::new("b")];
    assert_eq!(
        claim_name(&mut names, &Ident::new("a"), &Ident::new("Object")),
        Err(WriteError::DuplicateIdentifier {
            object: Ident::new("Object"),
            identifier: Ident::new("a"),
        })
    );
    assert_eq!(names, vec![Ident::new("a"), Ident::new("b")]);
}

#[test]
fn nothing_is_taken_at_first() {
    assert!(!is_taken(&vec![], &Ident::new("a")));
}

#[test]
fn write_body_sets_the_items_apart() {
    assert_eq!(write_body(&vec![]), "");
    assert_eq!(
        write_body(&vec![Item::new("struct A;"), Item::new("struct B;")]),
        "struct A;\n\nstruct B;\n\n"
    );
}

#[test]
fn ident_and_item_hold_their_text() {
    let ident = Ident::new("ffi");
    assert_eq!(ident.as_str(), "ffi");
    assert_eq!(ident.clone(), ident);
    let item = Item::new("struct A;");
    assert_eq!(item.as_str(), "struct A;");
    assert_eq!(item.clone(), item);
}

#[test]
fn items_with_literals_of_every_kind_parse() {
    for literal in [
        "\"s\"", "r\"s\"", "r#\"s\"#", "b\"s\"", "br\"s\"", "br#\"s\"#", "c\"s\"", "cr\"s\"",
        "cr#\"s\"#", "'c'", "b'c'", "1", "0xff_u8", "1.5e3", "1f32", "true",
    ] {
        let item = Item::new(&format!("const X: T = {};", literal));
        assert!(items_parse(&vec![item]), "{}", literal);
    }
    assert!(items_parse(&vec![Item::new("static S: &core::ffi::CStr = c\"x\";")]));
}

#[test]
fn literals_that_are_cut_short_do_not_parse() {
    for literal in ["\"s", "c\"s", "cr#\"s\"", "'c", "b'c", "\"\\q\""] {
        let item = Item::new(&format!("const X: T = {};", literal));
        assert!(!items_parse(&vec![item]), "{}", literal);
    }
}

#[test]
fn error_marker_is_answered() {
    assert!(items_parse(&vec![Item::new("const X: T = (/*ERROR*/);")]));
}
