use cxx_qt_gen::naming::mangle;
use cxx_qt_gen::syntax::Ident;

#[test]
fn mangle_joins_and_snake_cases() {
    assert_eq!(
        mangle("new_cpp_object", &Ident::new("MyObjectQt")),
        Ident::new("new_cpp_object_my_object_qt")
    );
    assert_eq!(
        mangle("create_rs", &Ident::new("MyObject")),
        Ident::new("create_rs_my_object")
    );
}

#[test]
fn mangle_lowers_the_name_too() {
    assert_eq!(mangle("newThing", &Ident::new("Obj")), Ident::new("new_thing_obj"));
}

#[test]
fn mangle_of_a_snake_case_object_adds_nothing() {
    assert_eq!(mangle("create_rs", &Ident::new("widget")), Ident::new("create_rs_widget"));
}

#[test]
fn mangle_splits_digits_from_letters() {
    assert_eq!(mangle("create_rs", &Ident::new("Object2D")), Ident::new("create_rs_object_2_d"));
}

#[test]
fn mangle_keeps_acronyms_together() {
    assert_eq!(mangle("create_rs", &Ident::new("HTTPServer")), Ident::new("create_rs_http_server"));
}

#[test]
fn mangle_is_the_same_each_time() {
    let object = Ident::new("FirstObjectQt");
    assert_eq!(mangle("new_cpp_object", &object), mangle("new_cpp_object", &object));
}

#[test]
fn mangle_tells_these_objects_apart() {
    assert_ne!(
        mangle("new_cpp_object", &Ident::new("FirstObjectQt")),
        mangle("new_cpp_object", &Ident::new("SecondObjectQt"))
    );
}

#[test]
fn mangle_does_not_tell_cases_apart() {
    // Two identifiers that differ only in how their words are set off get one name.
    assert_eq!(
        mangle("new_cpp_object", &Ident::new("MyObject")),
        mangle("new_cpp_object", &Ident::new("My_Object"))
    );
    assert_eq!(
        mangle("new_cpp_object", &Ident::new("MyObject")),
        mangle("new_cpp_object", &Ident::new("myObject"))
    );
}
