use cxx_qt_gen::generator::{GeneratedRustBlocks, GeneratedRustQObject, GeneratedRustQObjectBlocks};
use cxx_qt_gen::syntax::{Ident, Item, ItemMod};
use cxx_qt_gen::writer::rust::write_rust;

/// The tokens of `text`, printed the way `proc_macro2` prints them.
fn tokens(text: &str) -> String {
    text.parse::<proc_macro2::TokenStream>()
        .expect("the text is a token stream")
        .to_string()
}

/// The module `mod ffi {}`.
fn mod_ffi() -> ItemMod {
    ItemMod {
        attrs: String::new(),
        vis: String::new(),
        ident: Ident::new("ffi"),
        content: Some(vec![]),
    }
}

/// Helper to create a GeneratedRustBlocks for testing
fn create_generated_rust() -> GeneratedRustBlocks {
    GeneratedRustBlocks {
        cxx_mod: mod_ffi(),
        cxx_mod_contents: vec![Item::new(
            r#"unsafe extern "C++" {
                include!("myobject.cxxqt.h");
            }"#,
        )],
        cxx_qt_mod_contents: vec![Item::new("use module::Struct;")],
        namespace: "cxx_qt::my_object".to_owned(),
        qobjects: vec![GeneratedRustQObject {
            cpp_struct_ident: Ident::new("MyObjectQt"),
            cxx_qt_thread_ident: Ident::new("MyObjectCxxQtThread"),
            namespace_internals: "cxx_qt::my_object::cxx_qt_my_object".to_owned(),
            rust_struct_ident: Ident::new("MyObject"),
            blocks: GeneratedRustQObjectBlocks {
                cxx_mod_contents: vec![
                    Item::new(
                        r#"unsafe extern "C++" {
                            #[cxx_name = "MyObject"]
                            type MyObjectQt;
                        }"#,
                    ),
                    Item::new(
                        r#"extern "Rust" {
                            #[cxx_name = "MyObjectRust"]
                            type MyObject;
                        }"#,
                    ),
                ],
                cxx_qt_mod_contents: vec![
                    Item::new(
                        r#"#[derive(Default)]
                        pub struct MyObject;"#,
                    ),
                    Item::new(
                        r#"impl MyObject {
                            fn rust_method(&self) {

                            }
                        }"#,
                    ),
                ],
            },
        }],
    }
}

/// Helper to create a GeneratedRustBlocks for testing with multiple qobjects
fn create_generated_rust_multi_qobjects() -> GeneratedRustBlocks {
    GeneratedRustBlocks {
        cxx_mod: mod_ffi(),
        cxx_mod_contents: vec![Item::new(
            r#"unsafe extern "C++" {
                include!("multiobject.cxxqt.h");
            }"#,
        )],
        cxx_qt_mod_contents: vec![Item::new("use module::Struct;")],
        namespace: "cxx_qt".to_owned(),
        qobjects: vec![
            GeneratedRustQObject {
                cpp_struct_ident: Ident::new("FirstObjectQt"),
                cxx_qt_thread_ident: Ident::new("FirstObjectCxxQtThread"),
                namespace_internals: "cxx_qt::cxx_qt_first_object".to_owned(),
                rust_struct_ident: Ident::new("FirstObject"),
                blocks: GeneratedRustQObjectBlocks {
                    cxx_mod_contents: vec![
                        Item::new(
                            r#"unsafe extern "C++" {
                                #[cxx_name = "FirstObject"]
                                type FirstObjectQt;
                            }"#,
                        ),
                        Item::new(
                            r#"extern "Rust" {
                                #[cxx_name = "FirstObjectRust"]
                                type FirstObject;
                            }"#,
                        ),
                    ],
                    cxx_qt_mod_contents: vec![
                        Item::new(
                            r#"#[derive(Default)]
                            pub struct FirstObject;"#,
                        ),
                        Item::new(
                            r#"impl FirstObject {
                                fn rust_method(&self) {

                                }
                            }"#,
                        ),
                    ],
                },
            },
            GeneratedRustQObject {
                cpp_struct_ident: Ident::new("SecondObjectQt"),
                cxx_qt_thread_ident: Ident::new("SecondObjectCxxQtThread"),
                namespace_internals: "cxx_qt::cxx_qt_second_object".to_owned(),
                rust_struct_ident: Ident::new("SecondObject"),
                blocks: GeneratedRustQObjectBlocks {
                    cxx_mod_contents: vec![
                        Item::new(
                            r#"unsafe extern "C++" {
                                #[cxx_name = "SecondObject"]
                                type SecondObjectQt;
                            }"#,
                        ),
                        Item::new(
                            r#"extern "Rust" {
                                #[cxx_name = "SecondObjectRust"]
                                type SecondObject;
                            }"#,
                        ),
                    ],
                    cxx_qt_mod_contents: vec![
                        Item::new(
                            r#"#[derive(Default)]
                            pub struct SecondObject;"#,
                        ),
                        Item::new(
                            r#"impl SecondObject {
                                fn rust_method(&self) {

                                }
                            }"#,
                        ),
                    ],
                },
            },
        ],
    }
}

/// Helper for the expected Rust
fn expected_rust() -> String {
    tokens(
        r#"
            #[cxx::bridge(namespace = "cxx_qt::my_object")]
            mod ffi {
                unsafe extern "C++" {
                    include ! (< QtCore / QObject >);
                    include!("cxx-qt-lib/include/convert.h");
                    include!("cxx-qt-lib/include/cxxqt_thread.h");
                }

                unsafe extern "C++" {
                    include!("myobject.cxxqt.h");
                }

                unsafe extern "C++" {
                    #[cxx_name = "MyObject"]
                    type MyObjectQt;
                }

                extern "Rust" {
                    #[cxx_name = "MyObjectRust"]
                    type MyObject;
                }

                unsafe extern "C++" {
                    type MyObjectCxxQtThread;

                    #[cxx_name = "unsafeRust"]
                    fn rust(self: &MyObjectQt) -> &MyObject;

                    #[cxx_name = "qtThread"]
                    fn qt_thread(self: &MyObjectQt) -> UniquePtr<MyObjectCxxQtThread>;
                    fn queue(self: &MyObjectCxxQtThread, func: fn(ctx: Pin<&mut MyObjectQt>)) -> Result<()>;

                    #[rust_name = "new_cpp_object_my_object_qt"]
                    #[namespace = "cxx_qt::my_object::cxx_qt_my_object"]
                    fn newCppObject() -> UniquePtr<MyObjectQt>;
                }

                extern "C++" {
                    #[cxx_name = "unsafeRustMut"]
                    unsafe fn rust_mut(self: Pin<&mut MyObjectQt>) -> Pin<&mut MyObject>;
                }

                extern "Rust" {
                    #[cxx_name = "createRs"]
                    #[namespace = "cxx_qt::my_object::cxx_qt_my_object"]
                    fn create_rs_my_object() -> Box<MyObject>;
                }
            }

            pub use self::cxx_qt_ffi::*;
            mod cxx_qt_ffi {
                use super::ffi::*;
                use std::pin::Pin;

                type UniquePtr<T> = cxx::UniquePtr<T>;

                use module::Struct;

                #[derive(Default)]
                pub struct MyObject;

                impl MyObject {
                    fn rust_method(&self) {

                    }
                }

                unsafe impl Send for MyObjectCxxQtThread {}

                pub fn create_rs_my_object() -> std::boxed::Box<MyObject> {
                    std::default::Default::default()
                }
            }
        "#,
    )
}

/// Helper for the expected Rust with multiple qobjects
fn expected_rust_multi_qobjects() -> String {
    tokens(
        r#"
            #[cxx::bridge(namespace = "cxx_qt")]
            mod ffi {
                unsafe extern "C++" {
                    include ! (< QtCore / QObject >);
                    include!("cxx-qt-lib/include/convert.h");
                    include!("cxx-qt-lib/include/cxxqt_thread.h");
                }

                unsafe extern "C++" {
                    include!("multiobject.cxxqt.h");
                }

                unsafe extern "C++" {
                    #[cxx_name = "FirstObject"]
                    type FirstObjectQt;
                }

                extern "Rust" {
                    #[cxx_name = "FirstObjectRust"]
                    type FirstObject;
                }

                unsafe extern "C++" {
                    type FirstObjectCxxQtThread;

                    #[cxx_name = "unsafeRust"]
                    fn rust(self: &FirstObjectQt) -> &FirstObject;

                    #[cxx_name = "qtThread"]
                    fn qt_thread(self: &FirstObjectQt) -> UniquePtr<FirstObjectCxxQtThread>;
                    fn queue(self: &FirstObjectCxxQtThread, func: fn(ctx: Pin<&mut FirstObjectQt>)) -> Result<()>;

                    #[rust_name = "new_cpp_object_first_object_qt"]
                    #[namespace = "cxx_qt::cxx_qt_first_object"]
                    fn newCppObject() -> UniquePtr<FirstObjectQt>;
                }

                extern "C++" {
                    #[cxx_name = "unsafeRustMut"]
                    unsafe fn rust_mut(self: Pin<&mut FirstObjectQt>) -> Pin<&mut FirstObject>;
                }

                extern "Rust" {
                    #[cxx_name = "createRs"]
                    #[namespace = "cxx_qt::cxx_qt_first_object"]
                    fn create_rs_first_object() -> Box<FirstObject>;
                }
                unsafe extern "C++" {
                    #[cxx_name = "SecondObject"]
                    type SecondObjectQt;
                }

                extern "Rust" {
                    #[cxx_name = "SecondObjectRust"]
                    type SecondObject;
                }

                unsafe extern "C++" {
                    type SecondObjectCxxQtThread;

                    #[cxx_name = "unsafeRust"]
                    fn rust(self: &SecondObjectQt) -> &SecondObject;

                    #[cxx_name = "qtThread"]
                    fn qt_thread(self: &SecondObjectQt) -> UniquePtr<SecondObjectCxxQtThread>;
                    fn queue(self: &SecondObjectCxxQtThread, func: fn(ctx: Pin<&mut SecondObjectQt>)) -> Result<()>;

                    #[rust_name = "new_cpp_object_second_object_qt"]
                    #[namespace = "cxx_qt::cxx_qt_second_object"]
                    fn newCppObject() -> UniquePtr<SecondObjectQt>;
                }

                extern "C++" {
                    #[cxx_name = "unsafeRustMut"]
                    unsafe fn rust_mut(self: Pin<&mut SecondObjectQt>) -> Pin<&mut SecondObject>;
                }

                extern "Rust" {
                    #[cxx_name = "createRs"]
                    #[namespace = "cxx_qt::cxx_qt_second_object"]
                    fn create_rs_second_object() -> Box<SecondObject>;
                }
            }

            pub use self::cxx_qt_ffi::*;
            mod cxx_qt_ffi {
                use super::ffi::*;
                use std::pin::Pin;

                type UniquePtr<T> = cxx::UniquePtr<T>;

                use module::Struct;

                #[derive(Default)]
                pub struct FirstObject;

                impl FirstObject {
                    fn rust_method(&self) {

                    }
                }

                unsafe impl Send for FirstObjectCxxQtThread {}

                pub fn create_rs_first_object() -> std::boxed::Box<FirstObject> {
                    std::default::Default::default()
                }

                #[derive(Default)]
                pub struct SecondObject;

                impl SecondObject {
                    fn rust_method(&self) {

                    }
                }

                unsafe impl Send for SecondObjectCxxQtThread {}

                pub fn create_rs_second_object() -> std::boxed::Box<SecondObject> {
                    std::default::Default::default()
                }
            }
        "#,
    )
}

#[test]
fn test_write_rust() {
    let generated = create_generated_rust();
    let result = write_rust(&generated).expect("the bridge is written");
    assert_eq!(tokens(&result.to_tokens()), expected_rust());
}

#[test]
fn test_write_rust_multi_qobjects() {
    let generated = create_generated_rust_multi_qobjects();
    let result = write_rust(&generated).expect("the bridge is written");
    assert_eq!(tokens(&result.to_tokens()), expected_rust_multi_qobjects());
}

#[test]
fn writing_twice_gives_the_same() {
    let generated = create_generated_rust_multi_qobjects();
    let first = write_rust(&generated);
    let second = write_rust(&generated);
    assert_eq!(first, second);
    assert_eq!(
        first.expect("the bridge is written").to_tokens(),
        second.expect("the bridge is written").to_tokens()
    );
}

#[test]
fn every_written_item_parses() {
    let result = write_rust(&create_generated_rust_multi_qobjects()).expect("the bridge is written");
    for item in result.bridge.items.iter().chain(result.implementation.items.iter()) {
        assert!(syn::parse_str::<syn::Item>(&item.tokens).is_ok());
    }
    assert!(syn::parse_str::<syn::File>(&result.to_tokens()).is_ok());
}
