use async_bindgen::api_parse::{function_from_signature, parse_annotated_function, ApiError, Api};
use async_bindgen::derive_glue::{
    call_name, ffi_wrapper_name, generate_wrapper, parse_gen_api, ret_name, type_from_name,
    type_from_path_and_name,
};
use async_bindgen::genesis::{
    glue_is_complete, join_glue_functions, DartFunctionInputs, DartFunctionSignature,
};
use async_bindgen::interface::{InterfaceDescription, Language, ParsedArgument, ParsedSignature};
use async_bindgen::interface::SignatureError;

fn assert_rust_code_eq(left: &str, right: &str) {
    let left_syn: syn::File = syn::parse_str(left).expect("parsing left failed");
    let right_syn: syn::File = syn::parse_str(right).expect("parsing right failed");
    if left_syn != right_syn {
        panic!("Code is not AST equal.\nLEFT: {}\nRIGHT: {}", left, right);
    }
}

fn test_codegen(func: &str, expected_expanded_code: &str, expected_file_code: &str) {
    let (result, offences) = parse_gen_api("", func).unwrap();
    assert!(offences.is_empty());
    let content = result.file_content().to_string();
    assert_eq!(result.ext_file_name(), "bar_foot.rs");
    let expansion = result.into_proc_macro_result();
    assert_rust_code_eq(&expansion, expected_expanded_code);
    assert_rust_code_eq(&content, expected_file_code);
}

#[test]
fn test_codegen_no_arguments() {
    test_codegen(
        r#"
        impl BarFoot {
            pub async fn dodo() -> *const u8 { todo!() }
        }
    "#,
        r#"
        impl BarFoot {
            pub async fn dodo() -> *const u8 { todo!() }
        }

        use crate::bar_foot::BarFoot;
    "#,
        r##"
        #![doc(hidden)]
        pub struct BarFoot;
        #[doc = r" Initializes the dart api."]
        #[doc = r""]
        #[doc = r" Is safe to be called multiple times and form multiple"]
        #[doc = r" thread."]
        #[doc = r""]
        #[doc = r" # Safety"]
        #[doc = r""]
        #[doc = r" Must be called with a pointer produced by dart using"]
        #[doc = r" `NativeApi.initializeApiDLData`."]
        #[no_mangle]
        pub unsafe extern "C" fn async_bindgen_dart_init_api__bar_foot(
            init_data: *mut ::std::ffi::c_void
        ) -> u8 {
            unsafe { ::async_bindgen::dart::initialize_dart_api_dl(init_data) }
        }
        #[doc = r" Wrapper for initiating the call to an async function."]
        #[no_mangle]
        pub extern "C" fn async_bindgen_dart_c__bar_foot__dodo(
            async_bindgen_dart_port_id: ::async_bindgen::dart::DartPortId,
            async_bindgen_dart_completer_id: i64
        ) -> u8 {
            match ::async_bindgen::dart::PreparedCompleter::new(
                async_bindgen_dart_port_id,
                async_bindgen_dart_completer_id
            ) {
                Ok(completer) => {
                    completer.spawn(BarFoot::dodo());
                    1
                }
                Err(_) => 0
            }
        }
        #[doc = r#" Extern "C"  wrapper delegating to `PreparedCompleter::extract_result()`."#]
        #[doc = r""]
        #[doc = r" # Safety"]
        #[doc = r""]
        #[doc = r" See the language specific version of `PreparedCompleter::extract_result()`."]
        #[no_mangle]
        pub unsafe extern "C" fn async_bindgen_dart_r__bar_foot__dodo(handle: i64) -> *const u8 {
            unsafe { ::async_bindgen::dart::PreparedCompleter::extract_result(handle) }
        }
    "##,
    );
}

#[test]
fn test_codegen_multiple_arguments() {
    test_codegen(
        r#"
        impl BarFoot {
            pub async fn dork(x: i32, y: *const i32) -> isize { todo!() }
        }
    "#,
        r#"
        impl BarFoot {
            pub async fn dork(x: i32, y: *const i32) -> isize { todo!() }
        }

        use crate::bar_foot::BarFoot;
    "#,
        r##"
        #![doc(hidden)]
        pub struct BarFoot;
        #[doc = r" Initializes the dart api."]
        #[doc = r""]
        #[doc = r" Is safe to be called multiple times and form multiple"]
        #[doc = r" thread."]
        #[doc = r""]
        #[doc = r" # Safety"]
        #[doc = r""]
        #[doc = r" Must be called with a pointer produced by dart using"]
        #[doc = r" `NativeApi.initializeApiDLData`."]
        #[no_mangle]
        pub unsafe extern "C" fn async_bindgen_dart_init_api__bar_foot(
            init_data: *mut ::std::ffi::c_void
        ) -> u8 {
            unsafe { ::async_bindgen::dart::initialize_dart_api_dl(init_data) }
        }
        #[doc = r" Wrapper for initiating the call to an async function."]
        #[no_mangle]
        pub extern "C" fn async_bindgen_dart_c__bar_foot__dork(
            x: i32,
            y: *const i32,
            async_bindgen_dart_port_id: ::async_bindgen::dart::DartPortId,
            async_bindgen_dart_completer_id: i64
        ) -> u8 {
            match ::async_bindgen::dart::PreparedCompleter::new(
                async_bindgen_dart_port_id,
                async_bindgen_dart_completer_id
            ) {
                Ok(completer) => {
                    completer.spawn(BarFoot::dork(x, y));
                    1
                }
                Err(_) => 0
            }
        }
        #[doc = r#" Extern "C"  wrapper delegating to `PreparedCompleter::extract_result()`."#]
        #[doc = r""]
        #[doc = r" # Safety"]
        #[doc = r""]
        #[doc = r" See the language specific version of `PreparedCompleter::extract_result()`."]
        #[no_mangle]
        pub unsafe extern "C" fn async_bindgen_dart_r__bar_foot__dork(handle: i64) -> isize {
            unsafe { ::async_bindgen::dart::PreparedCompleter::extract_result(handle) }
        }
    "##,
    );
}

#[test]
fn test_codegen_multiple_functions() {
    test_codegen(
        r#"
        impl BarFoot {
            pub async fn dodo() -> *const u8 { todo!() }
            pub async fn dork(x: i32, y: *const i32) -> isize { todo!() }
        }
    "#,
        r#"
        impl BarFoot {
            pub async fn dodo() -> *const u8 { todo!() }
            pub async fn dork(x: i32, y: *const i32) -> isize { todo!() }
        }

        use crate::bar_foot::BarFoot;
    "#,
        r##"
        #![doc(hidden)]
        pub struct BarFoot;
        #[doc = r" Initializes the dart api."]
        #[doc = r""]
        #[doc = r" Is safe to be called multiple times and form multiple"]
        #[doc = r" thread."]
        #[doc = r""]
        #[doc = r" # Safety"]
        #[doc = r""]
        #[doc = r" Must be called with a pointer produced by dart using"]
        #[doc = r" `NativeApi.initializeApiDLData`."]
        #[no_mangle]
        pub unsafe extern "C" fn async_bindgen_dart_init_api__bar_foot(
            init_data: *mut ::std::ffi::c_void
        ) -> u8 {
            unsafe { ::async_bindgen::dart::initialize_dart_api_dl(init_data) }
        }
        #[doc = r" Wrapper for initiating the call to an async function."]
        #[no_mangle]
        pub extern "C" fn async_bindgen_dart_c__bar_foot__dodo(
            async_bindgen_dart_port_id: ::async_bindgen::dart::DartPortId,
            async_bindgen_dart_completer_id: i64
        ) -> u8 {
            match ::async_bindgen::dart::PreparedCompleter::new(
                async_bindgen_dart_port_id,
                async_bindgen_dart_completer_id
            ) {
                Ok(completer) => {
                    completer.spawn(BarFoot::dodo());
                    1
                }
                Err(_) => 0
            }
        }
        #[doc = r#" Extern "C"  wrapper delegating to `PreparedCompleter::extract_result()`."#]
        #[doc = r""]
        #[doc = r" # Safety"]
        #[doc = r""]
        #[doc = r" See the language specific version of `PreparedCompleter::extract_result()`."]
        #[no_mangle]
        pub unsafe extern "C" fn async_bindgen_dart_r__bar_foot__dodo(handle: i64) -> *const u8 {
            unsafe { ::async_bindgen::dart::PreparedCompleter::extract_result(handle) }
        }
        #[doc = r" Wrapper for initiating the call to an async function."]
        #[no_mangle]
        pub extern "C" fn async_bindgen_dart_c__bar_foot__dork(
            x: i32,
            y: *const i32,
            async_bindgen_dart_port_id: ::async_bindgen::dart::DartPortId,
            async_bindgen_dart_completer_id: i64
        ) -> u8 {
            match ::async_bindgen::dart::PreparedCompleter::new(
                async_bindgen_dart_port_id,
                async_bindgen_dart_completer_id
            ) {
                Ok(completer) => {
                    completer.spawn(BarFoot::dork(x, y));
                    1
                }
                Err(_) => 0
            }
        }
        #[doc = r#" Extern "C"  wrapper delegating to `PreparedCompleter::extract_result()`."#]
        #[doc = r""]
        #[doc = r" # Safety"]
        #[doc = r""]
        #[doc = r" See the language specific version of `PreparedCompleter::extract_result()`."]
        #[no_mangle]
        pub unsafe extern "C" fn async_bindgen_dart_r__bar_foot__dork(handle: i64) -> isize {
            unsafe { ::async_bindgen::dart::PreparedCompleter::extract_result(handle) }
        }
    "##,
    );
}

#[test]
fn glue_names_and_paths() {
    assert_eq!(call_name("bar_foot", "dork"), "async_bindgen_dart_c__bar_foot__dork");
    assert_eq!(ret_name("bar_foot", "dork"), "async_bindgen_dart_r__bar_foot__dork");
    assert_eq!(type_from_path_and_name("::a::b", "C"), "::a::b::C");
    assert_eq!(type_from_path_and_name("", "i64"), "i64");
    assert_eq!(type_from_name("i64"), type_from_path_and_name("", "i64"));
}

fn offences(attrs: &str, item: &str) -> Vec<ApiError> {
    Api::parse(attrs, item).unwrap().1
}

#[test]
fn api_errors() {
    assert_eq!(Api::parse("name = \"x\"", "impl A {}").err(), Some(vec![ApiError::UnsupportedOption]));
    assert_eq!(Api::parse("a = 1, b = 2,", "impl A {}").err(), Some(vec![ApiError::UnsupportedOption]));
    assert_eq!(Api::parse("use std::ffi::c_void;", "impl A {}").err(), Some(vec![ApiError::Syntax]));
    assert_eq!(Api::parse("", "fn a() {}").err(), Some(vec![ApiError::Syntax]));
    assert_eq!(Api::parse("", "impl Vec<u8> {}").err(), Some(vec![ApiError::UnsupportedSelfType]));
    assert_eq!(offences("", "impl A { fn a() {} }"), vec![ApiError::NotAsync]);
    assert_eq!(offences("", "impl A { const X: u8 = 1; }"), vec![ApiError::NotAFunction]);
    assert_eq!(
        offences("", "impl A { async fn a(&self) {} }"),
        vec![ApiError::Signature(SignatureError::SelfReceiver)]
    );
    let (api, found) =
        Api::parse("", "impl A { fn a(&self, (x, y): (u8, u8), z: u8) {} async fn b(self) {} }").unwrap();
    assert_eq!(
        found,
        vec![
            ApiError::NotAsync,
            ApiError::Signature(SignatureError::SelfReceiver),
            ApiError::Signature(SignatureError::PatternArgument),
            ApiError::Signature(SignatureError::SelfReceiver),
        ]
    );
    assert_eq!(api.functions().len(), 2);
    assert_eq!(api.functions()[0].name(), "a");
    assert_eq!(api.functions()[0].inputs().len(), 1);
    assert_eq!(api.functions()[0].inputs()[0].name(), "z");
    assert_eq!(api.functions()[1].inputs().len(), 0);
    let (api, found) = Api::parse("", "impl HttpApi { async fn a(x: u8) -> u8 { x } }").unwrap();
    assert!(found.is_empty());
    assert_eq!(api.type_ident(), "HttpApi");
    assert_eq!(api.mod_name(), "http_api");
    assert_eq!(api.functions().len(), 1);
}

#[test]
fn spawning_wrapper_of_a_function() {
    let ifd = InterfaceDescription::parse("async fn dork(x: i32, y: *const i32) -> i64").unwrap();
    let func = &ifd.functions()[0];
    assert_eq!(ffi_wrapper_name(func, Language::Dart), "_async_bindgen_dart_w__dork");
    assert_rust_code_eq(
        &generate_wrapper(func, Language::Dart),
        r#"
        #[no_mangle]
        extern "C" fn _async_bindgen_dart_w__dork(
            x: i32,
            y: *const i32,
            async_bindgen_dart_port_id: ::async_bindgen::dart::DartPortId,
            async_bindgen_dart_completer_id: i64
        ) -> isize {
            let completer = match ::async_bindgen::dart::PreparedCompleter::new(
                async_bindgen_dart_port_id,
                async_bindgen_dart_completer_id
            ) {
                Ok(c) => c,
                Err(_) => return -1,
            };
            let bound = completer.bind_future(dork(x, y));
            ::async_bindgen::dart::spawn(bound);
        }
    "#,
    );
}

fn dart_fn(name: String, output: &str, inputs: Vec<(&str, &str)>) -> DartFunctionSignature {
    DartFunctionSignature {
        doc: vec![],
        name,
        output: output.to_string(),
        inputs: inputs
            .into_iter()
            .map(|(n, t)| DartFunctionInputs { name: n.to_string(), typ: t.to_string() })
            .collect(),
    }
}

#[test]
fn generated_glue_names_are_sniffed_back() {
    let call = dart_fn(call_name("api2", "get_the_byte"), "int", vec![]);
    let ret = dart_fn(ret_name("api2", "get_the_byte"), "int", vec![("handle", "int")]);
    let fs = vec![call, ret];
    assert!(glue_is_complete(&fs));
    let sigs = join_glue_functions(&fs);
    assert_eq!(sigs.len(), 1);
    assert_eq!(sigs[0].name, "api2__get_the_byte");
    assert_eq!(sigs[0].ffi_call_name, "async_bindgen_dart_c__api2__get_the_byte");
    assert_eq!(sigs[0].ffi_ret_name, "async_bindgen_dart_r__api2__get_the_byte");
}

#[test]
fn annotated_function_item() {
    let (f, found) = parse_annotated_function("pub async fn dork(x: i32, y: *const i32) -> i64 { 0 }");
    assert!(found.is_empty());
    let f = f.unwrap();
    assert_eq!(f.name(), "dork");
    assert_eq!(f.inputs().len(), 2);
    assert_eq!(f.inputs()[0].name(), "x");
    assert_eq!(f.inputs()[1].typ(), "* const i32");
    assert_eq!(f.return_type(), Some("i64"));
    let (f, found) = parse_annotated_function("struct A;");
    assert!(f.is_none());
    assert_eq!(found, vec![ApiError::NotAFunction]);
    let (f, found) = parse_annotated_function("fn a(x: u8) {}");
    assert_eq!(f.unwrap().inputs()[0].name(), "x");
    assert_eq!(found, vec![ApiError::NotAsync]);
    let (f, found) = parse_annotated_function("not rust at all (");
    assert!(f.is_none());
    assert_eq!(found, vec![ApiError::Syntax]);
}

#[test]
fn every_offence_of_a_signature_is_reported() {
    let typed = |ident: Option<&str>| ParsedArgument::Typed {
        ident: ident.map(|i| i.to_string()),
        ty: "u8".to_string(),
    };
    let sig = ParsedSignature {
        is_async: false,
        name: "a".to_string(),
        output: None,
        inputs: vec![ParsedArgument::Receiver, typed(Some("x")), typed(None)],
    };
    let (f, found) = function_from_signature(&sig);
    assert_eq!(
        found,
        vec![
            ApiError::NotAsync,
            ApiError::Signature(SignatureError::SelfReceiver),
            ApiError::Signature(SignatureError::PatternArgument),
        ]
    );
    assert_eq!(f.inputs().len(), 1);
    assert_eq!(f.inputs()[0].name(), "x");
    let sig = ParsedSignature {
        is_async: true,
        name: "a".to_string(),
        output: Some("u8".to_string()),
        inputs: vec![typed(Some("x"))],
    };
    let (f, found) = function_from_signature(&sig);
    assert!(found.is_empty());
    assert_eq!(f.name(), "a");
    assert_eq!(f.inputs()[0].name(), "x");
    assert_eq!(f.return_type(), Some("u8"));
}
