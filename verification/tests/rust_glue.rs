use async_bindgen::interface::{InterfaceDescription, Language, SignatureError};
use async_bindgen::interface::ParsedArgument;
use async_bindgen::rust_glue::{arg_to_expr, generate_token_stream};

fn assert_rust_code_eq(left: &str, right: &str) {
    let left_syn: syn::File = syn::parse_str(left).expect("parsing left failed");
    let right_syn: syn::File = syn::parse_str(right).expect("parsing right failed");
    if left_syn != right_syn {
        panic!("Code is not AST equal.\nLEFT: {}\nRIGHT: {}", left, right);
    }
}

#[test]
fn test_code_equal_ignores_formatting() {
    assert_rust_code_eq("fn a(x: u32) {}", "fn a(\n\tx : u32\n) {}");
}

#[test]
fn test_expected_output() {
    let input = r#"
            async fn dork(x: i32, y: *const i32) -> i64
            async fn dodo()
        "#;

    let mut ifd = InterfaceDescription::empty();

    ifd.parse_functions(input).unwrap();
    assert_eq!(ifd.functions().len(), 2);

    let tokens = generate_token_stream(&ifd, Language::Dart);
    assert_rust_code_eq(
        &tokens,
        r#"
            use easync_rust_dart_io_utils::{spawn, PreparedCompleter, DartPortId};

            #[no_mangle]
            extern "C" fn easync_dart__dork(
                x: i32,
                y: *const i32,
                easync_dart_port_id: DartPortId,
                easync_dart_completer_id: i64
            ) -> isize {
                let completer = match PreparedCompleter::new(easync_dart_port_id, easync_dart_completer_id) {
                    Ok(c) => c,
                    Err(_) => return -1,
                };
                let bound = completer.bind_future(dork(x , y));
                spawn(bound);
            }

            #[no_mangle]
            extern "C" fn easync_dart__dodo(
                easync_dart_port_id: DartPortId,
                easync_dart_completer_id: i64
            ) -> isize {
                let completer = match PreparedCompleter::new(easync_dart_port_id, easync_dart_completer_id) {
                    Ok(c) => c,
                    Err(_) => return -1,
                };
                let bound = completer.bind_future(dodo());
                spawn(bound);
            }
        "#,
    );
}

#[test]
fn parsed_functions_keep_names_types_and_order() {
    let mut ifd = InterfaceDescription::empty();
    ifd.parse_functions("\n  async fn a(x: u8) -> Vec<u8>\n\nfn b()\n").unwrap();
    let fs = ifd.functions();
    assert_eq!(fs.len(), 2);
    assert_eq!(fs[0].name(), "a");
    assert_eq!(fs[0].return_type(), Some("Vec < u8 >"));
    assert_eq!(fs[0].inputs()[0].name(), "x");
    assert_eq!(fs[0].inputs()[0].typ(), "u8");
    assert_eq!(fs[1].name(), "b");
    assert_eq!(fs[1].return_type(), None);
    assert_eq!(fs[0].ffi_wrapper_name(Language::Dart), "easync_dart__a");
}

#[test]
fn parsing_reports_the_failing_line_and_keeps_earlier_functions() {
    let mut ifd = InterfaceDescription::empty();
    let err = ifd.parse_functions("fn a()\n\nfn b(&self)\nfn c()\n").unwrap_err();
    assert_eq!(err.line, 2);
    assert_eq!(err.error, SignatureError::SelfReceiver);
    assert_eq!(ifd.functions().len(), 1);

    let mut ifd = InterfaceDescription::empty();
    let err = ifd.parse_functions("fn a((x, y): (u8, u8))").unwrap_err();
    assert_eq!(err.line, 0);
    assert_eq!(err.error, SignatureError::PatternArgument);

    let mut ifd = InterfaceDescription::empty();
    let err = ifd.parse_functions("fn a(x: u8)\nnot rust").unwrap_err();
    assert_eq!(err.line, 1);
    assert_eq!(err.error, SignatureError::Syntax);
}

#[test]
fn bindings_are_generated_from_the_description() {
    let ifd = InterfaceDescription::parse("async fn f(v: u32)\n").unwrap();
    let text = generate_token_stream(&ifd, Language::Dart);
    assert_rust_code_eq(
        &text,
        r#"
            use easync_rust_dart_io_utils::{spawn, PreparedCompleter, DartPortId};
            #[no_mangle]
            extern "C" fn easync_dart__f(v: u32, easync_dart_port_id: DartPortId, easync_dart_completer_id: i64) -> isize {
                let completer = match PreparedCompleter::new(easync_dart_port_id, easync_dart_completer_id) {
                    Ok(c) => c,
                    Err(_) => return -1,
                };
                let bound = completer.bind_future(f(v));
                spawn(bound);
            }
        "#,
    );
    let err = InterfaceDescription::parse("\nfn g(self)").err().unwrap();
    assert_eq!(err.error, SignatureError::SelfReceiver);
    assert_eq!(
        err.message(),
        "Parsing function signature on line 1 failed: can not wrap methods, but fund self receiver"
    );
    let err = InterfaceDescription::parse("fn g((a, b): (u8, u8))").err().unwrap();
    assert_eq!(
        err.message(),
        "Parsing function signature on line 0 failed: can not wrap functions with patterns in the function arguments"
    );
    let mut src = "\n".repeat(12);
    src.push_str("not rust");
    let err = InterfaceDescription::parse(&src).err().unwrap();
    assert_eq!(err.line, 12);
    assert!(err.message().starts_with("Parsing function signature on line 12 failed: "));
    assert!(err.message().len() > "Parsing function signature on line 12 failed: ".len());
}

#[test]
fn language_names() {
    assert_eq!(Language::Dart.as_str(), "dart");
}

#[test]
fn arguments_passed_on() {
    assert_eq!(arg_to_expr(&ParsedArgument::Receiver), Ok("self".to_string()));
    let named = ParsedArgument::Typed { ident: Some("x".to_string()), ty: "u8".to_string() };
    assert_eq!(arg_to_expr(&named), Ok("x".to_string()));
    let pattern = ParsedArgument::Typed { ident: None, ty: "(u8, u8)".to_string() };
    assert_eq!(arg_to_expr(&pattern), Err(SignatureError::PatternArgument));
}
