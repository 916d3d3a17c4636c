use async_bindgen::dart_ext::{extension_context_of, generate};
use async_bindgen::genesis::{AsyncFunctionSignature, DartFunctionInputs};
use async_bindgen::text::trimmed_non_empty_lines;

fn assert_trimmed_line_eq(left: &str, right: &str) {
    let left = trimmed_non_empty_lines(left);
    let right = trimmed_non_empty_lines(right);
    for (l, r) in left.iter().zip(right.iter()) {
        assert_eq!(l, r);
    }
    assert_eq!(left.len(), right.len());
}

#[test]
fn gen_dart_test_rendering_template_works() {
    let functions = vec![
        AsyncFunctionSignature {
            doc: vec![],
            name: "func1".into(),
            ffi_call_name: "c_foobar_func1".into(),
            ffi_ret_name: "r_foobar_func1".into(),
            output: "int".into(),
            inputs: vec![
                DartFunctionInputs { name: "foo".into(), typ: "ffi.Pointer<int>".into() },
                DartFunctionInputs { name: "bar".into(), typ: "double".into() },
            ],
        },
        AsyncFunctionSignature {
            doc: vec![],
            name: "d1".into(),
            ffi_call_name: "foobar_d1c".into(),
            ffi_ret_name: "foobar_d1r".into(),
            output: "ffi.Pointer<AStruct>".into(),
            inputs: vec![],
        },
    ];
    let out = generate("DodoFfi", &functions).unwrap();
    assert_trimmed_line_eq(
        &out,
        "
            import 'package:async_bindgen_dart_utils/async_bindgen_dart_utils.dart';

            extension DodoFfiAsyncExt on DodoFfi {
                Future<int> func1(
                    ffi.Pointer<int> foo,
                    double bar,
                ) {
                    final setup = FfiCompleterRegistry.newCompleter();
                    final call_ok = c_foobar_func1(
                        foo,
                        bar,
                        setup.portId,
                        setup.completerId,
                    );
                    if (call_ok == 0) {
                        //TODO
                        throw Exception('failed to setup callbacks');
                    }
                    setup.extractor = r_foobar_func1;
                    return setup.future;
                }
                Future<ffi.Pointer<AStruct>> d1(
                ) {
                    final setup = FfiCompleterRegistry.newCompleter();
                    final call_ok = foobar_d1c(
                        setup.portId,
                        setup.completerId,
                    );
                    if (call_ok == 0) {
                        //TODO
                        throw Exception('failed to setup callbacks');
                    }
                    setup.extractor = foobar_d1r;
                    return setup.future;
                }
            }
        ",
    );
}

#[test]
fn context_is_exact_json() {
    let functions = vec![AsyncFunctionSignature {
        doc: vec!["/// a \"b\"".into()],
        name: "f".into(),
        ffi_call_name: "c".into(),
        ffi_ret_name: "r".into(),
        output: "int".into(),
        inputs: vec![DartFunctionInputs { name: "x".into(), typ: "double".into() }],
    }];
    let ctx = extension_context_of("Cls", &functions);
    assert_eq!(
        ctx,
        r#"{"ffi_class":"Cls","functions":[{"doc":["/// a \"b\""],"name":"f","ffi_call_name":"c","ffi_ret_name":"r","output":"int","inputs":[{"name":"x","type":"double"}]}]}"#
    );
}

#[test]
fn json_strings_escape_quotes_backslashes_and_controls() {
    let ctx = extension_context_of("a\"b\\c\n\u{1f}", &vec![]);
    assert_eq!(ctx, r#"{"ffi_class":"a\"b\\c\n\u001f","functions":[]}"#);
}

#[test]
fn template_values_are_not_html_escaped() {
    let functions = vec![AsyncFunctionSignature {
        doc: vec![],
        name: "g".into(),
        ffi_call_name: "c_g".into(),
        ffi_ret_name: "r_g".into(),
        output: "ffi.Pointer<A & B>".into(),
        inputs: vec![],
    }];
    let out = generate("K", &functions).unwrap();
    assert!(out.contains("Future<ffi.Pointer<A & B>> g("));
}
