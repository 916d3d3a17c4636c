use async_bindgen::dart_api_class::generate as generate_classes;
use async_bindgen::easync_dart::{generate as generate_easync, EasyncDartError};
use async_bindgen::genesis::{AsyncFunctionSignature, DartFunctionInputs, DartFunctionSignature};
use async_bindgen::interface::InterfaceDescription;
use async_bindgen::text::trimmed_non_empty_lines;

fn lines(s: &str) -> Vec<String> {
    trimmed_non_empty_lines(s)
}

#[test]
fn api_classes_are_rendered_per_module() {
    let functions = vec![AsyncFunctionSignature {
        doc: vec![],
        name: "add".into(),
        ffi_call_name: "async_bindgen_dart_c__async_api__add".into(),
        ffi_ret_name: "async_bindgen_dart_r__async_api__add".into(),
        output: "int".into(),
        inputs: vec![DartFunctionInputs { name: "x".into(), typ: "int".into() }],
    }];
    let mods = vec![("async_api".to_string(), functions)];
    let out = generate_classes("genesis.ffigen.dart", "IntegrationTestsFfi", &mods).unwrap();
    let expected = lines(
        "
        import 'dart:ffi' show NativeApi;
        import 'package:async_bindgen_dart_utils/async_bindgen_dart_utils.dart'
            show CouldNotInitializeDartApiError, FfiCompleterRegistry;
        // ignore: always_use_package_imports
        import 'genesis.ffigen.dart' show IntegrationTestsFfi;
        class AsyncApi {
            final IntegrationTestsFfi _inner;
            AsyncApi(this._inner) {
                final status = _inner.async_bindgen_dart_init_api__async_api(NativeApi.initializeApiDLData);
                if (status != 1) {
                    throw CouldNotInitializeDartApiError();
                }
            }
            Future<int> add(
                int x,
            ) {
                final setup = FfiCompleterRegistry.newCompleter(
                    extractor: _inner.async_bindgen_dart_r__async_api__add,
                );
                final callOk = _inner.async_bindgen_dart_c__async_api__add(
                    x,
                    setup.portId,
                    setup.completerId,
                );
                if (callOk == 0) {
                    //TODO
                    throw Exception('failed to setup callbacks');
                }
                return setup.future;
            }
        }
        ",
    );
    assert_eq!(lines(&out), expected);
    let mods = vec![("api2".to_string(), vec![])];
    let out = generate_classes("genesis.ffigen.dart", "IntegrationTestsFfi", &mods).unwrap();
    assert!(lines(&out).contains(&"class Api2 {".to_string()));
}

#[test]
fn easync_extension_checks_the_bound_wrappers() {
    let ifd = InterfaceDescription::parse("async fn dork(x: i32) -> i64\n").unwrap();
    let sig = DartFunctionSignature {
        doc: vec![],
        name: "easync_dart__dork".into(),
        output: "int".into(),
        inputs: vec![DartFunctionInputs { name: "x".into(), typ: "int".into() }],
    };
    let entries = vec![("easync_dart__dork".to_string(), sig)];
    // The renderer is handed the template's name as its text.
    let out = generate_easync(&ifd, &entries, "Ffi").unwrap();
    assert_eq!(out, "dart_ext_skeleton");

    let missing = generate_easync(&ifd, &vec![], "Ffi").unwrap_err();
    assert_eq!(missing, EasyncDartError::MissingNativeWrapper("dork".to_string()));
    assert_eq!(missing.message(), "No native wrapper was found for function: dork");
}
