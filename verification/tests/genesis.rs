use async_bindgen::genesis::{
    glue_is_complete, signatures_from_matches, captures_as_trimmed_lines, sniff_captures, AsyncFunctionSignature, DartFunctionInputs,
    DartFunctionSignature, DartSignatureMatch,
};

static TEST_DART_SRC: &str = r#"/// Foobar
        ///
        /// # Errors
        ///
        /// The foo errors
        /// - With the bar
        int async_bindgen_dart_c__function_1_magic(
            ffi.Pointer<CFoo> foo,
            ffi.Pointer<CBar> bar,
        ) {
            return _async_bindgen_dart_c__function_1_magic(
                foo,
                bar,
            );
        }

        ffi.Pointer<CustomCType> async_bindgen_dart_r__function_1_magic(
            int handle,
        ) {
            return _async_bindgen_dart_r__function_1_magic(
                handle,
            );
        }

        /// Serializes
        ///
        /// # Safety
        ///
        /// The behavior is undefined if:
        /// - I'm a dog.
        /// - I'm not a dog.
        int async_bindgen_dart_c__function_2_magic(
            double a,
        ) {
            return _async_bindgen_dart_w__function_2_magic(
                a,
            );
        }

        int async_bindgen_dart_r__function_2_magic(
            int handle,
        ) {
            return _async_bindgen_dart_r__function_2_magic(
                handle,
            );
        }
    "#;

#[test]
fn test_sniffing() {
    let mut sigs = AsyncFunctionSignature::sniff_dart_signatures(TEST_DART_SRC);
    assert_eq!(sigs.len(), 2);

    sigs.sort_by(|f1, f2| f1.name.cmp(&f2.name));

    let f1m = &sigs[0];
    assert_eq!(&f1m.name, "function_1_magic");
    assert_eq!(&f1m.ffi_call_name, "async_bindgen_dart_c__function_1_magic");
    assert_eq!(&f1m.ffi_ret_name, "async_bindgen_dart_r__function_1_magic");
    assert_eq!(&f1m.output, "ffi.Pointer<CustomCType>");

    assert_eq!(&f1m.inputs[0].name, "foo");
    assert_eq!(&f1m.inputs[0].typ, "ffi.Pointer<CFoo>");
    assert_eq!(&f1m.inputs[1].name, "bar");
    assert_eq!(&f1m.inputs[1].typ, "ffi.Pointer<CBar>");
    assert_eq!(f1m.inputs.len(), 2);

    assert_eq!(&f1m.doc[0], "/// Foobar");
    assert_eq!(f1m.doc.len(), 6);

    let f2m = &sigs[1];
    assert_eq!(&f2m.name, "function_2_magic");
    assert_eq!(&f2m.ffi_call_name, "async_bindgen_dart_c__function_2_magic");
    assert_eq!(&f2m.ffi_ret_name, "async_bindgen_dart_r__function_2_magic");
    assert_eq!(&f2m.output, "int");

    assert_eq!(&f2m.inputs[0].name, "a");
    assert_eq!(&f2m.inputs[0].typ, "double");
    assert_eq!(f2m.inputs.len(), 1);

    assert_eq!(&f2m.doc[0], "/// Serializes");
    assert_eq!(f2m.doc.len(), 7);
}

fn test_match(
    captures: &DartSignatureMatch,
    doc_comments: Vec<&str>,
    output: &str,
    name: &str,
    inputs: Vec<&str>,
) {
    let found_doc_comments = captures_as_trimmed_lines(&captures.doc);
    assert_eq!(found_doc_comments, doc_comments);
    assert_eq!(captures.func_name.as_ref().unwrap().trim(), name);
    assert_eq!(captures.output.as_ref().unwrap().trim(), output);
    let found_args = captures_as_trimmed_lines(&captures.inputs);
    assert_eq!(found_args, inputs);
}

#[test]
fn test_regex_matches_function_sig() {
    let captures = sniff_captures(TEST_DART_SRC).unwrap();

    assert_eq!(captures.len(), 4);

    test_match(
        &captures[0],
        vec![
            "/// Foobar",
            "///",
            "/// # Errors",
            "///",
            "/// The foo errors",
            "/// - With the bar",
        ],
        "int",
        "async_bindgen_dart_c__function_1_magic",
        vec!["ffi.Pointer<CFoo> foo,", "ffi.Pointer<CBar> bar,"],
    );

    test_match(
        &captures[1],
        vec![],
        "ffi.Pointer<CustomCType>",
        "async_bindgen_dart_r__function_1_magic",
        vec!["int handle,"],
    );

    test_match(
        &captures[2],
        vec![
            "/// Serializes",
            "///",
            "/// # Safety",
            "///",
            "/// The behavior is undefined if:",
            "/// - I'm a dog.",
            "/// - I'm not a dog.",
        ],
        "int",
        "async_bindgen_dart_c__function_2_magic",
        vec!["double a,"],
    );

    test_match(
        &captures[3],
        vec![],
        "int",
        "async_bindgen_dart_r__function_2_magic",
        vec!["int handle,"],
    );
}

fn glue_fn(name: &str, output: &str, inputs: &[(&str, &str)]) -> DartFunctionSignature {
    DartFunctionSignature {
        doc: vec![],
        name: name.to_string(),
        output: output.to_string(),
        inputs: inputs
            .iter()
            .map(|(t, n)| DartFunctionInputs { name: n.to_string(), typ: t.to_string() })
            .collect(),
    }
}

fn one_match(func_name: &str, output: &str, inputs: &str) -> DartSignatureMatch {
    DartSignatureMatch {
        doc: Some(String::new()),
        output: Some(output.to_string()),
        func_name: Some(func_name.to_string()),
        inputs: Some(inputs.to_string()),
    }
}

#[test]
fn sniffing_keeps_the_order_of_the_call_functions() {
    let ms = vec![
        one_match("async_bindgen_dart_r__b", "int", "  int handle,\n"),
        one_match("async_bindgen_dart_c__b", "int", ""),
        one_match("async_bindgen_dart_c__a", " int ", "  double x,\n  int y,\n"),
        one_match("async_bindgen_dart_r__a", "double", "  int handle,\n"),
    ];
    let sigs = AsyncFunctionSignature::sniff_from_matches(&ms);
    assert_eq!(sigs.len(), 2);
    assert_eq!(sigs[0].name, "b");
    assert_eq!(sigs[1].name, "a");
    assert_eq!(sigs[1].output, "double");
    assert_eq!(sigs[1].inputs.len(), 2);
    assert_eq!(sigs[1].inputs[1].name, "y");
    assert_eq!(sigs[1].inputs[1].typ, "int");
}

#[test]
fn sniffing_refuses_incomplete_glue() {
    let missing_ret = vec![one_match("async_bindgen_dart_c__a", "int", "")];
    assert!(!glue_is_complete(&signatures_from_matches(&missing_ret)));
    let missing_call = vec![one_match("async_bindgen_dart_r__a", "int", "int handle,\n")];
    assert!(!glue_is_complete(&signatures_from_matches(&missing_call)));
    let twice = vec![
        one_match("async_bindgen_dart_c__a", "int", ""),
        one_match("async_bindgen_dart_c__a", "int", ""),
        one_match("async_bindgen_dart_r__a", "int", "int handle,\n"),
    ];
    assert!(!glue_is_complete(&signatures_from_matches(&twice)));
    let bad_status = vec![
        one_match("async_bindgen_dart_c__a", "double", ""),
        one_match("async_bindgen_dart_r__a", "int", "int handle,\n"),
    ];
    assert!(!glue_is_complete(&signatures_from_matches(&bad_status)));
    let bad_handle = vec![
        one_match("async_bindgen_dart_c__a", "int", ""),
        one_match("async_bindgen_dart_r__a", "int", "double handle,\n"),
    ];
    assert!(!glue_is_complete(&signatures_from_matches(&bad_handle)));
    assert!(AsyncFunctionSignature::try_sniff_dart_signatures("int async_bindgen_dart_c__a(\n) {\n").is_none());
    let src = "int async_bindgen_dart_c__a(\n) {\n\nint async_bindgen_dart_r__a(\n  int handle,\n) {\n";
    let sigs = AsyncFunctionSignature::try_sniff_dart_signatures(src).unwrap();
    assert_eq!(sigs.len(), 1);
    assert_eq!(sigs[0].name, "a");
}

#[test]
fn joining_copies_the_call_and_result_parts() {
    let call = glue_fn("async_bindgen_dart_c__f", "int", &[("double", "a")]);
    let ret = glue_fn("async_bindgen_dart_r__f", "ffi.Pointer<X>", &[("int", "handle")]);
    let joined = AsyncFunctionSignature::from_call_and_ret_func("f".to_string(), call, ret);
    assert_eq!(joined.name, "f");
    assert_eq!(joined.ffi_call_name, "async_bindgen_dart_c__f");
    assert_eq!(joined.ffi_ret_name, "async_bindgen_dart_r__f");
    assert_eq!(joined.output, "ffi.Pointer<X>");
    assert_eq!(joined.inputs[0].typ, "double");
}

#[test]
fn input_lines_without_space_are_skipped() {
    let m = one_match("x", "int", "  ,\n  single,\n  a b c,,\n");
    let sig = DartFunctionSignature::from_captures(&m);
    assert_eq!(sig.inputs.len(), 1);
    assert_eq!(sig.inputs[0].typ, "a b");
    assert_eq!(sig.inputs[0].name, "c");
}
