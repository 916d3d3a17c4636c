//! Generates the Dart extension that turns each pair of glue functions into
//! one method returning a `Future`.

use vstd::prelude::*;
use crate::genesis::{AsyncFunctionSignature, AsyncSignatureModel, DartFunctionInputs, InputModel};
use crate::json::{
    json_array, json_array_of, json_field, json_field_of, json_object, json_object_of,
    json_string, json_string_array, json_string_array_of, json_string_of,
};

verus! {

/// The template of the extension.
pub const DART_SKELETON_TMPL_STR: &'static str = r#"
import 'package:async_bindgen_dart_utils/async_bindgen_dart_utils.dart';

extension {{ffi_class}}AsyncExt on {{ffi_class}} {
    {{#each functions}}
        Future<{{output}}> {{name}}(
            {{#each inputs}}
                {{type}} {{name}},
            {{/each}}
        ) {
            final setup = FfiCompleterRegistry.newCompleter();
            final call_ok = {{ffi_call_name}}(
                {{#each inputs}}
                    {{name}},
                {{/each}}
                setup.portId,
                setup.completerId,
            );
            if (call_ok == 0) {
                //TODO
                throw Exception('failed to setup callbacks');
            }
            setup.extractor = {{ffi_ret_name}};
            return setup.future;
        }
    {{/each}}
}
"#;

/// What the handlebars engine renders from `template` with the data in the
/// JSON text `json_data`, without escaping the values; `None` when the data
/// is not JSON or rendering fails.
pub uninterp spec fn handlebars_render(template: Seq<char>, json_data: Seq<char>) -> Option<Seq<char>>;

/// Parses `json_data` with `serde_json::from_str` into a `serde_json::Value`
/// and renders `template` with it by `handlebars::Handlebars::render_template`
/// on a registry whose escape function is `handlebars::no_escape`.
///
/// Trusted: the contract only names the result, which depends on the two
/// texts alone; what the engine renders is not stated.
#[verifier::external_body]
pub(crate) fn render_template(template: &str, json_data: &str) -> (r: Option<String>)
    ensures
        r.deep_view() == handlebars_render(template@, json_data@),
{
    let data: serde_json::Value = serde_json::from_str(json_data).ok()?;
    let mut registry = handlebars::Handlebars::new();
    registry.register_escape_fn(handlebars::no_escape);
    registry.render_template(template, &data).ok()
}

/// Rendering a template failed.
#[derive(Clone, Copy, PartialEq, Eq, Debug)]
pub struct TemplateError;

/// The JSON data of one parameter: its `name` and `type`.
pub open spec fn input_json(i: InputModel) -> Seq<char> {
    json_object(seq![json_field("name"@, json_string(i.name)), json_field("type"@, json_string(i.typ))])
}

/// The JSON data of one async function, with all its fields.
pub open spec fn signature_json(f: AsyncSignatureModel) -> Seq<char> {
    json_object(
        seq![
            json_field("doc"@, json_string_array(f.doc)),
            json_field("name"@, json_string(f.name)),
            json_field("ffi_call_name"@, json_string(f.ffi_call_name)),
            json_field("ffi_ret_name"@, json_string(f.ffi_ret_name)),
            json_field("output"@, json_string(f.output)),
            json_field("inputs"@, json_array(f.inputs.map_values(|i: InputModel| input_json(i)))),
        ],
    )
}

/// The data the extension template is rendered with: the FFI class name and
/// the functions.
pub open spec fn extension_context(ffi_class: Seq<char>, fs: Seq<AsyncSignatureModel>) -> Seq<char> {
    json_object(
        seq![
            json_field("ffi_class"@, json_string(ffi_class)),
            json_field(
                "functions"@,
                json_array(fs.map_values(|f: AsyncSignatureModel| signature_json(f))),
            ),
        ],
    )
}

/// The JSON data of one parameter.
fn input_json_of(i: &DartFunctionInputs) -> (r: String)
    ensures
        r@ == input_json(i@),
{
    let name = json_string_of(i.name.as_str());
    let typ = json_string_of(i.typ.as_str());
    let fields = vec![json_field_of("name", name.as_str()), json_field_of("type", typ.as_str())];
    assert(fields.deep_view() =~= seq![
        json_field("name"@, json_string(i.name@)),
        json_field("type"@, json_string(i.typ@)),
    ]);
    json_object_of(&fields)
}

/// The JSON array of the parameters.
fn inputs_json_of(v: &Vec<DartFunctionInputs>) -> (r: String)
    ensures
        r@ == json_array(v.deep_view().map_values(|i: InputModel| input_json(i))),
{
    let ghost all = v.deep_view();
    let mut values: Vec<String> = Vec::new();
    let mut k: usize = 0;
    while k < v.len()
        invariant
            all == v.deep_view(),
            k <= all.len(),
            values.deep_view() == all.take(k as int).map_values(|i: InputModel| input_json(i)),
        decreases all.len() - k,
    {
        let j = input_json_of(&v[k]);
        let ghost prev = values.deep_view();
        values.push(j);
        assert(values.deep_view() =~= prev.push(input_json(all[k as int])));
        assert(all.take(k + 1).map_values(|i: InputModel| input_json(i)) =~= all.take(
            k as int,
        ).map_values(|i: InputModel| input_json(i)).push(input_json(all[k as int])));
        k = k + 1;
    }
    assert(all.take(k as int) =~= all);
    json_array_of(&values)
}

/// The JSON data of one async function.
pub fn signature_json_of(f: &AsyncFunctionSignature) -> (r: String)
    ensures
        r@ == signature_json(f@),
{
    let doc = json_string_array_of(&f.doc);
    let name = json_string_of(f.name.as_str());
    let call = json_string_of(f.ffi_call_name.as_str());
    let ret = json_string_of(f.ffi_ret_name.as_str());
    let output = json_string_of(f.output.as_str());
    let inputs = inputs_json_of(&f.inputs);
    let fields = vec![
        json_field_of("doc", doc.as_str()),
        json_field_of("name", name.as_str()),
        json_field_of("ffi_call_name", call.as_str()),
        json_field_of("ffi_ret_name", ret.as_str()),
        json_field_of("output", output.as_str()),
        json_field_of("inputs", inputs.as_str()),
    ];
    assert(fields.deep_view() =~= seq![
        json_field("doc"@, json_string_array(f@.doc)),
        json_field("name"@, json_string(f@.name)),
        json_field("ffi_call_name"@, json_string(f@.ffi_call_name)),
        json_field("ffi_ret_name"@, json_string(f@.ffi_ret_name)),
        json_field("output"@, json_string(f@.output)),
        json_field("inputs"@, json_array(f@.inputs.map_values(|i: InputModel| input_json(i)))),
    ]);
    json_object_of(&fields)
}

/// The JSON array of the async functions.
pub fn signatures_json_of(fs: &Vec<AsyncFunctionSignature>) -> (r: String)
    ensures
        r@ == json_array(fs.deep_view().map_values(|f: AsyncSignatureModel| signature_json(f))),
{
    let ghost all = fs.deep_view();
    let mut values: Vec<String> = Vec::new();
    let mut k: usize = 0;
    while k < fs.len()
        invariant
            all == fs.deep_view(),
            k <= all.len(),
            values.deep_view() == all.take(k as int).map_values(
                |f: AsyncSignatureModel| signature_json(f),
            ),
        decreases all.len() - k,
    {
        let j = signature_json_of(&fs[k]);
        let ghost prev = values.deep_view();
        values.push(j);
        assert(values.deep_view() =~= prev.push(signature_json(all[k as int])));
        assert(all.take(k + 1).map_values(|f: AsyncSignatureModel| signature_json(f)) =~= all.take(
            k as int,
        ).map_values(|f: AsyncSignatureModel| signature_json(f)).push(signature_json(all[k as int])));
        k = k + 1;
    }
    assert(all.take(k as int) =~= all);
    json_array_of(&values)
}

/// The data the extension template is rendered with.
pub fn extension_context_of(ffi_class: &str, functions: &Vec<AsyncFunctionSignature>) -> (r: String)
    ensures
        r@ == extension_context(ffi_class@, functions.deep_view()),
{
    let class = json_string_of(ffi_class);
    let fs = signatures_json_of(functions);
    let fields = vec![json_field_of("ffi_class", class.as_str()), json_field_of("functions", fs.as_str())];
    assert(fields.deep_view() =~= seq![
        json_field("ffi_class"@, json_string(ffi_class@)),
        json_field(
            "functions"@,
            json_array(functions.deep_view().map_values(|f: AsyncSignatureModel| signature_json(f))),
        ),
    ]);
    json_object_of(&fields)
}

/// The Dart extension of class `ffi_class` with one method per async
/// function.
pub fn generate(ffi_class: &str, functions: &Vec<AsyncFunctionSignature>) -> (r: Result<
    String,
    TemplateError,
>)
    ensures
        match handlebars_render(
            DART_SKELETON_TMPL_STR@,
            extension_context(ffi_class@, functions.deep_view()),
        ) {
            Some(text) => r matches Ok(out) && out@ == text,
            None => r is Err,
        },
{
    let data = extension_context_of(ffi_class, functions);
    match render_template(DART_SKELETON_TMPL_STR, data.as_str()) {
        Some(text) => Ok(text),
        None => Err(TemplateError),
    }
}

} // verus!
