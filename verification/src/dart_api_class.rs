//! Generates the Dart classes of the APIs: the imports once, then per API
//! module a class that initializes the Dart API and offers one method per
//! async function.

use heck::ToUpperCamelCase;
use vstd::prelude::*;
use crate::dart_ext::{
    handlebars_render, render_template, signature_json, signatures_json_of, TemplateError,
};
use crate::genesis::{AsyncFunctionSignature, AsyncSignatureModel};
use crate::json::{json_array, json_field, json_field_of, json_object, json_object_of, json_string, json_string_of};
use crate::text::push_str;

verus! {

/// The template of the imports.
pub const IMPORTS_TEMPLATE_STR: &'static str = r"
import 'dart:ffi' show NativeApi;

import 'package:async_bindgen_dart_utils/async_bindgen_dart_utils.dart'
    show CouldNotInitializeDartApiError, FfiCompleterRegistry;
// ignore: always_use_package_imports
import '{{ffi_class_import}}' show {{ffi_class}};
";

/// The template of one API class.
pub const CLASS_TEMPLATE_STR: &'static str = r"
class {{type_name}} {
    final {{ffi_class}} _inner;

    {{type_name}}(this._inner) {
        final status = _inner.{{init_function_name}}(NativeApi.initializeApiDLData);
        if (status != 1) {
            throw CouldNotInitializeDartApiError();
        }
    }

    {{#each functions}}
        Future<{{output}}> {{name}}(
            {{#each inputs}}
                {{type}} {{name}},
            {{/each}}
        ) {
            final setup = FfiCompleterRegistry.newCompleter(
                extractor: _inner.{{ffi_ret_name}},
            );
            final callOk = _inner.{{ffi_call_name}}(
                {{#each inputs}}
                    {{name}},
                {{/each}}
                setup.portId,
                setup.completerId,
            );
            if (callOk == 0) {
                //TODO
                throw Exception('failed to setup callbacks');
            }
            return setup.future;
        }
    {{/each}}
}
";

/// The upper camel case form of a name, as `heck` gives it.
pub uninterp spec fn heck_upper_camel_case(name: Seq<char>) -> Seq<char>;

/// The upper camel case form of `name` by
/// `heck::ToUpperCamelCase::to_upper_camel_case`.
///
/// Trusted: the contract only names the result, which depends on `name`
/// alone.
#[verifier::external_body]
pub(crate) fn to_upper_camel_case(name: &str) -> (r: String)
    ensures
        r@ == heck_upper_camel_case(name@),
{
    name.to_upper_camel_case()
}

/// The data of the imports template.
#[verifier::opaque]
pub open spec fn imports_context(ffi_class: Seq<char>, ffi_class_import: Seq<char>) -> Seq<char> {
    json_object(
        seq![
            json_field("ffi_class"@, json_string(ffi_class)),
            json_field("ffi_class_import"@, json_string(ffi_class_import)),
        ],
    )
}

/// The name of the init function of API module `mod_name`.
pub open spec fn init_function_name(mod_name: Seq<char>) -> Seq<char> {
    "async_bindgen_dart_init_api__"@ + mod_name
}

/// The data of the class template for one API module.
#[verifier::opaque]
pub open spec fn class_context(
    ffi_class: Seq<char>,
    mod_name: Seq<char>,
    fs: Seq<AsyncSignatureModel>,
) -> Seq<char> {
    json_object(
        seq![
            json_field("ffi_class"@, json_string(ffi_class)),
            json_field(
                "functions"@,
                json_array(fs.map_values(|f: AsyncSignatureModel| signature_json(f))),
            ),
            json_field("init_function_name"@, json_string(init_function_name(mod_name))),
            json_field("type_name"@, json_string(heck_upper_camel_case(mod_name))),
        ],
    )
}

/// The rendered classes of the first `k` modules, after `prefix`; `None`
/// once a rendering fails.
pub open spec fn classes_upto(
    prefix: Option<Seq<char>>,
    ffi_class: Seq<char>,
    mods: Seq<(Seq<char>, Seq<AsyncSignatureModel>)>,
    k: int,
) -> Option<Seq<char>>
    decreases k,
{
    if k <= 0 {
        prefix
    } else {
        match classes_upto(prefix, ffi_class, mods, k - 1) {
            None => None,
            Some(text) => match handlebars_render(
                CLASS_TEMPLATE_STR@,
                class_context(ffi_class, mods[k - 1].0, mods[k - 1].1),
            ) {
                Some(class) => Some(text + class),
                None => None,
            },
        }
    }
}

/// The whole Dart file: the imports, then the class of each module.
pub open spec fn api_classes(
    ffi_class_import: Seq<char>,
    ffi_class: Seq<char>,
    mods: Seq<(Seq<char>, Seq<AsyncSignatureModel>)>,
) -> Option<Seq<char>> {
    classes_upto(
        handlebars_render(IMPORTS_TEMPLATE_STR@, imports_context(ffi_class, ffi_class_import)),
        ffi_class,
        mods,
        mods.len() as int,
    )
}

/// The data of the class template for one module.
fn class_context_of(
    ffi_class: &str,
    mod_name: &str,
    functions: &Vec<AsyncFunctionSignature>,
) -> (r: String)
    ensures
        r@ == class_context(ffi_class@, mod_name@, functions.deep_view()),
{
    let class = json_string_of(ffi_class);
    let fs = signatures_json_of(functions);
    let mut init = String::from_str("async_bindgen_dart_init_api__");
    push_str(&mut init, mod_name);
    let init_json = json_string_of(init.as_str());
    let class_name = to_upper_camel_case(mod_name);
    let type_json = json_string_of(class_name.as_str());
    reveal(class_context);
    let fields = vec![
        json_field_of("ffi_class", class.as_str()),
        json_field_of("functions", fs.as_str()),
        json_field_of("init_function_name", init_json.as_str()),
        json_field_of("type_name", type_json.as_str()),
    ];
    assert(fields.deep_view() =~= seq![
        json_field("ffi_class"@, json_string(ffi_class@)),
        json_field(
            "functions"@,
            json_array(functions.deep_view().map_values(|f: AsyncSignatureModel| signature_json(f))),
        ),
        json_field("init_function_name"@, json_string(init_function_name(mod_name@))),
        json_field("type_name"@, json_string(heck_upper_camel_case(mod_name@))),
    ]);
    json_object_of(&fields)
}

/// The data of the imports template.
fn imports_context_of(ffi_class: &str, ffi_class_import: &str) -> (r: String)
    ensures
        r@ == imports_context(ffi_class@, ffi_class_import@),
{
    let class = json_string_of(ffi_class);
    let import = json_string_of(ffi_class_import);
    let fields = vec![
        json_field_of("ffi_class", class.as_str()),
        json_field_of("ffi_class_import", import.as_str()),
    ];
    reveal(imports_context);
    assert(fields.deep_view() =~= seq![
        json_field("ffi_class"@, json_string(ffi_class@)),
        json_field("ffi_class_import"@, json_string(ffi_class_import@)),
    ]);
    json_object_of(&fields)
}

/// The class of one module.
fn render_class(
    ffi_class: &str,
    mod_name: &str,
    functions: &Vec<AsyncFunctionSignature>,
) -> (r: Option<String>)
    ensures
        r.deep_view() == handlebars_render(
            CLASS_TEMPLATE_STR@,
            class_context(ffi_class@, mod_name@, functions.deep_view()),
        ),
{
    let data = class_context_of(ffi_class, mod_name, functions);
    render_template(CLASS_TEMPLATE_STR, data.as_str())
}

/// Generates the Dart file for the given API modules and their functions:
/// the imports of the FFI class from `ffi_class_import`, then one class per
/// module.
pub fn generate(
    ffi_class_import: &str,
    ffi_class: &str,
    module_to_functions: &Vec<(String, Vec<AsyncFunctionSignature>)>,
) -> (r: Result<String, TemplateError>)
    ensures
        match api_classes(ffi_class_import@, ffi_class@, module_to_functions.deep_view()) {
            Some(text) => r matches Ok(out) && out@ == text,
            None => r is Err,
        },
{
    let ghost mods = module_to_functions.deep_view();
    let imports_data = imports_context_of(ffi_class, ffi_class_import);
    let mut out = match render_template(IMPORTS_TEMPLATE_STR, imports_data.as_str()) {
        Some(text) => text,
        None => {
            proof {
                lemma_classes_fail_stays(
                    handlebars_render(IMPORTS_TEMPLATE_STR@, imports_context(ffi_class@, ffi_class_import@)),
                    ffi_class@,
                    mods,
                    0,
                );
            }
            return Err(TemplateError);
        },
    };
    let ghost prefix = handlebars_render(
        IMPORTS_TEMPLATE_STR@,
        imports_context(ffi_class@, ffi_class_import@),
    );
    let mut k: usize = 0;
    while k < module_to_functions.len()
        invariant
            mods == module_to_functions.deep_view(),
            k <= mods.len(),
            classes_upto(prefix, ffi_class@, mods, k as int) == Some(out@),
            api_classes(ffi_class_import@, ffi_class@, mods) == classes_upto(
                prefix,
                ffi_class@,
                mods,
                mods.len() as int,
            ),
        decreases mods.len() - k,
    {
        let entry = &module_to_functions[k];
        assert(mods[k as int] == (entry.0@, entry.1.deep_view()));
        match render_class(ffi_class, entry.0.as_str(), &entry.1) {
            Some(class) => {
                push_str(&mut out, class.as_str());
            },
            None => {
                proof {
                    lemma_classes_fail_stays(prefix, ffi_class@, mods, k as int + 1);
                }
                return Err(TemplateError);
            },
        }
        k = k + 1;
    }
    Ok(out)
}

/// Once a rendering failed, no further module brings the output back.
pub proof fn lemma_classes_fail_stays(
    prefix: Option<Seq<char>>,
    ffi_class: Seq<char>,
    mods: Seq<(Seq<char>, Seq<AsyncSignatureModel>)>,
    k: int,
)
    requires
        0 <= k <= mods.len(),
        classes_upto(prefix, ffi_class, mods, k) is None,
    ensures
        classes_upto(prefix, ffi_class, mods, mods.len() as int) is None,
    decreases mods.len() - k,
{
    if k < mods.len() {
        lemma_classes_fail_stays(prefix, ffi_class, mods, k + 1);
    }
}


/// The classes of a module list extended at its end: the classes of the
/// list as it was, unchanged.
proof fn lemma_classes_upto_push(
    prefix: Option<Seq<char>>,
    ffi_class: Seq<char>,
    mods: Seq<(Seq<char>, Seq<AsyncSignatureModel>)>,
    m: (Seq<char>, Seq<AsyncSignatureModel>),
    k: int,
)
    requires
        0 <= k <= mods.len(),
    ensures
        classes_upto(prefix, ffi_class, mods.push(m), k) == classes_upto(prefix, ffi_class, mods, k),
    decreases k,
{
    if k > 0 {
        lemma_classes_upto_push(prefix, ffi_class, mods, m, k - 1);
        assert(mods.push(m)[k - 1] == mods[k - 1]);
    }
}

/// Without modules, the Dart file is the rendered imports alone.
pub proof fn lemma_api_classes_of_no_module(ffi_class_import: Seq<char>, ffi_class: Seq<char>)
    ensures
        api_classes(ffi_class_import, ffi_class, Seq::empty()) == handlebars_render(
            IMPORTS_TEMPLATE_STR@,
            imports_context(ffi_class, ffi_class_import),
        ),
{
}

/// Each module gets its own class: adding a module at the end adds, after
/// the classes already there, the class rendered from that module's own
/// name and its own functions (and nothing when that rendering fails).
pub proof fn lemma_api_classes_push(
    ffi_class_import: Seq<char>,
    ffi_class: Seq<char>,
    mods: Seq<(Seq<char>, Seq<AsyncSignatureModel>)>,
    m: (Seq<char>, Seq<AsyncSignatureModel>),
)
    ensures
        api_classes(ffi_class_import, ffi_class, mods.push(m)) == match api_classes(
            ffi_class_import,
            ffi_class,
            mods,
        ) {
            Some(text) => match handlebars_render(
                CLASS_TEMPLATE_STR@,
                class_context(ffi_class, m.0, m.1),
            ) {
                Some(class) => Some(text + class),
                None => None,
            },
            None => None,
        },
{
    let prefix = handlebars_render(IMPORTS_TEMPLATE_STR@, imports_context(ffi_class, ffi_class_import));
    lemma_classes_upto_push(prefix, ffi_class, mods, m, mods.len() as int);
    assert(mods.push(m)[mods.len() as int] == m);
}

} // verus!
