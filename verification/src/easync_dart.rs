//! Generates the Dart extension of an interface description: one method per
//! interface function, calling the exported wrapper that ffigen bound.

use vstd::prelude::*;
use crate::text::push_str;
use crate::genesis::{DartFunctionInputs, DartFunctionSignature, DartSignatureModel, InputModel};
use crate::interface::{
    wrapper_name, FunctionSignature, InterfaceDescription, Language, SignatureModel,
};
use crate::json::{
    json_array, json_array_of, json_field, json_field_of, json_object, json_object_of,
    json_string, json_string_of,
};

verus! {

/// The name under which the template of the extension is known.
pub const EASYNC_DART_TMPL_NAME: &'static str = "dart_ext_skeleton";

/// The template of the extension.
pub const EASYNC_DART_TMPL_STR: &'static str = r#"
extension {{fficlass}}AsyncExt on {{fficlass}} {
    {{#each functions}}
        Future<{{rtype}}> {{name}}(
            {{#each inputs}}
                {{type}} {{name}},
            {{/each}}
        ) {
            final completer = FfiCompleterRegistry.newCompleter();
            final rcode = {{nativename}}(
                {{#each inputs}}
                    {{name}},
                {{/each}}
                completer.portId,
                completer.completerId,
            );
            if (rcode != 0) {
                //TODO
                throw Exception('failed to setup callbacks');
            }
            return completer.future;
        }
    {{/each}}
}
"#;

/// What the handlebars engine renders from `template` with the data in the
/// JSON text `json_data`, escaping values for HTML as the engine does by
/// default; `None` when the data is not JSON or rendering fails.
pub uninterp spec fn handlebars_render_html(template: Seq<char>, json_data: Seq<char>) -> Option<Seq<char>>;

/// Parses `json_data` with `serde_json::from_str` into a `serde_json::Value`
/// and renders `template` with it by `handlebars::Handlebars::render_template`
/// on a new registry, which keeps the default HTML escape function.
///
/// Trusted: the contract only names the result, which depends on the two
/// texts alone; what the engine renders is not stated.
#[verifier::external_body]
pub(crate) fn render_template_html(template: &str, json_data: &str) -> (r: Option<String>)
    ensures
        r.deep_view() == handlebars_render_html(template@, json_data@),
{
    let data: serde_json::Value = serde_json::from_str(json_data).ok()?;
    handlebars::Handlebars::new().render_template(template, &data).ok()
}

/// Why the extension could not be generated.
#[derive(PartialEq, Eq, Debug)]
pub enum EasyncDartError {
    /// No Dart signature is given for the wrapper of this function.
    MissingNativeWrapper(String),
    /// Rendering the template failed.
    Template,
}

impl EasyncDartError {
    /// The text of the error.
    pub fn message(&self) -> (r: String)
        ensures
            r@ == easync_error_message(self@),
    {
        match self {
            EasyncDartError::MissingNativeWrapper(name) => {
                let mut r = String::from_str(MISSING_WRAPPER_MESSAGE);
                push_str(&mut r, name.as_str());
                r
            },
            EasyncDartError::Template => String::from_str(TEMPLATE_FAILED_MESSAGE),
        }
    }
}

/// The start of the message of a function without a wrapper, before its
/// name.
pub const MISSING_WRAPPER_MESSAGE: &'static str = "No native wrapper was found for function: ";

/// The message of a failed rendering.
pub const TEMPLATE_FAILED_MESSAGE: &'static str = "rendering the Dart extension failed";

/// The text of an error.
pub open spec fn easync_error_message(e: EasyncDartErrorModel) -> Seq<char> {
    match e {
        EasyncDartErrorModel::MissingNativeWrapper(name) => MISSING_WRAPPER_MESSAGE@ + name,
        EasyncDartErrorModel::Template => TEMPLATE_FAILED_MESSAGE@,
    }
}

/// Model of the error.
pub ghost enum EasyncDartErrorModel {
    MissingNativeWrapper(Seq<char>),
    Template,
}

impl View for EasyncDartError {
    type V = EasyncDartErrorModel;

    open spec fn view(&self) -> EasyncDartErrorModel {
        match self {
            EasyncDartError::MissingNativeWrapper(n) => EasyncDartErrorModel::MissingNativeWrapper(n@),
            EasyncDartError::Template => EasyncDartErrorModel::Template,
        }
    }
}

/// The signature registered under `key`: the first entry with that key.
pub open spec fn lookup(entries: Seq<(Seq<char>, DartSignatureModel)>, key: Seq<char>) -> Option<
    DartSignatureModel,
>
    decreases entries.len(),
{
    if entries.len() == 0 {
        None
    } else if entries[0].0 == key {
        Some(entries[0].1)
    } else {
        lookup(entries.drop_first(), key)
    }
}

/// The data of one parameter.
pub open spec fn param_json(i: InputModel) -> Seq<char> {
    json_object(seq![json_field("name"@, json_string(i.name)), json_field("type"@, json_string(i.typ))])
}

/// The data of one function: the Dart return type and parameters from the
/// bound wrapper, the name of the interface function and of its wrapper.
pub open spec fn function_json(f: SignatureModel, sig: DartSignatureModel) -> Seq<char> {
    json_object(
        seq![
            json_field("rtype"@, json_string(sig.output)),
            json_field("name"@, json_string(f.name)),
            json_field("nativename"@, json_string(wrapper_name(Language::Dart, f.name))),
            json_field("inputs"@, json_array(sig.inputs.map_values(|i: InputModel| param_json(i)))),
        ],
    )
}

/// The data of the first `k` functions, or the name of the first function
/// whose wrapper has no signature.
pub open spec fn functions_json_upto(
    fs: Seq<SignatureModel>,
    entries: Seq<(Seq<char>, DartSignatureModel)>,
    k: int,
) -> Result<Seq<Seq<char>>, Seq<char>>
    decreases k,
{
    if k <= 0 {
        Ok(Seq::empty())
    } else {
        match functions_json_upto(fs, entries, k - 1) {
            Err(n) => Err(n),
            Ok(prev) => match lookup(entries, wrapper_name(Language::Dart, fs[k - 1].name)) {
                None => Err(fs[k - 1].name),
                Some(sig) => Ok(prev.push(function_json(fs[k - 1], sig))),
            },
        }
    }
}

/// The generated extension, or why it could not be generated. The rendering
/// is given the template's name as the template text, so the text rendered
/// is that name.
pub open spec fn easync_extension(
    fs: Seq<SignatureModel>,
    entries: Seq<(Seq<char>, DartSignatureModel)>,
    ffi_class: Seq<char>,
) -> Result<Seq<char>, EasyncDartErrorModel> {
    match functions_json_upto(fs, entries, fs.len() as int) {
        Err(n) => Err(EasyncDartErrorModel::MissingNativeWrapper(n)),
        Ok(functions) => match handlebars_render_html(
            EASYNC_DART_TMPL_NAME@,
            json_object(
                seq![
                    json_field("fficlass"@, json_string(ffi_class)),
                    json_field("functions"@, json_array(functions)),
                ],
            ),
        ) {
            Some(text) => Ok(text),
            None => Err(EasyncDartErrorModel::Template),
        },
    }
}

/// The first entry registered under `key`.
fn lookup_exec(entries: &Vec<(String, DartFunctionSignature)>, key: &String) -> (r: Option<usize>)
    ensures
        match lookup(entries.deep_view(), key@) {
            Some(sig) => r matches Some(i) && i < entries@.len() && entries@[i as int].1@ == sig,
            None => r is None,
        },
{
    let ghost ev = entries.deep_view();
    let mut i: usize = 0;
    assert(ev.skip(0) =~= ev);
    while i < entries.len()
        invariant
            ev == entries.deep_view(),
            i <= ev.len(),
            lookup(ev, key@) == lookup(ev.skip(i as int), key@),
        decreases ev.len() - i,
    {
        assert(ev.skip(i as int)[0] == ev[i as int]);
        assert(ev.skip(i as int).drop_first() =~= ev.skip(i + 1));
        if entries[i].0 == *key {
            return Some(i);
        }
        i = i + 1;
    }
    None
}

/// The data of one parameter.
fn param_json_of(i: &DartFunctionInputs) -> (r: String)
    ensures
        r@ == param_json(i@),
{
    let name = json_string_of(i.name.as_str());
    let typ = json_string_of(i.typ.as_str());
    let fields = vec![json_field_of("name", name.as_str()), json_field_of("type", typ.as_str())];
    assert(fields.deep_view() =~= seq![
        json_field("name"@, json_string(i.name@)),
        json_field("type"@, json_string(i.typ@)),
    ]);
    json_object_of(&fields)
}

/// The data of the parameters.
fn params_json_of(v: &Vec<DartFunctionInputs>) -> (r: String)
    ensures
        r@ == json_array(v.deep_view().map_values(|i: InputModel| param_json(i))),
{
    let ghost all = v.deep_view();
    let mut values: Vec<String> = Vec::new();
    let mut k: usize = 0;
    while k < v.len()
        invariant
            all == v.deep_view(),
            k <= all.len(),
            values.deep_view() == all.take(k as int).map_values(|i: InputModel| param_json(i)),
        decreases all.len() - k,
    {
        let j = param_json_of(&v[k]);
        let ghost prev = values.deep_view();
        values.push(j);
        assert(values.deep_view() =~= prev.push(param_json(all[k as int])));
        assert(all.take(k + 1).map_values(|i: InputModel| param_json(i)) =~= all.take(
            k as int,
        ).map_values(|i: InputModel| param_json(i)).push(param_json(all[k as int])));
        k = k + 1;
    }
    assert(all.take(k as int) =~= all);
    json_array_of(&values)
}

/// The data of one function.
fn function_json_of(f: &FunctionSignature, sig: &DartFunctionSignature) -> (r: String)
    ensures
        r@ == function_json(f@, sig@),
{
    let rtype = json_string_of(sig.output.as_str());
    let name = json_string_of(f.name());
    let native = json_string_of(f.ffi_wrapper_name(Language::Dart).as_str());
    let inputs = params_json_of(&sig.inputs);
    let fields = vec![
        json_field_of("rtype", rtype.as_str()),
        json_field_of("name", name.as_str()),
        json_field_of("nativename", native.as_str()),
        json_field_of("inputs", inputs.as_str()),
    ];
    assert(fields.deep_view() =~= seq![
        json_field("rtype"@, json_string(sig@.output)),
        json_field("name"@, json_string(f@.name)),
        json_field("nativename"@, json_string(wrapper_name(Language::Dart, f@.name))),
        json_field("inputs"@, json_array(sig@.inputs.map_values(|i: InputModel| param_json(i)))),
    ]);
    json_object_of(&fields)
}

/// Once a function lacks its wrapper, the error stays.
pub proof fn lemma_missing_stays(
    fs: Seq<SignatureModel>,
    entries: Seq<(Seq<char>, DartSignatureModel)>,
    k: int,
)
    requires
        0 <= k <= fs.len(),
        functions_json_upto(fs, entries, k) is Err,
    ensures
        functions_json_upto(fs, entries, fs.len() as int) == functions_json_upto(fs, entries, k),
    decreases fs.len() - k,
{
    if k < fs.len() {
        lemma_missing_stays(fs, entries, k + 1);
    }
}

/// No two entries are registered under the same wrapper name.
pub open spec fn keys_unique(entries: Seq<(Seq<char>, DartSignatureModel)>) -> bool {
    forall|i: int, j: int| 0 <= i < j < entries.len() ==> entries[i].0 != entries[j].0
}

/// Generates the Dart extension of class `ffi_class` for the functions of
/// `ifd`, taking each function's Dart signature from the entry registered
/// under the name of its wrapper; each wrapper name is registered once.
/// The rendering is given the template's name (`EASYNC_DART_TMPL_NAME`) as
/// the template text.
pub fn generate(
    ifd: &InterfaceDescription,
    dart_signatures: &Vec<(String, DartFunctionSignature)>,
    ffi_class: &str,
) -> (r: Result<String, EasyncDartError>)
    requires
        keys_unique(dart_signatures.deep_view()),
    ensures
        match easync_extension(ifd@, dart_signatures.deep_view(), ffi_class@) {
            Ok(text) => r matches Ok(out) && out@ == text,
            Err(e) => r matches Err(err) && err@ == e,
        },
{
    let fs = ifd.functions();
    let ghost entries = dart_signatures.deep_view();
    let mut functions: Vec<String> = Vec::new();
    let mut k: usize = 0;
    assert(functions.deep_view() =~= Seq::<Seq<char>>::empty());
    while k < fs.len()
        invariant
            fs.deep_view() == ifd@,
            entries == dart_signatures.deep_view(),
            k <= fs@.len(),
            functions_json_upto(ifd@, entries, k as int) == Ok::<Seq<Seq<char>>, Seq<char>>(
                functions.deep_view(),
            ),
        decreases fs@.len() - k,
    {
        let f = &fs[k];
        assert(f@ == ifd@[k as int]);
        let native = f.ffi_wrapper_name(Language::Dart);
        match lookup_exec(dart_signatures, &native) {
            None => {
                proof {
                    lemma_missing_stays(ifd@, entries, k as int + 1);
                }
                return Err(EasyncDartError::MissingNativeWrapper(String::from_str(f.name())));
            },
            Some(i) => {
                let j = function_json_of(f, &dart_signatures[i].1);
                let ghost prev = functions.deep_view();
                functions.push(j);
                assert(functions.deep_view() =~= prev.push(j@));
            },
        }
        k = k + 1;
    }
    let class = json_string_of(ffi_class);
    let list = json_array_of(&functions);
    let fields = vec![json_field_of("fficlass", class.as_str()), json_field_of("functions", list.as_str())];
    assert(fields.deep_view() =~= seq![
        json_field("fficlass"@, json_string(ffi_class@)),
        json_field("functions"@, json_array(functions.deep_view())),
    ]);
    let data = json_object_of(&fields);
    match render_template_html(EASYNC_DART_TMPL_NAME, data.as_str()) {
        Some(text) => Ok(text),
        None => Err(EasyncDartError::Template),
    }
}


/// Looking a key up finds the first entry with that key, wherever it
/// stands among the entries.
pub proof fn lemma_lookup_finds_first(
    entries: Seq<(Seq<char>, DartSignatureModel)>,
    key: Seq<char>,
    i: int,
)
    requires
        0 <= i < entries.len(),
        entries[i].0 == key,
        forall|j: int| 0 <= j < i ==> entries[j].0 != key,
    ensures
        lookup(entries, key) == Some(entries[i].1),
    decreases i,
{
    if i > 0 {
        assert(entries[0].0 != key);
        let rest = entries.drop_first();
        assert forall|j: int| 0 <= j < i - 1 implies rest[j].0 != key by {
            assert(rest[j] == entries[j + 1]);
        }
        assert(rest[i - 1] == entries[i]);
        lemma_lookup_finds_first(rest, key, i - 1);
    }
}

/// Looking a key up finds nothing exactly when no entry has that key.
pub proof fn lemma_lookup_finds_nothing(entries: Seq<(Seq<char>, DartSignatureModel)>, key: Seq<char>)
    ensures
        lookup(entries, key) is None <==> forall|j: int| 0 <= j < entries.len() ==> entries[j].0 != key,
    decreases entries.len(),
{
    if entries.len() > 0 {
        let rest = entries.drop_first();
        lemma_lookup_finds_nothing(rest, key);
        if entries[0].0 != key {
            assert((forall|j: int| 0 <= j < rest.len() ==> rest[j].0 != key) <==> (forall|j: int|
                0 <= j < entries.len() ==> entries[j].0 != key)) by {
                if forall|j: int| 0 <= j < rest.len() ==> rest[j].0 != key {
                    assert forall|j: int| 0 <= j < entries.len() implies entries[j].0 != key by {
                        if j > 0 {
                            assert(entries[j] == rest[j - 1]);
                        }
                    }
                }
                if forall|j: int| 0 <= j < entries.len() ==> entries[j].0 != key {
                    assert forall|j: int| 0 <= j < rest.len() implies rest[j].0 != key by {
                        assert(rest[j] == entries[j + 1]);
                    }
                }
            }
        }
    }
}

/// With every wrapper name registered once, looking up the name of any
/// entry gives that entry's signature.
pub proof fn lemma_lookup_unique_keys(entries: Seq<(Seq<char>, DartSignatureModel)>, i: int)
    requires
        keys_unique(entries),
        0 <= i < entries.len(),
    ensures
        lookup(entries, entries[i].0) == Some(entries[i].1),
{
    lemma_lookup_finds_first(entries, entries[i].0, i);
}

} // verus!
