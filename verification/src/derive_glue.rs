//! Generates what the `api` attribute expands to: the import of the API
//! type into the annotated module, and the file with the type and the
//! `extern "C"` glue functions of each async function.

use vstd::prelude::*;
use crate::api_parse::{api_of, Api, ApiError, ApiModel};
use crate::genesis::{call_name_of, ret_name_of, DartSignatureModel, InputModel, CALL_PREFIX, RET_PREFIX};
use crate::interface::{language_name, FunctionInputs, FunctionSignature, Language, SignatureModel};
use crate::rust_glue::{arg_names, args_text, param_texts, params_text, WRAPPER_HEAD, WRAPPER_TAIL};
use crate::text::{join_strings, push_str, strip_prefix};

verus! {

/// The path of the runtime support module for Dart.
pub const DART_PATH_PREFIX: &'static str = "::async_bindgen::dart";

/// The first line of the generated file.
pub const FILE_HEADER: &'static str = "#![doc(hidden)]\n";

/// The documentation and head of the init function, up to its name.
pub const INIT_HEAD: &'static str = "#[doc = r\" Initializes the dart api.\"]\n#[doc = r\"\"]\n#[doc = r\" Is safe to be called multiple times and form multiple\"]\n#[doc = r\" thread.\"]\n#[doc = r\"\"]\n#[doc = r\" # Safety\"]\n#[doc = r\"\"]\n#[doc = r\" Must be called with a pointer produced by dart using\"]\n#[doc = r\" `NativeApi.initializeApiDLData`.\"]\n#[no_mangle]\npub unsafe extern \"C\" fn async_bindgen_dart_init_api__";

/// The rest of the init function.
pub const INIT_TAIL: &'static str = "(init_data: *mut ::std::ffi::c_void) -> u8 {\n    unsafe { ::async_bindgen::dart::initialize_dart_api_dl(init_data) }\n}\n";

/// The documentation and head of a call function, up to its name.
pub const CALL_HEAD: &'static str = "#[doc = r\" Wrapper for initiating the call to an async function.\"]\n#[no_mangle]\npub extern \"C\" fn ";

/// Between the parameters of a call function and the completer path.
pub const CALL_MATCH: &'static str = ") -> u8 {\n    match ";

/// Between the completer path and its arguments.
pub const CALL_NEW: &'static str = "::new(";

/// Between the completer arguments and the spawned call.
pub const CALL_SPAWN: &'static str = ") {\n        Ok(completer) => {\n            completer.spawn(";

/// The end of a call function.
pub const CALL_TAIL: &'static str = "));\n            1\n        }\n        Err(_) => 0\n    }\n}\n";

/// The documentation and head of a result function, up to its name.
pub const RET_HEAD: &'static str = r##"#[doc = r#" Extern "C"  wrapper delegating to `PreparedCompleter::extract_result()`."#]
#[doc = r""]
#[doc = r" # Safety"]
#[doc = r""]
#[doc = r" See the language specific version of `PreparedCompleter::extract_result()`."]
#[no_mangle]
pub unsafe extern "C" fn "##;

/// Between the name of a result function and its return type.
pub const RET_PARAMS: &'static str = "(handle: i64) -> ";

/// Between the return type of a result function and the completer path.
pub const RET_BODY: &'static str = " {\n    unsafe { ";

/// The end of a result function.
pub const RET_TAIL: &'static str = "::extract_result(handle) }\n}\n";

/// A type path: the prefix, `::` and the name; with an empty prefix, the
/// bare name.
pub open spec fn path_and_name(prefix: Seq<char>, name: Seq<char>) -> Seq<char> {
    if prefix.len() == 0 {
        name
    } else {
        prefix + "::"@ + name
    }
}

/// The name of the call function of `func` in API `api`.
pub open spec fn call_name_text(api: Seq<char>, func: Seq<char>) -> Seq<char> {
    "async_bindgen_dart_c__"@ + api + "__"@ + func
}

/// The name of the result function of `func` in API `api`.
pub open spec fn ret_name_text(api: Seq<char>, func: Seq<char>) -> Seq<char> {
    "async_bindgen_dart_r__"@ + api + "__"@ + func
}

/// The parameters that Dart adds to every call function.
pub open spec fn dart_call_inputs() -> Seq<InputModel> {
    seq![
        InputModel {
            name: "async_bindgen_dart_port_id"@,
            typ: path_and_name(DART_PATH_PREFIX@, "DartPortId"@),
        },
        InputModel { name: "async_bindgen_dart_completer_id"@, typ: "i64"@ },
    ]
}

/// The init function of API `api`.
pub open spec fn init_text(api: Seq<char>) -> Seq<char> {
    INIT_HEAD@ + api + INIT_TAIL@
}

/// The call and result functions of `f` in API `api`.
pub open spec fn extern_function_text(api: ApiModel, f: SignatureModel) -> Seq<char> {
    let completer = path_and_name(DART_PATH_PREFIX@, "PreparedCompleter"@);
    CALL_HEAD@ + call_name_text(api.mod_name, f.name) + "("@ + params_text(f.inputs + dart_call_inputs())
        + CALL_MATCH@ + completer + CALL_NEW@ + args_text(dart_call_inputs()) + CALL_SPAWN@
        + api.type_ident + "::"@ + f.name + "("@ + args_text(f.inputs) + CALL_TAIL@ + RET_HEAD@
        + ret_name_text(api.mod_name, f.name) + RET_PARAMS@ + output_text(f.return_type) + RET_BODY@
        + completer + RET_TAIL@
}

/// A return type as written, or nothing.
pub open spec fn output_text(t: Option<Seq<char>>) -> Seq<char> {
    match t {
        Some(t) => t,
        None => Seq::empty(),
    }
}

/// The glue functions of the first `k` functions.
pub open spec fn extern_functions_upto(api: ApiModel, k: int) -> Seq<char>
    decreases k,
{
    if k <= 0 {
        Seq::empty()
    } else {
        extern_functions_upto(api, k - 1) + extern_function_text(api, api.functions[k - 1])
    }
}

/// All glue of an API for a language: the init function, then the call and
/// result functions of each function.
pub open spec fn extern_functions_text(api: ApiModel, lang: Language) -> Seq<char> {
    match lang {
        Language::Dart => init_text(api.mod_name) + extern_functions_upto(
            api,
            api.functions.len() as int,
        ),
    }
}

/// The declaration of the API type.
pub open spec fn type_text(api: ApiModel) -> Seq<char> {
    "pub struct "@ + api.type_ident + ";\n"@
}

/// The import of the API type from its generated module.
pub open spec fn type_import_text(api: ApiModel) -> Seq<char> {
    "use crate::"@ + api.mod_name + "::"@ + api.type_ident + ";\n"@
}

/// The generated file: the header, the type, then the glue for Dart.
pub open spec fn file_text(api: ApiModel) -> Seq<char> {
    FILE_HEADER@ + type_text(api) + extern_functions_text(api, Language::Dart)
}

/// The expansion: the item unchanged, then the import of the type.
pub open spec fn expansion_text(item: Seq<char>, api: ApiModel) -> Seq<char> {
    item + "\n"@ + type_import_text(api)
}

/// The path of the runtime support module for Dart.
pub fn path_prefix() -> (r: &'static str)
    ensures
        r@ == DART_PATH_PREFIX@,
{
    DART_PATH_PREFIX
}

/// A type path made of a prefix and a name; an empty prefix gives the bare
/// name.
pub fn type_from_path_and_name(path_prefix: &str, name: &str) -> (r: String)
    ensures
        r@ == path_and_name(path_prefix@, name@),
{
    if path_prefix.unicode_len() == 0 {
        return String::from_str(name);
    }
    let mut r = String::from_str(path_prefix);
    push_str(&mut r, "::");
    push_str(&mut r, name);
    r
}

/// A type named by a single identifier: the name with the empty path.
pub fn type_from_name(name: &str) -> (r: String)
    ensures
        r@ == name@,
        r@ == path_and_name(Seq::empty(), name@),
{
    proof {
        reveal_strlit("");
    }
    type_from_path_and_name("", name)
}

/// The name of the call function of `fn_name` in API `api_name`.
pub fn call_name(api_name: &str, fn_name: &str) -> (r: String)
    ensures
        r@ == call_name_text(api_name@, fn_name@),
{
    let mut r = String::from_str("async_bindgen_dart_c__");
    push_str(&mut r, api_name);
    push_str(&mut r, "__");
    push_str(&mut r, fn_name);
    r
}

/// The name of the result function of `fn_name` in API `api_name`.
pub fn ret_name(api_name: &str, fn_name: &str) -> (r: String)
    ensures
        r@ == ret_name_text(api_name@, fn_name@),
{
    let mut r = String::from_str("async_bindgen_dart_r__");
    push_str(&mut r, api_name);
    push_str(&mut r, "__");
    push_str(&mut r, fn_name);
    r
}

/// The parameters that Dart adds to every call function.
pub fn additional_dart_inputs() -> (r: Vec<FunctionInputs>)
    ensures
        r.deep_view() == dart_call_inputs(),
{
    let port = FunctionInputs::new(
        String::from_str("async_bindgen_dart_port_id"),
        type_from_path_and_name(path_prefix(), "DartPortId"),
    );
    let completer = FunctionInputs::new(
        String::from_str("async_bindgen_dart_completer_id"),
        type_from_name("i64"),
    );
    let r = vec![port, completer];
    assert(r.deep_view() =~= dart_call_inputs());
    r
}

/// The init function of API `api_name`.
pub fn generate_dart_api_init(api_name: &str) -> (r: String)
    ensures
        r@ == init_text(api_name@),
{
    let mut r = String::from_str(INIT_HEAD);
    push_str(&mut r, api_name);
    push_str(&mut r, INIT_TAIL);
    r
}

/// The declaration of the API type.
pub fn generate_type(api: &Api) -> (r: String)
    ensures
        r@ == type_text(api@),
{
    let mut r = String::from_str("pub struct ");
    push_str(&mut r, api.type_ident());
    push_str(&mut r, ";\n");
    r
}

/// The import of the API type from its generated module.
pub fn generate_type_import(api: &Api) -> (r: String)
    ensures
        r@ == type_import_text(api@),
{
    let mut r = String::from_str("use crate::");
    push_str(&mut r, api.mod_name());
    push_str(&mut r, "::");
    push_str(&mut r, api.type_ident());
    push_str(&mut r, ";\n");
    r
}

/// The call and result functions of one function of the API.
pub fn generate_extern_function(api: &Api, func: &FunctionSignature) -> (r: String)
    ensures
        r@ == extern_function_text(api@, func@),
{
    let add_inputs = additional_dart_inputs();
    let completer = type_from_path_and_name(path_prefix(), "PreparedCompleter");
    let mut r = String::from_str(CALL_HEAD);
    let cn = call_name(api.mod_name(), func.name());
    push_str(&mut r, cn.as_str());
    push_str(&mut r, "(");
    let params = join_strings(&param_texts(func.inputs(), &add_inputs), ", ");
    push_str(&mut r, params.as_str());
    push_str(&mut r, CALL_MATCH);
    push_str(&mut r, completer.as_str());
    push_str(&mut r, CALL_NEW);
    let completer_args = join_strings(&arg_names(&add_inputs), ", ");
    push_str(&mut r, completer_args.as_str());
    push_str(&mut r, CALL_SPAWN);
    push_str(&mut r, api.type_ident());
    push_str(&mut r, "::");
    push_str(&mut r, func.name());
    push_str(&mut r, "(");
    let call_args = join_strings(&arg_names(func.inputs()), ", ");
    push_str(&mut r, call_args.as_str());
    push_str(&mut r, CALL_TAIL);
    push_str(&mut r, RET_HEAD);
    let rn = ret_name(api.mod_name(), func.name());
    push_str(&mut r, rn.as_str());
    push_str(&mut r, RET_PARAMS);
    match func.return_type() {
        Some(t) => push_str(&mut r, t),
        None => {},
    }
    push_str(&mut r, RET_BODY);
    push_str(&mut r, completer.as_str());
    push_str(&mut r, RET_TAIL);
    r
}

/// The init functions of an API for a language.
pub fn generate_api_init_functions(api: &Api, lang: Language) -> (r: String)
    ensures
        lang == Language::Dart ==> r@ == init_text(api@.mod_name),
{
    match lang {
        Language::Dart => generate_dart_api_init(api.mod_name()),
    }
}

/// All glue of an API for a language.
pub fn generate_extern_functions(api: &Api, lang: Language) -> (r: String)
    ensures
        r@ == extern_functions_text(api@, lang),
{
    let mut r = generate_api_init_functions(api, lang);
    let fs = api.functions();
    let mut k: usize = 0;
    while k < fs.len()
        invariant
            lang == Language::Dart,
            fs.deep_view() == api@.functions,
            k <= fs@.len(),
            r@ == init_text(api@.mod_name) + extern_functions_upto(api@, k as int),
        decreases fs@.len() - k,
    {
        let f = generate_extern_function(api, &fs[k]);
        assert(fs@[k as int]@ == api@.functions[k as int]);
        push_str(&mut r, f.as_str());
        k = k + 1;
    }
    r
}

/// The languages glue is generated for.
pub fn languages() -> (r: Vec<Language>)
    ensures
        r@ == seq![Language::Dart],
{
    let r = vec![Language::Dart];
    assert(r@ =~= seq![Language::Dart]);
    r
}

/// What the `api` attribute produces: the API, the expansion that replaces
/// the annotated item, and the text of the generated file.
pub struct AsyncBindgenResult {
    api: Api,
    proc_tokens: String,
    file_tokens: String,
}

/// Model of the result: the API, the expansion and the file.
pub ghost struct BindgenResultModel {
    pub api: ApiModel,
    pub expansion: Seq<char>,
    pub file: Seq<char>,
}

impl View for AsyncBindgenResult {
    type V = BindgenResultModel;

    closed spec fn view(&self) -> BindgenResultModel {
        BindgenResultModel {
            api: self.api@,
            expansion: self.proc_tokens@,
            file: self.file_tokens@,
        }
    }
}

/// Reads the API and generates its expansion and its file, with every
/// offence found in its functions, in order; or why there is no API.
pub fn parse_gen_api(attrs: &str, item: &str) -> (r: Result<(AsyncBindgenResult, Vec<ApiError>), Vec<ApiError>>)
    ensures
        match api_of(attrs@, item@) {
            Ok((a, es)) => r matches Ok((res, v)) && v@ == es && res@ == (BindgenResultModel {
                api: a,
                expansion: expansion_text(item@, a),
                file: file_text(a),
            }),
            Err(es) => r matches Err(v) && v@ == es,
        },
{
    let (api, offences) = match Api::parse(attrs, item) {
        Ok(parsed) => parsed,
        Err(es) => {
            return Err(es);
        },
    };
    let mut file_tokens = String::from_str(FILE_HEADER);
    let t = generate_type(&api);
    push_str(&mut file_tokens, t.as_str());
    let langs = languages();
    let mut k: usize = 0;
    while k < langs.len()
        invariant
            langs@ == seq![Language::Dart],
            k <= 1,
            k == 0 ==> file_tokens@ == FILE_HEADER@ + type_text(api@),
            k == 1 ==> file_tokens@ == file_text(api@),
        decreases langs@.len() - k,
    {
        let ext = generate_extern_functions(&api, langs[k]);
        push_str(&mut file_tokens, ext.as_str());
        k = k + 1;
    }
    let mut proc_tokens = String::from_str(item);
    push_str(&mut proc_tokens, "\n");
    let import = generate_type_import(&api);
    push_str(&mut proc_tokens, import.as_str());
    Ok((AsyncBindgenResult { api, proc_tokens, file_tokens }, offences))
}

impl AsyncBindgenResult {
    /// The expansion that replaces the annotated item.
    pub fn into_proc_macro_result(self) -> (r: String)
        ensures
            r@ == self@.expansion,
    {
        self.proc_tokens
    }

    /// The text of the generated file.
    pub fn file_content(&self) -> (r: &str)
        ensures
            r@ == self@.file,
    {
        self.file_tokens.as_str()
    }

    /// The name of the generated file, inside the crate's `src` directory:
    /// the module name with the extension `rs`.
    pub fn ext_file_name(&self) -> (r: String)
        ensures
            r@ == self@.api.mod_name + ".rs"@,
    {
        let mut r = String::from_str(self.api.mod_name());
        push_str(&mut r, ".rs");
        r
    }
}


/// Between the parameters of a spawning wrapper and the completer path.
pub const SPAWN_MATCH: &'static str = ") -> isize {\n    let completer = match ";

/// Between the completer arguments and the bound call.
pub const SPAWN_BIND: &'static str = ") {\n        Ok(c) => c,\n        Err(_) => return -1,\n    };\n    let bound = completer.bind_future(";

/// Between the bound call and the spawn path.
pub const SPAWN_CALL: &'static str = "));\n    ";

/// The end of a spawning wrapper.
pub const SPAWN_TAIL: &'static str = "(bound);\n}\n";

/// The name of the spawning wrapper of function `name` for `lang`.
pub open spec fn spawn_wrapper_name(lang: Language, name: Seq<char>) -> Seq<char> {
    "_async_bindgen_"@ + language_name(lang) + "_w__"@ + name
}

/// The spawning wrapper of `f`: it sets up a completer from the extra
/// parameters (returning -1 when that fails), binds the function's future
/// to it and spawns the result.
pub open spec fn spawn_wrapper_text(f: SignatureModel, lang: Language) -> Seq<char> {
    WRAPPER_HEAD@ + spawn_wrapper_name(lang, f.name) + "("@ + params_text(f.inputs + dart_call_inputs())
        + SPAWN_MATCH@ + path_and_name(DART_PATH_PREFIX@, "PreparedCompleter"@) + CALL_NEW@
        + args_text(dart_call_inputs()) + SPAWN_BIND@ + f.name + "("@ + args_text(f.inputs)
        + SPAWN_CALL@ + path_and_name(DART_PATH_PREFIX@, "spawn"@) + SPAWN_TAIL@
}

/// The name of the spawning wrapper of a function for `lang`.
pub fn ffi_wrapper_name(func: &FunctionSignature, lang: Language) -> (r: String)
    ensures
        r@ == spawn_wrapper_name(lang, func@.name),
{
    let mut r = String::from_str("_async_bindgen_");
    push_str(&mut r, lang.as_str());
    push_str(&mut r, "_w__");
    push_str(&mut r, func.name());
    r
}

/// The spawning wrapper of one function.
pub fn generate_wrapper(func: &FunctionSignature, lang: Language) -> (r: String)
    ensures
        r@ == spawn_wrapper_text(func@, lang),
{
    let add_inputs = additional_dart_inputs();
    let mut r = String::from_str(WRAPPER_HEAD);
    let name = ffi_wrapper_name(func, lang);
    push_str(&mut r, name.as_str());
    push_str(&mut r, "(");
    let params = join_strings(&param_texts(func.inputs(), &add_inputs), ", ");
    push_str(&mut r, params.as_str());
    push_str(&mut r, SPAWN_MATCH);
    let completer = type_from_path_and_name(path_prefix(), "PreparedCompleter");
    push_str(&mut r, completer.as_str());
    push_str(&mut r, CALL_NEW);
    let completer_args = join_strings(&arg_names(&add_inputs), ", ");
    push_str(&mut r, completer_args.as_str());
    push_str(&mut r, SPAWN_BIND);
    push_str(&mut r, func.name());
    push_str(&mut r, "(");
    let call_args = join_strings(&arg_names(func.inputs()), ", ");
    push_str(&mut r, call_args.as_str());
    push_str(&mut r, SPAWN_CALL);
    let spawn = type_from_path_and_name(path_prefix(), "spawn");
    push_str(&mut r, spawn.as_str());
    push_str(&mut r, SPAWN_TAIL);
    r
}

/// The glue functions that the `api` attribute generates are the ones that
/// the Dart generator pairs up: in the Dart bindings of the call function
/// and of the result function of `func` in API `api`, the first is taken
/// for a call and the second for a result, both of the async function
/// named `api__func`.
pub proof fn lemma_glue_names_recognized(
    api: Seq<char>,
    func: Seq<char>,
    call_fn: DartSignatureModel,
    ret_fn: DartSignatureModel,
)
    requires
        call_fn.name == call_name_text(api, func),
        ret_fn.name == ret_name_text(api, func),
    ensures
        call_name_of(call_fn) == Some(api + "__"@ + func),
        ret_name_of(call_fn) is None,
        call_name_of(ret_fn) is None,
        ret_name_of(ret_fn) == Some(api + "__"@ + func),
{
    reveal_strlit("async_bindgen_dart_c__");
    reveal_strlit("async_bindgen_dart_r__");
    let n = api + "__"@ + func;
    let c = CALL_PREFIX@;
    let r = RET_PREFIX@;
    assert(call_fn.name =~= c + n);
    assert(ret_fn.name =~= r + n);
    assert((c + n).take(c.len() as int) =~= c);
    assert((c + n).skip(c.len() as int) =~= n);
    assert((r + n).take(r.len() as int) =~= r);
    assert((r + n).skip(r.len() as int) =~= n);
    assert((r + n).take(c.len() as int)[19] != c[19]);
    assert(strip_prefix(ret_fn.name, c) is None);
}

} // verus!
