//! Generates the Rust `extern "C"` wrappers that start each async function
//! of an interface description and report its result through a completer.

use vstd::prelude::*;
use crate::genesis::InputModel;
use crate::interface::{
    language_name, wrapper_name, ArgumentModel, FunctionInputs, FunctionSignature,
    InterfaceDescription, Language, ParsedArgument, SignatureError, SignatureModel,
};
use crate::text::{join, join_strings, push_str};

verus! {

/// The import line that the wrappers need.
pub const DART_IMPORTS: &'static str = "use easync_rust_dart_io_utils::{spawn, PreparedCompleter, DartPortId};\n";

/// Start of a wrapper, up to its name.
pub const WRAPPER_HEAD: &'static str = "#[no_mangle]\nextern \"C\" fn ";

/// Between the parameters of a wrapper and the arguments of the completer.
pub const WRAPPER_COMPLETER: &'static str = ") -> isize {\n    let completer = match PreparedCompleter::new(";

/// Between the completer arguments and the wrapped function's name.
pub const WRAPPER_BIND: &'static str = ") {\n        Ok(c) => c,\n        Err(_) => return -1,\n    };\n    let bound = completer.bind_future(";

/// The end of a wrapper.
pub const WRAPPER_TAIL: &'static str = "));\n    spawn(bound);\n}\n";

/// The parameters that the Dart side adds to every wrapper: the port that
/// receives the result and the id of the completer to complete.
pub open spec fn dart_extra_inputs() -> Seq<InputModel> {
    seq![
        InputModel { name: "easync_dart_port_id"@, typ: "DartPortId"@ },
        InputModel { name: "easync_dart_completer_id"@, typ: "i64"@ },
    ]
}

/// The parameters a language adds to every wrapper.
pub open spec fn extra_inputs(lang: Language) -> Seq<InputModel> {
    match lang {
        Language::Dart => dart_extra_inputs(),
    }
}

/// The import lines for a language.
pub open spec fn imports_text(lang: Language) -> Seq<char> {
    match lang {
        Language::Dart => DART_IMPORTS@,
    }
}

/// `name: type` for one parameter.
pub open spec fn param_text(i: InputModel) -> Seq<char> {
    i.name + ": "@ + i.typ
}

/// The parameter list `a: A, b: B`.
pub open spec fn params_text(inputs: Seq<InputModel>) -> Seq<char> {
    join(inputs.map_values(|i: InputModel| param_text(i)), ", "@)
}

/// The argument list `a, b`.
pub open spec fn args_text(inputs: Seq<InputModel>) -> Seq<char> {
    join(inputs.map_values(|i: InputModel| i.name), ", "@)
}

/// The wrapper of function `f` for `lang`: it takes the function's
/// parameters and the language's extra ones, sets up a completer from the
/// extra ones (returning -1 when that fails) and spawns the function's
/// future bound to the completer.
pub open spec fn wrapper_text(f: SignatureModel, lang: Language) -> Seq<char> {
    WRAPPER_HEAD@ + wrapper_name(lang, f.name) + "("@ + params_text(f.inputs + extra_inputs(lang))
        + WRAPPER_COMPLETER@ + args_text(extra_inputs(lang)) + WRAPPER_BIND@ + f.name + "("@
        + args_text(f.inputs) + WRAPPER_TAIL@
}

/// The wrappers of the first `k` functions, each followed by a blank line.
pub open spec fn wrappers_text(fs: Seq<SignatureModel>, lang: Language, k: int) -> Seq<char>
    decreases k,
{
    if k <= 0 {
        Seq::empty()
    } else {
        wrappers_text(fs, lang, k - 1) + "\n"@ + wrapper_text(fs[k - 1], lang)
    }
}

/// The whole generated file: the imports, then every wrapper.
pub open spec fn bindings_text(fs: Seq<SignatureModel>, lang: Language) -> Seq<char> {
    imports_text(lang) + wrappers_text(fs, lang, fs.len() as int)
}

/// The parameters that the Dart side adds to every wrapper.
pub fn additional_dart_inputs() -> (r: Vec<FunctionInputs>)
    ensures
        r.deep_view() == dart_extra_inputs(),
{
    let port = FunctionInputs::new(
        String::from_str("easync_dart_port_id"),
        String::from_str("DartPortId"),
    );
    let completer = FunctionInputs::new(
        String::from_str("easync_dart_completer_id"),
        String::from_str("i64"),
    );
    let r = vec![port, completer];
    assert(r.deep_view() =~= dart_extra_inputs());
    r
}

/// The import lines for a language.
pub fn imports(lang: Language) -> (r: &'static str)
    ensures
        r@ == imports_text(lang),
{
    match lang {
        Language::Dart => DART_IMPORTS,
    }
}

/// The parameters a language adds to every wrapper.
fn extra_inputs_exec(lang: Language) -> (r: Vec<FunctionInputs>)
    ensures
        r.deep_view() == extra_inputs(lang),
{
    match lang {
        Language::Dart => additional_dart_inputs(),
    }
}

/// Appends the parameter text of each of `a`.
fn push_param_texts(r: &mut Vec<String>, a: &Vec<FunctionInputs>)
    ensures
        final(r).deep_view() == old(r).deep_view() + a.deep_view().map_values(
            |i: InputModel| param_text(i),
        ),
{
    let ghost all = a.deep_view();
    let ghost start = r.deep_view();
    let mut k: usize = 0;
    while k < a.len()
        invariant
            all == a.deep_view(),
            k <= all.len(),
            r.deep_view() == start + all.take(k as int).map_values(|i: InputModel| param_text(i)),
        decreases all.len() - k,
    {
        let inp = &a[k];
        assert(inp@ == all[k as int]);
        let mut t = String::from_str(inp.name());
        push_str(&mut t, ": ");
        push_str(&mut t, inp.typ());
        let ghost prev = r.deep_view();
        r.push(t);
        assert(r.deep_view() =~= prev.push(param_text(all[k as int])));
        assert(all.take(k + 1).map_values(|i: InputModel| param_text(i)) =~= all.take(
            k as int,
        ).map_values(|i: InputModel| param_text(i)).push(param_text(all[k as int])));
        k = k + 1;
    }
    assert(all.take(k as int) =~= all);
}

/// The parameter texts of two lists of parameters, one after the other.
pub(crate) fn param_texts(a: &Vec<FunctionInputs>, b: &Vec<FunctionInputs>) -> (r: Vec<String>)
    ensures
        r.deep_view() == (a.deep_view() + b.deep_view()).map_values(|i: InputModel| param_text(i)),
{
    let mut r: Vec<String> = Vec::new();
    push_param_texts(&mut r, a);
    push_param_texts(&mut r, b);
    assert(r.deep_view() =~= (a.deep_view() + b.deep_view()).map_values(
        |i: InputModel| param_text(i),
    ));
    r
}

/// The names of the parameters.
pub(crate) fn arg_names(a: &Vec<FunctionInputs>) -> (r: Vec<String>)
    ensures
        r.deep_view() == a.deep_view().map_values(|i: InputModel| i.name),
{
    let ghost all = a.deep_view();
    let mut r: Vec<String> = Vec::new();
    let mut k: usize = 0;
    while k < a.len()
        invariant
            all == a.deep_view(),
            k <= all.len(),
            r.deep_view() == all.take(k as int).map_values(|i: InputModel| i.name),
        decreases all.len() - k,
    {
        let t = String::from_str(a[k].name());
        let ghost prev = r.deep_view();
        r.push(t);
        assert(r.deep_view() =~= prev.push(all[k as int].name));
        assert(all.take(k + 1).map_values(|i: InputModel| i.name) =~= all.take(
            k as int,
        ).map_values(|i: InputModel| i.name).push(all[k as int].name));
        k = k + 1;
    }
    assert(all.take(k as int) =~= all);
    r
}

/// The wrapper of one function.
pub fn generate_wrapped_function(func: &FunctionSignature, lang: Language) -> (r: String)
    ensures
        r@ == wrapper_text(func@, lang),
{
    let extra = extra_inputs_exec(lang);
    let mut r = String::from_str(WRAPPER_HEAD);
    let wrapped = func.ffi_wrapper_name(lang);
    push_str(&mut r, wrapped.as_str());
    push_str(&mut r, "(");
    let params = join_strings(&param_texts(func.inputs(), &extra), ", ");
    push_str(&mut r, params.as_str());
    push_str(&mut r, WRAPPER_COMPLETER);
    let completer_args = join_strings(&arg_names(&extra), ", ");
    push_str(&mut r, completer_args.as_str());
    push_str(&mut r, WRAPPER_BIND);
    push_str(&mut r, func.name());
    push_str(&mut r, "(");
    let call_args = join_strings(&arg_names(func.inputs()), ", ");
    push_str(&mut r, call_args.as_str());
    push_str(&mut r, WRAPPER_TAIL);
    r
}

/// The generated file for an interface: the imports, then the wrapper of
/// each function.
pub fn generate_token_stream(ifd: &InterfaceDescription, lang: Language) -> (r: String)
    ensures
        r@ == bindings_text(ifd@, lang),
{
    let fs = ifd.functions();
    let mut r = String::from_str(imports(lang));
    let mut k: usize = 0;
    while k < fs.len()
        invariant
            fs.deep_view() == ifd@,
            k <= fs@.len(),
            r@ == imports_text(lang) + wrappers_text(ifd@, lang, k as int),
        decreases fs@.len() - k,
    {
        push_str(&mut r, "\n");
        let w = generate_wrapped_function(&fs[k], lang);
        assert(fs@[k as int]@ == ifd@[k as int]);
        push_str(&mut r, w.as_str());
        k = k + 1;
    }
    r
}

/// The expression that passes a parsed parameter on to the wrapped
/// function: `self` for the receiver, the name of a plainly named
/// parameter; a pattern parameter can not be passed on.
pub fn arg_to_expr(arg: &ParsedArgument) -> (r: Result<String, SignatureError>)
    ensures
        match arg@ {
            ArgumentModel::Receiver => r matches Ok(e) && e@ == "self"@,
            ArgumentModel::Typed { ident: Some(n), .. } => r matches Ok(e) && e@ == n,
            ArgumentModel::Typed { ident: None, .. } => r == Err::<String, SignatureError>(
                SignatureError::PatternArgument,
            ),
        },
{
    match arg {
        ParsedArgument::Receiver => Ok(String::from_str("self")),
        ParsedArgument::Typed { ident: Some(n), .. } => Ok(n.clone()),
        ParsedArgument::Typed { ident: None, .. } => Err(SignatureError::PatternArgument),
    }
}


/// The wrapper calls the wrapped function with every one of its
/// parameters, by name and in order, separated by commas: the wrapper ends
/// with the call of `f` on the names of all of `f`'s parameters.
pub proof fn lemma_wrapper_passes_every_parameter(f: SignatureModel, lang: Language)
    ensures
        exists|head: Seq<char>|
            wrapper_text(f, lang) == head + WRAPPER_BIND@ + f.name + "("@ + join(
                f.inputs.map_values(|i: InputModel| i.name),
                ", "@,
            ) + WRAPPER_TAIL@,
{
    let head = WRAPPER_HEAD@ + wrapper_name(lang, f.name) + "("@ + params_text(
        f.inputs + extra_inputs(lang),
    ) + WRAPPER_COMPLETER@ + args_text(extra_inputs(lang));
    assert(wrapper_text(f, lang) == head + WRAPPER_BIND@ + f.name + "("@ + join(
        f.inputs.map_values(|i: InputModel| i.name),
        ", "@,
    ) + WRAPPER_TAIL@);
}

/// A parameter added at the end of a function is passed on at the end of
/// the wrapped call, after a comma.
pub proof fn lemma_wrapper_call_grows(inputs: Seq<InputModel>, i: InputModel)
    ensures
        inputs.len() > 0 ==> args_text(inputs.push(i)) == args_text(inputs) + ", "@ + i.name,
        args_text(seq![i]) == i.name,
{
    let f = |x: InputModel| x.name;
    crate::text::lemma_join_shape(inputs.map_values(f), ", "@, i.name);
    assert(inputs.push(i).map_values(f) =~= inputs.map_values(f).push(i.name));
    assert(seq![i].map_values(f) =~= seq![i.name]);
}

} // verus!
