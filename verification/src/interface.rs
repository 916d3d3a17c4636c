//! The interface description: one Rust async function signature per line,
//! read into the functions that bindings are generated for.

use quote::ToTokens;
use syn::{FnArg, Pat, ReturnType, Signature};
use vstd::prelude::*;
use crate::genesis::InputModel;
use crate::text::{
    chars_of, decimal, line_spans, push_decimal, push_str, split_lines, string_from_range, trim,
    trim_range,
};

verus! {

/// The std path type, carried through unchanged.
#[verifier::external_type_specification]
#[verifier::external_body]
pub struct ExPathBuf(std::path::PathBuf);

/// Where the interface description is read from and where the generated
/// bindings go.
pub struct Config {
    pub interface_description: std::path::PathBuf,
    pub rust_out: std::path::PathBuf,
    pub dart_out: std::path::PathBuf,
    pub emit_cargo_hints: bool,
}

/// The languages that bindings can be generated for.
#[derive(Clone, Copy, PartialEq, Eq, Debug)]
pub enum Language {
    Dart,
}

/// The name of a language as it appears in generated names.
pub open spec fn language_name(lang: Language) -> Seq<char> {
    match lang {
        Language::Dart => "dart"@,
    }
}

impl Language {
    /// The name of the language as it appears in generated names.
    pub fn as_str(&self) -> (r: &'static str)
        ensures
            r@ == language_name(*self),
    {
        match self {
            Language::Dart => "dart",
        }
    }
}

/// One parameter: its name and its type as written.
pub struct FunctionInputs {
    name: String,
    typ: String,
}

impl View for FunctionInputs {
    type V = InputModel;

    closed spec fn view(&self) -> InputModel {
        InputModel { name: self.name@, typ: self.typ@ }
    }
}

impl DeepView for FunctionInputs {
    type V = InputModel;

    open spec fn deep_view(&self) -> InputModel {
        self@
    }
}

impl FunctionInputs {
    /// A parameter with this name and type.
    pub fn new(name: String, typ: String) -> (r: Self)
        ensures
            r@ == (InputModel { name: name@, typ: typ@ }),
    {
        FunctionInputs { name, typ }
    }

    /// The name of the parameter.
    pub fn name(&self) -> (r: &str)
        ensures
            r@ == self@.name,
    {
        self.name.as_str()
    }

    /// The type of the parameter.
    pub fn typ(&self) -> (r: &str)
        ensures
            r@ == self@.typ,
    {
        self.typ.as_str()
    }
}

/// Model of a function signature.
pub ghost struct SignatureModel {
    pub name: Seq<char>,
    pub return_type: Option<Seq<char>>,
    pub inputs: Seq<InputModel>,
}

/// A function of the interface: its name, return type and parameters, each
/// as written in the description.
pub struct FunctionSignature {
    name: String,
    return_type: Option<String>,
    inputs: Vec<FunctionInputs>,
}

impl View for FunctionSignature {
    type V = SignatureModel;

    closed spec fn view(&self) -> SignatureModel {
        SignatureModel {
            name: self.name@,
            return_type: self.return_type.deep_view(),
            inputs: self.inputs.deep_view(),
        }
    }
}

impl DeepView for FunctionSignature {
    type V = SignatureModel;

    open spec fn deep_view(&self) -> SignatureModel {
        self@
    }
}

/// The name of the exported wrapper of function `name` for `lang`.
pub open spec fn wrapper_name(lang: Language, name: Seq<char>) -> Seq<char> {
    "easync_"@ + language_name(lang) + "__"@ + name
}

impl FunctionSignature {
    /// The name of the function.
    pub fn name(&self) -> (r: &str)
        ensures
            r@ == self@.name,
    {
        self.name.as_str()
    }

    /// The return type, if the function declares one.
    pub fn return_type(&self) -> (r: Option<&str>)
        ensures
            r.deep_view() == self@.return_type,
    {
        match &self.return_type {
            Some(t) => Some(t.as_str()),
            None => None,
        }
    }

    /// The parameters.
    pub fn inputs(&self) -> (r: &Vec<FunctionInputs>)
        ensures
            r.deep_view() == self@.inputs,
    {
        &self.inputs
    }

    /// The name of the exported wrapper of this function for `lang`.
    pub fn ffi_wrapper_name(&self, lang: Language) -> (r: String)
        ensures
            r@ == wrapper_name(lang, self@.name),
    {
        let mut r = String::from_str("easync_");
        push_str(&mut r, lang.as_str());
        push_str(&mut r, "__");
        push_str(&mut r, self.name.as_str());
        r
    }
}


/// One parameter of a parsed signature.
pub enum ParsedArgument {
    /// A `self` receiver.
    Receiver,
    /// A typed parameter; `ident` is its name when the pattern is a plain
    /// identifier.
    Typed { ident: Option<String>, ty: String },
}

/// A function signature as the Rust parser reads it; types are given as
/// the text of their tokens.
pub struct ParsedSignature {
    pub is_async: bool,
    pub name: String,
    pub output: Option<String>,
    pub inputs: Vec<ParsedArgument>,
}

/// Model of a parsed parameter.
pub ghost enum ArgumentModel {
    Receiver,
    Typed { ident: Option<Seq<char>>, ty: Seq<char> },
}

/// Model of a parsed signature.
pub ghost struct ParsedSignatureModel {
    pub is_async: bool,
    pub name: Seq<char>,
    pub output: Option<Seq<char>>,
    pub inputs: Seq<ArgumentModel>,
}

impl View for ParsedArgument {
    type V = ArgumentModel;

    open spec fn view(&self) -> ArgumentModel {
        match self {
            ParsedArgument::Receiver => ArgumentModel::Receiver,
            ParsedArgument::Typed { ident, ty } => ArgumentModel::Typed {
                ident: ident.deep_view(),
                ty: ty@,
            },
        }
    }
}

impl DeepView for ParsedArgument {
    type V = ArgumentModel;

    open spec fn deep_view(&self) -> ArgumentModel {
        self@
    }
}

impl View for ParsedSignature {
    type V = ParsedSignatureModel;

    open spec fn view(&self) -> ParsedSignatureModel {
        ParsedSignatureModel {
            is_async: self.is_async,
            name: self.name@,
            output: self.output.deep_view(),
            inputs: self.inputs.deep_view(),
        }
    }
}

impl DeepView for ParsedSignature {
    type V = ParsedSignatureModel;

    open spec fn deep_view(&self) -> ParsedSignatureModel {
        self@
    }
}

/// What the Rust parser makes of `text` as a function signature, `None`
/// when it is not one.
pub uninterp spec fn rust_signature_syntax(text: Seq<char>) -> Option<ParsedSignatureModel>;

/// Parses `text` with `syn::parse_str::<syn::Signature>` and reads the
/// name, asyncness, return type and parameters; types are turned into text
/// with `ToTokens::to_token_stream` and `to_string`. The fallback lexer and
/// printer of `proc_macro2` are forced for the call
/// (`proc_macro2::fallback::force`, then `unforce`), so that the result does
/// not depend on whether the process runs a procedural macro.
///
/// Trusted: the contract only names the result, which depends on `text`
/// alone; what the parser accepts is not stated.
#[verifier::external_body]
pub(crate) fn parse_signature_syntax(text: &str) -> (r: Option<ParsedSignature>)
    ensures
        r.deep_view() == rust_signature_syntax(text@),
{
    proc_macro2::fallback::force();
    let r = syn::parse_str::<Signature>(text).ok().map(|sig| ParsedSignature {
        is_async: sig.asyncness.is_some(),
        name: sig.ident.to_string(),
        output: if let ReturnType::Type(_, t) = &sig.output { Some(t.to_token_stream().to_string()) } else { None },
        inputs: sig.inputs.iter().map(|a| match a {
            FnArg::Receiver(_) => ParsedArgument::Receiver,
            FnArg::Typed(t) => ParsedArgument::Typed {
                ident: if let Pat::Ident(p) = &*t.pat { Some(p.ident.to_string()) } else { None },
                ty: t.ty.to_token_stream().to_string(),
            },
        }).collect(),
    });
    proc_macro2::fallback::unforce();
    r
}

/// The message of the Rust parser's error on `text` read as a function
/// signature; empty when it parses.
pub uninterp spec fn rust_signature_syntax_error(text: Seq<char>) -> Seq<char>;

/// The text of the error (`Display` of `syn::Error`) that
/// `syn::parse_str::<syn::Signature>` gives on `text`, with the fallback
/// lexer of `proc_macro2` forced as for `parse_signature_syntax`; empty when
/// `text` parses.
///
/// Trusted: the contract only names the result, which depends on `text`
/// alone.
#[verifier::external_body]
pub(crate) fn signature_syntax_error(text: &str) -> (r: String)
    ensures
        r@ == rust_signature_syntax_error(text@),
{
    proc_macro2::fallback::force();
    let r = syn::parse_str::<Signature>(text).err().map(|e| e.to_string()).unwrap_or_default();
    proc_macro2::fallback::unforce();
    r
}

/// Why a line of the interface description is not a function that can be
/// wrapped.
#[derive(Clone, Copy, PartialEq, Eq, Debug)]
pub enum SignatureError {
    /// The line is not a Rust function signature.
    Syntax,
    /// The function takes `self`; methods can not be wrapped.
    SelfReceiver,
    /// A parameter is a pattern rather than a plain name.
    PatternArgument,
}

/// The parameters of a parsed signature, or the error of the first one
/// that can not be wrapped.
pub open spec fn inputs_of_arguments(args: Seq<ArgumentModel>) -> Result<Seq<InputModel>, SignatureError>
    decreases args.len(),
{
    if args.len() == 0 {
        Ok(Seq::empty())
    } else {
        match inputs_of_arguments(args.drop_last()) {
            Err(e) => Err(e),
            Ok(prev) => match args.last() {
                ArgumentModel::Receiver => Err(SignatureError::SelfReceiver),
                ArgumentModel::Typed { ident: None, ty: _ } => Err(SignatureError::PatternArgument),
                ArgumentModel::Typed { ident: Some(n), ty } => Ok(
                    prev.push(InputModel { name: n, typ: ty }),
                ),
            },
        }
    }
}

/// The interface function that a parsed signature describes.
pub open spec fn signature_of_syntax(p: ParsedSignatureModel) -> Result<SignatureModel, SignatureError> {
    match inputs_of_arguments(p.inputs) {
        Ok(inputs) => Ok(SignatureModel { name: p.name, return_type: p.output, inputs: inputs }),
        Err(e) => Err(e),
    }
}

/// The interface function that one line of text describes.
pub open spec fn signature_of_text(text: Seq<char>) -> Result<SignatureModel, SignatureError> {
    match rust_signature_syntax(text) {
        Some(p) => signature_of_syntax(p),
        None => Err(SignatureError::Syntax),
    }
}

impl FunctionSignature {
    /// The function made of a name, a return type and parameters.
    pub(crate) fn from_parts(name: &String, return_type: &Option<String>, inputs: Vec<FunctionInputs>) -> (r: Self)
        ensures
            r@ == (SignatureModel { name: name@, return_type: return_type.deep_view(), inputs: inputs.deep_view() }),
    {
        FunctionSignature { name: name.clone(), return_type: copy_opt_string(return_type), inputs }
    }

    /// The interface function that a parsed signature describes.
    pub fn from_syntax(p: &ParsedSignature) -> (r: Result<Self, SignatureError>)
        ensures
            match r {
                Ok(f) => signature_of_syntax(p@) == Ok::<SignatureModel, SignatureError>(f@),
                Err(e) => signature_of_syntax(p@) == Err::<SignatureModel, SignatureError>(e),
            },
    {
        let ghost args = p.inputs.deep_view();
        let mut inputs: Vec<FunctionInputs> = Vec::new();
        let mut k: usize = 0;
        assert(args.take(0) =~= Seq::<ArgumentModel>::empty());
        assert(inputs.deep_view() =~= Seq::<InputModel>::empty());
        while k < p.inputs.len()
            invariant
                args == p.inputs.deep_view(),
                k <= args.len(),
                inputs_of_arguments(args.take(k as int)) == Ok::<Seq<InputModel>, SignatureError>(
                    inputs.deep_view(),
                ),
            decreases args.len() - k,
        {
            assert(args.take(k + 1).drop_last() =~= args.take(k as int));
            assert(args.take(k + 1).last() == p.inputs@[k as int]@);
            match &p.inputs[k] {
                ParsedArgument::Receiver => {
                    proof {
                        lemma_first_error_stays(args, k as int + 1);
                    }
                    return Err(SignatureError::SelfReceiver);
                },
                ParsedArgument::Typed { ident: None, ty: _ } => {
                    proof {
                        lemma_first_error_stays(args, k as int + 1);
                    }
                    return Err(SignatureError::PatternArgument);
                },
                ParsedArgument::Typed { ident: Some(n), ty } => {
                    let inp = FunctionInputs::new(n.clone(), ty.clone());
                    let ghost prev = inputs.deep_view();
                    inputs.push(inp);
                    assert(inputs.deep_view() =~= prev.push(inp@));
                },
            }
            k = k + 1;
        }
        assert(args.take(k as int) =~= args);
        Ok(FunctionSignature { name: p.name.clone(), return_type: copy_opt_string(&p.output), inputs })
    }
}

/// Once a prefix of the parameters fails, the whole list fails the same way.
pub proof fn lemma_first_error_stays(args: Seq<ArgumentModel>, k: int)
    requires
        0 <= k <= args.len(),
        inputs_of_arguments(args.take(k)) is Err,
    ensures
        inputs_of_arguments(args) == inputs_of_arguments(args.take(k)),
    decreases args.len() - k,
{
    if k < args.len() {
        assert(args.take(k + 1).drop_last() =~= args.take(k));
        lemma_first_error_stays(args, k + 1);
    } else {
        assert(args.take(k) =~= args);
    }
}

/// A copy of an optional string.
fn copy_opt_string(s: &Option<String>) -> (r: Option<String>)
    ensures
        r.deep_view() == s.deep_view(),
{
    match s {
        Some(t) => Some(t.clone()),
        None => None,
    }
}


/// The functions of an interface, in the order of their lines.
pub struct InterfaceDescription {
    functions: Vec<FunctionSignature>,
}

impl View for InterfaceDescription {
    type V = Seq<SignatureModel>;

    closed spec fn view(&self) -> Seq<SignatureModel> {
        self.functions.deep_view()
    }
}

/// A line of the interface description that could not be read.
#[derive(Clone, PartialEq, Eq, Debug)]
pub struct LineError {
    /// The index of the line, counting from zero.
    pub line: usize,
    /// What is wrong with it.
    pub error: SignatureError,
    /// The text of the error: the parser's message, or what can not be
    /// wrapped.
    pub detail: String,
}

/// The message for a function that takes `self`.
pub const SELF_RECEIVER_MESSAGE: &'static str = "can not wrap methods, but fund self receiver";

/// The message for a function with a pattern parameter.
pub const PATTERN_ARGUMENT_MESSAGE: &'static str = "can not wrap functions with patterns in the function arguments";

/// The start of the message of a line error, before the line's index.
pub const LINE_ERROR_HEAD: &'static str = "Parsing function signature on line ";

/// Between the line's index and the detail of a line error.
pub const LINE_ERROR_MIDDLE: &'static str = " failed: ";

/// The text of `error` on the line `text`.
pub open spec fn error_detail(error: SignatureError, text: Seq<char>) -> Seq<char> {
    match error {
        SignatureError::Syntax => rust_signature_syntax_error(text),
        SignatureError::SelfReceiver => SELF_RECEIVER_MESSAGE@,
        SignatureError::PatternArgument => PATTERN_ARGUMENT_MESSAGE@,
    }
}

/// The text of `error` on the line `text`.
fn error_detail_text(error: SignatureError, text: &str) -> (r: String)
    ensures
        r@ == error_detail(error, text@),
{
    match error {
        SignatureError::Syntax => signature_syntax_error(text),
        SignatureError::SelfReceiver => String::from_str(SELF_RECEIVER_MESSAGE),
        SignatureError::PatternArgument => String::from_str(PATTERN_ARGUMENT_MESSAGE),
    }
}

/// The message of a line error: the line's index (counting from zero) and
/// the detail.
pub open spec fn line_error_message(line: nat, detail: Seq<char>) -> Seq<char> {
    LINE_ERROR_HEAD@ + decimal(line) + LINE_ERROR_MIDDLE@ + detail
}

impl LineError {
    /// The text of the error.
    pub fn message(&self) -> (r: String)
        ensures
            r@ == line_error_message(self.line as nat, self.detail@),
    {
        let mut r = String::from_str(LINE_ERROR_HEAD);
        push_decimal(&mut r, self.line);
        push_str(&mut r, LINE_ERROR_MIDDLE);
        push_str(&mut r, self.detail.as_str());
        r
    }
}

/// Reads the first `k` lines after `start`: each non-empty trimmed line adds
/// its function, until a line fails; the result is the functions read and
/// the index and error of the failing line, if any.
pub open spec fn read_lines(
    start: Seq<SignatureModel>,
    lines: Seq<Seq<char>>,
    k: int,
) -> (Seq<SignatureModel>, Option<(int, SignatureError)>)
    decreases k,
{
    if k <= 0 {
        (start, None)
    } else {
        let (fs, err) = read_lines(start, lines, k - 1);
        if err is Some || trim(lines[k - 1]).len() == 0 {
            (fs, err)
        } else {
            match signature_of_text(trim(lines[k - 1])) {
                Ok(f) => (fs.push(f), None),
                Err(e) => (fs, Some((k - 1, e))),
            }
        }
    }
}

/// Reading all lines of `src` after `start`.
pub open spec fn read_source(start: Seq<SignatureModel>, src: Seq<char>) -> (
    Seq<SignatureModel>,
    Option<(int, SignatureError)>,
) {
    read_lines(start, split_lines(src), split_lines(src).len() as int)
}

impl InterfaceDescription {
    /// An interface without functions.
    pub fn empty() -> (r: Self)
        ensures
            r@ == Seq::<SignatureModel>::empty(),
    {
        let r = InterfaceDescription { functions: Vec::new() };
        assert(r@ =~= Seq::<SignatureModel>::empty());
        r
    }

    /// The functions read so far.
    pub fn functions(&self) -> (r: &Vec<FunctionSignature>)
        ensures
            r.deep_view() == self@,
    {
        &self.functions
    }

    /// Reads one function signature and adds it; on an error nothing is
    /// added.
    pub fn parse_function(&mut self, function: &str) -> (r: Result<(), SignatureError>)
        ensures
            match signature_of_text(function@) {
                Ok(f) => r is Ok && final(self)@ == old(self)@.push(f),
                Err(e) => r == Err::<(), SignatureError>(e) && final(self)@ == old(self)@,
            },
    {
        let parsed = match parse_signature_syntax(function) {
            Some(p) => p,
            None => {
                return Err(SignatureError::Syntax);
            },
        };
        let f = FunctionSignature::from_syntax(&parsed)?;
        let ghost prev = self.functions.deep_view();
        self.functions.push(f);
        assert(self.functions.deep_view() =~= prev.push(f@));
        Ok(())
    }

    /// Reads each non-empty line of `src` as a function signature, stopping
    /// at the first line that fails.
    pub fn parse_functions(&mut self, src: &str) -> (r: Result<(), LineError>)
        ensures
            final(self)@ == read_source(old(self)@, src@).0,
            match read_source(old(self)@, src@).1 {
                None => r is Ok,
                Some((line, error)) => r matches Err(le) && le.line == line && le.error == error
                    && le.detail@ == error_detail(error, trim(split_lines(src@)[line])),
            },
    {
        let v = chars_of(src);
        let spans = line_spans(&v);
        let ghost lines = split_lines(v@);
        let ghost start = self@;
        let mut k: usize = 0;
        while k < spans.len()
            invariant
                v@ == src@,
                start == old(self)@,
                lines == split_lines(v@),
                spans@.len() == lines.len(),
                k <= spans@.len(),
                forall|j: int|
                    0 <= j < spans@.len() ==> {
                        &&& (#[trigger] spans@[j]).0 <= spans@[j].1 <= v@.len()
                        &&& v@.subrange(spans@[j].0 as int, spans@[j].1 as int) == lines[j]
                    },
                read_lines(start, lines, k as int) == (self@, None::<(int, SignatureError)>),
            decreases spans@.len() - k,
        {
            let (lo, hi) = spans[k];
            let (a, b) = trim_range(&v, lo, hi);
            assert(v@.subrange(a as int, b as int) == trim(lines[k as int]));
            if a < b {
                let line = string_from_range(&v, a, b);
                assert(line@ == trim(lines[k as int]));
                let ghost before = self@;
                match self.parse_function(line.as_str()) {
                    Ok(()) => {
                        assert(read_lines(start, lines, k + 1) == (self@, None::<(int, SignatureError)>));
                    },
                    Err(e) => {
                        assert(read_lines(start, lines, k + 1) == (self@, Some((k as int, e))));
                        proof {
                            lemma_read_lines_stop(start, lines, k as int + 1);
                        }
                        let detail = error_detail_text(e, line.as_str());
                        return Err(LineError { line: k, error: e, detail });
                    },
                }
            }
            k = k + 1;
        }
        Ok(())
    }

    /// Reads an interface description.
    pub fn parse(src: &str) -> (r: Result<Self, LineError>)
        ensures
            match r {
                Ok(ifd) => read_source(Seq::empty(), src@) == (ifd@, None::<(int, SignatureError)>),
                Err(e) => read_source(Seq::empty(), src@).1 == Some((e.line as int, e.error))
                    && e.detail@ == error_detail(e.error, trim(split_lines(src@)[e.line as int])),
            },
    {
        let mut ifd = Self::empty();
        match ifd.parse_functions(src) {
            Ok(()) => Ok(ifd),
            Err(e) => Err(e),
        }
    }
}

/// After a failing line, reading further lines changes nothing.
pub proof fn lemma_read_lines_stop(start: Seq<SignatureModel>, lines: Seq<Seq<char>>, k: int)
    requires
        0 <= k <= lines.len(),
        read_lines(start, lines, k).1 is Some,
    ensures
        read_lines(start, lines, lines.len() as int) == read_lines(start, lines, k),
    decreases lines.len() - k,
{
    if k < lines.len() {
        lemma_read_lines_stop(start, lines, k + 1);
    }
}

} // verus!
