//! Reads the `impl` block that the `api` attribute is put on: the type it
//! is for, and the async functions that get bindings.

use heck::ToSnakeCase;
use quote::ToTokens;
use syn::parse::Parser;
use syn::punctuated::Punctuated;
use syn::token::Comma;
use syn::{ImplItem, Item, ItemImpl, MetaNameValue, Type};
use vstd::prelude::*;
use crate::genesis::InputModel;
use crate::interface::{
    parse_signature_syntax, rust_signature_syntax, ArgumentModel, FunctionInputs,
    FunctionSignature, ParsedArgument, ParsedSignature, ParsedSignatureModel, SignatureError,
    SignatureModel,
};

verus! {

/// An `impl` block as the Rust parser reads it.
pub struct ParsedImpl {
    /// The name of the type, when it is a plain identifier.
    pub self_type: Option<String>,
    /// For each item, the text of its signature when it is a function.
    pub items: Vec<Option<String>>,
}

/// Model of a parsed `impl` block.
pub ghost struct ParsedImplModel {
    pub self_type: Option<Seq<char>>,
    pub items: Seq<Option<Seq<char>>>,
}

impl View for ParsedImpl {
    type V = ParsedImplModel;

    open spec fn view(&self) -> ParsedImplModel {
        ParsedImplModel { self_type: self.self_type.deep_view(), items: self.items.deep_view() }
    }
}

impl DeepView for ParsedImpl {
    type V = ParsedImplModel;

    open spec fn deep_view(&self) -> ParsedImplModel {
        self@
    }
}

/// What the Rust parser makes of `text` as an `impl` block, `None` when it
/// is not one.
pub uninterp spec fn rust_impl_syntax(text: Seq<char>) -> Option<ParsedImplModel>;

/// Parses `text` with `syn::parse_str::<syn::ItemImpl>`; reads the type
/// name with `Path::get_ident` and each function item's signature as the
/// text of its tokens (`ToTokens::to_token_stream`, `to_string`). The
/// fallback lexer and printer of `proc_macro2` are forced for the call
/// (`proc_macro2::fallback::force`, then `unforce`), so that the result does
/// not depend on whether the process runs a procedural macro.
///
/// Trusted: the contract only names the result, which depends on `text`
/// alone.
#[verifier::external_body]
pub(crate) fn parse_impl_syntax(text: &str) -> (r: Option<ParsedImpl>)
    ensures
        r.deep_view() == rust_impl_syntax(text@),
{
    proc_macro2::fallback::force();
    let r = syn::parse_str::<ItemImpl>(text).ok().map(|item| ParsedImpl {
        self_type: match &*item.self_ty {
            Type::Path(p) => p.path.get_ident().map(|i| i.to_string()),
            _ => None,
        },
        items: item.items.iter().map(|i| match i {
            ImplItem::Fn(f) => Some(f.sig.to_token_stream().to_string()),
            _ => None,
        }).collect(),
    });
    proc_macro2::fallback::unforce();
    r
}

/// What the Rust parser makes of `text` as an item: `None` when it is not
/// one, else the text of its signature when it is a function.
pub uninterp spec fn rust_item_fn_signature(text: Seq<char>) -> Option<Option<Seq<char>>>;

/// Parses `text` with `syn::parse_str::<syn::Item>` and, for a function,
/// gives the text of its signature's tokens (`ToTokens::to_token_stream`,
/// `to_string`). The fallback lexer and printer of `proc_macro2` are forced
/// for the call (`proc_macro2::fallback::force`, then `unforce`), so that
/// the result does not depend on whether the process runs a procedural
/// macro.
///
/// Trusted: the contract only names the result, which depends on `text`
/// alone.
#[verifier::external_body]
pub(crate) fn parse_item_syntax(text: &str) -> (r: Option<Option<String>>)
    ensures
        r.deep_view() == rust_item_fn_signature(text@),
{
    proc_macro2::fallback::force();
    let r = syn::parse_str::<Item>(text).ok().map(|item| match item {
        Item::Fn(f) => Some(f.sig.to_token_stream().to_string()),
        _ => None,
    });
    proc_macro2::fallback::unforce();
    r
}

/// The number of `name = value` options in `text`, read as a list of them
/// separated by commas; `None` when it is not such a list.
pub uninterp spec fn rust_meta_list_len(text: Seq<char>) -> Option<nat>;

/// Parses `text` with `Punctuated::<syn::MetaNameValue, syn::token::Comma>::
/// parse_terminated` (through `syn::parse::Parser::parse_str`) and counts the
/// options (`Punctuated::len`), with the fallback lexer of `proc_macro2`
/// forced for the call (`proc_macro2::fallback::force`, then `unforce`), so
/// that the result does not depend on whether the process runs a procedural
/// macro.
///
/// Trusted: the contract only names the result, which depends on `text`
/// alone.
#[verifier::external_body]
pub(crate) fn meta_list_len(text: &str) -> (r: Option<usize>)
    ensures
        r matches Some(n) ==> rust_meta_list_len(text@) == Some(n as nat),
        r is None ==> rust_meta_list_len(text@) is None,
{
    proc_macro2::fallback::force();
    let parser = Punctuated::<MetaNameValue, Comma>::parse_terminated;
    let r = parser.parse_str(text).ok().map(|list| list.len());
    proc_macro2::fallback::unforce();
    r
}

/// The snake case form of a name, as `heck` gives it.
pub uninterp spec fn heck_snake_case(name: Seq<char>) -> Seq<char>;

/// The snake case form of `name` by `heck::ToSnakeCase::to_snake_case`.
///
/// Trusted: the contract only names the result, which depends on `name`
/// alone.
#[verifier::external_body]
pub(crate) fn to_snake_case(name: &str) -> (r: String)
    ensures
        r@ == heck_snake_case(name@),
{
    name.to_snake_case()
}

/// Why the `api` attribute can not be applied.
#[derive(Clone, Copy, PartialEq, Eq, Debug)]
pub enum ApiError {
    /// An API option is given; none is supported.
    UnsupportedOption,
    /// The attribute arguments are not a list of `name = value` options,
    /// the item is not an `impl` block, or a signature does not parse.
    Syntax,
    /// The `impl` block is not for a plainly named type.
    UnsupportedSelfType,
    /// An item of the `impl` block is not a function.
    NotAFunction,
    /// A function is not `async`.
    NotAsync,
    /// A function can not be bound (`self` or a pattern parameter).
    Signature(SignatureError),
}

/// The offences of one parameter: a `self` receiver and a pattern can not
/// be bound.
pub open spec fn argument_offences(arg: ArgumentModel) -> Seq<ApiError> {
    match arg {
        ArgumentModel::Receiver => seq![ApiError::Signature(SignatureError::SelfReceiver)],
        ArgumentModel::Typed { ident: None, ty: _ } => seq![
            ApiError::Signature(SignatureError::PatternArgument),
        ],
        ArgumentModel::Typed { ident: Some(_), ty: _ } => Seq::empty(),
    }
}

/// The offences of the parameters, in their order.
pub open spec fn arguments_offences(args: Seq<ArgumentModel>) -> Seq<ApiError>
    decreases args.len(),
{
    if args.len() == 0 {
        Seq::empty()
    } else {
        arguments_offences(args.drop_last()) + argument_offences(args.last())
    }
}

/// Every offence of a parsed signature, in order: not being `async` first,
/// then each parameter that can not be bound.
pub open spec fn signature_offences(p: ParsedSignatureModel) -> Seq<ApiError> {
    (if p.is_async { Seq::empty() } else { seq![ApiError::NotAsync] }) + arguments_offences(
        p.inputs,
    )
}

/// The parameters that can be bound: the plainly named ones, in order.
pub open spec fn bound_inputs(args: Seq<ArgumentModel>) -> Seq<InputModel>
    decreases args.len(),
{
    if args.len() == 0 {
        Seq::empty()
    } else {
        match args.last() {
            ArgumentModel::Typed { ident: Some(n), ty } => bound_inputs(args.drop_last()).push(
                InputModel { name: n, typ: ty },
            ),
            _ => bound_inputs(args.drop_last()),
        }
    }
}

/// The function that a parsed signature describes, with the parameters
/// that can not be bound left out, and every offence in it, in order.
pub open spec fn function_of_signature(p: ParsedSignatureModel) -> (SignatureModel, Seq<ApiError>) {
    (
        SignatureModel { name: p.name, return_type: p.output, inputs: bound_inputs(p.inputs) },
        signature_offences(p),
    )
}

/// The function of one item, if it is a function signature, and every
/// offence in it.
pub open spec fn function_of_item(item: Option<Seq<char>>) -> (Option<SignatureModel>, Seq<ApiError>) {
    match item {
        None => (None, seq![ApiError::NotAFunction]),
        Some(text) => match rust_signature_syntax(text) {
            None => (None, seq![ApiError::Syntax]),
            Some(p) => (Some(function_of_signature(p).0), function_of_signature(p).1),
        },
    }
}

/// The functions of the items, and the offences of all items, each in the
/// order of the items.
pub open spec fn collect_items(items: Seq<Option<Seq<char>>>) -> (Seq<SignatureModel>, Seq<ApiError>)
    decreases items.len(),
{
    if items.len() == 0 {
        (Seq::empty(), Seq::empty())
    } else {
        let prev = collect_items(items.drop_last());
        let (f, es) = function_of_item(items.last());
        match f {
            Some(f) => (prev.0.push(f), prev.1 + es),
            None => (prev.0, prev.1 + es),
        }
    }
}

/// Model of an API: the type, the module its generated file is, and the
/// functions.
pub ghost struct ApiModel {
    pub type_ident: Seq<char>,
    pub mod_name: Seq<char>,
    pub functions: Seq<SignatureModel>,
}

/// The API that the attribute arguments `attrs` and the item `item` give,
/// with the offences found in its functions; or why there is none. The
/// attribute arguments must be a list of `name = value` options, and no
/// option is supported.
pub open spec fn api_of(attrs: Seq<char>, item: Seq<char>) -> Result<(ApiModel, Seq<ApiError>), Seq<ApiError>> {
    match rust_meta_list_len(attrs) {
        None => Err(seq![ApiError::Syntax]),
        Some(n) => if n > 0 {
            Err(seq![ApiError::UnsupportedOption])
        } else {
            match rust_impl_syntax(item) {
                None => Err(seq![ApiError::Syntax]),
                Some(im) => match im.self_type {
                    None => Err(seq![ApiError::UnsupportedSelfType]),
                    Some(t) => Ok(
                        (
                            ApiModel {
                                type_ident: t,
                                mod_name: heck_snake_case(t),
                                functions: collect_items(im.items).0,
                            },
                            collect_items(im.items).1,
                        ),
                    ),
                },
            }
        },
    }
}

/// An API: the type the `impl` block is for, the module of its generated
/// file, and its async functions.
pub struct Api {
    type_ident: String,
    mod_name: String,
    functions: Vec<FunctionSignature>,
}

impl View for Api {
    type V = ApiModel;

    closed spec fn view(&self) -> ApiModel {
        ApiModel {
            type_ident: self.type_ident@,
            mod_name: self.mod_name@,
            functions: self.functions.deep_view(),
        }
    }
}

/// The function that a parsed signature describes, with the parameters
/// that can not be bound left out, and every offence in it, in order.
pub fn function_from_signature(p: &ParsedSignature) -> (r: (FunctionSignature, Vec<ApiError>))
    ensures
        r.0@ == function_of_signature(p@).0,
        r.1@ == function_of_signature(p@).1,
{
    let ghost args = p.inputs.deep_view();
    let mut errs: Vec<ApiError> = Vec::new();
    if !p.is_async {
        errs.push(ApiError::NotAsync);
    }
    let ghost head = errs@;
    let mut inputs: Vec<FunctionInputs> = Vec::new();
    assert(errs@ =~= head + arguments_offences(args.take(0)));
    assert(inputs.deep_view() =~= bound_inputs(args.take(0)));
    let mut k: usize = 0;
    while k < p.inputs.len()
        invariant
            args == p.inputs.deep_view(),
            k <= args.len(),
            head == (if p.is_async { Seq::<ApiError>::empty() } else { seq![ApiError::NotAsync] }),
            errs@ == head + arguments_offences(args.take(k as int)),
            inputs.deep_view() == bound_inputs(args.take(k as int)),
        decreases args.len() - k,
    {
        assert(args.take(k + 1).drop_last() =~= args.take(k as int));
        assert(args.take(k + 1).last() == p.inputs@[k as int]@);
        match &p.inputs[k] {
            ParsedArgument::Receiver => {
                errs.push(ApiError::Signature(SignatureError::SelfReceiver));
            },
            ParsedArgument::Typed { ident: None, ty: _ } => {
                errs.push(ApiError::Signature(SignatureError::PatternArgument));
            },
            ParsedArgument::Typed { ident: Some(n), ty } => {
                let inp = FunctionInputs::new(n.clone(), ty.clone());
                let ghost prev = inputs.deep_view();
                inputs.push(inp);
                assert(inputs.deep_view() =~= prev.push(inp@));
            },
        }
        assert(errs@ =~= head + arguments_offences(args.take(k + 1)));
        k = k + 1;
    }
    assert(args.take(k as int) =~= args);
    (FunctionSignature::from_parts(&p.name, &p.output, inputs), errs)
}

/// The function of one item, if it is a function signature, and every
/// offence in it.
fn function_from_item(item: &Option<String>) -> (r: (Option<FunctionSignature>, Vec<ApiError>))
    ensures
        r.0.deep_view() == function_of_item(item.deep_view()).0,
        r.1@ == function_of_item(item.deep_view()).1,
{
    let text = match item {
        None => {
            return (None, vec![ApiError::NotAFunction]);
        },
        Some(t) => t,
    };
    match parse_signature_syntax(text.as_str()) {
        None => (None, vec![ApiError::Syntax]),
        Some(p) => {
            let (f, es) = function_from_signature(&p);
            (Some(f), es)
        },
    }
}

impl Api {
    /// Reads the API from the attribute arguments and the `impl` block,
    /// with every offence found in its functions, in order; or why there is
    /// no API.
    pub fn parse(attrs: &str, item: &str) -> (r: Result<(Self, Vec<ApiError>), Vec<ApiError>>)
        ensures
            match api_of(attrs@, item@) {
                Ok((a, es)) => r matches Ok((api, v)) && api@ == a && v@ == es,
                Err(es) => r matches Err(v) && v@ == es,
            },
    {
        match meta_list_len(attrs) {
            None => {
                return Err(vec![ApiError::Syntax]);
            },
            Some(n) => {
                if n > 0 {
                    return Err(vec![ApiError::UnsupportedOption]);
                }
            },
        }
        let im = match parse_impl_syntax(item) {
            None => {
                return Err(vec![ApiError::Syntax]);
            },
            Some(im) => im,
        };
        let type_ident = match &im.self_type {
            None => {
                return Err(vec![ApiError::UnsupportedSelfType]);
            },
            Some(t) => t.clone(),
        };
        let ghost items = im.items.deep_view();
        let mut functions: Vec<FunctionSignature> = Vec::new();
        let mut errs: Vec<ApiError> = Vec::new();
        let mut k: usize = 0;
        assert(items.take(0) =~= Seq::<Option<Seq<char>>>::empty());
        assert(functions.deep_view() =~= Seq::<SignatureModel>::empty());
        assert(errs@ =~= Seq::<ApiError>::empty());
        while k < im.items.len()
            invariant
                items == im.items.deep_view(),
                k <= items.len(),
                collect_items(items.take(k as int)) == (functions.deep_view(), errs@),
            decreases items.len() - k,
        {
            assert(items.take(k + 1).drop_last() =~= items.take(k as int));
            assert(items.take(k + 1).last() == im.items@[k as int].deep_view());
            let (f, mut es) = function_from_item(&im.items[k]);
            match f {
                Some(f) => {
                    let ghost prev = functions.deep_view();
                    functions.push(f);
                    assert(functions.deep_view() =~= prev.push(f@));
                },
                None => {},
            }
            let ghost prev = errs@;
            let ghost new = es@;
            errs.append(&mut es);
            assert(errs@ =~= prev + new);
            k = k + 1;
        }
        assert(items.take(k as int) =~= items);
        let mod_name = to_snake_case(type_ident.as_str());
        Ok((Api { type_ident, mod_name, functions }, errs))
    }

    /// The name of the type.
    pub fn type_ident(&self) -> (r: &str)
        ensures
            r@ == self@.type_ident,
    {
        self.type_ident.as_str()
    }

    /// The name of the module of the generated file.
    pub fn mod_name(&self) -> (r: &str)
        ensures
            r@ == self@.mod_name,
    {
        self.mod_name.as_str()
    }

    /// The functions.
    pub fn functions(&self) -> (r: &Vec<FunctionSignature>)
        ensures
            r.deep_view() == self@.functions,
    {
        &self.functions
    }
}

/// The function that an annotated item is, if it is a function signature,
/// and every offence in it.
pub open spec fn annotated_function(item: Seq<char>) -> (Option<SignatureModel>, Seq<ApiError>) {
    match rust_item_fn_signature(item) {
        None => (None, seq![ApiError::Syntax]),
        Some(sig) => function_of_item(sig),
    }
}

/// Reads an annotated item, which must be an async function whose
/// parameters can all be bound: the function with the parameters that can
/// not be bound left out, and every offence found, in order.
pub fn parse_annotated_function(item: &str) -> (r: (Option<FunctionSignature>, Vec<ApiError>))
    ensures
        r.0.deep_view() == annotated_function(item@).0,
        r.1@ == annotated_function(item@).1,
{
    match parse_item_syntax(item) {
        None => (None, vec![ApiError::Syntax]),
        Some(sig) => function_from_item(&sig),
    }
}

} // verus!
