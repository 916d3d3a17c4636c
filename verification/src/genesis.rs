//! Ad-hoc reading of the Dart bindings that ffigen produces: finds the pairs
//! of glue functions (`async_bindgen_dart_c__*` starts a call,
//! `async_bindgen_dart_r__*` extracts its result) and joins each pair into
//! the signature of one async Dart function.

use vstd::prelude::*;
use crate::text::{
    chars_of, lemma_last_index_of, rfind_in_range, rsplit_once, string_from_range, trim,
    strip_prefix, strip_prefix_str, trim_end_matches, trim_end_matches_range, trim_range,
    trimmed_lines, trimmed_non_empty_lines,
};

verus! {

/// One parameter of a Dart function.
pub struct DartFunctionInputs {
    pub name: String,
    pub typ: String,
}

/// A Dart function signature as found in the bindings.
pub struct DartFunctionSignature {
    pub doc: Vec<String>,
    pub name: String,
    pub output: String,
    pub inputs: Vec<DartFunctionInputs>,
}

/// An async function, assembled from its call and its result glue function.
pub struct AsyncFunctionSignature {
    pub doc: Vec<String>,
    pub name: String,
    pub ffi_call_name: String,
    pub ffi_ret_name: String,
    pub output: String,
    pub inputs: Vec<DartFunctionInputs>,
}

/// The named groups of one match of the signature pattern.
pub struct DartSignatureMatch {
    pub doc: Option<String>,
    pub output: Option<String>,
    pub func_name: Option<String>,
    pub inputs: Option<String>,
}

/// Model of a parameter.
pub ghost struct InputModel {
    pub name: Seq<char>,
    pub typ: Seq<char>,
}

/// Model of a Dart function signature.
pub ghost struct DartSignatureModel {
    pub doc: Seq<Seq<char>>,
    pub name: Seq<char>,
    pub output: Seq<char>,
    pub inputs: Seq<InputModel>,
}

/// Model of an async function signature.
pub ghost struct AsyncSignatureModel {
    pub doc: Seq<Seq<char>>,
    pub name: Seq<char>,
    pub ffi_call_name: Seq<char>,
    pub ffi_ret_name: Seq<char>,
    pub output: Seq<char>,
    pub inputs: Seq<InputModel>,
}

/// Model of the groups of one match.
pub ghost struct MatchModel {
    pub doc: Option<Seq<char>>,
    pub output: Option<Seq<char>>,
    pub func_name: Option<Seq<char>>,
    pub inputs: Option<Seq<char>>,
}

impl View for DartFunctionInputs {
    type V = InputModel;

    open spec fn view(&self) -> InputModel {
        InputModel { name: self.name@, typ: self.typ@ }
    }
}

impl DeepView for DartFunctionInputs {
    type V = InputModel;

    open spec fn deep_view(&self) -> InputModel {
        self@
    }
}

impl View for DartFunctionSignature {
    type V = DartSignatureModel;

    open spec fn view(&self) -> DartSignatureModel {
        DartSignatureModel {
            doc: self.doc.deep_view(),
            name: self.name@,
            output: self.output@,
            inputs: self.inputs.deep_view(),
        }
    }
}

impl DeepView for DartFunctionSignature {
    type V = DartSignatureModel;

    open spec fn deep_view(&self) -> DartSignatureModel {
        self@
    }
}

impl View for AsyncFunctionSignature {
    type V = AsyncSignatureModel;

    open spec fn view(&self) -> AsyncSignatureModel {
        AsyncSignatureModel {
            doc: self.doc.deep_view(),
            name: self.name@,
            ffi_call_name: self.ffi_call_name@,
            ffi_ret_name: self.ffi_ret_name@,
            output: self.output@,
            inputs: self.inputs.deep_view(),
        }
    }
}

impl DeepView for AsyncFunctionSignature {
    type V = AsyncSignatureModel;

    open spec fn deep_view(&self) -> AsyncSignatureModel {
        self@
    }
}

impl View for DartSignatureMatch {
    type V = MatchModel;

    open spec fn view(&self) -> MatchModel {
        MatchModel {
            doc: self.doc.deep_view(),
            output: self.output.deep_view(),
            func_name: self.func_name.deep_view(),
            inputs: self.inputs.deep_view(),
        }
    }
}

impl DeepView for DartSignatureMatch {
    type V = MatchModel;

    open spec fn deep_view(&self) -> MatchModel {
        self@
    }
}

/// The trimmed, non-empty lines of a group; none for a group that did not
/// take part in the match.
pub open spec fn group_lines(group: Option<Seq<char>>) -> Seq<Seq<char>> {
    match group {
        Some(s) => trimmed_lines(s),
        None => Seq::empty(),
    }
}

/// A parameter line such as `ffi.Pointer<CFoo> foo,`: trailing commas
/// dropped, then split at the last space into type and name; a line
/// without a space gives no parameter.
pub open spec fn input_from_line(line: Seq<char>) -> Option<InputModel> {
    match rsplit_once(trim_end_matches(line, ','), ' ') {
        Some((t, n)) => Some(InputModel { name: n, typ: t }),
        None => None,
    }
}

/// The parameters read from the lines of the inputs group, in order.
pub open spec fn inputs_from_lines(lines: Seq<Seq<char>>) -> Seq<InputModel>
    decreases lines.len(),
{
    if lines.len() == 0 {
        Seq::empty()
    } else {
        let prev = inputs_from_lines(lines.drop_last());
        match input_from_line(lines.last()) {
            Some(inp) => prev.push(inp),
            None => prev,
        }
    }
}

/// The signature that one match describes.
pub open spec fn signature_from_match(m: MatchModel) -> DartSignatureModel {
    DartSignatureModel {
        doc: group_lines(m.doc),
        name: trim(m.func_name.unwrap()),
        output: trim(m.output.unwrap()),
        inputs: inputs_from_lines(group_lines(m.inputs)),
    }
}

/// The trimmed, non-empty lines of a capture group.
pub fn captures_as_trimmed_lines(group: &Option<String>) -> (r: Vec<String>)
    ensures
        r.deep_view() == group_lines(group.deep_view()),
{
    match group {
        Some(s) => trimmed_non_empty_lines(s.as_str()),
        None => Vec::new(),
    }
}

/// The doc comment lines of a match.
pub fn get_doc_from_captures(m: &DartSignatureMatch) -> (r: Vec<String>)
    ensures
        r.deep_view() == group_lines(m@.doc),
{
    captures_as_trimmed_lines(&m.doc)
}

/// Reads the parameter in one line, if it has one.
fn input_from_line_exec(line: &str) -> (r: Option<DartFunctionInputs>)
    ensures
        r.deep_view() == input_from_line(line@),
{
    let v = chars_of(line);
    let end = trim_end_matches_range(&v, 0, v.len(), ',');
    assert(v@.subrange(0, v@.len() as int) =~= v@);
    let ghost t = v@.subrange(0, end as int);
    match rfind_in_range(&v, 0, end, ' ') {
        Some(i) => {
            proof {
                lemma_last_index_of(t, ' ');
            }
            let typ = string_from_range(&v, 0, i);
            let name = string_from_range(&v, i + 1, end);
            assert(t.take(i as int) =~= v@.subrange(0, i as int));
            assert(t.skip(i + 1) =~= v@.subrange(i + 1, end as int));
            Some(DartFunctionInputs { name, typ })
        },
        None => None,
    }
}

/// The parameters listed in the inputs group of a match.
pub fn get_inputs_from_captures(m: &DartSignatureMatch) -> (r: Vec<DartFunctionInputs>)
    ensures
        r.deep_view() == inputs_from_lines(group_lines(m@.inputs)),
{
    let lines = captures_as_trimmed_lines(&m.inputs);
    let ghost ls = lines.deep_view();
    let mut r: Vec<DartFunctionInputs> = Vec::new();
    let mut k: usize = 0;
    while k < lines.len()
        invariant
            ls == lines.deep_view(),
            ls == group_lines(m@.inputs),
            k <= ls.len(),
            r.deep_view() == inputs_from_lines(ls.take(k as int)),
        decreases ls.len() - k,
    {
        assert(ls.take(k + 1).drop_last() =~= ls.take(k as int));
        assert(ls.take(k + 1).last() == lines[k as int]@);
        match input_from_line_exec(lines[k].as_str()) {
            Some(inp) => {
                r.push(inp);
                assert(r.deep_view() =~= inputs_from_lines(ls.take(k as int)).push(
                    input_from_line(ls[k as int]).unwrap(),
                ));
            },
            None => {},
        }
        k = k + 1;
    }
    assert(ls.take(k as int) =~= ls);
    r
}

/// Trims a whole string.
fn trim_string(s: &str) -> (r: String)
    ensures
        r@ == trim(s@),
{
    let v = chars_of(s);
    let (a, b) = trim_range(&v, 0, v.len());
    assert(v@.subrange(0, v@.len() as int) =~= v@);
    string_from_range(&v, a, b)
}

impl DartFunctionSignature {
    /// The signature described by one match of the signature pattern.
    pub fn from_captures(m: &DartSignatureMatch) -> (r: Self)
        requires
            m.func_name is Some,
            m.output is Some,
        ensures
            r@ == signature_from_match(m@),
    {
        let name = match &m.func_name {
            Some(s) => trim_string(s.as_str()),
            None => String::new(),
        };
        let doc = get_doc_from_captures(m);
        let output = match &m.output {
            Some(s) => trim_string(s.as_str()),
            None => String::new(),
        };
        let inputs = get_inputs_from_captures(m);
        DartFunctionSignature { doc, name, output, inputs }
    }
}


/// Name prefix of the glue function that starts an async call.
pub const CALL_PREFIX: &'static str = "async_bindgen_dart_c__";

/// Name prefix of the glue function that extracts the result of a call.
pub const RET_PREFIX: &'static str = "async_bindgen_dart_r__";

/// The async function name of a call glue function.
pub open spec fn call_name_of(f: DartSignatureModel) -> Option<Seq<char>> {
    strip_prefix(f.name, CALL_PREFIX@)
}

/// The async function name of a result glue function.
pub open spec fn ret_name_of(f: DartSignatureModel) -> Option<Seq<char>> {
    if call_name_of(f) is Some {
        None
    } else {
        strip_prefix(f.name, RET_PREFIX@)
    }
}

/// The shapes a call and a result function must have to be joined: the call
/// returns an `int` status, the result function takes one `int` handle.
pub open spec fn pair_ok(call_fn: DartSignatureModel, ret_fn: DartSignatureModel) -> bool {
    &&& call_fn.output == "int"@
    &&& ret_fn.inputs.len() == 1
    &&& ret_fn.inputs[0].typ == "int"@
}

/// The call function at `i` (if it is one) has no second call function of
/// the same name, exactly one result function of its name, and fits it.
pub open spec fn call_entry_ok(fs: Seq<DartSignatureModel>, i: int) -> bool {
    call_name_of(fs[i]) matches Some(n) ==> {
        &&& forall|k: int|
            0 <= k < fs.len() && k != i ==> call_name_of(#[trigger] fs[k]) != Some(n)
        &&& exists|j: int| 0 <= j < fs.len() && ret_name_of(#[trigger] fs[j]) == Some(n)
        &&& forall|j1: int, j2: int|
            0 <= j1 < fs.len() && 0 <= j2 < fs.len() && ret_name_of(#[trigger] fs[j1]) == Some(n)
                && ret_name_of(#[trigger] fs[j2]) == Some(n) ==> j1 == j2
        &&& forall|j: int|
            0 <= j < fs.len() && ret_name_of(#[trigger] fs[j]) == Some(n) ==> pair_ok(fs[i], fs[j])
    }
}

/// The result function at `j` (if it is one) has a call function.
pub open spec fn ret_entry_ok(fs: Seq<DartSignatureModel>, j: int) -> bool {
    ret_name_of(fs[j]) matches Some(n) ==> exists|i: int|
        0 <= i < fs.len() && call_name_of(#[trigger] fs[i]) == Some(n)
}

/// Every glue function has its unique partner, and the pairs fit.
pub open spec fn glue_complete(fs: Seq<DartSignatureModel>) -> bool {
    forall|i: int| 0 <= i < fs.len() ==> call_entry_ok(fs, i) && ret_entry_ok(fs, i)
}

/// The index of the result function named `n`.
pub open spec fn ret_index(fs: Seq<DartSignatureModel>, n: Seq<char>) -> int {
    choose|j: int| 0 <= j < fs.len() && ret_name_of(fs[j]) == Some(n)
}

/// The async signature joined from a call and a result function.
pub open spec fn joined(
    name: Seq<char>,
    call_fn: DartSignatureModel,
    ret_fn: DartSignatureModel,
) -> AsyncSignatureModel {
    AsyncSignatureModel {
        doc: call_fn.doc,
        name: name,
        ffi_call_name: call_fn.name,
        ffi_ret_name: ret_fn.name,
        output: ret_fn.output,
        inputs: call_fn.inputs,
    }
}

/// The async signatures of the call functions among the first `k`, in the
/// order of the call functions.
pub open spec fn joined_upto(fs: Seq<DartSignatureModel>, k: int) -> Seq<AsyncSignatureModel>
    decreases k,
{
    if k <= 0 {
        Seq::empty()
    } else {
        let prev = joined_upto(fs, k - 1);
        match call_name_of(fs[k - 1]) {
            Some(n) => prev.push(joined(n, fs[k - 1], fs[ret_index(fs, n)])),
            None => prev,
        }
    }
}

/// All async signatures, one per call function, in the order of the calls.
pub open spec fn joined_all(fs: Seq<DartSignatureModel>) -> Seq<AsyncSignatureModel> {
    joined_upto(fs, fs.len() as int)
}

/// A copy of a list of strings.
fn copy_strings(v: &Vec<String>) -> (r: Vec<String>)
    ensures
        r.deep_view() == v.deep_view(),
{
    let mut r: Vec<String> = Vec::new();
    let mut i: usize = 0;
    while i < v.len()
        invariant
            i <= v@.len(),
            r.deep_view() == v.deep_view().take(i as int),
        decreases v@.len() - i,
    {
        let s = v[i].clone();
        assert(s@ == v@[i as int]@);
        let ghost prev = r.deep_view();
        r.push(s);
        assert(r.deep_view() =~= prev.push(s@));
        assert(v.deep_view().take(i + 1) =~= v.deep_view().take(i as int).push(s@));
        assert(r.deep_view() =~= v.deep_view().take(i + 1));
        i = i + 1;
    }
    assert(v.deep_view().take(i as int) =~= v.deep_view());
    r
}

/// A copy of a list of parameters.
fn copy_inputs(v: &Vec<DartFunctionInputs>) -> (r: Vec<DartFunctionInputs>)
    ensures
        r.deep_view() == v.deep_view(),
{
    let mut r: Vec<DartFunctionInputs> = Vec::new();
    let mut i: usize = 0;
    while i < v.len()
        invariant
            i <= v@.len(),
            r.deep_view() == v.deep_view().take(i as int),
        decreases v@.len() - i,
    {
        let inp = DartFunctionInputs { name: v[i].name.clone(), typ: v[i].typ.clone() };
        assert(inp@ == v@[i as int]@);
        let ghost prev = r.deep_view();
        r.push(inp);
        assert(r.deep_view() =~= prev.push(inp@));
        assert(v.deep_view().take(i + 1) =~= v.deep_view().take(i as int).push(inp@));
        assert(r.deep_view() =~= v.deep_view().take(i + 1));
        i = i + 1;
    }
    assert(v.deep_view().take(i as int) =~= v.deep_view());
    r
}

impl DartFunctionSignature {
    /// A copy of this signature.
    pub fn duplicate(&self) -> (r: Self)
        ensures
            r@ == self@,
    {
        DartFunctionSignature {
            doc: copy_strings(&self.doc),
            name: self.name.clone(),
            output: self.output.clone(),
            inputs: copy_inputs(&self.inputs),
        }
    }
}

impl AsyncFunctionSignature {
    /// Joins a call glue function and its result glue function.
    pub fn from_call_and_ret_func(
        name: String,
        call_fn: DartFunctionSignature,
        ret_fn: DartFunctionSignature,
    ) -> (r: Self)
        requires
            pair_ok(call_fn@, ret_fn@),
        ensures
            r@ == joined(name@, call_fn@, ret_fn@),
    {
        AsyncFunctionSignature {
            doc: call_fn.doc,
            name,
            ffi_call_name: call_fn.name,
            ffi_ret_name: ret_fn.name,
            output: ret_fn.output,
            inputs: call_fn.inputs,
        }
    }
}

/// The glue names of a function: its async name as a call function and
/// as a result function.
fn glue_names(f: &DartFunctionSignature) -> (r: (Option<String>, Option<String>))
    ensures
        r.0.deep_view() == call_name_of(f@),
        r.1.deep_view() == ret_name_of(f@),
{
    let c = strip_prefix_str(f.name.as_str(), CALL_PREFIX);
    if c.is_some() {
        (c, None)
    } else {
        (c, strip_prefix_str(f.name.as_str(), RET_PREFIX))
    }
}

/// Tests whether `a` holds exactly `n`.
fn holds_name(a: &Option<String>, n: &String) -> (r: bool)
    ensures
        r == (a.deep_view() == Some(n@)),
{
    match a {
        Some(s) => *s == *n,
        None => false,
    }
}

/// Tests whether a call and a result function fit together.
fn pair_is_ok(call_fn: &DartFunctionSignature, ret_fn: &DartFunctionSignature) -> (r: bool)
    ensures
        r == pair_ok(call_fn@, ret_fn@),
{
    let int_type = String::from_str("int");
    call_fn.output == int_type && ret_fn.inputs.len() == 1 && ret_fn.inputs[0].typ == int_type
}


/// The glue names of all functions.
pub open spec fn names_match(
    fs: Seq<DartSignatureModel>,
    calls: Seq<Option<Seq<char>>>,
    rets: Seq<Option<Seq<char>>>,
) -> bool {
    &&& calls.len() == fs.len()
    &&& rets.len() == fs.len()
    &&& forall|k: int| 0 <= k < fs.len() ==> #[trigger] calls[k] == call_name_of(fs[k])
    &&& forall|k: int| 0 <= k < fs.len() ==> #[trigger] rets[k] == ret_name_of(fs[k])
}

/// The glue names of each function, in order.
fn all_glue_names(fs: &Vec<DartFunctionSignature>) -> (r: (Vec<Option<String>>, Vec<Option<String>>))
    ensures
        names_match(fs.deep_view(), r.0.deep_view(), r.1.deep_view()),
{
    let mut calls: Vec<Option<String>> = Vec::new();
    let mut rets: Vec<Option<String>> = Vec::new();
    let mut i: usize = 0;
    while i < fs.len()
        invariant
            i <= fs@.len(),
            names_match(fs.deep_view().take(i as int), calls.deep_view(), rets.deep_view()),
        decreases fs@.len() - i,
    {
        let (c, r) = glue_names(&fs[i]);
        let ghost pc = calls.deep_view();
        let ghost pr = rets.deep_view();
        let ghost cv = c.deep_view();
        let ghost rv = r.deep_view();
        calls.push(c);
        rets.push(r);
        assert(calls.deep_view() =~= pc.push(cv));
        assert(rets.deep_view() =~= pr.push(rv));
        assert(fs.deep_view().take(i + 1) =~= fs.deep_view().take(i as int).push(fs@[i as int]@));
        i = i + 1;
    }
    assert(fs.deep_view().take(i as int) =~= fs.deep_view());
    (calls, rets)
}

/// Tests whether some call function is named `n`.
fn has_name(names: &Vec<Option<String>>, n: &String) -> (r: bool)
    ensures
        r == exists|k: int| 0 <= k < names@.len() && #[trigger] names.deep_view()[k] == Some(n@),
{
    let mut k: usize = 0;
    while k < names.len()
        invariant
            k <= names@.len(),
            forall|j: int| 0 <= j < k ==> #[trigger] names.deep_view()[j] != Some(n@),
        decreases names@.len() - k,
    {
        if holds_name(&names[k], n) {
            assert(names.deep_view()[k as int] == Some(n@));
            return true;
        }
        k = k + 1;
    }
    false
}

/// Decides `call_entry_ok` for the call function at `i`, named `n`.
fn call_entry_holds(
    fs: &Vec<DartFunctionSignature>,
    calls: &Vec<Option<String>>,
    rets: &Vec<Option<String>>,
    i: usize,
    n: &String,
) -> (r: bool)
    requires
        names_match(fs.deep_view(), calls.deep_view(), rets.deep_view()),
        i < fs@.len(),
        calls.deep_view()[i as int] == Some(n@),
    ensures
        r == call_entry_ok(fs.deep_view(), i as int),
{
    let ghost fsv = fs.deep_view();
    let mut found: Option<usize> = None;
    let mut k: usize = 0;
    while k < fs.len()
        invariant
            names_match(fsv, calls.deep_view(), rets.deep_view()),
            fsv == fs.deep_view(),
            i < fsv.len(),
            k <= fsv.len(),
            call_name_of(fsv[i as int]) == Some(n@),
            forall|j: int| 0 <= j < k && j != i ==> call_name_of(#[trigger] fsv[j]) != Some(n@),
            forall|j: int|
                0 <= j < k && ret_name_of(#[trigger] fsv[j]) == Some(n@) ==> pair_ok(
                    fsv[i as int],
                    fsv[j],
                ),
            match found {
                None => forall|j: int| 0 <= j < k ==> ret_name_of(#[trigger] fsv[j]) != Some(n@),
                Some(f) => f < k && ret_name_of(fsv[f as int]) == Some(n@) && forall|j: int|
                    0 <= j < k && ret_name_of(#[trigger] fsv[j]) == Some(n@) ==> j == f,
            },
        decreases fsv.len() - k,
    {
        assert(calls.deep_view()[k as int] == call_name_of(fsv[k as int]));
        assert(rets.deep_view()[k as int] == ret_name_of(fsv[k as int]));
        if k != i && holds_name(&calls[k], n) {
            assert(call_name_of(fsv[k as int]) == Some(n@));
            return false;
        }
        if holds_name(&rets[k], n) {
            if let Some(f) = found {
                assert(ret_name_of(fsv[f as int]) == Some(n@));
                assert(ret_name_of(fsv[k as int]) == Some(n@));
                return false;
            }
            if !pair_is_ok(&fs[i], &fs[k]) {
                assert(ret_name_of(fsv[k as int]) == Some(n@));
                return false;
            }
            found = Some(k);
        }
        k = k + 1;
    }
    match found {
        Some(f) => {
            assert(ret_name_of(fsv[f as int]) == Some(n@));
            true
        },
        None => false,
    }
}

/// Decides whether the glue functions pair up completely.
pub fn glue_is_complete(fs: &Vec<DartFunctionSignature>) -> (r: bool)
    ensures
        r == glue_complete(fs.deep_view()),
{
    let ghost fsv = fs.deep_view();
    let (calls, rets) = all_glue_names(fs);
    let mut i: usize = 0;
    while i < fs.len()
        invariant
            names_match(fsv, calls.deep_view(), rets.deep_view()),
            fsv == fs.deep_view(),
            i <= fsv.len(),
            forall|j: int| 0 <= j < i ==> call_entry_ok(fsv, j) && ret_entry_ok(fsv, j),
        decreases fsv.len() - i,
    {
        assert(calls.deep_view()[i as int] == call_name_of(fsv[i as int]));
        assert(rets.deep_view()[i as int] == ret_name_of(fsv[i as int]));
        if let Some(n) = &calls[i] {
            if !call_entry_holds(fs, &calls, &rets, i, n) {
                assert(!call_entry_ok(fsv, i as int));
                return false;
            }
        }
        if let Some(n) = &rets[i] {
            if !has_name(&calls, n) {
                assert forall|j: int| 0 <= j < fsv.len() implies call_name_of(#[trigger] fsv[j])
                    != Some(n@) by {
                    assert(calls.deep_view()[j] == call_name_of(fsv[j]));
                }
                assert(!ret_entry_ok(fsv, i as int));
                return false;
            } else {
                let ghost k = choose|k: int|
                    0 <= k < calls@.len() && #[trigger] calls.deep_view()[k] == Some(n@);
                assert(calls.deep_view()[k] == call_name_of(fsv[k]));
            }
        }
        i = i + 1;
    }
    true
}


/// The first position holding exactly `n`.
fn position_of_name(names: &Vec<Option<String>>, n: &String) -> (r: Option<usize>)
    ensures
        match r {
            Some(k) => k < names@.len() && names.deep_view()[k as int] == Some(n@),
            None => forall|k: int|
                0 <= k < names@.len() ==> #[trigger] names.deep_view()[k] != Some(n@),
        },
{
    let mut k: usize = 0;
    while k < names.len()
        invariant
            k <= names@.len(),
            forall|j: int| 0 <= j < k ==> #[trigger] names.deep_view()[j] != Some(n@),
        decreases names@.len() - k,
    {
        if holds_name(&names[k], n) {
            return Some(k);
        }
        k = k + 1;
    }
    None
}

/// Joins each call glue function with its result glue function, in the
/// order of the call functions.
pub fn join_glue_functions(fs: &Vec<DartFunctionSignature>) -> (r: Vec<AsyncFunctionSignature>)
    requires
        glue_complete(fs.deep_view()),
    ensures
        r.deep_view() == joined_all(fs.deep_view()),
{
    let ghost fsv = fs.deep_view();
    let (calls, rets) = all_glue_names(fs);
    let mut out: Vec<AsyncFunctionSignature> = Vec::new();
    let mut i: usize = 0;
    while i < fs.len()
        invariant
            names_match(fsv, calls.deep_view(), rets.deep_view()),
            fsv == fs.deep_view(),
            glue_complete(fsv),
            i <= fsv.len(),
            out.deep_view() == joined_upto(fsv, i as int),
        decreases fsv.len() - i,
    {
        assert(calls.deep_view()[i as int] == call_name_of(fsv[i as int]));
        let ghost prev = out.deep_view();
        if let Some(n) = &calls[i] {
            assert(call_entry_ok(fsv, i as int));
            let found = position_of_name(&rets, n);
            match found {
                Some(j) => {
                    assert(rets.deep_view()[j as int] == ret_name_of(fsv[j as int]));
                    let ghost c = ret_index(fsv, n@);
                    assert(0 <= c < fsv.len() && ret_name_of(fsv[c]) == Some(n@));
                    assert(c == j);
                    assert(pair_ok(fsv[i as int], fsv[j as int]));
                    let a = AsyncFunctionSignature::from_call_and_ret_func(
                        n.clone(),
                        fs[i].duplicate(),
                        fs[j].duplicate(),
                    );
                    out.push(a);
                    assert(out.deep_view() =~= prev.push(a@));
                },
                None => {
                    let ghost w = choose|w: int|
                        0 <= w < fsv.len() && ret_name_of(#[trigger] fsv[w]) == Some(n@);
                    assert(rets.deep_view()[w] == ret_name_of(fsv[w]));
                    assert(false);
                },
            }
        }
        i = i + 1;
    }
    out
}


/// What a regex search gives: for the pattern `pattern`, the names of
/// groups `names` and the text `haystack`, `None` when the pattern does not
/// compile, else for each match in order the text of each named group in
/// the order of `names` (`None` for a group that did not take part).
pub uninterp spec fn regex_named_captures(
    pattern: Seq<char>,
    names: Seq<Seq<char>>,
    haystack: Seq<char>,
) -> Option<Seq<Seq<Option<Seq<char>>>>>;

/// Compiles `pattern` with `regex::Regex::new` and walks
/// `Regex::captures_iter` over `haystack`, reading each group of `names`
/// with `Captures::name`.
///
/// Trusted: the contract only names the result, which depends on the three
/// arguments alone; what the regex engine matches is not stated.
#[verifier::external_body]
fn named_captures(pattern: &str, names: &[&str], haystack: &str) -> (r: Option<
    Vec<Vec<Option<String>>>,
>)
    ensures
        r.deep_view() == regex_named_captures(pattern@, names.deep_view(), haystack@),
{
    let re = regex::Regex::new(pattern).ok()?;
    let found = re.captures_iter(haystack);
    Some(
        found.map(|c| names.iter().map(|n| c.name(n).map(|m| m.as_str().to_string())).collect()).collect(),
    )
}

/// The pattern of a function signature in the ffigen output: doc comment
/// lines, the return type and name, one parameter per line, and the opening
/// brace of the body.
pub const SNIFF_FUNCTION_PATTERN: &'static str = r"(?x)
        (?:\n|^)
        (?P<doc>(?:\s*///(?:\s.*)?\n)*)
        \s*(?P<output>[a-zA-Z0-9_<>.]+)\s(?P<func_name>[[:word:]]+)\(\n
            (?P<inputs>(?:\s+[a-zA-Z0-9_<>.]+\s[[:word:]]+,\n)*)
        \s*\)\s\{\n
    ";

/// The groups of the pattern that are read, in this order.
pub open spec fn sniff_group_names() -> Seq<Seq<char>> {
    seq!["doc"@, "output"@, "func_name"@, "inputs"@]
}

/// The model of one match, read from its groups.
pub open spec fn match_of_groups(groups: Seq<Option<Seq<char>>>) -> MatchModel {
    MatchModel { doc: groups[0], output: groups[1], func_name: groups[2], inputs: groups[3] }
}

/// The matches, provided each has all four groups.
pub open spec fn matches_of_captures(caps: Seq<Seq<Option<Seq<char>>>>) -> Option<Seq<MatchModel>> {
    if forall|k: int| 0 <= k < caps.len() ==> (#[trigger] caps[k]).len() == 4 {
        Some(caps.map_values(|g: Seq<Option<Seq<char>>>| match_of_groups(g)))
    } else {
        None
    }
}

/// The matches of the signature pattern in `dart_src`.
pub open spec fn sniffed_matches(dart_src: Seq<char>) -> Option<Seq<MatchModel>> {
    match regex_named_captures(SNIFF_FUNCTION_PATTERN@, sniff_group_names(), dart_src) {
        Some(caps) => matches_of_captures(caps),
        None => None,
    }
}

/// A copy of an optional string.
fn copy_opt(s: &Option<String>) -> (r: Option<String>)
    ensures
        r.deep_view() == s.deep_view(),
{
    match s {
        Some(t) => Some(t.clone()),
        None => None,
    }
}

/// Runs the signature pattern over `dart_src`.
pub fn sniff_captures(dart_src: &str) -> (r: Option<Vec<DartSignatureMatch>>)
    ensures
        r.deep_view() == sniffed_matches(dart_src@),
{
    let names: [&str; 4] = ["doc", "output", "func_name", "inputs"];
    let name_slice = names.as_slice();
    assert(name_slice.deep_view() =~= sniff_group_names());
    let caps = match named_captures(SNIFF_FUNCTION_PATTERN, name_slice, dart_src) {
        Some(c) => c,
        None => {
            return None;
        },
    };
    let ghost cv = caps.deep_view();
    let mut out: Vec<DartSignatureMatch> = Vec::new();
    let mut k: usize = 0;
    while k < caps.len()
        invariant
            cv == caps.deep_view(),
            regex_named_captures(SNIFF_FUNCTION_PATTERN@, sniff_group_names(), dart_src@) == Some(
                cv,
            ),
            k <= cv.len(),
            forall|j: int| 0 <= j < k ==> (#[trigger] cv[j]).len() == 4,
            out.deep_view() == cv.take(k as int).map_values(
                |g: Seq<Option<Seq<char>>>| match_of_groups(g),
            ),
        decreases cv.len() - k,
    {
        let groups = &caps[k];
        if groups.len() != 4 {
            assert(cv[k as int].len() != 4);
            return None;
        }
        let m = DartSignatureMatch {
            doc: copy_opt(&groups[0]),
            output: copy_opt(&groups[1]),
            func_name: copy_opt(&groups[2]),
            inputs: copy_opt(&groups[3]),
        };
        let ghost prev = out.deep_view();
        out.push(m);
        assert(out.deep_view() =~= prev.push(m@));
        assert(cv.take(k + 1).map_values(|g: Seq<Option<Seq<char>>>| match_of_groups(g))
            =~= cv.take(k as int).map_values(|g: Seq<Option<Seq<char>>>| match_of_groups(g)).push(
            match_of_groups(cv[k as int]),
        ));
        k = k + 1;
    }
    assert(cv.take(k as int) =~= cv);
    Some(out)
}


/// Every match has the name and the return type group.
pub open spec fn all_named(ms: Seq<MatchModel>) -> bool {
    forall|k: int| 0 <= k < ms.len() ==> (#[trigger] ms[k]).func_name is Some && ms[k].output is Some
}

/// The signatures that the matches describe.
pub open spec fn signatures_of_matches(ms: Seq<MatchModel>) -> Seq<DartSignatureModel> {
    ms.map_values(|m: MatchModel| signature_from_match(m))
}

/// The async signatures found among the matches: `None` where a match lacks
/// its name or return type, or where the glue functions do not pair up.
pub open spec fn sniffed(ms: Seq<MatchModel>) -> Option<Seq<AsyncSignatureModel>> {
    if all_named(ms) && glue_complete(signatures_of_matches(ms)) {
        Some(joined_all(signatures_of_matches(ms)))
    } else {
        None
    }
}

/// The async signatures found in a Dart source: `None` where the pattern
/// does not compile or `sniffed` gives none.
pub open spec fn sniffed_signatures(dart_src: Seq<char>) -> Option<Seq<AsyncSignatureModel>> {
    match sniffed_matches(dart_src) {
        Some(ms) => sniffed(ms),
        None => None,
    }
}

impl AsyncFunctionSignature {
    /// Reads the glue function signatures from the matches, each of which
    /// has its name and return type, and joins them into async signatures;
    /// every glue function must have its unique partner, and the pairs must
    /// fit.
    pub fn sniff_from_matches(ms: &Vec<DartSignatureMatch>) -> (r: Vec<Self>)
        requires
            all_named(ms.deep_view()),
            glue_complete(signatures_of_matches(ms.deep_view())),
        ensures
            r.deep_view() == joined_all(signatures_of_matches(ms.deep_view())),
    {
        let sigs = signatures_from_matches(ms);
        join_glue_functions(&sigs)
    }

    /// Finds the async functions in the Dart source produced by ffigen; the
    /// glue functions found must have their names and return types, each
    /// its unique partner, and the pairs must fit.
    pub fn sniff_dart_signatures(dart_src: &str) -> (r: Vec<Self>)
        requires
            sniffed_signatures(dart_src@) is Some,
        ensures
            Some(r.deep_view()) == sniffed_signatures(dart_src@),
    {
        match sniff_captures(dart_src) {
            Some(ms) => Self::sniff_from_matches(&ms),
            None => Vec::new(),
        }
    }

    /// Finds the async functions in the Dart source produced by ffigen, or
    /// `None` where the source does not meet what `sniff_dart_signatures`
    /// requires (a glue function without its partner or with a second one,
    /// or a pair that does not fit).
    pub fn try_sniff_dart_signatures(dart_src: &str) -> (r: Option<Vec<Self>>)
        ensures
            r.deep_view() == sniffed_signatures(dart_src@),
    {
        let ms = match sniff_captures(dart_src) {
            Some(ms) => ms,
            None => {
                return None;
            },
        };
        if !all_matches_named(&ms) {
            return None;
        }
        let sigs = signatures_from_matches(&ms);
        if !glue_is_complete(&sigs) {
            return None;
        }
        Some(Self::sniff_dart_signatures(dart_src))
    }
}

/// Tests whether every match has its name and return type.
fn all_matches_named(ms: &Vec<DartSignatureMatch>) -> (r: bool)
    ensures
        r == all_named(ms.deep_view()),
{
    let ghost mv = ms.deep_view();
    let mut k: usize = 0;
    while k < ms.len()
        invariant
            mv == ms.deep_view(),
            k <= mv.len(),
            forall|j: int| 0 <= j < k ==> (#[trigger] mv[j]).func_name is Some && mv[j].output is Some,
        decreases mv.len() - k,
    {
        if ms[k].func_name.is_none() || ms[k].output.is_none() {
            assert(!(mv[k as int].func_name is Some && mv[k as int].output is Some));
            return false;
        }
        k = k + 1;
    }
    true
}

/// The glue function signatures that the matches describe.
pub fn signatures_from_matches(ms: &Vec<DartSignatureMatch>) -> (r: Vec<DartFunctionSignature>)
    requires
        all_named(ms.deep_view()),
    ensures
        r.deep_view() == signatures_of_matches(ms.deep_view()),
{
    let ghost mv = ms.deep_view();
    let mut sigs: Vec<DartFunctionSignature> = Vec::new();
    let mut k: usize = 0;
    while k < ms.len()
        invariant
            mv == ms.deep_view(),
            all_named(mv),
            k <= mv.len(),
            sigs.deep_view() == signatures_of_matches(mv.take(k as int)),
        decreases mv.len() - k,
    {
        assert(mv[k as int].func_name is Some && mv[k as int].output is Some);
        let sig = DartFunctionSignature::from_captures(&ms[k]);
        let ghost prev = sigs.deep_view();
        sigs.push(sig);
        assert(sigs.deep_view() =~= prev.push(sig@));
        assert(signatures_of_matches(mv.take(k + 1)) =~= signatures_of_matches(
            mv.take(k as int),
        ).push(signature_from_match(mv[k as int])));
        k = k + 1;
    }
    assert(mv.take(k as int) =~= mv);
    sigs
}

/// A text with a stripped prefix is the prefix followed by the rest.
pub proof fn lemma_strip_prefix(s: Seq<char>, p: Seq<char>)
    ensures
        strip_prefix(s, p) matches Some(n) ==> s == p + n,
{
    if p.len() <= s.len() && s.take(p.len() as int) == p {
        assert(s =~= p + s.skip(p.len() as int));
    }
}

/// Each async signature names its glue functions by the two prefixes and
/// its own name, and no two signatures share a name.
pub open spec fn glue_names_consistent(sigs: Seq<AsyncSignatureModel>) -> bool {
    &&& forall|p: int|
        0 <= p < sigs.len() ==> {
            &&& (#[trigger] sigs[p]).ffi_call_name == CALL_PREFIX@ + sigs[p].name
            &&& sigs[p].ffi_ret_name == RET_PREFIX@ + sigs[p].name
        }
    &&& forall|p: int, q: int|
        0 <= p < q < sigs.len() ==> (#[trigger] sigs[p]).name != (#[trigger] sigs[q]).name
}

/// The signatures joined from the first `k` functions are consistent, and
/// each is named after one of those call functions.
pub proof fn lemma_joined_upto_consistent(fs: Seq<DartSignatureModel>, k: int)
    requires
        glue_complete(fs),
        0 <= k <= fs.len(),
    ensures
        glue_names_consistent(joined_upto(fs, k)),
        forall|p: int|
            0 <= p < joined_upto(fs, k).len() ==> exists|i: int|
                0 <= i < k && call_name_of(#[trigger] fs[i]) == Some(
                    (#[trigger] joined_upto(fs, k)[p]).name,
                ),
    decreases k,
{
    if k > 0 {
        lemma_joined_upto_consistent(fs, k - 1);
        let prev = joined_upto(fs, k - 1);
        let cur = joined_upto(fs, k);
        if let Some(n) = call_name_of(fs[k - 1]) {
            assert(call_entry_ok(fs, k - 1));
            let j = ret_index(fs, n);
            assert(0 <= j < fs.len() && ret_name_of(fs[j]) == Some(n));
            lemma_strip_prefix(fs[k - 1].name, CALL_PREFIX@);
            lemma_strip_prefix(fs[j].name, RET_PREFIX@);
            assert(cur == prev.push(joined(n, fs[k - 1], fs[j])));
            assert forall|p: int| 0 <= p < cur.len() implies {
                &&& (#[trigger] cur[p]).ffi_call_name == CALL_PREFIX@ + cur[p].name
                &&& cur[p].ffi_ret_name == RET_PREFIX@ + cur[p].name
            } by {
                if p < prev.len() {
                    assert(cur[p] == prev[p]);
                }
            }
            assert forall|p: int, q: int| 0 <= p < q < cur.len() implies (#[trigger] cur[p]).name
                != (#[trigger] cur[q]).name by {
                if q < prev.len() {
                    assert(cur[p] == prev[p] && cur[q] == prev[q]);
                } else {
                    assert(cur[p] == prev[p]);
                    let i = choose|i: int|
                        0 <= i < k - 1 && call_name_of(#[trigger] fs[i]) == Some(prev[p].name);
                    assert(call_name_of(fs[i]) != Some(n));
                }
            }
            assert forall|p: int| 0 <= p < cur.len() implies exists|i: int|
                0 <= i < k && call_name_of(#[trigger] fs[i]) == Some((#[trigger] cur[p]).name) by {
                if p < prev.len() {
                    assert(cur[p] == prev[p]);
                    let i = choose|i: int|
                        0 <= i < k - 1 && call_name_of(#[trigger] fs[i]) == Some(prev[p].name);
                    assert(call_name_of(fs[i]) == Some(cur[p].name));
                } else {
                    assert(call_name_of(fs[k - 1]) == Some(cur[p].name));
                }
            }
        }
    }
}

/// Whatever the sniffer finds is consistent: each async function's call
/// and result glue functions are its name behind the two prefixes, and no
/// name occurs twice.
pub proof fn lemma_sniffed_names_consistent(ms: Seq<MatchModel>)
    requires
        sniffed(ms) is Some,
    ensures
        glue_names_consistent(sniffed(ms).unwrap()),
{
    let fs = signatures_of_matches(ms);
    lemma_joined_upto_consistent(fs, fs.len() as int);
}


/// Whether a call and a result glue function fit does not depend on the
/// call function's parameters or documentation: a call function returning
/// `int` and a result function taking one `int` handle, named after the
/// same async function, are complete glue on their own, and join into that
/// async function with all the call function's parameters.
pub proof fn lemma_any_call_parameters_pair(
    call_fn: DartSignatureModel,
    ret_fn: DartSignatureModel,
    n: Seq<char>,
)
    requires
        call_name_of(call_fn) == Some(n),
        ret_name_of(ret_fn) == Some(n),
        call_fn.output == "int"@,
        ret_fn.inputs.len() == 1,
        ret_fn.inputs[0].typ == "int"@,
    ensures
        glue_complete(seq![call_fn, ret_fn]),
        joined_all(seq![call_fn, ret_fn]) == seq![joined(n, call_fn, ret_fn)],
        joined_all(seq![call_fn, ret_fn])[0].inputs == call_fn.inputs,
{
    let fs = seq![call_fn, ret_fn];
    assert(fs[0] == call_fn);
    assert(fs[1] == ret_fn);
    assert(call_name_of(ret_fn) is None);
    assert(ret_name_of(call_fn) is None);
    assert(call_entry_ok(fs, 0)) by {
        assert(ret_name_of(fs[1]) == Some(n));
        assert forall|j1: int, j2: int|
            0 <= j1 < fs.len() && 0 <= j2 < fs.len() && ret_name_of(#[trigger] fs[j1]) == Some(n)
                && ret_name_of(#[trigger] fs[j2]) == Some(n) implies j1 == j2 by {
            if j1 == 0 || j2 == 0 {
                assert(false);
            }
        }
    }
    assert(ret_entry_ok(fs, 1)) by {
        assert(call_name_of(fs[0]) == Some(n));
    }
    assert(call_entry_ok(fs, 1));
    assert(ret_entry_ok(fs, 0));
    assert forall|i: int| 0 <= i < fs.len() implies call_entry_ok(fs, i) && ret_entry_ok(fs, i) by {
        if i == 0 {
        } else {
            assert(i == 1);
        }
    }
    let j = ret_index(fs, n);
    assert(0 <= 1 < fs.len() && ret_name_of(fs[1]) == Some(n));
    assert(j == 1) by {
        if j == 0 {
            assert(ret_name_of(fs[0]) is None);
        }
    }
    assert(joined_upto(fs, 1) == seq![joined(n, call_fn, ret_fn)]) by {
        assert(joined_upto(fs, 0) == Seq::<AsyncSignatureModel>::empty());
        assert(Seq::<AsyncSignatureModel>::empty().push(joined(n, call_fn, ret_fn)) =~= seq![
            joined(n, call_fn, ret_fn),
        ]);
    }
    assert(joined_upto(fs, 2) == joined_upto(fs, 1));
}

} // verus!
