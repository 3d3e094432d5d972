//! The execution engine: compiles a module's bytes, resolves its imports
//! (including an optional capability-session bootstrap), marshals string
//! arguments into the declared numeric kinds, invokes one exported function
//! and classifies every failure.
//!
//! The engine holds no state across calls: each call compiles and
//! instantiates afresh, trading throughput for per-call isolation.

use vstd::prelude::*;
use crate::args::ArgumentValue;
use crate::args::ParamKind;
use crate::args::arg_parses;
use crate::args::spec_coerced;
use crate::error::UdfError;
use crate::numtext::parse_i32;
use crate::numtext::parse_i64;
use crate::runtime_api::LookupFailure;
use crate::runtime_api::call_session;
use crate::runtime_api::compile_session;
use crate::runtime_api::error_message;
use crate::runtime_api::exit_status;
use crate::runtime_api::exports_of;
use crate::runtime_api::instantiate_session;
use crate::runtime_api::lookup_session;
use crate::runtime_api::parse_f32_bits;
use crate::runtime_api::parse_f64_bits;
use crate::runtime_api::session_namespaces;
use crate::runtime_api::val_to_argument;
use crate::runtime_api::wasm_compiles;
use crate::session::build_session;

verus! {

/// Mathematical content of a loaded module: its program name and its
/// immutable bytes.
pub ghost struct WasmView {
    pub name: Seq<char>,
    pub contents: Seq<u8>,
}

/// A loaded module: an immutable byte sequence plus a default entry-point
/// name, read once from durable storage.
#[derive(Debug)]
pub struct WASM {
    name: String,
    contents: Vec<u8>,
}

impl View for WASM {
    type V = WasmView;

    closed spec fn view(&self) -> WasmView {
        WasmView { name: self.name@, contents: self.contents@ }
    }
}

impl Clone for WASM {
    fn clone(&self) -> (r: Self)
        ensures
            r@ == self@,
    {
        let contents = self.contents.clone();
        proof {
            assert(contents@ =~= self.contents@);
        }
        WASM { name: self.name.clone(), contents }
    }
}

/// What one export of a module is: a callable function with its declared
/// parameter kinds, or anything else.
pub enum ExportDesc {
    Func { params: Vec<ParamKind>, results: usize },
    Other,
}

/// One export of a module, by name.
pub struct ExportEntry {
    pub name: String,
    pub desc: ExportDesc,
}

/// Index of the first entry carrying the name, if any.
pub open spec fn find_named(entries: Seq<ExportEntry>, name: Seq<char>) -> Option<int>
    decreases entries.len(),
{
    if entries.len() == 0 {
        None
    } else if entries[0].name@ == name {
        Some(0int)
    } else {
        match find_named(entries.drop_first(), name) {
            Some(i) => Some(i + 1),
            None => None,
        }
    }
}

/// Whether any export is a function at all.
pub open spec fn has_function_export(entries: Seq<ExportEntry>) -> bool {
    exists|i: int| 0 <= i < entries.len() && entries[i].desc is Func
}

pub proof fn lemma_find_named_from_prefix(entries: Seq<ExportEntry>, name: Seq<char>, i: int)
    requires
        0 <= i <= entries.len(),
        forall|j: int| 0 <= j < i ==> entries[j].name@ != name,
    ensures
        i == entries.len() ==> find_named(entries, name) is None,
        i < entries.len() && entries[i].name@ == name ==> find_named(entries, name) == Some(i),
    decreases i,
{
    if entries.len() > 0 && i > 0 {
        let rest = entries.drop_first();
        assert(forall|j: int| 0 <= j < i - 1 ==> rest[j].name@ != name);
        lemma_find_named_from_prefix(rest, name, i - 1);
        if i < entries.len() {
            assert(rest[i - 1] == entries[i]);
        }
    }
}

/// Whether any export is a function.
pub fn any_function_export(entries: &Vec<ExportEntry>) -> (r: bool)
    ensures
        r == has_function_export(entries@),
{
    let mut i: usize = 0;
    while i < entries.len()
        invariant
            i <= entries@.len(),
            forall|j: int| 0 <= j < i ==> !(entries@[j].desc is Func),
        decreases entries@.len() - i,
    {
        match &entries[i].desc {
            ExportDesc::Func { .. } => {
                return true;
            },
            ExportDesc::Other => {},
        }
        i += 1;
    }
    false
}

/// Resolves the endpoint among the module's exports: the first entry with
/// the name must be a callable function; a failed lookup tells a module
/// without any function export apart from one that merely lacks the name.
pub fn select_function(entries: &Vec<ExportEntry>, endpoint: &str) -> (r: Result<usize, UdfError>)
    ensures
        match r {
            Ok(i) => i < entries@.len() && entries@[i as int].name@ == endpoint@ && (forall|j: int|
                0 <= j < i ==> entries@[j].name@ != endpoint@) && entries@[i as int].desc is Func,
            Err(UdfError::ExportNotFound { name, module_has_functions }) => name@ == endpoint@
                && module_has_functions == has_function_export(entries@) && (match find_named(
                entries@,
                endpoint@,
            ) {
                None => true,
                Some(k) => entries@[k].desc is Other && !has_function_export(entries@),
            }),
            Err(UdfError::ExportNotAFunction { name }) => name@ == endpoint@
                && has_function_export(entries@) && (match find_named(entries@, endpoint@) {
                Some(k) => entries@[k].desc is Other,
                None => false,
            }),
            _ => false,
        },
{
    let owned: String = endpoint.to_owned();
    let n = entries.len();
    let mut i: usize = 0;
    while i < n && !(entries[i].name == owned)
        invariant
            i <= n,
            n == entries@.len(),
            owned@ == endpoint@,
            forall|j: int| 0 <= j < i ==> entries@[j].name@ != endpoint@,
        decreases n - i,
    {
        i += 1;
    }
    proof {
        lemma_find_named_from_prefix(entries@, endpoint@, i as int);
    }
    if i == n {
        let hasf = any_function_export(entries);
        return Err(UdfError::ExportNotFound { name: owned, module_has_functions: hasf });
    }
    match &entries[i].desc {
        ExportDesc::Func { .. } => Ok(i),
        ExportDesc::Other => {
            let hasf = any_function_export(entries);
            if hasf {
                Err(UdfError::ExportNotAFunction { name: owned })
            } else {
                Err(UdfError::ExportNotFound { name: owned, module_has_functions: false })
            }
        },
    }
}

/// What one export is, at the level of the module's bytes: its name and,
/// for a function export, its declared parameter kinds and result count.
pub ghost enum ExportSigView {
    Func { name: Seq<char>, params: Seq<ParamKind>, results: int },
    Other { name: Seq<char> },
}

pub open spec fn sig_name(v: ExportSigView) -> Seq<char> {
    match v {
        ExportSigView::Func { name, .. } => name,
        ExportSigView::Other { name } => name,
    }
}

/// The mathematical content of one export description.
pub open spec fn entry_view(e: ExportEntry) -> ExportSigView {
    match e.desc {
        ExportDesc::Func { params, results } => ExportSigView::Func {
            name: e.name@,
            params: params@,
            results: results as int,
        },
        ExportDesc::Other => ExportSigView::Other { name: e.name@ },
    }
}

/// The mathematical content of an export table.
pub open spec fn entries_view(es: Seq<ExportEntry>) -> Seq<ExportSigView> {
    Seq::new(es.len(), |i: int| entry_view(es[i]))
}

/// Index of the first export carrying the name, if any.
pub open spec fn sig_named(x: Seq<ExportSigView>, nm: Seq<char>) -> Option<int>
    decreases x.len(),
{
    if x.len() == 0 {
        None
    } else if sig_name(x[0]) == nm {
        Some(0int)
    } else {
        match sig_named(x.drop_first(), nm) {
            Some(i) => Some(i + 1),
            None => None,
        }
    }
}

/// Whether any export is a function at all.
pub open spec fn sig_has_func(x: Seq<ExportSigView>) -> bool {
    exists|i: int| 0 <= i < x.len() && x[i] is Func
}

/// The first argument position, from `i` on, that does not convert into
/// its declared kind.
pub open spec fn first_uncoercible(params: Seq<ParamKind>, av: Seq<Seq<char>>, i: int) -> Option<
    int,
>
    decreases av.len() - i,
{
    if i < 0 || i >= av.len() {
        None
    } else if !arg_parses(av[i], params[i]) {
        Some(i)
    } else {
        first_uncoercible(params, av, i + 1)
    }
}

/// Which failure, if any, validation owes one call — decided wholly by
/// the module's export table, the endpoint and the argument strings.
pub ghost enum InvocationVerdict {
    NotFound { module_has_functions: bool },
    NotAFunction,
    BadArity { expected: int },
    BadArgument { index: int, kind: ParamKind },
    BadKind { index: int },
    Runnable,
}

pub open spec fn invocation_verdict(
    x: Seq<ExportSigView>,
    nm: Seq<char>,
    av: Seq<Seq<char>>,
) -> InvocationVerdict {
    match sig_named(x, nm) {
        None => InvocationVerdict::NotFound { module_has_functions: sig_has_func(x) },
        Some(k) => match x[k] {
            ExportSigView::Other { .. } => if sig_has_func(x) {
                InvocationVerdict::NotAFunction
            } else {
                InvocationVerdict::NotFound { module_has_functions: false }
            },
            ExportSigView::Func { params, .. } => if params.len() != av.len() {
                InvocationVerdict::BadArity { expected: params.len() as int }
            } else {
                match first_uncoercible(params, av, 0) {
                    Some(i) => if params[i] is Unsupported {
                        InvocationVerdict::BadKind { index: i }
                    } else {
                        InvocationVerdict::BadArgument { index: i, kind: params[i] }
                    },
                    None => InvocationVerdict::Runnable,
                }
            },
        },
    }
}

pub proof fn lemma_find_named_bounds(es: Seq<ExportEntry>, nm: Seq<char>)
    ensures
        match find_named(es, nm) {
            Some(k) => 0 <= k < es.len() && es[k].name@ == nm,
            None => true,
        },
    decreases es.len(),
{
    if es.len() > 0 && es[0].name@ != nm {
        lemma_find_named_bounds(es.drop_first(), nm);
        match find_named(es.drop_first(), nm) {
            Some(j) => {
                assert(es.drop_first()[j] == es[j + 1]);
            },
            None => {},
        }
    }
}

pub proof fn lemma_entries_view_find(es: Seq<ExportEntry>, nm: Seq<char>)
    ensures
        sig_named(entries_view(es), nm) == find_named(es, nm),
    decreases es.len(),
{
    let v = entries_view(es);
    if es.len() > 0 {
        assert(sig_name(v[0]) == es[0].name@);
        assert(entries_view(es.drop_first()) =~= v.drop_first());
        lemma_entries_view_find(es.drop_first(), nm);
    }
}

pub proof fn lemma_entries_view_hasfunc(es: Seq<ExportEntry>)
    ensures
        sig_has_func(entries_view(es)) == has_function_export(es),
{
    let v = entries_view(es);
    if has_function_export(es) {
        let i = choose|i: int| 0 <= i < es.len() && es[i].desc is Func;
        assert(v[i] is Func);
    }
    if sig_has_func(v) {
        let i = choose|i: int| 0 <= i < v.len() && v[i] is Func;
        assert(es[i].desc is Func);
    }
}

pub proof fn lemma_first_uncoercible_at(
    params: Seq<ParamKind>,
    av: Seq<Seq<char>>,
    i: int,
    idx: int,
)
    requires
        0 <= i <= idx < av.len(),
        params.len() == av.len(),
        !arg_parses(av[idx], params[idx]),
        forall|j: int| i <= j < idx ==> arg_parses(#[trigger] av[j], params[j]),
    ensures
        first_uncoercible(params, av, i) == Some(idx),
    decreases idx - i,
{
    if i < idx {
        lemma_first_uncoercible_at(params, av, i + 1, idx);
    }
}

pub proof fn lemma_first_uncoercible_none(params: Seq<ParamKind>, av: Seq<Seq<char>>, i: int)
    requires
        0 <= i <= av.len(),
        params.len() == av.len(),
        forall|j: int| i <= j < av.len() ==> arg_parses(#[trigger] av[j], params[j]),
    ensures
        first_uncoercible(params, av, i) is None,
    decreases av.len() - i,
{
    if i < av.len() {
        lemma_first_uncoercible_none(params, av, i + 1);
    }
}

/// Whether a set of import namespaces declares a dependency on the
/// OS-capability bootstrap.
pub open spec fn spec_needs_capability_session(namespaces: Seq<Seq<char>>) -> bool {
    exists|i: int|
        0 <= i < namespaces.len() && (namespaces[i] == "wasi_snapshot_preview1"@ || namespaces[i]
            == "wasi_unstable"@)
}

/// A module needs the capability bootstrap exactly when one of its imports
/// comes from a capability namespace.
pub fn needs_capability_session(namespaces: &Vec<String>) -> (r: bool)
    ensures
        r == spec_needs_capability_session(namespaces.deep_view()),
{
    let preview = String::from_str("wasi_snapshot_preview1");
    let unstable = String::from_str("wasi_unstable");
    let mut i: usize = 0;
    while i < namespaces.len()
        invariant
            i <= namespaces@.len(),
            preview@ == "wasi_snapshot_preview1"@,
            unstable@ == "wasi_unstable"@,
            forall|j: int|
                0 <= j < i ==> !(#[trigger] namespaces.deep_view()[j]
                    == "wasi_snapshot_preview1"@ || namespaces.deep_view()[j]
                    == "wasi_unstable"@),
        decreases namespaces@.len() - i,
    {
        if namespaces[i] == preview || namespaces[i] == unstable {
            proof {
                assert(namespaces.deep_view()[i as int] == namespaces@[i as int]@);
            }
            return true;
        }
        proof {
            assert(namespaces.deep_view()[i as int] == namespaces@[i as int]@);
        }
        i += 1;
    }
    false
}

/// The declared parameter count must equal the number of supplied
/// arguments, before anything else happens.
pub fn check_arity(expected: usize, args: &Vec<String>) -> (r: Result<(), UdfError>)
    ensures
        match r {
            Ok(_) => expected == args@.len(),
            Err(UdfError::ArityMismatch { expected: e, received, args: a }) => e == expected
                && received == args@.len() && e != received && a@ == args@,
            _ => false,
        },
{
    if expected == args.len() {
        Ok(())
    } else {
        let copy = args.clone();
        proof {
            assert(copy@ =~= args@);
        }
        Err(UdfError::ArityMismatch { expected, received: args.len(), args: copy })
    }
}

/// Coerces each string argument into the exact numeric kind declared for
/// its position: on success the value at each position is the one its
/// string parses as. The first position that does not convert decides the
/// failure: a parse failure names the position and its declared kind, a
/// declared kind outside the supported four names the position alone.
pub fn coerce_args(params: &Vec<ParamKind>, args: &Vec<String>) -> (r: Result<
    Vec<ArgumentValue>,
    UdfError,
>)
    requires
        params@.len() == args@.len(),
    ensures
        match r {
            Ok(vals) => vals@.len() == args@.len() && forall|i: int|
                0 <= i < args@.len() ==> arg_parses(#[trigger] args@[i]@, params@[i]) && vals@[i]
                    == spec_coerced(args@[i]@, params@[i]),
            Err(UdfError::ArgumentConversionError { index, target_kind }) => index < args@.len()
                && target_kind == params@[index as int] && !(target_kind is Unsupported)
                && !arg_parses(args@[index as int]@, target_kind) && forall|j: int|
                0 <= j < index ==> arg_parses(#[trigger] args@[j]@, params@[j]),
            Err(UdfError::UnsupportedType { index }) => index < args@.len() && params@[
                index as int
            ] is Unsupported && forall|j: int|
                0 <= j < index ==> arg_parses(#[trigger] args@[j]@, params@[j]),
            _ => false,
        },
{
    let mut vals: Vec<ArgumentValue> = Vec::new();
    let mut i: usize = 0;
    while i < args.len()
        invariant
            params@.len() == args@.len(),
            i <= args@.len(),
            vals@.len() == i,
            forall|j: int|
                0 <= j < i ==> arg_parses(#[trigger] args@[j]@, params@[j]) && vals@[j]
                    == spec_coerced(args@[j]@, params@[j]),
        decreases args@.len() - i,
    {
        let a: &String = &args[i];
        match params[i] {
            ParamKind::I32 => {
                match parse_i32(a.as_str()) {
                    Some(v) => vals.push(ArgumentValue::I32(v)),
                    None => {
                        return Err(
                            UdfError::ArgumentConversionError { index: i, target_kind: ParamKind::I32 },
                        );
                    },
                }
            },
            ParamKind::I64 => {
                match parse_i64(a.as_str()) {
                    Some(v) => vals.push(ArgumentValue::I64(v)),
                    None => {
                        return Err(
                            UdfError::ArgumentConversionError { index: i, target_kind: ParamKind::I64 },
                        );
                    },
                }
            },
            ParamKind::F32 => {
                match parse_f32_bits(a.as_str()) {
                    Some(b) => vals.push(ArgumentValue::F32Bits(b)),
                    None => {
                        return Err(
                            UdfError::ArgumentConversionError { index: i, target_kind: ParamKind::F32 },
                        );
                    },
                }
            },
            ParamKind::F64 => {
                match parse_f64_bits(a.as_str()) {
                    Some(b) => vals.push(ArgumentValue::F64Bits(b)),
                    None => {
                        return Err(
                            UdfError::ArgumentConversionError { index: i, target_kind: ParamKind::F64 },
                        );
                    },
                }
            },
            ParamKind::Unsupported => {
                return Err(UdfError::UnsupportedType { index: i });
            },
        }
        i += 1;
    }
    Ok(vals)
}

impl WASM {
    /// A module under its program name; the bytes are taken as given.
    pub fn new(name: String, contents: Vec<u8>) -> (w: WASM)
        ensures
            w@.name == name@,
            w@.contents == contents@,
    {
        WASM { name, contents }
    }

    /// The program name the module was wrapped with.
    pub fn name(&self) -> (r: &String)
        ensures
            r@ == self@.name,
    {
        &self.name
    }

    /// The module's bytes.
    pub fn contents(&self) -> (r: &Vec<u8>)
        ensures
            r@ == self@.contents,
    {
        &self.contents
    }

    /// Executes one exported function against this module, with no state
    /// retained between calls.
    ///
    /// The call compiles the bytes, resolves `endpoint` among the exports,
    /// checks arity before anything is instantiated, coerces each string
    /// argument to its declared kind, builds the import table,
    /// instantiates, invokes, and returns the result vector unchanged.
    /// A module that declares a dependency on the OS-capability bootstrap
    /// gets a fresh, per-call session seeded with the module's name and
    /// `args` as the process argument vector, offering the bootstrap's
    /// process-exit, argument-delivery and (empty) environment calls;
    /// imports outside those fail to link. The session is discarded when
    /// the call returns. A failure is classified by the stage that
    /// produced it; an explicit exit request from the capability session
    /// is reported as `ProcessExitSignal` for the embedding program to
    /// honour.
    pub fn execute(&self, endpoint: &str, args: Vec<String>) -> (r: Result<
        Vec<ArgumentValue>,
        UdfError,
    >)
        ensures
            (r matches Err(UdfError::CompileError { .. })) <==> !wasm_compiles(self@.contents),
            match r {
                Err(UdfError::ArityMismatch { expected, received, args: a }) => received
                    == args@.len() && expected != received && a@ == args@ && wasm_compiles(
                    self@.contents,
                ),
                Err(UdfError::ArgumentConversionError { index, target_kind }) => index
                    < args@.len() && !(target_kind is Unsupported) && !arg_parses(
                    args@[index as int]@,
                    target_kind,
                ) && wasm_compiles(self@.contents),
                Err(UdfError::UnsupportedType { index }) => index < args@.len() && wasm_compiles(
                    self@.contents,
                ),
                Err(UdfError::ModuleNotFound { .. }) => false,
                Err(UdfError::StorageIOError { .. }) => false,
                Err(UdfError::CompileError { .. }) => true,
                _ => wasm_compiles(self@.contents),
            },
            wasm_compiles(self@.contents) ==> match invocation_verdict(
                exports_of(self@.contents),
                endpoint@,
                args.deep_view(),
            ) {
                InvocationVerdict::NotFound { module_has_functions } => (r matches Err(
                    UdfError::ExportNotFound { name, module_has_functions: h },
                ) && name@ == endpoint@ && h == module_has_functions),
                InvocationVerdict::NotAFunction => (r matches Err(
                    UdfError::ExportNotAFunction { name },
                ) && name@ == endpoint@),
                InvocationVerdict::BadArity { expected } => (r matches Err(
                    UdfError::ArityMismatch { expected: e, received, args: a },
                ) && e as int == expected && received == args@.len() && a@ == args@),
                InvocationVerdict::BadArgument { index, kind } => (r matches Err(
                    UdfError::ArgumentConversionError { index: i2, target_kind },
                ) && i2 as int == index && target_kind == kind),
                InvocationVerdict::BadKind { index } => (r matches Err(
                    UdfError::UnsupportedType { index: i2 },
                ) && i2 as int == index),
                InvocationVerdict::Runnable => !(r matches Err(UdfError::ArityMismatch { .. }))
                    && !(r matches Err(UdfError::ArgumentConversionError { .. })) && !(r matches Err(
                    UdfError::UnsupportedType { .. },
                )) && !(r matches Err(UdfError::ExportNotFound { .. })) && !(r matches Err(
                    UdfError::ExportNotAFunction { .. },
                )),
            },
    {
        let entries = session_entries(&self.name, &args);
        self.execute_core(endpoint, args, entries)
    }

    /// Shared pipeline of `execute` and `bootstrap`: `call_args` are
    /// checked against the endpoint's declared parameters and coerced;
    /// `argv_entries` seed the capability session when the module asks
    /// for one.
    fn execute_core(
        &self,
        endpoint: &str,
        call_args: Vec<String>,
        argv_entries: Vec<Vec<u8>>,
    ) -> (r: Result<Vec<ArgumentValue>, UdfError>)
        ensures
            (r matches Err(UdfError::CompileError { .. })) <==> !wasm_compiles(self@.contents),
            match r {
                Err(UdfError::ArityMismatch { expected, received, args: a }) => received
                    == call_args@.len() && expected != received && a@ == call_args@
                    && wasm_compiles(self@.contents),
                Err(UdfError::ArgumentConversionError { index, target_kind }) => index
                    < call_args@.len() && !(target_kind is Unsupported) && !arg_parses(
                    call_args@[index as int]@,
                    target_kind,
                ) && wasm_compiles(self@.contents),
                Err(UdfError::UnsupportedType { index }) => index < call_args@.len()
                    && wasm_compiles(self@.contents),
                Err(UdfError::ModuleNotFound { .. }) => false,
                Err(UdfError::StorageIOError { .. }) => false,
                Err(UdfError::CompileError { .. }) => true,
                _ => wasm_compiles(self@.contents),
            },
            wasm_compiles(self@.contents) ==> match invocation_verdict(
                exports_of(self@.contents),
                endpoint@,
                call_args.deep_view(),
            ) {
                InvocationVerdict::NotFound { module_has_functions } => (r matches Err(
                    UdfError::ExportNotFound { name, module_has_functions: h },
                ) && name@ == endpoint@ && h == module_has_functions),
                InvocationVerdict::NotAFunction => (r matches Err(
                    UdfError::ExportNotAFunction { name },
                ) && name@ == endpoint@),
                InvocationVerdict::BadArity { expected } => (r matches Err(
                    UdfError::ArityMismatch { expected: e, received, args: a },
                ) && e as int == expected && received == call_args@.len() && a@ == call_args@),
                InvocationVerdict::BadArgument { index, kind } => (r matches Err(
                    UdfError::ArgumentConversionError { index: i2, target_kind },
                ) && i2 as int == index && target_kind == kind),
                InvocationVerdict::BadKind { index } => (r matches Err(
                    UdfError::UnsupportedType { index: i2 },
                ) && i2 as int == index),
                InvocationVerdict::Runnable => !(r matches Err(UdfError::ArityMismatch { .. }))
                    && !(r matches Err(UdfError::ArgumentConversionError { .. })) && !(r matches Err(
                    UdfError::UnsupportedType { .. },
                )) && !(r matches Err(UdfError::ExportNotFound { .. })) && !(r matches Err(
                    UdfError::ExportNotAFunction { .. },
                )),
            },
    {
        let (mut run, entries) = match compile_session(&self.contents) {
            Ok(s) => s,
            Err(detail) => {
                return Err(UdfError::CompileError { detail });
            },
        };
        proof {
            lemma_entries_view_find(entries@, endpoint@);
            lemma_entries_view_hasfunc(entries@);
        }
        let idx = match select_function(&entries, endpoint) {
            Ok(idx) => idx,
            Err(e) => {
                proof {
                    lemma_find_named_bounds(entries@, endpoint@);
                    let x = exports_of(self@.contents);
                    match find_named(entries@, endpoint@) {
                        Some(k) => {
                            assert(x[k] == entry_view(entries@[k]));
                        },
                        None => {},
                    }
                }
                return Err(e);
            },
        };
        proof {
            lemma_find_named_from_prefix(entries@, endpoint@, idx as int);
            assert(sig_named(exports_of(self@.contents), endpoint@) == Some(idx as int));
            assert(exports_of(self@.contents)[idx as int] == entry_view(entries@[idx as int]));
        }
        let (params, nresults) = match &entries[idx].desc {
            ExportDesc::Func { params, results } => (params, *results),
            ExportDesc::Other => {
                proof {
                    assert(false);
                }
                return Err(UdfError::ExportNotAFunction { name: endpoint.to_owned() });
            },
        };
        match check_arity(params.len(), &call_args) {
            Ok(_) => {},
            Err(e) => {
                return Err(e);
            },
        }
        let vals = match coerce_args(params, &call_args) {
            Ok(v) => v,
            Err(e) => {
                proof {
                    let av = call_args.deep_view();
                    match e {
                        UdfError::ArgumentConversionError { index, target_kind } => {
                            assert(forall|j: int|
                                0 <= j < index ==> arg_parses(#[trigger] av[j], params@[j]));
                            assert(!arg_parses(av[index as int], params@[index as int]));
                            lemma_first_uncoercible_at(params@, av, 0, index as int);
                        },
                        UdfError::UnsupportedType { index } => {
                            assert(forall|j: int|
                                0 <= j < index ==> arg_parses(#[trigger] av[j], params@[j]));
                            assert(!arg_parses(av[index as int], params@[index as int]));
                            lemma_first_uncoercible_at(params@, av, 0, index as int);
                        },
                        _ => {},
                    }
                }
                return Err(e);
            },
        };
        proof {
            let av = call_args.deep_view();
            assert(forall|j: int|
                0 <= j < av.len() ==> arg_parses(#[trigger] av[j], params@[j]));
            lemma_first_uncoercible_none(params@, av, 0);
        }
        let namespaces = session_namespaces(&run);
        let wants_capability = needs_capability_session(&namespaces);
        let session = match build_session(&argv_entries) {
            Some(s) => s,
            None => {
                return Err(
                    UdfError::InstantiationError {
                        detail: String::from_str(
                            "the argument vector does not fit the capability session's wire format",
                        ),
                    },
                );
            },
        };
        if let Err(detail) = instantiate_session(&mut run, wants_capability, session) {
            return Err(UdfError::InstantiationError { detail });
        }
        match lookup_session(&mut run, endpoint) {
            Ok(_) => {},
            Err(LookupFailure::Missing) => {
                return Err(
                    UdfError::InstantiationError {
                        detail: String::from_str(
                            "the validated endpoint is absent from the instance",
                        ),
                    },
                );
            },
            Err(LookupFailure::IncompatibleType) => {
                return Err(
                    UdfError::InstantiationError {
                        detail: String::from_str(
                            "the validated endpoint is not callable in the instance",
                        ),
                    },
                );
            },
        }
        match call_session(&mut run, &vals, nresults) {
            Ok(outs) => {
                let mut results: Vec<ArgumentValue> = Vec::new();
                let mut k: usize = 0;
                while k < outs.len()
                    invariant
                        wasm_compiles(self@.contents),
                        invocation_verdict(
                            exports_of(self@.contents),
                            endpoint@,
                            call_args.deep_view(),
                        ) == InvocationVerdict::Runnable,
                    decreases outs@.len() - k,
                {
                    match val_to_argument(&outs[k]) {
                        Some(v) => results.push(v),
                        None => {
                            return Err(
                                UdfError::ExecutionTrap {
                                    detail: String::from_str("result value of an unsupported kind"),
                                },
                            );
                        },
                    }
                    k += 1;
                }
                Ok(results)
            },
            Err(e) => {
                let status = exit_status(&e);
                let detail = error_message(e);
                Err(classify_failure(status, detail))
            },
        }
    }

    /// Invokes the canonical bootstrap entry point with only an argument
    /// vector, discarding results; for pure side-effecting modules. The
    /// vector seeds the capability session's argv — it is not passed as
    /// call parameters, so the canonical zero-parameter entry point
    /// checks out against an empty call vector — and every stage of
    /// `execute` is shared.
    pub fn bootstrap(&self, args: Vec<String>) -> (r: Result<(), UdfError>)
        ensures
            (r matches Err(UdfError::CompileError { .. })) <==> !wasm_compiles(self@.contents),
            match r {
                Err(UdfError::ArityMismatch { expected, received, args: a }) => received == 0
                    && expected != 0 && a@ == Seq::<String>::empty() && wasm_compiles(
                    self@.contents,
                ),
                Err(UdfError::ModuleNotFound { .. }) => false,
                Err(UdfError::StorageIOError { .. }) => false,
                Err(UdfError::CompileError { .. }) => true,
                _ => wasm_compiles(self@.contents),
            },
            wasm_compiles(self@.contents) ==> match invocation_verdict(
                exports_of(self@.contents),
                "_start"@,
                Seq::<Seq<char>>::empty(),
            ) {
                InvocationVerdict::NotFound { module_has_functions } => (r matches Err(
                    UdfError::ExportNotFound { name, module_has_functions: h },
                ) && name@ == "_start"@ && h == module_has_functions),
                InvocationVerdict::NotAFunction => (r matches Err(
                    UdfError::ExportNotAFunction { name },
                ) && name@ == "_start"@),
                InvocationVerdict::BadArity { expected } => (r matches Err(
                    UdfError::ArityMismatch { expected: e, received, .. },
                ) && e as int == expected && received == 0),
                InvocationVerdict::BadArgument { .. } => false,
                InvocationVerdict::BadKind { .. } => false,
                InvocationVerdict::Runnable => !(r matches Err(UdfError::ArityMismatch { .. }))
                    && !(r matches Err(UdfError::ArgumentConversionError { .. })) && !(r matches Err(
                    UdfError::UnsupportedType { .. },
                )) && !(r matches Err(UdfError::ExportNotFound { .. })) && !(r matches Err(
                    UdfError::ExportNotAFunction { .. },
                )),
            },
    {
        let entries = session_entries(&self.name, &args);
        let none: Vec<String> = Vec::new();
        proof {
            assert(none.deep_view() =~= Seq::<Seq<char>>::empty());
        }
        match self.execute_core("_start", none, entries) {
            Ok(_) => Ok(()),
            Err(e) => Err(e),
        }
    }
}

/// What a failed invocation is: an explicit exit request from the
/// capability session — recognised by its extracted status — carries the
/// requested code as the host-affecting termination signal; every other
/// failure is a recoverable trap wrapping the failure's text.
pub fn classify_failure(status: Option<i32>, detail: String) -> (r: UdfError)
    ensures
        match status {
            Some(code) => r == (UdfError::ProcessExitSignal { code: code as u32 }),
            None => r matches UdfError::ExecutionTrap { detail: d } && d == detail,
        },
{
    match status {
        Some(code) => UdfError::ProcessExitSignal { code: #[verifier::truncate] (code as u32) },
        None => UdfError::ExecutionTrap { detail },
    }
}

/// The capability session's argv entries for one call: the program name
/// first, then each argument, as byte strings.
fn session_entries(name: &String, args: &Vec<String>) -> (r: Vec<Vec<u8>>)
    ensures
        r@.len() == 1 + args@.len(),
{
    let mut entries: Vec<Vec<u8>> = Vec::new();
    entries.push(name.as_str().as_bytes_vec());
    let mut i: usize = 0;
    while i < args.len()
        invariant
            entries@.len() == 1 + i,
            i <= args@.len(),
        decreases args@.len() - i,
    {
        entries.push(args[i].as_str().as_bytes_vec());
        i += 1;
    }
    entries
}

} // verus!
