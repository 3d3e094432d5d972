//! Trusted boundary to the wasmi runtime.
//!
//! Every item here either declares a runtime type opaquely, wraps outside
//! calls over one call's `RunSession`, or is a host callback of the
//! capability bootstrap. All runtime handles of a call — engine, store,
//! module, instance, selected function — live inside one `RunSession`,
//! created together against the same store, so no handle can ever be
//! paired with a foreign store (the runtime panics on such a pairing; the
//! session makes it unbuildable). The bootstrap's host callbacks only
//! copy the session's precomputed wire bytes into guest memory, or raise
//! the explicit exit status that the engine classifies after the call
//! unwinds.

use vstd::prelude::*;
use crate::args::ArgumentValue;
use crate::args::ParamKind;
use crate::args::f32_bits_of;
use crate::args::f32_str_parses;
use crate::args::f64_bits_of;
use crate::args::f64_str_parses;
use crate::session::CapabilitySession;
use crate::wasm::ExportDesc;
use crate::wasm::ExportEntry;
use crate::wasm::ExportSigView;
use crate::wasm::entries_view;

verus! {

/// Whether the runtime accepts a byte sequence as a module: compilation
/// and validation are decided by the bytes alone.
pub uninterp spec fn wasm_compiles(bytes: Seq<u8>) -> bool;

/// The export table of a module that compiles: each export's name, and,
/// for function exports, the declared parameter kinds and result count —
/// a function of the bytes alone.
pub uninterp spec fn exports_of(bytes: Seq<u8>) -> Seq<ExportSigView>;

#[verifier::external_type_specification]
#[verifier::external_body]
pub struct ExFuncType(wasmi::FuncType);

#[verifier::external_type_specification]
#[verifier::external_body]
pub struct ExError(wasmi::Error);

#[verifier::external_type_specification]
#[verifier::external_body]
pub struct ExVal(wasmi::Val);

#[verifier::external_type_specification]
#[verifier::external_body]
#[verifier::reject_recursive_types(T)]
pub struct ExLinker<T>(wasmi::Linker<T>);

#[verifier::external_type_specification]
#[verifier::external_body]
#[verifier::reject_recursive_types(T)]
pub struct ExCaller<'a, T>(wasmi::Caller<'a, T>);

#[verifier::external_type_specification]
#[verifier::external_body]
pub struct ExExportType<'a>(wasmi::ExportType<'a>);

/// One call's runtime state: the engine, its store — carrying the
/// capability session as host data — the compiled module, and, once
/// resolved, the instance and the selected function. Everything is
/// created against this one store, and discarded with the session.
#[verifier::external_body]
pub struct RunSession {
    engine: wasmi::Engine,
    store: wasmi::Store<CapabilitySession>,
    module: wasmi::Module,
    instance: Option<wasmi::Instance>,
    func: Option<wasmi::Func>,
}

/// How a lookup of one export by name can fail.
pub enum LookupFailure {
    Missing,
    IncompatibleType,
}

/// Relies on wasmi::ExportType::name and ExportType::ty, FuncType::params
/// and FuncType::results: one export's description, its declared kinds
/// mapped one-to-one by `param_kinds`.
#[verifier::external_body]
pub(crate) fn export_entry_of(e: wasmi::ExportType<'_>) -> ExportEntry {
    match e.ty() {
        wasmi::ExternType::Func(ft) => ExportEntry {
            name: e.name().to_owned(),
            desc: ExportDesc::Func { params: param_kinds(ft), results: ft.results().len() },
        },
        wasmi::ExternType::Global(_) => ExportEntry { name: e.name().to_owned(), desc: ExportDesc::Other },
        wasmi::ExternType::Table(_) => ExportEntry { name: e.name().to_owned(), desc: ExportDesc::Other },
        wasmi::ExternType::Memory(_) => ExportEntry { name: e.name().to_owned(), desc: ExportDesc::Other },
    }
}

/// Relies on wasmi::Engine::default, Store::new, Module::new and
/// Module::exports: compiles and validates the bytes under a fresh engine
/// — acceptance, and the export table handed back, are facts of the bytes
/// alone. The store starts with an empty capability session;
/// `instantiate_session` seeds the real one.
#[verifier::external_body]
pub(crate) fn compile_session(bytes: &Vec<u8>) -> (r: Result<(RunSession, Vec<ExportEntry>), String>)
    ensures
        r is Ok <==> wasm_compiles(bytes@),
        r matches Ok((s, exports)) ==> entries_view(exports@) == exports_of(bytes@),
{
    let engine = wasmi::Engine::default();
    let module = match wasmi::Module::new(&engine, bytes.as_slice()) {
        Ok(m) => m,
        Err(e) => return Err(e.to_string()),
    };
    let exports = module.exports().map(export_entry_of).collect();
    let store = wasmi::Store::new(&engine, CapabilitySession { buf: Vec::new(), offsets: Vec::new() });
    Ok((RunSession { engine, store, module, instance: None, func: None }, exports))
}

/// Relies on wasmi::Module::imports and ImportType::module: the namespace
/// of each declared import.
#[verifier::external_body]
pub(crate) fn session_namespaces(s: &RunSession) -> Vec<String> {
    s.module.imports().map(|i| i.module().to_owned()).collect()
}

/// Relies on wasmi::FuncType::params: the declared parameter kinds in
/// order, each mapped one-to-one onto the library's kinds.
#[verifier::external_body]
pub(crate) fn param_kinds(ft: &wasmi::FuncType) -> Vec<ParamKind> {
    ft.params().iter().map(
        |t| match t {
            wasmi::ValType::I32 => ParamKind::I32,
            wasmi::ValType::I64 => ParamKind::I64,
            wasmi::ValType::F32 => ParamKind::F32,
            wasmi::ValType::F64 => ParamKind::F64,
            wasmi::ValType::V128 => ParamKind::Unsupported,
            wasmi::ValType::FuncRef => ParamKind::Unsupported,
            wasmi::ValType::ExternRef => ParamKind::Unsupported,
        },
    ).collect()
}

/// Relies on wasmi::FuncType::results: how many values the function
/// returns.
#[verifier::external_body]
pub(crate) fn result_arity(ft: &wasmi::FuncType) -> usize {
    ft.results().len()
}

/// Relies on wasmi::Error::i32_exit: the bootstrap's process-exit call;
/// it ends the call with the requested status.
#[verifier::external_body]
pub(crate) fn host_proc_exit(code: i32) -> Result<(), wasmi::Error> {
    Err(wasmi::Error::i32_exit(code))
}

/// Relies on wasmi::Caller::get_export and Memory::write: writes the
/// session's entry count and buffer size — the standard argument-sizes
/// call of the bootstrap — returning the interface's success or fault
/// code.
#[verifier::external_body]
pub(crate) fn host_args_sizes_get(
    mut caller: wasmi::Caller<'_, CapabilitySession>,
    argc_ptr: i32,
    size_ptr: i32,
) -> i32 {
    let mem = match caller.get_export("memory").and_then(|e| e.into_memory()) {
        Some(m) => m,
        None => return 21,
    };
    let argc = (caller.data().offsets.len() as u32).to_le_bytes();
    let size = (caller.data().buf.len() as u32).to_le_bytes();
    if mem.write(&mut caller, argc_ptr as u32 as usize, &argc).is_err() {
        return 21;
    }
    if mem.write(&mut caller, size_ptr as u32 as usize, &size).is_err() {
        return 21;
    }
    0
}

/// Relies on wasmi::Caller::get_export and Memory::write: copies the
/// session's argument buffer to the guest and writes each entry's guest
/// address — the buffer base plus its precomputed offset — into the
/// argument-pointer table, as the standard argument-delivery call of the
/// bootstrap lays it out.
#[verifier::external_body]
pub(crate) fn host_args_get(
    mut caller: wasmi::Caller<'_, CapabilitySession>,
    argv_ptr: i32,
    buf_ptr: i32,
) -> i32 {
    let mem = match caller.get_export("memory").and_then(|e| e.into_memory()) {
        Some(m) => m,
        None => return 21,
    };
    let buf = caller.data().buf.clone();
    let offsets = caller.data().offsets.clone();
    if mem.write(&mut caller, buf_ptr as u32 as usize, &buf).is_err() { return 21; }
    for (i, off) in offsets.iter().enumerate() {
        let entry = ((buf_ptr as u32).wrapping_add(*off)).to_le_bytes();
        let at = (argv_ptr as u32 as usize).wrapping_add(4 * i);
        if mem.write(&mut caller, at, &entry).is_err() { return 21; }
    }
    0
}

/// Relies on wasmi::Caller::get_export and Memory::write: reports an
/// empty environment — zero entries, zero buffer size.
#[verifier::external_body]
pub(crate) fn host_environ_sizes_get(
    mut caller: wasmi::Caller<'_, CapabilitySession>,
    envc_ptr: i32,
    size_ptr: i32,
) -> i32 {
    let mem = match caller.get_export("memory").and_then(|e| e.into_memory()) {
        Some(m) => m,
        None => return 21,
    };
    if mem.write(&mut caller, envc_ptr as u32 as usize, &0u32.to_le_bytes()).is_err() {
        return 21;
    }
    if mem.write(&mut caller, size_ptr as u32 as usize, &0u32.to_le_bytes()).is_err() {
        return 21;
    }
    0
}

/// Relies on nothing beyond the calling convention: with an empty
/// environment there is nothing to deliver.
#[verifier::external_body]
pub(crate) fn host_environ_get(
    caller: wasmi::Caller<'_, CapabilitySession>,
    _envp_ptr: i32,
    _buf_ptr: i32,
) -> i32 {
    let _ = caller;
    0
}

/// Relies on wasmi::Linker::func_wrap: registers the capability
/// bootstrap's calls — process exit, argument delivery, environment
/// delivery — under one namespace.
#[verifier::external_body]
pub(crate) fn register_capability_ns(
    linker: &mut wasmi::Linker<CapabilitySession>,
    ns: &str,
) -> Result<(), String> {
    if let Err(e) = linker.func_wrap(ns, "proc_exit", host_proc_exit) { return Err(e.to_string()); }
    if let Err(e) = linker.func_wrap(ns, "args_sizes_get", host_args_sizes_get) { return Err(e.to_string()); }
    if let Err(e) = linker.func_wrap(ns, "args_get", host_args_get) { return Err(e.to_string()); }
    if let Err(e) = linker.func_wrap(ns, "environ_sizes_get", host_environ_sizes_get) { return Err(e.to_string()); }
    if let Err(e) = linker.func_wrap(ns, "environ_get", host_environ_get) { return Err(e.to_string()); }
    Ok(())
}

/// Relies on wasmi::Linker::new, Store::data_mut and
/// Linker::instantiate_and_start: seeds the store with this call's
/// capability session, links the session's module against its import
/// table — the capability bootstrap's calls in both standard namespaces
/// when asked for, an empty table otherwise — and runs the module's start
/// section. Fails on unresolved imports or other link failure. Linker,
/// store and module all belong to this session's one engine.
#[verifier::external_body]
pub(crate) fn instantiate_session(
    s: &mut RunSession,
    with_capability: bool,
    session: CapabilitySession,
) -> Result<(), String> {
    *s.store.data_mut() = session;
    let mut linker = wasmi::Linker::new(&s.engine);
    if with_capability {
        register_capability_ns(&mut linker, "wasi_snapshot_preview1")?;
        register_capability_ns(&mut linker, "wasi_unstable")?;
    }
    match linker.instantiate_and_start(&mut s.store, &s.module) {
        Ok(instance) => {
            s.instance = Some(instance);
            Ok(())
        },
        Err(e) => Err(e.to_string()),
    }
}

/// Relies on wasmi::Instance::get_export: selects the callable export
/// under the name within this session, `Missing` when no export has the
/// name — or the session was never instantiated — and `IncompatibleType`
/// when the export is not a function.
#[verifier::external_body]
pub(crate) fn lookup_session(s: &mut RunSession, name: &str) -> Result<(), LookupFailure> {
    let instance = match &s.instance {
        Some(i) => i,
        None => return Err(LookupFailure::Missing),
    };
    match instance.get_export(&s.store, name) {
        Some(wasmi::Extern::Func(f)) => {
            s.func = Some(f);
            Ok(())
        },
        Some(wasmi::Extern::Global(_)) => Err(LookupFailure::IncompatibleType),
        Some(wasmi::Extern::Table(_)) => Err(LookupFailure::IncompatibleType),
        Some(wasmi::Extern::Memory(_)) => Err(LookupFailure::IncompatibleType),
        None => Err(LookupFailure::Missing),
    }
}

/// Relies on str::parse to the 32-bit float kind: the parse succeeds
/// exactly when the float grammar accepts the characters, and its value —
/// carried as a bit pattern — is a function of the characters alone.
#[verifier::external_body]
pub(crate) fn parse_f32_bits(s: &str) -> (r: Option<u32>)
    ensures
        r is Some <==> f32_str_parses(s@),
        r matches Some(b) ==> b == f32_bits_of(s@),
{
    match s.parse() {
        Ok(v) => Some(wasmi::F32::from_float(v).to_bits()),
        Err(_) => None,
    }
}

/// Relies on str::parse to the 64-bit float kind: the parse succeeds
/// exactly when the float grammar accepts the characters, and its value —
/// carried as a bit pattern — is a function of the characters alone.
#[verifier::external_body]
pub(crate) fn parse_f64_bits(s: &str) -> (r: Option<u64>)
    ensures
        r is Some <==> f64_str_parses(s@),
        r matches Some(b) ==> b == f64_bits_of(s@),
{
    match s.parse() {
        Ok(v) => Some(wasmi::F64::from_float(v).to_bits()),
        Err(_) => None,
    }
}

/// Relies on the value constructors of wasmi::Val and the bit-pattern
/// constructors of its float types: each library value maps one-to-one
/// onto the runtime's value kind.
#[verifier::external_body]
pub(crate) fn argument_to_val(a: &ArgumentValue) -> wasmi::Val {
    match a {
        ArgumentValue::I32(x) => wasmi::Val::I32(*x),
        ArgumentValue::I64(x) => wasmi::Val::I64(*x),
        ArgumentValue::F32Bits(b) => wasmi::Val::F32(wasmi::F32::from_bits(*b)),
        ArgumentValue::F64Bits(b) => wasmi::Val::F64(wasmi::F64::from_bits(*b)),
    }
}

/// Relies on wasmi::Func::call: runs the session's selected function with
/// the library's values — converted one-to-one by `argument_to_val` —
/// until it returns or traps; the output buffer holds exactly `nresults`
/// slots, all of which a successful call fills. The function belongs to
/// this session's store by construction.
#[verifier::external_body]
pub(crate) fn call_session(
    s: &mut RunSession,
    args: &Vec<ArgumentValue>,
    nresults: usize,
) -> (r: Result<Vec<wasmi::Val>, wasmi::Error>)
    ensures
        r matches Ok(v) ==> v@.len() == nresults,
{
    let func = match &s.func {
        Some(f) => f.clone(),
        None => return Err(wasmi::Error::new("no function was selected in this session")),
    };
    let ins: Vec<wasmi::Val> = args.iter().map(argument_to_val).collect();
    let mut outs = vec![wasmi::Val::I32(0); nresults];
    match func.call(&mut s.store, ins.as_slice(), outs.as_mut_slice()) {
        Ok(_) => Ok(outs),
        Err(e) => Err(e),
    }
}

/// Relies on wasmi::Error::i32_exit_status: the status of an explicit exit
/// request raised by a host call, and nothing for every other failure.
#[verifier::external_body]
pub(crate) fn exit_status(e: &wasmi::Error) -> Option<i32> {
    e.i32_exit_status()
}

/// Relies on the error rendering of wasmi::Error: the failure, as text.
#[verifier::external_body]
pub(crate) fn error_message(e: wasmi::Error) -> String {
    e.to_string()
}

/// Relies on the variant accessors of wasmi::Val: each of the four numeric
/// kinds maps to the library's value kind, floats by bit pattern;
/// reference and vector values have no counterpart.
#[verifier::external_body]
pub(crate) fn val_to_argument(v: &wasmi::Val) -> Option<ArgumentValue> {
    match v {
        wasmi::Val::I32(x) => Some(ArgumentValue::I32(*x)),
        wasmi::Val::I64(x) => Some(ArgumentValue::I64(*x)),
        wasmi::Val::F32(x) => Some(ArgumentValue::F32Bits(x.to_bits())),
        wasmi::Val::F64(x) => Some(ArgumentValue::F64Bits(x.to_bits())),
        wasmi::Val::V128(_) => None,
        wasmi::Val::FuncRef(_) => None,
        wasmi::Val::ExternRef(_) => None,
    }
}

} // verus!
