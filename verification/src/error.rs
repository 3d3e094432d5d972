//! Failure taxonomy of the module store and the execution engine.
//!
//! Every kind is recoverable and returned to the caller except
//! `ProcessExitSignal`, which reports a module's explicit request that the
//! host process terminate with the given code; the embedding program decides
//! whether to honour it.

use vstd::prelude::*;
use crate::args::ParamKind;
use crate::numtext::dec_digits;
use crate::numtext::u64_to_string;

verus! {

#[derive(Debug)]
pub enum UdfError {
    /// Reading the module bytes from durable storage failed for a reason
    /// other than their absence.
    StorageIOError { detail: String },
    /// No bytes are stored under the requested module id.
    ModuleNotFound { id: u64 },
    /// The module bytes are not valid bytecode.
    CompileError { detail: String },
    /// Imports could not be resolved, or linking failed.
    InstantiationError { detail: String },
    /// The requested export does not exist; `module_has_functions` tells a
    /// module that exports no functions at all apart from one that merely
    /// lacks this name.
    ExportNotFound { name: String, module_has_functions: bool },
    /// The requested export exists but is not callable.
    ExportNotAFunction { name: String },
    /// The call supplied a different number of arguments than the target
    /// function declares.
    ArityMismatch { expected: usize, received: usize, args: Vec<String> },
    /// The argument at `index` does not parse as the declared kind.
    ArgumentConversionError { index: usize, target_kind: ParamKind },
    /// The parameter at `index` is declared with a kind outside the four
    /// numeric kinds the engine supports.
    UnsupportedType { index: usize },
    /// The call started and then failed inside the module.
    ExecutionTrap { detail: String },
    /// The module asked its capability session to end the process.
    ProcessExitSignal { code: u32 },
}

pub open spec fn kind_text(k: ParamKind) -> Seq<char> {
    match k {
        ParamKind::I32 => "32-bit integer"@,
        ParamKind::I64 => "64-bit integer"@,
        ParamKind::F32 => "32-bit float"@,
        ParamKind::F64 => "64-bit float"@,
        ParamKind::Unsupported => "unsupported"@,
    }
}

/// The elements, separated by single spaces.
pub open spec fn spec_joined(args: Seq<Seq<char>>) -> Seq<char>
    decreases args.len(),
{
    if args.len() == 0 {
        Seq::empty()
    } else if args.len() == 1 {
        args[0]
    } else {
        spec_joined(args.drop_last()) + " "@ + args.last()
    }
}

pub open spec fn spec_message(e: UdfError) -> Seq<char> {
    match e {
        UdfError::StorageIOError { detail } => "Storage read failed: "@ + detail@,
        UdfError::ModuleNotFound { id } => "No module stored under id "@ + dec_digits(
            id as nat,
        ),
        UdfError::CompileError { detail } => "Compilation failed: "@ + detail@,
        UdfError::InstantiationError { detail } => "Instantiation failed: "@ + detail@,
        UdfError::ExportNotFound { name, module_has_functions } => if !module_has_functions {
            "The module has no exported functions to call."@
        } else {
            "No export `"@ + name@ + "` found in the module"@
        },
        UdfError::ExportNotAFunction { name } => "Export `"@ + name@
            + "` found, but is not a function."@,
        UdfError::ArityMismatch { expected, received, args } => "Function expected "@
            + dec_digits(expected as nat) + " arguments, but received "@ + dec_digits(
            received as nat,
        ) + ": \""@ + spec_joined(args.deep_view()) + "\""@,
        UdfError::ArgumentConversionError { index, target_kind } => "Can't convert argument "@
            + dec_digits(index as nat) + " into a "@ + kind_text(target_kind),
        UdfError::UnsupportedType { index } => "Parameter "@ + dec_digits(index as nat)
            + " has an unsupported type"@,
        UdfError::ExecutionTrap { detail } => "Call failed: "@ + detail@,
        UdfError::ProcessExitSignal { code } => "Module requested process exit with code "@
            + dec_digits(code as nat),
    }
}

/// The elements, separated by single spaces.
pub fn join_space(args: &Vec<String>) -> (r: String)
    ensures
        r@ == spec_joined(args.deep_view()),
{
    let mut out = String::new();
    let mut i: usize = 0;
    while i < args.len()
        invariant
            i <= args.len(),
            out@ == spec_joined(args.deep_view().take(i as int)),
        decreases args.len() - i,
    {
        if i > 0 {
            out.append(" ");
        }
        out.append(args[i].as_str());
        proof {
            let va = args.deep_view();
            assert(va.take(i + 1).drop_last() =~= va.take(i as int));
            assert(va.take(i + 1).last() == va[i as int]);
            assert(va[i as int] == args@[i as int]@);
            if i == 0 {
                assert(out@ =~= spec_joined(va.take(i + 1)));
            }
        }
        i += 1;
    }
    proof {
        assert(args.deep_view().take(args@.len() as int) =~= args.deep_view());
    }
    out
}

impl UdfError {
    /// Human-readable description of the failure.
    pub fn message(&self) -> (m: String)
        ensures
            m@ == spec_message(*self),
    {
        match self {
            UdfError::StorageIOError { detail } => {
                let mut m = String::from_str("Storage read failed: ");
                m.append(detail.as_str());
                m
            },
            UdfError::ModuleNotFound { id } => {
                let mut m = String::from_str("No module stored under id ");
                let d = u64_to_string(*id);
                m.append(d.as_str());
                m
            },
            UdfError::CompileError { detail } => {
                let mut m = String::from_str("Compilation failed: ");
                m.append(detail.as_str());
                m
            },
            UdfError::InstantiationError { detail } => {
                let mut m = String::from_str("Instantiation failed: ");
                m.append(detail.as_str());
                m
            },
            UdfError::ExportNotFound { name, module_has_functions } => {
                if !*module_has_functions {
                    String::from_str("The module has no exported functions to call.")
                } else {
                    let mut m = String::from_str("No export `");
                    m.append(name.as_str());
                    m.append("` found in the module");
                    m
                }
            },
            UdfError::ExportNotAFunction { name } => {
                let mut m = String::from_str("Export `");
                m.append(name.as_str());
                m.append("` found, but is not a function.");
                m
            },
            UdfError::ArityMismatch { expected, received, args } => {
                let mut m = String::from_str("Function expected ");
                let e = u64_to_string(*expected as u64);
                m.append(e.as_str());
                m.append(" arguments, but received ");
                let r = u64_to_string(*received as u64);
                m.append(r.as_str());
                m.append(": \"");
                let j = join_space(args);
                m.append(j.as_str());
                m.append("\"");
                m
            },
            UdfError::ArgumentConversionError { index, target_kind } => {
                let mut m = String::from_str("Can't convert argument ");
                let d = u64_to_string(*index as u64);
                m.append(d.as_str());
                m.append(" into a ");
                let k = match target_kind {
                    ParamKind::I32 => "32-bit integer",
                    ParamKind::I64 => "64-bit integer",
                    ParamKind::F32 => "32-bit float",
                    ParamKind::F64 => "64-bit float",
                    ParamKind::Unsupported => "unsupported",
                };
                m.append(k);
                m
            },
            UdfError::UnsupportedType { index } => {
                let mut m = String::from_str("Parameter ");
                let d = u64_to_string(*index as u64);
                m.append(d.as_str());
                m.append(" has an unsupported type");
                m
            },
            UdfError::ExecutionTrap { detail } => {
                let mut m = String::from_str("Call failed: ");
                m.append(detail.as_str());
                m
            },
            UdfError::ProcessExitSignal { code } => {
                let mut m = String::from_str("Module requested process exit with code ");
                let d = u64_to_string(*code as u64);
                m.append(d.as_str());
                m
            },
        }
    }
}

/// The two shapes of a failed export lookup carry distinct messages, and a
/// module without function exports is reported in the words "no exported
/// functions".
pub proof fn lemma_export_messages_distinct(name: String)
    ensures
        spec_message(
            UdfError::ExportNotFound { name, module_has_functions: false },
        ) != spec_message(UdfError::ExportNotFound { name, module_has_functions: true }),
        spec_message(
            UdfError::ExportNotFound { name, module_has_functions: false },
        ) == "The module has no exported functions to call."@,
{
    reveal_strlit("The module has no exported functions to call.");
    reveal_strlit("No export `");
    let a = "The module has no exported functions to call."@;
    let b = "No export `"@ + name@ + "` found in the module"@;
    assert(a[0] == 'T' && b[0] == 'N');
}

} // verus!
