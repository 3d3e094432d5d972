use udf::args::ArgumentValue;
use udf::error::UdfError;
use udf::wasm::WASM;
use udf::ModuleStore;

fn doubling_module() -> Vec<u8> {
    wat::parse_str(
        "(module (func (export \"udf_main\") (param i64) (result i64) \
         (i64.mul (local.get 0) (i64.const 2))))",
    )
    .unwrap()
}

fn empty_module() -> Vec<u8> {
    wat::parse_str("(module)").unwrap()
}

fn f32_identity_module() -> Vec<u8> {
    wat::parse_str("(module (func (export \"udf_main\") (param f32) (result f32) (local.get 0)))")
        .unwrap()
}

fn f64_identity_module() -> Vec<u8> {
    wat::parse_str("(module (func (export \"udf_main\") (param f64) (result f64) (local.get 0)))")
        .unwrap()
}

fn non_function_export_module() -> Vec<u8> {
    wat::parse_str(
        "(module (memory (export \"udf_main\") 1) \
         (func (export \"other\") (param i64) (result i64) (local.get 0)))",
    )
    .unwrap()
}

fn exit_module() -> Vec<u8> {
    wat::parse_str(
        "(module \
         (import \"wasi_snapshot_preview1\" \"proc_exit\" (func $pe (param i32))) \
         (memory (export \"memory\") 1) \
         (func (export \"_start\") (param i32) (call $pe (local.get 0))))",
    )
    .unwrap()
}

/// A bootstrap module that reads its first argument through the
/// capability session's argv delivery and exits with that digit.
fn argv_exit_module() -> Vec<u8> {
    wat::parse_str(
        "(module \
         (import \"wasi_snapshot_preview1\" \"args_sizes_get\" (func $sizes (param i32 i32) (result i32))) \
         (import \"wasi_snapshot_preview1\" \"args_get\" (func $get (param i32 i32) (result i32))) \
         (import \"wasi_snapshot_preview1\" \"proc_exit\" (func $exit (param i32))) \
         (memory (export \"memory\") 1) \
         (func (export \"_start\") \
           (drop (call $sizes (i32.const 0) (i32.const 4))) \
           (drop (call $get (i32.const 8) (i32.const 64))) \
           (call $exit (i32.sub (i32.load8_u (i32.load (i32.const 12))) (i32.const 48)))))",
    )
    .unwrap()
}

#[test]
fn doubling_returns_int64() {
    let mut store = ModuleStore::init();
    let w = store.admit_read(1, Ok(doubling_module())).unwrap();
    let res = w.execute("udf_main", vec!["21".to_string()]).unwrap();
    assert_eq!(res, vec![ArgumentValue::I64(42)]);
}

#[test]
fn doubling_negative_input() {
    let w = WASM::new("m".to_string(), doubling_module());
    let res = w.execute("udf_main", vec!["-21".to_string()]).unwrap();
    assert_eq!(res, vec![ArgumentValue::I64(-42)]);
}

#[test]
fn arity_mismatch_two_args() {
    let mut store = ModuleStore::init();
    let w = store.admit_read(1, Ok(doubling_module())).unwrap();
    let err = w
        .execute("udf_main", vec!["21".to_string(), "1".to_string()])
        .unwrap_err();
    match err {
        UdfError::ArityMismatch {
            expected,
            received,
            args,
        } => {
            assert_eq!(expected, 1);
            assert_eq!(received, 2);
            assert_eq!(args, vec!["21".to_string(), "1".to_string()]);
        }
        other => panic!("wrong error: {}", other.message()),
    }
}

#[test]
fn arity_mismatch_message() {
    let w = WASM::new("m".to_string(), doubling_module());
    let err = w
        .execute("udf_main", vec!["21".to_string(), "1".to_string()])
        .unwrap_err();
    assert_eq!(
        err.message(),
        "Function expected 1 arguments, but received 2: \"21 1\""
    );
}

#[test]
fn conversion_failure_names_index_and_kind() {
    let w = WASM::new("m".to_string(), doubling_module());
    let err = w.execute("udf_main", vec!["abc".to_string()]).unwrap_err();
    match err {
        UdfError::ArgumentConversionError { index, target_kind } => {
            assert_eq!(index, 0);
            assert_eq!(target_kind, udf::args::ParamKind::I64);
        }
        other => panic!("wrong error: {}", other.message()),
    }
}

#[test]
fn conversion_failure_fractional_into_int() {
    let w = WASM::new("m".to_string(), doubling_module());
    let err = w.execute("udf_main", vec!["2.5".to_string()]).unwrap_err();
    assert!(matches!(
        err,
        UdfError::ArgumentConversionError { index: 0, .. }
    ));
}

#[test]
fn zero_exports_message() {
    let w = WASM::new("m".to_string(), empty_module());
    let err = w.execute("anything", vec![]).unwrap_err();
    match &err {
        UdfError::ExportNotFound {
            name,
            module_has_functions,
        } => {
            assert_eq!(name, "anything");
            assert!(!module_has_functions);
        }
        other => panic!("wrong error: {}", other.message()),
    }
    assert_eq!(
        err.message(),
        "The module has no exported functions to call."
    );
}

#[test]
fn missing_name_message_differs_from_zero_exports() {
    let w = WASM::new("m".to_string(), doubling_module());
    let err = w.execute("absent", vec![]).unwrap_err();
    match &err {
        UdfError::ExportNotFound {
            name,
            module_has_functions,
        } => {
            assert_eq!(name, "absent");
            assert!(*module_has_functions);
        }
        other => panic!("wrong error: {}", other.message()),
    }
    assert_eq!(err.message(), "No export `absent` found in the module");
    assert_ne!(
        err.message(),
        "The module has no exported functions to call."
    );
}

#[test]
fn export_present_but_not_callable() {
    let w = WASM::new("m".to_string(), non_function_export_module());
    let err = w.execute("udf_main", vec![]).unwrap_err();
    match &err {
        UdfError::ExportNotAFunction { name } => assert_eq!(name, "udf_main"),
        other => panic!("wrong error: {}", other.message()),
    }
    assert_eq!(
        err.message(),
        "Export `udf_main` found, but is not a function."
    );
}

#[test]
fn float32_round_trips_by_bits() {
    let w = WASM::new("m".to_string(), f32_identity_module());
    let res = w.execute("udf_main", vec!["2.5".to_string()]).unwrap();
    assert_eq!(res, vec![ArgumentValue::F32Bits(2.5f32.to_bits())]);
}

#[test]
fn float64_round_trips_by_bits() {
    let w = WASM::new("m".to_string(), f64_identity_module());
    let res = w.execute("udf_main", vec!["-0.5".to_string()]).unwrap();
    assert_eq!(res, vec![ArgumentValue::F64Bits((-0.5f64).to_bits())]);
}

#[test]
fn float32_conversion_failure() {
    let w = WASM::new("m".to_string(), f32_identity_module());
    let err = w.execute("udf_main", vec!["abc".to_string()]).unwrap_err();
    match err {
        UdfError::ArgumentConversionError { index, target_kind } => {
            assert_eq!(index, 0);
            assert_eq!(target_kind, udf::args::ParamKind::F32);
        }
        other => panic!("wrong error: {}", other.message()),
    }
}

#[test]
fn compile_error_on_garbage_bytes() {
    let w = WASM::new("m".to_string(), vec![0, 1, 2, 3]);
    let err = w.execute("udf_main", vec![]).unwrap_err();
    assert!(matches!(err, UdfError::CompileError { .. }));
}

#[test]
fn capability_exit_reported_with_code() {
    let w = WASM::new("m".to_string(), exit_module());
    let err = w.execute("_start", vec!["7".to_string()]).unwrap_err();
    match err {
        UdfError::ProcessExitSignal { code } => assert_eq!(code, 7),
        other => panic!("wrong error: {}", other.message()),
    }
}

#[test]
fn bootstrap_exit_reads_first_argument() {
    let w = WASM::new("m".to_string(), argv_exit_module());
    let err = w.bootstrap(vec!["7".to_string()]).unwrap_err();
    match err {
        UdfError::ProcessExitSignal { code } => assert_eq!(code, 7),
        other => panic!("wrong error: {}", other.message()),
    }
}

#[test]
fn bootstrap_reports_exit_too() {
    let w = WASM::new("m".to_string(), argv_exit_module());
    let err = w.bootstrap(vec!["3".to_string()]).unwrap_err();
    match err {
        UdfError::ProcessExitSignal { code } => assert_eq!(code, 3),
        other => panic!("wrong error: {}", other.message()),
    }
}

#[test]
fn bootstrap_passes_no_call_parameters() {
    let w = WASM::new("m".to_string(), exit_module());
    let err = w.bootstrap(vec!["3".to_string()]).unwrap_err();
    match err {
        UdfError::ArityMismatch { expected, received, .. } => {
            assert_eq!((expected, received), (1, 0));
        }
        other => panic!("wrong error: {}", other.message()),
    }
}

#[test]
fn trap_is_classified_as_execution_trap() {
    let bytes = wat::parse_str("(module (func (export \"udf_main\") unreachable))").unwrap();
    let w = WASM::new("m".to_string(), bytes);
    let err = w.execute("udf_main", vec![]).unwrap_err();
    assert!(matches!(err, UdfError::ExecutionTrap { .. }));
}
