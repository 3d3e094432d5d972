use udf::adapter;
use udf::args::ArgumentValue;
use udf::args::ParamKind;
use udf::error::UdfError;
use udf::numtext::{i64_to_string, parse_i32, parse_i64, u64_to_string};
use udf::store::{wasm_path, ReadFailure};
use udf::wasm::{check_arity, coerce_args, WASM};
use udf::ModuleStore;

#[test]
fn parse_i64_plain_and_signed() {
    assert_eq!(parse_i64("21"), Some(21));
    assert_eq!(parse_i64("+21"), Some(21));
    assert_eq!(parse_i64("-21"), Some(-21));
    assert_eq!(parse_i64("0"), Some(0));
}

#[test]
fn parse_i64_rejects_bad_shapes() {
    assert_eq!(parse_i64(""), None);
    assert_eq!(parse_i64("-"), None);
    assert_eq!(parse_i64("+"), None);
    assert_eq!(parse_i64("1 2"), None);
    assert_eq!(parse_i64("2.5"), None);
    assert_eq!(parse_i64("abc"), None);
    assert_eq!(parse_i64("1a"), None);
    assert_eq!(parse_i64("--1"), None);
}

#[test]
fn parse_i64_range_limits() {
    assert_eq!(parse_i64("9223372036854775807"), Some(i64::MAX));
    assert_eq!(parse_i64("-9223372036854775808"), Some(i64::MIN));
    assert_eq!(parse_i64("9223372036854775808"), None);
    assert_eq!(parse_i64("-9223372036854775809"), None);
    assert_eq!(parse_i64("99999999999999999999999999"), None);
}

#[test]
fn parse_i32_range_limits() {
    assert_eq!(parse_i32("2147483647"), Some(i32::MAX));
    assert_eq!(parse_i32("-2147483648"), Some(i32::MIN));
    assert_eq!(parse_i32("2147483648"), None);
    assert_eq!(parse_i32("-2147483649"), None);
}

#[test]
fn decimal_rendering() {
    assert_eq!(u64_to_string(0), "0");
    assert_eq!(u64_to_string(7), "7");
    assert_eq!(u64_to_string(120), "120");
    assert_eq!(u64_to_string(u64::MAX), "18446744073709551615");
    assert_eq!(i64_to_string(-42), "-42");
    assert_eq!(i64_to_string(42), "42");
    assert_eq!(i64_to_string(i64::MIN), "-9223372036854775808");
}

#[test]
fn path_of_stored_module() {
    assert_eq!(wasm_path(1), ".wasm_store/1.wasm");
    assert_eq!(wasm_path(120), ".wasm_store/120.wasm");
}

#[test]
fn missing_read_fails_and_leaves_cache_unchanged() {
    let mut store = ModuleStore::init();
    let err = store.admit_read(5, Err(ReadFailure::Missing)).unwrap_err();
    assert!(matches!(err, UdfError::ModuleNotFound { id: 5 }));
    assert!(store.get_cached(5).is_none());
}

#[test]
fn other_read_failure_is_storage_error() {
    let mut store = ModuleStore::init();
    let err = store
        .admit_read(
            5,
            Err(ReadFailure::Other {
                detail: "device gone".to_string(),
            }),
        )
        .unwrap_err();
    assert!(matches!(err, UdfError::StorageIOError { .. }));
    assert!(store.get_cached(5).is_none());
}

#[test]
fn second_get_returns_equal_value_without_a_read() {
    let mut store = ModuleStore::init();
    let bytes = vec![0u8, 97, 115, 109];
    let w = store.admit_read(9, Ok(bytes.clone())).unwrap();
    assert_eq!(w.name().as_str(), "udf_main");
    assert_eq!(w.contents(), &bytes);
    let again = store.get_cached(9).expect("cached after admit");
    assert_eq!(again.name(), w.name());
    assert_eq!(again.contents(), w.contents());
    let third = store.get_cached(9).expect("still cached");
    assert_eq!(third.contents(), &bytes);
}

#[test]
fn admitting_one_id_leaves_others_alone() {
    let mut store = ModuleStore::init();
    store.admit_read(1, Ok(vec![1])).unwrap();
    store.admit_read(2, Ok(vec![2])).unwrap();
    assert_eq!(store.get_cached(1).unwrap().contents(), &vec![1u8]);
    assert_eq!(store.get_cached(2).unwrap().contents(), &vec![2u8]);
    assert!(store.get_cached(3).is_none());
}

#[test]
fn arity_check_is_exact() {
    assert!(check_arity(2, &vec!["a".to_string(), "b".to_string()]).is_ok());
    let err = check_arity(1, &vec!["a".to_string(), "b".to_string()]).unwrap_err();
    match err {
        UdfError::ArityMismatch {
            expected,
            received,
            args,
        } => {
            assert_eq!((expected, received), (1, 2));
            assert_eq!(args, vec!["a".to_string(), "b".to_string()]);
        }
        other => panic!("wrong error: {}", other.message()),
    }
}

#[test]
fn coercion_reports_first_failing_position() {
    let kinds = vec![ParamKind::I64, ParamKind::I32, ParamKind::I64];
    let args = vec!["1".to_string(), "x".to_string(), "y".to_string()];
    let err = coerce_args(&kinds, &args).unwrap_err();
    match err {
        UdfError::ArgumentConversionError { index, target_kind } => {
            assert_eq!(index, 1);
            assert_eq!(target_kind, ParamKind::I32);
        }
        other => panic!("wrong error: {}", other.message()),
    }
}

#[test]
fn coercion_rejects_unsupported_kind() {
    let kinds = vec![ParamKind::Unsupported];
    let args = vec!["1".to_string()];
    let err = coerce_args(&kinds, &args).unwrap_err();
    assert!(matches!(err, UdfError::UnsupportedType { index: 0 }));
}

#[test]
fn coercion_accepts_all_supported_kinds() {
    let kinds = vec![
        ParamKind::I32,
        ParamKind::I64,
        ParamKind::F32,
        ParamKind::F64,
    ];
    let args = vec![
        "1".to_string(),
        "-2".to_string(),
        "2.5".to_string(),
        "1e3".to_string(),
    ];
    let vals = coerce_args(&kinds, &args).unwrap();
    assert_eq!(
        vals,
        vec![
            ArgumentValue::I32(1),
            ArgumentValue::I64(-2),
            ArgumentValue::F32Bits(2.5f32.to_bits()),
            ArgumentValue::F64Bits(1e3f64.to_bits()),
        ]
    );
}

#[test]
fn conversion_error_message_names_kind() {
    let e = UdfError::ArgumentConversionError {
        index: 1,
        target_kind: ParamKind::I32,
    };
    assert_eq!(e.message(), "Can't convert argument 1 into a 32-bit integer");
}

#[test]
fn exit_signal_message_names_code() {
    let e = UdfError::ProcessExitSignal { code: 7 };
    assert_eq!(e.message(), "Module requested process exit with code 7");
}

#[test]
fn scalar_args_stringify_input() {
    let args = adapter::scalar_call_args(Some(-17)).unwrap();
    assert_eq!(args, vec!["-17".to_string()]);
    assert!(adapter::scalar_call_args(None).is_none());
}

#[test]
fn soften_missing_only_downgrades_absence() {
    let missing: Result<WASM, UdfError> = Err(UdfError::ModuleNotFound { id: 4 });
    assert!(matches!(adapter::soften_missing(missing), Ok(None)));
    let hard: Result<WASM, UdfError> = Err(UdfError::CompileError {
        detail: "bad".to_string(),
    });
    assert!(matches!(
        adapter::soften_missing(hard),
        Err(UdfError::CompileError { .. })
    ));
    let ok: Result<WASM, UdfError> = Ok(WASM::new("n".to_string(), vec![1]));
    match adapter::soften_missing(ok) {
        Ok(Some(w)) => assert_eq!(w.contents(), &vec![1u8]),
        _ => panic!("expected the module back"),
    }
}

#[test]
fn session_wire_format_is_exact() {
    let entries = vec![b"m".to_vec(), b"21".to_vec()];
    let s = udf::session::build_session(&entries).expect("fits the wire format");
    assert_eq!(s.buf, vec![109, 0, 50, 49, 0]);
    assert_eq!(s.offsets, vec![0, 2]);
    let empty: Vec<Vec<u8>> = vec![];
    let none = udf::session::build_session(&empty).expect("empty image fits");
    assert!(none.buf.is_empty());
    assert!(none.offsets.is_empty());
}

#[test]
fn classification_is_exact() {
    match udf::wasm::classify_failure(Some(7), "ignored".to_string()) {
        UdfError::ProcessExitSignal { code } => assert_eq!(code, 7),
        other => panic!("wrong error: {}", other.message()),
    }
    match udf::wasm::classify_failure(None, "boom".to_string()) {
        UdfError::ExecutionTrap { detail } => assert_eq!(detail, "boom"),
        other => panic!("wrong error: {}", other.message()),
    }
}

#[test]
fn projections_read_only_the_first_element() {
    let res = vec![ArgumentValue::F64Bits(2.5f64.to_bits())];
    assert_eq!(adapter::project_f64_bits(&res), Some(2.5f64.to_bits()));
    assert_eq!(adapter::project_i64(&res), None);
    let ints = vec![ArgumentValue::I64(9), ArgumentValue::I64(8)];
    assert_eq!(adapter::project_i64(&ints), Some(9));
    assert_eq!(adapter::project_f64_bits(&ints), None);
    let empty: Vec<ArgumentValue> = vec![];
    assert_eq!(adapter::project_i64(&empty), None);
    assert_eq!(adapter::project_f64_bits(&empty), None);
}
