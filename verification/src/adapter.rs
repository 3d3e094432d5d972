//! Bridging a row-oriented scalar evaluation to the engine's call shape:
//! the decisions of the adapter, kept apart from the evaluator that hosts
//! them.
//!
//! A null input short-circuits to a null result without a call; a module
//! absent from the store is a soft failure that also evaluates to null;
//! the first element of the result vector is projected into the expected
//! scalar kind, and any other shape of result is null as well.

use vstd::prelude::*;
use crate::args::ArgumentValue;
use crate::error::UdfError;
use crate::numtext::dec_int;
use crate::numtext::i64_to_string;
use crate::wasm::WASM;

verus! {

/// The argument vector for the scalar call: the single input value,
/// stringified — or nothing at all when the input is null.
pub fn scalar_call_args(input: Option<i64>) -> (r: Option<Vec<String>>)
    ensures
        match r {
            Some(v) => input is Some && v@.len() == 1 && v@[0]@ == dec_int(input.unwrap() as int),
            None => input is None,
        },
{
    match input {
        Some(v) => {
            let mut args: Vec<String> = Vec::new();
            args.push(i64_to_string(v));
            Some(args)
        },
        None => None,
    }
}

/// Downgrades a missing module to a null result: evaluation goes on
/// without the module, while every other failure stays a failure.
pub fn soften_missing(fetched: Result<WASM, UdfError>) -> (r: Result<Option<WASM>, UdfError>)
    ensures
        match r {
            Ok(Some(w)) => fetched matches Ok(f) && f == w,
            Ok(None) => fetched matches Err(UdfError::ModuleNotFound { .. }),
            Err(e) => fetched matches Err(f) && f == e && !(e is ModuleNotFound),
        },
{
    match fetched {
        Ok(w) => Ok(Some(w)),
        Err(UdfError::ModuleNotFound { .. }) => Ok(None),
        Err(e) => Err(e),
    }
}

/// The first element of the result vector as a 64-bit float, by bit
/// pattern; any other kind there, or an empty result vector, is nothing.
pub fn project_f64_bits(results: &Vec<ArgumentValue>) -> (r: Option<u64>)
    ensures
        r == (if results@.len() > 0 {
            match results@[0] {
                ArgumentValue::F64Bits(b) => Some(b),
                _ => None::<u64>,
            }
        } else {
            None::<u64>
        }),
{
    if results.len() == 0 {
        return None;
    }
    match results[0] {
        ArgumentValue::F64Bits(b) => Some(b),
        _ => None,
    }
}

/// The first element of the result vector as a 64-bit integer; any other
/// kind there, or an empty result vector, is nothing.
pub fn project_i64(results: &Vec<ArgumentValue>) -> (r: Option<i64>)
    ensures
        r == (if results@.len() > 0 {
            match results@[0] {
                ArgumentValue::I64(v) => Some(v),
                _ => None::<i64>,
            }
        } else {
            None::<i64>
        }),
{
    if results.len() == 0 {
        return None;
    }
    match results[0] {
        ArgumentValue::I64(v) => Some(v),
        _ => None,
    }
}

} // verus!
