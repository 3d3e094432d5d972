//! The module store: a durable-backed, in-memory cache from a numeric
//! module identifier to loaded module bytes.
//!
//! The cache only grows; once bytes are admitted under an id they are
//! reused for the life of the process and never invalidated. The durable
//! read itself happens outside this crate; the store decides what one
//! read's outcome means and keeps the cache consistent.

use vstd::prelude::*;
use std::collections::HashMap;
use crate::error::UdfError;
use crate::numtext::dec_digits;
use crate::numtext::u64_to_string;
use crate::wasm::WASM;
use crate::wasm::WasmView;

verus! {

broadcast use vstd::std_specs::hash::group_hash_axioms;

/// Directory that holds one file per module, named by its numeric id.
pub fn store_dir() -> (r: &'static str)
    ensures
        r@ == ".wasm_store"@,
{
    ".wasm_store"
}

/// File path of the module stored under an id.
pub fn wasm_path(id: u64) -> (r: String)
    ensures
        r@ == ".wasm_store/"@ + dec_digits(id as nat) + ".wasm"@,
{
    let mut p = String::from_str(".wasm_store/");
    let d = u64_to_string(id);
    p.append(d.as_str());
    p.append(".wasm");
    p
}

/// How one durable read can fail: the bytes are absent, or anything else
/// went wrong while reading.
#[derive(Debug)]
pub enum ReadFailure {
    Missing,
    Other { detail: String },
}

/// Store of all loaded modules, keyed by id.
pub struct ModuleStore {
    cache: HashMap<u64, WASM>,
}

impl View for ModuleStore {
    type V = Map<u64, WASM>;

    closed spec fn view(&self) -> Map<u64, WASM> {
        self.cache@
    }
}

impl ModuleStore {
    /// An empty store. The backing directory on disk is its caller's
    /// concern.
    pub fn init() -> (s: ModuleStore)
        ensures
            s@ == Map::<u64, WASM>::empty(),
    {
        ModuleStore { cache: HashMap::new() }
    }

    /// The module cached under the id, if one was admitted earlier: an
    /// equal value, with no storage involved.
    pub fn get_cached(&self, id: u64) -> (r: Option<WASM>)
        ensures
            match r {
                Some(w) => self@.contains_key(id) && w@ == self@[id]@,
                None => !self@.contains_key(id),
            },
    {
        match self.cache.get(&id) {
            Some(w) => Some(w.clone()),
            None => None,
        }
    }

    /// Admits the outcome of one durable read for `id`: bytes are wrapped
    /// with the fixed default entry-point name, cached under the id, and
    /// returned; a failed read reports why — absent bytes as
    /// `ModuleNotFound`, anything else as `StorageIOError` — and leaves the
    /// cache exactly as it was.
    pub fn admit_read(&mut self, id: u64, outcome: Result<Vec<u8>, ReadFailure>) -> (r: Result<
        WASM,
        UdfError,
    >)
        ensures
            match r {
                Ok(w) => outcome is Ok && w@ == (WasmView {
                    name: "udf_main"@,
                    contents: outcome.unwrap()@,
                }) && final(self)@.dom() == old(self)@.dom().insert(id) && final(self)@[id]@ == w@
                    && (forall|k: u64|
                    k != id && old(self)@.contains_key(k) ==> final(self)@[k] == old(self)@[k]),
                Err(UdfError::ModuleNotFound { id: missing }) => missing == id && (outcome
                    matches Err(ReadFailure::Missing)) && final(self)@ == old(self)@,
                Err(UdfError::StorageIOError { .. }) => (outcome matches Err(
                    ReadFailure::Other { .. },
                )) && final(self)@ == old(self)@,
                _ => false,
            },
    {
        match outcome {
            Ok(bytes) => {
                let w = WASM::new(String::from_str("udf_main"), bytes);
                let copy = w.clone();
                self.cache.insert(id, w);
                Ok(copy)
            },
            Err(ReadFailure::Missing) => Err(UdfError::ModuleNotFound { id }),
            Err(ReadFailure::Other { detail }) => Err(UdfError::StorageIOError { detail }),
        }
    }
}

/// A module admitted under an id is exactly what every later lookup of
/// that id sees, however many other ids are admitted in between, as long
/// as none of them reuses the id.
pub proof fn lemma_admitted_module_persists(m0: Map<u64, WASM>, w: WASM, id: u64, other: u64, v: WASM)
    requires
        other != id,
    ensures
        m0.insert(id, w)[id] == w,
        m0.insert(id, w).insert(other, v)[id] == w,
{
}

} // verus!
