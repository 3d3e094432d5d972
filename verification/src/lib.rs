pub mod adapter;
pub mod args;
pub mod error;
pub mod numtext;
pub mod runtime_api;
pub mod session;
pub mod store;
pub mod wasm;

pub use store::ModuleStore;
pub use wasm::WASM;
pub use error::UdfError;
