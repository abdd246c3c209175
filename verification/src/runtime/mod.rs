//! The runtime adapter: what the translation asks of the embedding.
pub mod runtime;
pub mod dummy;
pub mod standalone;

pub use crate::runtime::runtime::{Global, GlobalInit, Table, TableElementType, Memory, WasmRuntime,
                                  emits_code};
pub use crate::runtime::dummy::DummyRuntime;
pub use crate::runtime::standalone::StandaloneRuntime;
