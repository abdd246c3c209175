//! Translation of WebAssembly modules into an SSA intermediate
//! representation made of extended basic blocks.
//!
//! The heart of the crate is the translation of one function body
//! ([`code_translator`]): it walks the operators of the body, keeps the
//! operand stack and the stack of open constructs ([`state`]), and drives a
//! [`FunctionBuilder`] ([`builder`]), which records every construction step
//! in order. The recorded steps are the translated function: an embedder
//! carries them out against its code generator. What each operator does is
//! defined in [`semantics`], and what holds of every translation is proved
//! in [`laws`].
//!
//! Around it, [`module_translator`] reads the sections of a module
//! ([`sections_translator`]) from the records that the `wasmparser` crate
//! yields ([`parser_state`]), and a [`WasmRuntime`] says how globals, tables
//! and memories are reached from translated code ([`runtime`]).
pub mod ir;
pub mod builder;
pub mod translation_utils;
pub mod operator;
pub mod runtime;
pub mod state;
pub mod semantics;
pub mod code_translator;
pub mod laws;
pub mod module_translator;
pub mod sections_translator;
pub mod sections_parser;
pub mod wasm_reader;
pub mod parser_state;
pub mod operator_reader;

pub use crate::ir::{Ebb, Value, Inst, FuncRef, SigRef, JumpTable, Local, ValueType, IntCC, FloatCC,
                    Opcode, Cond, Imm, Target, InstHeader, Signature, Command, Function};
pub use crate::builder::FunctionBuilder;
pub use crate::translation_utils::{FunctionIndex, TableIndex, GlobalIndex, MemoryIndex,
                                   SignatureIndex, RawByte, Address, WasmType, Import, ErrorKind,
                                   TranslationError, type_to_type, return_values_types,
                                   f32_translation, f64_translation, invert_hashmaps};
pub use crate::operator::{WasmOperator, MemoryImmediate, BrTable, Lowering, lower};
pub use crate::runtime::{Global, GlobalInit, Table, TableElementType, Memory, WasmRuntime,
                         DummyRuntime, StandaloneRuntime};
pub use crate::state::{ControlStackFrame, TranslationState, FunctionImports};
pub use crate::code_translator::{FuncTranslator, ModuleContext, translate_function_body};
pub use crate::module_translator::{TranslationResult, FunctionTranslation, ImportMappings,
                                   ModuleError, StartError, Preamble, translate_module,
                                   translate_states, prepare_module, translate_code,
                                   start_function};
pub use crate::parser_state::{Record, read_module};
pub use crate::sections_translator::SectionParsingError;
pub use crate::wasm_reader::{get_name, try_get_name};
