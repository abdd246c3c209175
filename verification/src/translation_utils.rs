//! Index types, WebAssembly types and their conversion to the types of the
//! intermediate representation.
use vstd::prelude::*;
use crate::ir::{ValueType, FuncRef, SigRef};
use crate::module_translator::ImportMappings;
use crate::runtime::runtime::{Global, Memory, Table};
use crate::state::FunctionImports;

verus! {

/// Index of a function in the module's function index space.
pub type FunctionIndex = usize;

/// Index of a table in the module.
pub type TableIndex = usize;

/// Index of a global in the module.
pub type GlobalIndex = usize;

/// Index of a linear memory in the module.
pub type MemoryIndex = usize;

/// Index of a signature in the module's type section.
pub type SignatureIndex = usize;

/// A byte of a linear memory or of the globals area.
pub type RawByte = u8;

/// An address inside a table.
pub type Address = u32;

/// A type as a WebAssembly module writes it.
#[derive(Clone, Copy, Debug, PartialEq, Eq, Structural)]
pub enum WasmType {
    I32,
    I64,
    F32,
    F64,
    AnyFunc,
    Func,
    EmptyBlockType,
}

/// A single precision constant of a WebAssembly module, as its bit pattern.
#[derive(Clone, Copy, Debug, PartialEq, Eq, Structural)]
pub struct Ieee32(pub u32);

impl Ieee32 {
    pub open spec fn spec_bits(&self) -> u32 {
        self.0
    }

    /// The bit pattern.
    #[verifier::when_used_as_spec(spec_bits)]
    pub fn bits(&self) -> (bits: u32)
        ensures
            bits == self.0,
    {
        self.0
    }
}

/// A double precision constant of a WebAssembly module, as its bit pattern.
#[derive(Clone, Copy, Debug, PartialEq, Eq, Structural)]
pub struct Ieee64(pub u64);

impl Ieee64 {
    pub open spec fn spec_bits(&self) -> u64 {
        self.0
    }

    /// The bit pattern.
    #[verifier::when_used_as_spec(spec_bits)]
    pub fn bits(&self) -> (bits: u64)
        ensures
            bits == self.0,
    {
        self.0
    }
}

/// The value type that a WebAssembly type stands for, where it is one.
pub open spec fn value_type(ty: WasmType) -> Option<ValueType> {
    match ty {
        WasmType::I32 => Some(ValueType::I32),
        WasmType::I64 => Some(ValueType::I64),
        WasmType::F32 => Some(ValueType::F32),
        WasmType::F64 => Some(ValueType::F64),
        _ => None,
    }
}

/// Converts a WebAssembly type to a value type. Fails on the types that are
/// no value types: function types and the empty block type.
pub fn type_to_type(ty: &WasmType) -> (res: Result<ValueType, ()>)
    ensures
        match value_type(*ty) {
            Some(t) => res == Ok::<ValueType, ()>(t),
            None => res is Err,
        },
{
    match *ty {
        WasmType::I32 => Ok(ValueType::I32),
        WasmType::I64 => Ok(ValueType::I64),
        WasmType::F32 => Ok(ValueType::F32),
        WasmType::F64 => Ok(ValueType::F64),
        _ => Err(()),
    }
}

pub open spec fn spec_f32_translation(x: Ieee32) -> crate::ir::Ieee32 {
    crate::ir::Ieee32(x.0)
}

/// The same single precision constant as an immediate of the intermediate
/// representation: the bit pattern is kept.
#[verifier::when_used_as_spec(spec_f32_translation)]
pub fn f32_translation(x: Ieee32) -> (y: crate::ir::Ieee32)
    ensures
        y == spec_f32_translation(x),
{
    crate::ir::Ieee32(x.bits())
}

pub open spec fn spec_f64_translation(x: Ieee64) -> crate::ir::Ieee64 {
    crate::ir::Ieee64(x.0)
}

/// The same double precision constant as an immediate of the intermediate
/// representation: the bit pattern is kept.
#[verifier::when_used_as_spec(spec_f64_translation)]
pub fn f64_translation(x: Ieee64) -> (y: crate::ir::Ieee64)
    ensures
        y == spec_f64_translation(x),
{
    crate::ir::Ieee64(x.bits())
}

/// Whether a type can stand at the head of a block: a value type or the
/// empty block type.
pub open spec fn is_block_type(ty: WasmType) -> bool {
    ty != WasmType::AnyFunc && ty != WasmType::Func
}

/// The results of a block of type `ty`.
pub open spec fn block_results(ty: WasmType) -> Seq<ValueType> {
    match value_type(ty) {
        Some(t) => seq![t],
        None => seq![],
    }
}

/// The result types of a block of type `ty`: none for the empty block type,
/// one for a value type. Fails on a function type.
pub fn return_values_types(ty: WasmType) -> (res: Result<Vec<ValueType>, ()>)
    ensures
        res is Ok <==> is_block_type(ty),
        res matches Ok(types) ==> types@ == block_results(ty),
{
    let types: Vec<ValueType> = match ty {
        WasmType::EmptyBlockType => Vec::new(),
        WasmType::I32 => vec![ValueType::I32],
        WasmType::F32 => vec![ValueType::F32],
        WasmType::I64 => vec![ValueType::I64],
        WasmType::F64 => vec![ValueType::F64],
        _ => {
            return Err(());
        },
    };
    assert(types@ =~= block_results(ty));
    Ok(types)
}

/// Why a function body could not be translated.
#[derive(Clone, Copy, Debug, PartialEq, Eq, Structural)]
pub enum ErrorKind {
    /// The operators do not form a function body that the translation
    /// takes: an operator came that the state it met does not take, or the
    /// body was not closed where the operators ended.
    MalformedStream,
    /// The consumer of the translated function found it ill-formed.
    VerifierRejection,
    /// A local was declared with a type that is no value type.
    UnsupportedLocalType,
}

/// A failed translation: what went wrong, at which operator if at one, and
/// a message for the user.
#[derive(Clone, Debug, PartialEq, Eq)]
pub struct TranslationError {
    pub kind: ErrorKind,
    /// The number of the operator at which the translation failed, counted
    /// from 0.
    pub location: Option<usize>,
    pub message: String,
}

impl ErrorKind {
    /// The message that goes with an error of this kind.
    pub open spec fn spec_message(self) -> Seq<char> {
        match self {
            ErrorKind::MalformedStream => "wrong content in function body"@,
            ErrorKind::VerifierRejection => "the translated function is ill-formed"@,
            ErrorKind::UnsupportedLocalType => "unsupported type for local variable"@,
        }
    }

    /// The message that goes with an error of this kind.
    pub fn message(self) -> (message: String)
        ensures
            message@ == self.spec_message(),
    {
        match self {
            ErrorKind::MalformedStream => "wrong content in function body".to_owned(),
            ErrorKind::VerifierRejection => "the translated function is ill-formed".to_owned(),
            ErrorKind::UnsupportedLocalType => "unsupported type for local variable".to_owned(),
        }
    }
}

impl TranslationError {
    /// The error of a kind, at an operator or at none.
    pub open spec fn spec_new(kind: ErrorKind, location: Option<usize>, error: TranslationError)
        -> bool {
        error.kind == kind && error.location == location && error.message@ == kind.spec_message()
    }

    /// The error of a kind, at an operator or at none.
    pub fn new(kind: ErrorKind, location: Option<usize>) -> (error: TranslationError)
        ensures
            TranslationError::spec_new(kind, location, error),
    {
        TranslationError { kind, location, message: kind.message() }
    }
}

/// Something that a module imports.
#[derive(Clone, Copy, Debug, PartialEq, Eq, Structural)]
pub enum Import {
    Function { sig_index: u32 },
    Memory(Memory),
    Global(Global),
    Table(Table),
}

/// The handle numbers of the imported functions are the keys of the
/// inverted map, and each leads back to an index that was imported under it.
pub open spec fn inverts_functions(
    imports: Map<FunctionIndex, FuncRef>,
    inverse: Map<usize, FunctionIndex>,
) -> bool {
    &&& forall|index: FunctionIndex| #[trigger]
        imports.contains_key(index) ==> inverse.contains_key(imports[index].0)
    &&& forall|number: usize| #[trigger]
        inverse.contains_key(number) ==> imports.contains_key(inverse[number])
            && imports[inverse[number]].0 == number
}

/// The handle numbers of the imported signatures are the keys of the
/// inverted map, and each leads back to an index that was imported under it.
pub open spec fn inverts_signatures(
    imports: Map<SignatureIndex, SigRef>,
    inverse: Map<usize, SignatureIndex>,
) -> bool {
    &&& forall|index: SignatureIndex| #[trigger]
        imports.contains_key(index) ==> inverse.contains_key(imports[index].0)
    &&& forall|number: usize| #[trigger]
        inverse.contains_key(number) ==> imports.contains_key(inverse[number])
            && imports[inverse[number]].0 == number
}

broadcast use vstd::std_specs::hash::group_hash_axioms;

/// Turns the imports of a function round: from the handles to the indices
/// in the module.
pub fn invert_hashmaps(imports: FunctionImports) -> (mappings: ImportMappings)
    ensures
        inverts_functions(imports.functions@, mappings.functions@),
        inverts_signatures(imports.signatures@, mappings.signatures@),
{
    let mut new_imports = ImportMappings::new();
    for pair in iter: imports.functions.iter()
        invariant
            new_imports.signatures@ == Map::<usize, SignatureIndex>::empty(),
            forall|i: int|
                0 <= i < iter.index() ==> new_imports.functions@.contains_key(
                    (#[trigger] iter.seq()[i]).1.0,
                ),
            forall|number: usize| #[trigger]
                new_imports.functions@.contains_key(number) ==> imports.functions@.contains_key(
                    new_imports.functions@[number],
                ) && imports.functions@[new_imports.functions@[number]].0 == number,
    {
        let (func_index, func_ref) = pair;
        new_imports.functions.insert(func_ref.0, *func_index);
    }
    for pair in iter: imports.signatures.iter()
        invariant
            inverts_functions(imports.functions@, new_imports.functions@),
            forall|i: int|
                0 <= i < iter.index() ==> new_imports.signatures@.contains_key(
                    (#[trigger] iter.seq()[i]).1.0,
                ),
            forall|number: usize| #[trigger]
                new_imports.signatures@.contains_key(number) ==> imports.signatures@.contains_key(
                    new_imports.signatures@[number],
                ) && imports.signatures@[new_imports.signatures@[number]].0 == number,
    {
        let (sig_index, sig_ref) = pair;
        new_imports.signatures.insert(sig_ref.0, *sig_index);
    }
    new_imports
}

} // verus!
