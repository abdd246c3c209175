//! The sections of a module that come before its code. Each function here
//! reads the entries of one section from the records of the module, from
//! the record after the section's beginning up to the section's end.
use vstd::prelude::*;
use vstd::utf8::{valid_utf8, decode_utf8};
use std::collections::HashMap;
use crate::ir::{ValueType, Signature, SignatureModel};
use crate::operator::WasmOperator;
use crate::parser_state::{Record, TableType, MemoryType, ExternalKind,
                          ImportSectionEntryType};
use crate::runtime::runtime::{Global, GlobalInit, Table, TableElementType, Memory};
use crate::translation_utils::{FunctionIndex, SignatureIndex, TableIndex, WasmType, Import,
                               value_type, type_to_type};
use crate::wasm_reader::try_get_name;

verus! {

broadcast use vstd::std_specs::hash::group_hash_axioms;

/// Why a section could not be read.
#[derive(Clone, Copy, Debug, PartialEq, Eq, Structural)]
pub enum SectionParsingError {
    /// The section holds something that does not belong to it.
    WrongSectionContent(),
}

/// The contents of a list of signatures.
pub open spec fn signatures_view(signatures: Seq<Signature>) -> Seq<SignatureModel> {
    signatures.map_values(|s: Signature| s@)
}

/// The value types that a list of types stands for, if all are value types.
pub open spec fn value_types(types: Seq<WasmType>) -> Option<Seq<ValueType>>
    decreases types.len(),
{
    if types.len() == 0 {
        Some(seq![])
    } else {
        match (value_types(types.drop_last()), value_type(types.last())) {
            (Some(rest), Some(ty)) => Some(rest.push(ty)),
            _ => None,
        }
    }
}

/// The value types that a list of types stands for.
fn convert_types(types: &Vec<WasmType>) -> (converted: Option<Vec<ValueType>>)
    ensures
        match converted {
            Some(list) => value_types(types@) == Some(list@),
            None => value_types(types@) is None,
        },
{
    let mut list: Vec<ValueType> = Vec::new();
    let mut i: usize = 0;
    assert(types@.subrange(0, 0) =~= Seq::<WasmType>::empty());
    while i < types.len()
        invariant
            i <= types.len(),
            value_types(types@.subrange(0, i as int)) == Some(list@),
        decreases types.len() - i,
    {
        assert(types@.subrange(0, i + 1).drop_last() =~= types@.subrange(0, i as int));
        match type_to_type(&types[i]) {
            Ok(ty) => {
                list.push(ty);
            },
            Err(_) => {
                proof {
                    lemma_value_types_prefix(types@, i + 1);
                }
                return None;
            },
        }
        i += 1;
    }
    assert(types@.subrange(0, types.len() as int) =~= types@);
    Some(list)
}

/// A list whose beginning holds a type that is no value type holds one.
proof fn lemma_value_types_prefix(types: Seq<WasmType>, n: int)
    requires
        0 <= n <= types.len(),
        value_types(types.subrange(0, n)) is None,
    ensures
        value_types(types) is None,
    decreases types.len() - n,
{
    if n < types.len() {
        assert(types.subrange(0, n + 1).drop_last() =~= types.subrange(0, n));
        lemma_value_types_prefix(types, n + 1);
    } else {
        assert(types.subrange(0, n) =~= types);
    }
}

/// The signature that an entry of the type section declares: that of a
/// function type whose parameters and results are value types.
pub open spec fn signature_of(state: Record) -> Option<SignatureModel> {
    match state {
        Record::TypeSectionEntry(ty) => match (
            ty.form,
            value_types(ty.params@),
            value_types(ty.results@),
        ) {
            (WasmType::Func, Some(argument_types), Some(return_types)) => Some(
                SignatureModel { argument_types, return_types },
            ),
            _ => None,
        },
        _ => None,
    }
}

/// The signatures of the type section whose entries begin at `pos`, and the
/// position after the section's end.
pub open spec fn signatures_from(states: Seq<Record>, pos: int) -> Option<
    (Seq<SignatureModel>, int),
>
    decreases states.len() - pos,
{
    if pos < 0 || pos >= states.len() {
        None
    } else if states[pos] is EndSection {
        Some((seq![], pos + 1))
    } else {
        match (signature_of(states[pos]), signatures_from(states, pos + 1)) {
            (Some(item), Some((rest, end))) => Some((seq![item] + rest, end)),
            _ => None,
        }
    }
}

/// What is read of a section: the items read before with the rest behind.
pub open spec fn behind<T>(read: Seq<T>, rest: Option<(Seq<T>, int)>) -> Option<(Seq<T>, int)> {
    match rest {
        Some((items, end)) => Some((read + items, end)),
        None => None,
    }
}

/// Whether a record ends a section.
fn ends_section(state: &Record) -> (b: bool)
    ensures
        b == (*state is EndSection),
{
    match state {
        Record::EndSection => true,
        _ => false,
    }
}

/// Reads the entries of the type section, which begin at `pos`, and returns
/// the function signatures with the position after the section's end.
pub fn parse_function_signatures(states: &Vec<Record>, pos: usize) -> (res: Result<
    (Vec<Signature>, usize),
    SectionParsingError,
>)
    ensures
        res matches Ok((_, end)) ==> pos < end <= states@.len(),
        match res {
            Ok((signatures, end)) => signatures_from(states@, pos as int) == Some(
                (signatures_view(signatures@), end as int),
            ),
            Err(_) => signatures_from(states@, pos as int) is None,
        },
{
    let mut signatures: Vec<Signature> = Vec::new();
    let mut at: usize = pos;
    assert(signatures_view(signatures@) =~= seq![]);
    assert(Seq::<SignatureModel>::empty() + seq![] =~= seq![]);
    loop
        invariant
            pos <= at,
            signatures_from(states@, pos as int) == behind(
                signatures_view(signatures@),
                signatures_from(states@, at as int),
            ),
        decreases states.len() - at,
    {
        if at >= states.len() {
            return Err(SectionParsingError::WrongSectionContent());
        }
        let ghost read = signatures_view(signatures@);
        match &states[at] {
            Record::EndSection => {
                assert(read + seq![] =~= read);
                return Ok((signatures, at + 1));
            },
            Record::TypeSectionEntry(ty) => {
                let params = match convert_types(&ty.params) {
                    Some(list) => list,
                    None => {
                        return Err(SectionParsingError::WrongSectionContent());
                    },
                };
                let results = match convert_types(&ty.results) {
                    Some(list) => list,
                    None => {
                        return Err(SectionParsingError::WrongSectionContent());
                    },
                };
                match ty.form {
                    WasmType::Func => {},
                    _ => {
                        return Err(SectionParsingError::WrongSectionContent());
                    },
                }
                let sig = Signature { argument_types: params, return_types: results };
                let ghost item = sig@;
                signatures.push(sig);
                proof {
                    assert(signatures_view(signatures@) =~= read.push(item));
                    match signatures_from(states@, at + 1) {
                        Some((rest, end)) => {
                            assert(read.push(item) + rest =~= read + (seq![item] + rest));
                        },
                        None => {},
                    }
                }
            },
            _ => {
                return Err(SectionParsingError::WrongSectionContent());
            },
        }
        at += 1;
    }
}

/// The table that a table type declares.
pub open spec fn table_of(ty: TableType) -> Table {
    Table {
        ty: match value_type(ty.element_type) {
            Some(t) => TableElementType::Val(t),
            None => TableElementType::Func(),
        },
        size: ty.limits.initial as usize,
        maximum: match ty.limits.maximum {
            Some(max) => Some(max as usize),
            None => None,
        },
    }
}

/// The memory that a memory type declares.
pub open spec fn memory_of(ty: MemoryType) -> Memory {
    Memory {
        pages_count: ty.limits.initial as usize,
        maximum: match ty.limits.maximum {
            Some(max) => Some(max as usize),
            None => None,
        },
    }
}

/// The table that a table type declares.
fn convert_table(ty: &TableType) -> (table: Table)
    ensures
        table == table_of(*ty),
{
    Table {
        ty: match type_to_type(&ty.element_type) {
            Ok(t) => TableElementType::Val(t),
            Err(_) => TableElementType::Func(),
        },
        size: ty.limits.initial as usize,
        maximum: match ty.limits.maximum {
            Some(max) => Some(max as usize),
            None => None,
        },
    }
}

/// The memory that a memory type declares.
fn convert_memory(ty: &MemoryType) -> (memory: Memory)
    ensures
        memory == memory_of(*ty),
{
    Memory {
        pages_count: ty.limits.initial as usize,
        maximum: match ty.limits.maximum {
            Some(max) => Some(max as usize),
            None => None,
        },
    }
}

/// What an entry of the import section adds to the list of imports: the
/// function, memory or global that it imports, and nothing where it
/// imports a table. The global of an entry has a value type.
pub open spec fn imports_of(state: Record) -> Option<Seq<Import>> {
    match state {
        Record::ImportSectionEntry { ty } => match ty {
            ImportSectionEntryType::Function(sig_index) => Some(
                seq![Import::Function { sig_index }],
            ),
            ImportSectionEntryType::Table(_) => Some(seq![]),
            ImportSectionEntryType::Memory(memory) => Some(seq![Import::Memory(memory_of(memory))]),
            ImportSectionEntryType::Global(global) => match value_type(global.content_type) {
                Some(ty) => Some(
                    seq![
                        Import::Global(
                            Global {
                                ty,
                                mutability: global.mutable,
                                initializer: GlobalInit::Import(),
                            },
                        ),
                    ],
                ),
                None => None,
            },
        },
        _ => None,
    }
}

/// The imports of the import section whose entries begin at `pos`, in the
/// order of the entries, and the position after the section's end.
pub open spec fn imports_from(states: Seq<Record>, pos: int) -> Option<(Seq<Import>, int)>
    decreases states.len() - pos,
{
    if pos < 0 || pos >= states.len() {
        None
    } else if states[pos] is EndSection {
        Some((seq![], pos + 1))
    } else {
        match (imports_of(states[pos]), imports_from(states, pos + 1)) {
            (Some(items), Some((rest, end))) => Some((items + rest, end)),
            _ => None,
        }
    }
}

/// Retrieves the imports from the import section, whose entries begin at
/// `pos`.
pub fn parse_import_section(states: &Vec<Record>, pos: usize) -> (res: Result<
    (Vec<Import>, usize),
    SectionParsingError,
>)
    ensures
        res matches Ok((_, end)) ==> pos < end <= states@.len(),
        match res {
            Ok((imports, end)) => imports_from(states@, pos as int) == Some(
                (imports@, end as int),
            ),
            Err(_) => imports_from(states@, pos as int) is None,
        },
{
    let mut imports: Vec<Import> = Vec::new();
    let mut at: usize = pos;
    assert(imports@ + Seq::<Import>::empty() =~= imports@);
    loop
        invariant
            pos <= at,
            imports_from(states@, pos as int) == behind(imports@, imports_from(states@, at as int)),
        decreases states.len() - at,
    {
        if at >= states.len() {
            return Err(SectionParsingError::WrongSectionContent());
        }
        let ghost read = imports@;
        let item = match &states[at] {
            Record::EndSection => {
                assert(read + seq![] =~= read);
                return Ok((imports, at + 1));
            },
            Record::ImportSectionEntry { ty } => match ty {
                ImportSectionEntryType::Function(sig_index) => Some(
                    Import::Function { sig_index: *sig_index },
                ),
                ImportSectionEntryType::Table(_) => None,
                ImportSectionEntryType::Memory(memory) => Some(
                    Import::Memory(convert_memory(memory)),
                ),
                ImportSectionEntryType::Global(global) => match type_to_type(&global.content_type) {
                    Ok(ty) => Some(
                        Import::Global(
                            Global {
                                ty,
                                mutability: global.mutable,
                                initializer: GlobalInit::Import(),
                            },
                        ),
                    ),
                    Err(_) => {
                        return Err(SectionParsingError::WrongSectionContent());
                    },
                },
            },
            _ => {
                return Err(SectionParsingError::WrongSectionContent());
            },
        };
        match item {
            Some(import) => {
                imports.push(import);
                proof {
                    match imports_from(states@, at + 1) {
                        Some((rest, end)) => {
                            assert(read.push(import) + rest =~= read + (seq![import] + rest));
                        },
                        None => {},
                    }
                }
            },
            None => {
                proof {
                    match imports_from(states@, at + 1) {
                        Some((rest, end)) => {
                            assert(read + rest =~= read + (Seq::<Import>::empty() + rest));
                        },
                        None => {},
                    }
                }
            },
        }
        at += 1;
    }
}

/// The signature index that an entry of the function section holds.
pub open spec fn function_of(state: Record) -> Option<SignatureIndex> {
    match state {
        Record::FunctionSectionEntry(sig_index) => Some(sig_index as usize),
        _ => None,
    }
}

/// The signature indices of the function section whose entries begin at
/// `pos`, and the position after the section's end.
pub open spec fn functions_from(states: Seq<Record>, pos: int) -> Option<
    (Seq<SignatureIndex>, int),
>
    decreases states.len() - pos,
{
    if pos < 0 || pos >= states.len() {
        None
    } else if states[pos] is EndSection {
        Some((seq![], pos + 1))
    } else {
        match (function_of(states[pos]), functions_from(states, pos + 1)) {
            (Some(item), Some((rest, end))) => Some((seq![item] + rest, end)),
            _ => None,
        }
    }
}

/// Retrieves the correspondences between functions and signatures from the
/// function section, whose entries begin at `pos`.
pub fn parse_function_section(states: &Vec<Record>, pos: usize) -> (res: Result<
    (Vec<SignatureIndex>, usize),
    SectionParsingError,
>)
    ensures
        res matches Ok((_, end)) ==> pos < end <= states@.len(),
        match res {
            Ok((funcs, end)) => functions_from(states@, pos as int) == Some((funcs@, end as int)),
            Err(_) => functions_from(states@, pos as int) is None,
        },
{
    let mut funcs: Vec<SignatureIndex> = Vec::new();
    let mut at: usize = pos;
    assert(funcs@ + Seq::<SignatureIndex>::empty() =~= funcs@);
    loop
        invariant
            pos <= at,
            functions_from(states@, pos as int) == behind(
                funcs@,
                functions_from(states@, at as int),
            ),
        decreases states.len() - at,
    {
        if at >= states.len() {
            return Err(SectionParsingError::WrongSectionContent());
        }
        let ghost read = funcs@;
        let item: usize = match &states[at] {
            Record::EndSection => {
                assert(read + seq![] =~= read);
                return Ok((funcs, at + 1));
            },
            Record::FunctionSectionEntry(sig_index) => *sig_index as usize,
            _ => {
                return Err(SectionParsingError::WrongSectionContent());
            },
        };
        funcs.push(item);
        proof {
            match functions_from(states@, at + 1) {
                Some((rest, end)) => {
                    assert(read.push(item) + rest =~= read + (seq![item] + rest));
                },
                None => {},
            }
        }
        at += 1;
    }
}

/// The memory that an entry of the memory section declares.
pub open spec fn memory_entry_of(state: Record) -> Option<Memory> {
    match state {
        Record::MemorySectionEntry(ty) => Some(memory_of(ty)),
        _ => None,
    }
}

/// The memories of the memory section whose entries begin at `pos`, and the
/// position after the section's end.
pub open spec fn memories_from(states: Seq<Record>, pos: int) -> Option<(Seq<Memory>, int)>
    decreases states.len() - pos,
{
    if pos < 0 || pos >= states.len() {
        None
    } else if states[pos] is EndSection {
        Some((seq![], pos + 1))
    } else {
        match (memory_entry_of(states[pos]), memories_from(states, pos + 1)) {
            (Some(item), Some((rest, end))) => Some((seq![item] + rest, end)),
            _ => None,
        }
    }
}

/// Retrieves the size and maximum fields of memories from the memory
/// section, whose entries begin at `pos`.
pub fn parse_memory_section(states: &Vec<Record>, pos: usize) -> (res: Result<
    (Vec<Memory>, usize),
    SectionParsingError,
>)
    ensures
        res matches Ok((_, end)) ==> pos < end <= states@.len(),
        match res {
            Ok((memories, end)) => memories_from(states@, pos as int) == Some(
                (memories@, end as int),
            ),
            Err(_) => memories_from(states@, pos as int) is None,
        },
{
    let mut memories: Vec<Memory> = Vec::new();
    let mut at: usize = pos;
    assert(memories@ + Seq::<Memory>::empty() =~= memories@);
    loop
        invariant
            pos <= at,
            memories_from(states@, pos as int) == behind(
                memories@,
                memories_from(states@, at as int),
            ),
        decreases states.len() - at,
    {
        if at >= states.len() {
            return Err(SectionParsingError::WrongSectionContent());
        }
        let ghost read = memories@;
        let item = match &states[at] {
            Record::EndSection => {
                assert(read + seq![] =~= read);
                return Ok((memories, at + 1));
            },
            Record::MemorySectionEntry(ty) => convert_memory(ty),
            _ => {
                return Err(SectionParsingError::WrongSectionContent());
            },
        };
        memories.push(item);
        proof {
            match memories_from(states@, at + 1) {
                Some((rest, end)) => {
                    assert(read.push(item) + rest =~= read + (seq![item] + rest));
                },
                None => {},
            }
        }
        at += 1;
    }
}

/// The table that an entry of the table section declares.
pub open spec fn table_entry_of(state: Record) -> Option<Table> {
    match state {
        Record::TableSectionEntry(ty) => Some(table_of(ty)),
        _ => None,
    }
}

/// The tables of the table section whose entries begin at `pos`, and the
/// position after the section's end.
pub open spec fn tables_from(states: Seq<Record>, pos: int) -> Option<(Seq<Table>, int)>
    decreases states.len() - pos,
{
    if pos < 0 || pos >= states.len() {
        None
    } else if states[pos] is EndSection {
        Some((seq![], pos + 1))
    } else {
        match (table_entry_of(states[pos]), tables_from(states, pos + 1)) {
            (Some(item), Some((rest, end))) => Some((seq![item] + rest, end)),
            _ => None,
        }
    }
}

/// Retrieves the tables from the table section, whose entries begin at
/// `pos`.
pub fn parse_table_section(states: &Vec<Record>, pos: usize) -> (res: Result<
    (Vec<Table>, usize),
    SectionParsingError,
>)
    ensures
        res matches Ok((_, end)) ==> pos < end <= states@.len(),
        match res {
            Ok((tables, end)) => tables_from(states@, pos as int) == Some((tables@, end as int)),
            Err(_) => tables_from(states@, pos as int) is None,
        },
{
    let mut tables: Vec<Table> = Vec::new();
    let mut at: usize = pos;
    assert(tables@ + Seq::<Table>::empty() =~= tables@);
    loop
        invariant
            pos <= at,
            tables_from(states@, pos as int) == behind(tables@, tables_from(states@, at as int)),
        decreases states.len() - at,
    {
        if at >= states.len() {
            return Err(SectionParsingError::WrongSectionContent());
        }
        let ghost read = tables@;
        let item = match &states[at] {
            Record::EndSection => {
                assert(read + seq![] =~= read);
                return Ok((tables, at + 1));
            },
            Record::TableSectionEntry(ty) => convert_table(ty),
            _ => {
                return Err(SectionParsingError::WrongSectionContent());
            },
        };
        tables.push(item);
        proof {
            match tables_from(states@, at + 1) {
                Some((rest, end)) => {
                    assert(read.push(item) + rest =~= read + (seq![item] + rest));
                },
                None => {},
            }
        }
        at += 1;
    }
}

/// The first value that an initializer expression of one operator gives.
pub open spec fn initializer_of(op: WasmOperator) -> Option<GlobalInit> {
    match op {
        WasmOperator::I32Const { value } => Some(GlobalInit::I32Const(value)),
        WasmOperator::I64Const { value } => Some(GlobalInit::I64Const(value)),
        WasmOperator::F32Const { value } => Some(GlobalInit::F32Const(value.0)),
        WasmOperator::F64Const { value } => Some(GlobalInit::F64Const(value.0)),
        WasmOperator::GetGlobal { global_index } => Some(
            GlobalInit::ImportRef(global_index as usize),
        ),
        _ => None,
    }
}

/// The first value that an initializer expression of one operator gives.
fn convert_initializer(op: &WasmOperator) -> (init: Option<GlobalInit>)
    ensures
        init == initializer_of(*op),
{
    match op {
        WasmOperator::I32Const { value } => Some(GlobalInit::I32Const(*value)),
        WasmOperator::I64Const { value } => Some(GlobalInit::I64Const(*value)),
        WasmOperator::F32Const { value } => Some(GlobalInit::F32Const(value.0)),
        WasmOperator::F64Const { value } => Some(GlobalInit::F64Const(value.0)),
        WasmOperator::GetGlobal { global_index } => Some(
            GlobalInit::ImportRef(*global_index as usize),
        ),
        _ => None,
    }
}

/// The initializer expression that begins at `pos`: one operator between
/// the beginning and the end of the expression.
pub open spec fn init_expression_at(states: Seq<Record>, pos: int) -> Option<GlobalInit> {
    if 0 <= pos && pos + 2 < states.len() && states[pos] is BeginInitExpressionBody
        && states[pos + 2] is EndInitExpressionBody {
        match states[pos + 1] {
            Record::InitExpressionOperator(op) => initializer_of(op),
            _ => None,
        }
    } else {
        None
    }
}

/// Reads the initializer expression that begins at `pos`.
fn parse_init_expression(states: &Vec<Record>, pos: usize) -> (init: Option<GlobalInit>)
    ensures
        init == init_expression_at(states@, pos as int),
{
    if states.len() < 3 || pos >= states.len() - 2 {
        return None;
    }
    match &states[pos] {
        Record::BeginInitExpressionBody => {},
        _ => {
            return None;
        },
    }
    match &states[pos + 2] {
        Record::EndInitExpressionBody => {},
        _ => {
            return None;
        },
    }
    match &states[pos + 1] {
        Record::InitExpressionOperator(op) => convert_initializer(op),
        _ => None,
    }
}

/// The global that the entry of the global section at `pos` declares: its
/// type, which is a value type, and its initializer. The entry takes five
/// records.
pub open spec fn global_at(states: Seq<Record>, pos: int) -> Option<Global> {
    if 0 <= pos && pos + 4 < states.len() && states[pos + 4] is EndGlobalSectionEntry {
        match states[pos] {
            Record::BeginGlobalSectionEntry(ty) => match (
                value_type(ty.content_type),
                init_expression_at(states, pos + 1),
            ) {
                (Some(t), Some(initializer)) => Some(
                    Global { ty: t, mutability: ty.mutable, initializer },
                ),
                _ => None,
            },
            _ => None,
        }
    } else {
        None
    }
}

/// The globals of the global section whose entries begin at `pos`, and the
/// position after the section's end.
pub open spec fn globals_from(states: Seq<Record>, pos: int) -> Option<(Seq<Global>, int)>
    decreases states.len() - pos,
{
    if pos < 0 || pos >= states.len() {
        None
    } else if states[pos] is EndSection {
        Some((seq![], pos + 1))
    } else {
        match global_at(states, pos) {
            Some(item) => match globals_from(states, pos + 5) {
                Some((rest, end)) => Some((seq![item] + rest, end)),
                None => None,
            },
            None => None,
        }
    }
}

/// Retrieves the globals from the global section, whose entries begin at
/// `pos`.
pub fn parse_global_section(states: &Vec<Record>, pos: usize) -> (res: Result<
    (Vec<Global>, usize),
    SectionParsingError,
>)
    ensures
        res matches Ok((_, end)) ==> pos < end <= states@.len(),
        match res {
            Ok((globals, end)) => globals_from(states@, pos as int) == Some((globals@, end as int)),
            Err(_) => globals_from(states@, pos as int) is None,
        },
{
    let mut globals: Vec<Global> = Vec::new();
    let mut at: usize = pos;
    assert(globals@ + Seq::<Global>::empty() =~= globals@);
    loop
        invariant
            pos <= at,
            globals_from(states@, pos as int) == behind(globals@, globals_from(states@, at as int)),
        decreases states.len() - at,
    {
        if at >= states.len() {
            return Err(SectionParsingError::WrongSectionContent());
        }
        let ghost read = globals@;
        let item = match &states[at] {
            Record::EndSection => {
                assert(read + seq![] =~= read);
                return Ok((globals, at + 1));
            },
            Record::BeginGlobalSectionEntry(ty) => {
                if states.len() < 5 || at >= states.len() - 4 {
                    return Err(SectionParsingError::WrongSectionContent());
                }
                match &states[at + 4] {
                    Record::EndGlobalSectionEntry => {},
                    _ => {
                        return Err(SectionParsingError::WrongSectionContent());
                    },
                }
                match (type_to_type(&ty.content_type), parse_init_expression(states, at + 1)) {
                    (Ok(t), Some(initializer)) => Global {
                        ty: t,
                        mutability: ty.mutable,
                        initializer,
                    },
                    _ => {
                        return Err(SectionParsingError::WrongSectionContent());
                    },
                }
            },
            _ => {
                return Err(SectionParsingError::WrongSectionContent());
            },
        };
        globals.push(item);
        proof {
            match globals_from(states@, at + 5) {
                Some((rest, end)) => {
                    assert(read.push(item) + rest =~= read + (seq![item] + rest));
                },
                None => {},
            }
        }
        at += 5;
    }
}

/// The names of a map of names.
pub open spec fn names_of(exports: Map<FunctionIndex, String>) -> Map<FunctionIndex, Seq<char>> {
    exports.map_values(|name: String| name@)
}

/// The names under which the export section whose entries begin at `pos`
/// exports functions, added to `names`, and the position after the
/// section's end. A later entry for a function replaces an earlier one.
/// Exports that are no functions are passed over.
pub open spec fn exports_from(
    states: Seq<Record>,
    pos: int,
    names: Map<FunctionIndex, Seq<char>>,
) -> Option<(Map<FunctionIndex, Seq<char>>, int)>
    decreases states.len() - pos,
{
    if pos < 0 || pos >= states.len() {
        None
    } else if states[pos] is EndSection {
        Some((names, pos + 1))
    } else {
        match states[pos] {
            Record::ExportSectionEntry { field, kind, index } => if kind
                == ExternalKind::Function {
                if valid_utf8(field@) {
                    exports_from(states, pos + 1, names.insert(index as usize, decode_utf8(field@)))
                } else {
                    None
                }
            } else {
                exports_from(states, pos + 1, names)
            },
            _ => None,
        }
    }
}

/// Retrieves the names of the functions from the export section, whose
/// entries begin at `pos`.
pub fn parse_export_section(states: &Vec<Record>, pos: usize) -> (res: Result<
    (HashMap<FunctionIndex, String>, usize),
    SectionParsingError,
>)
    ensures
        res matches Ok((_, end)) ==> pos < end <= states@.len(),
        match res {
            Ok((exports, end)) => exports_from(states@, pos as int, Map::empty()) == Some(
                (names_of(exports@), end as int),
            ),
            Err(_) => exports_from(states@, pos as int, Map::empty()) is None,
        },
{
    let mut exports: HashMap<FunctionIndex, String> = HashMap::new();
    let mut at: usize = pos;
    assert(names_of(exports@) =~= Map::empty());
    loop
        invariant
            pos <= at,
            exports_from(states@, pos as int, Map::empty()) == exports_from(
                states@,
                at as int,
                names_of(exports@),
            ),
        decreases states.len() - at,
    {
        if at >= states.len() {
            return Err(SectionParsingError::WrongSectionContent());
        }
        match &states[at] {
            Record::EndSection => {
                return Ok((exports, at + 1));
            },
            Record::ExportSectionEntry { field, kind, index } => match kind {
                ExternalKind::Function => match try_get_name(field.as_slice()) {
                    Some(name) => {
                        let ghost before = exports@;
                        let owned = name.to_owned();
                        exports.insert(*index as usize, owned);
                        assert(names_of(exports@) =~= names_of(before).insert(
                            *index as usize,
                            decode_utf8(field@),
                        ));
                    },
                    None => {
                        return Err(SectionParsingError::WrongSectionContent());
                    },
                },
                _ => {},
            },
            _ => {
                return Err(SectionParsingError::WrongSectionContent());
            },
        }
        at += 1;
    }
}

/// The elements that an entry of the element section puts into a table.
pub struct ElementsEntry {
    pub table_index: TableIndex,
    pub offset: usize,
    pub elements: Vec<FunctionIndex>,
}

/// The mathematical content of an [`ElementsEntry`].
pub struct ElementsModel {
    pub table_index: TableIndex,
    pub offset: usize,
    pub elements: Seq<FunctionIndex>,
}

impl View for ElementsEntry {
    type V = ElementsModel;

    open spec fn view(&self) -> ElementsModel {
        ElementsModel { table_index: self.table_index, offset: self.offset, elements: self.elements@ }
    }
}

/// The contents of a list of entries.
pub open spec fn elements_view(entries: Seq<ElementsEntry>) -> Seq<ElementsModel> {
    entries.map_values(|e: ElementsEntry| e@)
}

/// The offset that an initializer gives: a constant that is not negative,
/// or the first value of a global that is such a constant.
pub open spec fn offset_of_init(init: GlobalInit, globals: Seq<Global>) -> Option<usize> {
    match init {
        GlobalInit::I32Const(value) => if value >= 0 {
            Some(value as usize)
        } else {
            None
        },
        GlobalInit::ImportRef(index) => if index < globals.len() {
            match globals[index as int].initializer {
                GlobalInit::I32Const(value) => if value >= 0 {
                    Some(value as usize)
                } else {
                    None
                },
                _ => None,
            }
        } else {
            None
        },
        _ => None,
    }
}

/// The offset that an initializer gives.
fn convert_offset(init: GlobalInit, globals: &Vec<Global>) -> (offset: Option<usize>)
    ensures
        offset == offset_of_init(init, globals@),
{
    match init {
        GlobalInit::I32Const(value) => if value >= 0 {
            Some(value as usize)
        } else {
            None
        },
        GlobalInit::ImportRef(index) => if index < globals.len() {
            match globals[index].initializer {
                GlobalInit::I32Const(value) => if value >= 0 {
                    Some(value as usize)
                } else {
                    None
                },
                _ => None,
            }
        } else {
            None
        },
        _ => None,
    }
}

/// The function indices of a list of elements.
pub open spec fn indices_of(elements: Seq<u32>) -> Seq<FunctionIndex> {
    elements.map_values(|e: u32| e as usize)
}

/// The function indices of a list of elements.
fn convert_elements(elements: &Vec<u32>) -> (indices: Vec<FunctionIndex>)
    ensures
        indices@ == indices_of(elements@),
{
    let mut indices: Vec<FunctionIndex> = Vec::new();
    let mut i: usize = 0;
    while i < elements.len()
        invariant
            i <= elements.len(),
            indices@ == indices_of(elements@.subrange(0, i as int)),
        decreases elements.len() - i,
    {
        indices.push(elements[i] as usize);
        assert(indices@ =~= indices_of(elements@.subrange(0, i + 1)));
        i += 1;
    }
    assert(elements@.subrange(0, elements.len() as int) =~= elements@);
    indices
}

/// The entry of the element section at `pos`: the table, the offset that
/// the initializer expression gives, and the elements. The entry takes six
/// records.
pub open spec fn elements_at(states: Seq<Record>, pos: int, globals: Seq<Global>) -> Option<
    ElementsModel,
> {
    if 0 <= pos && pos + 5 < states.len() && states[pos + 5] is EndElementSectionEntry {
        match (states[pos], init_expression_at(states, pos + 1), states[pos + 4]) {
            (
                Record::BeginElementSectionEntry(table_index),
                Some(init),
                Record::ElementSectionEntryBody(elements),
            ) => match offset_of_init(init, globals) {
                Some(offset) => Some(
                    ElementsModel {
                        table_index: table_index as usize,
                        offset,
                        elements: indices_of(elements@),
                    },
                ),
                None => None,
            },
            _ => None,
        }
    } else {
        None
    }
}

/// The entries of the element section that begin at `pos`, and the position
/// after the section's end.
pub open spec fn elements_from(states: Seq<Record>, pos: int, globals: Seq<Global>) -> Option<
    (Seq<ElementsModel>, int),
>
    decreases states.len() - pos,
{
    if pos < 0 || pos >= states.len() {
        None
    } else if states[pos] is EndSection {
        Some((seq![], pos + 1))
    } else {
        match elements_at(states, pos, globals) {
            Some(item) => match elements_from(states, pos + 6, globals) {
                Some((rest, end)) => Some((seq![item] + rest, end)),
                None => None,
            },
            None => None,
        }
    }
}

/// Retrieves the elements of tables from the element section, whose
/// entries begin at `pos`. The offsets may refer to the `globals` of the
/// module.
pub fn parse_elements_section(states: &Vec<Record>, pos: usize, globals: &Vec<Global>) -> (res:
    Result<(Vec<ElementsEntry>, usize), SectionParsingError>)
    ensures
        res matches Ok((_, end)) ==> pos < end <= states@.len(),
        match res {
            Ok((entries, end)) => elements_from(states@, pos as int, globals@) == Some(
                (elements_view(entries@), end as int),
            ),
            Err(_) => elements_from(states@, pos as int, globals@) is None,
        },
{
    let mut entries: Vec<ElementsEntry> = Vec::new();
    let mut at: usize = pos;
    assert(elements_view(entries@) =~= seq![]);
    assert(Seq::<ElementsModel>::empty() + seq![] =~= seq![]);
    loop
        invariant
            pos <= at,
            elements_from(states@, pos as int, globals@) == behind(
                elements_view(entries@),
                elements_from(states@, at as int, globals@),
            ),
        decreases states.len() - at,
    {
        if at >= states.len() {
            return Err(SectionParsingError::WrongSectionContent());
        }
        let ghost read = elements_view(entries@);
        let item = match &states[at] {
            Record::EndSection => {
                assert(read + seq![] =~= read);
                return Ok((entries, at + 1));
            },
            Record::BeginElementSectionEntry(table_index) => {
                if states.len() < 6 || at >= states.len() - 5 {
                    return Err(SectionParsingError::WrongSectionContent());
                }
                match &states[at + 5] {
                    Record::EndElementSectionEntry => {},
                    _ => {
                        return Err(SectionParsingError::WrongSectionContent());
                    },
                }
                let init = match parse_init_expression(states, at + 1) {
                    Some(init) => init,
                    None => {
                        return Err(SectionParsingError::WrongSectionContent());
                    },
                };
                let elements = match &states[at + 4] {
                    Record::ElementSectionEntryBody(elements) => convert_elements(elements),
                    _ => {
                        return Err(SectionParsingError::WrongSectionContent());
                    },
                };
                match convert_offset(init, globals) {
                    Some(offset) => ElementsEntry {
                        table_index: *table_index as usize,
                        offset,
                        elements,
                    },
                    None => {
                        return Err(SectionParsingError::WrongSectionContent());
                    },
                }
            },
            _ => {
                return Err(SectionParsingError::WrongSectionContent());
            },
        };
        let ghost model = item@;
        entries.push(item);
        proof {
            assert(elements_view(entries@) =~= read.push(model));
            match elements_from(states@, at + 6, globals@) {
                Some((rest, end)) => {
                    assert(read.push(model) + rest =~= read + (seq![model] + rest));
                },
                None => {},
            }
        }
        at += 6;
    }
}

} // verus!
