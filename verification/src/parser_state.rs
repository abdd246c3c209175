//! The records of a module, as the `wasmparser` crate yields them one by
//! one, and as plain values.
use vstd::prelude::*;
use wasmparser::WasmDecoder;
use crate::operator::WasmOperator;
use crate::operator_reader::{convert_operator, operator_of, type_of, wasm_type};
use crate::translation_utils::WasmType;

verus! {

/// The parser of the `wasmparser` crate.
#[verifier::external_type_specification]
#[verifier::external_body]
pub struct ExParser<'a>(wasmparser::Parser<'a>);

/// A record of the `wasmparser` crate.
#[verifier::external_type_specification]
#[verifier::external_body]
pub struct ExParserState<'a>(wasmparser::ParserState<'a>);

/// The kind of a section.
#[derive(Clone, Copy, Debug, PartialEq, Eq, Structural)]
pub enum SectionCode {
    Custom,
    Type,
    Import,
    Function,
    Table,
    Memory,
    Global,
    Export,
    Start,
    Element,
    Code,
    Data,
}

/// The kind of an exported item.
#[derive(Clone, Copy, Debug, PartialEq, Eq, Structural)]
pub enum ExternalKind {
    Function,
    Table,
    Memory,
    Global,
}

/// The type of a function: its form, which is `Func`, and the types of its
/// parameters and results.
#[derive(Clone, Debug, PartialEq, Eq)]
pub struct FuncType {
    pub form: WasmType,
    pub params: Vec<WasmType>,
    pub results: Vec<WasmType>,
}

/// The size of a table or memory: what it begins with and what it may grow to.
#[derive(Clone, Copy, Debug, PartialEq, Eq, Structural)]
pub struct ResizableLimits {
    pub initial: u32,
    pub maximum: Option<u32>,
}

#[derive(Clone, Copy, Debug, PartialEq, Eq, Structural)]
pub struct TableType {
    pub element_type: WasmType,
    pub limits: ResizableLimits,
}

#[derive(Clone, Copy, Debug, PartialEq, Eq, Structural)]
pub struct MemoryType {
    pub limits: ResizableLimits,
    pub shared: bool,
}

#[derive(Clone, Copy, Debug, PartialEq, Eq, Structural)]
pub struct GlobalType {
    pub content_type: WasmType,
    pub mutable: bool,
}

/// What an entry of the import section imports.
#[derive(Clone, Copy, Debug, PartialEq, Eq, Structural)]
pub enum ImportSectionEntryType {
    /// A function of the signature of that index.
    Function(u32),
    Table(TableType),
    Memory(MemoryType),
    Global(GlobalType),
}

/// One record of a module.
#[derive(Clone, Debug, PartialEq, Eq)]
pub enum Record {
    /// The bytes are no module. The parser stops at `offset`.
    Error { offset: usize },
    BeginWasm { version: u32 },
    EndWasm,
    BeginSection { code: SectionCode },
    EndSection,
    TypeSectionEntry(FuncType),
    ImportSectionEntry { ty: ImportSectionEntryType },
    FunctionSectionEntry(u32),
    TableSectionEntry(TableType),
    MemorySectionEntry(MemoryType),
    ExportSectionEntry { field: Vec<u8>, kind: ExternalKind, index: u32 },
    StartSectionEntry(u32),
    BeginInitExpressionBody,
    InitExpressionOperator(WasmOperator),
    EndInitExpressionBody,
    BeginFunctionBody,
    FunctionBodyLocals { locals: Vec<(u32, WasmType)> },
    CodeOperator(WasmOperator),
    EndFunctionBody,
    BeginElementSectionEntry(u32),
    ElementSectionEntryBody(Vec<u32>),
    EndElementSectionEntry,
    BeginGlobalSectionEntry(GlobalType),
    EndGlobalSectionEntry,
    /// A record that the translation does not read.
    Other,
}

/// The records that the parser yields for the bytes, as plain values and
/// in their order, up to the end of the module or to the first error, when
/// it skips the contents of the data section and reads everything else.
/// They depend on the bytes alone.
pub uninterp spec fn records(data: Seq<u8>) -> Seq<Record>;

/// The records that a parser has still to yield, read in the same way.
pub uninterp spec fn remaining(parser: wasmparser::Parser) -> Seq<Record>;

/// The record at which a parser stands, as a plain value.
pub uninterp spec fn standing(parser: wasmparser::Parser) -> Record;

/// A record of the parser as a plain value: the variant of the same name
/// with the same contents, and `Other` for the records and operators that
/// the translation does not read.
pub uninterp spec fn record_of(state: wasmparser::ParserState) -> Record;

/// The record is the end of the module or an error: the parser yields
/// nothing after it.
pub open spec fn is_last(record: Record) -> bool {
    record is EndWasm || record is Error
}

/// The record begins the data section.
pub open spec fn begins_data(record: Record) -> bool {
    record == (Record::BeginSection { code: SectionCode::Data })
}

/// A parser at the beginning of the bytes of a module: `Parser::new`. It
/// stands at no record that the translation reads, and has the records of
/// the bytes to yield.
#[verifier::external_body]
fn new_parser<'a>(data: &'a [u8]) -> (parser: wasmparser::Parser<'a>)
    ensures
        remaining(parser) == records(data@),
        standing(parser) == Record::Other,
{
    wasmparser::Parser::new(data)
}

/// Reads the next record with `read`, unless the parser has come to the end
/// of the module or to an error, where `read` must not be called. Returns
/// whether a record was read. After the end or an error nothing remains.
/// Where a record was read and the parser did not stand at the beginning
/// of the data section, it is the first of those that remained.
#[verifier::external_body]
fn advance(parser: &mut wasmparser::Parser) -> (read: bool)
    ensures
        read == !is_last(standing(*old(parser))),
        !read ==> remaining(*old(parser)) == Seq::<Record>::empty(),
        read && !begins_data(standing(*old(parser))) ==> remaining(*old(parser)) == seq![
            standing(*final(parser)),
        ] + remaining(*final(parser)),
{
    match *parser.last_state() {
        wasmparser::ParserState::EndWasm | wasmparser::ParserState::Error(_) => false,
        _ => {
            parser.read();
            true
        },
    }
}

/// Skips the section that has just begun and reads the record after it, with
/// `read_with_input`. Where no section has just begun, nothing is read.
/// Returns whether a record was read. Where the data section had begun,
/// that record is the first of those that remained.
#[verifier::external_body]
fn skip_section(parser: &mut wasmparser::Parser) -> (read: bool)
    ensures
        read == (standing(*old(parser)) is BeginSection),
        begins_data(standing(*old(parser))) ==> remaining(*old(parser)) == seq![
            standing(*final(parser)),
        ] + remaining(*final(parser)),
{
    match *parser.last_state() {
        wasmparser::ParserState::BeginSection { .. } => {
            parser.read_with_input(wasmparser::ParserInput::SkipSection);
            true
        },
        _ => false,
    }
}

/// The record at which the parser stands: `last_state`.
#[verifier::external_body]
fn last_state<'p, 'a>(parser: &'p wasmparser::Parser<'a>) -> (state: &'p wasmparser::ParserState<
    'a,
>)
    ensures
        record_of(*state) == standing(*parser),
{
    parser.last_state()
}

/// The records without contents, and those of an error and of the
/// beginning of a module.
pub open spec fn is_marker(record: Record) -> bool {
    record is Error || record is BeginWasm || record is EndWasm || record is EndSection
        || record is BeginInitExpressionBody || record is EndInitExpressionBody
        || record is BeginFunctionBody || record is EndFunctionBody
        || record is EndElementSectionEntry || record is EndGlobalSectionEntry
}

/// Tells the records without contents apart from the others, and the record
/// of an error, of which the offset is kept. What it hands out is the
/// record as a plain value; where it hands out nothing, the record is none
/// of these.
#[verifier::external_body]
fn marker(state: &wasmparser::ParserState) -> (res: Option<Record>)
    ensures
        match res {
            Some(record) => record_of(*state) == record,
            None => !is_marker(record_of(*state)),
        },
{
    match *state {
        wasmparser::ParserState::Error(e) => Some(Record::Error { offset: e.offset }),
        wasmparser::ParserState::BeginWasm { version } => Some(Record::BeginWasm { version }),
        wasmparser::ParserState::EndWasm => Some(Record::EndWasm),
        wasmparser::ParserState::EndSection => Some(Record::EndSection),
        wasmparser::ParserState::BeginInitExpressionBody => Some(Record::BeginInitExpressionBody),
        wasmparser::ParserState::EndInitExpressionBody => Some(Record::EndInitExpressionBody),
        wasmparser::ParserState::BeginFunctionBody { .. } => Some(Record::BeginFunctionBody),
        wasmparser::ParserState::EndFunctionBody => Some(Record::EndFunctionBody),
        wasmparser::ParserState::EndElementSectionEntry => Some(Record::EndElementSectionEntry),
        wasmparser::ParserState::EndGlobalSectionEntry => Some(Record::EndGlobalSectionEntry),
        _ => None,
    }
}

/// The records that hold indices.
pub open spec fn holds_indices(record: Record) -> bool {
    record is FunctionSectionEntry || record is StartSectionEntry
        || record is BeginElementSectionEntry || record is ElementSectionEntryBody
}

/// Tells the records that hold indices apart from the others. What it
/// hands out is the record as a plain value; where it hands out nothing,
/// the record is none of these.
#[verifier::external_body]
fn indices(state: &wasmparser::ParserState) -> (res: Option<Record>)
    ensures
        match res {
            Some(record) => record_of(*state) == record,
            None => !holds_indices(record_of(*state)),
        },
{
    match *state {
        wasmparser::ParserState::FunctionSectionEntry(i) => Some(Record::FunctionSectionEntry(i)),
        wasmparser::ParserState::StartSectionEntry(i) => Some(Record::StartSectionEntry(i)),
        wasmparser::ParserState::BeginElementSectionEntry(i) => Some(
            Record::BeginElementSectionEntry(i),
        ),
        wasmparser::ParserState::ElementSectionEntryBody(ref elements) => Some(
            Record::ElementSectionEntryBody(elements.clone()),
        ),
        _ => None,
    }
}

/// The kinds of sections that come before the globals.
pub open spec fn is_early(code: SectionCode) -> bool {
    code is Custom || code is Type || code is Import || code is Function || code is Table
        || code is Memory
}

/// Tells the beginning of a section apart from the other records, and the
/// first kinds of sections from the others. What it hands out is the kind
/// of the section that the record begins; where it hands out nothing, the
/// record begins no section of these kinds.
#[verifier::external_body]
fn early_section(state: &wasmparser::ParserState) -> (res: Option<SectionCode>)
    ensures
        match res {
            Some(code) => record_of(*state) == (Record::BeginSection { code }),
            None => !(record_of(*state) matches Record::BeginSection { code } && is_early(code)),
        },
{
    match *state {
        wasmparser::ParserState::BeginSection { ref code, .. } => match *code {
            wasmparser::SectionCode::Custom { .. } => Some(SectionCode::Custom),
            wasmparser::SectionCode::Type => Some(SectionCode::Type),
            wasmparser::SectionCode::Import => Some(SectionCode::Import),
            wasmparser::SectionCode::Function => Some(SectionCode::Function),
            wasmparser::SectionCode::Table => Some(SectionCode::Table),
            wasmparser::SectionCode::Memory => Some(SectionCode::Memory),
            _ => None,
        },
        _ => None,
    }
}

/// Tells the beginning of a section apart from the other records, and the
/// last kinds of sections from the others. What it hands out is the kind
/// of the section that the record begins; where it hands out nothing, the
/// record begins no section of these kinds.
#[verifier::external_body]
fn late_section(state: &wasmparser::ParserState) -> (res: Option<SectionCode>)
    ensures
        match res {
            Some(code) => record_of(*state) == (Record::BeginSection { code }),
            None => !(record_of(*state) matches Record::BeginSection { code } && !is_early(code)),
        },
{
    match *state {
        wasmparser::ParserState::BeginSection { ref code, .. } => match *code {
            wasmparser::SectionCode::Global => Some(SectionCode::Global),
            wasmparser::SectionCode::Export => Some(SectionCode::Export),
            wasmparser::SectionCode::Start => Some(SectionCode::Start),
            wasmparser::SectionCode::Element => Some(SectionCode::Element),
            wasmparser::SectionCode::Code => Some(SectionCode::Code),
            wasmparser::SectionCode::Data => Some(SectionCode::Data),
            _ => None,
        },
        _ => None,
    }
}

/// The form, the parameter types and the result types of an entry of the
/// type section, each type as a type of the translator. What it hands out
/// is the function type of the record; where it hands out nothing, the
/// record is no entry of the type section.
#[verifier::external_body]
fn func_type(state: &wasmparser::ParserState) -> (res: Option<FuncType>)
    ensures
        match res {
            Some(ty) => record_of(*state) == Record::TypeSectionEntry(ty),
            None => !(record_of(*state) is TypeSectionEntry),
        },
{
    match *state {
        wasmparser::ParserState::TypeSectionEntry(ref ty) => Some(
            FuncType {
                form: wasm_type(ty.form),
                params: ty.params.iter().map(|ty| wasm_type(*ty)).collect(),
                results: ty.returns.iter().map(|ty| wasm_type(*ty)).collect(),
            },
        ),
        _ => None,
    }
}

/// The declarations of the locals of a function body, each type as a type
/// of the translator. What it hands out are the locals of the record;
/// where it hands out nothing, the record declares no locals.
#[verifier::external_body]
fn body_locals(state: &wasmparser::ParserState) -> (res: Option<Vec<(u32, WasmType)>>)
    ensures
        match res {
            Some(locals) => record_of(*state) == (Record::FunctionBodyLocals { locals }),
            None => !(record_of(*state) is FunctionBodyLocals),
        },
{
    match *state {
        wasmparser::ParserState::FunctionBodyLocals { ref locals } => Some(
            locals.iter().map(|local| (local.0, wasm_type(local.1))).collect(),
        ),
        _ => None,
    }
}

/// The record of an imported function of that signature.
pub open spec fn function_import(index: u32) -> Record {
    Record::ImportSectionEntry { ty: ImportSectionEntryType::Function(index) }
}

/// The record of a table, declared or imported.
pub open spec fn table_record(imported: bool, table: TableType) -> Record {
    if imported {
        Record::ImportSectionEntry { ty: ImportSectionEntryType::Table(table) }
    } else {
        Record::TableSectionEntry(table)
    }
}

/// The record of a memory, declared or imported.
pub open spec fn memory_record(imported: bool, memory: MemoryType) -> Record {
    if imported {
        Record::ImportSectionEntry { ty: ImportSectionEntryType::Memory(memory) }
    } else {
        Record::MemorySectionEntry(memory)
    }
}

/// The record of a global, declared or imported.
pub open spec fn global_record(imported: bool, global: GlobalType) -> Record {
    if imported {
        Record::ImportSectionEntry { ty: ImportSectionEntryType::Global(global) }
    } else {
        Record::BeginGlobalSectionEntry(global)
    }
}

/// The record of an operator, of a function body or of an initializer
/// expression. An operator that the translator does not know gives a
/// record that the translation does not read.
pub open spec fn operator_record(in_body: bool, op: Option<WasmOperator>) -> Record {
    match op {
        Some(op) => if in_body {
            Record::CodeOperator(op)
        } else {
            Record::InitExpressionOperator(op)
        },
        None => Record::Other,
    }
}

/// The signature index of an imported function. Where it hands out
/// nothing, the record imports no function.
#[verifier::external_body]
fn imported_function(state: &wasmparser::ParserState) -> (res: Option<u32>)
    ensures
        match res {
            Some(index) => record_of(*state) == function_import(index),
            None => !(record_of(*state) matches Record::ImportSectionEntry {
                ty: ImportSectionEntryType::Function(_),
            }),
        },
{
    match *state {
        wasmparser::ParserState::ImportSectionEntry {
            ty: wasmparser::ImportSectionEntryType::Function(i),
            ..
        } => Some(i),
        _ => None,
    }
}

/// The element type and the limits of a table, declared or imported, and
/// whether it is imported. Where it hands out nothing, the record is no
/// table.
#[verifier::external_body]
fn table_type(state: &wasmparser::ParserState) -> (res: Option<
    (bool, wasmparser::Type, u32, Option<u32>),
>)
    ensures
        match res {
            Some((imported, element_type, initial, maximum)) => record_of(*state) == table_record(
                imported,
                (TableType {
                    element_type: type_of(element_type),
                    limits: ResizableLimits { initial, maximum },
                }),
            ),
            None => !(record_of(*state) is TableSectionEntry) && !(record_of(*state) matches Record::ImportSectionEntry {
                ty: ImportSectionEntryType::Table(_),
            }),
        },
{
    match *state {
        wasmparser::ParserState::TableSectionEntry(ref t) => Some(
            (false, t.element_type, t.limits.initial, t.limits.maximum),
        ),
        wasmparser::ParserState::ImportSectionEntry {
            ty: wasmparser::ImportSectionEntryType::Table(ref t),
            ..
        } => Some((true, t.element_type, t.limits.initial, t.limits.maximum)),
        _ => None,
    }
}

/// The limits of a memory, declared or imported, whether it is shared, and
/// whether it is imported. Where it hands out nothing, the record is no
/// memory.
#[verifier::external_body]
fn memory_type(state: &wasmparser::ParserState) -> (res: Option<(bool, u32, Option<u32>, bool)>)
    ensures
        match res {
            Some((imported, initial, maximum, shared)) => record_of(*state) == memory_record(
                imported,
                (MemoryType { limits: ResizableLimits { initial, maximum }, shared }),
            ),
            None => !(record_of(*state) is MemorySectionEntry) && !(record_of(*state) matches Record::ImportSectionEntry {
                ty: ImportSectionEntryType::Memory(_),
            }),
        },
{
    match *state {
        wasmparser::ParserState::MemorySectionEntry(ref m) => Some(
            (false, m.limits.initial, m.limits.maximum, m.shared),
        ),
        wasmparser::ParserState::ImportSectionEntry {
            ty: wasmparser::ImportSectionEntryType::Memory(ref m),
            ..
        } => Some((true, m.limits.initial, m.limits.maximum, m.shared)),
        _ => None,
    }
}

/// The type of a global, declared or imported, whether it is mutable, and
/// whether it is imported. Where it hands out nothing, the record is no
/// global.
#[verifier::external_body]
fn global_type(state: &wasmparser::ParserState) -> (res: Option<(bool, wasmparser::Type, bool)>)
    ensures
        match res {
            Some((imported, content_type, mutable)) => record_of(*state) == global_record(
                imported,
                (GlobalType { content_type: type_of(content_type), mutable }),
            ),
            None => !(record_of(*state) is BeginGlobalSectionEntry) && !(record_of(*state) matches Record::ImportSectionEntry {
                ty: ImportSectionEntryType::Global(_),
            }),
        },
{
    match *state {
        wasmparser::ParserState::BeginGlobalSectionEntry(ref g) => Some(
            (false, g.content_type, g.mutable),
        ),
        wasmparser::ParserState::ImportSectionEntry {
            ty: wasmparser::ImportSectionEntryType::Global(ref g),
            ..
        } => Some((true, g.content_type, g.mutable)),
        _ => None,
    }
}

/// The name, the kind and the index of an entry of the export section.
/// Where it hands out nothing, the record is no such entry.
#[verifier::external_body]
fn export(state: &wasmparser::ParserState) -> (res: Option<(Vec<u8>, ExternalKind, u32)>)
    ensures
        match res {
            Some((field, kind, index)) => record_of(*state) == (Record::ExportSectionEntry {
                field,
                kind,
                index,
            }),
            None => !(record_of(*state) is ExportSectionEntry),
        },
{
    match *state {
        wasmparser::ParserState::ExportSectionEntry { field, kind, index } => Some(
            (
                field.to_vec(),
                match kind {
                    wasmparser::ExternalKind::Function => ExternalKind::Function,
                    wasmparser::ExternalKind::Table => ExternalKind::Table,
                    wasmparser::ExternalKind::Memory => ExternalKind::Memory,
                    wasmparser::ExternalKind::Global => ExternalKind::Global,
                },
                index,
            ),
        ),
        _ => None,
    }
}

/// The operator of a function body or of an initializer expression, and
/// whether it belongs to a function body. Where it hands out nothing, the
/// record holds no operator.
#[verifier::external_body]
fn operator<'p, 'a>(state: &'p wasmparser::ParserState<'a>) -> (res: Option<
    (bool, &'p wasmparser::Operator<'a>),
>)
    ensures
        match res {
            Some((in_body, op)) => record_of(*state) == operator_record(in_body, operator_of(*op)),
            None => !(record_of(*state) is CodeOperator) && !(record_of(*state) is InitExpressionOperator),
        },
{
    match *state {
        wasmparser::ParserState::CodeOperator(ref op) => Some((true, op)),
        wasmparser::ParserState::InitExpressionOperator(ref op) => Some((false, op)),
        _ => None,
    }
}

/// The record at which the parser stands, as a plain value.
fn current_state(parser: &wasmparser::Parser) -> (record: Record)
    ensures
        record == standing(*parser),
{
    let state = last_state(parser);
    match marker(state) {
        Some(state) => {
            return state;
        },
        None => {},
    }
    match indices(state) {
        Some(state) => {
            return state;
        },
        None => {},
    }
    match early_section(state) {
        Some(code) => {
            return Record::BeginSection { code };
        },
        None => {},
    }
    match late_section(state) {
        Some(code) => {
            return Record::BeginSection { code };
        },
        None => {},
    }
    match func_type(state) {
        Some(ty) => {
            return Record::TypeSectionEntry(ty);
        },
        None => {},
    }
    match body_locals(state) {
        Some(locals) => {
            return Record::FunctionBodyLocals { locals };
        },
        None => {},
    }
    match imported_function(state) {
        Some(index) => {
            return Record::ImportSectionEntry { ty: ImportSectionEntryType::Function(index) };
        },
        None => {},
    }
    match table_type(state) {
        Some((imported, element_type, initial, maximum)) => {
            let table = TableType {
                element_type: wasm_type(element_type),
                limits: ResizableLimits { initial, maximum },
            };
            if imported {
                return Record::ImportSectionEntry { ty: ImportSectionEntryType::Table(table) };
            }
            return Record::TableSectionEntry(table);
        },
        None => {},
    }
    match memory_type(state) {
        Some((imported, initial, maximum, shared)) => {
            let memory = MemoryType { limits: ResizableLimits { initial, maximum }, shared };
            if imported {
                return Record::ImportSectionEntry {
                    ty: ImportSectionEntryType::Memory(memory),
                };
            }
            return Record::MemorySectionEntry(memory);
        },
        None => {},
    }
    match global_type(state) {
        Some((imported, content_type, mutable)) => {
            let global = GlobalType { content_type: wasm_type(content_type), mutable };
            if imported {
                return Record::ImportSectionEntry {
                    ty: ImportSectionEntryType::Global(global),
                };
            }
            return Record::BeginGlobalSectionEntry(global);
        },
        None => {},
    }
    match export(state) {
        Some((field, kind, index)) => {
            return Record::ExportSectionEntry { field, kind, index };
        },
        None => {},
    }
    match operator(state) {
        Some((in_body, op)) => match convert_operator(op) {
            Some(converted) => {
                if in_body {
                    return Record::CodeOperator(converted);
                }
                return Record::InitExpressionOperator(converted);
            },
            None => {},
        },
        None => {},
    }
    Record::Other
}

/// Whether a record begins the data section.
fn begins_data_section(state: &Record) -> (b: bool)
    ensures
        b == begins_data(*state),
{
    match state {
        Record::BeginSection { code: SectionCode::Data } => true,
        _ => false,
    }
}

/// The records of a module, in their order, up to the end of the module or
/// to the first error. The contents of the data section are skipped.
pub fn read_module(data: &[u8]) -> (states: Vec<Record>)
    ensures
        states@ == records(data@),
{
    let mut parser = new_parser(data);
    let mut states: Vec<Record> = Vec::new();
    let mut skip: bool = false;
    assert(states@ + remaining(parser) =~= remaining(parser));
    loop
        invariant
            skip == begins_data(standing(parser)),
            records(data@) == states@ + remaining(parser),
        decreases remaining(parser).len(),
    {
        let ghost before = remaining(parser);
        let read = if skip {
            skip_section(&mut parser)
        } else {
            advance(&mut parser)
        };
        if !read {
            assert(states@ + Seq::<Record>::empty() =~= states@);
            return states;
        }
        let state = current_state(&parser);
        skip = begins_data_section(&state);
        assert(states@.push(state) + remaining(parser) =~= states@ + before);
        states.push(state);
    }
}

} // verus!
