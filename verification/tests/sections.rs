use wasm2cretonne::parser_state::{ExternalKind, FuncType, GlobalType, ImportSectionEntryType,
                                  MemoryType, ResizableLimits, SectionCode, TableType};
use wasm2cretonne::sections_parser;
use wasm2cretonne::sections_translator::{parse_elements_section, parse_export_section,
                                         parse_function_section, parse_function_signatures,
                                         parse_global_section, parse_import_section,
                                         parse_memory_section, parse_table_section,
                                         SectionParsingError};
use wasm2cretonne::translation_utils::Ieee64;
use wasm2cretonne::{translate_states, DummyRuntime, Global, GlobalInit, Import, Memory, ModuleError,
                    Record, Signature, StandaloneRuntime, Table, TableElementType, ValueType,
                    WasmOperator, WasmType};

fn limits(initial: u32, maximum: Option<u32>) -> ResizableLimits {
    ResizableLimits { initial, maximum }
}

fn func_type(form: WasmType, params: Vec<WasmType>, results: Vec<WasmType>) -> Record {
    Record::TypeSectionEntry(FuncType { form, params, results })
}

fn global_entry(ty: WasmType, mutable: bool, op: WasmOperator) -> Vec<Record> {
    vec![
        Record::BeginGlobalSectionEntry(GlobalType { content_type: ty, mutable }),
        Record::BeginInitExpressionBody,
        Record::InitExpressionOperator(op),
        Record::EndInitExpressionBody,
        Record::EndGlobalSectionEntry,
    ]
}

fn elements_entry(table: u32, op: WasmOperator, elements: Vec<u32>) -> Vec<Record> {
    vec![
        Record::BeginElementSectionEntry(table),
        Record::BeginInitExpressionBody,
        Record::InitExpressionOperator(op),
        Record::EndInitExpressionBody,
        Record::ElementSectionEntryBody(elements),
        Record::EndElementSectionEntry,
    ]
}

fn module(section: SectionCode, entries: Vec<Record>) -> Vec<Record> {
    let mut states = vec![Record::BeginWasm { version: 1 }, Record::BeginSection { code: section }];
    states.extend(entries);
    states
}

#[test]
fn signatures_are_read_up_to_the_end_of_the_section() {
    let states = vec![
        Record::Other,
        func_type(WasmType::Func, vec![WasmType::I32, WasmType::F64], vec![WasmType::I64]),
        func_type(WasmType::Func, vec![], vec![]),
        Record::EndSection,
        Record::EndWasm,
    ];
    let (signatures, end) = parse_function_signatures(&states, 1).ok().unwrap();
    assert_eq!(end, 4);
    assert_eq!(
        signatures,
        vec![
            Signature {
                argument_types: vec![ValueType::I32, ValueType::F64],
                return_types: vec![ValueType::I64],
            },
            Signature { argument_types: vec![], return_types: vec![] },
        ]
    );
    // An empty section.
    let (signatures, end) = parse_function_signatures(&states, 3).ok().unwrap();
    assert!(signatures.is_empty());
    assert_eq!(end, 4);
    // A record of another section, and a section that does not end.
    assert_eq!(parse_function_signatures(&states, 0).err(), Some(SectionParsingError::WrongSectionContent()));
    assert_eq!(parse_function_signatures(&states, 4).err(), Some(SectionParsingError::WrongSectionContent()));
    assert_eq!(parse_function_signatures(&states, 9).err(), Some(SectionParsingError::WrongSectionContent()));
}

#[test]
fn signatures_of_other_than_value_types_are_refused() {
    for bad in [
        func_type(WasmType::Func, vec![WasmType::AnyFunc], vec![]),
        func_type(WasmType::Func, vec![], vec![WasmType::EmptyBlockType]),
        func_type(WasmType::I32, vec![], vec![]),
    ] {
        let states = vec![bad, Record::EndSection];
        assert!(parse_function_signatures(&states, 0).is_err());
        let mut runtime = DummyRuntime::new();
        let error = translate_states(&module(SectionCode::Type, states), &mut runtime).unwrap_err();
        assert_eq!(error, ModuleError::TypeSection);
        assert_eq!(error.message(), "wrong content in the type section");
    }
}

#[test]
fn type_section_is_looked_for_where_it_is_to_begin() {
    let states = vec![
        Record::BeginSection { code: SectionCode::Type },
        func_type(WasmType::Func, vec![], vec![WasmType::F32]),
        Record::EndSection,
        Record::BeginSection { code: SectionCode::Type },
        Record::Other,
    ];
    let (signatures, end) = sections_parser::parse_function_signatures(&states, 0).ok().unwrap();
    assert_eq!(signatures, vec![Signature { argument_types: vec![], return_types: vec![ValueType::F32] }]);
    assert_eq!(end, 3);
    assert_eq!(
        sections_parser::parse_function_signatures(&states, 1).err(),
        Some(sections_parser::SectionParsingError::NonExistentSection())
    );
    assert_eq!(
        sections_parser::parse_function_signatures(&states, 7).err(),
        Some(sections_parser::SectionParsingError::NonExistentSection())
    );
    assert_eq!(
        sections_parser::parse_function_signatures(&states, 3).err(),
        Some(sections_parser::SectionParsingError::WrongSectionContent())
    );
}

#[test]
fn imports_are_read_in_their_order() {
    let table = TableType { element_type: WasmType::AnyFunc, limits: limits(3, Some(9)) };
    let memory = MemoryType { limits: limits(2, None), shared: false };
    let global = GlobalType { content_type: WasmType::F64, mutable: true };
    let states = vec![
        Record::ImportSectionEntry { ty: ImportSectionEntryType::Memory(memory) },
        Record::ImportSectionEntry { ty: ImportSectionEntryType::Function(4) },
        Record::ImportSectionEntry { ty: ImportSectionEntryType::Global(global) },
        Record::ImportSectionEntry { ty: ImportSectionEntryType::Table(table) },
        Record::EndSection,
    ];
    let (imports, end) = parse_import_section(&states, 0).ok().unwrap();
    assert_eq!(end, 5);
    assert_eq!(
        imports,
        vec![
            Import::Memory(Memory { pages_count: 2, maximum: None }),
            Import::Function { sig_index: 4 },
            Import::Global(Global {
                ty: ValueType::F64,
                mutability: true,
                initializer: GlobalInit::Import(),
            }),
        ]
    );
    // An imported table adds nothing to the list.
    let states = vec![
        Record::ImportSectionEntry { ty: ImportSectionEntryType::Table(table) },
        Record::EndSection,
    ];
    let (imports, end) = parse_import_section(&states, 0).ok().unwrap();
    assert_eq!(end, 2);
    assert_eq!(imports, vec![]);
    let bad = GlobalType { content_type: WasmType::AnyFunc, mutable: false };
    let states = vec![
        Record::ImportSectionEntry { ty: ImportSectionEntryType::Global(bad) },
        Record::EndSection,
    ];
    assert!(parse_import_section(&states, 0).is_err());
    let mut runtime = DummyRuntime::new();
    assert_eq!(
        translate_states(&module(SectionCode::Import, states), &mut runtime).unwrap_err(),
        ModuleError::ImportSection
    );
}

#[test]
fn functions_tables_and_memories_are_read() {
    let states = vec![
        Record::FunctionSectionEntry(2),
        Record::FunctionSectionEntry(0),
        Record::EndSection,
        Record::TableSectionEntry(TableType { element_type: WasmType::I32, limits: limits(1, None) }),
        Record::EndSection,
        Record::MemorySectionEntry(MemoryType { limits: limits(1, Some(4)), shared: false }),
        Record::EndSection,
    ];
    assert_eq!(parse_function_section(&states, 0).ok(), Some((vec![2, 0], 3)));
    assert_eq!(
        parse_table_section(&states, 3).ok(),
        Some((vec![Table { ty: TableElementType::Val(ValueType::I32), size: 1, maximum: None }], 5))
    );
    assert_eq!(
        parse_memory_section(&states, 5).ok(),
        Some((vec![Memory { pages_count: 1, maximum: Some(4) }], 7))
    );
    assert!(parse_function_section(&states, 3).is_err());
    assert!(parse_table_section(&states, 0).is_err());
    assert!(parse_memory_section(&states, 3).is_err());
    let mut runtime = DummyRuntime::new();
    let foreign = vec![Record::Other, Record::EndSection];
    for (section, error, message) in [
        (SectionCode::Table, ModuleError::TableSection, "wrong content in the table section"),
        (SectionCode::Memory, ModuleError::MemorySection, "wrong content in the memory section"),
        (SectionCode::Global, ModuleError::GlobalSection, "wrong content in the global section"),
        (SectionCode::Export, ModuleError::ExportSection, "wrong content in the export section"),
        (SectionCode::Element, ModuleError::ElementSection, "wrong content in the element section"),
        (SectionCode::Custom, ModuleError::Preamble, "wrong content in the preamble"),
    ] {
        let found = translate_states(&module(section, foreign.clone()), &mut runtime).unwrap_err();
        assert_eq!(found, error);
        assert_eq!(found.message(), message);
    }
}

#[test]
fn globals_are_read_with_their_initializers() {
    let mut states = Vec::new();
    states.extend(global_entry(WasmType::I32, false, WasmOperator::I32Const { value: -7 }));
    states.extend(global_entry(WasmType::F64, true, WasmOperator::F64Const { value: Ieee64(9) }));
    states.extend(global_entry(WasmType::I64, false, WasmOperator::GetGlobal { global_index: 0 }));
    states.push(Record::EndSection);
    let (globals, end) = parse_global_section(&states, 0).ok().unwrap();
    assert_eq!(end, 16);
    assert_eq!(
        globals,
        vec![
            Global { ty: ValueType::I32, mutability: false, initializer: GlobalInit::I32Const(-7) },
            Global { ty: ValueType::F64, mutability: true, initializer: GlobalInit::F64Const(9) },
            Global { ty: ValueType::I64, mutability: false, initializer: GlobalInit::ImportRef(0) },
        ]
    );
    // An initializer that is no constant and no global.
    let mut states = global_entry(WasmType::I32, false, WasmOperator::Nop);
    states.push(Record::EndSection);
    assert!(parse_global_section(&states, 0).is_err());
    // An entry that is cut short.
    let mut states = global_entry(WasmType::I32, false, WasmOperator::I32Const { value: 0 });
    states.pop();
    states.push(Record::EndSection);
    assert!(parse_global_section(&states, 0).is_err());
}

#[test]
fn exports_of_functions_are_named() {
    let export = |name: &[u8], kind, index| Record::ExportSectionEntry {
        field: name.to_vec(),
        kind,
        index,
    };
    let states = vec![
        export(b"main", ExternalKind::Function, 3),
        export(b"memory", ExternalKind::Memory, 0),
        export(b"other", ExternalKind::Function, 1),
        export(b"again", ExternalKind::Function, 3),
        Record::EndSection,
    ];
    let (exports, end) = parse_export_section(&states, 0).ok().unwrap();
    assert_eq!(end, 5);
    assert_eq!(exports.len(), 2);
    assert_eq!(exports[&3], "again");
    assert_eq!(exports[&1], "other");
    let states = vec![export(&[0xff, 0xfe], ExternalKind::Function, 0), Record::EndSection];
    assert!(parse_export_section(&states, 0).is_err());
    let states = vec![export(&[0xff, 0xfe], ExternalKind::Table, 0), Record::EndSection];
    assert!(parse_export_section(&states, 0).is_ok());
}

#[test]
fn elements_are_read_with_their_offsets() {
    let globals = vec![
        Global { ty: ValueType::I32, mutability: false, initializer: GlobalInit::I32Const(6) },
        Global { ty: ValueType::I64, mutability: false, initializer: GlobalInit::I64Const(6) },
    ];
    let mut states = Vec::new();
    states.extend(elements_entry(0, WasmOperator::I32Const { value: 2 }, vec![5, 7]));
    states.extend(elements_entry(1, WasmOperator::GetGlobal { global_index: 0 }, vec![]));
    states.push(Record::EndSection);
    let (entries, end) = parse_elements_section(&states, 0, &globals).ok().unwrap();
    assert_eq!(end, 13);
    assert_eq!(entries.len(), 2);
    assert_eq!((entries[0].table_index, entries[0].offset), (0, 2));
    assert_eq!(entries[0].elements, vec![5, 7]);
    assert_eq!((entries[1].table_index, entries[1].offset), (1, 6));
    assert!(entries[1].elements.is_empty());
    for op in [
        WasmOperator::I32Const { value: -1 },
        WasmOperator::GetGlobal { global_index: 1 },
        WasmOperator::GetGlobal { global_index: 2 },
        WasmOperator::I64Const { value: 0 },
    ] {
        let mut states = elements_entry(0, op, vec![1]);
        states.push(Record::EndSection);
        assert!(parse_elements_section(&states, 0, &globals).is_err());
    }
}

fn with_code(mut states: Vec<Record>, body: Vec<Record>) -> Vec<Record> {
    states.push(Record::EndSection);
    states.push(Record::BeginSection { code: SectionCode::Type });
    states.push(func_type(WasmType::Func, vec![], vec![]));
    states.push(Record::EndSection);
    states.push(Record::BeginSection { code: SectionCode::Function });
    states.push(Record::FunctionSectionEntry(0));
    states.push(Record::EndSection);
    states.push(Record::BeginSection { code: SectionCode::Code });
    states.extend(body);
    states.push(Record::EndSection);
    states.push(Record::EndWasm);
    states
}

#[test]
fn runtime_that_cannot_take_the_declarations_stops_the_translation() {
    // Elements for which the table has no room.
    let mut states = module(
        SectionCode::Table,
        vec![Record::TableSectionEntry(TableType {
            element_type: WasmType::AnyFunc,
            limits: limits(1, None),
        })],
    );
    states.push(Record::EndSection);
    states.push(Record::BeginSection { code: SectionCode::Element });
    states.extend(elements_entry(0, WasmOperator::I32Const { value: 1 }, vec![0]));
    let states = with_code(states, vec![]);
    let mut runtime = StandaloneRuntime::new();
    assert_eq!(translate_states(&states, &mut runtime).unwrap_err(), ModuleError::ElementSection);
    // A global that takes its value from a global that does not exist.
    let states = with_code(
        module(
            SectionCode::Global,
            global_entry(WasmType::I32, false, WasmOperator::GetGlobal { global_index: 8 }),
        ),
        vec![],
    );
    let mut runtime = StandaloneRuntime::new();
    let error = translate_states(&states, &mut runtime).unwrap_err();
    assert_eq!(error, ModuleError::Runtime);
    assert_eq!(error.message(), "the runtime cannot take what the module declares");
    // A runtime that is already translating.
    let mut runtime = DummyRuntime::new();
    assert!(translate_states(&states, &mut runtime).is_ok());
    assert_eq!(translate_states(&states, &mut runtime).unwrap_err(), ModuleError::Runtime);
}

#[test]
fn code_section_holds_bodies_only() {
    let globals = module(SectionCode::Memory, vec![]);
    let body = vec![Record::BeginFunctionBody, Record::EndFunctionBody];
    let mut runtime = DummyRuntime::new();
    let error = translate_states(&with_code(globals.clone(), body), &mut runtime).unwrap_err();
    assert_eq!(error, ModuleError::CodeSection);
    assert_eq!(error.message(), "wrong content in code section");
    let mut runtime = DummyRuntime::new();
    let error =
        translate_states(&with_code(globals.clone(), vec![Record::Other]), &mut runtime).unwrap_err();
    assert_eq!(error, ModuleError::CodeSection);
    // More bodies than functions.
    let body = |ops: Vec<WasmOperator>| {
        let mut states = vec![
            Record::BeginFunctionBody,
            Record::FunctionBodyLocals { locals: vec![] },
        ];
        states.extend(ops.into_iter().map(Record::CodeOperator));
        states.push(Record::EndFunctionBody);
        states
    };
    let mut two = body(vec![WasmOperator::End]);
    two.extend(body(vec![WasmOperator::End]));
    let mut runtime = DummyRuntime::new();
    let error = translate_states(&with_code(globals.clone(), two), &mut runtime).unwrap_err();
    assert_eq!(error, ModuleError::UnknownSignature);
    assert_eq!(error.message(), "function of an unknown signature");
    // A body that is translated.
    let mut runtime = DummyRuntime::new();
    let result =
        translate_states(&with_code(globals, body(vec![WasmOperator::Nop, WasmOperator::End])), &mut runtime)
            .unwrap();
    assert_eq!(result.functions.len(), 1);
}
