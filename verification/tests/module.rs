use wasm2cretonne::module_translator::{parse_preamble, Declaration};
use wasm2cretonne::parser_state::{ExternalKind, FuncType, SectionCode};
use wasm2cretonne::runtime::standalone::TableElement;
use wasm2cretonne::{prepare_module, read_module, start_function, translate_code,
                    translate_module, translate_states, Command, DummyRuntime, Ebb, ErrorKind,
                    Function, FunctionImports, FunctionTranslation, StartError, Global, GlobalInit, Imm, Inst, InstHeader, Local,
                    Memory, ModuleError, Opcode, Record, Signature, StandaloneRuntime, Table,
                    TableElementType, Target, ValueType, Value, WasmOperator, WasmRuntime, WasmType};

/// A module with one exported function that adds its two arguments.
fn adder() -> Vec<u8> {
    vec![
        0x00, 0x61, 0x73, 0x6d, 0x01, 0x00, 0x00, 0x00, // header
        0x01, 0x07, 0x01, 0x60, 0x02, 0x7f, 0x7f, 0x01, 0x7f, // type: (i32, i32) -> i32
        0x03, 0x02, 0x01, 0x00, // function 0 has type 0
        0x07, 0x07, 0x01, 0x03, 0x61, 0x64, 0x64, 0x00, 0x00, // export "add"
        0x0a, 0x09, 0x01, 0x07, 0x00, 0x20, 0x00, 0x20, 0x01, 0x6a, 0x0b, // code
    ]
}

/// A module that imports a function and a global, and declares a function,
/// a table with an element, a memory, a global and a start function.
fn full() -> Vec<u8> {
    vec![
        0x00, 0x61, 0x73, 0x6d, 0x01, 0x00, 0x00, 0x00, // header
        0x01, 0x09, 0x02, 0x60, 0x00, 0x00, 0x60, 0x01, 0x7f, 0x01, 0x7f, // types
        0x02, 0x12, 0x02, // imports
        0x03, 0x65, 0x6e, 0x76, 0x01, 0x66, 0x00, 0x00, // env.f: function of type 0
        0x03, 0x65, 0x6e, 0x76, 0x01, 0x67, 0x03, 0x7f, 0x00, // env.g: global i32
        0x03, 0x02, 0x01, 0x01, // function 1 has type 1
        0x04, 0x04, 0x01, 0x70, 0x00, 0x02, // table of 2 functions
        0x05, 0x03, 0x01, 0x00, 0x01, // memory of 1 page
        0x06, 0x06, 0x01, 0x7f, 0x00, 0x41, 0x2a, 0x0b, // global i32 = 42
        0x08, 0x01, 0x01, // start function 1
        0x09, 0x07, 0x01, 0x00, 0x41, 0x00, 0x0b, 0x01, 0x01, // elements: table 0, offset 0: [1]
        0x0a, 0x0b, 0x01, 0x09, 0x01, 0x01, 0x7f, 0x20, 0x00, 0x23, 0x00, 0x6a, 0x0b, // code
    ]
}

fn plain(opcode: Opcode) -> InstHeader {
    InstHeader { opcode, ty: None, cond: None, imm: None, target: None }
}

fn iconst(value: i64) -> InstHeader {
    InstHeader {
        opcode: Opcode::Iconst,
        ty: Some(ValueType::I32),
        cond: None,
        imm: Some(Imm::Int(value)),
        target: None,
    }
}

fn ins(inst: usize, header: InstHeader, args: &[usize], result: Option<usize>) -> Command {
    Command::Ins {
        inst: Inst(inst),
        header,
        args: args.iter().map(|v| Value(*v)).collect(),
        result: result.map(Value),
    }
}

fn jump(inst: usize, ebb: usize, args: &[usize]) -> Command {
    let header = InstHeader {
        opcode: Opcode::Jump,
        ty: None,
        cond: None,
        imm: None,
        target: Some(Target::Ebb(Ebb(ebb))),
    };
    ins(inst, header, args, None)
}

#[test]
fn records_of_a_module_are_read_in_order() {
    let states = read_module(&adder());
    let expected = vec![
        Record::BeginWasm { version: 1 },
        Record::BeginSection { code: SectionCode::Type },
        Record::TypeSectionEntry(FuncType {
            form: WasmType::Func,
            params: vec![WasmType::I32, WasmType::I32],
            results: vec![WasmType::I32],
        }),
        Record::EndSection,
        Record::BeginSection { code: SectionCode::Function },
        Record::FunctionSectionEntry(0),
        Record::EndSection,
        Record::BeginSection { code: SectionCode::Export },
        Record::ExportSectionEntry {
            field: b"add".to_vec(),
            kind: ExternalKind::Function,
            index: 0,
        },
        Record::EndSection,
        Record::BeginSection { code: SectionCode::Code },
        Record::BeginFunctionBody,
        Record::FunctionBodyLocals { locals: vec![] },
        Record::CodeOperator(WasmOperator::GetLocal { local_index: 0 }),
        Record::CodeOperator(WasmOperator::GetLocal { local_index: 1 }),
        Record::CodeOperator(WasmOperator::I32Add),
        Record::CodeOperator(WasmOperator::End),
        Record::EndFunctionBody,
        Record::EndSection,
        Record::EndWasm,
    ];
    assert_eq!(states, expected);
}

#[test]
fn module_with_one_function_is_translated() {
    let mut runtime = DummyRuntime::new();
    let result = translate_module(&adder(), &mut runtime).unwrap();
    assert_eq!(result.start_index, None);
    assert_eq!(result.functions.len(), 1);
    match &result.functions[0] {
        FunctionTranslation::Code { il, imports } => {
            assert_eq!(il.name, "add");
            assert_eq!(
                il.signature,
                Signature {
                    argument_types: vec![ValueType::I32, ValueType::I32],
                    return_types: vec![ValueType::I32],
                }
            );
            assert_eq!(il.commands.len(), 18);
            assert_eq!(il.commands[13], ins(0, plain(Opcode::Iadd), &[3, 4], Some(5)));
            assert_eq!(il.commands[14], jump(1, 1, &[5]));
            assert_eq!(il.commands[17], ins(2, plain(Opcode::Return), &[2], None));
            assert!(imports.functions.is_empty());
            assert!(imports.signatures.is_empty());
        },
        FunctionTranslation::Import() => panic!("the function is not imported"),
    }
}

#[test]
fn sections_before_the_code_are_read() {
    let states = read_module(&full());
    let preamble = parse_preamble(&states).unwrap();
    assert_eq!(
        preamble.signatures,
        vec![
            Signature { argument_types: vec![], return_types: vec![] },
            Signature { argument_types: vec![ValueType::I32], return_types: vec![ValueType::I32] },
        ]
    );
    assert_eq!(preamble.functions, Some(vec![0, 1]));
    assert_eq!(preamble.function_imports_count, 1);
    let imported = Global { ty: ValueType::I32, mutability: false, initializer: GlobalInit::Import() };
    let declared =
        Global { ty: ValueType::I32, mutability: false, initializer: GlobalInit::I32Const(42) };
    assert_eq!(preamble.globals, vec![imported, declared]);
    assert_eq!(preamble.start_index, Some(1));
    assert!(preamble.exports.is_none());
    assert_eq!(preamble.declarations.len(), 5);
    assert!(matches!(preamble.declarations[0], Declaration::Global(g) if g == imported));
    assert!(matches!(
        preamble.declarations[1],
        Declaration::Table(t) if t == Table { ty: TableElementType::Func(), size: 2, maximum: None }
    ));
    assert!(matches!(
        preamble.declarations[2],
        Declaration::Memory(m) if m == Memory { pages_count: 1, maximum: None }
    ));
    assert!(matches!(preamble.declarations[3], Declaration::Global(g) if g == declared));
    match &preamble.declarations[4] {
        Declaration::Elements(entry) => {
            assert_eq!((entry.table_index, entry.offset), (0, 0));
            assert_eq!(entry.elements, vec![1]);
        },
        _ => panic!("the last declaration is that of the elements"),
    }
    assert!(matches!(states[preamble.code.unwrap()], Record::BeginFunctionBody));
}

#[test]
fn module_with_imports_is_translated_for_the_dummy_runtime() {
    let mut runtime = DummyRuntime::new();
    let result = translate_module(&full(), &mut runtime).unwrap();
    assert_eq!(result.start_index, Some(1));
    assert_eq!(result.functions.len(), 2);
    assert!(matches!(result.functions[0], FunctionTranslation::Import()));
    let il = match &result.functions[1] {
        FunctionTranslation::Code { il, .. } => il,
        FunctionTranslation::Import() => panic!("the second function is not imported"),
    };
    let expected = vec![
        Command::CreateEbb(Ebb(0)),
        Command::SwitchToBlock(Ebb(0)),
        Command::SealBlock(Ebb(0)),
        Command::AppendEbbArg { ebb: Ebb(0), ty: ValueType::I32, value: Value(0) },
        Command::DeclareVar { var: Local(0), ty: ValueType::I32 },
        Command::DefVar { var: Local(0), value: Value(0) },
        ins(0, iconst(0), &[], Some(1)),
        Command::DeclareVar { var: Local(1), ty: ValueType::I32 },
        Command::DefVar { var: Local(1), value: Value(1) },
        Command::CreateEbb(Ebb(1)),
        Command::AppendEbbArg { ebb: Ebb(1), ty: ValueType::I32, value: Value(2) },
        Command::UseVar { var: Local(0), value: Value(3) },
        ins(1, iconst(-1), &[], Some(4)),
        ins(2, plain(Opcode::Iadd), &[3, 4], Some(5)),
        jump(3, 1, &[5]),
        Command::SwitchToBlock(Ebb(1)),
        Command::SealBlock(Ebb(1)),
        ins(4, plain(Opcode::Return), &[2], None),
    ];
    assert_eq!(il.commands, expected);
}

#[test]
fn module_is_laid_out_by_the_standalone_runtime() {
    let mut runtime = StandaloneRuntime::new();
    let result = translate_module(&full(), &mut runtime).unwrap();
    assert_eq!(result.functions.len(), 2);
    assert!(runtime.is_ready());
    assert_eq!(runtime.globals_data(), &vec![0, 0, 0, 0, 42, 0, 0, 0]);
    assert_eq!(runtime.table(0).elements, vec![TableElement::Function(1), TableElement::Trap()]);
    assert_eq!(runtime.inspect_memory(0, 65535, 1), vec![0]);
}

#[test]
fn bytes_that_are_no_module_are_refused() {
    let mut runtime = DummyRuntime::new();
    let error = translate_module(&vec![1, 2, 3, 4, 5, 6, 7, 8], &mut runtime).unwrap_err();
    assert_eq!(error, "modules should begin properly");
    let states = read_module(&[]);
    assert_eq!(states.len(), 1);
    assert!(matches!(states[0], Record::Error { .. }));
    assert!(translate_module(&vec![], &mut runtime).is_err());
}

#[test]
fn module_without_code_has_no_functions() {
    let mut runtime = DummyRuntime::new();
    let data = adder()[..30].to_vec();
    let result = translate_module(&data, &mut runtime).unwrap();
    assert!(result.functions.is_empty());
    assert_eq!(result.start_index, None);
}

#[test]
fn code_without_functions_is_refused() {
    let mut data = adder()[..8].to_vec();
    data.extend_from_slice(&adder()[30..]);
    let mut runtime = DummyRuntime::new();
    let states = read_module(&data);
    assert_eq!(translate_states(&states, &mut runtime).unwrap_err(), ModuleError::MissingFunctionSection);
    let mut runtime = DummyRuntime::new();
    assert_eq!(translate_module(&data, &mut runtime).unwrap_err(), "missing a function section");
}

#[test]
fn section_with_foreign_content_is_named_in_the_error() {
    let states = vec![
        Record::BeginWasm { version: 1 },
        Record::BeginSection { code: SectionCode::Function },
        Record::FunctionSectionEntry(0),
        Record::StartSectionEntry(0),
        Record::EndSection,
        Record::EndWasm,
    ];
    let mut runtime = DummyRuntime::new();
    let error = translate_states(&states, &mut runtime).unwrap_err();
    assert_eq!(error, ModuleError::FunctionSection);
    assert_eq!(error.message(), "wrong content in the function section");
    let states = vec![Record::BeginWasm { version: 1 }, Record::Other];
    assert_eq!(translate_states(&states, &mut runtime).unwrap_err(), ModuleError::Preamble);
    let states = vec![
        Record::BeginWasm { version: 1 },
        Record::BeginSection { code: SectionCode::Start },
        Record::StartSectionEntry(0),
        Record::EndWasm,
    ];
    assert_eq!(translate_states(&states, &mut runtime).unwrap_err(), ModuleError::StartSection);
}

#[test]
fn function_body_with_a_foreign_record_is_malformed() {
    let states = vec![
        Record::BeginWasm { version: 1 },
        Record::BeginSection { code: SectionCode::Type },
        Record::TypeSectionEntry(FuncType { form: WasmType::Func, params: vec![], results: vec![] }),
        Record::EndSection,
        Record::BeginSection { code: SectionCode::Function },
        Record::FunctionSectionEntry(0),
        Record::EndSection,
        Record::BeginSection { code: SectionCode::Code },
        Record::BeginFunctionBody,
        Record::FunctionBodyLocals { locals: vec![] },
        Record::CodeOperator(WasmOperator::Nop),
        Record::Other,
        Record::EndFunctionBody,
        Record::EndSection,
        Record::EndWasm,
    ];
    let mut runtime = DummyRuntime::new();
    let error = translate_states(&states, &mut runtime).unwrap_err();
    assert_eq!(
        error,
        ModuleError::Function { kind: ErrorKind::MalformedStream, location: Some(1) }
    );
    assert_eq!(error.message(), "wrong content in function body");
}

#[test]
fn function_of_an_undeclared_signature_is_refused() {
    let states = vec![
        Record::BeginWasm { version: 1 },
        Record::BeginSection { code: SectionCode::Function },
        Record::FunctionSectionEntry(3),
        Record::EndSection,
        Record::BeginSection { code: SectionCode::Code },
        Record::EndSection,
    ];
    let mut runtime = DummyRuntime::new();
    assert_eq!(translate_states(&states, &mut runtime).unwrap_err(), ModuleError::UnknownSignature);
}

#[test]
fn module_without_code_hands_its_declarations_to_the_runtime() {
    // A module whose only section declares one memory of one page.
    let data = vec![0, 97, 115, 109, 1, 0, 0, 0, 5, 3, 1, 0, 1];
    let mut runtime = StandaloneRuntime::new();
    let result = translate_module(&data, &mut runtime).unwrap();
    assert!(result.functions.is_empty());
    assert_eq!(result.start_index, None);
    assert_eq!(runtime.num_memories(), 1);
    assert_eq!(runtime.memory_size(0), 65536);
    // The runtime was not told to lay anything out.
    assert!(!runtime.is_ready());
}

#[test]
fn empty_module_asks_nothing_of_a_runtime_in_use() {
    let mut runtime = StandaloneRuntime::new();
    runtime.begin_translation();
    assert!(runtime.is_ready());
    let data = vec![0, 97, 115, 109, 1, 0, 0, 0];
    let result = translate_module(&data, &mut runtime).unwrap();
    assert!(result.functions.is_empty());
    // A module that declares something is refused by such a runtime.
    let data = vec![0, 97, 115, 109, 1, 0, 0, 0, 5, 3, 1, 0, 1];
    assert_eq!(
        translate_states(&read_module(&data), &mut runtime).unwrap_err(),
        ModuleError::Runtime
    );
    assert_eq!(runtime.num_memories(), 0);
}

#[test]
fn translation_in_two_steps_is_the_translation() {
    let states = read_module(&full());
    let mut runtime = StandaloneRuntime::new();
    let whole = translate_states(&states, &mut runtime).unwrap();
    let mut stepwise = StandaloneRuntime::new();
    let preamble = prepare_module(&states, &mut stepwise).ok().unwrap();
    assert!(stepwise.is_ready());
    assert_eq!(stepwise.globals_data(), runtime.globals_data());
    let result = translate_code(&states, &preamble, &mut stepwise).unwrap();
    assert_eq!(result.start_index, whole.start_index);
    assert_eq!(result.functions.len(), whole.functions.len());
    for (one, other) in result.functions.iter().zip(whole.functions.iter()) {
        match (one, other) {
            (FunctionTranslation::Import(), FunctionTranslation::Import()) => {},
            (
                FunctionTranslation::Code { il: a, .. },
                FunctionTranslation::Code { il: b, .. },
            ) => assert_eq!(a.commands, b.commands),
            _ => panic!("the translations differ"),
        }
    }
}

#[test]
fn start_function_is_a_translated_function() {
    let code = || FunctionTranslation::Code {
        il: Function {
            name: String::new(),
            signature: Signature { argument_types: vec![], return_types: vec![] },
            commands: vec![],
        },
        imports: FunctionImports::new(),
    };
    let functions = vec![FunctionTranslation::Import(), code()];
    assert_eq!(start_function(&functions, Some(1)), Ok(1));
    assert_eq!(start_function(&functions, None), Err(StartError::NoStart));
    assert_eq!(start_function(&functions, Some(0)), Err(StartError::Import));
    assert_eq!(start_function(&functions, Some(2)), Err(StartError::Import));
}

#[test]
fn locals_of_a_body_are_read_with_their_types() {
    // One function without arguments or results that declares two locals
    // of 64 bits.
    let data = vec![
        0, 97, 115, 109, 1, 0, 0, 0, // the beginning of a module
        1, 4, 1, 0x60, 0, 0, // the type section
        3, 2, 1, 0, // the function section
        10, 6, 1, 4, 1, 2, 0x7e, 0x0b, // the code section
    ];
    let states = read_module(&data);
    let locals: Vec<&Record> =
        states.iter().filter(|state| matches!(state, Record::FunctionBodyLocals { .. })).collect();
    assert_eq!(locals, vec![&Record::FunctionBodyLocals { locals: vec![(2, WasmType::I64)] }]);
    assert_eq!(states.last(), Some(&Record::EndWasm));
    let mut runtime = DummyRuntime::new();
    let result = translate_module(&data, &mut runtime).unwrap();
    assert_eq!(result.functions.len(), 1);
}
