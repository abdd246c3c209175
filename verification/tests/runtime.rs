use std::collections::HashMap;

use wasm2cretonne::code_translator::translate_function_body;
use wasm2cretonne::runtime::standalone::TableElement;
use wasm2cretonne::{get_name, invert_hashmaps, return_values_types, try_get_name, type_to_type,
                    f32_translation, f64_translation, Command, Cond, Ebb, FuncRef, FunctionBuilder,
                    FunctionImports, Global, GlobalInit, Imm, Inst, InstHeader, IntCC, Memory,
                    ModuleContext, Opcode, WasmOperator, SigRef, Signature, StandaloneRuntime, Table,
                    TableElementType, Target, ValueType, Value, WasmRuntime, WasmType};
use wasm2cretonne::translation_utils::{Ieee32, Ieee64};

fn global(ty: ValueType, initializer: GlobalInit) -> Global {
    Global { ty, mutability: true, initializer }
}

fn header(opcode: Opcode, ty: Option<ValueType>, imm: Option<Imm>) -> InstHeader {
    InstHeader { opcode, ty, cond: None, imm, target: None }
}

fn ins(inst: usize, header: InstHeader, args: &[usize], result: Option<usize>) -> Command {
    Command::Ins {
        inst: Inst(inst),
        header,
        args: args.iter().map(|v| Value(*v)).collect(),
        result: result.map(Value),
    }
}

/// A builder that stands in an open block and has one value.
fn open_builder() -> FunctionBuilder {
    let mut builder = FunctionBuilder::new();
    let entry = builder.create_ebb();
    builder.switch_to_block(entry);
    builder.seal_block(entry);
    builder.append_ebb_arg(entry, ValueType::I32);
    builder
}

#[test]
fn globals_are_laid_out_in_the_order_of_their_declarations() {
    let mut runtime = StandaloneRuntime::new();
    runtime.declare_global(global(ValueType::I32, GlobalInit::I32Const(1)));
    runtime.declare_global(global(ValueType::I64, GlobalInit::I64Const(-2)));
    runtime.declare_global(global(ValueType::F32, GlobalInit::F32Const(0x3f80_0000)));
    runtime.declare_global(global(ValueType::F64, GlobalInit::F64Const(0x4000_0000_0000_0000)));
    runtime.declare_global(global(ValueType::I32, GlobalInit::ImportRef(0)));
    runtime.declare_global(global(ValueType::I32, GlobalInit::Import()));
    assert!(!runtime.is_ready());
    runtime.begin_translation();
    assert!(runtime.is_ready());
    let offsets: Vec<usize> = (0..runtime.num_globals()).map(|i| runtime.global_info(i).offset).collect();
    assert_eq!(offsets, vec![0, 4, 12, 16, 24, 28]);
    let expected: Vec<u8> = vec![
        1, 0, 0, 0, // 1
        0xfe, 0xff, 0xff, 0xff, 0xff, 0xff, 0xff, 0xff, // -2
        0x00, 0x00, 0x80, 0x3f, // 1.0
        0, 0, 0, 0, 0, 0, 0, 0x40, // 2.0
        1, 0, 0, 0, // the value of global 0
        0, 0, 0, 0, // imported: not written
    ];
    assert_eq!(runtime.globals_data(), &expected);
}

#[test]
fn initializer_that_refers_to_no_global_leaves_the_runtime_unready() {
    let mut runtime = StandaloneRuntime::new();
    runtime.declare_global(global(ValueType::I32, GlobalInit::ImportRef(3)));
    runtime.begin_translation();
    assert!(!runtime.is_ready());
}

#[test]
fn initializer_wider_than_the_area_leaves_the_runtime_unready() {
    let mut runtime = StandaloneRuntime::new();
    runtime.declare_global(global(ValueType::I32, GlobalInit::I64Const(7)));
    runtime.begin_translation();
    assert!(!runtime.is_ready());
}

#[test]
fn global_is_read_at_its_offset_from_the_area() {
    let mut runtime = StandaloneRuntime::new();
    runtime.declare_global(global(ValueType::I32, GlobalInit::I32Const(1)));
    runtime.declare_global(global(ValueType::F64, GlobalInit::F64Const(0)));
    runtime.begin_translation();
    runtime.set_addresses(0x1000, 0x2000);
    let mut builder = open_builder();
    assert!(runtime.knows_global(1));
    assert!(!runtime.knows_global(2));
    let value = runtime.translate_get_global(&mut builder, 1);
    assert_eq!(value, Value(2));
    runtime.translate_set_global(&mut builder, 0, value);
    let commands = builder.into_commands();
    assert_eq!(
        commands[4..].to_vec(),
        vec![
            ins(0, header(Opcode::Iconst, Some(ValueType::I64), Some(Imm::Int(0x1000))), &[], Some(1)),
            ins(1, header(Opcode::Load, Some(ValueType::F64), Some(Imm::Offset(4))), &[1], Some(2)),
            ins(2, header(Opcode::Iconst, Some(ValueType::I64), Some(Imm::Int(0x1000))), &[], Some(3)),
            ins(3, header(Opcode::Store, None, Some(Imm::Offset(0))), &[2, 3], None),
        ]
    );
}

#[test]
fn memory_functions_are_imported_once_for_each_function() {
    let mut runtime = StandaloneRuntime::new();
    runtime.begin_translation();
    let mut builder = open_builder();
    let call = |func: usize| InstHeader {
        opcode: Opcode::Call,
        ty: None,
        cond: None,
        imm: None,
        target: Some(Target::Func(FuncRef(func))),
    };
    let size = runtime.translate_current_memory(&mut builder);
    let grown = runtime.translate_grow_memory(&mut builder, size);
    let again = runtime.translate_grow_memory(&mut builder, grown);
    assert_eq!((size, grown, again), (Value(1), Value(2), Value(3)));
    let commands = builder.into_commands();
    assert_eq!(
        commands[4..].to_vec(),
        vec![
            Command::ImportSignature {
                sigref: SigRef(0),
                signature: Signature { argument_types: vec![], return_types: vec![ValueType::I32] },
            },
            Command::ImportFunction {
                funcref: FuncRef(0),
                name: String::from("current_memory"),
                sigref: SigRef(0),
            },
            ins(0, call(0), &[], None),
            Command::InstResult { inst: Inst(0), index: 0, value: Value(1) },
            Command::ImportSignature {
                sigref: SigRef(1),
                signature: Signature {
                    argument_types: vec![ValueType::I32],
                    return_types: vec![ValueType::I32],
                },
            },
            Command::ImportFunction {
                funcref: FuncRef(1),
                name: String::from("grow_memory"),
                sigref: SigRef(1),
            },
            ins(1, call(1), &[1], None),
            Command::InstResult { inst: Inst(1), index: 0, value: Value(2) },
            ins(2, call(1), &[2], None),
            Command::InstResult { inst: Inst(2), index: 0, value: Value(3) },
        ]
    );
    // For the next function the imports are made anew.
    runtime.next_function();
    let mut builder = open_builder();
    runtime.translate_grow_memory(&mut builder, Value(0));
    let commands = builder.into_commands();
    assert!(matches!(commands[4], Command::ImportSignature { .. }));
}

#[test]
fn indirect_call_checks_the_index_and_loads_the_function() {
    let mut runtime = StandaloneRuntime::new();
    runtime.declare_table(Table { ty: TableElementType::Func(), size: 8, maximum: None });
    assert!(runtime.supports_call_indirect());
    runtime.begin_translation();
    runtime.set_addresses(0x1000, 0x2000);
    let mut builder = open_builder();
    let sigref = builder.import_signature(Signature {
        argument_types: vec![ValueType::I32],
        return_types: vec![ValueType::I32],
    });
    let results = runtime.translate_call_indirect(&mut builder, sigref, Value(0), vec![Value(0)], 1);
    assert_eq!(results, vec![Value(7)]);
    let guard = |cc: IntCC| InstHeader {
        opcode: Opcode::BrIntCompare,
        ty: None,
        cond: Some(Cond::Int(cc)),
        imm: None,
        target: Some(Target::Ebb(Ebb(1))),
    };
    let jump = InstHeader {
        opcode: Opcode::Jump,
        ty: None,
        cond: None,
        imm: None,
        target: Some(Target::Ebb(Ebb(2))),
    };
    let call = InstHeader {
        opcode: Opcode::CallIndirect,
        ty: None,
        cond: None,
        imm: None,
        target: Some(Target::Sig(SigRef(0))),
    };
    let commands = builder.into_commands();
    assert_eq!(
        commands[5..].to_vec(),
        vec![
            Command::CreateEbb(Ebb(1)),
            Command::CreateEbb(Ebb(2)),
            ins(0, header(Opcode::Iconst, Some(ValueType::I32), Some(Imm::Int(8))), &[], Some(1)),
            ins(1, header(Opcode::Iconst, Some(ValueType::I32), Some(Imm::Int(0))), &[], Some(2)),
            ins(2, guard(IntCC::UnsignedLessThan), &[0, 2], None),
            ins(3, guard(IntCC::UnsignedGreaterThanOrEqual), &[0, 1], None),
            Command::SealBlock(Ebb(1)),
            ins(4, header(Opcode::ImulImm, None, Some(Imm::Int(4))), &[0], Some(3)),
            ins(5, header(Opcode::Iconst, Some(ValueType::I32), Some(Imm::Int(0x2000))), &[], Some(4)),
            ins(6, header(Opcode::Iadd, None, None), &[4, 3], Some(5)),
            ins(7, header(Opcode::Load, Some(ValueType::I32), Some(Imm::Offset(0))), &[5], Some(6)),
            ins(8, call, &[6, 0], None),
            ins(9, jump, &[], None),
            Command::SealBlock(Ebb(2)),
            Command::SwitchToBlock(Ebb(1)),
            ins(10, header(Opcode::Trap, None, None), &[], None),
            Command::SwitchToBlock(Ebb(2)),
            Command::InstResult { inst: Inst(8), index: 0, value: Value(7) },
        ]
    );
}

#[test]
fn runtime_without_a_table_takes_no_indirect_call() {
    let signature = Signature { argument_types: vec![], return_types: vec![] };
    let signatures = vec![signature.clone()];
    let functions = vec![0usize];
    let exports = None;
    let module = ModuleContext { signatures: &signatures, functions: &functions, exports: &exports };
    let mut runtime = StandaloneRuntime::new();
    runtime.begin_translation();
    let ops = vec![
        WasmOperator::I32Const { value: 0 },
        WasmOperator::CallIndirect { index: 0, table_index: 0 },
        WasmOperator::End,
    ];
    let error =
        translate_function_body(&ops, 0, &signature, &vec![], &module, &mut runtime).unwrap_err();
    assert_eq!(error.location, Some(1));
}

#[test]
fn table_elements_are_functions_where_declared_and_traps_elsewhere() {
    let mut runtime = StandaloneRuntime::new();
    runtime.declare_table(Table { ty: TableElementType::Func(), size: 4, maximum: Some(4) });
    assert!(runtime.table_takes_elements(0, 1, 2));
    assert!(runtime.table_takes_elements(0, 2, 2));
    assert!(!runtime.table_takes_elements(0, 3, 2));
    assert!(!runtime.table_takes_elements(1, 0, 0));
    runtime.declare_table_elements(0, 1, &vec![7, 9]);
    assert_eq!(
        runtime.table(0).elements,
        vec![
            TableElement::Trap(),
            TableElement::Function(7),
            TableElement::Function(9),
            TableElement::Trap(),
        ]
    );
    runtime.begin_translation();
    assert_eq!(runtime.table(0).addresses, vec![0u32; 4]);
}

#[test]
fn data_is_written_into_a_declared_memory() {
    let mut runtime = StandaloneRuntime::new();
    runtime.declare_memory(Memory { pages_count: 1, maximum: None });
    assert_eq!(runtime.num_memories(), 1);
    assert!(runtime.declare_data_initialization(0, 65534, &vec![1, 2]).is_ok());
    assert_eq!(runtime.inspect_memory(0, 65533, 3), vec![0, 1, 2]);
    assert!(runtime.declare_data_initialization(0, 65535, &vec![1, 2]).is_err());
    assert!(runtime.declare_data_initialization(1, 0, &vec![]).is_err());
    assert_eq!(runtime.inspect_memory(0, 65533, 3), vec![0, 1, 2]);
}

#[test]
fn imports_are_inverted() {
    let mut imports = FunctionImports::new();
    imports.functions.insert(5, FuncRef(0));
    imports.functions.insert(2, FuncRef(1));
    imports.signatures.insert(3, SigRef(0));
    let mappings = invert_hashmaps(imports);
    let mut functions = HashMap::new();
    functions.insert(0usize, 5usize);
    functions.insert(1usize, 2usize);
    let mut signatures = HashMap::new();
    signatures.insert(0usize, 3usize);
    assert_eq!(mappings.functions, functions);
    assert_eq!(mappings.signatures, signatures);
}

#[test]
fn names_are_utf8() {
    assert_eq!(get_name(b"main"), "main");
    assert_eq!(get_name("m\u{e9}moire".as_bytes()), "m\u{e9}moire");
    assert_eq!(try_get_name(b"main"), Some("main"));
    assert_eq!(try_get_name(&[0x66, 0xff]), None);
}

#[test]
fn value_types_are_converted_and_other_types_are_not() {
    assert_eq!(type_to_type(&WasmType::I32), Ok(ValueType::I32));
    assert_eq!(type_to_type(&WasmType::I64), Ok(ValueType::I64));
    assert_eq!(type_to_type(&WasmType::F32), Ok(ValueType::F32));
    assert_eq!(type_to_type(&WasmType::F64), Ok(ValueType::F64));
    assert_eq!(type_to_type(&WasmType::AnyFunc), Err(()));
    assert_eq!(type_to_type(&WasmType::Func), Err(()));
    assert_eq!(type_to_type(&WasmType::EmptyBlockType), Err(()));
    assert_eq!(return_values_types(WasmType::EmptyBlockType), Ok(vec![]));
    assert_eq!(return_values_types(WasmType::F32), Ok(vec![ValueType::F32]));
    assert_eq!(return_values_types(WasmType::I64), Ok(vec![ValueType::I64]));
    assert_eq!(return_values_types(WasmType::Func), Err(()));
    assert_eq!(f32_translation(Ieee32(0x4048_f5c3)).0, 0x4048_f5c3);
    assert_eq!(f64_translation(Ieee64(0x4009_1eb8_51eb_851f)).0, 0x4009_1eb8_51eb_851f);
}
