use wasm2cretonne::{lower, BrTable, Command, Cond, DummyRuntime, Ebb, ErrorKind, FloatCC,
                    FuncTranslator, Imm, InstHeader, IntCC, Lowering, MemoryImmediate,
                    ModuleContext, Opcode, Signature, TranslationError, ValueType, WasmOperator,
                    WasmRuntime, WasmType};
use wasm2cretonne::translation_utils::{Ieee32, Ieee64};

fn skeleton() -> Vec<WasmOperator> {
    let empty = WasmType::EmptyBlockType;
    vec![
        WasmOperator::Block { ty: WasmType::I32 },
        WasmOperator::GetLocal { local_index: 0 },
        WasmOperator::Loop { ty: empty },
        WasmOperator::GetLocal { local_index: 0 },
        WasmOperator::If { ty: WasmType::I32 },
        WasmOperator::I32Const { value: 1 },
        WasmOperator::Br { relative_depth: 2 },
        WasmOperator::Block { ty: empty },
        WasmOperator::Unreachable,
        WasmOperator::End,
        WasmOperator::Else,
        WasmOperator::I32Const { value: 5 },
        WasmOperator::GetLocal { local_index: 0 },
        WasmOperator::BrTable { table: BrTable { targets: vec![1, 0, 1], default: 2 } },
        WasmOperator::I32Const { value: 2 },
        WasmOperator::End,
        WasmOperator::Drop,
        WasmOperator::Br { relative_depth: 0 },
        WasmOperator::End,
        WasmOperator::Unreachable,
        WasmOperator::End,
    ]
}

/// Checks that the steps can be replayed: that no block gets an instruction
/// after its terminator, that a block is left only when it is filled or
/// untouched, and that no branch is redirected twice. Returns the blocks
/// that a terminator closed.
fn replay(commands: &[Command]) -> Vec<bool> {
    let mut filled: Vec<bool> = Vec::new();
    let mut redirected: Vec<bool> = Vec::new();
    let mut position: Option<usize> = None;
    let mut pristine = true;
    for command in commands {
        match command {
            Command::ChangeJumpDestination { inst, .. } => {
                assert!(!redirected[inst.0]);
                redirected[inst.0] = true;
            }
            Command::CreateEbb(Ebb(n)) => {
                assert_eq!(*n, filled.len());
                filled.push(false);
            }
            Command::SwitchToBlock(Ebb(n)) => {
                assert!(!filled[*n]);
                assert!(position.map_or(true, |p| pristine || filled[p]));
                position = Some(*n);
                pristine = true;
            }
            Command::Ins { inst, header, .. } => {
                assert_eq!(inst.0, redirected.len());
                redirected.push(false);
                let p = position.unwrap();
                assert!(!filled[p]);
                pristine = false;
                if header.opcode.is_terminator() {
                    filled[p] = true;
                }
            }
            _ => {}
        }
    }
    filled
}

#[test]
fn invariants_hold_between_any_two_operators() {
    let signature = Signature { argument_types: vec![ValueType::I32], return_types: vec![ValueType::I32] };
    let signatures = vec![signature.clone()];
    let functions = vec![0usize];
    let exports = None;
    let module = ModuleContext { signatures: &signatures, functions: &functions, exports: &exports };
    let mut runtime = DummyRuntime::new();
    runtime.begin_translation();
    let mut translator = FuncTranslator::new(&signature, &vec![]).unwrap();
    for op in skeleton() {
        assert!(translator.accepts(&op, &runtime, &module), "{:?}", op);
        translator.translate_operator(&op, &mut runtime, &module);
        // The operand stack is at least as high as the innermost frame found it.
        let top = translator.control_stack.last().unwrap();
        assert!(translator.stack.len() >= top.original_stack_size());
        // The current block is open where code is reachable.
        if translator.is_reachable() {
            assert!(!translator.builder.is_filled());
        } else {
            assert!(translator.builder.is_filled() || translator.builder.is_pristine());
        }
        // The header of every open loop is unsealed.
        for frame in translator.control_stack.iter() {
            if frame.is_loop() {
                assert!(!translator.builder.is_sealed(frame.br_destination()));
            }
            assert!(!translator.builder.is_sealed(frame.following_code()));
        }
        replay(translator.builder.commands());
    }
    assert!(translator.can_finish());
    let commands = translator.finish().into_commands();
    let filled = replay(&commands);
    // Every block that exists is closed by exactly one terminator, but for
    // the blocks that the builder never came to.
    let entered: Vec<usize> = commands
        .iter()
        .filter_map(|c| match c {
            Command::SwitchToBlock(Ebb(n)) => Some(*n),
            _ => None,
        })
        .collect();
    for n in entered {
        assert!(filled[n]);
    }
}

#[test]
fn loop_header_is_sealed_by_the_end_of_the_loop_only() {
    let signature = Signature { argument_types: vec![], return_types: vec![] };
    let signatures = vec![signature.clone()];
    let functions = vec![0usize];
    let exports = None;
    let module = ModuleContext { signatures: &signatures, functions: &functions, exports: &exports };
    let mut runtime = DummyRuntime::new();
    let mut translator = FuncTranslator::new(&signature, &vec![]).unwrap();
    let ops = vec![
        WasmOperator::Loop { ty: WasmType::EmptyBlockType },
        WasmOperator::I32Const { value: 0 },
        WasmOperator::BrIf { relative_depth: 0 },
        WasmOperator::Return,
        WasmOperator::Nop,
    ];
    for op in ops {
        assert!(translator.accepts(&op, &runtime, &module));
        translator.translate_operator(&op, &mut runtime, &module);
        assert!(!translator.builder.is_sealed(Ebb(2)));
    }
    // The end is met in unreachable code and seals the header all the same.
    assert!(!translator.is_reachable());
    translator.translate_operator(&WasmOperator::End, &mut runtime, &module);
    assert!(translator.builder.is_sealed(Ebb(2)));
    assert!(translator.builder.is_sealed(Ebb(3)));
    assert!(translator.is_reachable());
}

#[test]
fn state_refuses_what_it_cannot_take() {
    let signature = Signature { argument_types: vec![], return_types: vec![] };
    let signatures = vec![signature.clone()];
    let functions = vec![0usize];
    let exports = None;
    let module = ModuleContext { signatures: &signatures, functions: &functions, exports: &exports };
    let runtime = DummyRuntime::new();
    let translator = FuncTranslator::new(&signature, &vec![(2, WasmType::F64)]).unwrap();
    let refused = vec![
        WasmOperator::GetLocal { local_index: 2 },
        WasmOperator::Drop,
        WasmOperator::Select,
        WasmOperator::Else,
        WasmOperator::End,
        WasmOperator::Br { relative_depth: 1 },
        WasmOperator::BrTable { table: BrTable { targets: vec![0, 1], default: 0 } },
        WasmOperator::Call { function_index: 1 },
        WasmOperator::CallIndirect { index: 0, table_index: 0 },
        WasmOperator::Block { ty: WasmType::Func },
        WasmOperator::GetGlobal { global_index: 0 },
        WasmOperator::CurrentMemory { reserved: 0 },
        WasmOperator::F64Neg,
    ];
    for op in refused {
        assert!(!translator.accepts(&op, &runtime, &module), "{:?}", op);
    }
    let taken = vec![
        WasmOperator::GetLocal { local_index: 1 },
        WasmOperator::Nop,
        WasmOperator::Unreachable,
        WasmOperator::Return,
        WasmOperator::Br { relative_depth: 0 },
        WasmOperator::Call { function_index: 0 },
        WasmOperator::Loop { ty: WasmType::F32 },
        WasmOperator::F64Const { value: Ieee64(0) },
    ];
    for op in taken {
        assert!(translator.accepts(&op, &runtime, &module), "{:?}", op);
    }
}

fn compute(opcode: Opcode, ty: Option<ValueType>, cond: Option<Cond>, imm: Option<Imm>) -> InstHeader {
    InstHeader { opcode, ty, cond, imm, target: None }
}

#[test]
fn operators_are_lowered_as_their_width_and_sign_say() {
    let memarg = MemoryImmediate { flags: 2, offset: 16 };
    let widen = compute(Opcode::Bint, Some(ValueType::I32), None, None);
    let cases = vec![
        (
            WasmOperator::I32Load16U { memarg },
            Lowering::Compute {
                header: compute(Opcode::Uload16, Some(ValueType::I32), None, Some(Imm::Offset(16))),
                arity: 1,
                widen: None,
            },
        ),
        (
            WasmOperator::I32Load16S { memarg },
            Lowering::Compute {
                header: compute(Opcode::Sload16, Some(ValueType::I32), None, Some(Imm::Offset(16))),
                arity: 1,
                widen: None,
            },
        ),
        (
            WasmOperator::I64Load32U { memarg },
            Lowering::Compute {
                header: compute(Opcode::Uload32, None, None, Some(Imm::Offset(16))),
                arity: 1,
                widen: None,
            },
        ),
        (
            WasmOperator::F32Load { memarg },
            Lowering::Compute {
                header: compute(Opcode::Load, Some(ValueType::F32), None, Some(Imm::Offset(16))),
                arity: 1,
                widen: None,
            },
        ),
        (
            WasmOperator::I64Store16 { memarg },
            Lowering::Store { header: compute(Opcode::Istore16, None, None, Some(Imm::Offset(16))) },
        ),
        (
            WasmOperator::F64Store { memarg },
            Lowering::Store { header: compute(Opcode::Store, None, None, Some(Imm::Offset(16))) },
        ),
        (
            WasmOperator::I32DivS,
            Lowering::Compute { header: compute(Opcode::Sdiv, None, None, None), arity: 2, widen: None },
        ),
        (
            WasmOperator::I64DivU,
            Lowering::Compute { header: compute(Opcode::Udiv, None, None, None), arity: 2, widen: None },
        ),
        (
            WasmOperator::I64GeU,
            Lowering::Compute {
                header: compute(
                    Opcode::IntCompare,
                    None,
                    Some(Cond::Int(IntCC::UnsignedGreaterThanOrEqual)),
                    None,
                ),
                arity: 2,
                widen: Some(widen),
            },
        ),
        (
            WasmOperator::F32Le,
            Lowering::Compute {
                header: compute(Opcode::FloatCompare, None, Some(Cond::Float(FloatCC::LessThanOrEqual)), None),
                arity: 2,
                widen: Some(widen),
            },
        ),
        (
            WasmOperator::I64Eqz,
            Lowering::Compute {
                header: compute(
                    Opcode::IntCompareImm,
                    None,
                    Some(Cond::Int(IntCC::Equal)),
                    Some(Imm::Int(0)),
                ),
                arity: 1,
                widen: Some(widen),
            },
        ),
        (
            WasmOperator::I64Popcnt,
            Lowering::Compute {
                header: compute(Opcode::Popcnt, None, None, None),
                arity: 1,
                widen: Some(compute(Opcode::Sextend, Some(ValueType::I64), None, None)),
            },
        ),
        (
            WasmOperator::I64ExtendUI32,
            Lowering::Compute {
                header: compute(Opcode::Uextend, Some(ValueType::I64), None, None),
                arity: 1,
                widen: None,
            },
        ),
        (
            WasmOperator::I32TruncUF64,
            Lowering::Compute {
                header: compute(Opcode::FcvtToUint, Some(ValueType::I32), None, None),
                arity: 1,
                widen: None,
            },
        ),
        (
            WasmOperator::F32ReinterpretI32,
            Lowering::Compute {
                header: compute(Opcode::Bitcast, Some(ValueType::F32), None, None),
                arity: 1,
                widen: None,
            },
        ),
        (
            WasmOperator::I32Const { value: -5 },
            Lowering::Compute {
                header: compute(Opcode::Iconst, Some(ValueType::I32), None, Some(Imm::Int(-5))),
                arity: 0,
                widen: None,
            },
        ),
        (
            WasmOperator::F32Const { value: Ieee32(0x7fc0_0000) },
            Lowering::Compute {
                header: compute(Opcode::F32const, None, None, Some(Imm::Ieee32(0x7fc0_0000))),
                arity: 0,
                widen: None,
            },
        ),
        (
            WasmOperator::F64Copysign,
            Lowering::Compute { header: compute(Opcode::Fcopysign, None, None, None), arity: 2, widen: None },
        ),
    ];
    for (op, expected) in cases {
        assert_eq!(lower(&op), Some(expected), "{:?}", op);
    }
    for op in [WasmOperator::Nop, WasmOperator::End, WasmOperator::Select, WasmOperator::Return] {
        assert_eq!(lower(&op), None);
    }
    assert_eq!(lower(&WasmOperator::I32Load { memarg: MemoryImmediate { flags: 0, offset: u32::MAX } }),
        Some(Lowering::Compute {
            header: compute(Opcode::Load, Some(ValueType::I32), None, Some(Imm::Offset(-1))),
            arity: 1,
            widen: None,
        }));
}

#[test]
fn select_and_store_take_their_operands_in_the_order_of_the_instruction() {
    let signature = Signature {
        argument_types: vec![ValueType::I32, ValueType::I32, ValueType::I32],
        return_types: vec![],
    };
    let signatures = vec![signature.clone()];
    let functions = vec![0usize];
    let exports = None;
    let module = ModuleContext { signatures: &signatures, functions: &functions, exports: &exports };
    let mut runtime = DummyRuntime::new();
    let mut translator = FuncTranslator::new(&signature, &vec![]).unwrap();
    let ops = vec![
        WasmOperator::GetLocal { local_index: 0 },
        WasmOperator::GetLocal { local_index: 1 },
        WasmOperator::GetLocal { local_index: 2 },
        WasmOperator::Select,
        WasmOperator::GetLocal { local_index: 1 },
        WasmOperator::I32Store { memarg: MemoryImmediate { flags: 0, offset: 8 } },
    ];
    for op in ops {
        translator.translate_operator(&op, &mut runtime, &module);
    }
    let commands = translator.builder.commands();
    let n = commands.len();
    // select: the condition, the value kept if it is not zero, the other one.
    match &commands[n - 3] {
        Command::Ins { header, args, result, .. } => {
            assert_eq!(header.opcode, Opcode::Select);
            assert_eq!(args.iter().map(|v| v.0).collect::<Vec<_>>(), vec![5, 3, 4]);
            assert_eq!(result.map(|v| v.0), Some(6));
        }
        other => panic!("{:?}", other),
    }
    // store: the value, then the address.
    match &commands[n - 1] {
        Command::Ins { header, args, result, .. } => {
            assert_eq!(header.opcode, Opcode::Store);
            assert_eq!(args.iter().map(|v| v.0).collect::<Vec<_>>(), vec![7, 6]);
            assert_eq!(*result, None);
        }
        other => panic!("{:?}", other),
    }
    assert!(translator.stack.is_empty());
}

#[test]
fn memory_operators_leave_the_result_of_the_runtime_on_the_stack() {
    let signature = Signature { argument_types: vec![], return_types: vec![] };
    let signatures = vec![signature.clone()];
    let functions = vec![0usize];
    let exports = None;
    let module = ModuleContext { signatures: &signatures, functions: &functions, exports: &exports };
    let mut runtime = DummyRuntime::new();
    let mut translator = FuncTranslator::new(&signature, &vec![]).unwrap();
    assert!(!translator.accepts(&WasmOperator::CurrentMemory { reserved: 0 }, &runtime, &module));
    runtime.begin_translation();
    for op in [WasmOperator::CurrentMemory { reserved: 0 }, WasmOperator::GrowMemory { reserved: 0 }] {
        assert!(translator.accepts(&op, &runtime, &module));
        translator.translate_operator(&op, &mut runtime, &module);
        assert_eq!(translator.stack.len(), 1);
    }
    assert_eq!(translator.stack[0].0, 1);
}

#[test]
fn errors_carry_the_message_of_their_kind() {
    let error = TranslationError::new(ErrorKind::VerifierRejection, Some(3));
    assert_eq!(error.kind, ErrorKind::VerifierRejection);
    assert_eq!(error.location, Some(3));
    assert_eq!(error.message, "the translated function is ill-formed");
    assert_eq!(ErrorKind::MalformedStream.message(), "wrong content in function body");
    assert_eq!(ErrorKind::UnsupportedLocalType.message(), "unsupported type for local variable");
}

#[test]
fn else_is_taken_once_by_an_if() {
    let signature = Signature { argument_types: vec![], return_types: vec![] };
    let signatures = vec![signature.clone()];
    let functions = vec![0usize];
    let exports = None;
    let module = ModuleContext { signatures: &signatures, functions: &functions, exports: &exports };
    let mut runtime = DummyRuntime::new();
    runtime.begin_translation();
    let mut translator = FuncTranslator::new(&signature, &vec![]).unwrap();
    assert!(!translator.takes_else());
    translator.translate_operator(&WasmOperator::I32Const { value: 1 }, &mut runtime, &module);
    translator.translate_operator(
        &WasmOperator::If { ty: WasmType::EmptyBlockType },
        &mut runtime,
        &module,
    );
    assert!(translator.takes_else());
    let frames = translator.control_stack.clone();
    translator.translate_operator(&WasmOperator::Else, &mut runtime, &module);
    // The frame is that of the `if` as before, and its branch is spent.
    assert_eq!(translator.control_stack, frames);
    assert!(translator.control_stack.last().unwrap().is_if());
    assert!(!translator.takes_else());
    assert!(!translator.accepts(&WasmOperator::Else, &runtime, &module));
    assert!(translator.accepts(&WasmOperator::End, &runtime, &module));
}

#[test]
fn builder_knows_the_blocks_that_a_branch_goes_to() {
    let mut builder = wasm2cretonne::FunctionBuilder::new();
    let entry = builder.create_ebb();
    let exit = builder.create_ebb();
    let other = builder.create_ebb();
    builder.switch_to_block(entry);
    assert!(!builder.is_targeted(exit));
    let table = builder.create_jump_table();
    builder.insert_jump_table_entry(table, 0, other);
    assert!(builder.is_targeted(other));
    builder.ins(InstHeader::branch(Opcode::Jump, exit), vec![]);
    assert!(builder.is_targeted(exit));
    assert!(!builder.is_targeted(entry));
}
