use std::collections::HashMap;

use wasm2cretonne::code_translator::translate_function_body;
use wasm2cretonne::{BrTable, Command, DummyRuntime, Ebb, ErrorKind, FuncRef, Function,
                    FunctionImports, Global, GlobalInit, Imm, Inst, InstHeader, IntCC, Cond,
                    JumpTable, Local, ModuleContext, Opcode, WasmOperator, SigRef, Signature, Target,
                    TranslationError, ValueType, Value, WasmRuntime, WasmType};

fn sig(args: &[ValueType], rets: &[ValueType]) -> Signature {
    Signature { argument_types: args.to_vec(), return_types: rets.to_vec() }
}

fn translate_with(
    ops: Vec<WasmOperator>,
    signature: &Signature,
    locals: Vec<(u32, WasmType)>,
    signatures: Vec<Signature>,
    functions: Vec<usize>,
    exports: Option<HashMap<usize, String>>,
) -> Result<(Function, FunctionImports), TranslationError> {
    let module = ModuleContext { signatures: &signatures, functions: &functions, exports: &exports };
    let mut runtime = DummyRuntime::new();
    translate_function_body(&ops, 0, signature, &locals, &module, &mut runtime)
}

fn translate(ops: Vec<WasmOperator>, signature: &Signature, locals: Vec<(u32, WasmType)>) -> Vec<Command> {
    let (func, _imports) =
        translate_with(ops, signature, locals, vec![signature.clone()], vec![0], None).unwrap();
    func.commands
}

fn plain(opcode: Opcode) -> InstHeader {
    InstHeader { opcode, ty: None, cond: None, imm: None, target: None }
}

fn branch(opcode: Opcode, ebb: usize) -> InstHeader {
    InstHeader { opcode, ty: None, cond: None, imm: None, target: Some(Target::Ebb(Ebb(ebb))) }
}

fn iconst(ty: ValueType, value: i64) -> InstHeader {
    InstHeader { opcode: Opcode::Iconst, ty: Some(ty), cond: None, imm: Some(Imm::Int(value)), target: None }
}

fn bint() -> InstHeader {
    InstHeader { opcode: Opcode::Bint, ty: Some(ValueType::I32), cond: None, imm: None, target: None }
}

fn ins(inst: usize, header: InstHeader, args: &[usize], result: Option<usize>) -> Command {
    Command::Ins {
        inst: Inst(inst),
        header,
        args: args.iter().map(|v| Value(*v)).collect(),
        result: result.map(Value),
    }
}

fn param(ebb: usize, ty: ValueType, value: usize) -> Command {
    Command::AppendEbbArg { ebb: Ebb(ebb), ty, value: Value(value) }
}

/// The prologue of a function without arguments or locals that returns
/// values of the given types: entry block 0, exit block 1.
fn prologue(rets: &[ValueType]) -> Vec<Command> {
    let mut commands = vec![
        Command::CreateEbb(Ebb(0)),
        Command::SwitchToBlock(Ebb(0)),
        Command::SealBlock(Ebb(0)),
        Command::CreateEbb(Ebb(1)),
    ];
    for (i, ty) in rets.iter().enumerate() {
        commands.push(param(1, *ty, i));
    }
    commands
}

/// The instructions of a list of commands.
fn opcodes(commands: &[Command]) -> Vec<Opcode> {
    commands
        .iter()
        .filter_map(|c| match c {
            Command::Ins { header, .. } => Some(header.opcode),
            _ => None,
        })
        .collect()
}

#[test]
fn adds_two_arguments() {
    let signature = sig(&[ValueType::I32, ValueType::I32], &[ValueType::I32]);
    let commands = translate(
        vec![
            WasmOperator::GetLocal { local_index: 0 },
            WasmOperator::GetLocal { local_index: 1 },
            WasmOperator::I32Add,
            WasmOperator::End,
        ],
        &signature,
        vec![],
    );
    let expected = vec![
        Command::CreateEbb(Ebb(0)),
        Command::SwitchToBlock(Ebb(0)),
        Command::SealBlock(Ebb(0)),
        param(0, ValueType::I32, 0),
        Command::DeclareVar { var: Local(0), ty: ValueType::I32 },
        Command::DefVar { var: Local(0), value: Value(0) },
        param(0, ValueType::I32, 1),
        Command::DeclareVar { var: Local(1), ty: ValueType::I32 },
        Command::DefVar { var: Local(1), value: Value(1) },
        Command::CreateEbb(Ebb(1)),
        param(1, ValueType::I32, 2),
        Command::UseVar { var: Local(0), value: Value(3) },
        Command::UseVar { var: Local(1), value: Value(4) },
        ins(0, plain(Opcode::Iadd), &[3, 4], Some(5)),
        ins(1, branch(Opcode::Jump, 1), &[5], None),
        Command::SwitchToBlock(Ebb(1)),
        Command::SealBlock(Ebb(1)),
        ins(2, plain(Opcode::Return), &[2], None),
    ];
    assert_eq!(commands, expected);
}

#[test]
fn the_end_of_the_body_may_be_left_out() {
    let signature = sig(&[ValueType::I32, ValueType::I32], &[ValueType::I32]);
    let with_end = translate(
        vec![
            WasmOperator::GetLocal { local_index: 0 },
            WasmOperator::GetLocal { local_index: 1 },
            WasmOperator::I32Add,
            WasmOperator::End,
        ],
        &signature,
        vec![],
    );
    let without_end = translate(
        vec![
            WasmOperator::GetLocal { local_index: 0 },
            WasmOperator::GetLocal { local_index: 1 },
            WasmOperator::I32Add,
        ],
        &signature,
        vec![],
    );
    assert_eq!(with_end, without_end);
}

#[test]
fn if_with_else_yields_the_value_of_the_taken_arm() {
    let signature = sig(&[], &[ValueType::I32]);
    let commands = translate(
        vec![
            WasmOperator::I32Const { value: 0 },
            WasmOperator::If { ty: WasmType::I32 },
            WasmOperator::I32Const { value: 7 },
            WasmOperator::Else,
            WasmOperator::I32Const { value: 9 },
            WasmOperator::End,
            WasmOperator::End,
        ],
        &signature,
        vec![(1, WasmType::I32)],
    );
    let expected = vec![
        Command::CreateEbb(Ebb(0)),
        Command::SwitchToBlock(Ebb(0)),
        Command::SealBlock(Ebb(0)),
        // The local is zero.
        ins(0, iconst(ValueType::I32, 0), &[], Some(0)),
        Command::DeclareVar { var: Local(0), ty: ValueType::I32 },
        Command::DefVar { var: Local(0), value: Value(0) },
        Command::CreateEbb(Ebb(1)),
        param(1, ValueType::I32, 1),
        // The condition, and the branch that skips the true arm.
        ins(1, iconst(ValueType::I32, 0), &[], Some(2)),
        Command::CreateEbb(Ebb(2)),
        ins(2, branch(Opcode::Brz, 2), &[2], None),
        param(2, ValueType::I32, 3),
        // The true arm yields 7 to the block after the `if`.
        ins(3, iconst(ValueType::I32, 7), &[], Some(4)),
        ins(4, branch(Opcode::Jump, 2), &[4], None),
        // The false arm is a block of its own, to which the branch now goes.
        Command::CreateEbb(Ebb(3)),
        Command::ChangeJumpDestination { inst: Inst(2), ebb: Ebb(3) },
        Command::SealBlock(Ebb(3)),
        Command::SwitchToBlock(Ebb(3)),
        ins(5, iconst(ValueType::I32, 9), &[], Some(5)),
        ins(6, branch(Opcode::Jump, 2), &[5], None),
        Command::SwitchToBlock(Ebb(2)),
        Command::SealBlock(Ebb(2)),
        // The parameter of the block after the `if` is the function's result.
        ins(7, branch(Opcode::Jump, 1), &[3], None),
        Command::SwitchToBlock(Ebb(1)),
        Command::SealBlock(Ebb(1)),
        ins(8, plain(Opcode::Return), &[1], None),
    ];
    assert_eq!(commands, expected);
}

#[test]
fn br_if_carries_the_block_result_and_keeps_it_on_the_stack() {
    let signature = sig(&[ValueType::I32], &[ValueType::I32]);
    let commands = translate(
        vec![
            WasmOperator::Block { ty: WasmType::I32 },
            WasmOperator::GetLocal { local_index: 0 },
            WasmOperator::GetLocal { local_index: 0 },
            WasmOperator::I32Const { value: 0 },
            WasmOperator::I32Eq,
            WasmOperator::BrIf { relative_depth: 0 },
            WasmOperator::Drop,
            WasmOperator::I32Const { value: 1 },
            WasmOperator::Return,
            WasmOperator::End,
            WasmOperator::End,
        ],
        &signature,
        vec![],
    );
    let eq = InstHeader {
        opcode: Opcode::IntCompare,
        ty: None,
        cond: Some(Cond::Int(IntCC::Equal)),
        imm: None,
        target: None,
    };
    let expected = vec![
        Command::CreateEbb(Ebb(0)),
        Command::SwitchToBlock(Ebb(0)),
        Command::SealBlock(Ebb(0)),
        param(0, ValueType::I32, 0),
        Command::DeclareVar { var: Local(0), ty: ValueType::I32 },
        Command::DefVar { var: Local(0), value: Value(0) },
        Command::CreateEbb(Ebb(1)),
        param(1, ValueType::I32, 1),
        // block i32
        Command::CreateEbb(Ebb(2)),
        param(2, ValueType::I32, 2),
        Command::UseVar { var: Local(0), value: Value(3) },
        Command::UseVar { var: Local(0), value: Value(4) },
        ins(0, iconst(ValueType::I32, 0), &[], Some(5)),
        ins(1, eq, &[4, 5], Some(6)),
        ins(2, bint(), &[6], Some(7)),
        // The branch carries the running value, which stays on the stack.
        ins(3, branch(Opcode::Brnz, 2), &[7, 3], None),
        ins(4, iconst(ValueType::I32, 1), &[], Some(8)),
        ins(5, plain(Opcode::Return), &[8], None),
        // The end of the block is unreachable: no jump is emitted for it.
        Command::SwitchToBlock(Ebb(2)),
        Command::SealBlock(Ebb(2)),
        ins(6, branch(Opcode::Jump, 1), &[2], None),
        Command::SwitchToBlock(Ebb(1)),
        Command::SealBlock(Ebb(1)),
        ins(7, plain(Opcode::Return), &[1], None),
    ];
    assert_eq!(commands, expected);
}

#[test]
fn loop_with_back_edge_seals_its_header_at_its_end() {
    let signature = sig(&[], &[ValueType::I32]);
    let commands = translate(
        vec![
            WasmOperator::Loop { ty: WasmType::EmptyBlockType },
            WasmOperator::Br { relative_depth: 0 },
            WasmOperator::End,
            WasmOperator::I32Const { value: 0 },
            WasmOperator::End,
        ],
        &signature,
        vec![],
    );
    let mut expected = prologue(&[ValueType::I32]);
    expected.extend(vec![
        // The header is block 2, the block after the loop is block 3.
        Command::CreateEbb(Ebb(2)),
        Command::CreateEbb(Ebb(3)),
        ins(0, branch(Opcode::Jump, 2), &[], None),
        Command::SwitchToBlock(Ebb(2)),
        // The back edge carries nothing.
        ins(1, branch(Opcode::Jump, 2), &[], None),
        // The end of the loop: the header is sealed only now.
        Command::SwitchToBlock(Ebb(3)),
        Command::SealBlock(Ebb(3)),
        Command::SealBlock(Ebb(2)),
        ins(2, iconst(ValueType::I32, 0), &[], Some(1)),
        ins(3, branch(Opcode::Jump, 1), &[1], None),
        Command::SwitchToBlock(Ebb(1)),
        Command::SealBlock(Ebb(1)),
        ins(4, plain(Opcode::Return), &[0], None),
    ]);
    assert_eq!(commands, expected);
    let sealed_header = commands.iter().position(|c| *c == Command::SealBlock(Ebb(2))).unwrap();
    let back_edge =
        commands.iter().position(|c| *c == ins(1, branch(Opcode::Jump, 2), &[], None)).unwrap();
    assert!(back_edge < sealed_header);
}

#[test]
fn br_table_without_values_goes_straight_to_the_destinations() {
    let signature = sig(&[ValueType::I32], &[ValueType::I32]);
    let empty = WasmType::EmptyBlockType;
    let commands = translate(
        vec![
            WasmOperator::Block { ty: empty },
            WasmOperator::Block { ty: empty },
            WasmOperator::Block { ty: empty },
            WasmOperator::GetLocal { local_index: 0 },
            WasmOperator::BrTable { table: BrTable { targets: vec![0, 1], default: 2 } },
            WasmOperator::End,
            WasmOperator::I32Const { value: 10 },
            WasmOperator::Return,
            WasmOperator::End,
            WasmOperator::I32Const { value: 20 },
            WasmOperator::Return,
            WasmOperator::End,
            WasmOperator::I32Const { value: 30 },
            WasmOperator::End,
        ],
        &signature,
        vec![],
    );
    let table = InstHeader {
        opcode: Opcode::BrTable,
        ty: None,
        cond: None,
        imm: None,
        target: Some(Target::Table(JumpTable(0))),
    };
    let expected = vec![
        Command::CreateEbb(Ebb(0)),
        Command::SwitchToBlock(Ebb(0)),
        Command::SealBlock(Ebb(0)),
        param(0, ValueType::I32, 0),
        Command::DeclareVar { var: Local(0), ty: ValueType::I32 },
        Command::DefVar { var: Local(0), value: Value(0) },
        Command::CreateEbb(Ebb(1)),
        param(1, ValueType::I32, 1),
        // The three blocks end in the blocks 2, 3 and 4, outermost first.
        Command::CreateEbb(Ebb(2)),
        Command::CreateEbb(Ebb(3)),
        Command::CreateEbb(Ebb(4)),
        Command::UseVar { var: Local(0), value: Value(2) },
        Command::CreateJumpTable(JumpTable(0)),
        Command::InsertJumpTableEntry { table: JumpTable(0), index: 0, ebb: Ebb(4) },
        Command::InsertJumpTableEntry { table: JumpTable(0), index: 1, ebb: Ebb(3) },
        ins(0, table, &[2], None),
        ins(1, branch(Opcode::Jump, 2), &[], None),
        // After the innermost block: 10.
        Command::SwitchToBlock(Ebb(4)),
        Command::SealBlock(Ebb(4)),
        ins(2, iconst(ValueType::I32, 10), &[], Some(3)),
        ins(3, plain(Opcode::Return), &[3], None),
        // After the middle block: 20.
        Command::SwitchToBlock(Ebb(3)),
        Command::SealBlock(Ebb(3)),
        ins(4, iconst(ValueType::I32, 20), &[], Some(4)),
        ins(5, plain(Opcode::Return), &[4], None),
        // After the outermost block: 30, which is the function's result.
        Command::SwitchToBlock(Ebb(2)),
        Command::SealBlock(Ebb(2)),
        ins(6, iconst(ValueType::I32, 30), &[], Some(5)),
        ins(7, branch(Opcode::Jump, 1), &[5], None),
        Command::SwitchToBlock(Ebb(1)),
        Command::SealBlock(Ebb(1)),
        ins(8, plain(Opcode::Return), &[1], None),
    ];
    assert_eq!(commands, expected);
    // No trampoline was made: the function has its five blocks only.
    let blocks = commands.iter().filter(|c| matches!(c, Command::CreateEbb(_))).count();
    assert_eq!(blocks, 5);
}

#[test]
fn br_table_with_values_goes_through_trampolines() {
    let signature = sig(&[ValueType::I32], &[ValueType::I32]);
    let commands = translate(
        vec![
            WasmOperator::Block { ty: WasmType::I32 },
            WasmOperator::Block { ty: WasmType::I32 },
            WasmOperator::I32Const { value: 5 },
            WasmOperator::GetLocal { local_index: 0 },
            WasmOperator::BrTable { table: BrTable { targets: vec![0, 1, 0], default: 1 } },
            WasmOperator::End,
            WasmOperator::End,
            WasmOperator::End,
        ],
        &signature,
        vec![],
    );
    let table = InstHeader {
        opcode: Opcode::BrTable,
        ty: None,
        cond: None,
        imm: None,
        target: Some(Target::Table(JumpTable(0))),
    };
    let expected = vec![
        Command::CreateEbb(Ebb(0)),
        Command::SwitchToBlock(Ebb(0)),
        Command::SealBlock(Ebb(0)),
        param(0, ValueType::I32, 0),
        Command::DeclareVar { var: Local(0), ty: ValueType::I32 },
        Command::DefVar { var: Local(0), value: Value(0) },
        Command::CreateEbb(Ebb(1)),
        param(1, ValueType::I32, 1),
        Command::CreateEbb(Ebb(2)),
        param(2, ValueType::I32, 2),
        Command::CreateEbb(Ebb(3)),
        param(3, ValueType::I32, 3),
        ins(0, iconst(ValueType::I32, 5), &[], Some(4)),
        Command::UseVar { var: Local(0), value: Value(5) },
        // One trampoline for each depth, made where the depth is first met.
        Command::CreateJumpTable(JumpTable(0)),
        Command::CreateEbb(Ebb(4)),
        Command::InsertJumpTableEntry { table: JumpTable(0), index: 0, ebb: Ebb(4) },
        Command::CreateEbb(Ebb(5)),
        Command::InsertJumpTableEntry { table: JumpTable(0), index: 1, ebb: Ebb(5) },
        Command::InsertJumpTableEntry { table: JumpTable(0), index: 2, ebb: Ebb(4) },
        ins(1, table, &[5], None),
        // The default carries the value itself.
        ins(2, branch(Opcode::Jump, 2), &[4], None),
        Command::SwitchToBlock(Ebb(4)),
        Command::SealBlock(Ebb(4)),
        ins(3, branch(Opcode::Jump, 3), &[4], None),
        Command::SwitchToBlock(Ebb(5)),
        Command::SealBlock(Ebb(5)),
        ins(4, branch(Opcode::Jump, 2), &[4], None),
        // The ends of the two blocks and of the body pass the results on.
        Command::SwitchToBlock(Ebb(3)),
        Command::SealBlock(Ebb(3)),
        ins(5, branch(Opcode::Jump, 2), &[3], None),
        Command::SwitchToBlock(Ebb(2)),
        Command::SealBlock(Ebb(2)),
        ins(6, branch(Opcode::Jump, 1), &[2], None),
        Command::SwitchToBlock(Ebb(1)),
        Command::SealBlock(Ebb(1)),
        ins(7, plain(Opcode::Return), &[1], None),
    ];
    assert_eq!(commands, expected);
}

#[test]
fn call_imports_the_function_once() {
    let callee = sig(&[ValueType::I32, ValueType::I32], &[ValueType::I32]);
    let signature = sig(&[], &[ValueType::I32]);
    let mut exports = HashMap::new();
    exports.insert(0usize, String::from("add"));
    let (func, imports) = translate_with(
        vec![
            WasmOperator::I32Const { value: 3 },
            WasmOperator::I32Const { value: 4 },
            WasmOperator::Call { function_index: 0 },
            WasmOperator::I32Const { value: 1 },
            WasmOperator::Call { function_index: 0 },
            WasmOperator::End,
        ],
        &signature,
        vec![],
        vec![callee.clone(), signature.clone()],
        vec![0, 1],
        Some(exports),
    )
    .unwrap();
    let call = InstHeader {
        opcode: Opcode::Call,
        ty: None,
        cond: None,
        imm: None,
        target: Some(Target::Func(FuncRef(0))),
    };
    let mut expected = prologue(&[ValueType::I32]);
    expected.extend(vec![
        ins(0, iconst(ValueType::I32, 3), &[], Some(1)),
        ins(1, iconst(ValueType::I32, 4), &[], Some(2)),
        Command::ImportSignature { sigref: SigRef(0), signature: callee },
        Command::ImportFunction { funcref: FuncRef(0), name: String::from("add"), sigref: SigRef(0) },
        ins(2, call, &[1, 2], None),
        Command::InstResult { inst: Inst(2), index: 0, value: Value(3) },
        ins(3, iconst(ValueType::I32, 1), &[], Some(4)),
        // The second call uses the handle of the first.
        ins(4, call, &[3, 4], None),
        Command::InstResult { inst: Inst(4), index: 0, value: Value(5) },
        ins(5, branch(Opcode::Jump, 1), &[5], None),
        Command::SwitchToBlock(Ebb(1)),
        Command::SealBlock(Ebb(1)),
        ins(6, plain(Opcode::Return), &[0], None),
    ]);
    assert_eq!(func.commands, expected);
    assert_eq!(func.name, "add");
    assert_eq!(func.signature, signature);
    assert_eq!(imports.functions.len(), 1);
    assert_eq!(imports.functions[&0], FuncRef(0));
    assert_eq!(imports.signatures.len(), 1);
    assert_eq!(imports.signatures[&0], SigRef(0));
}

#[test]
fn empty_body_of_a_void_function_returns_nothing() {
    let signature = sig(&[], &[]);
    let commands = translate(vec![WasmOperator::End], &signature, vec![]);
    let mut expected = prologue(&[]);
    expected.extend(vec![
        ins(0, branch(Opcode::Jump, 1), &[], None),
        Command::SwitchToBlock(Ebb(1)),
        Command::SealBlock(Ebb(1)),
        ins(1, plain(Opcode::Return), &[], None),
    ]);
    assert_eq!(commands, expected);
    assert_eq!(translate(vec![], &signature, vec![]), expected);
}

#[test]
fn empty_body_of_a_function_with_a_result_is_refused() {
    let signature = sig(&[], &[ValueType::I32]);
    let error =
        translate_with(vec![WasmOperator::End], &signature, vec![], vec![signature.clone()], vec![0], None)
            .unwrap_err();
    assert_eq!(error.kind, ErrorKind::MalformedStream);
    assert_eq!(error.location, Some(0));
    assert_eq!(error.message, "wrong content in function body");
}

#[test]
fn return_as_last_operator_adds_no_second_terminator() {
    let signature = sig(&[], &[ValueType::I32]);
    let commands = translate(
        vec![WasmOperator::I32Const { value: 1 }, WasmOperator::Return, WasmOperator::End],
        &signature,
        vec![],
    );
    let mut expected = prologue(&[ValueType::I32]);
    expected.extend(vec![
        ins(0, iconst(ValueType::I32, 1), &[], Some(1)),
        ins(1, plain(Opcode::Return), &[1], None),
        Command::SwitchToBlock(Ebb(1)),
        Command::SealBlock(Ebb(1)),
    ]);
    assert_eq!(commands, expected);
    assert_eq!(opcodes(&commands), vec![Opcode::Iconst, Opcode::Return]);
}

#[test]
fn return_after_a_branch_to_the_end_keeps_the_return_of_the_exit() {
    // The branch makes the exit block reachable, so that block has to
    // return its parameter although the last operator is a return.
    let signature = sig(&[], &[ValueType::I32]);
    let commands = translate(
        vec![
            WasmOperator::I32Const { value: 1 },
            WasmOperator::I32Const { value: 0 },
            WasmOperator::BrIf { relative_depth: 0 },
            WasmOperator::Return,
            WasmOperator::End,
        ],
        &signature,
        vec![],
    );
    let mut expected = prologue(&[ValueType::I32]);
    expected.extend(vec![
        ins(0, iconst(ValueType::I32, 1), &[], Some(1)),
        ins(1, iconst(ValueType::I32, 0), &[], Some(2)),
        ins(2, branch(Opcode::Brnz, 1), &[2, 1], None),
        ins(3, plain(Opcode::Return), &[1], None),
        Command::SwitchToBlock(Ebb(1)),
        Command::SealBlock(Ebb(1)),
        ins(4, plain(Opcode::Return), &[0], None),
    ]);
    assert_eq!(commands, expected);
}

#[test]
fn else_keeps_the_frame_of_its_if() {
    // The true arm jumps to the block after the `if`, so the code after the
    // `end` is reachable although the false arm branches away.
    let signature = sig(&[], &[]);
    let commands = translate(
        vec![
            WasmOperator::Block { ty: WasmType::EmptyBlockType },
            WasmOperator::I32Const { value: 1 },
            WasmOperator::If { ty: WasmType::EmptyBlockType },
            WasmOperator::Nop,
            WasmOperator::Else,
            WasmOperator::Br { relative_depth: 1 },
            WasmOperator::End,
            WasmOperator::I32Const { value: 5 },
            WasmOperator::Drop,
            WasmOperator::End,
            WasmOperator::End,
        ],
        &signature,
        vec![],
    );
    let mut expected = prologue(&[]);
    expected.extend(vec![
        // block: its exit is block 2; if: its exit is block 3.
        Command::CreateEbb(Ebb(2)),
        ins(0, iconst(ValueType::I32, 1), &[], Some(0)),
        Command::CreateEbb(Ebb(3)),
        ins(1, branch(Opcode::Brz, 3), &[0], None),
        // else: the true arm jumps to the exit of the if, and the branch
        // goes to the false arm, block 4.
        ins(2, branch(Opcode::Jump, 3), &[], None),
        Command::CreateEbb(Ebb(4)),
        Command::ChangeJumpDestination { inst: Inst(1), ebb: Ebb(4) },
        Command::SealBlock(Ebb(4)),
        Command::SwitchToBlock(Ebb(4)),
        ins(3, branch(Opcode::Jump, 2), &[], None),
        // end of the if, met in unreachable code.
        Command::SwitchToBlock(Ebb(3)),
        Command::SealBlock(Ebb(3)),
        ins(4, iconst(ValueType::I32, 5), &[], Some(1)),
        ins(5, branch(Opcode::Jump, 2), &[], None),
        Command::SwitchToBlock(Ebb(2)),
        Command::SealBlock(Ebb(2)),
        ins(6, branch(Opcode::Jump, 1), &[], None),
        Command::SwitchToBlock(Ebb(1)),
        Command::SealBlock(Ebb(1)),
        ins(7, plain(Opcode::Return), &[], None),
    ]);
    assert_eq!(commands, expected);
}

#[test]
fn second_else_of_an_if_is_refused() {
    let signature = sig(&[], &[]);
    let error = translate_with(
        vec![
            WasmOperator::I32Const { value: 1 },
            WasmOperator::If { ty: WasmType::EmptyBlockType },
            WasmOperator::Else,
            WasmOperator::Else,
            WasmOperator::End,
            WasmOperator::End,
        ],
        &signature,
        vec![],
        vec![signature.clone()],
        vec![0],
        None,
    )
        .unwrap_err();
    assert_eq!(error.kind, ErrorKind::MalformedStream);
    assert_eq!(error.location, Some(3));
}

#[test]
fn unreachable_body_traps_and_keeps_a_return_path() {
    let signature = sig(&[], &[ValueType::I32]);
    let commands = translate(vec![WasmOperator::Unreachable, WasmOperator::End], &signature, vec![]);
    let mut expected = prologue(&[ValueType::I32]);
    expected.extend(vec![
        ins(0, plain(Opcode::Trap), &[], None),
        Command::SwitchToBlock(Ebb(1)),
        Command::SealBlock(Ebb(1)),
        ins(1, plain(Opcode::Return), &[0], None),
    ]);
    assert_eq!(commands, expected);
}

#[test]
fn unreachable_code_is_tracked_but_not_emitted() {
    let signature = sig(&[], &[]);
    let commands = translate(
        vec![
            WasmOperator::Block { ty: WasmType::EmptyBlockType },
            WasmOperator::Br { relative_depth: 0 },
            // All of this is unreachable.
            WasmOperator::I32Const { value: 1 },
            WasmOperator::If { ty: WasmType::EmptyBlockType },
            WasmOperator::Nop,
            WasmOperator::Else,
            WasmOperator::Loop { ty: WasmType::EmptyBlockType },
            WasmOperator::End,
            WasmOperator::End,
            WasmOperator::Drop,
            // The end of the real block: code is reachable again.
            WasmOperator::End,
            WasmOperator::Nop,
            WasmOperator::End,
        ],
        &signature,
        vec![],
    );
    let mut expected = prologue(&[]);
    expected.extend(vec![
        Command::CreateEbb(Ebb(2)),
        ins(0, branch(Opcode::Jump, 2), &[], None),
        Command::SwitchToBlock(Ebb(2)),
        Command::SealBlock(Ebb(2)),
        ins(1, branch(Opcode::Jump, 1), &[], None),
        Command::SwitchToBlock(Ebb(1)),
        Command::SealBlock(Ebb(1)),
        ins(2, plain(Opcode::Return), &[], None),
    ]);
    assert_eq!(commands, expected);
}

#[test]
fn else_met_in_unreachable_code_begins_a_reachable_arm() {
    let signature = sig(&[ValueType::I32], &[]);
    let commands = translate(
        vec![
            WasmOperator::GetLocal { local_index: 0 },
            WasmOperator::If { ty: WasmType::EmptyBlockType },
            WasmOperator::Return,
            WasmOperator::Else,
            WasmOperator::Nop,
            WasmOperator::End,
            WasmOperator::End,
        ],
        &signature,
        vec![],
    );
    let expected = vec![
        Command::CreateEbb(Ebb(0)),
        Command::SwitchToBlock(Ebb(0)),
        Command::SealBlock(Ebb(0)),
        param(0, ValueType::I32, 0),
        Command::DeclareVar { var: Local(0), ty: ValueType::I32 },
        Command::DefVar { var: Local(0), value: Value(0) },
        Command::CreateEbb(Ebb(1)),
        Command::UseVar { var: Local(0), value: Value(1) },
        Command::CreateEbb(Ebb(2)),
        ins(0, branch(Opcode::Brz, 2), &[1], None),
        ins(1, plain(Opcode::Return), &[], None),
        Command::CreateEbb(Ebb(3)),
        Command::ChangeJumpDestination { inst: Inst(0), ebb: Ebb(3) },
        Command::SealBlock(Ebb(3)),
        Command::SwitchToBlock(Ebb(3)),
        ins(2, branch(Opcode::Jump, 2), &[], None),
        Command::SwitchToBlock(Ebb(2)),
        Command::SealBlock(Ebb(2)),
        ins(3, branch(Opcode::Jump, 1), &[], None),
        Command::SwitchToBlock(Ebb(1)),
        Command::SealBlock(Ebb(1)),
        ins(4, plain(Opcode::Return), &[], None),
    ];
    assert_eq!(commands, expected);
}

#[test]
fn if_without_else_is_reachable_after_its_end() {
    let signature = sig(&[ValueType::I32], &[]);
    let commands = translate(
        vec![
            WasmOperator::GetLocal { local_index: 0 },
            WasmOperator::If { ty: WasmType::EmptyBlockType },
            WasmOperator::Unreachable,
            WasmOperator::End,
            WasmOperator::Nop,
            WasmOperator::End,
        ],
        &signature,
        vec![],
    );
    // The branch of the `if` still goes to the block after it.
    assert!(commands.contains(&ins(0, branch(Opcode::Brz, 2), &[1], None)));
    assert!(!commands.iter().any(|c| matches!(c, Command::ChangeJumpDestination { .. })));
    assert_eq!(
        opcodes(&commands),
        vec![Opcode::Brz, Opcode::Trap, Opcode::Jump, Opcode::Return]
    );
}

#[test]
fn translating_twice_gives_the_same_function() {
    let signature = sig(&[ValueType::I32], &[ValueType::I32]);
    let body = || {
        vec![
            WasmOperator::Block { ty: WasmType::I32 },
            WasmOperator::GetLocal { local_index: 0 },
            WasmOperator::GetLocal { local_index: 0 },
            WasmOperator::I32Eqz,
            WasmOperator::BrIf { relative_depth: 0 },
            WasmOperator::I32Popcnt,
            WasmOperator::End,
            WasmOperator::End,
        ]
    };
    assert_eq!(translate(body(), &signature, vec![]), translate(body(), &signature, vec![]));
}

#[test]
fn operators_after_the_end_of_the_body_are_refused() {
    let signature = sig(&[], &[]);
    let error = translate_with(
        vec![WasmOperator::End, WasmOperator::Nop],
        &signature,
        vec![],
        vec![signature.clone()],
        vec![0],
        None,
    )
    .unwrap_err();
    assert_eq!(error.kind, ErrorKind::MalformedStream);
    assert_eq!(error.location, Some(0));
}

#[test]
fn operand_stack_underflow_is_refused_at_its_operator() {
    let signature = sig(&[], &[]);
    let error = translate_with(
        vec![WasmOperator::I32Const { value: 1 }, WasmOperator::I32Add, WasmOperator::End],
        &signature,
        vec![],
        vec![signature.clone()],
        vec![0],
        None,
    )
    .unwrap_err();
    assert_eq!(error.kind, ErrorKind::MalformedStream);
    assert_eq!(error.location, Some(1));
}

#[test]
fn unclosed_block_is_refused_where_the_operators_end() {
    let signature = sig(&[], &[]);
    let error = translate_with(
        vec![WasmOperator::Block { ty: WasmType::EmptyBlockType }, WasmOperator::Nop],
        &signature,
        vec![],
        vec![signature.clone()],
        vec![0],
        None,
    )
    .unwrap_err();
    assert_eq!(error.kind, ErrorKind::MalformedStream);
    assert_eq!(error.location, Some(2));
}

#[test]
fn local_of_a_function_type_is_unsupported() {
    let signature = sig(&[], &[]);
    let error = translate_with(
        vec![WasmOperator::End],
        &signature,
        vec![(1, WasmType::I32), (2, WasmType::AnyFunc)],
        vec![signature.clone()],
        vec![0],
        None,
    )
    .unwrap_err();
    assert_eq!(error.kind, ErrorKind::UnsupportedLocalType);
    assert_eq!(error.location, None);
    assert_eq!(error.message, "unsupported type for local variable");
}

#[test]
fn too_many_locals_are_refused() {
    let signature = sig(&[ValueType::I32], &[]);
    let error = translate_with(
        vec![WasmOperator::End],
        &signature,
        vec![(u32::MAX, WasmType::I32)],
        vec![signature.clone()],
        vec![0],
        None,
    )
    .unwrap_err();
    assert_eq!(error.kind, ErrorKind::MalformedStream);
    assert_eq!(error.location, None);
}

#[test]
fn globals_are_read_through_the_runtime() {
    let signature = sig(&[], &[ValueType::I64]);
    let signatures = vec![signature.clone()];
    let functions = vec![0usize];
    let exports = None;
    let module = ModuleContext { signatures: &signatures, functions: &functions, exports: &exports };
    let mut runtime = DummyRuntime::new();
    runtime.declare_global(Global { ty: ValueType::I64, mutability: false, initializer: GlobalInit::I64Const(3) });
    runtime.begin_translation();
    let ops = vec![WasmOperator::GetGlobal { global_index: 0 }, WasmOperator::End];
    let (func, _) = translate_function_body(&ops, 0, &signature, &vec![], &module, &mut runtime).unwrap();
    assert!(func.commands.contains(&ins(0, iconst(ValueType::I64, -1), &[], Some(1))));
    // A global that was not declared is not taken.
    let ops = vec![WasmOperator::GetGlobal { global_index: 1 }, WasmOperator::End];
    let error =
        translate_function_body(&ops, 0, &signature, &vec![], &module, &mut runtime).unwrap_err();
    assert_eq!(error.location, Some(0));
}

#[test]
fn br_if_without_the_block_result_under_its_condition_is_refused() {
    let signature = sig(&[ValueType::I32], &[ValueType::I32]);
    let error = translate_with(
        vec![
            WasmOperator::Block { ty: WasmType::I32 },
            WasmOperator::GetLocal { local_index: 0 },
            WasmOperator::I32Const { value: 0 },
            WasmOperator::I32Eq,
            WasmOperator::BrIf { relative_depth: 0 },
            WasmOperator::I32Const { value: 1 },
            WasmOperator::Return,
            WasmOperator::End,
            WasmOperator::I32Const { value: 0 },
            WasmOperator::End,
        ],
        &signature,
        vec![],
        vec![signature.clone()],
        vec![0],
        None,
    )
    .unwrap_err();
    assert_eq!(error.kind, ErrorKind::MalformedStream);
    assert_eq!(error.location, Some(4));
}

#[test]
fn call_pops_the_arguments_and_pushes_the_result() {
    let callee = sig(&[ValueType::I32, ValueType::I32], &[ValueType::I32]);
    let signature = sig(&[], &[ValueType::I32]);
    let (func, imports) = translate_with(
        vec![
            WasmOperator::I32Const { value: 3 },
            WasmOperator::I32Const { value: 4 },
            WasmOperator::Call { function_index: 0 },
            WasmOperator::End,
        ],
        &signature,
        vec![],
        vec![callee.clone()],
        vec![0],
        None,
    )
    .unwrap();
    let call = InstHeader {
        opcode: Opcode::Call,
        ty: None,
        cond: None,
        imm: None,
        target: Some(Target::Func(FuncRef(0))),
    };
    let mut expected = prologue(&[ValueType::I32]);
    expected.extend(vec![
        ins(0, iconst(ValueType::I32, 3), &[], Some(1)),
        ins(1, iconst(ValueType::I32, 4), &[], Some(2)),
        Command::ImportSignature { sigref: SigRef(0), signature: callee },
        Command::ImportFunction { funcref: FuncRef(0), name: String::new(), sigref: SigRef(0) },
        ins(2, call, &[1, 2], None),
        Command::InstResult { inst: Inst(2), index: 0, value: Value(3) },
        ins(3, branch(Opcode::Jump, 1), &[3], None),
        Command::SwitchToBlock(Ebb(1)),
        Command::SealBlock(Ebb(1)),
        ins(4, plain(Opcode::Return), &[0], None),
    ]);
    assert_eq!(func.commands, expected);
    assert_eq!(func.name, "");
    assert_eq!(imports.functions[&0], FuncRef(0));
    let calls = func.commands.iter().filter(|c| matches!(c, Command::Ins { header, .. } if header.opcode == Opcode::Call)).count();
    assert_eq!(calls, 1);
}
