//! What holds of every translation, proved from the definitions of
//! [`crate::semantics`] and the invariant [`TranslationModel::wf`], which
//! `FuncTranslator::new` establishes and `translate_operator` keeps.
use vstd::prelude::*;
use crate::ir::{Ebb, Value, Inst, JumpTable, Opcode, InstHeader, CommandModel, SignatureModel};
use crate::builder::{BuilderModel, replay, lemma_replay_push};
use crate::operator::WasmOperator;
use crate::runtime::runtime::WasmRuntime;
use crate::semantics::{min_depth, trampoline_of};
use crate::state::{ControlStackFrame, ModuleModel, TranslationModel};
use crate::translation_utils::WasmType;

verus! {

/// Between two operators, the operand stack is at least as high as it was
/// when the innermost open construct was entered, and so at least as high
/// as when any open construct was entered.
pub proof fn lemma_operand_stack_above_frame(state: TranslationModel, i: int)
    requires
        state.wf(),
        0 <= i < state.control_stack.len(),
    ensures
        state.stack.len() >= state.top().spec_original_stack_size(),
        state.stack.len() >= state.control_stack[i].spec_original_stack_size(),
{
    let top = state.control_stack.len() - 1;
    assert(state.control_stack[i].spec_original_stack_size()
        <= state.control_stack[top].spec_original_stack_size());
}

/// Between two operators, the steps recorded so far can be replayed: no
/// block was given an instruction after its terminator. The current block
/// is open where code is reachable, and otherwise it is filled or untouched.
pub proof fn lemma_blocks_are_terminated_once(state: TranslationModel)
    requires
        state.wf(),
    ensures
        replay(state.builder.commands) is Some,
        state.builder.position is Some,
        state.reachable() ==> state.builder.can_emit(),
        !state.reachable() ==> state.builder.is_filled() || state.builder.pristine,
{
}

/// The steps of a finished function can be replayed. Its last block is the
/// block of the body's frame, which is sealed, and which is filled unless
/// the return was left out. Where a jump or a branch goes to it, it is
/// filled: no block that can be reached is left open, and none is closed
/// twice.
pub proof fn lemma_finished_function_is_terminated(state: TranslationModel)
    requires
        state.wf(),
        state.can_finish(),
        state.finish().fits(),
    ensures
        state.finish().wf(),
        replay(state.finish().commands) is Some,
        state.finish().position == Some(state.control_stack[0].spec_following_code()),
        state.finish().is_sealed(state.control_stack[0].spec_following_code()),
        state.finish().is_filled() == !state.elides_return(),
        state.joined().is_targeted(state.control_stack[0].spec_following_code())
            ==> state.finish().is_filled(),
{
    let frame = state.control_stack[0];
    let exit = frame.spec_following_code();
    assert(state.frame_ok(state.control_stack[0]));
    let args = state.top_values(frame.spec_num_return_values() as int);
    let jump = InstHeader::spec_branch(Opcode::Jump, exit);
    let jumped = state.joined();
    if state.falls_through() {
        let step = CommandModel::Ins {
            inst: Inst(state.builder.insts as usize),
            header: jump,
            args,
            result: state.builder.next_result(jump),
        };
        lemma_replay_push(state.builder.commands, step);
        assert(jumped.commands[state.builder.commands.len() as int] == step);
        assert(step.leads_to(exit));
        assert(jumped.is_targeted(exit));
    }
    assert(jumped.wf());
    let switched = jumped.switch_to_block(exit);
    lemma_replay_push(jumped.commands, CommandModel::SwitchToBlock(exit));
    assert(switched.wf());
    let sealed = switched.seal_block(exit);
    lemma_replay_push(switched.commands, CommandModel::SealBlock(exit));
    assert(sealed.wf());
    if !state.elides_return() {
        let ret = InstHeader::spec_plain(Opcode::Return);
        lemma_replay_push(
            sealed.commands,
            CommandModel::Ins {
                inst: Inst(sealed.insts as usize),
                header: ret,
                args: state.builder.ebb_args(exit),
                result: sealed.next_result(ret),
            },
        );
        let done = sealed.ins(ret, state.builder.ebb_args(exit)).0;
        assert forall|e: int, i: int|
            0 <= e < done.params.len() && 0 <= i < done.params[e].len() implies done.defines(
            #[trigger] done.params[e][i],
        ) by {
            assert(state.builder.defines(state.builder.params[e][i]));
        }
    }
}

/// The header of an open loop is not sealed.
pub proof fn lemma_open_loop_header_is_unsealed(state: TranslationModel, i: int)
    requires
        state.wf(),
        0 <= i < state.control_stack.len(),
        state.control_stack[i] is Loop,
    ensures
        !state.builder.is_sealed(state.control_stack[i].spec_br_destination()),
{
    assert(state.frame_ok(state.control_stack[i]));
}

/// The `end` of a loop seals the loop's header, in reachable code and in
/// unreachable code alike.
pub proof fn lemma_end_seals_loop_header<R: WasmRuntime>(
    state: TranslationModel,
    runtime: R,
    module: ModuleModel,
)
    requires
        state.wf(),
        state.top() is Loop,
        state.phantom_depth == 0,
        state.accepts(runtime, module, WasmOperator::End),
    ensures
        !state.builder.is_sealed(state.top().spec_br_destination()),
        state.step(runtime, module, WasmOperator::End).0.builder.is_sealed(
            state.top().spec_br_destination(),
        ),
        state.step(runtime, module, WasmOperator::End).0.control_stack
            == state.control_stack.drop_last(),
{
    assert(state.frame_ok(state.control_stack[state.control_stack.len() - 1]));
}

/// Where a branch goes according to recorded steps: where its last
/// redirection sent it or, if it was never redirected, where it was emitted
/// to go.
pub open spec fn branch_target(commands: Seq<CommandModel>, inst: Inst) -> Option<Ebb>
    decreases commands.len(),
{
    if commands.len() == 0 {
        None
    } else {
        match commands.last() {
            CommandModel::ChangeJumpDestination { inst: i, ebb } if i == inst => Some(ebb),
            CommandModel::Ins { inst: i, header, .. } if i == inst => header.destination(),
            _ => branch_target(commands.drop_last(), inst),
        }
    }
}

/// The target of a branch after one more step.
pub proof fn lemma_branch_target_push(commands: Seq<CommandModel>, command: CommandModel, inst: Inst)
    ensures
        branch_target(commands.push(command), inst) == match command {
            CommandModel::ChangeJumpDestination { inst: i, ebb } if i == inst => Some(ebb),
            CommandModel::Ins { inst: i, header, .. } if i == inst => header.destination(),
            _ => branch_target(commands, inst),
        },
{
    assert(commands.push(command).drop_last() =~= commands);
}

/// The conditional branch of an `if` goes to the block after the `if`: that
/// is where the false arm begins as long as no `else` is met.
pub proof fn lemma_if_branches_to_exit<R: WasmRuntime>(
    state: TranslationModel,
    runtime: R,
    module: ModuleModel,
    ty: WasmType,
)
    requires
        state.wf(),
        state.reachable(),
    ensures
        ({
            let after = state.step(runtime, module, WasmOperator::If { ty }).0;
            &&& after.top() matches ControlStackFrame::If { destination, branch_inst, .. }
            &&& branch_target(after.builder.commands, branch_inst) == Some(destination)
        }),
{
    let start = TranslationModel { last_inst_return: false, ..state };
    let (b1, if_not) = start.builder.create_ebb();
    let header = InstHeader::spec_branch(Opcode::Brz, if_not);
    let args = seq![start.stack.last()];
    let (b2, branch_inst, result) = b1.ins(header, args);
    let ins = CommandModel::Ins { inst: branch_inst, header, args, result };
    lemma_branch_target_push(b1.commands, ins, branch_inst);
    match crate::translation_utils::value_type(ty) {
        Some(t) => {
            lemma_branch_target_push(
                b2.commands,
                CommandModel::AppendEbbArg { ebb: if_not, ty: t, value: Value(b2.values as usize) },
                branch_inst,
            );
        },
        None => {},
    }
}

/// An `else` redirects the conditional branch of its `if` to the block of
/// the false arm, which is a new block and the current one afterwards, and
/// leaves the control stack as it is. The branch cannot be redirected
/// again. This holds where the `else` is met in reachable code and where it
/// ends unreachable code.
pub proof fn lemma_else_redirects_branch<R: WasmRuntime>(
    state: TranslationModel,
    runtime: R,
    module: ModuleModel,
)
    requires
        state.wf(),
        state.takes_else(),
        state.phantom_depth == 0,
    ensures
        ({
            let after = state.step(runtime, module, WasmOperator::Else).0;
            &&& state.top() matches ControlStackFrame::If { destination, branch_inst, .. }
            &&& after.builder.position is Some
            &&& branch_target(after.builder.commands, branch_inst) == after.builder.position
            &&& after.builder.position != Some(destination)
            &&& after.control_stack == state.control_stack
            &&& !after.builder.can_redirect(branch_inst)
            &&& after.reachable()
        }),
{
    let frame = state.top();
    assert(state.frame_ok(state.control_stack[state.control_stack.len() - 1]));
    match frame {
        ControlStackFrame::If { destination, branch_inst, num_return_values, .. } => {
            let start = TranslationModel { last_inst_return: false, ..state };
            let before = if state.reachable() {
                start.builder.ins(
                    InstHeader::spec_branch(Opcode::Jump, destination),
                    start.top_values(num_return_values as int),
                ).0
            } else {
                state.builder
            };
            let (b1, else_ebb) = before.create_ebb();
            let b2 = b1.change_jump_destination(branch_inst, else_ebb);
            lemma_branch_target_push(
                b1.commands,
                CommandModel::ChangeJumpDestination { inst: branch_inst, ebb: else_ebb },
                branch_inst,
            );
            let b3 = b2.seal_block(else_ebb);
            lemma_branch_target_push(b2.commands, CommandModel::SealBlock(else_ebb), branch_inst);
            lemma_branch_target_push(b3.commands, CommandModel::SwitchToBlock(else_ebb), branch_inst);
        },
        _ => {},
    }
}

/// The translation of a body is a function of what it is given: the
/// signature, the locals, the operators, the module and the runtime.
pub proof fn lemma_translation_is_deterministic<R: WasmRuntime>(
    signature: SignatureModel,
    locals: Seq<(u32, WasmType)>,
    ops: Seq<WasmOperator>,
    module: ModuleModel,
    runtime: R,
    signature2: SignatureModel,
    locals2: Seq<(u32, WasmType)>,
    ops2: Seq<WasmOperator>,
    module2: ModuleModel,
    runtime2: R,
)
    requires
        signature == signature2,
        locals == locals2,
        ops == ops2,
        module == module2,
        runtime == runtime2,
    ensures
        TranslationModel::begin(signature, locals).translate_from(runtime, module, ops, 0)
            == TranslationModel::begin(signature2, locals2).translate_from(
            runtime2,
            module2,
            ops2,
            0,
        ),
{
}

/// A return that ends the body is the function's only return: where the
/// body ends after a return and no branch goes to the block of the body's
/// frame, the end of the body adds no instruction. It only goes to that
/// block and seals it. Where a branch does go to that block, the block,
/// which can be reached, returns its parameters.
pub proof fn lemma_return_elides_closing_return(state: TranslationModel)
    requires
        state.wf(),
        state.last_inst_return,
    ensures
        !state.falls_through(),
        state.joined() == state.builder,
        ({
            let exit = state.control_stack[0].spec_following_code();
            let closed = state.builder.commands.push(CommandModel::SwitchToBlock(exit)).push(
                CommandModel::SealBlock(exit),
            );
            &&& !state.builder.is_targeted(exit) ==> state.finish().commands == closed
                && state.finish().insts == state.builder.insts
            &&& state.builder.is_targeted(exit) ==> state.finish().commands == closed.push(
                CommandModel::Ins {
                    inst: Inst(state.builder.insts as usize),
                    header: InstHeader::spec_plain(Opcode::Return),
                    args: state.builder.ebb_args(exit),
                    result: None,
                },
            )
        }),
{
}

/// Filling a jump table whose branches carry nothing makes no block.
pub proof fn lemma_fill_direct_makes_no_block(
    state: TranslationModel,
    table: JumpTable,
    targets: Seq<u32>,
    n: int,
)
    ensures
        state.fill_direct(table, targets, n).builder.num_ebbs() == state.builder.num_ebbs(),
        state.fill_direct(table, targets, n).stack == state.stack,
        state.fill_direct(table, targets, n).control_stack == state.control_stack,
    decreases n,
{
    if n > 0 {
        lemma_fill_direct_makes_no_block(state, table, targets, n - 1);
    }
}

/// A `br_table` carries as many values as a branch to the frame of its
/// smallest depth does. Where that is none, no block is made for it: the
/// table leads straight to the destinations.
pub proof fn lemma_br_table_without_values_makes_no_block(
    state: TranslationModel,
    targets: Seq<u32>,
    default: u32,
)
    requires
        state.br_table_arity(targets, default) == 0,
    ensures
        state.br_table_arity(targets, default) == state.frame_at(
            crate::semantics::min_depth(targets, default) as int,
        ).spec_br_arity(),
        state.op_br_table(targets, default).builder.num_ebbs() == state.builder.num_ebbs(),
{
    let popped = TranslationModel { stack: state.stack.drop_last(), ..state };
    if targets.len() > 0 {
        let (b1, table) = popped.builder.create_jump_table();
        lemma_fill_direct_makes_no_block(popped.with_builder(b1), table, targets, targets.len() as int);
    }
}

/// Where a `br_table` carries values and has entries, it makes at least one
/// block: the entries lead to trampolines.
pub proof fn lemma_br_table_with_values_makes_trampolines(
    state: TranslationModel,
    targets: Seq<u32>,
    default: u32,
)
    requires
        state.br_table_arity(targets, default) > 0,
        targets.len() > 0,
    ensures
        TranslationModel::fill_trampolines(
            state.builder.create_jump_table().0,
            state.builder.create_jump_table().1,
            targets,
            targets.len() as int,
        ).1.len() > 0,
{
    let (b1, table) = state.builder.create_jump_table();
    lemma_first_entry_makes_a_trampoline(b1, table, targets, targets.len() as int);
}

/// The first entry of a jump table whose branches carry values makes a
/// trampoline.
proof fn lemma_first_entry_makes_a_trampoline(
    builder: BuilderModel,
    table: JumpTable,
    targets: Seq<u32>,
    n: int,
)
    requires
        n >= 1,
    ensures
        TranslationModel::fill_trampolines(builder, table, targets, n).1.len() >= 1,
    decreases n,
{
    if n > 1 {
        lemma_first_entry_makes_a_trampoline(builder, table, targets, n - 1);
    } else {
        assert(TranslationModel::fill_trampolines(builder, table, targets, 0).1 =~= seq![]);
    }
}

/// The block that a branch was emitted to go to.
pub open spec fn emitted_target(commands: Seq<CommandModel>, inst: Inst) -> Option<Ebb>
    decreases commands.len(),
{
    if commands.len() == 0 {
        None
    } else {
        match commands.last() {
            CommandModel::Ins { inst: i, header, .. } if i == inst => header.destination(),
            _ => emitted_target(commands.drop_last(), inst),
        }
    }
}

/// Where a branch was emitted to go after one more step.
pub proof fn lemma_emitted_target_push(commands: Seq<CommandModel>, command: CommandModel, inst: Inst)
    ensures
        emitted_target(commands.push(command), inst) == match command {
            CommandModel::Ins { inst: i, header, .. } if i == inst => header.destination(),
            _ => emitted_target(commands, inst),
        },
{
    assert(commands.push(command).drop_last() =~= commands);
}

/// Steps that can be replayed can be replayed up to any point.
pub proof fn lemma_replay_prefix(commands: Seq<CommandModel>, later: Seq<CommandModel>)
    requires
        replay(commands + later) is Some,
    ensures
        replay(commands) is Some,
    decreases later.len(),
{
    if later.len() == 0 {
        assert(commands + later =~= commands);
    } else {
        assert((commands + later).drop_last() =~= commands + later.drop_last());
        lemma_replay_prefix(commands, later.drop_last());
    }
}

/// Later steps leave the instructions their numbers, and what was
/// redirected stays redirected.
pub proof fn lemma_replay_grows(commands: Seq<CommandModel>, later: Seq<CommandModel>)
    requires
        replay(commands + later) is Some,
    ensures
        replay(commands) is Some,
        replay(commands).unwrap().redirected.len() <= replay(
            commands + later,
        ).unwrap().redirected.len(),
        forall|i: int|
            0 <= i < replay(commands).unwrap().redirected.len() && replay(
                commands,
            ).unwrap().redirected[i] ==> #[trigger] replay(commands + later).unwrap().redirected[i],
    decreases later.len(),
{
    if later.len() == 0 {
        assert(commands + later =~= commands);
    } else {
        assert((commands + later).drop_last() =~= commands + later.drop_last());
        lemma_replay_grows(commands, later.drop_last());
    }
}

/// Where a branch was emitted to go is not changed by later steps.
pub proof fn lemma_emitted_target_is_kept(
    commands: Seq<CommandModel>,
    later: Seq<CommandModel>,
    inst: Inst,
)
    requires
        replay(commands + later) is Some,
        replay(commands) matches Some(cursor) && inst.0 < cursor.redirected.len(),
    ensures
        emitted_target(commands + later, inst) == emitted_target(commands, inst),
    decreases later.len(),
{
    if later.len() == 0 {
        assert(commands + later =~= commands);
    } else {
        assert((commands + later).drop_last() =~= commands + later.drop_last());
        lemma_replay_grows(commands, later.drop_last());
        lemma_emitted_target_is_kept(commands, later.drop_last(), inst);
    }
}

/// A branch that was never redirected goes where it was emitted to go.
pub proof fn lemma_unredirected_branch_keeps_target(commands: Seq<CommandModel>, inst: Inst)
    requires
        replay(commands) matches Some(cursor) && inst.0 < cursor.redirected.len()
            && !cursor.redirected[inst.0 as int],
    ensures
        branch_target(commands, inst) == emitted_target(commands, inst),
    decreases commands.len(),
{
    if commands.len() > 0 {
        let before = replay(commands.drop_last()).unwrap();
        match commands.last() {
            CommandModel::Ins { inst: i, .. } => {
                if i != inst {
                    lemma_unredirected_branch_keeps_target(commands.drop_last(), inst);
                }
            },
            CommandModel::ChangeJumpDestination { inst: i, .. } => {
                lemma_unredirected_branch_keeps_target(commands.drop_last(), inst);
            },
            _ => {
                lemma_unredirected_branch_keeps_target(commands.drop_last(), inst);
            },
        }
    }
}

/// A branch that was redirected goes where it was redirected to, whatever
/// steps follow: no step redirects it again.
pub proof fn lemma_redirection_is_final(
    commands: Seq<CommandModel>,
    later: Seq<CommandModel>,
    inst: Inst,
    ebb: Ebb,
)
    requires
        commands.len() > 0,
        commands.last() == (CommandModel::ChangeJumpDestination { inst, ebb }),
        replay(commands + later) is Some,
    ensures
        branch_target(commands + later, inst) == Some(ebb),
    decreases later.len(),
{
    if later.len() == 0 {
        assert(commands + later =~= commands);
    } else {
        assert((commands + later).drop_last() =~= commands + later.drop_last());
        lemma_replay_grows(commands, later.drop_last());
        lemma_redirection_is_final(commands, later.drop_last(), inst, ebb);
        let redirected = replay(commands).unwrap().redirected;
        assert(inst.0 < redirected.len() && redirected[inst.0 as int]);
        assert((commands + later).last() == later.last());
    }
}

/// The conditional branch of an `if` with an `else` goes to the block of
/// the false arm in the end: whatever steps follow the `else`, as long as
/// they can be replayed, the branch goes to the block that the `else` made
/// current.
#[verifier::rlimit(40)]
pub proof fn lemma_else_arm_is_final_target<R: WasmRuntime>(
    state: TranslationModel,
    runtime: R,
    module: ModuleModel,
    later: Seq<CommandModel>,
)
    requires
        state.wf(),
        state.takes_else(),
        state.phantom_depth == 0,
        replay(state.step(runtime, module, WasmOperator::Else).0.builder.commands + later) is Some,
    ensures
        ({
            let after = state.step(runtime, module, WasmOperator::Else).0;
            &&& state.top() matches ControlStackFrame::If { branch_inst, .. }
            &&& branch_target(after.builder.commands + later, branch_inst) == after.builder.position
        }),
{
    let after = state.step(runtime, module, WasmOperator::Else).0;
    lemma_else_redirects_branch(state, runtime, module);
    match state.top() {
        ControlStackFrame::If { destination, branch_inst, num_return_values, .. } => {
            let start = TranslationModel { last_inst_return: false, ..state };
            let before = if state.reachable() {
                start.builder.ins(
                    InstHeader::spec_branch(Opcode::Jump, destination),
                    start.top_values(num_return_values as int),
                ).0
            } else {
                state.builder
            };
            let (b1, else_ebb) = before.create_ebb();
            let b2 = b1.change_jump_destination(branch_inst, else_ebb);
            let rest = seq![
                CommandModel::SealBlock(else_ebb),
                CommandModel::SwitchToBlock(else_ebb),
            ];
            assert(after.builder.commands =~= b2.commands + rest);
            assert(after.builder.commands + later =~= b2.commands + (rest + later));
            lemma_redirection_is_final(b2.commands, rest + later, branch_inst, else_ebb);
        },
        _ => {},
    }
}

/// The conditional branch of an `if` without an `else` goes to the block
/// after the `if` in the end: whatever steps follow the `if`, as long as
/// they can be replayed and do not redirect the branch, it goes to the
/// block of the frame.
pub proof fn lemma_branch_without_else_goes_to_exit<R: WasmRuntime>(
    state: TranslationModel,
    runtime: R,
    module: ModuleModel,
    ty: WasmType,
    later: Seq<CommandModel>,
)
    requires
        state.wf(),
        state.reachable(),
        state.step(runtime, module, WasmOperator::If { ty }).0.builder.fits(),
        ({
            let after = state.step(runtime, module, WasmOperator::If { ty }).0;
            &&& after.top() matches ControlStackFrame::If { branch_inst, .. }
            &&& replay(after.builder.commands + later) matches Some(cursor)
            &&& branch_inst.0 < cursor.redirected.len()
            &&& !cursor.redirected[branch_inst.0 as int]
        }),
    ensures
        ({
            let after = state.step(runtime, module, WasmOperator::If { ty }).0;
            &&& after.top() matches ControlStackFrame::If { destination, branch_inst, .. }
            &&& branch_target(after.builder.commands + later, branch_inst) == Some(destination)
        }),
{
    let after = state.step(runtime, module, WasmOperator::If { ty }).0;
    lemma_if_branches_to_exit(state, runtime, module, ty);
    match after.top() {
        ControlStackFrame::If { destination, branch_inst, .. } => {
            let commands = after.builder.commands;
            lemma_replay_grows(commands, later);
            lemma_if_emits_branch(state, runtime, module, ty);
            lemma_emitted_target_is_kept(commands, later, branch_inst);
            lemma_unredirected_branch_keeps_target(commands + later, branch_inst);
        },
        _ => {},
    }
}

/// After an `if`, the steps can be replayed, and the conditional branch is
/// an instruction that was emitted to go to the block after the `if`.
proof fn lemma_if_emits_branch<R: WasmRuntime>(
    state: TranslationModel,
    runtime: R,
    module: ModuleModel,
    ty: WasmType,
)
    requires
        state.wf(),
        state.reachable(),
        state.step(runtime, module, WasmOperator::If { ty }).0.builder.fits(),
    ensures
        ({
            let after = state.step(runtime, module, WasmOperator::If { ty }).0;
            &&& after.top() matches ControlStackFrame::If { destination, branch_inst, .. }
            &&& replay(after.builder.commands) matches Some(cursor)
            &&& branch_inst.0 < cursor.redirected.len()
            &&& emitted_target(after.builder.commands, branch_inst) == Some(destination)
        }),
{
    let start = TranslationModel { last_inst_return: false, ..state };
    let (b1, if_not) = start.builder.create_ebb();
    lemma_replay_push(start.builder.commands, CommandModel::CreateEbb(if_not));
    let header = InstHeader::spec_branch(Opcode::Brz, if_not);
    let args = seq![start.stack.last()];
    let (b2, branch_inst, result) = b1.ins(header, args);
    let ins = CommandModel::Ins { inst: branch_inst, header, args, result };
    lemma_replay_push(b1.commands, ins);
    lemma_emitted_target_push(b1.commands, ins, branch_inst);
    match crate::translation_utils::value_type(ty) {
        Some(t) => {
            let param = CommandModel::AppendEbbArg {
                ebb: if_not,
                ty: t,
                value: Value(b2.values as usize),
            };
            lemma_replay_push(b2.commands, param);
            lemma_emitted_target_push(b2.commands, param, branch_inst);
        },
        None => {},
    }
}

/// The block to which entry `index` of a jump table was set.
pub open spec fn table_entry(commands: Seq<CommandModel>, table: JumpTable, index: usize) -> Option<
    Ebb,
>
    decreases commands.len(),
{
    if commands.len() == 0 {
        None
    } else {
        match commands.last() {
            CommandModel::InsertJumpTableEntry { table: t, index: i, ebb } if t == table && i
                == index => Some(ebb),
            _ => table_entry(commands.drop_last(), table, index),
        }
    }
}

/// The entry of a jump table after one more step.
pub proof fn lemma_table_entry_push(
    commands: Seq<CommandModel>,
    command: CommandModel,
    table: JumpTable,
    index: usize,
)
    ensures
        table_entry(commands.push(command), table, index) == match command {
            CommandModel::InsertJumpTableEntry { table: t, index: i, ebb } if t == table && i
                == index => Some(ebb),
            _ => table_entry(commands, table, index),
        },
{
    assert(commands.push(command).drop_last() =~= commands);
}

/// The trampoline of a depth after one more trampoline was made.
pub proof fn lemma_trampoline_of_push(seen: Seq<(u32, Ebb)>, made: (u32, Ebb), depth: u32)
    ensures
        trampoline_of(seen.push(made), depth) == if made.0 == depth {
            Some(made.1)
        } else {
            trampoline_of(seen, depth)
        },
{
    assert(seen.push(made).drop_last() =~= seen);
}

/// A trampoline that is found for a depth was made for it, and where none
/// is found, none was made for it.
pub proof fn lemma_trampoline_was_made(seen: Seq<(u32, Ebb)>, depth: u32)
    ensures
        match trampoline_of(seen, depth) {
            Some(ebb) => exists|i: int| 0 <= i < seen.len() && #[trigger] seen[i] == (depth, ebb),
            None => forall|i: int| 0 <= i < seen.len() ==> (#[trigger] seen[i]).0 != depth,
        },
    decreases seen.len(),
{
    if seen.len() > 0 {
        let rest = seen.drop_last();
        lemma_trampoline_was_made(rest, depth);
        if seen.last().0 == depth {
            assert(seen[seen.len() - 1] == (depth, seen.last().1));
        } else {
            match trampoline_of(rest, depth) {
                Some(ebb) => {
                    let i = choose|i: int| 0 <= i < rest.len() && #[trigger] rest[i] == (depth, ebb);
                    assert(seen[i] == (depth, ebb));
                },
                None => {
                    assert forall|i: int| 0 <= i < seen.len() implies (#[trigger] seen[i]).0
                        != depth by {
                        if i < seen.len() - 1 {
                            assert(rest[i].0 != depth);
                        }
                    }
                },
            }
        }
    }
}

/// The depth is one of the first `n` depths of a jump table.
pub open spec fn among(targets: Seq<u32>, n: int, depth: u32) -> bool {
    exists|k: int| 0 <= k < n && #[trigger] targets[k] == depth
}

/// There is one trampoline for each of the first `n` depths of a jump
/// table, and no other: no two trampolines are for one depth, each of
/// those depths has its trampoline, each trampoline is for one of them, and
/// the trampolines are the blocks from number `first` on, in the order in
/// which they were made.
pub open spec fn one_per_depth(seen: Seq<(u32, Ebb)>, targets: Seq<u32>, n: int, first: nat) -> bool {
    &&& forall|i: int, j: int|
        0 <= i < j < seen.len() ==> (#[trigger] seen[i]).0 != (#[trigger] seen[j]).0
    &&& forall|i: int| 0 <= i < seen.len() ==> (#[trigger] seen[i]).1 == Ebb((first + i) as usize)
    &&& forall|k: int| 0 <= k < n ==> trampoline_of(seen, #[trigger] targets[k]) is Some
    &&& forall|i: int| 0 <= i < seen.len() ==> among(targets, n, (#[trigger] seen[i]).0)
}

/// Filling the first `n` entries of a jump table whose branches carry
/// values makes one new block for each depth among them, and sets each
/// entry to the block of its depth. Nothing else of the builder changes but
/// the steps recorded.
pub proof fn lemma_entries_lead_to_trampolines(
    builder: BuilderModel,
    table: JumpTable,
    targets: Seq<u32>,
    n: int,
)
    requires
        0 <= n <= targets.len() <= usize::MAX,
    ensures
        ({
            let (b, seen) = TranslationModel::fill_trampolines(builder, table, targets, n);
            &&& one_per_depth(seen, targets, n, builder.num_ebbs())
            &&& seen.len() <= n
            &&& b.sealed.len() == builder.sealed.len() + seen.len()
            &&& b.filled.len() == builder.filled.len() + seen.len()
            &&& b.insts == builder.insts
            &&& b.position == builder.position
            &&& forall|k: int|
                0 <= k < n ==> table_entry(b.commands, table, k as usize) == trampoline_of(
                    seen,
                    #[trigger] targets[k],
                )
        }),
    decreases n,
{
    if n > 0 {
        lemma_entries_lead_to_trampolines(builder, table, targets, n - 1);
        let (b0, seen0) = TranslationModel::fill_trampolines(builder, table, targets, n - 1);
        let (b, seen) = TranslationModel::fill_trampolines(builder, table, targets, n);
        let depth = targets[n - 1];
        let first = builder.num_ebbs();
        lemma_trampoline_was_made(seen0, depth);
        match trampoline_of(seen0, depth) {
            Some(ebb) => {
                let entry = CommandModel::InsertJumpTableEntry {
                    table,
                    index: (n - 1) as usize,
                    ebb,
                };
                assert forall|k: int| 0 <= k < n implies table_entry(b.commands, table, k as usize)
                    == trampoline_of(seen, #[trigger] targets[k]) by {
                    lemma_table_entry_push(b0.commands, entry, table, k as usize);
                }
                assert forall|i: int| 0 <= i < seen.len() implies among(
                    targets,
                    n,
                    (#[trigger] seen[i]).0,
                ) by {
                    assert(among(targets, n - 1, seen0[i].0));
                    let k = choose|k: int| 0 <= k < n - 1 && #[trigger] targets[k] == seen0[i].0;
                    assert(targets[k] == seen[i].0);
                }
            },
            None => {
                let (b1, ebb) = b0.create_ebb();
                let entry = CommandModel::InsertJumpTableEntry {
                    table,
                    index: (n - 1) as usize,
                    ebb,
                };
                assert(ebb == Ebb((first + seen0.len()) as usize));
                assert forall|k: int| 0 <= k < n implies trampoline_of(seen, #[trigger] targets[k])
                    is Some && table_entry(b.commands, table, k as usize) == trampoline_of(
                    seen,
                    targets[k],
                ) by {
                    lemma_trampoline_of_push(seen0, (depth, ebb), targets[k]);
                    lemma_table_entry_push(b0.commands, CommandModel::CreateEbb(ebb), table, k as usize);
                    lemma_table_entry_push(b1.commands, entry, table, k as usize);
                }
                assert forall|i: int| 0 <= i < seen.len() implies among(
                    targets,
                    n,
                    (#[trigger] seen[i]).0,
                ) by {
                    if i < seen0.len() {
                        assert(among(targets, n - 1, seen0[i].0));
                        let k = choose|k: int|
                            0 <= k < n - 1 && #[trigger] targets[k] == seen0[i].0;
                        assert(targets[k] == seen[i].0);
                    } else {
                        assert(targets[n - 1] == seen[i].0);
                    }
                }
            },
        }
    }
}

/// The code of the first `n` trampolines stands behind what was recorded
/// before, three steps for each: the trampoline is made current, sealed,
/// and filled with a jump to the destination of its depth that carries
/// `args`. The stacks stay as they are, and no entry of a jump table
/// changes.
pub proof fn lemma_trampolines_hold_their_jump(
    state: TranslationModel,
    seen: Seq<(u32, Ebb)>,
    args: Seq<Value>,
    n: int,
    table: JumpTable,
    index: usize,
)
    requires
        0 <= n <= seen.len(),
        state.builder.sealed.len() == state.builder.filled.len(),
        forall|i: int| 0 <= i < seen.len() ==> (#[trigger] seen[i]).1.0 < state.builder.sealed.len(),
    ensures
        ({
            let after = state.emit_trampolines(seen, args, n);
            let base = state.builder.commands.len();
            &&& after.control_stack == state.control_stack
            &&& after.stack == state.stack
            &&& after.builder.sealed.len() == state.builder.sealed.len()
            &&& after.builder.filled.len() == state.builder.filled.len()
            &&& after.builder.commands.len() == base + 3 * n
            &&& forall|c: int|
                0 <= c < base ==> after.builder.commands[c] == #[trigger] state.builder.commands[c]
            &&& table_entry(after.builder.commands, table, index) == table_entry(
                state.builder.commands,
                table,
                index,
            )
            &&& forall|i: int|
                0 <= i < n ==> {
                    let (depth, ebb) = #[trigger] seen[i];
                    &&& after.builder.commands[base + 3 * i] == CommandModel::SwitchToBlock(ebb)
                    &&& after.builder.commands[base + 3 * i + 1] == CommandModel::SealBlock(ebb)
                    &&& after.builder.commands[base + 3 * i + 2] matches CommandModel::Ins {
                        header,
                        args: carried,
                        ..
                    }
                    &&& header == InstHeader::spec_branch(
                        Opcode::Jump,
                        state.frame_at(depth as int).spec_br_destination(),
                    )
                    &&& carried == args
                    &&& after.builder.is_sealed(ebb)
                    &&& after.builder.is_filled_ebb(ebb)
                }
        }),
    decreases n,
{
    if n > 0 {
        lemma_trampolines_hold_their_jump(state, seen, args, n - 1, table, index);
        let before = state.emit_trampolines(seen, args, n - 1);
        let after = state.emit_trampolines(seen, args, n);
        let (depth, ebb) = seen[n - 1];
        let destination = before.frame_at(depth as int).spec_br_destination();
        let jump = InstHeader::spec_branch(Opcode::Jump, destination);
        let b1 = before.builder.switch_to_block(ebb);
        let b2 = b1.seal_block(ebb);
        lemma_table_entry_push(before.builder.commands, CommandModel::SwitchToBlock(ebb), table, index);
        lemma_table_entry_push(b1.commands, CommandModel::SealBlock(ebb), table, index);
        lemma_table_entry_push(
            b2.commands,
            CommandModel::Ins {
                inst: Inst(b2.insts as usize),
                header: jump,
                args,
                result: b2.next_result(jump),
            },
            table,
            index,
        );
        let base = state.builder.commands.len();
        assert forall|i: int| 0 <= i < n implies {
            let (depth, ebb) = #[trigger] seen[i];
            &&& after.builder.commands[base + 3 * i] == CommandModel::SwitchToBlock(ebb)
            &&& after.builder.commands[base + 3 * i + 1] == CommandModel::SealBlock(ebb)
            &&& after.builder.commands[base + 3 * i + 2] matches CommandModel::Ins {
                header,
                args: carried,
                ..
            }
            &&& header == InstHeader::spec_branch(
                Opcode::Jump,
                state.frame_at(depth as int).spec_br_destination(),
            )
            &&& carried == args
            &&& after.builder.is_sealed(ebb)
            &&& after.builder.is_filled_ebb(ebb)
        } by {
            if i < n - 1 {
                let (d, e) = seen[i];
                assert(before.builder.commands[base + 3 * i] == CommandModel::SwitchToBlock(e));
                assert(before.builder.is_sealed(e) && before.builder.is_filled_ebb(e));
            }
        }
    }
}

/// The trampolines that a `br_table` makes in this state, with their
/// depths, in the order in which they are made.
pub open spec fn trampolines(state: TranslationModel, targets: Seq<u32>) -> Seq<(u32, Ebb)> {
    TranslationModel::fill_trampolines(
        state.builder.create_jump_table().0,
        state.builder.create_jump_table().1,
        targets,
        targets.len() as int,
    ).1
}

/// A `br_table` whose branches carry values goes through trampolines. One
/// new block is made for each depth among the entries, and two entries
/// lead to the same block exactly if their depths are the same. Each
/// trampoline is sealed and holds nothing but a jump to the destination of
/// its depth that carries the values. The instruction is followed by the
/// jump to the default destination with the same values, and the code of
/// the trampolines stands behind that. What follows is unreachable until
/// the construct of the smallest depth has ended.
pub proof fn lemma_br_table_goes_through_trampolines(
    state: TranslationModel,
    targets: Seq<u32>,
    default: u32,
)
    requires
        state.builder.wf(),
        state.builder.can_emit(),
        state.br_table_arity(targets, default) > 0,
        state.stack.len() >= 1 + state.br_table_arity(targets, default),
        0 < targets.len() <= usize::MAX,
        state.builder.num_ebbs() + targets.len() <= usize::MAX,
    ensures
        ({
            let table = state.builder.create_jump_table().1;
            let seen = trampolines(state, targets);
            let after = state.op_br_table(targets, default);
            let arity = state.br_table_arity(targets, default);
            let args = state.stack.drop_last().subrange(
                state.stack.len() - 1 - arity,
                state.stack.len() - 1,
            );
            let base = after.builder.commands.len() - 3 * seen.len();
            &&& after.real_depth == 1 + min_depth(targets, default)
            &&& after.builder.num_ebbs() == state.builder.num_ebbs() + seen.len()
            &&& one_per_depth(seen, targets, targets.len() as int, state.builder.num_ebbs())
            &&& forall|k: int|
                0 <= k < targets.len() ==> table_entry(after.builder.commands, table, k as usize)
                    == trampoline_of(seen, #[trigger] targets[k])
            &&& forall|i: int, j: int|
                0 <= i < targets.len() && 0 <= j < targets.len() ==> ((trampoline_of(
                    seen,
                    #[trigger] targets[i],
                ) == trampoline_of(seen, #[trigger] targets[j])) <==> targets[i] == targets[j])
            &&& after.builder.commands[base - 1] matches CommandModel::Ins { header, args: carried, .. }
            &&& header == InstHeader::spec_branch(
                Opcode::Jump,
                state.frame_at(default as int).spec_br_destination(),
            )
            &&& carried == args
            &&& forall|i: int|
                0 <= i < seen.len() ==> {
                    let (depth, ebb) = #[trigger] seen[i];
                    &&& after.builder.commands[base + 3 * i] == CommandModel::SwitchToBlock(ebb)
                    &&& after.builder.commands[base + 3 * i + 1] == CommandModel::SealBlock(ebb)
                    &&& after.builder.commands[base + 3 * i + 2] matches CommandModel::Ins {
                        header,
                        args: carried,
                        ..
                    }
                    &&& header == InstHeader::spec_branch(
                        Opcode::Jump,
                        state.frame_at(depth as int).spec_br_destination(),
                    )
                    &&& carried == args
                    &&& after.builder.is_sealed(ebb)
                    &&& after.builder.is_filled_ebb(ebb)
                }
        }),
{
    let arity = state.br_table_arity(targets, default);
    let index = state.stack.last();
    let popped = TranslationModel { stack: state.stack.drop_last(), ..state };
    let args = popped.top_values(arity as int);
    let (b1, table) = popped.builder.create_jump_table();
    let (b2, seen) = TranslationModel::fill_trampolines(b1, table, targets, targets.len() as int);
    let branched = popped.with_builder(b2).emit(
        TranslationModel::br_table_header(table),
        seq![index],
    );
    let mid = branched.emit(
        InstHeader::spec_branch(Opcode::Jump, state.frame_at(default as int).spec_br_destination()),
        args,
    );
    let after = state.op_br_table(targets, default);
    lemma_entries_lead_to_trampolines(b1, table, targets, targets.len() as int);
    assert(b1.num_ebbs() == state.builder.num_ebbs());
    assert(b1.filled.len() == state.builder.filled.len());
    assert(b2.sealed.len() == b2.filled.len());
    assert(branched.builder.filled.len() == b2.filled.len());
    assert(branched.builder.sealed.len() == b2.sealed.len());
    assert(mid.builder.filled.len() == b2.filled.len());
    assert(mid.builder.sealed.len() == b2.sealed.len());
    assert forall|i: int| 0 <= i < seen.len() implies (#[trigger] seen[i]).1.0
        < mid.builder.sealed.len() by {
        assert(seen[i].1 == Ebb((state.builder.num_ebbs() + i) as usize));
    }
    assert forall|k: int| 0 <= k < targets.len() implies table_entry(
        after.builder.commands,
        table,
        k as usize,
    ) == trampoline_of(seen, #[trigger] targets[k]) by {
        lemma_trampolines_hold_their_jump(mid, seen, args, seen.len() as int, table, k as usize);
        lemma_table_entry_push(
            b2.commands,
            branched.builder.commands.last(),
            table,
            k as usize,
        );
        assert(branched.builder.commands =~= b2.commands.push(branched.builder.commands.last()));
        lemma_table_entry_push(
            branched.builder.commands,
            mid.builder.commands.last(),
            table,
            k as usize,
        );
        assert(mid.builder.commands =~= branched.builder.commands.push(
            mid.builder.commands.last(),
        ));
    }
    lemma_trampolines_hold_their_jump(mid, seen, args, seen.len() as int, table, 0);
    assert forall|i: int, j: int|
        0 <= i < targets.len() && 0 <= j < targets.len() && trampoline_of(
            seen,
            #[trigger] targets[i],
        ) == trampoline_of(seen, #[trigger] targets[j]) implies targets[i] == targets[j] by {
        lemma_trampoline_was_made(seen, targets[i]);
        lemma_trampoline_was_made(seen, targets[j]);
        let ebb = trampoline_of(seen, targets[i]).unwrap();
        let a = choose|a: int| 0 <= a < seen.len() && #[trigger] seen[a] == (targets[i], ebb);
        let b = choose|b: int| 0 <= b < seen.len() && #[trigger] seen[b] == (targets[j], ebb);
        assert(seen[a].1 == Ebb((state.builder.num_ebbs() + a) as usize));
        assert(seen[b].1 == Ebb((state.builder.num_ebbs() + b) as usize));
        assert(a == b);
    }
    assert(mid.builder.commands.len() == b2.commands.len() + 2);
    let done = mid.emit_trampolines(seen, args, seen.len() as int);
    assert(after.builder == done.builder);
    let base = after.builder.commands.len() - 3 * seen.len();
    assert(done.builder.commands[base - 1] == mid.builder.commands[base - 1]);
}

} // verus!
