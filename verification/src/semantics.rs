//! What each operator does to the state of a translation, as mathematical
//! functions. The translator is proved to compute them.
use vstd::prelude::*;
use crate::ir::{Ebb, Value, Inst, FuncRef, SigRef, JumpTable, Local, ValueType, Opcode, Imm, Target,
                InstHeader};
use crate::builder::BuilderModel;
use crate::operator::{WasmOperator, Lowering, lowering};
use crate::runtime::runtime::{WasmRuntime, bind_results};
use crate::state::{ControlStackFrame, ModuleModel, TranslationModel};
use crate::translation_utils::{FunctionIndex, SignatureIndex, WasmType, value_type, is_block_type,
                               block_results};

verus! {

/// The smallest of the depths of a `br_table`.
pub open spec fn min_depth(targets: Seq<u32>, default: u32) -> u32
    decreases targets.len(),
{
    if targets.len() == 0 {
        default
    } else {
        let rest = min_depth(targets.drop_last(), default);
        if targets.last() < rest {
            targets.last()
        } else {
            rest
        }
    }
}

/// The trampoline made for a depth, if one was.
pub open spec fn trampoline_of(seen: Seq<(u32, Ebb)>, depth: u32) -> Option<Ebb>
    decreases seen.len(),
{
    if seen.len() == 0 {
        None
    } else if seen.last().0 == depth {
        Some(seen.last().1)
    } else {
        trampoline_of(seen.drop_last(), depth)
    }
}

/// The header of the instruction `select`.
pub open spec fn select_header() -> InstHeader {
    InstHeader::spec_plain(Opcode::Select)
}

/// The zero of a type, to which a declared local is initialised.
pub open spec fn zero_of(ty: ValueType) -> InstHeader {
    match ty {
        ValueType::I32 | ValueType::I64 => InstHeader {
            ty: Some(ty),
            imm: Some(Imm::Int(0)),
            ..InstHeader::spec_plain(Opcode::Iconst)
        },
        ValueType::F32 => InstHeader {
            imm: Some(Imm::Ieee32(0)),
            ..InstHeader::spec_plain(Opcode::F32const)
        },
        ValueType::F64 => InstHeader {
            imm: Some(Imm::Ieee64(0)),
            ..InstHeader::spec_plain(Opcode::F64const)
        },
    }
}

impl TranslationModel {
    /// The state with another builder.
    pub open spec fn with_builder(self, builder: BuilderModel) -> TranslationModel {
        TranslationModel { builder, ..self }
    }

    /// Appends an instruction.
    pub open spec fn emit(self, header: InstHeader, args: Seq<Value>) -> TranslationModel {
        self.with_builder(self.builder.ins(header, args).0)
    }

    /// Marks what follows as unreachable until `depth` constructs have ended.
    pub open spec fn diverge(self, depth: int) -> TranslationModel {
        TranslationModel { real_depth: depth, ..self }
    }

    // Operators that compute.

    pub open spec fn op_compute(self, header: InstHeader, arity: usize, widen: Option<InstHeader>)
        -> TranslationModel {
        let (b1, _inst, first) = self.builder.ins(header, self.top_values(arity as int));
        let rest = self.below_top(arity as int);
        match widen {
            Some(wide) => {
                let (b2, _inst2, second) = b1.ins(wide, seq![first.unwrap()]);
                TranslationModel { builder: b2, stack: rest.push(second.unwrap()), ..self }
            },
            None => TranslationModel { builder: b1, stack: rest.push(first.unwrap()), ..self },
        }
    }

    pub open spec fn op_store(self, header: InstHeader) -> TranslationModel {
        let value = self.stack.last();
        let address = self.stack.drop_last().last();
        TranslationModel {
            builder: self.builder.ins(header, seq![value, address]).0,
            stack: self.stack.drop_last().drop_last(),
            ..self
        }
    }

    pub open spec fn op_lowered(self, low: Lowering) -> TranslationModel {
        match low {
            Lowering::Compute { header, arity, widen } => self.op_compute(header, arity, widen),
            Lowering::Store { header } => self.op_store(header),
        }
    }

    pub open spec fn op_drop(self) -> TranslationModel {
        TranslationModel { stack: self.stack.drop_last(), ..self }
    }

    /// `select` pops the condition, then the value for a zero condition, then
    /// the value for a condition that is not zero.
    pub open spec fn op_select(self) -> TranslationModel {
        let cond = self.stack.last();
        let if_zero = self.stack.drop_last().last();
        let if_not_zero = self.stack.drop_last().drop_last().last();
        let (b, _inst, result) = self.builder.ins(
            select_header(),
            seq![cond, if_not_zero, if_zero],
        );
        TranslationModel {
            builder: b,
            stack: self.stack.drop_last().drop_last().drop_last().push(result.unwrap()),
            ..self
        }
    }

    pub open spec fn op_get_local(self, local_index: u32) -> TranslationModel {
        let (b, value) = self.builder.use_var(Local(local_index));
        TranslationModel { builder: b, stack: self.stack.push(value), ..self }
    }

    pub open spec fn op_set_local(self, local_index: u32) -> TranslationModel {
        TranslationModel {
            builder: self.builder.def_var(Local(local_index), self.stack.last()),
            stack: self.stack.drop_last(),
            ..self
        }
    }

    pub open spec fn op_tee_local(self, local_index: u32) -> TranslationModel {
        self.with_builder(self.builder.def_var(Local(local_index), self.stack.last()))
    }

    // Structured control.

    /// A new block with one parameter if `ty` is a value type.
    pub open spec fn new_exit(builder: BuilderModel, ty: WasmType) -> (BuilderModel, Ebb) {
        let (b, ebb) = builder.create_ebb();
        match value_type(ty) {
            Some(t) => (b.append_ebb_arg(ebb, t).0, ebb),
            None => (b, ebb),
        }
    }

    pub open spec fn op_block(self, ty: WasmType) -> TranslationModel {
        let (b, next) = TranslationModel::new_exit(self.builder, ty);
        TranslationModel {
            builder: b,
            control_stack: self.control_stack.push(
                ControlStackFrame::Block {
                    destination: next,
                    num_return_values: block_results(ty).len() as usize,
                    original_stack_size: self.stack.len() as usize,
                },
            ),
            ..self
        }
    }

    pub open spec fn op_loop(self, ty: WasmType) -> TranslationModel {
        let (b1, header) = self.builder.create_ebb();
        let (b2, next) = TranslationModel::new_exit(b1, ty);
        let b3 = b2.ins(InstHeader::spec_branch(Opcode::Jump, header), seq![]).0;
        TranslationModel {
            builder: b3.switch_to_block(header),
            control_stack: self.control_stack.push(
                ControlStackFrame::Loop {
                    destination: next,
                    header,
                    num_return_values: block_results(ty).len() as usize,
                    original_stack_size: self.stack.len() as usize,
                },
            ),
            ..self
        }
    }

    pub open spec fn op_if(self, ty: WasmType) -> TranslationModel {
        let cond = self.stack.last();
        let (b1, if_not) = self.builder.create_ebb();
        let (b2, branch_inst, _r) = b1.ins(InstHeader::spec_branch(Opcode::Brz, if_not), seq![cond]);
        let b3 = match value_type(ty) {
            Some(t) => b2.append_ebb_arg(if_not, t).0,
            None => b2,
        };
        TranslationModel {
            builder: b3,
            stack: self.stack.drop_last(),
            control_stack: self.control_stack.push(
                ControlStackFrame::If {
                    destination: if_not,
                    branch_inst,
                    num_return_values: block_results(ty).len() as usize,
                    original_stack_size: (self.stack.len() - 1) as usize,
                },
            ),
            ..self
        }
    }

    /// The block of the false arm: a new block, to which the conditional
    /// branch of the `if` is redirected, sealed and made current.
    pub open spec fn begin_else(builder: BuilderModel, branch_inst: Inst) -> (BuilderModel, Ebb) {
        let (b1, else_ebb) = builder.create_ebb();
        (
            b1.change_jump_destination(branch_inst, else_ebb).seal_block(else_ebb).switch_to_block(
                else_ebb,
            ),
            else_ebb,
        )
    }

    /// The true arm ends with a jump that carries its results to the block
    /// after the `if`, and the false arm begins. The frame stays that of an
    /// `if`; its branch is spent, and no second `else` is taken.
    pub open spec fn op_else(self) -> TranslationModel {
        match self.top() {
            ControlStackFrame::If {
                destination,
                branch_inst,
                num_return_values,
                original_stack_size,
            } => {
                let b1 = self.builder.ins(
                    InstHeader::spec_branch(Opcode::Jump, destination),
                    self.top_values(num_return_values as int),
                ).0;
                TranslationModel {
                    builder: TranslationModel::begin_else(b1, branch_inst).0,
                    stack: self.stack.subrange(0, original_stack_size as int),
                    ..self
                }
            },
            _ => self,
        }
    }

    /// Goes to the block that follows a construct that ends, and seals what
    /// can have no further predecessor: that block and, of a loop, the header.
    pub open spec fn close_frame(builder: BuilderModel, frame: ControlStackFrame) -> BuilderModel {
        let b = builder.switch_to_block(frame.spec_following_code()).seal_block(
            frame.spec_following_code(),
        );
        match frame {
            ControlStackFrame::Loop { header, .. } => b.seal_block(header),
            _ => b,
        }
    }

    pub open spec fn op_end(self) -> TranslationModel {
        let frame = self.top();
        let exit = frame.spec_following_code();
        let b1 = self.builder.ins(
            InstHeader::spec_branch(Opcode::Jump, exit),
            self.top_values(frame.spec_num_return_values() as int),
        ).0;
        TranslationModel {
            builder: TranslationModel::close_frame(b1, frame),
            stack: self.stack.subrange(0, frame.spec_original_stack_size() as int)
                + self.builder.ebb_args(exit),
            control_stack: self.control_stack.drop_last(),
            ..self
        }
    }

    // Branches.

    pub open spec fn op_br(self, relative_depth: u32) -> TranslationModel {
        let frame = self.frame_at(relative_depth as int);
        let arity = frame.spec_br_arity();
        TranslationModel {
            builder: self.builder.ins(
                InstHeader::spec_branch(Opcode::Jump, frame.spec_br_destination()),
                self.top_values(arity as int),
            ).0,
            stack: self.below_top(arity as int),
            real_depth: 1 + relative_depth,
            ..self
        }
    }

    pub open spec fn op_br_if(self, relative_depth: u32) -> TranslationModel {
        let frame = self.frame_at(relative_depth as int);
        let cond = self.stack.last();
        let rest = TranslationModel { stack: self.stack.drop_last(), ..self };
        TranslationModel {
            builder: self.builder.ins(
                InstHeader::spec_branch(Opcode::Brnz, frame.spec_br_destination()),
                seq![cond] + rest.top_values(frame.spec_br_arity() as int),
            ).0,
            ..rest
        }
    }

    /// The number of values that a `br_table` carries: what a branch to the
    /// frame of the smallest depth carries.
    pub open spec fn br_table_arity(self, targets: Seq<u32>, default: u32) -> usize {
        self.frame_at(min_depth(targets, default) as int).spec_br_arity()
    }

    /// The first `n` entries of a jump table whose branches carry nothing:
    /// each entry is the destination of its depth, which is recorded as
    /// reachable.
    pub open spec fn fill_direct(self, table: JumpTable, targets: Seq<u32>, n: int)
        -> TranslationModel
        decreases n,
    {
        if n <= 0 {
            self
        } else {
            let before = self.fill_direct(table, targets, n - 1);
            let ebb = before.frame_at(targets[n - 1] as int).spec_br_destination();
            TranslationModel {
                builder: before.builder.insert_jump_table_entry(table, (n - 1) as usize, ebb),
                reachable_ebbs: before.reachable_ebbs.push(ebb),
                ..before
            }
        }
    }

    /// The first `n` entries of a jump table whose branches carry values:
    /// each entry is the trampoline of its depth, made when the depth is
    /// first met. The trampolines are returned with their depths, in the
    /// order in which they were made.
    pub open spec fn fill_trampolines(builder: BuilderModel, table: JumpTable, targets: Seq<u32>, n: int)
        -> (BuilderModel, Seq<(u32, Ebb)>)
        decreases n,
    {
        if n <= 0 {
            (builder, seq![])
        } else {
            let (b, seen) = TranslationModel::fill_trampolines(builder, table, targets, n - 1);
            let depth = targets[n - 1];
            match trampoline_of(seen, depth) {
                Some(ebb) => (b.insert_jump_table_entry(table, (n - 1) as usize, ebb), seen),
                None => {
                    let (b1, ebb) = b.create_ebb();
                    (
                        b1.insert_jump_table_entry(table, (n - 1) as usize, ebb),
                        seen.push((depth, ebb)),
                    )
                },
            }
        }
    }

    /// The code of the first `n` trampolines: each is made current, sealed,
    /// and filled with a jump to the destination of its depth that carries
    /// `args`. Trampoline and destination are recorded as reachable.
    pub open spec fn emit_trampolines(self, seen: Seq<(u32, Ebb)>, args: Seq<Value>, n: int)
        -> TranslationModel
        decreases n,
    {
        if n <= 0 {
            self
        } else {
            let before = self.emit_trampolines(seen, args, n - 1);
            let (depth, ebb) = seen[n - 1];
            let destination = before.frame_at(depth as int).spec_br_destination();
            TranslationModel {
                builder: before.builder.switch_to_block(ebb).seal_block(ebb).ins(
                    InstHeader::spec_branch(Opcode::Jump, destination),
                    args,
                ).0,
                reachable_ebbs: before.reachable_ebbs.push(ebb).push(destination),
                ..before
            }
        }
    }

    /// The header of the instruction that branches through a jump table.
    pub open spec fn br_table_header(table: JumpTable) -> InstHeader {
        InstHeader { target: Some(Target::Table(table)), ..InstHeader::spec_plain(Opcode::BrTable) }
    }

    pub open spec fn op_br_table(self, targets: Seq<u32>, default: u32) -> TranslationModel {
        let arity = self.br_table_arity(targets, default);
        let index = self.stack.last();
        let popped = TranslationModel { stack: self.stack.drop_last(), ..self };
        let args = popped.top_values(arity as int);
        let default_ebb = self.frame_at(default as int).spec_br_destination();
        let jump_default = InstHeader::spec_branch(Opcode::Jump, default_ebb);
        let done = if arity == 0 {
            if targets.len() > 0 {
                let (b1, table) = popped.builder.create_jump_table();
                let filled = popped.with_builder(b1).fill_direct(table, targets, targets.len() as int);
                filled.emit(TranslationModel::br_table_header(table), seq![index]).emit(
                    jump_default,
                    seq![],
                )
            } else {
                popped.emit(jump_default, seq![])
            }
        } else {
            if targets.len() > 0 {
                let (b1, table) = popped.builder.create_jump_table();
                let (b2, seen) = TranslationModel::fill_trampolines(
                    b1,
                    table,
                    targets,
                    targets.len() as int,
                );
                popped.with_builder(b2).emit(
                    TranslationModel::br_table_header(table),
                    seq![index],
                ).emit(jump_default, args).emit_trampolines(seen, args, seen.len() as int)
            } else {
                popped.emit(jump_default, args)
            }
        };
        TranslationModel {
            reachable_ebbs: done.reachable_ebbs.push(default_ebb),
            real_depth: 1 + min_depth(targets, default),
            ..done
        }
    }

    pub open spec fn op_return(self) -> TranslationModel {
        let count = self.control_stack[0].spec_num_return_values();
        TranslationModel {
            builder: self.builder.ins(
                InstHeader::spec_plain(Opcode::Return),
                self.top_values(count as int),
            ).0,
            stack: self.below_top(count as int),
            last_inst_return: true,
            real_depth: 1,
            ..self
        }
    }

    pub open spec fn op_unreachable(self) -> TranslationModel {
        self.emit(InstHeader::spec_plain(Opcode::Trap), seq![]).diverge(1)
    }

    // Calls.

    /// The handle of a signature of the module: the one recorded for it, or
    /// a new import, which is recorded.
    pub open spec fn intern_signature(self, module: ModuleModel, sig_index: SignatureIndex) -> (
        TranslationModel,
        SigRef,
    ) {
        if self.signatures.contains_key(sig_index) {
            (self, self.signatures[sig_index])
        } else {
            let (b, sigref) = self.builder.import_signature(module.signatures[sig_index as int]@);
            (
                TranslationModel {
                    builder: b,
                    signatures: self.signatures.insert(sig_index, sigref),
                    ..self
                },
                sigref,
            )
        }
    }

    /// The handle of a function of the module: the one recorded for it, or
    /// a new import under its exported name and with its interned signature,
    /// which is recorded.
    pub open spec fn intern_function(self, module: ModuleModel, index: FunctionIndex) -> (
        TranslationModel,
        FuncRef,
    ) {
        if self.functions.contains_key(index) {
            (self, self.functions[index])
        } else {
            let (m, sigref) = self.intern_signature(module, module.functions[index as int]);
            let (b, funcref) = m.builder.import_function(module.export_name(index), sigref);
            (
                TranslationModel {
                    builder: b,
                    functions: m.functions.insert(index, funcref),
                    ..m
                },
                funcref,
            )
        }
    }

    /// The header of a call of an imported function.
    pub open spec fn call_header(funcref: FuncRef) -> InstHeader {
        InstHeader { target: Some(Target::Func(funcref)), ..InstHeader::spec_plain(Opcode::Call) }
    }

    pub open spec fn op_call(self, module: ModuleModel, function_index: u32) -> TranslationModel {
        let signature = module.signatures[module.functions[function_index as int] as int]@;
        let args = self.top_values(signature.argument_types.len() as int);
        let rest = self.below_top(signature.argument_types.len() as int);
        let (m, funcref) = self.intern_function(module, function_index as usize);
        let (b1, inst, _r) = m.builder.ins(TranslationModel::call_header(funcref), args);
        let (b2, results) = bind_results(b1, inst, 0, signature.return_types.len() as usize);
        TranslationModel { builder: b2, stack: rest + results, ..m }
    }

    pub open spec fn op_call_indirect<R: WasmRuntime>(self, runtime: R, module: ModuleModel, index: u32)
        -> TranslationModel {
        let signature = module.signatures[index as int]@;
        let (m, sigref) = self.intern_signature(module, index as usize);
        let callee = self.stack.last();
        let popped = TranslationModel { stack: self.stack.drop_last(), ..self };
        let args = popped.top_values(signature.argument_types.len() as int);
        let rest = popped.below_top(signature.argument_types.len() as int);
        let (b, results) = runtime.call_indirect(
            m.builder,
            sigref,
            callee,
            args,
            signature.return_types.len() as usize,
        );
        TranslationModel { builder: b, stack: rest + results, ..m }
    }

    // Unreachable code.

    /// A construct opened in unreachable code is only counted.
    pub open spec fn skip_open(self) -> TranslationModel {
        TranslationModel { phantom_depth: self.phantom_depth + 1, ..self }
    }

    /// An `end` met in unreachable code. One that closes a construct opened
    /// in unreachable code is only counted. One that closes a real frame goes
    /// to the block after it. Code is reachable again there if this was the
    /// last frame that had to end, if the frame is that of an `if`, with or
    /// without `else`, or if a `br_table` goes to the block: then the stack
    /// is the frame's stack at entry and the block's parameters.
    pub open spec fn skip_end(self) -> TranslationModel {
        if self.phantom_depth > 0 {
            TranslationModel { phantom_depth: self.phantom_depth - 1, ..self }
        } else {
            let frame = self.top();
            let exit = frame.spec_following_code();
            let left = if frame is If || self.reachable_ebbs.contains(exit) {
                1
            } else {
                self.real_depth
            };
            let kept = self.stack.subrange(0, frame.spec_original_stack_size() as int);
            TranslationModel {
                builder: TranslationModel::close_frame(self.builder, frame),
                stack: if left == 1 {
                    kept + self.builder.ebb_args(exit)
                } else {
                    kept
                },
                control_stack: self.control_stack.drop_last(),
                real_depth: left - 1,
                last_inst_return: false,
                ..self
            }
        }
    }

    /// An `else` met in unreachable code. If it belongs to a real `if`, the
    /// false arm begins and is reachable. The frame stays that of an `if`.
    pub open spec fn skip_else(self) -> TranslationModel {
        if self.phantom_depth > 0 {
            self
        } else {
            match self.top() {
                ControlStackFrame::If { branch_inst, original_stack_size, .. } => TranslationModel {
                    builder: TranslationModel::begin_else(self.builder, branch_inst).0,
                    stack: self.stack.subrange(0, original_stack_size as int),
                    real_depth: 0,
                    last_inst_return: false,
                    ..self
                },
                _ => self,
            }
        }
    }

    /// What an operator met in unreachable code does.
    pub open spec fn skip(self, op: WasmOperator) -> TranslationModel {
        match op {
            WasmOperator::Block { .. } | WasmOperator::Loop { .. } | WasmOperator::If { .. } => self.skip_open(),
            WasmOperator::End => self.skip_end(),
            WasmOperator::Else => self.skip_else(),
            _ => self,
        }
    }

    /// What an operator met in reachable code does, and the runtime after it.
    pub open spec fn translate<R: WasmRuntime>(self, runtime: R, module: ModuleModel, op: WasmOperator)
        -> (TranslationModel, R) {
        let start = TranslationModel { last_inst_return: false, ..self };
        match op {
            WasmOperator::GetLocal { local_index } => (start.op_get_local(local_index), runtime),
            WasmOperator::SetLocal { local_index } => (start.op_set_local(local_index), runtime),
            WasmOperator::TeeLocal { local_index } => (start.op_tee_local(local_index), runtime),
            WasmOperator::GetGlobal { global_index } => {
                let (b, value) = runtime.get_global(start.builder, global_index as usize);
                (TranslationModel { builder: b, stack: start.stack.push(value), ..start }, runtime)
            },
            WasmOperator::SetGlobal { global_index } => (
                TranslationModel {
                    builder: runtime.set_global(
                        start.builder,
                        global_index as usize,
                        start.stack.last(),
                    ),
                    stack: start.stack.drop_last(),
                    ..start
                },
                runtime,
            ),
            WasmOperator::Drop => (start.op_drop(), runtime),
            WasmOperator::Select => (start.op_select(), runtime),
            WasmOperator::Nop => (start, runtime),
            WasmOperator::Unreachable => (start.op_unreachable(), runtime),
            WasmOperator::Return => (start.op_return(), runtime),
            WasmOperator::Block { ty } => (start.op_block(ty), runtime),
            WasmOperator::Loop { ty } => (start.op_loop(ty), runtime),
            WasmOperator::If { ty } => (start.op_if(ty), runtime),
            WasmOperator::Else => (start.op_else(), runtime),
            WasmOperator::End => (start.op_end(), runtime),
            WasmOperator::Br { relative_depth } => (start.op_br(relative_depth), runtime),
            WasmOperator::BrIf { relative_depth } => (start.op_br_if(relative_depth), runtime),
            WasmOperator::BrTable { table } => (start.op_br_table(table.targets@, table.default), runtime),
            WasmOperator::Call { function_index } => (start.op_call(module, function_index), runtime),
            WasmOperator::CallIndirect { index, table_index } => (
                start.op_call_indirect(runtime, module, index),
                runtime,
            ),
            WasmOperator::GrowMemory { reserved } => {
                let (r, b, value) = runtime.grow_memory(start.builder, start.stack.last());
                (
                    TranslationModel {
                        builder: b,
                        stack: start.stack.drop_last().push(value),
                        ..start
                    },
                    r,
                )
            },
            WasmOperator::CurrentMemory { reserved } => {
                let (r, b, value) = runtime.current_memory(start.builder);
                (TranslationModel { builder: b, stack: start.stack.push(value), ..start }, r)
            },
            _ => match lowering(op) {
                Some(low) => (start.op_lowered(low), runtime),
                None => (start, runtime),
            },
        }
    }

    /// What an operator does: it is translated where code is reachable, and
    /// only tracked where it is not.
    pub open spec fn step<R: WasmRuntime>(self, runtime: R, module: ModuleModel, op: WasmOperator) -> (
        TranslationModel,
        R,
    ) {
        if self.reachable() {
            self.translate(runtime, module, op)
        } else {
            (self.skip(op), runtime)
        }
    }

    // What operators a state takes.

    /// The innermost frame is that of an `if` whose `else` is not met yet:
    /// its branch can still be redirected.
    pub open spec fn takes_else(self) -> bool {
        self.top() matches ControlStackFrame::If { branch_inst, .. } && self.builder.can_redirect(
            branch_inst,
        )
    }

    /// Every depth of a `br_table` names an open construct.
    pub open spec fn depths_ok(self, targets: Seq<u32>, default: u32) -> bool {
        &&& default < self.control_stack.len()
        &&& forall|i: int| 0 <= i < targets.len() ==> #[trigger] targets[i] < self.control_stack.len()
    }

    /// The operators that reachable code takes in this state: those whose
    /// operands are on the stack above what the innermost construct found
    /// there, and whose immediates name what exists. Validation of the
    /// module lets no other through.
    pub open spec fn accepts_reachable<R: WasmRuntime>(self, runtime: R, module: ModuleModel, op: WasmOperator)
        -> bool {
        match op {
            WasmOperator::GetLocal { local_index } => local_index < self.builder.vars.len(),
            WasmOperator::SetLocal { local_index } | WasmOperator::TeeLocal { local_index } => {
                local_index < self.builder.vars.len() && self.has_operands(1)
            },
            WasmOperator::GetGlobal { global_index } => runtime.ready() && runtime.has_global(
                global_index as usize,
            ),
            WasmOperator::SetGlobal { global_index } => runtime.ready() && runtime.has_global(
                global_index as usize,
            ) && self.has_operands(1),
            WasmOperator::Drop => self.has_operands(1),
            WasmOperator::Select => self.has_operands(3),
            WasmOperator::Nop | WasmOperator::Unreachable => true,
            WasmOperator::Return => self.has_operands(self.control_stack[0].spec_num_return_values() as int),
            WasmOperator::Block { ty } | WasmOperator::Loop { ty } => is_block_type(ty),
            WasmOperator::If { ty } => is_block_type(ty) && self.has_operands(1),
            WasmOperator::Else => self.takes_else() && self.has_operands(
                self.top().spec_num_return_values() as int,
            ),
            WasmOperator::End => self.control_stack.len() >= 2 && self.has_operands(
                self.top().spec_num_return_values() as int,
            ),
            WasmOperator::Br { relative_depth } => relative_depth < self.control_stack.len()
                && self.has_operands(self.frame_at(relative_depth as int).spec_br_arity() as int),
            WasmOperator::BrIf { relative_depth } => relative_depth < self.control_stack.len()
                && self.has_operands(
                1 + self.frame_at(relative_depth as int).spec_br_arity(),
            ),
            WasmOperator::BrTable { table } => self.depths_ok(table.targets@, table.default)
                && self.has_operands(1 + self.br_table_arity(table.targets@, table.default)),
            WasmOperator::Call { function_index } => {
                &&& function_index < module.functions.len()
                &&& self.has_operands(
                    module.signatures[module.functions[function_index as int] as int]@.argument_types.len() as int,
                )
            },
            WasmOperator::CallIndirect { index, table_index } => {
                &&& runtime.ready()
                &&& runtime.can_call_indirect()
                &&& index < module.signatures.len()
                &&& self.has_operands(1 + module.signatures[index as int]@.argument_types.len() as int)
            },
            WasmOperator::GrowMemory { reserved } => runtime.ready() && self.has_operands(1),
            WasmOperator::CurrentMemory { reserved } => runtime.ready(),
            _ => match lowering(op) {
                Some(low) => self.has_operands(low.spec_pops() as int),
                None => true,
            },
        }
    }

    /// The operators that unreachable code takes in this state.
    pub open spec fn accepts_unreachable(self, op: WasmOperator) -> bool {
        match op {
            WasmOperator::Block { .. } | WasmOperator::Loop { .. } | WasmOperator::If { .. } => self.phantom_depth
                < usize::MAX,
            WasmOperator::End => self.phantom_depth > 0 || self.control_stack.len() >= 2,
            WasmOperator::Else => self.phantom_depth > 0 || self.takes_else(),
            _ => true,
        }
    }

    /// The operators that this state takes.
    pub open spec fn accepts<R: WasmRuntime>(self, runtime: R, module: ModuleModel, op: WasmOperator)
        -> bool {
        if self.reachable() {
            self.accepts_reachable(runtime, module, op)
        } else {
            self.accepts_unreachable(op)
        }
    }
}

// The whole body.

/// The entry block has a parameter for each of the first `n` arguments, and
/// each is the first value of the variable of its number.
pub open spec fn declare_arguments(builder: BuilderModel, entry: Ebb, types: Seq<ValueType>, n: int)
    -> BuilderModel
    decreases n,
{
    if n <= 0 {
        builder
    } else {
        let b = declare_arguments(builder, entry, types, n - 1);
        let (b1, value) = b.append_ebb_arg(entry, types[n - 1]);
        let var = Local(b.vars.len() as u32);
        b1.declare_var(var, types[n - 1]).def_var(var, value)
    }
}

/// The next `n` variables are declared with type `ty` and first value `zero`.
pub open spec fn declare_zeroed(builder: BuilderModel, ty: ValueType, zero: Value, n: int) -> BuilderModel
    decreases n,
{
    if n <= 0 {
        builder
    } else {
        let b = declare_zeroed(builder, ty, zero, n - 1);
        let var = Local(b.vars.len() as u32);
        b.declare_var(var, ty).def_var(var, zero)
    }
}

/// The locals of the first `n` declarations are declared, those of each
/// declaration with the zero of its type, which is materialised once.
pub open spec fn declare_locals(builder: BuilderModel, locals: Seq<(u32, WasmType)>, n: int)
    -> BuilderModel
    decreases n,
{
    if n <= 0 {
        builder
    } else {
        let b = declare_locals(builder, locals, n - 1);
        let ty = value_type(locals[n - 1].1).unwrap();
        let (b1, _inst, zero) = b.ins(zero_of(ty), seq![]);
        declare_zeroed(b1, ty, zero.unwrap(), locals[n - 1].0 as int)
    }
}

/// The number of locals of the first `n` declarations.
pub open spec fn count_locals(locals: Seq<(u32, WasmType)>, n: int) -> int
    decreases n,
{
    if n <= 0 {
        0
    } else {
        count_locals(locals, n - 1) + locals[n - 1].0
    }
}

/// Every declared local has a value type.
pub open spec fn locals_supported(locals: Seq<(u32, WasmType)>) -> bool {
    forall|i: int| 0 <= i < locals.len() ==> value_type((#[trigger] locals[i]).1) is Some
}

/// The arguments and locals can be numbered.
pub open spec fn locals_fit(signature: crate::ir::SignatureModel, locals: Seq<(u32, WasmType)>)
    -> bool {
    signature.argument_types.len() + count_locals(locals, locals.len() as int) <= u32::MAX
}

/// A new block with a parameter for each of the first `n` types.
pub open spec fn append_params(builder: BuilderModel, ebb: Ebb, types: Seq<ValueType>, n: int)
    -> BuilderModel
    decreases n,
{
    if n <= 0 {
        builder
    } else {
        append_params(builder, ebb, types, n - 1).append_ebb_arg(ebb, types[n - 1]).0
    }
}

impl TranslationModel {
    /// The state in which the first operator of a body is met: the entry
    /// block is current and sealed, the arguments and the locals are
    /// variables, and the only frame is that of the body, whose block is
    /// where the function returns from, with a parameter for each result.
    pub open spec fn begin(signature: crate::ir::SignatureModel, locals: Seq<(u32, WasmType)>)
        -> TranslationModel {
        let (b1, entry) = BuilderModel::empty().create_ebb();
        let b2 = b1.switch_to_block(entry).seal_block(entry);
        let b3 = declare_arguments(
            b2,
            entry,
            signature.argument_types,
            signature.argument_types.len() as int,
        );
        let b4 = declare_locals(b3, locals, locals.len() as int);
        let (b5, exit) = b4.create_ebb();
        let b6 = append_params(
            b5,
            exit,
            signature.return_types,
            signature.return_types.len() as int,
        );
        TranslationModel {
            builder: b6,
            stack: seq![],
            control_stack: seq![
                ControlStackFrame::Block {
                    destination: exit,
                    num_return_values: signature.return_types.len() as usize,
                    original_stack_size: 0,
                },
            ],
            last_inst_return: false,
            phantom_depth: 0,
            real_depth: 0,
            reachable_ebbs: seq![],
            functions: Map::empty(),
            signatures: Map::empty(),
        }
    }

    /// Only the frame of the body is open.
    pub open spec fn at_body_level(self) -> bool {
        self.control_stack.len() == 1 && self.phantom_depth == 0
    }

    /// The operator is the `end` of the body.
    pub open spec fn closes_body(self, op: WasmOperator) -> bool {
        op == WasmOperator::End && self.at_body_level()
    }

    /// The body can end here: it is closed, and where its end is reachable
    /// the results are on the stack.
    pub open spec fn can_finish(self) -> bool {
        &&& self.at_body_level()
        &&& self.reachable() ==> self.has_operands(
            self.control_stack[0].spec_num_return_values() as int,
        )
    }

    /// Whether the end of the body has to jump to the block from which the
    /// function returns: it has where the end is reachable, and so neither
    /// follows a return nor stands in a filled block.
    pub open spec fn falls_through(self) -> bool {
        !self.last_inst_return && !self.builder.is_filled() && self.reachable()
    }

    /// The builder when the end of the body has jumped, where it has to, to
    /// the block of the body's frame with the results.
    pub open spec fn joined(self) -> BuilderModel {
        if self.falls_through() {
            self.builder.ins(
                InstHeader::spec_branch(Opcode::Jump, self.control_stack[0].spec_following_code()),
                self.top_values(self.control_stack[0].spec_num_return_values() as int),
            ).0
        } else {
            self.builder
        }
    }

    /// Whether the end of the body leaves out the return of the block of
    /// the body's frame: it does where the last instruction was a return
    /// and nothing goes to that block.
    pub open spec fn elides_return(self) -> bool {
        self.last_inst_return && !self.builder.is_targeted(
            self.control_stack[0].spec_following_code(),
        )
    }

    /// The function when its body has ended. Where the end is reachable, a
    /// jump carries the results to the block of the body's frame. That block
    /// is made current and sealed, and returns its parameters. After a
    /// return that ends the body no second return is made: the block, to
    /// which nothing goes, stays empty.
    pub open spec fn finish(self) -> BuilderModel {
        let frame = self.control_stack[0];
        let exit = frame.spec_following_code();
        let closed = TranslationModel::close_frame(self.joined(), frame);
        if self.elides_return() {
            closed
        } else {
            closed.ins(InstHeader::spec_plain(Opcode::Return), self.builder.ebb_args(exit)).0
        }
    }

    /// The translation of the operators from number `at` on, begun in this
    /// state: the state in which the body ends and the runtime then, or the
    /// number of the operator that the state it met did not take. A body
    /// that cannot end where the operators end fails at their count. The
    /// `end` of the body is the last operator, or is left out.
    #[verifier::opaque]
    pub open spec fn translate_from<R: WasmRuntime>(
        self,
        runtime: R,
        module: ModuleModel,
        ops: Seq<WasmOperator>,
        at: int,
    ) -> Result<(TranslationModel, R), int>
        decreases ops.len() - at,
    {
        if at >= ops.len() {
            if self.can_finish() {
                Ok((self, runtime))
            } else {
                Err(at)
            }
        } else if self.closes_body(ops[at]) {
            if at + 1 == ops.len() && self.can_finish() {
                Ok((self, runtime))
            } else {
                Err(at)
            }
        } else if self.accepts(runtime, module, ops[at]) {
            let (next, r) = self.step(runtime, module, ops[at]);
            next.translate_from(r, module, ops, at + 1)
        } else {
            Err(at)
        }
    }
}

/// The translation of a whole body: the state in which the body ends and
/// the runtime then, or the kind of the failure and the operator at which
/// it comes. A local of a type that is no value type comes first, then
/// arguments and locals that cannot be numbered, then the first operator
/// that the state it meets does not take.
pub open spec fn translate_body<R: WasmRuntime>(
    signature: crate::ir::SignatureModel,
    locals: Seq<(u32, WasmType)>,
    runtime: R,
    module: ModuleModel,
    ops: Seq<WasmOperator>,
) -> Result<(TranslationModel, R), (crate::translation_utils::ErrorKind, Option<usize>)> {
    if !locals_supported(locals) {
        Err((crate::translation_utils::ErrorKind::UnsupportedLocalType, None))
    } else if !locals_fit(signature, locals) {
        Err((crate::translation_utils::ErrorKind::MalformedStream, None))
    } else {
        match TranslationModel::begin(signature, locals).translate_from(runtime, module, ops, 0) {
            Ok(end) => Ok(end),
            Err(at) => Err((crate::translation_utils::ErrorKind::MalformedStream, Some(at as usize))),
        }
    }
}

/// What a translated function holds.
pub struct FunctionModel {
    pub name: Seq<char>,
    pub signature: crate::ir::SignatureModel,
    pub commands: Seq<crate::ir::CommandModel>,
    pub functions: Map<FunctionIndex, FuncRef>,
    pub signatures: Map<SignatureIndex, SigRef>,
}

/// The function that a translation which ended in `end` yields.
pub open spec fn function_of_translation(
    end: TranslationModel,
    module: ModuleModel,
    function_index: FunctionIndex,
    signature: crate::ir::SignatureModel,
) -> FunctionModel {
    FunctionModel {
        name: module.export_name(function_index),
        signature,
        commands: end.finish().commands,
        functions: end.functions,
        signatures: end.signatures,
    }
}

/// What a function and its imports hold.
pub open spec fn function_model(func: crate::ir::Function, imports: crate::state::FunctionImports)
    -> FunctionModel {
    FunctionModel {
        name: func.name@,
        signature: func.signature@,
        commands: crate::ir::commands_view(func.commands@),
        functions: imports.functions@,
        signatures: imports.signatures@,
    }
}

} // verus!
