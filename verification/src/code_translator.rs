//! The translation of the operators of one function body.
//!
//! A [`FuncTranslator`] owns everything that changes while a body is
//! translated. Each operator is handed to [`FuncTranslator::translate_operator`],
//! which computes [`TranslationModel::step`].
use vstd::prelude::*;
use std::collections::HashMap;
use crate::ir::{Ebb, Value, Inst, FuncRef, SigRef, JumpTable, Local, ValueType, Opcode, Imm, Target,
                InstHeader, Signature, Function, commands_view};
use crate::builder::{FunctionBuilder, BuilderModel, replay};
use crate::operator::{WasmOperator, Lowering, lower};
use crate::runtime::runtime::{WasmRuntime, emits_code, inst_results};
use crate::state::{ControlStackFrame, TranslationState, FunctionImports, ModuleModel,
                   TranslationModel};
use crate::semantics::{min_depth, trampoline_of, zero_of, declare_arguments,
                       declare_zeroed, declare_locals, count_locals, locals_supported, locals_fit,
                       append_params, translate_body, function_model, function_of_translation};
use crate::translation_utils::{FunctionIndex, SignatureIndex, WasmType, value_type,
                               block_results, type_to_type, ErrorKind, TranslationError};

verus! {

broadcast use vstd::std_specs::hash::group_hash_axioms;

/// What the translation of a function body reads of its module.
pub struct ModuleContext<'a> {
    /// The signatures of the type section.
    pub signatures: &'a Vec<Signature>,
    /// For each function, the index of its signature.
    pub functions: &'a Vec<SignatureIndex>,
    /// The names under which functions are exported, if the module has an
    /// export section.
    pub exports: &'a Option<HashMap<FunctionIndex, String>>,
}

impl<'a> View for ModuleContext<'a> {
    type V = ModuleModel;

    open spec fn view(&self) -> ModuleModel {
        ModuleModel {
            signatures: self.signatures@,
            functions: self.functions@,
            exports: match *self.exports {
                Some(names) => Some(names@),
                None => None,
            },
        }
    }
}

/// Everything that changes while one function body is translated.
pub struct FuncTranslator {
    pub builder: FunctionBuilder,
    pub stack: Vec<Value>,
    pub control_stack: Vec<ControlStackFrame>,
    pub state: TranslationState,
    pub func_imports: FunctionImports,
}

impl View for FuncTranslator {
    type V = TranslationModel;

    open spec fn view(&self) -> TranslationModel {
        TranslationModel {
            builder: self.builder@,
            stack: self.stack@,
            control_stack: self.control_stack@,
            last_inst_return: self.state.last_inst_return,
            phantom_depth: self.state.phantom_unreachable_stack_depth as int,
            real_depth: self.state.real_unreachable_stack_depth as int,
            reachable_ebbs: self.state.br_table_reachable_ebbs@,
            functions: self.func_imports.functions@,
            signatures: self.func_imports.signatures@,
        }
    }
}

impl FuncTranslator {
    /// The stacks fit the machine.
    proof fn lemma_bounded(&self)
        ensures
            self@.stack.len() <= usize::MAX,
            self@.control_stack.len() <= usize::MAX,
    {
        assert(self.stack@.len() == self.stack.len());
        assert(self.control_stack@.len() == self.control_stack.len());
    }

    /// Pops the `n` topmost operands.
    fn pop_values(&mut self, n: usize) -> (values: Vec<Value>)
        requires
            n <= old(self).stack@.len(),
        ensures
            values@ == old(self)@.top_values(n as int),
            final(self)@ == (TranslationModel { stack: old(self)@.below_top(n as int), ..old(self)@ }),
    {
        let at: usize = self.stack.len() - n;
        self.stack.split_off(at)
    }

    /// A copy of the `n` topmost operands.
    fn peek_values(&self, n: usize) -> (values: Vec<Value>)
        requires
            n <= self.stack@.len(),
        ensures
            values@ == self@.top_values(n as int),
    {
        let mut values: Vec<Value> = Vec::new();
        let from: usize = self.stack.len() - n;
        let mut i: usize = from;
        while i < self.stack.len()
            invariant
                from <= i <= self.stack.len(),
                from == self.stack.len() - n,
                values@ == self.stack@.subrange(from as int, i as int),
            decreases self.stack.len() - i,
        {
            values.push(self.stack[i]);
            assert(self.stack@.subrange(from as int, i as int).push(self.stack@[i as int])
                =~= self.stack@.subrange(from as int, i + 1));
            i += 1;
        }
        values
    }

    /// Pops an operand.
    fn pop1(&mut self) -> (value: Value)
        requires
            old(self).stack@.len() >= 1,
        ensures
            value == old(self).stack@.last(),
            final(self)@ == (TranslationModel { stack: old(self).stack@.drop_last(), ..old(self)@ }),
    {
        self.stack.pop().unwrap()
    }

    /// Pushes each value of a list.
    fn push_values(&mut self, values: &Vec<Value>)
        ensures
            final(self)@ == (TranslationModel { stack: old(self).stack@ + values@, ..old(self)@ }),
    {
        let mut i: usize = 0;
        assert(self.stack@ =~= old(self).stack@ + values@.subrange(0, 0));
        while i < values.len()
            invariant
                i <= values.len(),
                self@ == (TranslationModel {
                    stack: old(self).stack@ + values@.subrange(0, i as int),
                    ..old(self)@
                }),
            decreases values.len() - i,
        {
            self.stack.push(values[i]);
            assert((old(self).stack@ + values@.subrange(0, i as int)).push(values@[i as int])
                =~= old(self).stack@ + values@.subrange(0, i + 1));
            i += 1;
        }
        assert(values@.subrange(0, values.len() as int) =~= values@);
    }

    fn translate_compute(&mut self, header: InstHeader, arity: usize, widen: Option<InstHeader>)
        requires
            old(self)@.wf(),
            old(self)@.real_depth == 0,
            old(self)@.has_operands(arity as int),
            (Lowering::Compute { header, arity, widen }).wf(),
        ensures
            final(self)@ == old(self)@.op_compute(header, arity, widen),
            final(self)@.wf(),
    {
        let args = self.pop_values(arity);
        let (_inst, first) = self.builder.ins(header, args);
        match widen {
            Some(wide) => {
                let mut operand: Vec<Value> = Vec::new();
                operand.push(first.unwrap());
                assert(operand@ =~= seq![first.unwrap()]);
                let (_inst2, second) = self.builder.ins(wide, operand);
                self.stack.push(second.unwrap());
            },
            None => {
                self.stack.push(first.unwrap());
            },
        }
        proof {
            self.lemma_bounded();
        }
    }

    fn translate_store(&mut self, header: InstHeader)
        requires
            old(self)@.wf(),
            old(self)@.real_depth == 0,
            old(self)@.has_operands(2),
            (Lowering::Store { header }).wf(),
        ensures
            final(self)@ == old(self)@.op_store(header),
            final(self)@.wf(),
    {
        let value = self.pop1();
        let address = self.pop1();
        let mut args: Vec<Value> = Vec::new();
        args.push(value);
        args.push(address);
        assert(args@ =~= seq![value, address]);
        self.builder.ins(header, args);
        proof {
            self.lemma_bounded();
        }
    }

    fn translate_select(&mut self)
        requires
            old(self)@.wf(),
            old(self)@.real_depth == 0,
            old(self)@.has_operands(3),
        ensures
            final(self)@ == old(self)@.op_select(),
            final(self)@.wf(),
    {
        let cond = self.pop1();
        let if_zero = self.pop1();
        let if_not_zero = self.pop1();
        let mut args: Vec<Value> = Vec::new();
        args.push(cond);
        args.push(if_not_zero);
        args.push(if_zero);
        assert(args@ =~= seq![cond, if_not_zero, if_zero]);
        let (_inst, result) = self.builder.ins(InstHeader::plain(Opcode::Select), args);
        self.stack.push(result.unwrap());
        proof {
            self.lemma_bounded();
        }
    }

    fn translate_get_local(&mut self, local_index: u32)
        requires
            old(self)@.wf(),
            local_index < old(self)@.builder.vars.len(),
        ensures
            final(self)@ == old(self)@.op_get_local(local_index),
            final(self)@.wf(),
    {
        let value = self.builder.use_var(Local(local_index));
        self.stack.push(value);
        proof {
            self.lemma_bounded();
        }
    }

    fn translate_set_local(&mut self, local_index: u32)
        requires
            old(self)@.wf(),
            local_index < old(self)@.builder.vars.len(),
            old(self)@.has_operands(1),
        ensures
            final(self)@ == old(self)@.op_set_local(local_index),
            final(self)@.wf(),
    {
        let value = self.pop1();
        self.builder.def_var(Local(local_index), value);
        proof {
            self.lemma_bounded();
        }
    }

    fn translate_tee_local(&mut self, local_index: u32)
        requires
            old(self)@.wf(),
            local_index < old(self)@.builder.vars.len(),
            old(self)@.has_operands(1),
        ensures
            final(self)@ == old(self)@.op_tee_local(local_index),
            final(self)@.wf(),
    {
        let value = self.stack[self.stack.len() - 1];
        self.builder.def_var(Local(local_index), value);
        proof {
            self.lemma_bounded();
        }
    }
}

/// Whether a list of blocks holds a block.
pub fn contains_ebb(list: &Vec<Ebb>, ebb: Ebb) -> (found: bool)
    ensures
        found == list@.contains(ebb),
{
    let mut i: usize = 0;
    while i < list.len()
        invariant
            i <= list.len(),
            forall|j: int| 0 <= j < i ==> list@[j] != ebb,
        decreases list.len() - i,
    {
        if list[i] == ebb {
            return true;
        }
        i += 1;
    }
    false
}

/// Makes the block that follows a construct of type `ty`: a new block, with
/// one parameter if `ty` is a value type.
fn new_exit(builder: &mut FunctionBuilder, ty: WasmType) -> (ebb: Ebb)
    requires
        old(builder)@.wf(),
    ensures
        final(builder)@.wf(),
        (final(builder)@, ebb) == TranslationModel::new_exit(old(builder)@, ty),
{
    let ebb = builder.create_ebb();
    match type_to_type(&ty) {
        Ok(t) => {
            builder.append_ebb_arg(ebb, t);
        },
        Err(_) => {},
    }
    ebb
}

/// The number of results of a block of type `ty`.
fn num_results(ty: WasmType) -> (n: usize)
    ensures
        n == block_results(ty).len(),
{
    match type_to_type(&ty) {
        Ok(_) => 1,
        Err(_) => 0,
    }
}

/// Begins the false arm of an `if`.
fn begin_else(builder: &mut FunctionBuilder, branch_inst: Inst) -> (ebb: Ebb)
    requires
        old(builder)@.wf(),
        old(builder)@.can_leave(),
        old(builder)@.can_redirect(branch_inst),
    ensures
        final(builder)@.wf(),
        (final(builder)@, ebb) == TranslationModel::begin_else(old(builder)@, branch_inst),
{
    let else_ebb = builder.create_ebb();
    builder.change_jump_destination(branch_inst, else_ebb);
    builder.seal_block(else_ebb);
    builder.switch_to_block(else_ebb);
    else_ebb
}

/// Goes to the block that follows a construct that ends.
fn close_frame(builder: &mut FunctionBuilder, frame: ControlStackFrame)
    requires
        old(builder)@.wf(),
        old(builder)@.can_leave(),
        old(builder)@.has_ebb(frame.spec_following_code()),
        !old(builder)@.is_sealed(frame.spec_following_code()),
        !old(builder)@.is_filled_ebb(frame.spec_following_code()),
        frame matches ControlStackFrame::Loop { header, destination, .. } ==> old(builder)@.has_ebb(
            header,
        ) && !old(builder)@.is_sealed(header) && header != destination,
    ensures
        final(builder)@.wf(),
        final(builder)@ == TranslationModel::close_frame(old(builder)@, frame),
{
    builder.switch_to_block(frame.following_code());
    builder.seal_block(frame.following_code());
    match frame {
        ControlStackFrame::Loop { header, .. } => {
            builder.seal_block(header);
        },
        _ => {},
    }
}

impl FuncTranslator {
    fn translate_block(&mut self, ty: WasmType)
        requires
            old(self)@.wf(),
            old(self)@.real_depth == 0,
        ensures
            final(self)@ == old(self)@.op_block(ty),
            final(self)@.wf(),
    {
        let next = new_exit(&mut self.builder, ty);
        self.control_stack.push(
            ControlStackFrame::Block {
                destination: next,
                num_return_values: num_results(ty),
                original_stack_size: self.stack.len(),
            },
        );
        proof {
            self.lemma_bounded();
        }
    }

    fn translate_loop(&mut self, ty: WasmType)
        requires
            old(self)@.wf(),
            old(self)@.real_depth == 0,
        ensures
            final(self)@ == old(self)@.op_loop(ty),
            final(self)@.wf(),
    {
        let header = self.builder.create_ebb();
        let next = new_exit(&mut self.builder, ty);
        self.builder.ins(InstHeader::branch(Opcode::Jump, header), Vec::new());
        self.control_stack.push(
            ControlStackFrame::Loop {
                destination: next,
                header,
                num_return_values: num_results(ty),
                original_stack_size: self.stack.len(),
            },
        );
        self.builder.switch_to_block(header);
        proof {
            self.lemma_bounded();
        }
    }

    fn translate_if(&mut self, ty: WasmType)
        requires
            old(self)@.wf(),
            old(self)@.real_depth == 0,
            old(self)@.has_operands(1),
        ensures
            final(self)@ == old(self)@.op_if(ty),
            final(self)@.wf(),
    {
        let cond = self.pop1();
        let if_not = self.builder.create_ebb();
        let mut args: Vec<Value> = Vec::new();
        args.push(cond);
        assert(args@ =~= seq![cond]);
        let (branch_inst, _result) = self.builder.ins(InstHeader::branch(Opcode::Brz, if_not), args);
        match type_to_type(&ty) {
            Ok(t) => {
                self.builder.append_ebb_arg(if_not, t);
            },
            Err(_) => {},
        }
        self.control_stack.push(
            ControlStackFrame::If {
                destination: if_not,
                branch_inst,
                num_return_values: num_results(ty),
                original_stack_size: self.stack.len(),
            },
        );
        proof {
            self.lemma_bounded();
        }
    }

    fn translate_else(&mut self)
        requires
            old(self)@.wf(),
            old(self)@.real_depth == 0,
            old(self)@.takes_else(),
            old(self)@.has_operands(old(self)@.top().spec_num_return_values() as int),
        ensures
            final(self)@ == old(self)@.op_else(),
            final(self)@.wf(),
    {
        let frame = self.control_stack[self.control_stack.len() - 1];
        match frame {
            ControlStackFrame::If {
                destination,
                branch_inst,
                num_return_values,
                original_stack_size,
            } => {
                assert(self@.frame_ok(self@.control_stack[self@.control_stack.len() - 1]));
                let args = self.pop_values(num_return_values);
                self.builder.ins(InstHeader::branch(Opcode::Jump, destination), args);
                begin_else(&mut self.builder, branch_inst);
                self.stack.truncate(original_stack_size);
                assert(self.stack@ =~= old(self).stack@.subrange(0, original_stack_size as int));
            },
            _ => {},
        }
        proof {
            self.lemma_bounded();
        }
    }

    fn translate_end(&mut self)
        requires
            old(self)@.wf(),
            old(self)@.real_depth == 0,
            old(self)@.control_stack.len() >= 2,
            old(self)@.has_operands(old(self)@.top().spec_num_return_values() as int),
        ensures
            final(self)@ == old(self)@.op_end(),
            final(self)@.wf(),
    {
        assert(self@.frame_ok(self@.control_stack[self@.control_stack.len() - 1]));
        let frame = self.control_stack.pop().unwrap();
        let args = self.pop_values(frame.num_return_values());
        self.builder.ins(InstHeader::branch(Opcode::Jump, frame.following_code()), args);
        close_frame(&mut self.builder, frame);
        self.stack.truncate(frame.original_stack_size());
        assert(self.stack@ =~= old(self).stack@.subrange(
            0,
            frame.spec_original_stack_size() as int,
        ));
        let params = self.builder.ebb_args(frame.following_code());
        self.push_values(&params);
        proof {
            self.lemma_bounded();
        }
    }

    fn translate_br(&mut self, relative_depth: u32)
        requires
            old(self)@.wf(),
            old(self)@.real_depth == 0,
            relative_depth < old(self)@.control_stack.len(),
            old(self)@.has_operands(
                old(self)@.frame_at(relative_depth as int).spec_br_arity() as int,
            ),
        ensures
            final(self)@ == old(self)@.op_br(relative_depth),
            final(self)@.wf(),
    {
        let frame = self.control_stack[self.control_stack.len() - 1 - (relative_depth as usize)];
        assert(self@.frame_ok(self@.control_stack[self@.control_stack.len() - 1 - relative_depth]));
        let args = self.pop_values(frame.br_arity());
        self.builder.ins(InstHeader::branch(Opcode::Jump, frame.br_destination()), args);
        // All the code that follows until the construct ends is unreachable.
        self.state.real_unreachable_stack_depth = 1 + relative_depth as usize;
        proof {
            self.lemma_bounded();
        }
    }

    fn translate_br_if(&mut self, relative_depth: u32)
        requires
            old(self)@.wf(),
            old(self)@.real_depth == 0,
            relative_depth < old(self)@.control_stack.len(),
            old(self)@.has_operands(
                1 + old(self)@.frame_at(relative_depth as int).spec_br_arity(),
            ),
        ensures
            final(self)@ == old(self)@.op_br_if(relative_depth),
            final(self)@.wf(),
    {
        let cond = self.pop1();
        let frame = self.control_stack[self.control_stack.len() - 1 - (relative_depth as usize)];
        assert(self@.frame_ok(self@.control_stack[self@.control_stack.len() - 1 - relative_depth]));
        // The values that the branch carries stay on the stack for the code
        // that follows.
        let mut carried = self.peek_values(frame.br_arity());
        let mut args: Vec<Value> = Vec::new();
        args.push(cond);
        args.append(&mut carried);
        assert(args@ =~= seq![cond] + self@.top_values(frame.spec_br_arity() as int));
        self.builder.ins(InstHeader::branch(Opcode::Brnz, frame.br_destination()), args);
        proof {
            self.lemma_bounded();
        }
    }

    fn translate_return(&mut self)
        requires
            old(self)@.wf(),
            old(self)@.real_depth == 0,
            old(self)@.has_operands(old(self)@.control_stack[0].spec_num_return_values() as int),
        ensures
            final(self)@ == old(self)@.op_return(),
            final(self)@.wf(),
    {
        let count = self.control_stack[0].num_return_values();
        let args = self.pop_values(count);
        self.builder.ins(InstHeader::plain(Opcode::Return), args);
        self.state.last_inst_return = true;
        self.state.real_unreachable_stack_depth = 1;
        proof {
            self.lemma_bounded();
        }
    }

    fn translate_unreachable(&mut self)
        requires
            old(self)@.wf(),
            old(self)@.real_depth == 0,
        ensures
            final(self)@ == old(self)@.op_unreachable(),
            final(self)@.wf(),
    {
        self.builder.ins(InstHeader::plain(Opcode::Trap), Vec::new());
        self.state.real_unreachable_stack_depth = 1;
        proof {
            self.lemma_bounded();
        }
    }

    fn skip_end(&mut self)
        requires
            old(self)@.wf(),
            old(self)@.real_depth > 0,
            old(self)@.phantom_depth > 0 || old(self)@.control_stack.len() >= 2,
        ensures
            final(self)@ == old(self)@.skip_end(),
            final(self)@.wf(),
    {
        if self.state.phantom_unreachable_stack_depth > 0 {
            self.state.phantom_unreachable_stack_depth -= 1;
        } else {
            // This `end` closes a real frame. The builder goes to the block
            // that follows, without a jump: the code before is unreachable.
            assert(self@.frame_ok(self@.control_stack[self@.control_stack.len() - 1]));
            let frame = self.control_stack.pop().unwrap();
            let exit = frame.following_code();
            let params = self.builder.ebb_args(exit);
            close_frame(&mut self.builder, frame);
            if frame.is_if() || contains_ebb(&self.state.br_table_reachable_ebbs, exit) {
                self.state.real_unreachable_stack_depth = 1;
            }
            // The operands that the unreachable code left are dropped.
            self.stack.truncate(frame.original_stack_size());
            assert(self.stack@ =~= old(self).stack@.subrange(
                0,
                frame.spec_original_stack_size() as int,
            ));
            if self.state.real_unreachable_stack_depth == 1 {
                self.push_values(&params);
            }
            self.state.real_unreachable_stack_depth -= 1;
            self.state.last_inst_return = false;
        }
        proof {
            self.lemma_bounded();
        }
    }

    fn skip_else(&mut self)
        requires
            old(self)@.wf(),
            old(self)@.real_depth > 0,
            old(self)@.phantom_depth > 0 || old(self)@.takes_else(),
        ensures
            final(self)@ == old(self)@.skip_else(),
            final(self)@.wf(),
    {
        if self.state.phantom_unreachable_stack_depth > 0 {
            // The `else` of an `if` that was met in unreachable code.
        } else {
            let frame = self.control_stack[self.control_stack.len() - 1];
            match frame {
                ControlStackFrame::If { branch_inst, original_stack_size, .. } => {
                    assert(self@.frame_ok(self@.control_stack[self@.control_stack.len() - 1]));
                    begin_else(&mut self.builder, branch_inst);
                    self.stack.truncate(original_stack_size);
                    assert(self.stack@ =~= old(self).stack@.subrange(0, original_stack_size as int));
                    self.state.real_unreachable_stack_depth = 0;
                    self.state.last_inst_return = false;
                },
                _ => {},
            }
        }
        proof {
            self.lemma_bounded();
        }
    }
}

/// The smallest of the depths of a `br_table`.
fn smallest_depth(targets: &Vec<u32>, default: u32) -> (min: u32)
    ensures
        min == min_depth(targets@, default),
        min == default || targets@.contains(min),
{
    let mut min: u32 = default;
    let mut i: usize = 0;
    assert(targets@.subrange(0, 0) =~= Seq::<u32>::empty());
    while i < targets.len()
        invariant
            i <= targets.len(),
            min == min_depth(targets@.subrange(0, i as int), default),
            min == default || targets@.contains(min),
        decreases targets.len() - i,
    {
        assert(targets@.subrange(0, i + 1).drop_last() =~= targets@.subrange(0, i as int));
        if targets[i] < min {
            min = targets[i];
        }
        i += 1;
    }
    assert(targets@.subrange(0, targets.len() as int) =~= targets@);
    min
}

/// The trampoline made for a depth, if one was.
fn find_trampoline(seen: &Vec<(u32, Ebb)>, depth: u32) -> (found: Option<Ebb>)
    ensures
        found == trampoline_of(seen@, depth),
        found matches Some(ebb) ==> seen@.contains((depth, ebb)),
{
    let mut i: usize = seen.len();
    assert(seen@.subrange(0, i as int) =~= seen@);
    while i > 0
        invariant
            i <= seen.len(),
            trampoline_of(seen@, depth) == trampoline_of(seen@.subrange(0, i as int), depth),
        decreases i,
    {
        assert(seen@.subrange(0, i as int).drop_last() =~= seen@.subrange(0, i - 1));
        if seen[i - 1].0 == depth {
            return Some(seen[i - 1].1);
        }
        i -= 1;
    }
    None
}

/// The number of parameters of a function of the module.
pub fn args_count(index: usize, functions: &Vec<SignatureIndex>, signatures: &Vec<Signature>) -> (n: usize)
    requires
        index < functions@.len(),
        functions@[index as int] < signatures@.len(),
    ensures
        n == signatures@[functions@[index as int] as int]@.argument_types.len(),
{
    signatures[functions[index]].argument_types.len()
}

impl FuncTranslator {
    /// The frame at a relative depth.
    fn frame(&self, depth: u32) -> (frame: ControlStackFrame)
        requires
            depth < self@.control_stack.len(),
        ensures
            frame == self@.frame_at(depth as int),
    {
        self.control_stack[self.control_stack.len() - 1 - (depth as usize)]
    }

    /// Fills a jump table whose branches carry nothing.
    fn fill_direct(&mut self, table: JumpTable, targets: &Vec<u32>)
        requires
            old(self)@.builder.wf(),
            old(self)@.frames_ok(),
            table.0 < old(self)@.builder.jump_tables,
            forall|i: int|
                0 <= i < targets@.len() ==> #[trigger] targets@[i] < old(self)@.control_stack.len(),
        ensures
            final(self)@ == old(self)@.fill_direct(table, targets@, targets@.len() as int),
            final(self)@.builder.wf(),
            final(self)@ == (TranslationModel {
                builder: final(self)@.builder,
                reachable_ebbs: final(self)@.reachable_ebbs,
                ..old(self)@
            }),
            final(self)@.builder == (BuilderModel {
                commands: final(self)@.builder.commands,
                ..old(self)@.builder
            }),
    {
        let mut i: usize = 0;
        while i < targets.len()
            invariant
                i <= targets.len(),
                self@ == old(self)@.fill_direct(table, targets@, i as int),
                self@.builder.wf(),
                self@ == (TranslationModel {
                    builder: self@.builder,
                    reachable_ebbs: self@.reachable_ebbs,
                    ..old(self)@
                }),
                self@.builder == (BuilderModel {
                    commands: self@.builder.commands,
                    ..old(self)@.builder
                }),
                old(self)@.frames_ok(),
                table.0 < old(self)@.builder.jump_tables,
                forall|i: int|
                    0 <= i < targets@.len() ==> #[trigger] targets@[i] < old(self)@.control_stack.len(),
            decreases targets.len() - i,
        {
            let frame = self.frame(targets[i]);
            assert(old(self)@.frame_ok(
                old(self)@.control_stack[old(self)@.control_stack.len() - 1 - targets@[i as int]],
            ));
            let ebb = frame.br_destination();
            self.builder.insert_jump_table_entry(table, i, ebb);
            self.state.br_table_reachable_ebbs.push(ebb);
            i += 1;
        }
    }

    /// Fills a jump table whose branches carry values: makes the trampolines
    /// and returns them with their depths.
    fn fill_trampolines(&mut self, table: JumpTable, targets: &Vec<u32>) -> (seen: Vec<(u32, Ebb)>)
        requires
            old(self)@.builder.wf(),
            table.0 < old(self)@.builder.jump_tables,
        ensures
            (final(self)@.builder, seen@) == TranslationModel::fill_trampolines(
                old(self)@.builder,
                table,
                targets@,
                targets@.len() as int,
            ),
            final(self)@.builder.wf(),
            final(self)@ == old(self)@.with_builder(final(self)@.builder),
            final(self)@.builder == (BuilderModel {
                commands: final(self)@.builder.commands,
                sealed: final(self)@.builder.sealed,
                filled: final(self)@.builder.filled,
                params: final(self)@.builder.params,
                ..old(self)@.builder
            }),
            final(self)@.builder.num_ebbs() == old(self)@.builder.num_ebbs() + seen@.len(),
            final(self)@.builder.keeps_ebbs_of(old(self)@.builder),
            forall|j: int|
                0 <= j < seen@.len() ==> {
                    &&& (#[trigger] seen@[j]).1 == Ebb((old(self)@.builder.num_ebbs() + j) as usize)
                    &&& !final(self)@.builder.is_sealed(seen@[j].1)
                    &&& !final(self)@.builder.is_filled_ebb(seen@[j].1)
                    &&& targets@.contains(seen@[j].0)
                },
    {
        let mut seen: Vec<(u32, Ebb)> = Vec::new();
        let mut i: usize = 0;
        while i < targets.len()
            invariant
                i <= targets.len(),
                (self@.builder, seen@) == TranslationModel::fill_trampolines(
                    old(self)@.builder,
                    table,
                    targets@,
                    i as int,
                ),
                self@.builder.wf(),
                self@ == old(self)@.with_builder(self@.builder),
                self@.builder == (BuilderModel {
                    commands: self@.builder.commands,
                    sealed: self@.builder.sealed,
                    filled: self@.builder.filled,
                    params: self@.builder.params,
                    ..old(self)@.builder
                }),
                self@.builder.num_ebbs() == old(self)@.builder.num_ebbs() + seen@.len(),
                table.0 < old(self)@.builder.jump_tables,
                self@.builder.keeps_ebbs_of(old(self)@.builder),
                old(self)@.builder.wf(),
                forall|j: int|
                    0 <= j < seen@.len() ==> {
                        &&& (#[trigger] seen@[j]).1 == Ebb(
                            (old(self)@.builder.num_ebbs() + j) as usize,
                        )
                        &&& !self@.builder.is_sealed(seen@[j].1)
                        &&& !self@.builder.is_filled_ebb(seen@[j].1)
                        &&& targets@.contains(seen@[j].0)
                    },
            decreases targets.len() - i,
        {
            let depth = targets[i];
            match find_trampoline(&seen, depth) {
                Some(ebb) => {
                    self.builder.insert_jump_table_entry(table, i, ebb);
                },
                None => {
                    let ebb = self.builder.create_ebb();
                    self.builder.insert_jump_table_entry(table, i, ebb);
                    seen.push((depth, ebb));
                },
            }
            i += 1;
        }
        seen
    }

    /// Emits the code of the trampolines.
    fn emit_trampolines(&mut self, seen: &Vec<(u32, Ebb)>, args: &Vec<Value>, base: Ghost<int>)
        requires
            old(self)@.builder.wf(),
            old(self)@.builder.is_filled(),
            old(self)@.builder.defines_all(args@),
            old(self)@.frames_ok(),
            old(self)@.builder.num_ebbs() == base@ + seen@.len(),
            base@ + seen@.len() <= usize::MAX,
            forall|i: int|
                0 <= i < old(self)@.control_stack.len() ==> (#[trigger] old(
                    self,
                )@.control_stack[i]).spec_following_code().0 < base@ && old(
                    self,
                )@.control_stack[i].spec_br_destination().0 < base@,
            forall|j: int|
                0 <= j < seen@.len() ==> {
                    &&& (#[trigger] seen@[j]).1 == Ebb((base@ + j) as usize)
                    &&& !old(self)@.builder.is_sealed(seen@[j].1)
                    &&& !old(self)@.builder.is_filled_ebb(seen@[j].1)
                    &&& seen@[j].0 < old(self)@.control_stack.len()
                },
        ensures
            final(self)@ == old(self)@.emit_trampolines(seen@, args@, seen@.len() as int),
            final(self)@.builder.wf(),
            final(self)@.builder.is_filled(),
            final(self)@.frames_ok(),
            final(self)@ == (TranslationModel {
                builder: final(self)@.builder,
                reachable_ebbs: final(self)@.reachable_ebbs,
                ..old(self)@
            }),
            final(self)@.builder == (BuilderModel {
                commands: final(self)@.builder.commands,
                sealed: final(self)@.builder.sealed,
                filled: final(self)@.builder.filled,
                position: final(self)@.builder.position,
                pristine: final(self)@.builder.pristine,
                redirected: final(self)@.builder.redirected,
                insts: final(self)@.builder.insts,
                ..old(self)@.builder
            }),
            forall|i: int|
                0 <= i < old(self)@.builder.insts ==> #[trigger] final(self)@.builder.redirected[i]
                    == old(self)@.builder.redirected[i],
            old(self)@.builder.insts <= final(self)@.builder.insts,
    {
        let mut k: usize = 0;
        while k < seen.len()
            invariant
                k <= seen.len(),
                self@ == old(self)@.emit_trampolines(seen@, args@, k as int),
                self@.builder.wf(),
                self@.builder.is_filled(),
                self@.builder.defines_all(args@),
                self@.frames_ok(),
                self@ == (TranslationModel {
                    builder: self@.builder,
                    reachable_ebbs: self@.reachable_ebbs,
                    ..old(self)@
                }),
                self@.builder == (BuilderModel {
                    commands: self@.builder.commands,
                    sealed: self@.builder.sealed,
                    filled: self@.builder.filled,
                    position: self@.builder.position,
                    pristine: self@.builder.pristine,
                    redirected: self@.builder.redirected,
                    insts: self@.builder.insts,
                    ..old(self)@.builder
                }),
                forall|i: int|
                    0 <= i < old(self)@.builder.insts ==> #[trigger] self@.builder.redirected[i]
                        == old(self)@.builder.redirected[i],
                old(self)@.builder.insts <= self@.builder.insts,
                self@.builder.num_ebbs() == base@ + seen@.len(),
                base@ + seen@.len() <= usize::MAX,
                forall|i: int|
                    0 <= i < old(self)@.control_stack.len() ==> (#[trigger] old(
                        self,
                    )@.control_stack[i]).spec_following_code().0 < base@ && old(
                        self,
                    )@.control_stack[i].spec_br_destination().0 < base@,
                forall|j: int|
                    0 <= j < seen@.len() ==> {
                        &&& (#[trigger] seen@[j]).1 == Ebb((base@ + j) as usize)
                        &&& seen@[j].0 < old(self)@.control_stack.len()
                    },
                forall|j: int|
                    k <= j < seen@.len() ==> {
                        &&& !self@.builder.is_sealed((#[trigger] seen@[j]).1)
                        &&& !self@.builder.is_filled_ebb(seen@[j].1)
                    },
            decreases seen.len() - k,
        {
            let depth = seen[k].0;
            let ebb = seen[k].1;
            let ghost before = self@;
            assert(seen@[k as int].1 == ebb);
            let frame = self.frame(depth);
            assert(before.frame_ok(before.control_stack[before.control_stack.len() - 1 - depth]));
            let destination = frame.br_destination();
            self.builder.switch_to_block(ebb);
            self.builder.seal_block(ebb);
            self.builder.ins(InstHeader::branch(Opcode::Jump, destination), crate::ir::copy_of(args));
            self.state.br_table_reachable_ebbs.push(ebb);
            self.state.br_table_reachable_ebbs.push(destination);
            assert forall|i: int| 0 <= i < self@.control_stack.len() implies self@.frame_ok(
                #[trigger] self@.control_stack[i],
            ) by {
                assert(before.frame_ok(before.control_stack[i]));
            }
            k += 1;
        }
    }

    fn translate_br_table(&mut self, targets: &Vec<u32>, default: u32)
        requires
            old(self)@.wf(),
            old(self)@.real_depth == 0,
            old(self)@.depths_ok(targets@, default),
            old(self)@.has_operands(1 + old(self)@.br_table_arity(targets@, default)),
        ensures
            final(self)@ == old(self)@.op_br_table(targets@, default),
            final(self)@.wf(),
    {
        let min = smallest_depth(targets, default);
        let arity = self.frame(min).br_arity();
        let index = self.pop1();
        let ghost popped = self@;
        let default_frame = self.frame(default);
        assert(popped.frame_ok(popped.control_stack[popped.control_stack.len() - 1 - default]));
        let default_ebb = default_frame.br_destination();
        let mut selector: Vec<Value> = Vec::new();
        selector.push(index);
        assert(selector@ =~= seq![index]);
        if arity == 0 {
            assert(popped.top_values(0) =~= Seq::<Value>::empty());
            if targets.len() > 0 {
                let table = self.builder.create_jump_table();
                self.fill_direct(table, targets);
                self.builder.ins(
                    InstHeader {
                        opcode: Opcode::BrTable,
                        ty: None,
                        cond: None,
                        imm: None,
                        target: Some(Target::Table(table)),
                    },
                    selector,
                );
            }
            self.builder.ins(InstHeader::branch(Opcode::Jump, default_ebb), Vec::new());
        } else {
            // A jump table carries no values: each entry goes to a block of
            // its own, which jumps on with the values.
            let args = self.peek_values(arity);
            if targets.len() > 0 {
                let table = self.builder.create_jump_table();
                let ghost base = self@.builder.num_ebbs() as int;
                let seen = self.fill_trampolines(table, targets);
                self.builder.ins(
                    InstHeader {
                        opcode: Opcode::BrTable,
                        ty: None,
                        cond: None,
                        imm: None,
                        target: Some(Target::Table(table)),
                    },
                    selector,
                );
                self.builder.ins(
                    InstHeader::branch(Opcode::Jump, default_ebb),
                    crate::ir::copy_of(&args),
                );
                proof {
                    assert forall|i: int| 0 <= i < self@.control_stack.len() implies self@.frame_ok(
                        #[trigger] self@.control_stack[i],
                    ) && self@.control_stack[i].spec_following_code().0 < base
                        && self@.control_stack[i].spec_br_destination().0 < base by {
                        assert(popped.frame_ok(popped.control_stack[i]));
                    }
                }
                self.emit_trampolines(&seen, &args, Ghost(base));
            } else {
                self.builder.ins(InstHeader::branch(Opcode::Jump, default_ebb), args);
            }
        }
        self.state.br_table_reachable_ebbs.push(default_ebb);
        self.state.real_unreachable_stack_depth = 1 + min as usize;
        proof {
            self.lemma_bounded();
            assert forall|i: int| 0 <= i < self@.control_stack.len() implies self@.frame_ok(
                #[trigger] self@.control_stack[i],
            ) by {
                assert(popped.frame_ok(popped.control_stack[i]));
            }
        }
    }
}

/// The name under which a function is exported; empty if it is not.
fn export_name(module: &ModuleContext, index: FunctionIndex) -> (name: String)
    ensures
        name@ == module@.export_name(index),
{
    match module.exports {
        None => String::new(),
        Some(names) => match names.get(&index) {
            None => String::new(),
            Some(name) => name.clone(),
        },
    }
}

/// Given an index in the signature index space, searches for it in the
/// imports of the function and, if it is not there, imports it. Only an
/// index that is not found has to be that of a signature of the module.
pub fn find_signature_import(
    sig_index: SignatureIndex,
    translator: &mut FuncTranslator,
    module: &ModuleContext,
) -> (sigref: SigRef)
    requires
        old(translator)@.builder.wf(),
        old(translator)@.imports_ok(),
        !old(translator)@.signatures.contains_key(sig_index) ==> sig_index
            < module@.signatures.len(),
    ensures
        (final(translator)@, sigref) == old(translator)@.intern_signature(module@, sig_index),
        final(translator)@.builder.wf(),
        final(translator)@.imports_ok(),
        sigref.0 < final(translator)@.builder.signatures,
        final(translator)@ == (TranslationModel {
            builder: final(translator)@.builder,
            signatures: final(translator)@.signatures,
            ..old(translator)@
        }),
        final(translator)@.builder == (BuilderModel {
            commands: final(translator)@.builder.commands,
            signatures: final(translator)@.builder.signatures,
            ..old(translator)@.builder
        }),
        old(translator)@.builder.signatures <= final(translator)@.builder.signatures,
{
    match translator.func_imports.signatures.get(&sig_index) {
        Some(local_sig_index) => {
            return *local_sig_index;
        },
        None => {},
    }
    let sigref = translator.builder.import_signature(module.signatures[sig_index].duplicate());
    translator.func_imports.signatures.insert(sig_index, sigref);
    assert forall|i: SignatureIndex| #[trigger]
        translator@.signatures.contains_key(i) implies translator@.signatures[i].0
        < translator@.builder.signatures by {
        if i != sig_index {
            assert(old(translator)@.signatures.contains_key(i));
        }
    }
    sigref
}

/// Given an index in the function index space, searches for it in the
/// imports of the function and, if it is not there, imports it, with its
/// signature. Only an index that is not found has to be that of a function
/// of the module.
pub fn find_function_import(
    index: FunctionIndex,
    translator: &mut FuncTranslator,
    module: &ModuleContext,
) -> (funcref: FuncRef)
    requires
        old(translator)@.builder.wf(),
        old(translator)@.imports_ok(),
        !old(translator)@.functions.contains_key(index) ==> module@.wf() && index
            < module@.functions.len(),
    ensures
        (final(translator)@, funcref) == old(translator)@.intern_function(module@, index),
        final(translator)@.builder.wf(),
        final(translator)@.imports_ok(),
        funcref.0 < final(translator)@.builder.functions,
        final(translator)@ == (TranslationModel {
            builder: final(translator)@.builder,
            signatures: final(translator)@.signatures,
            functions: final(translator)@.functions,
            ..old(translator)@
        }),
        final(translator)@.builder == (BuilderModel {
            commands: final(translator)@.builder.commands,
            signatures: final(translator)@.builder.signatures,
            functions: final(translator)@.builder.functions,
            ..old(translator)@.builder
        }),
        old(translator)@.builder.signatures <= final(translator)@.builder.signatures,
        old(translator)@.builder.functions <= final(translator)@.builder.functions,
{
    match translator.func_imports.functions.get(&index) {
        Some(local_index) => {
            return *local_index;
        },
        None => {},
    }
    // The function has to be imported, under the signature's handle.
    let sig_index = module.functions[index];
    let sigref = find_signature_import(sig_index, translator, module);
    let funcref = translator.builder.import_function(export_name(module, index), sigref);
    translator.func_imports.functions.insert(index, funcref);
    funcref
}

impl FuncTranslator {
    /// The innermost construct has `n` operands of its own on the stack.
    fn has_operands(&self, n: usize) -> (b: bool)
        requires
            self@.control_stack.len() > 0,
        ensures
            b == self@.has_operands(n as int),
    {
        let base = self.control_stack[self.control_stack.len() - 1].original_stack_size();
        n <= self.stack.len() && base <= self.stack.len() - n
    }

    /// What holds of a state after a runtime has emitted code.
    proof fn lemma_runtime_keeps_wf(before: TranslationModel, after: TranslationModel)
        requires
            before.wf(),
            before.real_depth == 0,
            emits_code(before.builder, after.builder),
            after.builder.defines_all(after.stack),
            after.stack.len() <= usize::MAX,
            after.stack.len() >= before.stack.len() - 1,
            before.has_operands(1) || after.stack.len() >= before.stack.len(),
            after == (TranslationModel { builder: after.builder, stack: after.stack, ..before }),
        ensures
            after.wf(),
    {
        assert forall|i: int| 0 <= i < after.control_stack.len() implies after.frame_ok(
            #[trigger] after.control_stack[i],
        ) by {
            assert(before.frame_ok(before.control_stack[i]));
        }
    }

    fn translate_call(&mut self, module: &ModuleContext, function_index: u32)
        requires
            old(self)@.wf(),
            old(self)@.real_depth == 0,
            module@.wf(),
            function_index < module@.functions.len(),
            old(self)@.has_operands(
                module@.signatures[module@.functions[function_index as int] as int]@.argument_types.len() as int,
            ),
        ensures
            final(self)@ == old(self)@.op_call(module@, function_index),
            final(self)@.wf(),
    {
        let sig_index = module.functions[function_index as usize];
        let num_args = args_count(function_index as usize, module.functions, module.signatures);
        let num_results = module.signatures[sig_index].return_types.len();
        let call_args = self.pop_values(num_args);
        let funcref = find_function_import(function_index as usize, self, module);
        let (inst, _result) = self.builder.ins(
            InstHeader {
                opcode: Opcode::Call,
                ty: None,
                cond: None,
                imm: None,
                target: Some(Target::Func(funcref)),
            },
            call_args,
        );
        let results = inst_results(&mut self.builder, inst, num_results);
        self.push_values(&results);
        proof {
            self.lemma_bounded();
            assert forall|i: int| 0 <= i < self@.control_stack.len() implies self@.frame_ok(
                #[trigger] self@.control_stack[i],
            ) by {
                assert(old(self)@.frame_ok(old(self)@.control_stack[i]));
            }
        }
    }

    fn translate_call_indirect<R: WasmRuntime>(&mut self, runtime: &R, module: &ModuleContext, index: u32)
        requires
            old(self)@.wf(),
            old(self)@.real_depth == 0,
            runtime.ready(),
            runtime.can_call_indirect(),
            index < module@.signatures.len(),
            old(self)@.has_operands(1 + module@.signatures[index as int]@.argument_types.len() as int),
        ensures
            final(self)@ == old(self)@.op_call_indirect(*runtime, module@, index),
            final(self)@.wf(),
    {
        // `index` is the index of the function's signature. The function is
        // looked up in the table by the runtime.
        let sigref = find_signature_import(index as usize, self, module);
        let num_args = module.signatures[index as usize].argument_types.len();
        let num_results = module.signatures[index as usize].return_types.len();
        let callee = self.pop1();
        let call_args = self.pop_values(num_args);
        let results = runtime.translate_call_indirect(
            &mut self.builder,
            sigref,
            callee,
            call_args,
            num_results,
        );
        self.push_values(&results);
        proof {
            self.lemma_bounded();
            assert forall|i: int| 0 <= i < self@.control_stack.len() implies self@.frame_ok(
                #[trigger] self@.control_stack[i],
            ) by {
                assert(old(self)@.frame_ok(old(self)@.control_stack[i]));
            }
        }
    }

    /// Translates an operator met in reachable code.
    fn translate_reachable<R: WasmRuntime>(&mut self, op: &WasmOperator, runtime: &mut R, module: &ModuleContext)
        requires
            old(self)@.wf(),
            old(self)@.reachable(),
            module@.wf(),
            old(self)@.accepts_reachable(*old(runtime), module@, *op),
        ensures
            (final(self)@, *final(runtime)) == old(self)@.translate(*old(runtime), module@, *op),
            final(self)@.wf(),
    {
        self.state.last_inst_return = false;
        let ghost start = self@;
        match op {
            WasmOperator::GetLocal { local_index } => self.translate_get_local(*local_index),
            WasmOperator::SetLocal { local_index } => self.translate_set_local(*local_index),
            WasmOperator::TeeLocal { local_index } => self.translate_tee_local(*local_index),
            WasmOperator::GetGlobal { global_index } => {
                let value = runtime.translate_get_global(&mut self.builder, *global_index as usize);
                self.stack.push(value);
                proof {
                    self.lemma_bounded();
                    FuncTranslator::lemma_runtime_keeps_wf(start, self@);
                }
            },
            WasmOperator::SetGlobal { global_index } => {
                let value = self.pop1();
                runtime.translate_set_global(&mut self.builder, *global_index as usize, value);
                proof {
                    self.lemma_bounded();
                    FuncTranslator::lemma_runtime_keeps_wf(start, self@);
                }
            },
            WasmOperator::Drop => {
                self.stack.pop();
            },
            WasmOperator::Select => self.translate_select(),
            WasmOperator::Nop => {},
            WasmOperator::Unreachable => self.translate_unreachable(),
            WasmOperator::Return => self.translate_return(),
            WasmOperator::Block { ty } => self.translate_block(*ty),
            WasmOperator::Loop { ty } => self.translate_loop(*ty),
            WasmOperator::If { ty } => self.translate_if(*ty),
            WasmOperator::Else => self.translate_else(),
            WasmOperator::End => self.translate_end(),
            WasmOperator::Br { relative_depth } => self.translate_br(*relative_depth),
            WasmOperator::BrIf { relative_depth } => self.translate_br_if(*relative_depth),
            WasmOperator::BrTable { table } => self.translate_br_table(&table.targets, table.default),
            WasmOperator::Call { function_index } => self.translate_call(module, *function_index),
            WasmOperator::CallIndirect { index, table_index: _ } => {
                self.translate_call_indirect(&*runtime, module, *index)
            },
            WasmOperator::GrowMemory { reserved: _ } => {
                let pages = self.pop1();
                let value = runtime.translate_grow_memory(&mut self.builder, pages);
                self.stack.push(value);
                proof {
                    self.lemma_bounded();
                    FuncTranslator::lemma_runtime_keeps_wf(start, self@);
                }
            },
            WasmOperator::CurrentMemory { reserved: _ } => {
                let value = runtime.translate_current_memory(&mut self.builder);
                self.stack.push(value);
                proof {
                    self.lemma_bounded();
                    FuncTranslator::lemma_runtime_keeps_wf(start, self@);
                }
            },
            _ => match lower(op) {
                Some(Lowering::Compute { header, arity, widen }) => {
                    self.translate_compute(header, arity, widen)
                },
                Some(Lowering::Store { header }) => self.translate_store(header),
                None => {},
            },
        }
    }

    /// Tracks an operator met in unreachable code. Nothing is emitted for
    /// it, but the constructs that it opens and closes are counted, so that
    /// the `end` is found at which code is reachable again.
    fn translate_unreachable_code(&mut self, op: &WasmOperator)
        requires
            old(self)@.wf(),
            !old(self)@.reachable(),
            old(self)@.accepts_unreachable(*op),
        ensures
            final(self)@ == old(self)@.skip(*op),
            final(self)@.wf(),
    {
        match op {
            WasmOperator::Block { .. } | WasmOperator::Loop { .. } | WasmOperator::If { .. } => {
                self.state.phantom_unreachable_stack_depth += 1;
            },
            WasmOperator::End => self.skip_end(),
            WasmOperator::Else => self.skip_else(),
            _ => {},
        }
    }

    /// Translates one operator: emits its code if it is met in reachable
    /// code, and tracks it otherwise.
    ///
    /// Afterwards the state is well formed again. In particular the operand
    /// stack is at least as high as the innermost construct found it, no
    /// instruction was added to a filled block, and the header of every open
    /// loop is unsealed.
    pub fn translate_operator<R: WasmRuntime>(&mut self, op: &WasmOperator, runtime: &mut R, module: &ModuleContext)
        requires
            old(self)@.wf(),
            module@.wf(),
            old(self)@.accepts(*old(runtime), module@, *op),
        ensures
            (final(self)@, *final(runtime)) == old(self)@.step(*old(runtime), module@, *op),
            final(self)@.wf(),
    {
        if self.state.phantom_unreachable_stack_depth == 0
            && self.state.real_unreachable_stack_depth == 0 {
            self.translate_reachable(op, runtime, module)
        } else {
            self.translate_unreachable_code(op)
        }
    }
}

/// The header of the constant zero of a type.
fn zero_header(ty: ValueType) -> (header: InstHeader)
    ensures
        header == zero_of(ty),
{
    match ty {
        ValueType::I32 => InstHeader {
            opcode: Opcode::Iconst,
            ty: Some(ValueType::I32),
            cond: None,
            imm: Some(Imm::Int(0)),
            target: None,
        },
        ValueType::I64 => InstHeader {
            opcode: Opcode::Iconst,
            ty: Some(ValueType::I64),
            cond: None,
            imm: Some(Imm::Int(0)),
            target: None,
        },
        ValueType::F32 => InstHeader {
            opcode: Opcode::F32const,
            ty: None,
            cond: None,
            imm: Some(Imm::Ieee32(0)),
            target: None,
        },
        ValueType::F64 => InstHeader {
            opcode: Opcode::F64const,
            ty: None,
            cond: None,
            imm: Some(Imm::Ieee64(0)),
            target: None,
        },
    }
}

/// The count of locals grows with the number of declarations counted.
proof fn lemma_count_locals_monotonic(locals: Seq<(u32, WasmType)>, n: int, m: int)
    requires
        0 <= n <= m,
    ensures
        0 <= count_locals(locals, n) <= count_locals(locals, m),
    decreases m,
{
    if n < m {
        lemma_count_locals_monotonic(locals, n, m - 1);
    } else if n > 0 {
        lemma_count_locals_monotonic(locals, n - 1, n - 1);
    }
}

/// Whether every declared local has a value type.
fn check_locals_supported(locals: &Vec<(u32, WasmType)>) -> (supported: bool)
    ensures
        supported == locals_supported(locals@),
{
    let mut i: usize = 0;
    while i < locals.len()
        invariant
            i <= locals.len(),
            forall|j: int| 0 <= j < i ==> value_type((#[trigger] locals@[j]).1) is Some,
        decreases locals.len() - i,
    {
        if type_to_type(&locals[i].1).is_err() {
            return false;
        }
        i += 1;
    }
    true
}

/// Whether the arguments and locals can be numbered.
fn check_locals_fit(sig: &Signature, locals: &Vec<(u32, WasmType)>) -> (fit: bool)
    ensures
        fit == locals_fit(sig@, locals@),
{
    if sig.argument_types.len() > u32::MAX as usize {
        proof {
            lemma_count_locals_monotonic(locals@, 0, locals@.len() as int);
        }
        return false;
    }
    let mut total: u64 = sig.argument_types.len() as u64;
    let mut i: usize = 0;
    while i < locals.len()
        invariant
            i <= locals.len(),
            total == sig@.argument_types.len() + count_locals(locals@, i as int),
            total <= u32::MAX,
        decreases locals.len() - i,
    {
        total = total + locals[i].0 as u64;
        if total > u32::MAX as u64 {
            proof {
                lemma_count_locals_monotonic(locals@, i + 1, locals@.len() as int);
            }
            return false;
        }
        i += 1;
    }
    true
}

impl FuncTranslator {
    /// Begins the translation of a function of signature `sig` with the
    /// declared `locals`: pairs of a count and a type, in the order of the
    /// declarations.
    ///
    /// Fails with `UnsupportedLocalType` if a local has a type that is no
    /// value type; otherwise with `MalformedStream` if there are more
    /// arguments and locals than can be numbered.
    pub fn new(sig: &Signature, locals: &Vec<(u32, WasmType)>) -> (res: Result<
        FuncTranslator,
        TranslationError,
    >)
        ensures
            match res {
                Ok(translator) => {
                    &&& locals_supported(locals@)
                    &&& locals_fit(sig@, locals@)
                    &&& translator@ == TranslationModel::begin(sig@, locals@)
                    &&& translator@.wf()
                },
                Err(error) => if !locals_supported(locals@) {
                    TranslationError::spec_new(ErrorKind::UnsupportedLocalType, None, error)
                } else {
                    !locals_fit(sig@, locals@) && TranslationError::spec_new(
                        ErrorKind::MalformedStream,
                        None,
                        error,
                    )
                },
            },
    {
        if !check_locals_supported(locals) {
            return Err(TranslationError::new(ErrorKind::UnsupportedLocalType, None));
        }
        if !check_locals_fit(sig, locals) {
            return Err(TranslationError::new(ErrorKind::MalformedStream, None));
        }
        let mut builder = FunctionBuilder::new();
        let entry = builder.create_ebb();
        builder.switch_to_block(entry);
        builder.seal_block(entry);
        let ghost b2 = builder@;
        let num_args: usize = sig.argument_types.len();
        proof {
            lemma_count_locals_monotonic(locals@, 0, locals@.len() as int);
        }
        // The arguments are variables, since `get_local` reads them.
        let mut i: usize = 0;
        while i < num_args
            invariant
                i <= num_args,
                num_args == sig@.argument_types.len(),
                num_args <= u32::MAX,
                builder@ == declare_arguments(b2, entry, sig@.argument_types, i as int),
                builder@.wf(),
                builder@.can_emit(),
                builder@.position == Some(entry),
                builder@.num_ebbs() == 1,
                builder@.vars.len() == i,
            decreases num_args - i,
        {
            let ty = sig.argument_types[i];
            let value = builder.append_ebb_arg(entry, ty);
            let var = Local(i as u32);
            builder.declare_var(var, ty);
            builder.def_var(var, value);
            i += 1;
        }
        // The declared locals are variables too, and begin as zero.
        let ghost b3 = builder@;
        let mut j: usize = 0;
        while j < locals.len()
            invariant
                j <= locals.len(),
                locals_supported(locals@),
                locals_fit(sig@, locals@),
                num_args == sig@.argument_types.len(),
                builder@ == declare_locals(b3, locals@, j as int),
                builder@.wf(),
                builder@.can_emit(),
                builder@.position == Some(entry),
                builder@.num_ebbs() == 1,
                builder@.vars.len() == num_args + count_locals(locals@, j as int),
            decreases locals.len() - j,
        {
            let count = locals[j].0;
            let ty = match type_to_type(&locals[j].1) {
                Ok(ty) => ty,
                Err(_) => {
                    return Err(TranslationError::new(ErrorKind::UnsupportedLocalType, None));
                },
            };
            proof {
                lemma_count_locals_monotonic(locals@, j + 1, locals@.len() as int);
            }
            let (_inst, zero) = builder.ins(zero_header(ty), Vec::new());
            let zero = zero.unwrap();
            let ghost b1 = builder@;
            let mut k: u32 = 0;
            while k < count
                invariant
                    k <= count,
                    builder@ == declare_zeroed(b1, ty, zero, k as int),
                    builder@.wf(),
                    builder@.can_emit(),
                    builder@.defines(zero),
                    builder@.position == Some(entry),
                    builder@.num_ebbs() == 1,
                    builder@.vars.len() == num_args + count_locals(locals@, j as int) + k,
                    num_args + count_locals(locals@, j as int) + count <= u32::MAX,
                decreases count - k,
            {
                let var = Local(builder.num_vars() as u32);
                builder.declare_var(var, ty);
                builder.def_var(var, zero);
                k += 1;
            }
            j += 1;
        }
        // The control stack begins with the frame of the function's body.
        let exit = builder.create_ebb();
        let ghost b5 = builder@;
        let num_returns: usize = sig.return_types.len();
        let mut r: usize = 0;
        while r < num_returns
            invariant
                r <= num_returns,
                num_returns == sig@.return_types.len(),
                builder@ == append_params(b5, exit, sig@.return_types, r as int),
                builder@.wf(),
                builder@.can_emit(),
                builder@.position == Some(entry),
                builder@.num_ebbs() == 2,
                exit == Ebb(1),
                entry == Ebb(0),
                !builder@.is_sealed(exit),
                !builder@.is_filled_ebb(exit),
                builder@.ebb_args(exit).len() == r,
            decreases num_returns - r,
        {
            builder.append_ebb_arg(exit, sig.return_types[r]);
            r += 1;
        }
        let mut control_stack: Vec<ControlStackFrame> = Vec::new();
        control_stack.push(
            ControlStackFrame::Block {
                destination: exit,
                num_return_values: num_returns,
                original_stack_size: 0,
            },
        );
        let translator = FuncTranslator {
            builder,
            stack: Vec::new(),
            control_stack,
            state: TranslationState {
                last_inst_return: false,
                phantom_unreachable_stack_depth: 0,
                real_unreachable_stack_depth: 0,
                br_table_reachable_ebbs: Vec::new(),
            },
            func_imports: FunctionImports::new(),
        };
        assert(translator@.control_stack =~= seq![
            ControlStackFrame::Block {
                destination: exit,
                num_return_values: num_returns,
                original_stack_size: 0,
            },
        ]);
        assert(translator@.stack =~= seq![]);
        assert(translator@.reachable_ebbs =~= seq![]);
        Ok(translator)
    }
}

/// Whether every depth of a `br_table` is less than `bound`.
fn depths_below(targets: &Vec<u32>, default: u32, bound: usize) -> (ok: bool)
    ensures
        ok == (default < bound && forall|i: int|
            0 <= i < targets@.len() ==> #[trigger] targets@[i] < bound),
{
    if default as usize >= bound {
        return false;
    }
    let mut i: usize = 0;
    while i < targets.len()
        invariant
            i <= targets.len(),
            forall|j: int| 0 <= j < i ==> #[trigger] targets@[j] < bound,
        decreases targets.len() - i,
    {
        if targets[i] as usize >= bound {
            return false;
        }
        i += 1;
    }
    true
}

impl FuncTranslator {
    /// The innermost construct has `n` operands and one more of its own on
    /// the stack.
    fn has_operands_and_one(&self, n: usize) -> (b: bool)
        requires
            self@.control_stack.len() > 0,
        ensures
            b == self@.has_operands(1 + n),
    {
        let base = self.control_stack[self.control_stack.len() - 1].original_stack_size();
        n < self.stack.len() && base <= self.stack.len() - n - 1
    }

    /// Whether the innermost frame is that of an `if` whose `else` is not
    /// met yet.
    pub fn takes_else(&self) -> (b: bool)
        requires
            self@.wf(),
        ensures
            b == self@.takes_else(),
    {
        match self.control_stack[self.control_stack.len() - 1] {
            ControlStackFrame::If { branch_inst, .. } => self.builder.can_redirect(branch_inst),
            _ => false,
        }
    }

    /// Whether code met now is translated.
    pub fn is_reachable(&self) -> (b: bool)
        ensures
            b == self@.reachable(),
    {
        self.state.phantom_unreachable_stack_depth == 0
            && self.state.real_unreachable_stack_depth == 0
    }

    /// Whether only the frame of the body is open.
    pub fn at_body_level(&self) -> (b: bool)
        ensures
            b == self@.at_body_level(),
    {
        self.control_stack.len() == 1 && self.state.phantom_unreachable_stack_depth == 0
    }

    /// Whether the body can end here.
    pub fn can_finish(&self) -> (b: bool)
        requires
            self@.wf(),
        ensures
            b == self@.can_finish(),
    {
        self.at_body_level() && (!self.is_reachable() || self.has_operands(
            self.control_stack[0].num_return_values(),
        ))
    }

    /// Whether reachable code takes the operator in this state.
    fn accepts_reachable<R: WasmRuntime>(&self, op: &WasmOperator, runtime: &R, module: &ModuleContext) -> (b:
        bool)
        requires
            self@.wf(),
            module@.wf(),
        ensures
            b == self@.accepts_reachable(*runtime, module@, *op),
    {
        match op {
            WasmOperator::GetLocal { local_index } => (*local_index as usize) < self.builder.num_vars(),
            WasmOperator::SetLocal { local_index } | WasmOperator::TeeLocal { local_index } => {
                (*local_index as usize) < self.builder.num_vars() && self.has_operands(1)
            },
            WasmOperator::GetGlobal { global_index } => runtime.is_ready() && runtime.knows_global(
                *global_index as usize,
            ),
            WasmOperator::SetGlobal { global_index } => runtime.is_ready() && runtime.knows_global(
                *global_index as usize,
            ) && self.has_operands(1),
            WasmOperator::Drop => self.has_operands(1),
            WasmOperator::Select => self.has_operands(3),
            WasmOperator::Nop | WasmOperator::Unreachable => true,
            WasmOperator::Return => self.has_operands(self.control_stack[0].num_return_values()),
            WasmOperator::Block { ty } | WasmOperator::Loop { ty } => match ty {
                WasmType::AnyFunc | WasmType::Func => false,
                _ => true,
            },
            WasmOperator::If { ty } => match ty {
                WasmType::AnyFunc | WasmType::Func => false,
                _ => self.has_operands(1),
            },
            WasmOperator::Else => {
                let top = self.control_stack[self.control_stack.len() - 1];
                self.takes_else() && self.has_operands(top.num_return_values())
            },
            WasmOperator::End => {
                let top = self.control_stack[self.control_stack.len() - 1];
                self.control_stack.len() >= 2 && self.has_operands(top.num_return_values())
            },
            WasmOperator::Br { relative_depth } => (*relative_depth as usize) < self.control_stack.len()
                && self.has_operands(self.frame(*relative_depth).br_arity()),
            WasmOperator::BrIf { relative_depth } => (*relative_depth as usize)
                < self.control_stack.len() && self.has_operands_and_one(
                self.frame(*relative_depth).br_arity(),
            ),
            WasmOperator::BrTable { table } => {
                if !depths_below(&table.targets, table.default, self.control_stack.len()) {
                    return false;
                }
                let min = smallest_depth(&table.targets, table.default);
                self.has_operands_and_one(self.frame(min).br_arity())
            },
            WasmOperator::Call { function_index } => {
                if (*function_index as usize) >= module.functions.len() {
                    return false;
                }
                assert(module@.functions[*function_index as int] < module@.signatures.len());
                self.has_operands(
                    args_count(*function_index as usize, module.functions, module.signatures),
                )
            },
            WasmOperator::CallIndirect { index, table_index: _ } => {
                if !runtime.is_ready() || !runtime.supports_call_indirect() || (*index as usize)
                    >= module.signatures.len() {
                    return false;
                }
                self.has_operands_and_one(module.signatures[*index as usize].argument_types.len())
            },
            WasmOperator::GrowMemory { reserved: _ } => runtime.is_ready() && self.has_operands(1),
            WasmOperator::CurrentMemory { reserved: _ } => runtime.is_ready(),
            _ => match lower(op) {
                Some(low) => self.has_operands(low.pops()),
                None => true,
            },
        }
    }

    /// Whether this state takes the operator: whether `translate_operator`
    /// can be called with it.
    pub fn accepts<R: WasmRuntime>(&self, op: &WasmOperator, runtime: &R, module: &ModuleContext) -> (b:
        bool)
        requires
            self@.wf(),
            module@.wf(),
        ensures
            b == self@.accepts(*runtime, module@, *op),
    {
        if self.is_reachable() {
            self.accepts_reachable(op, runtime, module)
        } else {
            match op {
                WasmOperator::Block { .. } | WasmOperator::Loop { .. } | WasmOperator::If { .. } => {
                    self.state.phantom_unreachable_stack_depth < usize::MAX
                },
                WasmOperator::End => self.state.phantom_unreachable_stack_depth > 0
                    || self.control_stack.len() >= 2,
                WasmOperator::Else => self.state.phantom_unreachable_stack_depth > 0
                    || self.takes_else(),
                _ => true,
            }
        }
    }

    /// Ends the body and hands back the builder, which holds the function.
    pub fn finish(self) -> (builder: FunctionBuilder)
        requires
            self@.wf(),
            self@.can_finish(),
        ensures
            builder@ == self@.finish(),
            builder@.wf(),
            builder@.can_leave(),
    {
        let mut this = self;
        let frame = this.control_stack[0];
        assert(this@.frame_ok(this@.control_stack[0]));
        let exit = frame.following_code();
        let params = this.builder.ebb_args(exit);
        let elide = this.state.last_inst_return && !this.builder.is_targeted(exit);
        if !this.state.last_inst_return && !this.builder.is_filled() && this.is_reachable() {
            let results = this.pop_values(frame.num_return_values());
            this.builder.ins(InstHeader::branch(Opcode::Jump, exit), results);
        }
        close_frame(&mut this.builder, frame);
        if !elide {
            this.builder.ins(InstHeader::plain(Opcode::Return), params);
        }
        this.builder
    }
}

/// Whether an operator is `end`.
fn is_end(op: &WasmOperator) -> (b: bool)
    ensures
        b == (*op == WasmOperator::End),
{
    match op {
        WasmOperator::End => true,
        _ => false,
    }
}

/// Translates operator number `i` of a body, or finds that it is the `end`
/// of the body. `last` tells whether it is the last operator.
pub(crate) fn translate_next<R: WasmRuntime>(
    translator: &mut FuncTranslator,
    op: &WasmOperator,
    i: usize,
    last: bool,
    runtime: &mut R,
    module: &ModuleContext,
    ops: Ghost<Seq<WasmOperator>>,
) -> (res: Result<(), TranslationError>)
    requires
        old(translator)@.wf(),
        module@.wf(),
        i < ops@.len(),
        ops@[i as int] == *op,
        last == (i + 1 == ops@.len()),
    ensures
        match res {
            Ok(()) => {
                &&& final(translator)@.wf()
                &&& old(translator)@.translate_from(*old(runtime), module@, ops@, i as int)
                    == final(translator)@.translate_from(*final(runtime), module@, ops@, i + 1)
            },
            Err(error) => {
                &&& old(translator)@.translate_from(*old(runtime), module@, ops@, i as int) == Err::<
                    (TranslationModel, R),
                    int,
                >(i as int)
                &&& TranslationError::spec_new(ErrorKind::MalformedStream, Some(i), error)
            },
        },
{
    reveal_with_fuel(TranslationModel::translate_from, 2);
    if is_end(op) && translator.at_body_level() {
        // The `end` of the body: nothing may follow it.
        if !last || !translator.can_finish() {
            return Err(TranslationError::new(ErrorKind::MalformedStream, Some(i)));
        }
    } else {
        if !translator.accepts(op, &*runtime, module) {
            return Err(TranslationError::new(ErrorKind::MalformedStream, Some(i)));
        }
        translator.translate_operator(op, runtime, module);
    }
    Ok(())
}

/// Ends a body after its `count` operators, and yields the function with
/// the imports that its calls made.
pub(crate) fn finish_body(
    translator: FuncTranslator,
    count: usize,
    function_index: FunctionIndex,
    sig: &Signature,
    module: &ModuleContext,
) -> (res: Result<(Function, FunctionImports), TranslationError>)
    requires
        translator@.wf(),
    ensures
        match res {
            Ok((func, imports)) => {
                &&& translator@.can_finish()
                &&& function_model(func, imports) == function_of_translation(
                    translator@,
                    module@,
                    function_index,
                    sig@,
                )
                &&& replay(commands_view(func.commands@)) is Some
            },
            Err(error) => {
                &&& !translator@.can_finish()
                &&& TranslationError::spec_new(ErrorKind::MalformedStream, Some(count), error)
            },
        },
{
    if !translator.can_finish() {
        return Err(TranslationError::new(ErrorKind::MalformedStream, Some(count)));
    }
    let FuncTranslator { builder, stack, control_stack, state, func_imports } = translator;
    let finished = FuncTranslator {
        builder,
        stack,
        control_stack,
        state,
        func_imports: FunctionImports::new(),
    };
    let builder = finished.finish();
    let func = Function {
        name: export_name(module, function_index),
        signature: sig.duplicate(),
        commands: builder.into_commands(),
    };
    Ok((func, func_imports))
}

/// Translates the body of a function: the operators `ops` of function
/// number `function_index`, which has the signature `sig` and the declared
/// `locals`.
///
/// The operators are translated one after the other, from the state
/// [`TranslationModel::begin`], each as [`TranslationModel::step`] says, and
/// the body is ended as [`TranslationModel::finish`] says. The result is the
/// function together with the imports that its calls made.
///
/// The steps of the function can be replayed: no block of it gets an
/// instruction after its terminator, and no branch is redirected twice.
///
/// Fails with `UnsupportedLocalType` if a local has a type that is no value
/// type, and otherwise with `MalformedStream`: without a location if the
/// arguments and locals cannot be numbered, and else at the first operator
/// that the state it meets does not take.
pub fn translate_function_body<R: WasmRuntime>(
    ops: &Vec<WasmOperator>,
    function_index: FunctionIndex,
    sig: &Signature,
    locals: &Vec<(u32, WasmType)>,
    module: &ModuleContext,
    runtime: &mut R,
) -> (res: Result<(Function, FunctionImports), TranslationError>)
    requires
        module@.wf(),
    ensures
        match (res, translate_body(sig@, locals@, *old(runtime), module@, ops@)) {
            (Ok((func, imports)), Ok((end, r))) => {
                &&& function_model(func, imports) == function_of_translation(
                    end,
                    module@,
                    function_index,
                    sig@,
                )
                &&& replay(commands_view(func.commands@)) is Some
                &&& *final(runtime) == r
            },
            (Err(error), Err((kind, location))) => TranslationError::spec_new(kind, location, error),
            _ => false,
        },
{
    let mut translator = match FuncTranslator::new(sig, locals) {
        Ok(translator) => translator,
        Err(error) => {
            return Err(error);
        },
    };
    let ghost whole = translator@.translate_from(*old(runtime), module@, ops@, 0);
    let mut i: usize = 0;
    while i < ops.len()
        invariant
            i <= ops.len(),
            translator@.wf(),
            module@.wf(),
            locals_supported(locals@),
            locals_fit(sig@, locals@),
            whole == TranslationModel::begin(sig@, locals@).translate_from(
                *old(runtime),
                module@,
                ops@,
                0,
            ),
            whole == translator@.translate_from(*runtime, module@, ops@, i as int),
        decreases ops.len() - i,
    {
        let last = i + 1 == ops.len();
        match translate_next(&mut translator, &ops[i], i, last, runtime, module, Ghost(ops@)) {
            Ok(()) => {},
            Err(error) => {
                return Err(error);
            },
        }
        i += 1;
    }
    proof {
        reveal_with_fuel(TranslationModel::translate_from, 1);
    }
    finish_body(translator, i, function_index, sig, module)
}

} // verus!
