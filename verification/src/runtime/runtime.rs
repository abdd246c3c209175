//! All the runtime support that the translation needs is behind the trait
//! [`WasmRuntime`]: globals, tables and memories are laid out by the
//! embedding, which also says how they are reached from translated code.
use vstd::prelude::*;
use crate::ir::{Ebb, Value, Inst, ValueType, SigRef, InstHeader};
use crate::builder::{FunctionBuilder, BuilderModel};
use crate::translation_utils::{FunctionIndex, TableIndex, GlobalIndex, MemoryIndex};

verus! {

/// How a global gets its first value.
#[derive(Clone, Copy, Debug, PartialEq, Eq, Structural)]
pub enum GlobalInit {
    I32Const(i32),
    I64Const(i64),
    /// A single precision constant, as its bit pattern.
    F32Const(u32),
    /// A double precision constant, as its bit pattern.
    F64Const(u64),
    /// The value comes from another module.
    Import(),
    /// The value of another global of this module.
    ImportRef(GlobalIndex),
}

/// A WebAssembly global.
#[derive(Clone, Copy, Debug, PartialEq, Eq, Structural)]
pub struct Global {
    pub ty: ValueType,
    pub mutability: bool,
    pub initializer: GlobalInit,
}

/// What a table holds.
#[derive(Clone, Copy, Debug, PartialEq, Eq, Structural)]
pub enum TableElementType {
    Val(ValueType),
    Func(),
}

/// A WebAssembly table.
#[derive(Clone, Copy, Debug, PartialEq, Eq, Structural)]
pub struct Table {
    pub ty: TableElementType,
    pub size: usize,
    pub maximum: Option<usize>,
}

/// A WebAssembly linear memory. Sizes are in pages.
#[derive(Clone, Copy, Debug, PartialEq, Eq, Structural)]
pub struct Memory {
    pub pages_count: usize,
    pub maximum: Option<usize>,
}

/// What holds of a builder after a runtime has emitted code through it: the
/// steps recorded before are still there, the existing blocks are as they
/// were (but that the block that was current may now be filled), nothing is
/// undeclared, and the builder stands in a block that takes instructions:
/// the block it stood in, or a new one.
pub open spec fn emits_code(before: BuilderModel, after: BuilderModel) -> bool {
    &&& after.wf()
    &&& after.can_emit()
    &&& before.commands.len() <= after.commands.len()
    &&& after.commands.subrange(0, before.commands.len() as int) == before.commands
    &&& before.num_ebbs() <= after.num_ebbs()
    &&& before.values <= after.values
    &&& before.insts <= after.insts
    &&& before.jump_tables <= after.jump_tables
    &&& before.signatures <= after.signatures
    &&& before.functions <= after.functions
    &&& after.vars == before.vars
    &&& forall|i: int| 0 <= i < before.insts ==> #[trigger] after.redirected[i] == before.redirected[i]
    &&& forall|e: int|
        #![trigger after.sealed[e]]
        #![trigger after.filled[e]]
        #![trigger after.params[e]]
        0 <= e < before.num_ebbs() ==> {
            &&& after.sealed[e] == before.sealed[e]
            &&& after.params[e] == before.params[e]
            &&& (before.position != Some(Ebb(e as usize)) ==> after.filled[e] == before.filled[e])
        }
    &&& (after.position == before.position || !before.has_ebb(after.position.unwrap()))
}

/// The embedding, as the translation sees it. The `translate_` methods emit
/// code at the builder's position; each has a spec function that says which,
/// so that the translation of a function is a function of its inputs.
pub trait WasmRuntime: Sized {
    /// Whether the declarations are closed and code can be translated.
    spec fn ready(&self) -> bool;

    /// Whether a global of that index was declared.
    spec fn has_global(&self, index: GlobalIndex) -> bool;

    /// The code that reads a global.
    spec fn get_global(&self, builder: BuilderModel, index: GlobalIndex) -> (BuilderModel, Value);

    /// The code that writes a global.
    spec fn set_global(&self, builder: BuilderModel, index: GlobalIndex, value: Value)
        -> BuilderModel;

    /// The code that grows the memory, and the runtime after it.
    spec fn grow_memory(self, builder: BuilderModel, pages: Value) -> (Self, BuilderModel, Value);

    /// The code that asks for the memory's size, and the runtime after it.
    spec fn current_memory(self, builder: BuilderModel) -> (Self, BuilderModel, Value);

    /// The code that calls through the table.
    spec fn call_indirect(
        &self,
        builder: BuilderModel,
        sig_ref: SigRef,
        index_val: Value,
        call_args: Seq<Value>,
        num_results: usize,
    ) -> (BuilderModel, Seq<Value>);

    /// The runtime between the translations of two function bodies.
    spec fn between_functions(self) -> Self;

    /// Whether indirect calls can be translated: whether there is a table to
    /// call through.
    spec fn can_call_indirect(&self) -> bool;

    /// Whether the table of that index has room for `count` elements from
    /// `offset` on.
    spec fn table_takes(&self, table_index: TableIndex, offset: usize, count: nat) -> bool;

    /// Whether `after` is this runtime once the global is declared to it.
    spec fn declares_global(self, global: Global, after: Self) -> bool;

    /// Whether `after` is this runtime once the table is declared to it.
    spec fn declares_table(self, table: Table, after: Self) -> bool;

    /// Whether `after` is this runtime once the memory is declared to it.
    spec fn declares_memory(self, memory: Memory, after: Self) -> bool;

    /// Whether `after` is this runtime once the elements are put into the
    /// table of that index from `offset` on.
    spec fn declares_elements(
        self,
        table_index: TableIndex,
        offset: usize,
        elements: Seq<FunctionIndex>,
        after: Self,
    ) -> bool;

    /// Whether `after` is this runtime once it is told to lay out what
    /// was declared to it.
    spec fn lays_out(self, after: Self) -> bool;

    /// Declares a global to the runtime.
    fn declare_global(&mut self, global: Global)
        requires
            !old(self).ready(),
        ensures
            !final(self).ready(),
            old(self).declares_global(global, *final(self)),
    ;

    /// Declares a table to the runtime.
    fn declare_table(&mut self, table: Table)
        requires
            !old(self).ready(),
        ensures
            !final(self).ready(),
            old(self).declares_table(table, *final(self)),
    ;

    /// Fills a declared table with references to functions in the module.
    fn declare_table_elements(
        &mut self,
        table_index: TableIndex,
        offset: usize,
        elements: &Vec<FunctionIndex>,
    )
        requires
            !old(self).ready(),
            old(self).table_takes(table_index, offset, elements@.len()),
        ensures
            !final(self).ready(),
            old(self).declares_elements(table_index, offset, elements@, *final(self)),
    ;

    /// Declares a memory to the runtime.
    fn declare_memory(&mut self, memory: Memory)
        requires
            !old(self).ready(),
        ensures
            !final(self).ready(),
            old(self).declares_memory(memory, *final(self)),
    ;

    /// Fills a declared memory with bytes at module instantiation. Fails if
    /// the memory does not hold the bytes.
    fn declare_data_initialization(
        &mut self,
        memory_index: MemoryIndex,
        offset: usize,
        data: &Vec<u8>,
    ) -> (res: Result<(), String>)
        requires
            !old(self).ready(),
        ensures
            !final(self).ready(),
    ;

    /// Closes the declarations. Call this after having declared all the
    /// runtime elements and before the first function body is translated.
    /// A runtime that cannot lay out what was declared is not ready
    /// afterwards.
    fn begin_translation(&mut self)
        requires
            !old(self).ready(),
        ensures
            old(self).lays_out(*final(self)),
    ;

    /// Call this between the translations of two function bodies.
    fn next_function(&mut self)
        ensures
            *final(self) == old(self).between_functions(),
            final(self).ready() == old(self).ready(),
            final(self).can_call_indirect() == old(self).can_call_indirect(),
            forall|index: GlobalIndex|
                #[trigger] final(self).has_global(index) == old(self).has_global(index),
    ;

    /// Tests whether indirect calls can be translated.
    fn supports_call_indirect(&self) -> (supported: bool)
        ensures
            supported == self.can_call_indirect(),
    ;

    /// Tests whether a table has room for `count` elements from `offset` on.
    fn table_takes_elements(&self, table_index: TableIndex, offset: usize, count: usize) -> (takes:
        bool)
        ensures
            takes == self.table_takes(table_index, offset, count as nat),
    ;

    /// Tests whether a global of that index was declared.
    fn knows_global(&self, index: GlobalIndex) -> (known: bool)
        ensures
            known == self.has_global(index),
    ;

    /// Tests whether code can be translated.
    fn is_ready(&self) -> (ready: bool)
        ensures
            ready == self.ready(),
    ;

    /// Translates a `get_global` wasm instruction.
    fn translate_get_global(&self, builder: &mut FunctionBuilder, global_index: GlobalIndex) -> (value:
        Value)
        requires
            old(builder)@.wf(),
            old(builder)@.can_emit(),
            self.ready(),
            self.has_global(global_index),
        ensures
            (final(builder)@, value) == self.get_global(old(builder)@, global_index),
            emits_code(old(builder)@, final(builder)@),
            final(builder)@.defines(value),
    ;

    /// Translates a `set_global` wasm instruction.
    fn translate_set_global(
        &self,
        builder: &mut FunctionBuilder,
        global_index: GlobalIndex,
        val: Value,
    )
        requires
            old(builder)@.wf(),
            old(builder)@.can_emit(),
            old(builder)@.defines(val),
            self.ready(),
            self.has_global(global_index),
        ensures
            final(builder)@ == self.set_global(old(builder)@, global_index, val),
            emits_code(old(builder)@, final(builder)@),
    ;

    /// Translates a `grow_memory` wasm instruction. Returns the value that
    /// the instruction leaves on the stack.
    fn translate_grow_memory(&mut self, builder: &mut FunctionBuilder, val: Value) -> (value: Value)
        requires
            old(builder)@.wf(),
            old(builder)@.can_emit(),
            old(builder)@.defines(val),
            old(self).ready(),
        ensures
            (*final(self), final(builder)@, value) == old(self).grow_memory(old(builder)@, val),
            emits_code(old(builder)@, final(builder)@),
            final(builder)@.defines(value),
            final(self).ready(),
            final(self).can_call_indirect() == old(self).can_call_indirect(),
            forall|index: GlobalIndex|
                #[trigger] final(self).has_global(index) == old(self).has_global(index),
    ;

    /// Translates a `current_memory` wasm instruction. Returns the value
    /// that the instruction leaves on the stack.
    fn translate_current_memory(&mut self, builder: &mut FunctionBuilder) -> (value: Value)
        requires
            old(builder)@.wf(),
            old(builder)@.can_emit(),
            old(self).ready(),
        ensures
            (*final(self), final(builder)@, value) == old(self).current_memory(old(builder)@),
            emits_code(old(builder)@, final(builder)@),
            final(builder)@.defines(value),
            final(self).ready(),
            final(self).can_call_indirect() == old(self).can_call_indirect(),
            forall|index: GlobalIndex|
                #[trigger] final(self).has_global(index) == old(self).has_global(index),
    ;

    /// Translates a `call_indirect` wasm instruction: a call of signature
    /// `sig_ref` to the function that `index_val` selects in the table.
    /// Returns the `num_results` values that the call leaves on the stack.
    fn translate_call_indirect(
        &self,
        builder: &mut FunctionBuilder,
        sig_ref: SigRef,
        index_val: Value,
        call_args: Vec<Value>,
        num_results: usize,
    ) -> (results: Vec<Value>)
        requires
            old(builder)@.wf(),
            old(builder)@.can_emit(),
            old(builder)@.defines(index_val),
            old(builder)@.defines_all(call_args@),
            sig_ref.0 < old(builder)@.signatures,
            self.ready(),
            self.can_call_indirect(),
        ensures
            (final(builder)@, results@) == self.call_indirect(
                old(builder)@,
                sig_ref,
                index_val,
                call_args@,
                num_results,
            ),
            emits_code(old(builder)@, final(builder)@),
            final(builder)@.defines_all(results@),
            results@.len() == num_results,
    ;
}

/// The results of the call `inst`, bound one by one from result `from` on.
pub open spec fn bind_results(builder: BuilderModel, inst: Inst, from: usize, to: usize)
    -> (BuilderModel, Seq<Value>)
    decreases to - from,
{
    if from >= to {
        (builder, seq![])
    } else {
        let (b, rest) = bind_results(builder, inst, from, (to - 1) as usize);
        let (b2, value) = b.inst_result(inst, (to - 1) as usize);
        (b2, rest.push(value))
    }
}

/// Binds the `num_results` results of the call `inst`.
pub fn inst_results(builder: &mut FunctionBuilder, inst: Inst, num_results: usize) -> (results:
    Vec<Value>)
    requires
        old(builder)@.wf(),
        old(builder)@.can_emit(),
        inst.0 < old(builder)@.insts,
    ensures
        (final(builder)@, results@) == bind_results(old(builder)@, inst, 0, num_results),
        emits_code(old(builder)@, final(builder)@),
        final(builder)@.defines_all(results@),
        results@.len() == num_results,
        final(builder)@.position == old(builder)@.position,
        final(builder)@.num_ebbs() == old(builder)@.num_ebbs(),
        final(builder)@.filled == old(builder)@.filled,
        final(builder)@.insts == old(builder)@.insts,
        final(builder)@.signatures == old(builder)@.signatures,
        final(builder)@.functions == old(builder)@.functions,
{
    let mut results: Vec<Value> = Vec::new();
    let mut i: usize = 0;
    assert(builder@.commands.subrange(0, builder@.commands.len() as int) =~= builder@.commands);
    while i < num_results
        invariant
            i <= num_results,
            builder@.wf(),
            inst.0 < builder@.insts,
            (builder@, results@) == bind_results(old(builder)@, inst, 0, i),
            emits_code(old(builder)@, builder@),
            builder@.defines_all(results@),
            results@.len() == i,
            builder@.position == old(builder)@.position,
            builder@.sealed == old(builder)@.sealed,
            builder@.filled == old(builder)@.filled,
            builder@.params == old(builder)@.params,
            builder@.insts == old(builder)@.insts,
            builder@.signatures == old(builder)@.signatures,
            builder@.functions == old(builder)@.functions,
            builder@.jump_tables == old(builder)@.jump_tables,
        decreases num_results - i,
    {
        let ghost before = builder@;
        let value = builder.inst_result(inst, i);
        results.push(value);
        assert(builder@.commands.subrange(0, old(builder)@.commands.len() as int)
            =~= before.commands.subrange(0, old(builder)@.commands.len() as int));
        i += 1;
    }
    results
}

/// Emits an instruction that has a result and takes no operand.
pub fn emit_value(builder: &mut FunctionBuilder, header: InstHeader) -> (value: Value)
    requires
        old(builder)@.wf(),
        old(builder)@.can_emit(),
        header.opcode.spec_has_result(),
        header.target is None,
    ensures
        (final(builder)@, value) == (
            old(builder)@.ins(header, seq![]).0,
            old(builder)@.ins(header, seq![]).2.unwrap(),
        ),
        emits_code(old(builder)@, final(builder)@),
        final(builder)@.defines(value),
{
    let ghost before = builder@;
    let (_inst, value) = builder.ins(header, Vec::new());
    proof {
        lemma_ins_emits_code(before, header, seq![]);
    }
    value.unwrap()
}

/// An instruction that is no terminator leaves the builder as a runtime may
/// leave it.
pub proof fn lemma_ins_emits_code(before: BuilderModel, header: InstHeader, args: Seq<Value>)
    requires
        before.wf(),
        before.can_emit(),
        !header.opcode.spec_is_terminator(),
        before.ins(header, args).0.fits(),
    ensures
        emits_code(before, before.ins(header, args).0),
{
    let after = before.ins(header, args).0;
    assert(after.commands.subrange(0, before.commands.len() as int) =~= before.commands);
    assert forall|e: int, i: int|
        0 <= e < after.params.len() && 0 <= i < after.params[e].len() implies after.defines(
        #[trigger] after.params[e][i],
    ) by {
        assert(before.defines(before.params[e][i]));
    }
}

} // verus!
