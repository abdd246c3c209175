//! A runtime that lays nothing out: every access it is asked to translate
//! yields a placeholder.
use vstd::prelude::*;
use crate::ir::{Value, ValueType, SigRef, Opcode, Imm, Target, InstHeader};
use crate::builder::{FunctionBuilder, BuilderModel};
use crate::runtime::runtime::{Global, Table, Memory, WasmRuntime, bind_results, inst_results,
                              emit_value, lemma_ins_emits_code};
use crate::translation_utils::{FunctionIndex, TableIndex, GlobalIndex, MemoryIndex};

verus! {

/// The bit pattern of the single precision number -1.
pub const MINUS_ONE_F32: u32 = 0xbf80_0000;

/// The bit pattern of the double precision number -1.
pub const MINUS_ONE_F64: u64 = 0xbff0_0000_0000_0000;

/// The constant -1 of type `ty`, which stands for what the runtime would read.
pub open spec fn placeholder(ty: ValueType) -> InstHeader {
    match ty {
        ValueType::I32 | ValueType::I64 => InstHeader {
            ty: Some(ty),
            imm: Some(Imm::Int(-1i64)),
            ..InstHeader::spec_plain(Opcode::Iconst)
        },
        ValueType::F32 => InstHeader {
            imm: Some(Imm::Ieee32(MINUS_ONE_F32)),
            ..InstHeader::spec_plain(Opcode::F32const)
        },
        ValueType::F64 => InstHeader {
            imm: Some(Imm::Ieee64(MINUS_ONE_F64)),
            ..InstHeader::spec_plain(Opcode::F64const)
        },
    }
}

/// A runtime for translating without running: it keeps the declared globals
/// and hands out placeholders.
pub struct DummyRuntime {
    /// The declared globals.
    pub globals: Vec<Global>,
    /// Whether the declarations are closed.
    pub translating: bool,
}

impl DummyRuntime {
    /// Allocates the runtime data structures.
    pub fn new() -> (runtime: DummyRuntime)
        ensures
            runtime.globals().len() == 0,
            !runtime.ready(),
    {
        DummyRuntime { globals: Vec::new(), translating: false }
    }

    /// The globals declared so far.
    pub open spec fn globals(&self) -> Seq<Global> {
        self.globals@
    }
}

impl WasmRuntime for DummyRuntime {
    open spec fn ready(&self) -> bool {
        self.translating
    }

    open spec fn can_call_indirect(&self) -> bool {
        true
    }

    open spec fn between_functions(self) -> Self {
        self
    }

    open spec fn declares_global(self, global: Global, after: Self) -> bool {
        after.globals@ == self.globals@.push(global) && after.translating == self.translating
    }

    open spec fn declares_table(self, table: Table, after: Self) -> bool {
        after == self
    }

    open spec fn declares_memory(self, memory: Memory, after: Self) -> bool {
        after == self
    }

    open spec fn declares_elements(
        self,
        table_index: TableIndex,
        offset: usize,
        elements: Seq<FunctionIndex>,
        after: Self,
    ) -> bool {
        after == self
    }

    open spec fn table_takes(&self, table_index: TableIndex, offset: usize, count: nat) -> bool {
        true
    }

    open spec fn lays_out(self, after: Self) -> bool {
        after.translating && after.globals@ == self.globals@
    }

    open spec fn has_global(&self, index: GlobalIndex) -> bool {
        index < self.globals@.len()
    }

    open spec fn get_global(&self, builder: BuilderModel, index: GlobalIndex) -> (
        BuilderModel,
        Value,
    ) {
        let (b, _inst, value) = builder.ins(placeholder(self.globals@[index as int].ty), seq![]);
        (b, value.unwrap())
    }

    open spec fn set_global(&self, builder: BuilderModel, index: GlobalIndex, value: Value)
        -> BuilderModel {
        builder
    }

    open spec fn grow_memory(self, builder: BuilderModel, pages: Value) -> (
        Self,
        BuilderModel,
        Value,
    ) {
        let (b, _inst, value) = builder.ins(placeholder(ValueType::I32), seq![]);
        (self, b, value.unwrap())
    }

    open spec fn current_memory(self, builder: BuilderModel) -> (Self, BuilderModel, Value) {
        let (b, _inst, value) = builder.ins(placeholder(ValueType::I32), seq![]);
        (self, b, value.unwrap())
    }

    open spec fn call_indirect(
        &self,
        builder: BuilderModel,
        sig_ref: SigRef,
        index_val: Value,
        call_args: Seq<Value>,
        num_results: usize,
    ) -> (BuilderModel, Seq<Value>) {
        let header = InstHeader {
            target: Some(Target::Sig(sig_ref)),
            ..InstHeader::spec_plain(Opcode::CallIndirect)
        };
        let (b, inst, _value) = builder.ins(header, seq![index_val] + call_args);
        bind_results(b, inst, 0, num_results)
    }

    fn declare_global(&mut self, global: Global)
        ensures
            final(self).globals() == old(self).globals().push(global),
            final(self).has_global(old(self).globals().len() as usize),
    {
        self.globals.push(global);
    }

    fn declare_table(&mut self, _table: Table)
        ensures
            *final(self) == *old(self),
    {
    }

    fn declare_table_elements(
        &mut self,
        _table_index: TableIndex,
        _offset: usize,
        _elements: &Vec<FunctionIndex>,
    )
        ensures
            *final(self) == *old(self),
    {
    }

    fn declare_memory(&mut self, _memory: Memory)
        ensures
            *final(self) == *old(self),
    {
    }

    fn declare_data_initialization(
        &mut self,
        _memory_index: MemoryIndex,
        _offset: usize,
        _data: &Vec<u8>,
    ) -> (res: Result<(), String>)
        ensures
            res is Ok,
            *final(self) == *old(self),
    {
        Ok(())
    }

    fn begin_translation(&mut self)
        ensures
            final(self).ready(),
            final(self).globals() == old(self).globals(),
    {
        self.translating = true;
    }

    fn supports_call_indirect(&self) -> (supported: bool) {
        true
    }

    fn table_takes_elements(&self, _table_index: TableIndex, _offset: usize, _count: usize) -> (takes:
        bool) {
        true
    }

    fn next_function(&mut self)
        ensures
            *final(self) == *old(self),
    {
    }

    fn knows_global(&self, index: GlobalIndex) -> (known: bool) {
        index < self.globals.len()
    }

    fn is_ready(&self) -> (ready: bool) {
        self.translating
    }

    fn translate_get_global(&self, builder: &mut FunctionBuilder, global_index: GlobalIndex) -> (value:
        Value) {
        let header = match self.globals[global_index].ty {
            ValueType::I32 => InstHeader {
                opcode: Opcode::Iconst,
                ty: Some(ValueType::I32),
                cond: None,
                imm: Some(Imm::Int(-1)),
                target: None,
            },
            ValueType::I64 => InstHeader {
                opcode: Opcode::Iconst,
                ty: Some(ValueType::I64),
                cond: None,
                imm: Some(Imm::Int(-1)),
                target: None,
            },
            ValueType::F32 => InstHeader {
                opcode: Opcode::F32const,
                ty: None,
                cond: None,
                imm: Some(Imm::Ieee32(MINUS_ONE_F32)),
                target: None,
            },
            ValueType::F64 => InstHeader {
                opcode: Opcode::F64const,
                ty: None,
                cond: None,
                imm: Some(Imm::Ieee64(MINUS_ONE_F64)),
                target: None,
            },
        };
        emit_value(builder, header)
    }

    fn translate_set_global(
        &self,
        builder: &mut FunctionBuilder,
        _global_index: GlobalIndex,
        _val: Value,
    ) {
        assert(builder@.commands.subrange(0, builder@.commands.len() as int) =~= builder@.commands);
    }

    fn translate_grow_memory(&mut self, builder: &mut FunctionBuilder, _val: Value) -> (value:
        Value) {
        let header = InstHeader {
            opcode: Opcode::Iconst,
            ty: Some(ValueType::I32),
            cond: None,
            imm: Some(Imm::Int(-1)),
            target: None,
        };
        emit_value(builder, header)
    }

    fn translate_current_memory(&mut self, builder: &mut FunctionBuilder) -> (value: Value) {
        let header = InstHeader {
            opcode: Opcode::Iconst,
            ty: Some(ValueType::I32),
            cond: None,
            imm: Some(Imm::Int(-1)),
            target: None,
        };
        emit_value(builder, header)
    }

    fn translate_call_indirect(
        &self,
        builder: &mut FunctionBuilder,
        sig_ref: SigRef,
        index_val: Value,
        call_args: Vec<Value>,
        num_results: usize,
    ) -> (results: Vec<Value>) {
        let header = InstHeader {
            opcode: Opcode::CallIndirect,
            ty: None,
            cond: None,
            imm: None,
            target: Some(Target::Sig(sig_ref)),
        };
        let mut args: Vec<Value> = Vec::new();
        args.push(index_val);
        let mut call_args = call_args;
        args.append(&mut call_args);
        let ghost before = builder@;
        let (inst, _value) = builder.ins(header, args);
        proof {
            lemma_ins_emits_code(before, header, args@);
        }
        let ghost middle = builder@;
        let results = inst_results(builder, inst, num_results);
        assert(builder@.commands.subrange(0, before.commands.len() as int) =~= middle.commands.subrange(
            0,
            before.commands.len() as int,
        ));
        results
    }
}

} // verus!
