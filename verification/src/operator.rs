//! The WebAssembly operators that the translator takes, and the table that
//! says how each operator that only computes is lowered.
use vstd::prelude::*;
use crate::ir::{ValueType, IntCC, FloatCC, Opcode, Cond, Imm, InstHeader};
use crate::translation_utils::{WasmType, Ieee32, Ieee64, f32_translation, f64_translation};

verus! {

/// The immediate of a memory access: an alignment hint and a constant offset.
#[derive(Clone, Copy, Debug, PartialEq, Eq, Structural)]
pub struct MemoryImmediate {
    pub flags: u32,
    pub offset: u32,
}

/// The targets of a `br_table`: one depth per table entry, and the default.
#[derive(Clone, Debug, PartialEq, Eq)]
pub struct BrTable {
    pub targets: Vec<u32>,
    pub default: u32,
}

/// One operator of a function body.
#[derive(Clone, Debug, PartialEq, Eq)]
pub enum WasmOperator {
    Unreachable,
    Nop,
    Block { ty: WasmType },
    Loop { ty: WasmType },
    If { ty: WasmType },
    Else,
    End,
    Br { relative_depth: u32 },
    BrIf { relative_depth: u32 },
    BrTable { table: BrTable },
    Return,
    Call { function_index: u32 },
    CallIndirect { index: u32, table_index: u32 },
    Drop,
    Select,
    GetLocal { local_index: u32 },
    SetLocal { local_index: u32 },
    TeeLocal { local_index: u32 },
    GetGlobal { global_index: u32 },
    SetGlobal { global_index: u32 },
    I32Load { memarg: MemoryImmediate },
    I64Load { memarg: MemoryImmediate },
    F32Load { memarg: MemoryImmediate },
    F64Load { memarg: MemoryImmediate },
    I32Load8S { memarg: MemoryImmediate },
    I32Load8U { memarg: MemoryImmediate },
    I32Load16S { memarg: MemoryImmediate },
    I32Load16U { memarg: MemoryImmediate },
    I64Load8S { memarg: MemoryImmediate },
    I64Load8U { memarg: MemoryImmediate },
    I64Load16S { memarg: MemoryImmediate },
    I64Load16U { memarg: MemoryImmediate },
    I64Load32S { memarg: MemoryImmediate },
    I64Load32U { memarg: MemoryImmediate },
    I32Store { memarg: MemoryImmediate },
    I64Store { memarg: MemoryImmediate },
    F32Store { memarg: MemoryImmediate },
    F64Store { memarg: MemoryImmediate },
    I32Store8 { memarg: MemoryImmediate },
    I32Store16 { memarg: MemoryImmediate },
    I64Store8 { memarg: MemoryImmediate },
    I64Store16 { memarg: MemoryImmediate },
    I64Store32 { memarg: MemoryImmediate },
    CurrentMemory { reserved: u32 },
    GrowMemory { reserved: u32 },
    I32Const { value: i32 },
    I64Const { value: i64 },
    F32Const { value: Ieee32 },
    F64Const { value: Ieee64 },
    I32Eqz,
    I32Eq,
    I32Ne,
    I32LtS,
    I32LtU,
    I32GtS,
    I32GtU,
    I32LeS,
    I32LeU,
    I32GeS,
    I32GeU,
    I64Eqz,
    I64Eq,
    I64Ne,
    I64LtS,
    I64LtU,
    I64GtS,
    I64GtU,
    I64LeS,
    I64LeU,
    I64GeS,
    I64GeU,
    F32Eq,
    F32Ne,
    F32Lt,
    F32Gt,
    F32Le,
    F32Ge,
    F64Eq,
    F64Ne,
    F64Lt,
    F64Gt,
    F64Le,
    F64Ge,
    I32Clz,
    I32Ctz,
    I32Popcnt,
    I32Add,
    I32Sub,
    I32Mul,
    I32DivS,
    I32DivU,
    I32RemS,
    I32RemU,
    I32And,
    I32Or,
    I32Xor,
    I32Shl,
    I32ShrS,
    I32ShrU,
    I32Rotl,
    I32Rotr,
    I64Clz,
    I64Ctz,
    I64Popcnt,
    I64Add,
    I64Sub,
    I64Mul,
    I64DivS,
    I64DivU,
    I64RemS,
    I64RemU,
    I64And,
    I64Or,
    I64Xor,
    I64Shl,
    I64ShrS,
    I64ShrU,
    I64Rotl,
    I64Rotr,
    F32Abs,
    F32Neg,
    F32Ceil,
    F32Floor,
    F32Trunc,
    F32Nearest,
    F32Sqrt,
    F32Add,
    F32Sub,
    F32Mul,
    F32Div,
    F32Min,
    F32Max,
    F32Copysign,
    F64Abs,
    F64Neg,
    F64Ceil,
    F64Floor,
    F64Trunc,
    F64Nearest,
    F64Sqrt,
    F64Add,
    F64Sub,
    F64Mul,
    F64Div,
    F64Min,
    F64Max,
    F64Copysign,
    I32WrapI64,
    I32TruncSF32,
    I32TruncUF32,
    I32TruncSF64,
    I32TruncUF64,
    I64ExtendSI32,
    I64ExtendUI32,
    I64TruncSF32,
    I64TruncUF32,
    I64TruncSF64,
    I64TruncUF64,
    F32ConvertSI32,
    F32ConvertUI32,
    F32ConvertSI64,
    F32ConvertUI64,
    F32DemoteF64,
    F64ConvertSI32,
    F64ConvertUI32,
    F64ConvertSI64,
    F64ConvertUI64,
    F64PromoteF32,
    I32ReinterpretF32,
    I64ReinterpretF64,
    F32ReinterpretI32,
    F64ReinterpretI64,
}

/// How an operator that only computes is lowered.
#[derive(Clone, Copy, Debug, PartialEq, Eq, Structural)]
pub enum Lowering {
    /// Pop `arity` operands, emit an instruction that takes them in the order
    /// in which they were pushed, and push its result. With `widen`, a second
    /// instruction takes the first one's result, and its result is pushed.
    Compute { header: InstHeader, arity: usize, widen: Option<InstHeader> },
    /// Pop a value and then an address, and emit a store of the value at the
    /// address. Nothing is pushed.
    Store { header: InstHeader },
}

impl Lowering {
    pub open spec fn spec_unary(opcode: Opcode) -> Lowering {
        Lowering::Compute { header: InstHeader::spec_plain(opcode), arity: 1, widen: None }
    }

    /// An instruction of one operand, whose result has the operand's type.
    #[verifier::when_used_as_spec(spec_unary)]
    pub fn unary(opcode: Opcode) -> (l: Lowering)
        ensures
            l == Lowering::spec_unary(opcode),
    {
        Lowering::Compute { header: InstHeader::plain(opcode), arity: 1, widen: None }
    }

    pub open spec fn spec_binary(opcode: Opcode) -> Lowering {
        Lowering::Compute { header: InstHeader::spec_plain(opcode), arity: 2, widen: None }
    }

    /// An instruction of two operands of one type, which is the result's.
    #[verifier::when_used_as_spec(spec_binary)]
    pub fn binary(opcode: Opcode) -> (l: Lowering)
        ensures
            l == Lowering::spec_binary(opcode),
    {
        Lowering::Compute { header: InstHeader::plain(opcode), arity: 2, widen: None }
    }

    pub open spec fn spec_convert(opcode: Opcode, ty: ValueType) -> Lowering {
        Lowering::Compute {
            header: InstHeader { ty: Some(ty), ..InstHeader::spec_plain(opcode) },
            arity: 1,
            widen: None,
        }
    }

    /// A conversion of one operand to the type `ty`.
    #[verifier::when_used_as_spec(spec_convert)]
    pub fn convert(opcode: Opcode, ty: ValueType) -> (l: Lowering)
        ensures
            l == Lowering::spec_convert(opcode, ty),
    {
        Lowering::Compute {
            header: InstHeader { opcode, ty: Some(ty), cond: None, imm: None, target: None },
            arity: 1,
            widen: None,
        }
    }

    pub open spec fn spec_count_bits(opcode: Opcode, ty: ValueType) -> Lowering {
        Lowering::Compute {
            header: InstHeader::spec_plain(opcode),
            arity: 1,
            widen: Some(InstHeader { ty: Some(ty), ..InstHeader::spec_plain(Opcode::Sextend) }),
        }
    }

    /// A bit count, whose result is sign-extended to the operand's type `ty`.
    #[verifier::when_used_as_spec(spec_count_bits)]
    pub fn count_bits(opcode: Opcode, ty: ValueType) -> (l: Lowering)
        ensures
            l == Lowering::spec_count_bits(opcode, ty),
    {
        Lowering::Compute {
            header: InstHeader::plain(opcode),
            arity: 1,
            widen: Some(
                InstHeader {
                    opcode: Opcode::Sextend,
                    ty: Some(ty),
                    cond: None,
                    imm: None,
                    target: None,
                },
            ),
        }
    }

    /// The instruction that turns the flag of a comparison into an `i32`.
    pub open spec fn spec_flag_to_int() -> InstHeader {
        InstHeader { ty: Some(ValueType::I32), ..InstHeader::spec_plain(Opcode::Bint) }
    }

    #[verifier::when_used_as_spec(spec_flag_to_int)]
    pub fn flag_to_int() -> (h: InstHeader)
        ensures
            h == Lowering::spec_flag_to_int(),
    {
        InstHeader { opcode: Opcode::Bint, ty: Some(ValueType::I32), cond: None, imm: None, target: None }
    }

    pub open spec fn spec_int_relation(cc: IntCC) -> Lowering {
        Lowering::Compute {
            header: InstHeader {
                cond: Some(Cond::Int(cc)),
                ..InstHeader::spec_plain(Opcode::IntCompare)
            },
            arity: 2,
            widen: Some(Lowering::spec_flag_to_int()),
        }
    }

    /// A comparison of two integers, whose flag is widened to an `i32`.
    #[verifier::when_used_as_spec(spec_int_relation)]
    pub fn int_relation(cc: IntCC) -> (l: Lowering)
        ensures
            l == Lowering::spec_int_relation(cc),
    {
        Lowering::Compute {
            header: InstHeader {
                opcode: Opcode::IntCompare,
                ty: None,
                cond: Some(Cond::Int(cc)),
                imm: None,
                target: None,
            },
            arity: 2,
            widen: Some(Lowering::flag_to_int()),
        }
    }

    pub open spec fn spec_equals_zero() -> Lowering {
        Lowering::Compute {
            header: InstHeader {
                cond: Some(Cond::Int(IntCC::Equal)),
                imm: Some(Imm::Int(0)),
                ..InstHeader::spec_plain(Opcode::IntCompareImm)
            },
            arity: 1,
            widen: Some(Lowering::spec_flag_to_int()),
        }
    }

    /// The comparison of an integer with zero, widened to an `i32`.
    #[verifier::when_used_as_spec(spec_equals_zero)]
    pub fn equals_zero() -> (l: Lowering)
        ensures
            l == Lowering::spec_equals_zero(),
    {
        Lowering::Compute {
            header: InstHeader {
                opcode: Opcode::IntCompareImm,
                ty: None,
                cond: Some(Cond::Int(IntCC::Equal)),
                imm: Some(Imm::Int(0)),
                target: None,
            },
            arity: 1,
            widen: Some(Lowering::flag_to_int()),
        }
    }

    pub open spec fn spec_float_relation(cc: FloatCC) -> Lowering {
        Lowering::Compute {
            header: InstHeader {
                cond: Some(Cond::Float(cc)),
                ..InstHeader::spec_plain(Opcode::FloatCompare)
            },
            arity: 2,
            widen: Some(Lowering::spec_flag_to_int()),
        }
    }

    /// A comparison of two floating point numbers, widened to an `i32`.
    #[verifier::when_used_as_spec(spec_float_relation)]
    pub fn float_relation(cc: FloatCC) -> (l: Lowering)
        ensures
            l == Lowering::spec_float_relation(cc),
    {
        Lowering::Compute {
            header: InstHeader {
                opcode: Opcode::FloatCompare,
                ty: None,
                cond: Some(Cond::Float(cc)),
                imm: None,
                target: None,
            },
            arity: 2,
            widen: Some(Lowering::flag_to_int()),
        }
    }

    pub open spec fn spec_int_const(ty: ValueType, value: i64) -> Lowering {
        Lowering::Compute {
            header: InstHeader {
                ty: Some(ty),
                imm: Some(Imm::Int(value)),
                ..InstHeader::spec_plain(Opcode::Iconst)
            },
            arity: 0,
            widen: None,
        }
    }

    /// An integer constant of type `ty`.
    #[verifier::when_used_as_spec(spec_int_const)]
    pub fn int_const(ty: ValueType, value: i64) -> (l: Lowering)
        ensures
            l == Lowering::spec_int_const(ty, value),
    {
        Lowering::Compute {
            header: InstHeader {
                opcode: Opcode::Iconst,
                ty: Some(ty),
                cond: None,
                imm: Some(Imm::Int(value)),
                target: None,
            },
            arity: 0,
            widen: None,
        }
    }

    pub open spec fn spec_f32_const(value: crate::ir::Ieee32) -> Lowering {
        Lowering::Compute {
            header: InstHeader {
                imm: Some(Imm::Ieee32(value.0)),
                ..InstHeader::spec_plain(Opcode::F32const)
            },
            arity: 0,
            widen: None,
        }
    }

    /// A single precision constant.
    #[verifier::when_used_as_spec(spec_f32_const)]
    pub fn f32_const(value: crate::ir::Ieee32) -> (l: Lowering)
        ensures
            l == Lowering::spec_f32_const(value),
    {
        Lowering::Compute {
            header: InstHeader {
                opcode: Opcode::F32const,
                ty: None,
                cond: None,
                imm: Some(Imm::Ieee32(value.0)),
                target: None,
            },
            arity: 0,
            widen: None,
        }
    }

    pub open spec fn spec_f64_const(value: crate::ir::Ieee64) -> Lowering {
        Lowering::Compute {
            header: InstHeader {
                imm: Some(Imm::Ieee64(value.0)),
                ..InstHeader::spec_plain(Opcode::F64const)
            },
            arity: 0,
            widen: None,
        }
    }

    /// A double precision constant.
    #[verifier::when_used_as_spec(spec_f64_const)]
    pub fn f64_const(value: crate::ir::Ieee64) -> (l: Lowering)
        ensures
            l == Lowering::spec_f64_const(value),
    {
        Lowering::Compute {
            header: InstHeader {
                opcode: Opcode::F64const,
                ty: None,
                cond: None,
                imm: Some(Imm::Ieee64(value.0)),
                target: None,
            },
            arity: 0,
            widen: None,
        }
    }

    pub open spec fn spec_load(opcode: Opcode, ty: Option<ValueType>, offset: u32) -> Lowering {
        Lowering::Compute {
            header: InstHeader {
                ty,
                imm: Some(Imm::Offset(offset as i32)),
                ..InstHeader::spec_plain(opcode)
            },
            arity: 1,
            widen: None,
        }
    }

    /// A load from the popped address plus the constant `offset`. The address
    /// is the operator's own: no base is added here.
    #[verifier::when_used_as_spec(spec_load)]
    pub fn load(opcode: Opcode, ty: Option<ValueType>, offset: u32) -> (l: Lowering)
        ensures
            l == Lowering::spec_load(opcode, ty, offset),
    {
        Lowering::Compute {
            header: InstHeader {
                opcode,
                ty,
                cond: None,
                imm: Some(Imm::Offset(#[verifier::truncate] (offset as i32))),
                target: None,
            },
            arity: 1,
            widen: None,
        }
    }

    pub open spec fn spec_store(opcode: Opcode, offset: u32) -> Lowering {
        Lowering::Store {
            header: InstHeader {
                imm: Some(Imm::Offset(offset as i32)),
                ..InstHeader::spec_plain(opcode)
            },
        }
    }

    /// A store to the popped address plus the constant `offset`.
    #[verifier::when_used_as_spec(spec_store)]
    pub fn store(opcode: Opcode, offset: u32) -> (l: Lowering)
        ensures
            l == Lowering::spec_store(opcode, offset),
    {
        Lowering::Store {
            header: InstHeader {
                opcode,
                ty: None,
                cond: None,
                imm: Some(Imm::Offset(#[verifier::truncate] (offset as i32))),
                target: None,
            },
        }
    }

    /// The instructions of a lowering are plain computations: the first has
    /// a result, none ends a block or refers to a block, table or function,
    /// and a second one, if any, has a result too.
    pub open spec fn wf(self) -> bool {
        match self {
            Lowering::Compute { header, arity, widen } => {
                &&& header.opcode.spec_has_result()
                &&& !header.opcode.spec_is_terminator()
                &&& header.target is None
                &&& arity <= 2
                &&& widen matches Some(wide) ==> wide.opcode.spec_has_result()
                    && !wide.opcode.spec_is_terminator() && wide.target is None
            },
            Lowering::Store { header } => {
                &&& !header.opcode.spec_has_result()
                &&& !header.opcode.spec_is_terminator()
                &&& !header.opcode.spec_is_branch()
                &&& header.target is None
            },
        }
    }

    /// The number of operands that the lowering pops.
    pub open spec fn spec_pops(self) -> usize {
        match self {
            Lowering::Compute { arity, .. } => arity,
            Lowering::Store { .. } => 2,
        }
    }

    #[verifier::when_used_as_spec(spec_pops)]
    pub fn pops(self) -> (n: usize)
        ensures
            n == self.spec_pops(),
    {
        match self {
            Lowering::Compute { arity, .. } => arity,
            Lowering::Store { .. } => 2,
        }
    }
}

/// The lowering of an operator that only computes: arithmetic, comparison,
/// conversion, constant, load or store. `None` for every other operator.
pub open spec fn lowering(op: WasmOperator) -> Option<Lowering> {
    match op {
        WasmOperator::I32Load { memarg } => {
            Some(Lowering::load(Opcode::Load, Some(ValueType::I32), memarg.offset))
        },
        WasmOperator::I64Load { memarg } => {
            Some(Lowering::load(Opcode::Load, Some(ValueType::I64), memarg.offset))
        },
        WasmOperator::F32Load { memarg } => {
            Some(Lowering::load(Opcode::Load, Some(ValueType::F32), memarg.offset))
        },
        WasmOperator::F64Load { memarg } => {
            Some(Lowering::load(Opcode::Load, Some(ValueType::F64), memarg.offset))
        },
        WasmOperator::I32Load8S { memarg } => {
            Some(Lowering::load(Opcode::Sload8, Some(ValueType::I32), memarg.offset))
        },
        WasmOperator::I32Load8U { memarg } => {
            Some(Lowering::load(Opcode::Uload8, Some(ValueType::I32), memarg.offset))
        },
        WasmOperator::I32Load16S { memarg } => {
            Some(Lowering::load(Opcode::Sload16, Some(ValueType::I32), memarg.offset))
        },
        WasmOperator::I32Load16U { memarg } => {
            Some(Lowering::load(Opcode::Uload16, Some(ValueType::I32), memarg.offset))
        },
        WasmOperator::I64Load8S { memarg } => {
            Some(Lowering::load(Opcode::Sload8, Some(ValueType::I64), memarg.offset))
        },
        WasmOperator::I64Load8U { memarg } => {
            Some(Lowering::load(Opcode::Uload8, Some(ValueType::I64), memarg.offset))
        },
        WasmOperator::I64Load16S { memarg } => {
            Some(Lowering::load(Opcode::Sload16, Some(ValueType::I64), memarg.offset))
        },
        WasmOperator::I64Load16U { memarg } => {
            Some(Lowering::load(Opcode::Uload16, Some(ValueType::I64), memarg.offset))
        },
        WasmOperator::I64Load32S { memarg } => {
            Some(Lowering::load(Opcode::Sload32, None, memarg.offset))
        },
        WasmOperator::I64Load32U { memarg } => {
            Some(Lowering::load(Opcode::Uload32, None, memarg.offset))
        },
        WasmOperator::I32Store { memarg } => Some(Lowering::store(Opcode::Store, memarg.offset)),
        WasmOperator::I64Store { memarg } => Some(Lowering::store(Opcode::Store, memarg.offset)),
        WasmOperator::F32Store { memarg } => Some(Lowering::store(Opcode::Store, memarg.offset)),
        WasmOperator::F64Store { memarg } => Some(Lowering::store(Opcode::Store, memarg.offset)),
        WasmOperator::I32Store8 { memarg } => Some(Lowering::store(Opcode::Istore8, memarg.offset)),
        WasmOperator::I32Store16 { memarg } => Some(Lowering::store(Opcode::Istore16, memarg.offset)),
        WasmOperator::I64Store8 { memarg } => Some(Lowering::store(Opcode::Istore8, memarg.offset)),
        WasmOperator::I64Store16 { memarg } => Some(Lowering::store(Opcode::Istore16, memarg.offset)),
        WasmOperator::I64Store32 { memarg } => Some(Lowering::store(Opcode::Istore32, memarg.offset)),
        WasmOperator::I32Const { value } => Some(Lowering::int_const(ValueType::I32, value as i64)),
        WasmOperator::I64Const { value } => Some(Lowering::int_const(ValueType::I64, value)),
        WasmOperator::F32Const { value } => Some(Lowering::f32_const(f32_translation(value))),
        WasmOperator::F64Const { value } => Some(Lowering::f64_const(f64_translation(value))),
        WasmOperator::I32Eqz | WasmOperator::I64Eqz => Some(Lowering::equals_zero()),
        WasmOperator::I32Eq | WasmOperator::I64Eq => Some(Lowering::int_relation(IntCC::Equal)),
        WasmOperator::I32Ne | WasmOperator::I64Ne => Some(Lowering::int_relation(IntCC::NotEqual)),
        WasmOperator::I32LtS | WasmOperator::I64LtS => Some(Lowering::int_relation(IntCC::SignedLessThan)),
        WasmOperator::I32LtU
        | WasmOperator::I64LtU => {
            Some(Lowering::int_relation(IntCC::UnsignedLessThan))
        },
        WasmOperator::I32GtS
        | WasmOperator::I64GtS => {
            Some(Lowering::int_relation(IntCC::SignedGreaterThan))
        },
        WasmOperator::I32GtU
        | WasmOperator::I64GtU => {
            Some(Lowering::int_relation(IntCC::UnsignedGreaterThan))
        },
        WasmOperator::I32LeS
        | WasmOperator::I64LeS => {
            Some(Lowering::int_relation(IntCC::SignedLessThanOrEqual))
        },
        WasmOperator::I32LeU
        | WasmOperator::I64LeU => {
            Some(Lowering::int_relation(IntCC::UnsignedLessThanOrEqual))
        },
        WasmOperator::I32GeS
        | WasmOperator::I64GeS => {
            Some(Lowering::int_relation(IntCC::SignedGreaterThanOrEqual))
        },
        WasmOperator::I32GeU
        | WasmOperator::I64GeU => {
            Some(Lowering::int_relation(IntCC::UnsignedGreaterThanOrEqual))
        },
        WasmOperator::F32Eq | WasmOperator::F64Eq => Some(Lowering::float_relation(FloatCC::Equal)),
        WasmOperator::F32Ne | WasmOperator::F64Ne => Some(Lowering::float_relation(FloatCC::NotEqual)),
        WasmOperator::F32Lt | WasmOperator::F64Lt => Some(Lowering::float_relation(FloatCC::LessThan)),
        WasmOperator::F32Gt | WasmOperator::F64Gt => Some(Lowering::float_relation(FloatCC::GreaterThan)),
        WasmOperator::F32Le
        | WasmOperator::F64Le => {
            Some(Lowering::float_relation(FloatCC::LessThanOrEqual))
        },
        WasmOperator::F32Ge
        | WasmOperator::F64Ge => {
            Some(Lowering::float_relation(FloatCC::GreaterThanOrEqual))
        },
        WasmOperator::I32Clz => Some(Lowering::count_bits(Opcode::Clz, ValueType::I32)),
        WasmOperator::I32Ctz => Some(Lowering::count_bits(Opcode::Ctz, ValueType::I32)),
        WasmOperator::I32Popcnt => Some(Lowering::count_bits(Opcode::Popcnt, ValueType::I32)),
        WasmOperator::I64Clz => Some(Lowering::count_bits(Opcode::Clz, ValueType::I64)),
        WasmOperator::I64Ctz => Some(Lowering::count_bits(Opcode::Ctz, ValueType::I64)),
        WasmOperator::I64Popcnt => Some(Lowering::count_bits(Opcode::Popcnt, ValueType::I64)),
        WasmOperator::I32Add | WasmOperator::I64Add => Some(Lowering::binary(Opcode::Iadd)),
        WasmOperator::I32Sub | WasmOperator::I64Sub => Some(Lowering::binary(Opcode::Isub)),
        WasmOperator::I32Mul | WasmOperator::I64Mul => Some(Lowering::binary(Opcode::Imul)),
        WasmOperator::I32DivS | WasmOperator::I64DivS => Some(Lowering::binary(Opcode::Sdiv)),
        WasmOperator::I32DivU | WasmOperator::I64DivU => Some(Lowering::binary(Opcode::Udiv)),
        WasmOperator::I32RemS | WasmOperator::I64RemS => Some(Lowering::binary(Opcode::Srem)),
        WasmOperator::I32RemU | WasmOperator::I64RemU => Some(Lowering::binary(Opcode::Urem)),
        WasmOperator::I32And | WasmOperator::I64And => Some(Lowering::binary(Opcode::Band)),
        WasmOperator::I32Or | WasmOperator::I64Or => Some(Lowering::binary(Opcode::Bor)),
        WasmOperator::I32Xor | WasmOperator::I64Xor => Some(Lowering::binary(Opcode::Bxor)),
        WasmOperator::I32Shl | WasmOperator::I64Shl => Some(Lowering::binary(Opcode::Ishl)),
        WasmOperator::I32ShrS | WasmOperator::I64ShrS => Some(Lowering::binary(Opcode::Sshr)),
        WasmOperator::I32ShrU | WasmOperator::I64ShrU => Some(Lowering::binary(Opcode::Ushr)),
        WasmOperator::I32Rotl | WasmOperator::I64Rotl => Some(Lowering::binary(Opcode::Rotl)),
        WasmOperator::I32Rotr | WasmOperator::I64Rotr => Some(Lowering::binary(Opcode::Rotr)),
        WasmOperator::F32Abs | WasmOperator::F64Abs => Some(Lowering::unary(Opcode::Fabs)),
        WasmOperator::F32Neg | WasmOperator::F64Neg => Some(Lowering::unary(Opcode::Fneg)),
        WasmOperator::F32Ceil | WasmOperator::F64Ceil => Some(Lowering::unary(Opcode::Ceil)),
        WasmOperator::F32Floor | WasmOperator::F64Floor => Some(Lowering::unary(Opcode::Floor)),
        WasmOperator::F32Trunc | WasmOperator::F64Trunc => Some(Lowering::unary(Opcode::Trunc)),
        WasmOperator::F32Nearest | WasmOperator::F64Nearest => Some(Lowering::unary(Opcode::Nearest)),
        WasmOperator::F32Sqrt | WasmOperator::F64Sqrt => Some(Lowering::unary(Opcode::Sqrt)),
        WasmOperator::F32Add | WasmOperator::F64Add => Some(Lowering::binary(Opcode::Fadd)),
        WasmOperator::F32Sub | WasmOperator::F64Sub => Some(Lowering::binary(Opcode::Fsub)),
        WasmOperator::F32Mul | WasmOperator::F64Mul => Some(Lowering::binary(Opcode::Fmul)),
        WasmOperator::F32Div | WasmOperator::F64Div => Some(Lowering::binary(Opcode::Fdiv)),
        WasmOperator::F32Min | WasmOperator::F64Min => Some(Lowering::binary(Opcode::Fmin)),
        WasmOperator::F32Max | WasmOperator::F64Max => Some(Lowering::binary(Opcode::Fmax)),
        WasmOperator::F32Copysign | WasmOperator::F64Copysign => Some(Lowering::binary(Opcode::Fcopysign)),
        WasmOperator::I32WrapI64 => Some(Lowering::convert(Opcode::Ireduce, ValueType::I32)),
        WasmOperator::I32TruncSF32
        | WasmOperator::I32TruncSF64 => {
            Some(Lowering::convert(Opcode::FcvtToSint, ValueType::I32))
        },
        WasmOperator::I32TruncUF32
        | WasmOperator::I32TruncUF64 => {
            Some(Lowering::convert(Opcode::FcvtToUint, ValueType::I32))
        },
        WasmOperator::I64ExtendSI32 => Some(Lowering::convert(Opcode::Sextend, ValueType::I64)),
        WasmOperator::I64ExtendUI32 => Some(Lowering::convert(Opcode::Uextend, ValueType::I64)),
        WasmOperator::I64TruncSF32
        | WasmOperator::I64TruncSF64 => {
            Some(Lowering::convert(Opcode::FcvtToSint, ValueType::I64))
        },
        WasmOperator::I64TruncUF32
        | WasmOperator::I64TruncUF64 => {
            Some(Lowering::convert(Opcode::FcvtToUint, ValueType::I64))
        },
        WasmOperator::F32ConvertSI32
        | WasmOperator::F32ConvertSI64 => {
            Some(Lowering::convert(Opcode::FcvtFromSint, ValueType::F32))
        },
        WasmOperator::F32ConvertUI32
        | WasmOperator::F32ConvertUI64 => {
            Some(Lowering::convert(Opcode::FcvtFromUint, ValueType::F32))
        },
        WasmOperator::F32DemoteF64 => Some(Lowering::convert(Opcode::Fdemote, ValueType::F32)),
        WasmOperator::F64ConvertSI32
        | WasmOperator::F64ConvertSI64 => {
            Some(Lowering::convert(Opcode::FcvtFromSint, ValueType::F64))
        },
        WasmOperator::F64ConvertUI32
        | WasmOperator::F64ConvertUI64 => {
            Some(Lowering::convert(Opcode::FcvtFromUint, ValueType::F64))
        },
        WasmOperator::F64PromoteF32 => Some(Lowering::convert(Opcode::Fpromote, ValueType::F64)),
        WasmOperator::I32ReinterpretF32 => Some(Lowering::convert(Opcode::Bitcast, ValueType::I32)),
        WasmOperator::I64ReinterpretF64 => Some(Lowering::convert(Opcode::Bitcast, ValueType::I64)),
        WasmOperator::F32ReinterpretI32 => Some(Lowering::convert(Opcode::Bitcast, ValueType::F32)),
        WasmOperator::F64ReinterpretI64 => Some(Lowering::convert(Opcode::Bitcast, ValueType::F64)),
        _ => None,
    }
}

/// The lowering of `op`, where it only computes.
pub fn lower(op: &WasmOperator) -> (l: Option<Lowering>)
    ensures
        l == lowering(*op),
        l matches Some(low) ==> low.wf(),
{
    match *op {
        WasmOperator::I32Load { memarg } => {
            Some(Lowering::load(Opcode::Load, Some(ValueType::I32), memarg.offset))
        },
        WasmOperator::I64Load { memarg } => {
            Some(Lowering::load(Opcode::Load, Some(ValueType::I64), memarg.offset))
        },
        WasmOperator::F32Load { memarg } => {
            Some(Lowering::load(Opcode::Load, Some(ValueType::F32), memarg.offset))
        },
        WasmOperator::F64Load { memarg } => {
            Some(Lowering::load(Opcode::Load, Some(ValueType::F64), memarg.offset))
        },
        WasmOperator::I32Load8S { memarg } => {
            Some(Lowering::load(Opcode::Sload8, Some(ValueType::I32), memarg.offset))
        },
        WasmOperator::I32Load8U { memarg } => {
            Some(Lowering::load(Opcode::Uload8, Some(ValueType::I32), memarg.offset))
        },
        WasmOperator::I32Load16S { memarg } => {
            Some(Lowering::load(Opcode::Sload16, Some(ValueType::I32), memarg.offset))
        },
        WasmOperator::I32Load16U { memarg } => {
            Some(Lowering::load(Opcode::Uload16, Some(ValueType::I32), memarg.offset))
        },
        WasmOperator::I64Load8S { memarg } => {
            Some(Lowering::load(Opcode::Sload8, Some(ValueType::I64), memarg.offset))
        },
        WasmOperator::I64Load8U { memarg } => {
            Some(Lowering::load(Opcode::Uload8, Some(ValueType::I64), memarg.offset))
        },
        WasmOperator::I64Load16S { memarg } => {
            Some(Lowering::load(Opcode::Sload16, Some(ValueType::I64), memarg.offset))
        },
        WasmOperator::I64Load16U { memarg } => {
            Some(Lowering::load(Opcode::Uload16, Some(ValueType::I64), memarg.offset))
        },
        WasmOperator::I64Load32S { memarg } => {
            Some(Lowering::load(Opcode::Sload32, None, memarg.offset))
        },
        WasmOperator::I64Load32U { memarg } => {
            Some(Lowering::load(Opcode::Uload32, None, memarg.offset))
        },
        WasmOperator::I32Store { memarg } => Some(Lowering::store(Opcode::Store, memarg.offset)),
        WasmOperator::I64Store { memarg } => Some(Lowering::store(Opcode::Store, memarg.offset)),
        WasmOperator::F32Store { memarg } => Some(Lowering::store(Opcode::Store, memarg.offset)),
        WasmOperator::F64Store { memarg } => Some(Lowering::store(Opcode::Store, memarg.offset)),
        WasmOperator::I32Store8 { memarg } => Some(Lowering::store(Opcode::Istore8, memarg.offset)),
        WasmOperator::I32Store16 { memarg } => Some(Lowering::store(Opcode::Istore16, memarg.offset)),
        WasmOperator::I64Store8 { memarg } => Some(Lowering::store(Opcode::Istore8, memarg.offset)),
        WasmOperator::I64Store16 { memarg } => Some(Lowering::store(Opcode::Istore16, memarg.offset)),
        WasmOperator::I64Store32 { memarg } => Some(Lowering::store(Opcode::Istore32, memarg.offset)),
        WasmOperator::I32Const { value } => Some(Lowering::int_const(ValueType::I32, value as i64)),
        WasmOperator::I64Const { value } => Some(Lowering::int_const(ValueType::I64, value)),
        WasmOperator::F32Const { value } => Some(Lowering::f32_const(f32_translation(value))),
        WasmOperator::F64Const { value } => Some(Lowering::f64_const(f64_translation(value))),
        WasmOperator::I32Eqz | WasmOperator::I64Eqz => Some(Lowering::equals_zero()),
        WasmOperator::I32Eq | WasmOperator::I64Eq => Some(Lowering::int_relation(IntCC::Equal)),
        WasmOperator::I32Ne | WasmOperator::I64Ne => Some(Lowering::int_relation(IntCC::NotEqual)),
        WasmOperator::I32LtS | WasmOperator::I64LtS => Some(Lowering::int_relation(IntCC::SignedLessThan)),
        WasmOperator::I32LtU
        | WasmOperator::I64LtU => {
            Some(Lowering::int_relation(IntCC::UnsignedLessThan))
        },
        WasmOperator::I32GtS
        | WasmOperator::I64GtS => {
            Some(Lowering::int_relation(IntCC::SignedGreaterThan))
        },
        WasmOperator::I32GtU
        | WasmOperator::I64GtU => {
            Some(Lowering::int_relation(IntCC::UnsignedGreaterThan))
        },
        WasmOperator::I32LeS
        | WasmOperator::I64LeS => {
            Some(Lowering::int_relation(IntCC::SignedLessThanOrEqual))
        },
        WasmOperator::I32LeU
        | WasmOperator::I64LeU => {
            Some(Lowering::int_relation(IntCC::UnsignedLessThanOrEqual))
        },
        WasmOperator::I32GeS
        | WasmOperator::I64GeS => {
            Some(Lowering::int_relation(IntCC::SignedGreaterThanOrEqual))
        },
        WasmOperator::I32GeU
        | WasmOperator::I64GeU => {
            Some(Lowering::int_relation(IntCC::UnsignedGreaterThanOrEqual))
        },
        WasmOperator::F32Eq | WasmOperator::F64Eq => Some(Lowering::float_relation(FloatCC::Equal)),
        WasmOperator::F32Ne | WasmOperator::F64Ne => Some(Lowering::float_relation(FloatCC::NotEqual)),
        WasmOperator::F32Lt | WasmOperator::F64Lt => Some(Lowering::float_relation(FloatCC::LessThan)),
        WasmOperator::F32Gt | WasmOperator::F64Gt => Some(Lowering::float_relation(FloatCC::GreaterThan)),
        WasmOperator::F32Le
        | WasmOperator::F64Le => {
            Some(Lowering::float_relation(FloatCC::LessThanOrEqual))
        },
        WasmOperator::F32Ge
        | WasmOperator::F64Ge => {
            Some(Lowering::float_relation(FloatCC::GreaterThanOrEqual))
        },
        WasmOperator::I32Clz => Some(Lowering::count_bits(Opcode::Clz, ValueType::I32)),
        WasmOperator::I32Ctz => Some(Lowering::count_bits(Opcode::Ctz, ValueType::I32)),
        WasmOperator::I32Popcnt => Some(Lowering::count_bits(Opcode::Popcnt, ValueType::I32)),
        WasmOperator::I64Clz => Some(Lowering::count_bits(Opcode::Clz, ValueType::I64)),
        WasmOperator::I64Ctz => Some(Lowering::count_bits(Opcode::Ctz, ValueType::I64)),
        WasmOperator::I64Popcnt => Some(Lowering::count_bits(Opcode::Popcnt, ValueType::I64)),
        WasmOperator::I32Add | WasmOperator::I64Add => Some(Lowering::binary(Opcode::Iadd)),
        WasmOperator::I32Sub | WasmOperator::I64Sub => Some(Lowering::binary(Opcode::Isub)),
        WasmOperator::I32Mul | WasmOperator::I64Mul => Some(Lowering::binary(Opcode::Imul)),
        WasmOperator::I32DivS | WasmOperator::I64DivS => Some(Lowering::binary(Opcode::Sdiv)),
        WasmOperator::I32DivU | WasmOperator::I64DivU => Some(Lowering::binary(Opcode::Udiv)),
        WasmOperator::I32RemS | WasmOperator::I64RemS => Some(Lowering::binary(Opcode::Srem)),
        WasmOperator::I32RemU | WasmOperator::I64RemU => Some(Lowering::binary(Opcode::Urem)),
        WasmOperator::I32And | WasmOperator::I64And => Some(Lowering::binary(Opcode::Band)),
        WasmOperator::I32Or | WasmOperator::I64Or => Some(Lowering::binary(Opcode::Bor)),
        WasmOperator::I32Xor | WasmOperator::I64Xor => Some(Lowering::binary(Opcode::Bxor)),
        WasmOperator::I32Shl | WasmOperator::I64Shl => Some(Lowering::binary(Opcode::Ishl)),
        WasmOperator::I32ShrS | WasmOperator::I64ShrS => Some(Lowering::binary(Opcode::Sshr)),
        WasmOperator::I32ShrU | WasmOperator::I64ShrU => Some(Lowering::binary(Opcode::Ushr)),
        WasmOperator::I32Rotl | WasmOperator::I64Rotl => Some(Lowering::binary(Opcode::Rotl)),
        WasmOperator::I32Rotr | WasmOperator::I64Rotr => Some(Lowering::binary(Opcode::Rotr)),
        WasmOperator::F32Abs | WasmOperator::F64Abs => Some(Lowering::unary(Opcode::Fabs)),
        WasmOperator::F32Neg | WasmOperator::F64Neg => Some(Lowering::unary(Opcode::Fneg)),
        WasmOperator::F32Ceil | WasmOperator::F64Ceil => Some(Lowering::unary(Opcode::Ceil)),
        WasmOperator::F32Floor | WasmOperator::F64Floor => Some(Lowering::unary(Opcode::Floor)),
        WasmOperator::F32Trunc | WasmOperator::F64Trunc => Some(Lowering::unary(Opcode::Trunc)),
        WasmOperator::F32Nearest | WasmOperator::F64Nearest => Some(Lowering::unary(Opcode::Nearest)),
        WasmOperator::F32Sqrt | WasmOperator::F64Sqrt => Some(Lowering::unary(Opcode::Sqrt)),
        WasmOperator::F32Add | WasmOperator::F64Add => Some(Lowering::binary(Opcode::Fadd)),
        WasmOperator::F32Sub | WasmOperator::F64Sub => Some(Lowering::binary(Opcode::Fsub)),
        WasmOperator::F32Mul | WasmOperator::F64Mul => Some(Lowering::binary(Opcode::Fmul)),
        WasmOperator::F32Div | WasmOperator::F64Div => Some(Lowering::binary(Opcode::Fdiv)),
        WasmOperator::F32Min | WasmOperator::F64Min => Some(Lowering::binary(Opcode::Fmin)),
        WasmOperator::F32Max | WasmOperator::F64Max => Some(Lowering::binary(Opcode::Fmax)),
        WasmOperator::F32Copysign | WasmOperator::F64Copysign => Some(Lowering::binary(Opcode::Fcopysign)),
        WasmOperator::I32WrapI64 => Some(Lowering::convert(Opcode::Ireduce, ValueType::I32)),
        WasmOperator::I32TruncSF32
        | WasmOperator::I32TruncSF64 => {
            Some(Lowering::convert(Opcode::FcvtToSint, ValueType::I32))
        },
        WasmOperator::I32TruncUF32
        | WasmOperator::I32TruncUF64 => {
            Some(Lowering::convert(Opcode::FcvtToUint, ValueType::I32))
        },
        WasmOperator::I64ExtendSI32 => Some(Lowering::convert(Opcode::Sextend, ValueType::I64)),
        WasmOperator::I64ExtendUI32 => Some(Lowering::convert(Opcode::Uextend, ValueType::I64)),
        WasmOperator::I64TruncSF32
        | WasmOperator::I64TruncSF64 => {
            Some(Lowering::convert(Opcode::FcvtToSint, ValueType::I64))
        },
        WasmOperator::I64TruncUF32
        | WasmOperator::I64TruncUF64 => {
            Some(Lowering::convert(Opcode::FcvtToUint, ValueType::I64))
        },
        WasmOperator::F32ConvertSI32
        | WasmOperator::F32ConvertSI64 => {
            Some(Lowering::convert(Opcode::FcvtFromSint, ValueType::F32))
        },
        WasmOperator::F32ConvertUI32
        | WasmOperator::F32ConvertUI64 => {
            Some(Lowering::convert(Opcode::FcvtFromUint, ValueType::F32))
        },
        WasmOperator::F32DemoteF64 => Some(Lowering::convert(Opcode::Fdemote, ValueType::F32)),
        WasmOperator::F64ConvertSI32
        | WasmOperator::F64ConvertSI64 => {
            Some(Lowering::convert(Opcode::FcvtFromSint, ValueType::F64))
        },
        WasmOperator::F64ConvertUI32
        | WasmOperator::F64ConvertUI64 => {
            Some(Lowering::convert(Opcode::FcvtFromUint, ValueType::F64))
        },
        WasmOperator::F64PromoteF32 => Some(Lowering::convert(Opcode::Fpromote, ValueType::F64)),
        WasmOperator::I32ReinterpretF32 => Some(Lowering::convert(Opcode::Bitcast, ValueType::I32)),
        WasmOperator::I64ReinterpretF64 => Some(Lowering::convert(Opcode::Bitcast, ValueType::I64)),
        WasmOperator::F32ReinterpretI32 => Some(Lowering::convert(Opcode::Bitcast, ValueType::F32)),
        WasmOperator::F64ReinterpretI64 => Some(Lowering::convert(Opcode::Bitcast, ValueType::F64)),
        _ => None,
    }
}

} // verus!
