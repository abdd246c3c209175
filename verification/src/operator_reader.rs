//! The operators of the parser, as operators of the translator.
use vstd::prelude::*;
use crate::operator::{WasmOperator, MemoryImmediate, BrTable};
use crate::translation_utils::{WasmType, Ieee32, Ieee64};

verus! {

/// An operator of the `wasmparser` crate.
#[verifier::external_type_specification]
#[verifier::external_body]
pub struct ExOperator<'a>(wasmparser::Operator<'a>);

/// A type of the `wasmparser` crate.
#[verifier::external_type_specification]
#[verifier::external_body]
pub struct ExType(wasmparser::Type);

/// A type of the parser as a type of the translator: the variant of the
/// same name.
pub uninterp spec fn type_of(ty: wasmparser::Type) -> WasmType;

/// An operator of the parser as an operator of the translator: the variant
/// of the same name with the same contents, where the translator has one,
/// and nothing for the operators that it does not know. It depends on
/// the operator alone.
pub uninterp spec fn operator_of(op: wasmparser::Operator) -> Option<WasmOperator>;

/// Tells the variants of `wasmparser::Type` apart. What it hands out is
/// the type as `type_of` names it.
#[verifier::external_body]
pub(crate) fn wasm_type(ty: wasmparser::Type) -> (res: WasmType)
    ensures
        res == type_of(ty),
{
    match ty {
        wasmparser::Type::I32 => WasmType::I32,
        wasmparser::Type::I64 => WasmType::I64,
        wasmparser::Type::F32 => WasmType::F32,
        wasmparser::Type::F64 => WasmType::F64,
        wasmparser::Type::AnyFunc => WasmType::AnyFunc,
        wasmparser::Type::Func => WasmType::Func,
        wasmparser::Type::EmptyBlockType => WasmType::EmptyBlockType,
    }
}

/// The construct that an operator opens.
#[derive(Clone, Copy, Debug, PartialEq, Eq, Structural)]
enum Opening {
    Block,
    Loop,
    If,
}

/// The operator that opens a construct of that kind and type.
spec fn opened(kind: Opening, ty: WasmType) -> WasmOperator {
    match kind {
        Opening::Block => WasmOperator::Block { ty },
        Opening::Loop => WasmOperator::Loop { ty },
        Opening::If => WasmOperator::If { ty },
    }
}

/// The operators that `opening` tells apart from the others.
pub open spec fn is_opening(op: WasmOperator) -> bool {
    op is Block || op is Loop || op is If
}

/// Tells the variants `Block`, `Loop` and `If` of `wasmparser::Operator`
/// apart from the others, and hands their type out. What it hands out is
/// the kind and the type of the operator that `operator_of` names; where it
/// hands out nothing, the operator is none of these.
#[verifier::external_body]
fn opening(op: &wasmparser::Operator) -> (res: Option<(Opening, wasmparser::Type)>)
    ensures
        match res {
            Some((kind, ty)) => operator_of(*op) == Some(opened(kind, type_of(ty))),
            None => !(operator_of(*op) matches Some(other) && is_opening(other)),
        },
{
    match *op {
        wasmparser::Operator::Block { ty } => Some((Opening::Block, ty)),
        wasmparser::Operator::Loop { ty } => Some((Opening::Loop, ty)),
        wasmparser::Operator::If { ty } => Some((Opening::If, ty)),
        _ => None,
    }
}

/// The operators that `constant` tells apart from the others.
pub open spec fn is_constant(op: WasmOperator) -> bool {
    op is I32Const || op is I64Const || op is F32Const || op is F64Const
}

/// Tells the constants among the variants of `wasmparser::Operator` apart
/// from the others. Floating point constants are handed out as the bit
/// patterns that `bits` returns.
/// What it hands out is the operator as `operator_of` names it; where it
/// hands out nothing, the operator is none of these.
#[verifier::external_body]
fn constant(op: &wasmparser::Operator) -> (res: Option<WasmOperator>)
    ensures
        match res {
            Some(converted) => operator_of(*op) == Some(converted),
            None => !(operator_of(*op) matches Some(other) && is_constant(other)),
        },
{
    match *op {
        wasmparser::Operator::I32Const { value } => Some(WasmOperator::I32Const { value }),
        wasmparser::Operator::I64Const { value } => Some(WasmOperator::I64Const { value }),
        wasmparser::Operator::F32Const { value } => Some(
            WasmOperator::F32Const { value: Ieee32(value.bits()) },
        ),
        wasmparser::Operator::F64Const { value } => Some(
            WasmOperator::F64Const { value: Ieee64(value.bits()) },
        ),
        _ => None,
    }
}

/// The operators that `br_table` tells apart from the others.
pub open spec fn is_br_table(op: WasmOperator) -> bool {
    op is BrTable
}

/// Tells the variant `BrTable` of `wasmparser::Operator` apart from the
/// others, and reads its depths with `BrTable::read_table`.
/// What it hands out is the operator as `operator_of` names it; where it
/// hands out nothing, the operator is none of these.
#[verifier::external_body]
fn br_table(op: &wasmparser::Operator) -> (res: Option<WasmOperator>)
    ensures
        match res {
            Some(converted) => operator_of(*op) == Some(converted),
            None => !(operator_of(*op) matches Some(other) && is_br_table(other)),
        },
{
    match *op {
        wasmparser::Operator::BrTable { ref table } => {
            let (targets, default) = table.read_table();
            Some(WasmOperator::BrTable { table: BrTable { targets, default } })
        },
        _ => None,
    }
}

/// The operators that `indexed_1` tells apart from the others.
pub open spec fn is_indexed_1(op: WasmOperator) -> bool {
    op is Br || op is BrIf || op is Call || op is CallIndirect || op is GetLocal ||
        op is SetLocal
}

/// Tells these variants of `wasmparser::Operator` apart from the others:
/// `Br`,
/// `BrIf`,
/// `Call`,
/// `CallIndirect`,
/// `GetLocal`,
/// `SetLocal`.
/// What it hands out is the operator as `operator_of` names it; where it
/// hands out nothing, the operator is none of these.
#[verifier::external_body]
fn indexed_1(op: &wasmparser::Operator) -> (res: Option<WasmOperator>)
    ensures
        match res {
            Some(converted) => operator_of(*op) == Some(converted),
            None => !(operator_of(*op) matches Some(other) && is_indexed_1(other)),
        },
{
    match *op {
        wasmparser::Operator::Br { relative_depth } => Some(WasmOperator::Br { relative_depth }),
        wasmparser::Operator::BrIf { relative_depth } => Some(WasmOperator::BrIf { relative_depth }),
        wasmparser::Operator::Call { function_index } => Some(WasmOperator::Call { function_index }),
        wasmparser::Operator::CallIndirect { index, table_index } => Some(WasmOperator::CallIndirect { index, table_index }),
        wasmparser::Operator::GetLocal { local_index } => Some(WasmOperator::GetLocal { local_index }),
        wasmparser::Operator::SetLocal { local_index } => Some(WasmOperator::SetLocal { local_index }),
        _ => None,
    }
}

/// The operators that `indexed_2` tells apart from the others.
pub open spec fn is_indexed_2(op: WasmOperator) -> bool {
    op is TeeLocal || op is GetGlobal || op is SetGlobal || op is CurrentMemory ||
        op is GrowMemory
}

/// Tells these variants of `wasmparser::Operator` apart from the others:
/// `TeeLocal`,
/// `GetGlobal`,
/// `SetGlobal`,
/// `CurrentMemory`,
/// `GrowMemory`.
/// What it hands out is the operator as `operator_of` names it; where it
/// hands out nothing, the operator is none of these.
#[verifier::external_body]
fn indexed_2(op: &wasmparser::Operator) -> (res: Option<WasmOperator>)
    ensures
        match res {
            Some(converted) => operator_of(*op) == Some(converted),
            None => !(operator_of(*op) matches Some(other) && is_indexed_2(other)),
        },
{
    match *op {
        wasmparser::Operator::TeeLocal { local_index } => Some(WasmOperator::TeeLocal { local_index }),
        wasmparser::Operator::GetGlobal { global_index } => Some(WasmOperator::GetGlobal { global_index }),
        wasmparser::Operator::SetGlobal { global_index } => Some(WasmOperator::SetGlobal { global_index }),
        wasmparser::Operator::CurrentMemory { reserved } => Some(WasmOperator::CurrentMemory { reserved }),
        wasmparser::Operator::GrowMemory { reserved } => Some(WasmOperator::GrowMemory { reserved }),
        _ => None,
    }
}

/// The operators that `memory_1` tells apart from the others.
pub open spec fn is_memory_1(op: WasmOperator) -> bool {
    op is I32Load || op is I64Load || op is F32Load || op is F64Load
}

/// Tells these variants of `wasmparser::Operator` apart from the others:
/// `I32Load`,
/// `I64Load`,
/// `F32Load`,
/// `F64Load`.
/// What it hands out is the operator as `operator_of` names it; where it
/// hands out nothing, the operator is none of these.
#[verifier::external_body]
fn memory_1(op: &wasmparser::Operator) -> (res: Option<WasmOperator>)
    ensures
        match res {
            Some(converted) => operator_of(*op) == Some(converted),
            None => !(operator_of(*op) matches Some(other) && is_memory_1(other)),
        },
{
    match *op {
        wasmparser::Operator::I32Load { ref memarg } => Some(
            WasmOperator::I32Load { memarg: MemoryImmediate { flags: memarg.flags, offset: memarg.offset } },
        ),
        wasmparser::Operator::I64Load { ref memarg } => Some(
            WasmOperator::I64Load { memarg: MemoryImmediate { flags: memarg.flags, offset: memarg.offset } },
        ),
        wasmparser::Operator::F32Load { ref memarg } => Some(
            WasmOperator::F32Load { memarg: MemoryImmediate { flags: memarg.flags, offset: memarg.offset } },
        ),
        wasmparser::Operator::F64Load { ref memarg } => Some(
            WasmOperator::F64Load { memarg: MemoryImmediate { flags: memarg.flags, offset: memarg.offset } },
        ),
        _ => None,
    }
}

/// The operators that `memory_2` tells apart from the others.
pub open spec fn is_memory_2(op: WasmOperator) -> bool {
    op is I32Load8S || op is I32Load8U || op is I32Load16S || op is I32Load16U
}

/// Tells these variants of `wasmparser::Operator` apart from the others:
/// `I32Load8S`,
/// `I32Load8U`,
/// `I32Load16S`,
/// `I32Load16U`.
/// What it hands out is the operator as `operator_of` names it; where it
/// hands out nothing, the operator is none of these.
#[verifier::external_body]
fn memory_2(op: &wasmparser::Operator) -> (res: Option<WasmOperator>)
    ensures
        match res {
            Some(converted) => operator_of(*op) == Some(converted),
            None => !(operator_of(*op) matches Some(other) && is_memory_2(other)),
        },
{
    match *op {
        wasmparser::Operator::I32Load8S { ref memarg } => Some(
            WasmOperator::I32Load8S { memarg: MemoryImmediate { flags: memarg.flags, offset: memarg.offset } },
        ),
        wasmparser::Operator::I32Load8U { ref memarg } => Some(
            WasmOperator::I32Load8U { memarg: MemoryImmediate { flags: memarg.flags, offset: memarg.offset } },
        ),
        wasmparser::Operator::I32Load16S { ref memarg } => Some(
            WasmOperator::I32Load16S { memarg: MemoryImmediate { flags: memarg.flags, offset: memarg.offset } },
        ),
        wasmparser::Operator::I32Load16U { ref memarg } => Some(
            WasmOperator::I32Load16U { memarg: MemoryImmediate { flags: memarg.flags, offset: memarg.offset } },
        ),
        _ => None,
    }
}

/// The operators that `memory_3` tells apart from the others.
pub open spec fn is_memory_3(op: WasmOperator) -> bool {
    op is I64Load8S || op is I64Load8U || op is I64Load16S || op is I64Load16U
}

/// Tells these variants of `wasmparser::Operator` apart from the others:
/// `I64Load8S`,
/// `I64Load8U`,
/// `I64Load16S`,
/// `I64Load16U`.
/// What it hands out is the operator as `operator_of` names it; where it
/// hands out nothing, the operator is none of these.
#[verifier::external_body]
fn memory_3(op: &wasmparser::Operator) -> (res: Option<WasmOperator>)
    ensures
        match res {
            Some(converted) => operator_of(*op) == Some(converted),
            None => !(operator_of(*op) matches Some(other) && is_memory_3(other)),
        },
{
    match *op {
        wasmparser::Operator::I64Load8S { ref memarg } => Some(
            WasmOperator::I64Load8S { memarg: MemoryImmediate { flags: memarg.flags, offset: memarg.offset } },
        ),
        wasmparser::Operator::I64Load8U { ref memarg } => Some(
            WasmOperator::I64Load8U { memarg: MemoryImmediate { flags: memarg.flags, offset: memarg.offset } },
        ),
        wasmparser::Operator::I64Load16S { ref memarg } => Some(
            WasmOperator::I64Load16S { memarg: MemoryImmediate { flags: memarg.flags, offset: memarg.offset } },
        ),
        wasmparser::Operator::I64Load16U { ref memarg } => Some(
            WasmOperator::I64Load16U { memarg: MemoryImmediate { flags: memarg.flags, offset: memarg.offset } },
        ),
        _ => None,
    }
}

/// The operators that `memory_4` tells apart from the others.
pub open spec fn is_memory_4(op: WasmOperator) -> bool {
    op is I64Load32S || op is I64Load32U || op is I32Store || op is I64Store
}

/// Tells these variants of `wasmparser::Operator` apart from the others:
/// `I64Load32S`,
/// `I64Load32U`,
/// `I32Store`,
/// `I64Store`.
/// What it hands out is the operator as `operator_of` names it; where it
/// hands out nothing, the operator is none of these.
#[verifier::external_body]
fn memory_4(op: &wasmparser::Operator) -> (res: Option<WasmOperator>)
    ensures
        match res {
            Some(converted) => operator_of(*op) == Some(converted),
            None => !(operator_of(*op) matches Some(other) && is_memory_4(other)),
        },
{
    match *op {
        wasmparser::Operator::I64Load32S { ref memarg } => Some(
            WasmOperator::I64Load32S { memarg: MemoryImmediate { flags: memarg.flags, offset: memarg.offset } },
        ),
        wasmparser::Operator::I64Load32U { ref memarg } => Some(
            WasmOperator::I64Load32U { memarg: MemoryImmediate { flags: memarg.flags, offset: memarg.offset } },
        ),
        wasmparser::Operator::I32Store { ref memarg } => Some(
            WasmOperator::I32Store { memarg: MemoryImmediate { flags: memarg.flags, offset: memarg.offset } },
        ),
        wasmparser::Operator::I64Store { ref memarg } => Some(
            WasmOperator::I64Store { memarg: MemoryImmediate { flags: memarg.flags, offset: memarg.offset } },
        ),
        _ => None,
    }
}

/// The operators that `memory_5` tells apart from the others.
pub open spec fn is_memory_5(op: WasmOperator) -> bool {
    op is F32Store || op is F64Store || op is I32Store8 || op is I32Store16
}

/// Tells these variants of `wasmparser::Operator` apart from the others:
/// `F32Store`,
/// `F64Store`,
/// `I32Store8`,
/// `I32Store16`.
/// What it hands out is the operator as `operator_of` names it; where it
/// hands out nothing, the operator is none of these.
#[verifier::external_body]
fn memory_5(op: &wasmparser::Operator) -> (res: Option<WasmOperator>)
    ensures
        match res {
            Some(converted) => operator_of(*op) == Some(converted),
            None => !(operator_of(*op) matches Some(other) && is_memory_5(other)),
        },
{
    match *op {
        wasmparser::Operator::F32Store { ref memarg } => Some(
            WasmOperator::F32Store { memarg: MemoryImmediate { flags: memarg.flags, offset: memarg.offset } },
        ),
        wasmparser::Operator::F64Store { ref memarg } => Some(
            WasmOperator::F64Store { memarg: MemoryImmediate { flags: memarg.flags, offset: memarg.offset } },
        ),
        wasmparser::Operator::I32Store8 { ref memarg } => Some(
            WasmOperator::I32Store8 { memarg: MemoryImmediate { flags: memarg.flags, offset: memarg.offset } },
        ),
        wasmparser::Operator::I32Store16 { ref memarg } => Some(
            WasmOperator::I32Store16 { memarg: MemoryImmediate { flags: memarg.flags, offset: memarg.offset } },
        ),
        _ => None,
    }
}

/// The operators that `memory_6` tells apart from the others.
pub open spec fn is_memory_6(op: WasmOperator) -> bool {
    op is I64Store8 || op is I64Store16 || op is I64Store32
}

/// Tells these variants of `wasmparser::Operator` apart from the others:
/// `I64Store8`,
/// `I64Store16`,
/// `I64Store32`.
/// What it hands out is the operator as `operator_of` names it; where it
/// hands out nothing, the operator is none of these.
#[verifier::external_body]
fn memory_6(op: &wasmparser::Operator) -> (res: Option<WasmOperator>)
    ensures
        match res {
            Some(converted) => operator_of(*op) == Some(converted),
            None => !(operator_of(*op) matches Some(other) && is_memory_6(other)),
        },
{
    match *op {
        wasmparser::Operator::I64Store8 { ref memarg } => Some(
            WasmOperator::I64Store8 { memarg: MemoryImmediate { flags: memarg.flags, offset: memarg.offset } },
        ),
        wasmparser::Operator::I64Store16 { ref memarg } => Some(
            WasmOperator::I64Store16 { memarg: MemoryImmediate { flags: memarg.flags, offset: memarg.offset } },
        ),
        wasmparser::Operator::I64Store32 { ref memarg } => Some(
            WasmOperator::I64Store32 { memarg: MemoryImmediate { flags: memarg.flags, offset: memarg.offset } },
        ),
        _ => None,
    }
}

/// The operators that `plain_1` tells apart from the others.
pub open spec fn is_plain_1(op: WasmOperator) -> bool {
    op is Unreachable || op is Nop || op is Else || op is End || op is Return || op is Drop ||
        op is Select || op is I32Eqz || op is I32Eq || op is I32Ne
}

/// Tells these variants of `wasmparser::Operator` apart from the others:
/// `Unreachable`,
/// `Nop`,
/// `Else`,
/// `End`,
/// `Return`,
/// `Drop`,
/// `Select`,
/// `I32Eqz`,
/// `I32Eq`,
/// `I32Ne`.
/// What it hands out is the operator as `operator_of` names it; where it
/// hands out nothing, the operator is none of these.
#[verifier::external_body]
fn plain_1(op: &wasmparser::Operator) -> (res: Option<WasmOperator>)
    ensures
        match res {
            Some(converted) => operator_of(*op) == Some(converted),
            None => !(operator_of(*op) matches Some(other) && is_plain_1(other)),
        },
{
    match *op {
        wasmparser::Operator::Unreachable => Some(WasmOperator::Unreachable),
        wasmparser::Operator::Nop => Some(WasmOperator::Nop),
        wasmparser::Operator::Else => Some(WasmOperator::Else),
        wasmparser::Operator::End => Some(WasmOperator::End),
        wasmparser::Operator::Return => Some(WasmOperator::Return),
        wasmparser::Operator::Drop => Some(WasmOperator::Drop),
        wasmparser::Operator::Select => Some(WasmOperator::Select),
        wasmparser::Operator::I32Eqz => Some(WasmOperator::I32Eqz),
        wasmparser::Operator::I32Eq => Some(WasmOperator::I32Eq),
        wasmparser::Operator::I32Ne => Some(WasmOperator::I32Ne),
        _ => None,
    }
}

/// The operators that `plain_2` tells apart from the others.
pub open spec fn is_plain_2(op: WasmOperator) -> bool {
    op is I32LtS || op is I32LtU || op is I32GtS || op is I32GtU || op is I32LeS ||
        op is I32LeU || op is I32GeS || op is I32GeU || op is I64Eqz || op is I64Eq
}

/// Tells these variants of `wasmparser::Operator` apart from the others:
/// `I32LtS`,
/// `I32LtU`,
/// `I32GtS`,
/// `I32GtU`,
/// `I32LeS`,
/// `I32LeU`,
/// `I32GeS`,
/// `I32GeU`,
/// `I64Eqz`,
/// `I64Eq`.
/// What it hands out is the operator as `operator_of` names it; where it
/// hands out nothing, the operator is none of these.
#[verifier::external_body]
fn plain_2(op: &wasmparser::Operator) -> (res: Option<WasmOperator>)
    ensures
        match res {
            Some(converted) => operator_of(*op) == Some(converted),
            None => !(operator_of(*op) matches Some(other) && is_plain_2(other)),
        },
{
    match *op {
        wasmparser::Operator::I32LtS => Some(WasmOperator::I32LtS),
        wasmparser::Operator::I32LtU => Some(WasmOperator::I32LtU),
        wasmparser::Operator::I32GtS => Some(WasmOperator::I32GtS),
        wasmparser::Operator::I32GtU => Some(WasmOperator::I32GtU),
        wasmparser::Operator::I32LeS => Some(WasmOperator::I32LeS),
        wasmparser::Operator::I32LeU => Some(WasmOperator::I32LeU),
        wasmparser::Operator::I32GeS => Some(WasmOperator::I32GeS),
        wasmparser::Operator::I32GeU => Some(WasmOperator::I32GeU),
        wasmparser::Operator::I64Eqz => Some(WasmOperator::I64Eqz),
        wasmparser::Operator::I64Eq => Some(WasmOperator::I64Eq),
        _ => None,
    }
}

/// The operators that `plain_3` tells apart from the others.
pub open spec fn is_plain_3(op: WasmOperator) -> bool {
    op is I64Ne || op is I64LtS || op is I64LtU || op is I64GtS || op is I64GtU ||
        op is I64LeS || op is I64LeU || op is I64GeS || op is I64GeU || op is F32Eq
}

/// Tells these variants of `wasmparser::Operator` apart from the others:
/// `I64Ne`,
/// `I64LtS`,
/// `I64LtU`,
/// `I64GtS`,
/// `I64GtU`,
/// `I64LeS`,
/// `I64LeU`,
/// `I64GeS`,
/// `I64GeU`,
/// `F32Eq`.
/// What it hands out is the operator as `operator_of` names it; where it
/// hands out nothing, the operator is none of these.
#[verifier::external_body]
fn plain_3(op: &wasmparser::Operator) -> (res: Option<WasmOperator>)
    ensures
        match res {
            Some(converted) => operator_of(*op) == Some(converted),
            None => !(operator_of(*op) matches Some(other) && is_plain_3(other)),
        },
{
    match *op {
        wasmparser::Operator::I64Ne => Some(WasmOperator::I64Ne),
        wasmparser::Operator::I64LtS => Some(WasmOperator::I64LtS),
        wasmparser::Operator::I64LtU => Some(WasmOperator::I64LtU),
        wasmparser::Operator::I64GtS => Some(WasmOperator::I64GtS),
        wasmparser::Operator::I64GtU => Some(WasmOperator::I64GtU),
        wasmparser::Operator::I64LeS => Some(WasmOperator::I64LeS),
        wasmparser::Operator::I64LeU => Some(WasmOperator::I64LeU),
        wasmparser::Operator::I64GeS => Some(WasmOperator::I64GeS),
        wasmparser::Operator::I64GeU => Some(WasmOperator::I64GeU),
        wasmparser::Operator::F32Eq => Some(WasmOperator::F32Eq),
        _ => None,
    }
}

/// The operators that `plain_4` tells apart from the others.
pub open spec fn is_plain_4(op: WasmOperator) -> bool {
    op is F32Ne || op is F32Lt || op is F32Gt || op is F32Le || op is F32Ge || op is F64Eq ||
        op is F64Ne || op is F64Lt || op is F64Gt || op is F64Le
}

/// Tells these variants of `wasmparser::Operator` apart from the others:
/// `F32Ne`,
/// `F32Lt`,
/// `F32Gt`,
/// `F32Le`,
/// `F32Ge`,
/// `F64Eq`,
/// `F64Ne`,
/// `F64Lt`,
/// `F64Gt`,
/// `F64Le`.
/// What it hands out is the operator as `operator_of` names it; where it
/// hands out nothing, the operator is none of these.
#[verifier::external_body]
fn plain_4(op: &wasmparser::Operator) -> (res: Option<WasmOperator>)
    ensures
        match res {
            Some(converted) => operator_of(*op) == Some(converted),
            None => !(operator_of(*op) matches Some(other) && is_plain_4(other)),
        },
{
    match *op {
        wasmparser::Operator::F32Ne => Some(WasmOperator::F32Ne),
        wasmparser::Operator::F32Lt => Some(WasmOperator::F32Lt),
        wasmparser::Operator::F32Gt => Some(WasmOperator::F32Gt),
        wasmparser::Operator::F32Le => Some(WasmOperator::F32Le),
        wasmparser::Operator::F32Ge => Some(WasmOperator::F32Ge),
        wasmparser::Operator::F64Eq => Some(WasmOperator::F64Eq),
        wasmparser::Operator::F64Ne => Some(WasmOperator::F64Ne),
        wasmparser::Operator::F64Lt => Some(WasmOperator::F64Lt),
        wasmparser::Operator::F64Gt => Some(WasmOperator::F64Gt),
        wasmparser::Operator::F64Le => Some(WasmOperator::F64Le),
        _ => None,
    }
}

/// The operators that `plain_5` tells apart from the others.
pub open spec fn is_plain_5(op: WasmOperator) -> bool {
    op is F64Ge || op is I32Clz || op is I32Ctz || op is I32Popcnt || op is I32Add ||
        op is I32Sub || op is I32Mul || op is I32DivS || op is I32DivU || op is I32RemS
}

/// Tells these variants of `wasmparser::Operator` apart from the others:
/// `F64Ge`,
/// `I32Clz`,
/// `I32Ctz`,
/// `I32Popcnt`,
/// `I32Add`,
/// `I32Sub`,
/// `I32Mul`,
/// `I32DivS`,
/// `I32DivU`,
/// `I32RemS`.
/// What it hands out is the operator as `operator_of` names it; where it
/// hands out nothing, the operator is none of these.
#[verifier::external_body]
fn plain_5(op: &wasmparser::Operator) -> (res: Option<WasmOperator>)
    ensures
        match res {
            Some(converted) => operator_of(*op) == Some(converted),
            None => !(operator_of(*op) matches Some(other) && is_plain_5(other)),
        },
{
    match *op {
        wasmparser::Operator::F64Ge => Some(WasmOperator::F64Ge),
        wasmparser::Operator::I32Clz => Some(WasmOperator::I32Clz),
        wasmparser::Operator::I32Ctz => Some(WasmOperator::I32Ctz),
        wasmparser::Operator::I32Popcnt => Some(WasmOperator::I32Popcnt),
        wasmparser::Operator::I32Add => Some(WasmOperator::I32Add),
        wasmparser::Operator::I32Sub => Some(WasmOperator::I32Sub),
        wasmparser::Operator::I32Mul => Some(WasmOperator::I32Mul),
        wasmparser::Operator::I32DivS => Some(WasmOperator::I32DivS),
        wasmparser::Operator::I32DivU => Some(WasmOperator::I32DivU),
        wasmparser::Operator::I32RemS => Some(WasmOperator::I32RemS),
        _ => None,
    }
}

/// The operators that `plain_6` tells apart from the others.
pub open spec fn is_plain_6(op: WasmOperator) -> bool {
    op is I32RemU || op is I32And || op is I32Or || op is I32Xor || op is I32Shl ||
        op is I32ShrS || op is I32ShrU || op is I32Rotl || op is I32Rotr || op is I64Clz
}

/// Tells these variants of `wasmparser::Operator` apart from the others:
/// `I32RemU`,
/// `I32And`,
/// `I32Or`,
/// `I32Xor`,
/// `I32Shl`,
/// `I32ShrS`,
/// `I32ShrU`,
/// `I32Rotl`,
/// `I32Rotr`,
/// `I64Clz`.
/// What it hands out is the operator as `operator_of` names it; where it
/// hands out nothing, the operator is none of these.
#[verifier::external_body]
fn plain_6(op: &wasmparser::Operator) -> (res: Option<WasmOperator>)
    ensures
        match res {
            Some(converted) => operator_of(*op) == Some(converted),
            None => !(operator_of(*op) matches Some(other) && is_plain_6(other)),
        },
{
    match *op {
        wasmparser::Operator::I32RemU => Some(WasmOperator::I32RemU),
        wasmparser::Operator::I32And => Some(WasmOperator::I32And),
        wasmparser::Operator::I32Or => Some(WasmOperator::I32Or),
        wasmparser::Operator::I32Xor => Some(WasmOperator::I32Xor),
        wasmparser::Operator::I32Shl => Some(WasmOperator::I32Shl),
        wasmparser::Operator::I32ShrS => Some(WasmOperator::I32ShrS),
        wasmparser::Operator::I32ShrU => Some(WasmOperator::I32ShrU),
        wasmparser::Operator::I32Rotl => Some(WasmOperator::I32Rotl),
        wasmparser::Operator::I32Rotr => Some(WasmOperator::I32Rotr),
        wasmparser::Operator::I64Clz => Some(WasmOperator::I64Clz),
        _ => None,
    }
}

/// The operators that `plain_7` tells apart from the others.
pub open spec fn is_plain_7(op: WasmOperator) -> bool {
    op is I64Ctz || op is I64Popcnt || op is I64Add || op is I64Sub || op is I64Mul ||
        op is I64DivS || op is I64DivU || op is I64RemS || op is I64RemU || op is I64And
}

/// Tells these variants of `wasmparser::Operator` apart from the others:
/// `I64Ctz`,
/// `I64Popcnt`,
/// `I64Add`,
/// `I64Sub`,
/// `I64Mul`,
/// `I64DivS`,
/// `I64DivU`,
/// `I64RemS`,
/// `I64RemU`,
/// `I64And`.
/// What it hands out is the operator as `operator_of` names it; where it
/// hands out nothing, the operator is none of these.
#[verifier::external_body]
fn plain_7(op: &wasmparser::Operator) -> (res: Option<WasmOperator>)
    ensures
        match res {
            Some(converted) => operator_of(*op) == Some(converted),
            None => !(operator_of(*op) matches Some(other) && is_plain_7(other)),
        },
{
    match *op {
        wasmparser::Operator::I64Ctz => Some(WasmOperator::I64Ctz),
        wasmparser::Operator::I64Popcnt => Some(WasmOperator::I64Popcnt),
        wasmparser::Operator::I64Add => Some(WasmOperator::I64Add),
        wasmparser::Operator::I64Sub => Some(WasmOperator::I64Sub),
        wasmparser::Operator::I64Mul => Some(WasmOperator::I64Mul),
        wasmparser::Operator::I64DivS => Some(WasmOperator::I64DivS),
        wasmparser::Operator::I64DivU => Some(WasmOperator::I64DivU),
        wasmparser::Operator::I64RemS => Some(WasmOperator::I64RemS),
        wasmparser::Operator::I64RemU => Some(WasmOperator::I64RemU),
        wasmparser::Operator::I64And => Some(WasmOperator::I64And),
        _ => None,
    }
}

/// The operators that `plain_8` tells apart from the others.
pub open spec fn is_plain_8(op: WasmOperator) -> bool {
    op is I64Or || op is I64Xor || op is I64Shl || op is I64ShrS || op is I64ShrU ||
        op is I64Rotl || op is I64Rotr || op is F32Abs || op is F32Neg || op is F32Ceil
}

/// Tells these variants of `wasmparser::Operator` apart from the others:
/// `I64Or`,
/// `I64Xor`,
/// `I64Shl`,
/// `I64ShrS`,
/// `I64ShrU`,
/// `I64Rotl`,
/// `I64Rotr`,
/// `F32Abs`,
/// `F32Neg`,
/// `F32Ceil`.
/// What it hands out is the operator as `operator_of` names it; where it
/// hands out nothing, the operator is none of these.
#[verifier::external_body]
fn plain_8(op: &wasmparser::Operator) -> (res: Option<WasmOperator>)
    ensures
        match res {
            Some(converted) => operator_of(*op) == Some(converted),
            None => !(operator_of(*op) matches Some(other) && is_plain_8(other)),
        },
{
    match *op {
        wasmparser::Operator::I64Or => Some(WasmOperator::I64Or),
        wasmparser::Operator::I64Xor => Some(WasmOperator::I64Xor),
        wasmparser::Operator::I64Shl => Some(WasmOperator::I64Shl),
        wasmparser::Operator::I64ShrS => Some(WasmOperator::I64ShrS),
        wasmparser::Operator::I64ShrU => Some(WasmOperator::I64ShrU),
        wasmparser::Operator::I64Rotl => Some(WasmOperator::I64Rotl),
        wasmparser::Operator::I64Rotr => Some(WasmOperator::I64Rotr),
        wasmparser::Operator::F32Abs => Some(WasmOperator::F32Abs),
        wasmparser::Operator::F32Neg => Some(WasmOperator::F32Neg),
        wasmparser::Operator::F32Ceil => Some(WasmOperator::F32Ceil),
        _ => None,
    }
}

/// The operators that `plain_9` tells apart from the others.
pub open spec fn is_plain_9(op: WasmOperator) -> bool {
    op is F32Floor || op is F32Trunc || op is F32Nearest || op is F32Sqrt || op is F32Add ||
        op is F32Sub || op is F32Mul || op is F32Div || op is F32Min || op is F32Max
}

/// Tells these variants of `wasmparser::Operator` apart from the others:
/// `F32Floor`,
/// `F32Trunc`,
/// `F32Nearest`,
/// `F32Sqrt`,
/// `F32Add`,
/// `F32Sub`,
/// `F32Mul`,
/// `F32Div`,
/// `F32Min`,
/// `F32Max`.
/// What it hands out is the operator as `operator_of` names it; where it
/// hands out nothing, the operator is none of these.
#[verifier::external_body]
fn plain_9(op: &wasmparser::Operator) -> (res: Option<WasmOperator>)
    ensures
        match res {
            Some(converted) => operator_of(*op) == Some(converted),
            None => !(operator_of(*op) matches Some(other) && is_plain_9(other)),
        },
{
    match *op {
        wasmparser::Operator::F32Floor => Some(WasmOperator::F32Floor),
        wasmparser::Operator::F32Trunc => Some(WasmOperator::F32Trunc),
        wasmparser::Operator::F32Nearest => Some(WasmOperator::F32Nearest),
        wasmparser::Operator::F32Sqrt => Some(WasmOperator::F32Sqrt),
        wasmparser::Operator::F32Add => Some(WasmOperator::F32Add),
        wasmparser::Operator::F32Sub => Some(WasmOperator::F32Sub),
        wasmparser::Operator::F32Mul => Some(WasmOperator::F32Mul),
        wasmparser::Operator::F32Div => Some(WasmOperator::F32Div),
        wasmparser::Operator::F32Min => Some(WasmOperator::F32Min),
        wasmparser::Operator::F32Max => Some(WasmOperator::F32Max),
        _ => None,
    }
}

/// The operators that `plain_10` tells apart from the others.
pub open spec fn is_plain_10(op: WasmOperator) -> bool {
    op is F32Copysign || op is F64Abs || op is F64Neg || op is F64Ceil || op is F64Floor ||
        op is F64Trunc || op is F64Nearest || op is F64Sqrt || op is F64Add || op is F64Sub
}

/// Tells these variants of `wasmparser::Operator` apart from the others:
/// `F32Copysign`,
/// `F64Abs`,
/// `F64Neg`,
/// `F64Ceil`,
/// `F64Floor`,
/// `F64Trunc`,
/// `F64Nearest`,
/// `F64Sqrt`,
/// `F64Add`,
/// `F64Sub`.
/// What it hands out is the operator as `operator_of` names it; where it
/// hands out nothing, the operator is none of these.
#[verifier::external_body]
fn plain_10(op: &wasmparser::Operator) -> (res: Option<WasmOperator>)
    ensures
        match res {
            Some(converted) => operator_of(*op) == Some(converted),
            None => !(operator_of(*op) matches Some(other) && is_plain_10(other)),
        },
{
    match *op {
        wasmparser::Operator::F32Copysign => Some(WasmOperator::F32Copysign),
        wasmparser::Operator::F64Abs => Some(WasmOperator::F64Abs),
        wasmparser::Operator::F64Neg => Some(WasmOperator::F64Neg),
        wasmparser::Operator::F64Ceil => Some(WasmOperator::F64Ceil),
        wasmparser::Operator::F64Floor => Some(WasmOperator::F64Floor),
        wasmparser::Operator::F64Trunc => Some(WasmOperator::F64Trunc),
        wasmparser::Operator::F64Nearest => Some(WasmOperator::F64Nearest),
        wasmparser::Operator::F64Sqrt => Some(WasmOperator::F64Sqrt),
        wasmparser::Operator::F64Add => Some(WasmOperator::F64Add),
        wasmparser::Operator::F64Sub => Some(WasmOperator::F64Sub),
        _ => None,
    }
}

/// The operators that `plain_11` tells apart from the others.
pub open spec fn is_plain_11(op: WasmOperator) -> bool {
    op is F64Mul || op is F64Div || op is F64Min || op is F64Max || op is F64Copysign ||
        op is I32WrapI64 || op is I32TruncSF32 || op is I32TruncUF32 || op is I32TruncSF64 ||
        op is I32TruncUF64
}

/// Tells these variants of `wasmparser::Operator` apart from the others:
/// `F64Mul`,
/// `F64Div`,
/// `F64Min`,
/// `F64Max`,
/// `F64Copysign`,
/// `I32WrapI64`,
/// `I32TruncSF32`,
/// `I32TruncUF32`,
/// `I32TruncSF64`,
/// `I32TruncUF64`.
/// What it hands out is the operator as `operator_of` names it; where it
/// hands out nothing, the operator is none of these.
#[verifier::external_body]
fn plain_11(op: &wasmparser::Operator) -> (res: Option<WasmOperator>)
    ensures
        match res {
            Some(converted) => operator_of(*op) == Some(converted),
            None => !(operator_of(*op) matches Some(other) && is_plain_11(other)),
        },
{
    match *op {
        wasmparser::Operator::F64Mul => Some(WasmOperator::F64Mul),
        wasmparser::Operator::F64Div => Some(WasmOperator::F64Div),
        wasmparser::Operator::F64Min => Some(WasmOperator::F64Min),
        wasmparser::Operator::F64Max => Some(WasmOperator::F64Max),
        wasmparser::Operator::F64Copysign => Some(WasmOperator::F64Copysign),
        wasmparser::Operator::I32WrapI64 => Some(WasmOperator::I32WrapI64),
        wasmparser::Operator::I32TruncSF32 => Some(WasmOperator::I32TruncSF32),
        wasmparser::Operator::I32TruncUF32 => Some(WasmOperator::I32TruncUF32),
        wasmparser::Operator::I32TruncSF64 => Some(WasmOperator::I32TruncSF64),
        wasmparser::Operator::I32TruncUF64 => Some(WasmOperator::I32TruncUF64),
        _ => None,
    }
}

/// The operators that `plain_12` tells apart from the others.
pub open spec fn is_plain_12(op: WasmOperator) -> bool {
    op is I64ExtendSI32 || op is I64ExtendUI32 || op is I64TruncSF32 || op is I64TruncUF32 ||
        op is I64TruncSF64 || op is I64TruncUF64 || op is F32ConvertSI32 ||
        op is F32ConvertUI32 || op is F32ConvertSI64 || op is F32ConvertUI64
}

/// Tells these variants of `wasmparser::Operator` apart from the others:
/// `I64ExtendSI32`,
/// `I64ExtendUI32`,
/// `I64TruncSF32`,
/// `I64TruncUF32`,
/// `I64TruncSF64`,
/// `I64TruncUF64`,
/// `F32ConvertSI32`,
/// `F32ConvertUI32`,
/// `F32ConvertSI64`,
/// `F32ConvertUI64`.
/// What it hands out is the operator as `operator_of` names it; where it
/// hands out nothing, the operator is none of these.
#[verifier::external_body]
fn plain_12(op: &wasmparser::Operator) -> (res: Option<WasmOperator>)
    ensures
        match res {
            Some(converted) => operator_of(*op) == Some(converted),
            None => !(operator_of(*op) matches Some(other) && is_plain_12(other)),
        },
{
    match *op {
        wasmparser::Operator::I64ExtendSI32 => Some(WasmOperator::I64ExtendSI32),
        wasmparser::Operator::I64ExtendUI32 => Some(WasmOperator::I64ExtendUI32),
        wasmparser::Operator::I64TruncSF32 => Some(WasmOperator::I64TruncSF32),
        wasmparser::Operator::I64TruncUF32 => Some(WasmOperator::I64TruncUF32),
        wasmparser::Operator::I64TruncSF64 => Some(WasmOperator::I64TruncSF64),
        wasmparser::Operator::I64TruncUF64 => Some(WasmOperator::I64TruncUF64),
        wasmparser::Operator::F32ConvertSI32 => Some(WasmOperator::F32ConvertSI32),
        wasmparser::Operator::F32ConvertUI32 => Some(WasmOperator::F32ConvertUI32),
        wasmparser::Operator::F32ConvertSI64 => Some(WasmOperator::F32ConvertSI64),
        wasmparser::Operator::F32ConvertUI64 => Some(WasmOperator::F32ConvertUI64),
        _ => None,
    }
}

/// The operators that `plain_13` tells apart from the others.
pub open spec fn is_plain_13(op: WasmOperator) -> bool {
    op is F32DemoteF64 || op is F64ConvertSI32 || op is F64ConvertUI32 ||
        op is F64ConvertSI64 || op is F64ConvertUI64 || op is F64PromoteF32 ||
        op is I32ReinterpretF32 || op is I64ReinterpretF64 || op is F32ReinterpretI32 ||
        op is F64ReinterpretI64
}

/// Tells these variants of `wasmparser::Operator` apart from the others:
/// `F32DemoteF64`,
/// `F64ConvertSI32`,
/// `F64ConvertUI32`,
/// `F64ConvertSI64`,
/// `F64ConvertUI64`,
/// `F64PromoteF32`,
/// `I32ReinterpretF32`,
/// `I64ReinterpretF64`,
/// `F32ReinterpretI32`,
/// `F64ReinterpretI64`.
/// What it hands out is the operator as `operator_of` names it; where it
/// hands out nothing, the operator is none of these.
#[verifier::external_body]
fn plain_13(op: &wasmparser::Operator) -> (res: Option<WasmOperator>)
    ensures
        match res {
            Some(converted) => operator_of(*op) == Some(converted),
            None => !(operator_of(*op) matches Some(other) && is_plain_13(other)),
        },
{
    match *op {
        wasmparser::Operator::F32DemoteF64 => Some(WasmOperator::F32DemoteF64),
        wasmparser::Operator::F64ConvertSI32 => Some(WasmOperator::F64ConvertSI32),
        wasmparser::Operator::F64ConvertUI32 => Some(WasmOperator::F64ConvertUI32),
        wasmparser::Operator::F64ConvertSI64 => Some(WasmOperator::F64ConvertSI64),
        wasmparser::Operator::F64ConvertUI64 => Some(WasmOperator::F64ConvertUI64),
        wasmparser::Operator::F64PromoteF32 => Some(WasmOperator::F64PromoteF32),
        wasmparser::Operator::I32ReinterpretF32 => Some(WasmOperator::I32ReinterpretF32),
        wasmparser::Operator::I64ReinterpretF64 => Some(WasmOperator::I64ReinterpretF64),
        wasmparser::Operator::F32ReinterpretI32 => Some(WasmOperator::F32ReinterpretI32),
        wasmparser::Operator::F64ReinterpretI64 => Some(WasmOperator::F64ReinterpretI64),
        _ => None,
    }
}

/// Every operator of the translator is told apart by one of the readers.
proof fn lemma_readers_cover(op: WasmOperator)
    ensures
        is_opening(op)
        || is_constant(op)
        || is_br_table(op)
        || is_indexed_1(op)
        || is_indexed_2(op)
        || is_memory_1(op)
        || is_memory_2(op)
        || is_memory_3(op)
        || is_memory_4(op)
        || is_memory_5(op)
        || is_memory_6(op)
        || is_plain_1(op)
        || is_plain_2(op)
        || is_plain_3(op)
        || is_plain_4(op)
        || is_plain_5(op)
        || is_plain_6(op)
        || is_plain_7(op)
        || is_plain_8(op)
        || is_plain_9(op)
        || is_plain_10(op)
        || is_plain_11(op)
        || is_plain_12(op)
        || is_plain_13(op),
{
}

/// The operator of the translator that an operator of the parser stands
/// for. `None` for the operators that the translator does not take.
pub(crate) fn convert_operator(op: &wasmparser::Operator) -> (res: Option<WasmOperator>)
    ensures
        res == operator_of(*op),
{
    match opening(op) {
        Some((Opening::Block, ty)) => {
            return Some(WasmOperator::Block { ty: wasm_type(ty) });
        },
        Some((Opening::Loop, ty)) => {
            return Some(WasmOperator::Loop { ty: wasm_type(ty) });
        },
        Some((Opening::If, ty)) => {
            return Some(WasmOperator::If { ty: wasm_type(ty) });
        },
        None => {},
    }
    match constant(op) {
        Some(converted) => {
            return Some(converted);
        },
        None => {},
    }
    match br_table(op) {
        Some(converted) => {
            return Some(converted);
        },
        None => {},
    }
    match indexed_1(op) {
        Some(converted) => {
            return Some(converted);
        },
        None => {},
    }
    match indexed_2(op) {
        Some(converted) => {
            return Some(converted);
        },
        None => {},
    }
    match memory_1(op) {
        Some(converted) => {
            return Some(converted);
        },
        None => {},
    }
    match memory_2(op) {
        Some(converted) => {
            return Some(converted);
        },
        None => {},
    }
    match memory_3(op) {
        Some(converted) => {
            return Some(converted);
        },
        None => {},
    }
    match memory_4(op) {
        Some(converted) => {
            return Some(converted);
        },
        None => {},
    }
    match memory_5(op) {
        Some(converted) => {
            return Some(converted);
        },
        None => {},
    }
    match memory_6(op) {
        Some(converted) => {
            return Some(converted);
        },
        None => {},
    }
    match plain_1(op) {
        Some(converted) => {
            return Some(converted);
        },
        None => {},
    }
    match plain_2(op) {
        Some(converted) => {
            return Some(converted);
        },
        None => {},
    }
    match plain_3(op) {
        Some(converted) => {
            return Some(converted);
        },
        None => {},
    }
    match plain_4(op) {
        Some(converted) => {
            return Some(converted);
        },
        None => {},
    }
    match plain_5(op) {
        Some(converted) => {
            return Some(converted);
        },
        None => {},
    }
    match plain_6(op) {
        Some(converted) => {
            return Some(converted);
        },
        None => {},
    }
    match plain_7(op) {
        Some(converted) => {
            return Some(converted);
        },
        None => {},
    }
    match plain_8(op) {
        Some(converted) => {
            return Some(converted);
        },
        None => {},
    }
    match plain_9(op) {
        Some(converted) => {
            return Some(converted);
        },
        None => {},
    }
    match plain_10(op) {
        Some(converted) => {
            return Some(converted);
        },
        None => {},
    }
    match plain_11(op) {
        Some(converted) => {
            return Some(converted);
        },
        None => {},
    }
    match plain_12(op) {
        Some(converted) => {
            return Some(converted);
        },
        None => {},
    }
    match plain_13(op) {
        Some(converted) => {
            return Some(converted);
        },
        None => {},
    }
    proof {
        match operator_of(*op) {
            Some(other) => {
                lemma_readers_cover(other);
            },
            None => {},
        }
    }
    None
}

} // verus!
