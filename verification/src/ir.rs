//! Handles, types and instructions of the intermediate representation.
//!
//! Every entity of a function under construction (block, value, instruction,
//! imported signature or function, jump table) is named by a small handle.
//! Handles are dense: the n-th entity of a kind has number n.
use vstd::prelude::*;

verus! {

/// An extended basic block.
#[derive(Clone, Copy, Debug, PartialEq, Eq, Structural, Hash)]
pub struct Ebb(pub usize);

/// An SSA value.
#[derive(Clone, Copy, Debug, PartialEq, Eq, Structural, Hash)]
pub struct Value(pub usize);

/// An instruction.
#[derive(Clone, Copy, Debug, PartialEq, Eq, Structural, Hash)]
pub struct Inst(pub usize);

/// A function imported into the function under construction.
#[derive(Clone, Copy, Debug, PartialEq, Eq, Structural, Hash)]
pub struct FuncRef(pub usize);

/// A signature imported into the function under construction.
#[derive(Clone, Copy, Debug, PartialEq, Eq, Structural, Hash)]
pub struct SigRef(pub usize);

/// A jump table.
#[derive(Clone, Copy, Debug, PartialEq, Eq, Structural, Hash)]
pub struct JumpTable(pub usize);

/// A WebAssembly local variable: the arguments first, then the declared locals.
#[derive(Clone, Copy, Debug, PartialEq, Eq, Structural, Hash)]
pub struct Local(pub u32);

impl Default for Local {
    fn default() -> (local: Local)
        ensures
            local == Local(u32::MAX),
    {
        Local(u32::MAX)
    }
}

/// The type of an SSA value.
#[derive(Clone, Copy, Debug, PartialEq, Eq, Structural, Hash)]
pub enum ValueType {
    I32,
    I64,
    F32,
    F64,
}

impl ValueType {
    /// The size in bytes of a value of this type.
    pub open spec fn spec_bytes(self) -> nat {
        match self {
            ValueType::I32 | ValueType::F32 => 4,
            ValueType::I64 | ValueType::F64 => 8,
        }
    }

    /// The size in bytes of a value of this type.
    pub fn bytes(self) -> (n: usize)
        ensures
            n == self.spec_bytes(),
    {
        match self {
            ValueType::I32 | ValueType::F32 => 4,
            ValueType::I64 | ValueType::F64 => 8,
        }
    }
}

/// A single precision immediate, as its bit pattern.
#[derive(Clone, Copy, Debug, PartialEq, Eq, Structural, Hash)]
pub struct Ieee32(pub u32);

/// A double precision immediate, as its bit pattern.
#[derive(Clone, Copy, Debug, PartialEq, Eq, Structural, Hash)]
pub struct Ieee64(pub u64);

/// Condition of an integer comparison.
#[derive(Clone, Copy, Debug, PartialEq, Eq, Structural, Hash)]
pub enum IntCC {
    Equal,
    NotEqual,
    SignedLessThan,
    SignedGreaterThanOrEqual,
    SignedGreaterThan,
    SignedLessThanOrEqual,
    UnsignedLessThan,
    UnsignedGreaterThanOrEqual,
    UnsignedGreaterThan,
    UnsignedLessThanOrEqual,
}

/// Condition of a floating point comparison.
#[derive(Clone, Copy, Debug, PartialEq, Eq, Structural, Hash)]
pub enum FloatCC {
    Equal,
    NotEqual,
    LessThan,
    LessThanOrEqual,
    GreaterThan,
    GreaterThanOrEqual,
}

/// The operation that an instruction performs.
#[derive(Clone, Copy, Debug, PartialEq, Eq, Structural, Hash)]
pub enum Opcode {
    // Constants.
    Iconst,
    F32const,
    F64const,
    // Integer arithmetic.
    Iadd,
    Isub,
    Imul,
    ImulImm,
    Sdiv,
    Udiv,
    Srem,
    Urem,
    Band,
    Bor,
    Bxor,
    Ishl,
    Sshr,
    Ushr,
    Rotl,
    Rotr,
    Clz,
    Ctz,
    Popcnt,
    // Floating point arithmetic.
    Fadd,
    Fsub,
    Fmul,
    Fdiv,
    Sqrt,
    Fmin,
    Fmax,
    Ceil,
    Floor,
    Trunc,
    Nearest,
    Fneg,
    Fabs,
    Fcopysign,
    // Comparisons and their widening to an integer.
    IntCompare,
    IntCompareImm,
    FloatCompare,
    Bint,
    // Conversions.
    Sextend,
    Uextend,
    Ireduce,
    FcvtFromUint,
    FcvtFromSint,
    FcvtToUint,
    FcvtToSint,
    Fpromote,
    Fdemote,
    Bitcast,
    Select,
    // Memory.
    Load,
    Uload8,
    Sload8,
    Uload16,
    Sload16,
    Uload32,
    Sload32,
    Store,
    Istore8,
    Istore16,
    Istore32,
    // Control flow.
    Jump,
    Brz,
    Brnz,
    BrIntCompare,
    BrTable,
    Return,
    Trap,
    Call,
    CallIndirect,
}

impl Opcode {
    /// An instruction that transfers control to another block.
    pub open spec fn spec_is_branch(self) -> bool {
        self == Opcode::Jump || self == Opcode::Brz || self == Opcode::Brnz
            || self == Opcode::BrIntCompare || self == Opcode::BrTable
    }

    /// An instruction after which its block accepts no further instruction.
    pub open spec fn spec_is_terminator(self) -> bool {
        self == Opcode::Jump || self == Opcode::Return || self == Opcode::Trap
    }

    /// An instruction whose single result the builder hands back at once.
    /// Branches, stores and traps have none; the results of a call are asked
    /// for one by one.
    pub open spec fn spec_has_result(self) -> bool {
        !(self.spec_is_branch() || self == Opcode::Return || self == Opcode::Trap
            || self == Opcode::Call || self == Opcode::CallIndirect || self == Opcode::Store
            || self == Opcode::Istore8 || self == Opcode::Istore16 || self == Opcode::Istore32)
    }

    #[verifier::when_used_as_spec(spec_is_branch)]
    pub fn is_branch(self) -> (b: bool)
        ensures
            b == self.spec_is_branch(),
    {
        match self {
            Opcode::Jump | Opcode::Brz | Opcode::Brnz | Opcode::BrIntCompare | Opcode::BrTable => true,
            _ => false,
        }
    }

    #[verifier::when_used_as_spec(spec_is_terminator)]
    pub fn is_terminator(self) -> (b: bool)
        ensures
            b == self.spec_is_terminator(),
    {
        match self {
            Opcode::Jump | Opcode::Return | Opcode::Trap => true,
            _ => false,
        }
    }

    #[verifier::when_used_as_spec(spec_has_result)]
    pub fn has_result(self) -> (b: bool)
        ensures
            b == self.spec_has_result(),
    {
        match self {
            Opcode::Jump | Opcode::Brz | Opcode::Brnz | Opcode::BrIntCompare | Opcode::BrTable
            | Opcode::Return | Opcode::Trap | Opcode::Call | Opcode::CallIndirect | Opcode::Store
            | Opcode::Istore8 | Opcode::Istore16 | Opcode::Istore32 => false,
            _ => true,
        }
    }
}

/// The condition code of a comparison.
#[derive(Clone, Copy, Debug, PartialEq, Eq, Structural, Hash)]
pub enum Cond {
    Int(IntCC),
    Float(FloatCC),
}

/// The immediate operand of an instruction. Floating point constants are
/// held as their bit patterns.
#[derive(Clone, Copy, Debug, PartialEq, Eq, Structural, Hash)]
pub enum Imm {
    Int(i64),
    Ieee32(u32),
    Ieee64(u64),
    Offset(i32),
}

/// The entity that a branch or call refers to.
#[derive(Clone, Copy, Debug, PartialEq, Eq, Structural, Hash)]
pub enum Target {
    Ebb(Ebb),
    Table(JumpTable),
    Func(FuncRef),
    Sig(SigRef),
}

/// Everything about an instruction but its value operands.
#[derive(Clone, Copy, Debug, PartialEq, Eq, Structural, Hash)]
pub struct InstHeader {
    pub opcode: Opcode,
    /// The result type, for the instructions that are told it.
    pub ty: Option<ValueType>,
    pub cond: Option<Cond>,
    pub imm: Option<Imm>,
    pub target: Option<Target>,
}

impl InstHeader {
    /// The header of an instruction that has nothing but an opcode.
    pub open spec fn spec_plain(opcode: Opcode) -> InstHeader {
        InstHeader { opcode, ty: None, cond: None, imm: None, target: None }
    }

    #[verifier::when_used_as_spec(spec_plain)]
    pub fn plain(opcode: Opcode) -> (h: InstHeader)
        ensures
            h == InstHeader::spec_plain(opcode),
    {
        InstHeader { opcode, ty: None, cond: None, imm: None, target: None }
    }

    /// The header of a branch to `ebb`.
    pub open spec fn spec_branch(opcode: Opcode, ebb: Ebb) -> InstHeader {
        InstHeader { opcode, ty: None, cond: None, imm: None, target: Some(Target::Ebb(ebb)) }
    }

    #[verifier::when_used_as_spec(spec_branch)]
    pub fn branch(opcode: Opcode, ebb: Ebb) -> (h: InstHeader)
        ensures
            h == InstHeader::spec_branch(opcode, ebb),
    {
        InstHeader { opcode, ty: None, cond: None, imm: None, target: Some(Target::Ebb(ebb)) }
    }

    /// The block that the instruction may transfer control to directly.
    pub open spec fn destination(self) -> Option<Ebb> {
        match self.target {
            Some(Target::Ebb(ebb)) => Some(ebb),
            _ => None,
        }
    }
}

/// The parameter and result types of a function.
#[derive(Clone, Debug, PartialEq, Eq)]
pub struct Signature {
    pub argument_types: Vec<ValueType>,
    pub return_types: Vec<ValueType>,
}

/// The mathematical content of a [`Signature`].
pub struct SignatureModel {
    pub argument_types: Seq<ValueType>,
    pub return_types: Seq<ValueType>,
}

impl View for Signature {
    type V = SignatureModel;

    open spec fn view(&self) -> SignatureModel {
        SignatureModel { argument_types: self.argument_types@, return_types: self.return_types@ }
    }
}

impl Signature {
    /// A signature without parameters or results.
    pub fn new() -> (sig: Signature)
        ensures
            sig@.argument_types.len() == 0,
            sig@.return_types.len() == 0,
    {
        Signature { argument_types: Vec::new(), return_types: Vec::new() }
    }

    /// A copy of the signature.
    pub fn duplicate(&self) -> (sig: Signature)
        ensures
            sig@ == self@,
    {
        let sig = Signature {
            argument_types: copy_of(&self.argument_types),
            return_types: copy_of(&self.return_types),
        };
        sig
    }
}

/// A copy of a list of plain items.
pub fn copy_of<T: Copy>(items: &Vec<T>) -> (copy: Vec<T>)
    ensures
        copy@ == items@,
{
    let mut copy: Vec<T> = Vec::new();
    let mut i: usize = 0;
    while i < items.len()
        invariant
            i <= items.len(),
            copy@ == items@.subrange(0, i as int),
        decreases items.len() - i,
    {
        copy.push(items[i]);
        assert(items@.subrange(0, i as int).push(items@[i as int]) =~= items@.subrange(0, i + 1));
        i += 1;
    }
    assert(items@.subrange(0, items.len() as int) =~= items@);
    copy
}

/// One construction step of a function, as the builder records it.
#[derive(Clone, Debug, PartialEq, Eq)]
pub enum Command {
    /// A new, empty block.
    CreateEbb(Ebb),
    /// A new parameter `value` of type `ty` at the end of the block's parameters.
    AppendEbbArg { ebb: Ebb, ty: ValueType, value: Value },
    /// Instructions that follow go to the end of this block.
    SwitchToBlock(Ebb),
    /// No branch to this block will be added any more.
    SealBlock(Ebb),
    /// A variable of the given type.
    DeclareVar { var: Local, ty: ValueType },
    /// The variable holds `value` from here on.
    DefVar { var: Local, value: Value },
    /// `value` is what the variable holds here.
    UseVar { var: Local, value: Value },
    /// The instruction `inst`, appended to the current block.
    Ins { inst: Inst, header: InstHeader, args: Vec<Value>, result: Option<Value> },
    /// `value` is result number `index` of the call `inst`.
    InstResult { inst: Inst, index: usize, value: Value },
    /// The branch `inst` goes to `ebb` instead of where it went.
    ChangeJumpDestination { inst: Inst, ebb: Ebb },
    /// A new, empty jump table.
    CreateJumpTable(JumpTable),
    /// Entry `index` of the table is `ebb`.
    InsertJumpTableEntry { table: JumpTable, index: usize, ebb: Ebb },
    /// The signature can be used by indirect calls and imported functions.
    ImportSignature { sigref: SigRef, signature: Signature },
    /// The function of that name and signature can be called.
    ImportFunction { funcref: FuncRef, name: String, sigref: SigRef },
}

/// The mathematical content of a [`Command`].
pub enum CommandModel {
    CreateEbb(Ebb),
    AppendEbbArg { ebb: Ebb, ty: ValueType, value: Value },
    SwitchToBlock(Ebb),
    SealBlock(Ebb),
    DeclareVar { var: Local, ty: ValueType },
    DefVar { var: Local, value: Value },
    UseVar { var: Local, value: Value },
    Ins { inst: Inst, header: InstHeader, args: Seq<Value>, result: Option<Value> },
    InstResult { inst: Inst, index: usize, value: Value },
    ChangeJumpDestination { inst: Inst, ebb: Ebb },
    CreateJumpTable(JumpTable),
    InsertJumpTableEntry { table: JumpTable, index: usize, ebb: Ebb },
    ImportSignature { sigref: SigRef, signature: SignatureModel },
    ImportFunction { funcref: FuncRef, name: Seq<char>, sigref: SigRef },
}

impl CommandModel {
    /// The step makes a branch or an entry of a jump table go to the block.
    pub open spec fn leads_to(self, ebb: Ebb) -> bool {
        match self {
            CommandModel::Ins { header, .. } => header.target == Some(Target::Ebb(ebb)),
            CommandModel::ChangeJumpDestination { ebb: to, .. } => to == ebb,
            CommandModel::InsertJumpTableEntry { ebb: to, .. } => to == ebb,
            _ => false,
        }
    }
}

impl View for Command {
    type V = CommandModel;

    open spec fn view(&self) -> CommandModel {
        match *self {
            Command::CreateEbb(ebb) => CommandModel::CreateEbb(ebb),
            Command::AppendEbbArg { ebb, ty, value } => CommandModel::AppendEbbArg {
                ebb,
                ty,
                value,
            },
            Command::SwitchToBlock(ebb) => CommandModel::SwitchToBlock(ebb),
            Command::SealBlock(ebb) => CommandModel::SealBlock(ebb),
            Command::DeclareVar { var, ty } => CommandModel::DeclareVar { var, ty },
            Command::DefVar { var, value } => CommandModel::DefVar { var, value },
            Command::UseVar { var, value } => CommandModel::UseVar { var, value },
            Command::Ins { inst, header, args, result } => CommandModel::Ins {
                inst,
                header,
                args: args@,
                result,
            },
            Command::InstResult { inst, index, value } => CommandModel::InstResult {
                inst,
                index,
                value,
            },
            Command::ChangeJumpDestination { inst, ebb } => CommandModel::ChangeJumpDestination {
                inst,
                ebb,
            },
            Command::CreateJumpTable(table) => CommandModel::CreateJumpTable(table),
            Command::InsertJumpTableEntry { table, index, ebb } => {
                CommandModel::InsertJumpTableEntry { table, index, ebb }
            },
            Command::ImportSignature { sigref, signature } => CommandModel::ImportSignature {
                sigref,
                signature: signature@,
            },
            Command::ImportFunction { funcref, name, sigref } => CommandModel::ImportFunction {
                funcref,
                name: name@,
                sigref,
            },
        }
    }
}

/// The contents of a list of commands.
pub open spec fn commands_view(commands: Seq<Command>) -> Seq<CommandModel> {
    commands.map_values(|c: Command| c@)
}

/// A translated function: its name, its signature, and the steps that build
/// its body, oldest first.
#[derive(Clone, Debug, PartialEq, Eq)]
pub struct Function {
    /// The name under which the module exports the function; empty if it
    /// does not.
    pub name: String,
    pub signature: Signature,
    pub commands: Vec<Command>,
}

} // verus!
