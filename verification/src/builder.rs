//! The function builder: the one place where a function under construction
//! changes.
//!
//! The builder hands out the handles, keeps for every block whether it is
//! sealed and whether it is filled (closed by a terminator), and records each
//! step as a [`Command`]. Its rules are those of SSA construction by blocks:
//! an instruction goes to the current block, which must not be filled, and the
//! builder leaves a block only when it is filled or still pristine.
use vstd::prelude::*;
use crate::ir::{Ebb, Value, Inst, FuncRef, SigRef, JumpTable, Local, ValueType, Target, InstHeader,
                Signature, SignatureModel, Command, CommandModel, commands_view, copy_of};

verus! {

/// Where a reader of recorded steps stands: in which block, whether that
/// block is still untouched, and which blocks a terminator has closed.
pub struct Cursor {
    pub position: Option<Ebb>,
    pub pristine: bool,
    pub filled: Seq<bool>,
    /// For each instruction, whether it was redirected.
    pub redirected: Seq<bool>,
}

impl Cursor {
    /// Where the reader stands before the first step.
    pub open spec fn start() -> Cursor {
        Cursor { position: None, pristine: true, filled: seq![], redirected: seq![] }
    }

    /// The cursor after a step, or nothing if the step breaks a rule:
    /// blocks and instructions are numbered as they are made; an
    /// instruction goes to the current block, which no terminator has
    /// closed; the reader leaves a block only when it is closed or
    /// untouched, and never for a closed one; an instruction is redirected
    /// at most once.
    pub open spec fn apply(self, command: CommandModel) -> Option<Cursor> {
        match command {
            CommandModel::CreateEbb(ebb) => if ebb.0 == self.filled.len() {
                Some(Cursor { filled: self.filled.push(false), ..self })
            } else {
                None
            },
            CommandModel::SwitchToBlock(ebb) => if ebb.0 < self.filled.len()
                && !self.filled[ebb.0 as int] && (self.position is None || self.pristine
                || self.filled[self.position.unwrap().0 as int]) {
                Some(Cursor { position: Some(ebb), pristine: true, ..self })
            } else {
                None
            },
            CommandModel::Ins { inst, header, .. } => match self.position {
                Some(ebb) => if ebb.0 < self.filled.len() && !self.filled[ebb.0 as int] && inst.0
                    == self.redirected.len() {
                    Some(
                        Cursor {
                            pristine: false,
                            filled: if header.opcode.spec_is_terminator() {
                                self.filled.update(ebb.0 as int, true)
                            } else {
                                self.filled
                            },
                            redirected: self.redirected.push(false),
                            ..self
                        },
                    )
                } else {
                    None
                },
                None => None,
            },
            CommandModel::ChangeJumpDestination { inst, .. } => if inst.0 < self.redirected.len()
                && !self.redirected[inst.0 as int] {
                Some(Cursor { redirected: self.redirected.update(inst.0 as int, true), ..self })
            } else {
                None
            },
            _ => Some(self),
        }
    }
}

/// Where a reader of the steps stands after the last of them, or nothing if
/// a step breaks a rule of [`Cursor::apply`]. Steps that can be replayed
/// give no block an instruction after its terminator, and so no block a
/// second terminator, and redirect no branch twice.
pub open spec fn replay(commands: Seq<CommandModel>) -> Option<Cursor>
    decreases commands.len(),
{
    if commands.len() == 0 {
        Some(Cursor::start())
    } else {
        match replay(commands.drop_last()) {
            Some(cursor) => cursor.apply(commands.last()),
            None => None,
        }
    }
}

/// Replaying one more step is applying it to where the replay stood.
pub proof fn lemma_replay_push(commands: Seq<CommandModel>, command: CommandModel)
    ensures
        replay(commands.push(command)) == match replay(commands) {
            Some(cursor) => cursor.apply(command),
            None => None,
        },
{
    assert(commands.push(command).drop_last() =~= commands);
}

/// The mathematical content of a [`FunctionBuilder`].
pub struct BuilderModel {
    /// The steps recorded so far, oldest first.
    pub commands: Seq<CommandModel>,
    /// For each block, whether it is sealed.
    pub sealed: Seq<bool>,
    /// For each block, whether a terminator closed it.
    pub filled: Seq<bool>,
    /// For each block, its parameters.
    pub params: Seq<Seq<Value>>,
    /// The types of the declared variables.
    pub vars: Seq<ValueType>,
    /// The block that receives instructions.
    pub position: Option<Ebb>,
    /// Whether no instruction was added since the builder came to its block.
    pub pristine: bool,
    /// For each instruction, whether it was redirected.
    pub redirected: Seq<bool>,
    /// The numbers of values, instructions, jump tables, imported signatures
    /// and imported functions made so far.
    pub values: nat,
    pub insts: nat,
    pub jump_tables: nat,
    pub signatures: nat,
    pub functions: nat,
}

impl BuilderModel {
    /// A builder that has recorded nothing.
    pub open spec fn empty() -> BuilderModel {
        BuilderModel {
            commands: seq![],
            sealed: seq![],
            filled: seq![],
            params: seq![],
            vars: seq![],
            position: None,
            pristine: true,
            redirected: seq![],
            values: 0,
            insts: 0,
            jump_tables: 0,
            signatures: 0,
            functions: 0,
        }
    }

    pub open spec fn num_ebbs(self) -> nat {
        self.sealed.len()
    }

    pub open spec fn has_ebb(self, ebb: Ebb) -> bool {
        ebb.0 < self.sealed.len()
    }

    pub open spec fn defines(self, value: Value) -> bool {
        value.0 < self.values
    }

    pub open spec fn defines_all(self, values: Seq<Value>) -> bool {
        forall|i: int| 0 <= i < values.len() ==> self.defines(#[trigger] values[i])
    }

    pub open spec fn is_sealed(self, ebb: Ebb) -> bool {
        self.sealed[ebb.0 as int]
    }

    pub open spec fn is_filled_ebb(self, ebb: Ebb) -> bool {
        self.filled[ebb.0 as int]
    }

    pub open spec fn ebb_args(self, ebb: Ebb) -> Seq<Value> {
        self.params[ebb.0 as int]
    }

    /// The current block is closed by a terminator.
    pub open spec fn is_filled(self) -> bool {
        self.position matches Some(ebb) && self.filled[ebb.0 as int]
    }

    /// The current block takes another instruction.
    pub open spec fn can_emit(self) -> bool {
        self.position matches Some(ebb) && !self.filled[ebb.0 as int]
    }

    /// The builder may go to another block.
    pub open spec fn can_leave(self) -> bool {
        self.position is None || self.pristine || self.is_filled()
    }

    /// What an instruction refers to exists.
    pub open spec fn has_target(self, target: Option<Target>) -> bool {
        match target {
            None => true,
            Some(Target::Ebb(ebb)) => self.has_ebb(ebb),
            Some(Target::Table(table)) => table.0 < self.jump_tables,
            Some(Target::Func(func)) => func.0 < self.functions,
            Some(Target::Sig(sig)) => sig.0 < self.signatures,
        }
    }

    /// The blocks that `before` had are in `self` as they were in `before`.
    pub open spec fn keeps_ebbs_of(self, before: BuilderModel) -> bool {
        &&& before.num_ebbs() <= self.num_ebbs()
        &&& forall|e: int|
            #![trigger self.sealed[e]]
            #![trigger self.filled[e]]
            #![trigger self.params[e]]
            0 <= e < before.num_ebbs() ==> {
                &&& self.sealed[e] == before.sealed[e]
                &&& self.filled[e] == before.filled[e]
                &&& self.params[e] == before.params[e]
            }
    }

    /// Where the builder stands.
    pub open spec fn cursor(self) -> Cursor {
        Cursor {
            position: self.position,
            pristine: self.pristine,
            filled: self.filled,
            redirected: self.redirected,
        }
    }

    /// The handles fit the machine.
    pub open spec fn fits(self) -> bool {
        self.commands.len() <= usize::MAX
    }

    /// The tables agree in length, the position is a block, every block
    /// parameter is a value, no count exceeds the number of steps, that
    /// number fits the machine, and the steps can be replayed to where the
    /// builder stands.
    pub open spec fn wf(self) -> bool {
        &&& self.sealed.len() == self.filled.len()
        &&& self.sealed.len() == self.params.len()
        &&& self.redirected.len() == self.insts
        &&& self.sealed.len() <= self.commands.len()
        &&& self.vars.len() <= self.commands.len()
        &&& self.values <= self.commands.len()
        &&& self.insts <= self.commands.len()
        &&& self.jump_tables <= self.commands.len()
        &&& self.signatures <= self.commands.len()
        &&& self.functions <= self.commands.len()
        &&& self.fits()
        &&& replay(self.commands) == Some(self.cursor())
        &&& (self.position matches Some(ebb) ==> self.has_ebb(ebb))
        &&& forall|e: int, i: int|
            0 <= e < self.params.len() && 0 <= i < self.params[e].len() ==> self.defines(
                #[trigger] self.params[e][i],
            )
    }

    pub open spec fn record(self, command: CommandModel) -> BuilderModel {
        BuilderModel { commands: self.commands.push(command), ..self }
    }

    pub open spec fn create_ebb(self) -> (BuilderModel, Ebb) {
        let ebb = Ebb(self.sealed.len() as usize);
        (
            BuilderModel {
                sealed: self.sealed.push(false),
                filled: self.filled.push(false),
                params: self.params.push(seq![]),
                ..self.record(CommandModel::CreateEbb(ebb))
            },
            ebb,
        )
    }

    pub open spec fn append_ebb_arg(self, ebb: Ebb, ty: ValueType) -> (BuilderModel, Value) {
        let value = Value(self.values as usize);
        (
            BuilderModel {
                params: self.params.update(ebb.0 as int, self.params[ebb.0 as int].push(value)),
                values: self.values + 1,
                ..self.record(CommandModel::AppendEbbArg { ebb, ty, value })
            },
            value,
        )
    }

    pub open spec fn switch_to_block(self, ebb: Ebb) -> BuilderModel {
        BuilderModel {
            position: Some(ebb),
            pristine: true,
            ..self.record(CommandModel::SwitchToBlock(ebb))
        }
    }

    pub open spec fn seal_block(self, ebb: Ebb) -> BuilderModel {
        BuilderModel {
            sealed: self.sealed.update(ebb.0 as int, true),
            ..self.record(CommandModel::SealBlock(ebb))
        }
    }

    pub open spec fn declare_var(self, var: Local, ty: ValueType) -> BuilderModel {
        BuilderModel { vars: self.vars.push(ty), ..self.record(CommandModel::DeclareVar { var, ty }) }
    }

    pub open spec fn def_var(self, var: Local, value: Value) -> BuilderModel {
        self.record(CommandModel::DefVar { var, value })
    }

    pub open spec fn use_var(self, var: Local) -> (BuilderModel, Value) {
        let value = Value(self.values as usize);
        (
            BuilderModel {
                values: self.values + 1,
                ..self.record(CommandModel::UseVar { var, value })
            },
            value,
        )
    }

    /// The result that `ins` hands back for this opcode.
    pub open spec fn next_result(self, header: InstHeader) -> Option<Value> {
        if header.opcode.spec_has_result() {
            Some(Value(self.values as usize))
        } else {
            None
        }
    }

    pub open spec fn ins(self, header: InstHeader, args: Seq<Value>) -> (
        BuilderModel,
        Inst,
        Option<Value>,
    ) {
        let inst = Inst(self.insts as usize);
        let result = self.next_result(header);
        (
            BuilderModel {
                filled: if header.opcode.spec_is_terminator() {
                    self.filled.update(self.position.unwrap().0 as int, true)
                } else {
                    self.filled
                },
                pristine: false,
                redirected: self.redirected.push(false),
                insts: self.insts + 1,
                values: if result is Some {
                    self.values + 1
                } else {
                    self.values
                },
                ..self.record(CommandModel::Ins { inst, header, args, result })
            },
            inst,
            result,
        )
    }

    pub open spec fn inst_result(self, inst: Inst, index: usize) -> (BuilderModel, Value) {
        let value = Value(self.values as usize);
        (
            BuilderModel {
                values: self.values + 1,
                ..self.record(CommandModel::InstResult { inst, index, value })
            },
            value,
        )
    }

    pub open spec fn change_jump_destination(self, inst: Inst, ebb: Ebb) -> BuilderModel {
        BuilderModel {
            redirected: self.redirected.update(inst.0 as int, true),
            ..self.record(CommandModel::ChangeJumpDestination { inst, ebb })
        }
    }

    /// Some step made a branch or an entry of a jump table go to the block:
    /// the block can be reached.
    pub open spec fn is_targeted(self, ebb: Ebb) -> bool {
        exists|i: int| 0 <= i < self.commands.len() && (#[trigger] self.commands[i]).leads_to(ebb)
    }

    /// The instruction is a branch that can still be redirected.
    pub open spec fn can_redirect(self, inst: Inst) -> bool {
        inst.0 < self.insts && !self.redirected[inst.0 as int]
    }

    pub open spec fn create_jump_table(self) -> (BuilderModel, JumpTable) {
        let table = JumpTable(self.jump_tables as usize);
        (
            BuilderModel {
                jump_tables: self.jump_tables + 1,
                ..self.record(CommandModel::CreateJumpTable(table))
            },
            table,
        )
    }

    pub open spec fn insert_jump_table_entry(self, table: JumpTable, index: usize, ebb: Ebb)
        -> BuilderModel {
        self.record(CommandModel::InsertJumpTableEntry { table, index, ebb })
    }

    pub open spec fn import_signature(self, signature: SignatureModel) -> (
        BuilderModel,
        SigRef,
    ) {
        let sigref = SigRef(self.signatures as usize);
        (
            BuilderModel {
                signatures: self.signatures + 1,
                ..self.record(CommandModel::ImportSignature { sigref, signature })
            },
            sigref,
        )
    }

    pub open spec fn import_function(self, name: Seq<char>, sigref: SigRef) -> (
        BuilderModel,
        FuncRef,
    ) {
        let funcref = FuncRef(self.functions as usize);
        (
            BuilderModel {
                functions: self.functions + 1,
                ..self.record(CommandModel::ImportFunction { funcref, name, sigref })
            },
            funcref,
        )
    }
}

/// Records the construction of one function.
pub struct FunctionBuilder {
    commands: Vec<Command>,
    sealed: Vec<bool>,
    filled: Vec<bool>,
    params: Vec<Vec<Value>>,
    vars: Vec<ValueType>,
    position: Option<Ebb>,
    pristine: bool,
    redirected: Vec<bool>,
    values: usize,
    insts: usize,
    jump_tables: usize,
    signatures: usize,
    functions: usize,
}

impl View for FunctionBuilder {
    type V = BuilderModel;

    closed spec fn view(&self) -> BuilderModel {
        BuilderModel {
            commands: commands_view(self.commands@),
            sealed: self.sealed@,
            filled: self.filled@,
            params: self.params@.map_values(|p: Vec<Value>| p@),
            vars: self.vars@,
            position: self.position,
            pristine: self.pristine,
            redirected: self.redirected@,
            values: self.values as nat,
            insts: self.insts as nat,
            jump_tables: self.jump_tables as nat,
            signatures: self.signatures as nat,
            functions: self.functions as nat,
        }
    }
}

impl FunctionBuilder {
    /// A builder that has recorded nothing.
    pub fn new() -> (builder: FunctionBuilder)
        ensures
            builder@ == BuilderModel::empty(),
            builder@.wf(),
    {
        let builder = FunctionBuilder {
            commands: Vec::new(),
            sealed: Vec::new(),
            filled: Vec::new(),
            params: Vec::new(),
            vars: Vec::new(),
            position: None,
            pristine: true,
            redirected: Vec::new(),
            values: 0,
            insts: 0,
            jump_tables: 0,
            signatures: 0,
            functions: 0,
        };
        assert(builder@.commands =~= seq![]);
        assert(builder@.params =~= seq![]);
        builder
    }

    fn record(&mut self, command: Command)
        ensures
            final(self)@ == old(self)@.record(command@),
            final(self).commands@.len() == old(self).commands@.len() + 1,
            final(self).commands@.len() <= usize::MAX,
            replay(final(self)@.commands) == match replay(old(self)@.commands) {
                Some(cursor) => cursor.apply(command@),
                None => None,
            },
    {
        proof {
            lemma_replay_push(commands_view(self.commands@), command@);
        }
        self.commands.push(command);
        let _steps: usize = self.commands.len();
        assert(commands_view(self.commands@) =~= commands_view(old(self).commands@).push(
            command@,
        ));
    }

    /// Makes a new block: empty, unsealed, without parameters.
    pub fn create_ebb(&mut self) -> (ebb: Ebb)
        requires
            old(self)@.wf(),
        ensures
            final(self)@.wf(),
            (final(self)@, ebb) == old(self)@.create_ebb(),
    {
        let ebb = Ebb(self.sealed.len());
        self.record(Command::CreateEbb(ebb));
        self.sealed.push(false);
        self.filled.push(false);
        self.params.push(Vec::new());
        assert(self@.params =~= old(self)@.params.push(seq![]));
        assert forall|e: int, i: int|
            0 <= e < self@.params.len() && 0 <= i < self@.params[e].len() implies self@.defines(
            #[trigger] self@.params[e][i],
        ) by {
            assert(e < old(self)@.params.len());
            assert(self@.params[e] == old(self)@.params[e]);
        }
        ebb
    }

    /// Gives the block one more parameter, of type `ty`, and returns it.
    pub fn append_ebb_arg(&mut self, ebb: Ebb, ty: ValueType) -> (value: Value)
        requires
            old(self)@.wf(),
            old(self)@.has_ebb(ebb),
        ensures
            final(self)@.wf(),
            (final(self)@, value) == old(self)@.append_ebb_arg(ebb, ty),
    {
        let value = Value(self.values);
        self.record(Command::AppendEbbArg { ebb, ty, value });
        let n: usize = self.commands.len();
        self.values = self.values + 1;
        let mut params = Vec::new();
        std::mem::swap(&mut params, &mut self.params);
        let mut list: Vec<Value> = Vec::new();
        std::mem::swap(&mut list, &mut params[ebb.0]);
        list.push(value);
        std::mem::swap(&mut list, &mut params[ebb.0]);
        std::mem::swap(&mut params, &mut self.params);
        assert(self@.params =~= old(self)@.params.update(
            ebb.0 as int,
            old(self)@.params[ebb.0 as int].push(value),
        ));
        value
    }
    /// Makes `ebb` the block that receives instructions. The block left
    /// behind is filled or untouched, and `ebb` is not filled.
    pub fn switch_to_block(&mut self, ebb: Ebb)
        requires
            old(self)@.wf(),
            old(self)@.has_ebb(ebb),
            !old(self)@.is_filled_ebb(ebb),
            old(self)@.can_leave(),
        ensures
            final(self)@.wf(),
            final(self)@ == old(self)@.switch_to_block(ebb),
    {
        self.record(Command::SwitchToBlock(ebb));
        self.position = Some(ebb);
        self.pristine = true;
    }

    /// Declares that every branch to `ebb` has been added.
    pub fn seal_block(&mut self, ebb: Ebb)
        requires
            old(self)@.wf(),
            old(self)@.has_ebb(ebb),
            !old(self)@.is_sealed(ebb),
        ensures
            final(self)@.wf(),
            final(self)@ == old(self)@.seal_block(ebb),
    {
        self.record(Command::SealBlock(ebb));
        self.sealed.set(ebb.0, true);
    }

    /// Declares the next variable. Variables are declared in the order of
    /// their numbers.
    pub fn declare_var(&mut self, var: Local, ty: ValueType)
        requires
            old(self)@.wf(),
            var.0 == old(self)@.vars.len(),
        ensures
            final(self)@.wf(),
            final(self)@ == old(self)@.declare_var(var, ty),
    {
        self.record(Command::DeclareVar { var, ty });
        self.vars.push(ty);
    }

    /// Binds a declared variable to a value.
    pub fn def_var(&mut self, var: Local, value: Value)
        requires
            old(self)@.wf(),
            var.0 < old(self)@.vars.len(),
            old(self)@.defines(value),
        ensures
            final(self)@.wf(),
            final(self)@ == old(self)@.def_var(var, value),
    {
        self.record(Command::DefVar { var, value });
    }

    /// The value that a declared variable holds at this point.
    pub fn use_var(&mut self, var: Local) -> (value: Value)
        requires
            old(self)@.wf(),
            var.0 < old(self)@.vars.len(),
        ensures
            final(self)@.wf(),
            (final(self)@, value) == old(self)@.use_var(var),
    {
        let value = Value(self.values);
        self.record(Command::UseVar { var, value });
        self.values = self.values + 1;
        value
    }

    /// Appends an instruction to the current block, which must not be filled.
    /// Returns its handle and, for the opcodes that have one, its result.
    pub fn ins(&mut self, header: InstHeader, args: Vec<Value>) -> (out: (Inst, Option<Value>))
        requires
            old(self)@.wf(),
            old(self)@.can_emit(),
            old(self)@.defines_all(args@),
            old(self)@.has_target(header.target),
        ensures
            final(self)@.wf(),
            (final(self)@, out.0, out.1) == old(self)@.ins(header, args@),
    {
        let inst = Inst(self.insts);
        let result = if header.opcode.has_result() {
            Some(Value(self.values))
        } else {
            None
        };
        self.record(Command::Ins { inst, header, args, result });
        self.insts = self.insts + 1;
        self.redirected.push(false);
        if result.is_some() {
            self.values = self.values + 1;
        }
        if header.opcode.is_terminator() {
            match self.position {
                Some(ebb) => {
                    self.filled.set(ebb.0, true);
                },
                None => {},
            }
        }
        self.pristine = false;
        (inst, result)
    }

    /// Result number `index` of the call `inst`.
    pub fn inst_result(&mut self, inst: Inst, index: usize) -> (value: Value)
        requires
            old(self)@.wf(),
            inst.0 < old(self)@.insts,
        ensures
            final(self)@.wf(),
            (final(self)@, value) == old(self)@.inst_result(inst, index),
    {
        let value = Value(self.values);
        self.record(Command::InstResult { inst, index, value });
        self.values = self.values + 1;
        value
    }

    /// Redirects the branch `inst` to `ebb`. A branch is redirected at most
    /// once.
    pub fn change_jump_destination(&mut self, inst: Inst, ebb: Ebb)
        requires
            old(self)@.wf(),
            old(self)@.can_redirect(inst),
            old(self)@.has_ebb(ebb),
        ensures
            final(self)@.wf(),
            final(self)@ == old(self)@.change_jump_destination(inst, ebb),
    {
        self.record(Command::ChangeJumpDestination { inst, ebb });
        self.redirected.set(inst.0, true);
    }

    /// Makes a new, empty jump table.
    pub fn create_jump_table(&mut self) -> (table: JumpTable)
        requires
            old(self)@.wf(),
        ensures
            final(self)@.wf(),
            (final(self)@, table) == old(self)@.create_jump_table(),
    {
        let table = JumpTable(self.jump_tables);
        self.record(Command::CreateJumpTable(table));
        self.jump_tables = self.jump_tables + 1;
        table
    }

    /// Sets entry `index` of a jump table.
    pub fn insert_jump_table_entry(&mut self, table: JumpTable, index: usize, ebb: Ebb)
        requires
            old(self)@.wf(),
            table.0 < old(self)@.jump_tables,
            old(self)@.has_ebb(ebb),
        ensures
            final(self)@.wf(),
            final(self)@ == old(self)@.insert_jump_table_entry(table, index, ebb),
    {
        self.record(Command::InsertJumpTableEntry { table, index, ebb });
    }

    /// Imports a signature for indirect calls and imported functions.
    pub fn import_signature(&mut self, signature: Signature) -> (sigref: SigRef)
        requires
            old(self)@.wf(),
        ensures
            final(self)@.wf(),
            (final(self)@, sigref) == old(self)@.import_signature(signature@),
    {
        let sigref = SigRef(self.signatures);
        self.record(Command::ImportSignature { sigref, signature });
        self.signatures = self.signatures + 1;
        sigref
    }

    /// Imports a function of an imported signature.
    pub fn import_function(&mut self, name: String, sigref: SigRef) -> (funcref: FuncRef)
        requires
            old(self)@.wf(),
            sigref.0 < old(self)@.signatures,
        ensures
            final(self)@.wf(),
            (final(self)@, funcref) == old(self)@.import_function(name@, sigref),
    {
        let funcref = FuncRef(self.functions);
        self.record(Command::ImportFunction { funcref, name, sigref });
        self.functions = self.functions + 1;
        funcref
    }

    /// The parameters of a block.
    pub fn ebb_args(&self, ebb: Ebb) -> (args: Vec<Value>)
        requires
            self@.wf(),
            self@.has_ebb(ebb),
        ensures
            args@ == self@.ebb_args(ebb),
    {
        copy_of(&self.params[ebb.0])
    }

    /// Whether a terminator closed the current block.
    pub fn is_filled(&self) -> (b: bool)
        requires
            self@.wf(),
        ensures
            b == self@.is_filled(),
    {
        match self.position {
            Some(ebb) => self.filled[ebb.0],
            None => false,
        }
    }

    /// Whether no instruction was added since the last change of block.
    pub fn is_pristine(&self) -> (b: bool)
        ensures
            b == self@.pristine,
    {
        self.pristine
    }

    /// Whether the branch `inst` can still be redirected.
    pub fn can_redirect(&self, inst: Inst) -> (b: bool)
        requires
            self@.wf(),
        ensures
            b == self@.can_redirect(inst),
    {
        inst.0 < self.insts && !self.redirected[inst.0]
    }

    /// Whether a branch or an entry of a jump table goes to `ebb`.
    pub fn is_targeted(&self, ebb: Ebb) -> (b: bool)
        ensures
            b == self@.is_targeted(ebb),
    {
        let mut i: usize = 0;
        while i < self.commands.len()
            invariant
                i <= self.commands.len(),
                forall|k: int| 0 <= k < i ==> !(#[trigger] self@.commands[k]).leads_to(ebb),
            decreases self.commands.len() - i,
        {
            let found = match &self.commands[i] {
                Command::Ins { header, .. } => match header.target {
                    Some(Target::Ebb(to)) => to == ebb,
                    _ => false,
                },
                Command::ChangeJumpDestination { ebb: to, .. } => *to == ebb,
                Command::InsertJumpTableEntry { ebb: to, .. } => *to == ebb,
                _ => false,
            };
            assert(self@.commands[i as int] == self.commands@[i as int]@);
            if found {
                return true;
            }
            i += 1;
        }
        false
    }

    /// Whether `ebb` is sealed.
    pub fn is_sealed(&self, ebb: Ebb) -> (b: bool)
        requires
            self@.wf(),
            self@.has_ebb(ebb),
        ensures
            b == self@.is_sealed(ebb),
    {
        self.sealed[ebb.0]
    }

    /// The block that receives instructions.
    pub fn current_ebb(&self) -> (ebb: Option<Ebb>)
        ensures
            ebb == self@.position,
    {
        self.position
    }

    /// The number of blocks made so far.
    pub fn num_ebbs(&self) -> (n: usize)
        ensures
            n == self@.num_ebbs(),
    {
        self.sealed.len()
    }

    /// The number of variables declared so far.
    pub fn num_vars(&self) -> (n: usize)
        ensures
            n == self@.vars.len(),
    {
        self.vars.len()
    }

    /// The number of functions imported so far.
    pub fn num_functions(&self) -> (n: usize)
        ensures
            n == self@.functions,
    {
        self.functions
    }

    /// The number of values made so far.
    pub fn num_values(&self) -> (n: usize)
        ensures
            n == self@.values,
    {
        self.values
    }

    /// The steps recorded so far, oldest first.
    pub fn commands(&self) -> (commands: &Vec<Command>)
        ensures
            commands_view(commands@) == self@.commands,
    {
        &self.commands
    }

    /// The recorded steps, oldest first.
    pub fn into_commands(self) -> (commands: Vec<Command>)
        ensures
            commands_view(commands@) == self@.commands,
    {
        self.commands
    }
}

} // verus!
