//! The state of the translation of one function: the operand stack, the
//! control stack, what is known of reachability, and the imports made so far.
use vstd::prelude::*;
use std::collections::HashMap;
use crate::ir::{Ebb, Value, Inst, FuncRef, SigRef, Signature};
use crate::builder::BuilderModel;
use crate::translation_utils::{FunctionIndex, SignatureIndex};

verus! {

/// One open structured construct. The result types of a frame are the types
/// of the parameters of its `destination`.
#[derive(Clone, Copy, Debug, PartialEq, Eq, Structural)]
pub enum ControlStackFrame {
    If {
        /// The block that follows the construct; until an `else` is met, it
        /// is also where the false arm begins.
        destination: Ebb,
        /// The conditional branch that an `else` redirects.
        branch_inst: Inst,
        num_return_values: usize,
        original_stack_size: usize,
    },
    Block { destination: Ebb, num_return_values: usize, original_stack_size: usize },
    Loop {
        destination: Ebb,
        /// Where branches to the loop go.
        header: Ebb,
        num_return_values: usize,
        original_stack_size: usize,
    },
}

impl ControlStackFrame {
    pub open spec fn spec_num_return_values(&self) -> usize {
        match *self {
            ControlStackFrame::If { num_return_values, .. } => num_return_values,
            ControlStackFrame::Block { num_return_values, .. } => num_return_values,
            ControlStackFrame::Loop { num_return_values, .. } => num_return_values,
        }
    }

    /// The number of values that the construct leaves on the stack.
    #[verifier::when_used_as_spec(spec_num_return_values)]
    pub fn num_return_values(&self) -> (n: usize)
        ensures
            n == self.spec_num_return_values(),
    {
        match *self {
            ControlStackFrame::If { num_return_values, .. } => num_return_values,
            ControlStackFrame::Block { num_return_values, .. } => num_return_values,
            ControlStackFrame::Loop { num_return_values, .. } => num_return_values,
        }
    }

    pub open spec fn spec_following_code(&self) -> Ebb {
        match *self {
            ControlStackFrame::If { destination, .. } => destination,
            ControlStackFrame::Block { destination, .. } => destination,
            ControlStackFrame::Loop { destination, .. } => destination,
        }
    }

    /// The block in which the code after the construct stands.
    #[verifier::when_used_as_spec(spec_following_code)]
    pub fn following_code(&self) -> (ebb: Ebb)
        ensures
            ebb == self.spec_following_code(),
    {
        match *self {
            ControlStackFrame::If { destination, .. } => destination,
            ControlStackFrame::Block { destination, .. } => destination,
            ControlStackFrame::Loop { destination, .. } => destination,
        }
    }

    pub open spec fn spec_br_destination(&self) -> Ebb {
        match *self {
            ControlStackFrame::If { destination, .. } => destination,
            ControlStackFrame::Block { destination, .. } => destination,
            ControlStackFrame::Loop { header, .. } => header,
        }
    }

    /// Where a branch to the construct goes: to a loop's header, to the
    /// block after a block or an `if`.
    #[verifier::when_used_as_spec(spec_br_destination)]
    pub fn br_destination(&self) -> (ebb: Ebb)
        ensures
            ebb == self.spec_br_destination(),
    {
        match *self {
            ControlStackFrame::If { destination, .. } => destination,
            ControlStackFrame::Block { destination, .. } => destination,
            ControlStackFrame::Loop { header, .. } => header,
        }
    }

    pub open spec fn spec_original_stack_size(&self) -> usize {
        match *self {
            ControlStackFrame::If { original_stack_size, .. } => original_stack_size,
            ControlStackFrame::Block { original_stack_size, .. } => original_stack_size,
            ControlStackFrame::Loop { original_stack_size, .. } => original_stack_size,
        }
    }

    /// The height of the operand stack when the construct was entered.
    #[verifier::when_used_as_spec(spec_original_stack_size)]
    pub fn original_stack_size(&self) -> (n: usize)
        ensures
            n == self.spec_original_stack_size(),
    {
        match *self {
            ControlStackFrame::If { original_stack_size, .. } => original_stack_size,
            ControlStackFrame::Block { original_stack_size, .. } => original_stack_size,
            ControlStackFrame::Loop { original_stack_size, .. } => original_stack_size,
        }
    }

    /// The conditional branch of an `if`.
    pub open spec fn spec_branch(&self) -> Option<Inst> {
        match *self {
            ControlStackFrame::If { branch_inst, .. } => Some(branch_inst),
            _ => None,
        }
    }

    pub open spec fn spec_is_loop(&self) -> bool {
        *self is Loop
    }

    #[verifier::when_used_as_spec(spec_is_loop)]
    pub fn is_loop(&self) -> (b: bool)
        ensures
            b == self.spec_is_loop(),
    {
        match *self {
            ControlStackFrame::Loop { .. } => true,
            _ => false,
        }
    }

    pub open spec fn spec_is_if(&self) -> bool {
        *self is If
    }

    #[verifier::when_used_as_spec(spec_is_if)]
    pub fn is_if(&self) -> (b: bool)
        ensures
            b == self.spec_is_if(),
    {
        match *self {
            ControlStackFrame::If { .. } => true,
            _ => false,
        }
    }

    pub open spec fn spec_br_arity(&self) -> usize {
        if *self is Loop {
            0
        } else {
            self.spec_num_return_values()
        }
    }

    /// The number of values that a branch to the construct carries: none to
    /// a loop, which is entered again at its header, and the results
    /// otherwise.
    #[verifier::when_used_as_spec(spec_br_arity)]
    pub fn br_arity(&self) -> (n: usize)
        ensures
            n == self.spec_br_arity(),
    {
        if self.is_loop() {
            0
        } else {
            self.num_return_values()
        }
    }
}

/// What the translation knows of reachability.
#[derive(Debug)]
pub struct TranslationState {
    /// Whether the last instruction emitted was a return.
    pub last_inst_return: bool,
    /// The number of constructs opened in unreachable code and not yet closed.
    pub phantom_unreachable_stack_depth: usize,
    /// The number of open constructs whose `end` must pass before code is
    /// emitted again.
    pub real_unreachable_stack_depth: usize,
    /// The blocks that a `br_table` goes to.
    pub br_table_reachable_ebbs: Vec<Ebb>,
}

/// The functions and signatures that the function under translation has
/// imported, by their indices in the module.
#[derive(Debug)]
pub struct FunctionImports {
    /// Mappings index in function index space -> index in function local imports
    pub functions: HashMap<FunctionIndex, FuncRef>,
    pub signatures: HashMap<SignatureIndex, SigRef>,
}

impl FunctionImports {
    pub fn new() -> (imports: FunctionImports)
        ensures
            imports.functions@ == Map::<FunctionIndex, FuncRef>::empty(),
            imports.signatures@ == Map::<SignatureIndex, SigRef>::empty(),
    {
        FunctionImports { functions: HashMap::new(), signatures: HashMap::new() }
    }
}

/// What the translation of a function body reads of its module.
pub struct ModuleModel {
    /// The signatures of the type section.
    pub signatures: Seq<Signature>,
    /// For each function, the index of its signature.
    pub functions: Seq<SignatureIndex>,
    /// The names under which functions are exported, if the module has an
    /// export section.
    pub exports: Option<Map<FunctionIndex, String>>,
}

impl ModuleModel {
    /// The name under which a function is exported; empty if it is not.
    pub open spec fn export_name(self, index: FunctionIndex) -> Seq<char> {
        match self.exports {
            Some(names) => if names.contains_key(index) {
                names[index]@
            } else {
                Seq::<char>::empty()
            },
            None => Seq::<char>::empty(),
        }
    }

    /// Every function has a signature of the module.
    pub open spec fn wf(self) -> bool {
        forall|i: int|
            0 <= i < self.functions.len() ==> #[trigger] self.functions[i] < self.signatures.len()
    }
}

/// The mathematical content of the state of a translation.
pub struct TranslationModel {
    pub builder: BuilderModel,
    /// The operand stack, top last.
    pub stack: Seq<Value>,
    /// The open constructs, innermost last. The first is the function body.
    pub control_stack: Seq<ControlStackFrame>,
    pub last_inst_return: bool,
    pub phantom_depth: int,
    pub real_depth: int,
    pub reachable_ebbs: Seq<Ebb>,
    pub functions: Map<FunctionIndex, FuncRef>,
    pub signatures: Map<SignatureIndex, SigRef>,
}

impl TranslationModel {
    /// Code met now is translated.
    pub open spec fn reachable(self) -> bool {
        self.real_depth == 0 && self.phantom_depth == 0
    }

    /// The innermost open construct.
    pub open spec fn top(self) -> ControlStackFrame {
        self.control_stack.last()
    }

    /// The open construct at a relative depth; the innermost has depth 0.
    pub open spec fn frame_at(self, depth: int) -> ControlStackFrame {
        self.control_stack[self.control_stack.len() - 1 - depth]
    }

    /// The `n` topmost operands, in the order in which they were pushed.
    pub open spec fn top_values(self, n: int) -> Seq<Value> {
        self.stack.subrange(self.stack.len() - n, self.stack.len() as int)
    }

    /// The operand stack without its `n` topmost operands.
    pub open spec fn below_top(self, n: int) -> Seq<Value> {
        self.stack.subrange(0, self.stack.len() - n)
    }

    /// The innermost construct has `n` operands of its own on the stack.
    pub open spec fn has_operands(self, n: int) -> bool {
        self.control_stack.len() > 0 && self.top().spec_original_stack_size() + n
            <= self.stack.len()
    }

    /// Each frame's blocks exist. The block after a construct is neither
    /// sealed nor filled nor current before the construct ends, and has one
    /// parameter for each result. A loop's header is not sealed. The branch
    /// of an `if` is an instruction.
    pub open spec fn frame_ok(self, frame: ControlStackFrame) -> bool {
        let exit = frame.spec_following_code();
        &&& self.builder.has_ebb(exit)
        &&& !self.builder.is_sealed(exit)
        &&& !self.builder.is_filled_ebb(exit)
        &&& self.builder.position != Some(exit)
        &&& self.builder.ebb_args(exit).len() == frame.spec_num_return_values()
        &&& match frame {
            ControlStackFrame::Loop { header, .. } => self.builder.has_ebb(header)
                && !self.builder.is_sealed(header) && header != exit,
            ControlStackFrame::If { branch_inst, .. } => branch_inst.0 < self.builder.insts,
            _ => true,
        }
    }

    pub open spec fn frames_ok(self) -> bool {
        forall|i: int|
            0 <= i < self.control_stack.len() ==> self.frame_ok(#[trigger] self.control_stack[i])
    }

    /// No block and no branch belongs to two frames.
    pub open spec fn frames_distinct(self) -> bool {
        forall|i: int, j: int|
            0 <= i < self.control_stack.len() && 0 <= j < self.control_stack.len() && i != j ==> {
                let a = #[trigger] self.control_stack[i];
                let b = #[trigger] self.control_stack[j];
                &&& a.spec_following_code() != b.spec_following_code()
                &&& a.spec_br_destination() != b.spec_following_code()
                &&& a.spec_br_destination() != b.spec_br_destination()
                &&& a.spec_branch() is Some ==> a.spec_branch() != b.spec_branch()
            }
    }

    /// The stack heights recorded in the frames do not decrease from the
    /// function body inwards, and the stack is at least as high as the
    /// innermost frame recorded.
    pub open spec fn heights_ok(self) -> bool {
        &&& forall|i: int, j: int|
            0 <= i <= j < self.control_stack.len() ==> (
            #[trigger] self.control_stack[i]).spec_original_stack_size() <= (
            #[trigger] self.control_stack[j]).spec_original_stack_size()
        &&& self.control_stack.len() > 0 ==> self.top().spec_original_stack_size()
            <= self.stack.len()
    }

    /// The imports recorded were made with the builder.
    pub open spec fn imports_ok(self) -> bool {
        &&& forall|i: FunctionIndex| #[trigger]
            self.functions.contains_key(i) ==> self.functions[i].0 < self.builder.functions
        &&& forall|i: SignatureIndex| #[trigger]
            self.signatures.contains_key(i) ==> self.signatures[i].0 < self.builder.signatures
    }

    /// The state between two operators of a function body.
    pub open spec fn wf(self) -> bool {
        &&& self.builder.wf()
        &&& self.builder.defines_all(self.stack)
        &&& self.control_stack.len() >= 1
        &&& self.control_stack[0] is Block
        &&& self.frames_ok()
        &&& self.frames_distinct()
        &&& self.heights_ok()
        &&& self.imports_ok()
        &&& 0 <= self.phantom_depth <= usize::MAX
        &&& 0 <= self.real_depth <= self.control_stack.len()
        &&& self.control_stack.len() <= usize::MAX
        &&& self.stack.len() <= usize::MAX
        &&& (self.phantom_depth > 0 ==> self.real_depth > 0)
        &&& (self.last_inst_return ==> self.real_depth > 0)
        &&& if self.real_depth == 0 {
            self.builder.can_emit()
        } else {
            self.builder.position is Some && self.builder.can_leave()
        }
    }
}

} // verus!
