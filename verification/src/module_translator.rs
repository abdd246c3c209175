//! The translation of a whole module: the sections before the code are
//! read, what they declare is handed to the runtime, and the function
//! bodies are translated one by one.
use vstd::prelude::*;
use std::collections::HashMap;
use crate::ir::{Function, Signature, SignatureModel, commands_view};
use crate::builder::replay;
use crate::code_translator::{FuncTranslator, ModuleContext, translate_next, finish_body};
use crate::operator::WasmOperator;
use crate::parser_state::{Record, SectionCode, read_module, records};
use crate::runtime::runtime::{Global, Table, Memory, WasmRuntime};
use crate::sections_translator::{ElementsEntry, ElementsModel, signatures_view, signatures_from,
                                 imports_from, functions_from, memories_from, tables_from,
                                 globals_from, exports_from, elements_from, elements_view,
                                 names_of, parse_function_signatures, parse_import_section,
                                 parse_function_section, parse_memory_section,
                                 parse_table_section, parse_global_section, parse_export_section,
                                 parse_elements_section};
use crate::semantics::{FunctionModel, translate_body, function_model, function_of_translation};
use crate::state::{FunctionImports, ModuleModel, TranslationModel};
use crate::translation_utils::{FunctionIndex, SignatureIndex, WasmType, Import, ErrorKind,
                               TranslationError};

verus! {

/// The imports of a translated function, from the numbers of their handles
/// to the indices in the module.
#[derive(Debug)]
pub struct ImportMappings {
    /// From the number of a function's handle to the function's index.
    pub functions: HashMap<usize, FunctionIndex>,
    /// From the number of a signature's handle to the signature's index.
    pub signatures: HashMap<usize, SignatureIndex>,
}

impl ImportMappings {
    pub fn new() -> (mappings: ImportMappings)
        ensures
            mappings.functions@ == Map::<usize, FunctionIndex>::empty(),
            mappings.signatures@ == Map::<usize, SignatureIndex>::empty(),
    {
        ImportMappings { functions: HashMap::new(), signatures: HashMap::new() }
    }
}

/// A function of a translated module.
#[derive(Debug)]
pub enum FunctionTranslation {
    /// A function of the module, translated, with the imports of its calls.
    Code { il: Function, imports: FunctionImports },
    /// A function that the module imports.
    Import(),
}

/// What a function of a translated module holds.
pub enum FunctionTranslationModel {
    Code(FunctionModel),
    Import,
}

impl View for FunctionTranslation {
    type V = FunctionTranslationModel;

    open spec fn view(&self) -> FunctionTranslationModel {
        match *self {
            FunctionTranslation::Code { il, imports } => FunctionTranslationModel::Code(
                function_model(il, imports),
            ),
            FunctionTranslation::Import() => FunctionTranslationModel::Import,
        }
    }
}

/// The contents of a list of translated functions.
pub open spec fn translations_view(functions: Seq<FunctionTranslation>) -> Seq<
    FunctionTranslationModel,
> {
    functions.map_values(|f: FunctionTranslation| f@)
}

/// The steps of every translated function of a list can be replayed.
pub open spec fn can_be_replayed(functions: Seq<FunctionTranslation>) -> bool {
    forall|i: int|
        0 <= i < functions.len() ==> (match #[trigger] functions[i] {
            FunctionTranslation::Code { il, .. } => replay(commands_view(il.commands@)) is Some,
            FunctionTranslation::Import() => true,
        })
}

/// A translated module.
#[derive(Debug)]
pub struct TranslationResult {
    /// The functions, in the order of the function index space.
    pub functions: Vec<FunctionTranslation>,
    /// The function to run when the module is instantiated.
    pub start_index: Option<FunctionIndex>,
}

/// Why a module could not be translated.
#[derive(Clone, Copy, Debug, PartialEq, Eq, Structural)]
pub enum ModuleError {
    /// The records do not begin as those of a module do.
    BadBeginning,
    TypeSection,
    ImportSection,
    FunctionSection,
    TableSection,
    MemorySection,
    GlobalSection,
    ExportSection,
    StartSection,
    ElementSection,
    /// Something stands between the sections that does not belong there.
    Preamble,
    /// The module has code but no functions.
    MissingFunctionSection,
    /// A function has a signature that the module does not declare.
    UnknownSignature,
    CodeSection,
    /// The runtime cannot take what the module declares.
    Runtime,
    /// A function body could not be translated.
    Function { kind: ErrorKind, location: Option<usize> },
}

impl ModuleError {
    /// The message that goes with the error.
    pub open spec fn spec_message(self) -> Seq<char> {
        match self {
            ModuleError::BadBeginning => "modules should begin properly"@,
            ModuleError::TypeSection => "wrong content in the type section"@,
            ModuleError::ImportSection => "wrong content in the import section"@,
            ModuleError::FunctionSection => "wrong content in the function section"@,
            ModuleError::TableSection => "wrong content in the table section"@,
            ModuleError::MemorySection => "wrong content in the memory section"@,
            ModuleError::GlobalSection => "wrong content in the global section"@,
            ModuleError::ExportSection => "wrong content in the export section"@,
            ModuleError::StartSection => "wrong content in the start section"@,
            ModuleError::ElementSection => "wrong content in the element section"@,
            ModuleError::Preamble => "wrong content in the preamble"@,
            ModuleError::MissingFunctionSection => "missing a function section"@,
            ModuleError::UnknownSignature => "function of an unknown signature"@,
            ModuleError::CodeSection => "wrong content in code section"@,
            ModuleError::Runtime => "the runtime cannot take what the module declares"@,
            ModuleError::Function { kind, .. } => kind.spec_message(),
        }
    }

    /// The message that goes with the error.
    pub fn message(self) -> (message: String)
        ensures
            message@ == self.spec_message(),
    {
        match self {
            ModuleError::BadBeginning => "modules should begin properly".to_owned(),
            ModuleError::TypeSection => "wrong content in the type section".to_owned(),
            ModuleError::ImportSection => "wrong content in the import section".to_owned(),
            ModuleError::FunctionSection => "wrong content in the function section".to_owned(),
            ModuleError::TableSection => "wrong content in the table section".to_owned(),
            ModuleError::MemorySection => "wrong content in the memory section".to_owned(),
            ModuleError::GlobalSection => "wrong content in the global section".to_owned(),
            ModuleError::ExportSection => "wrong content in the export section".to_owned(),
            ModuleError::StartSection => "wrong content in the start section".to_owned(),
            ModuleError::ElementSection => "wrong content in the element section".to_owned(),
            ModuleError::Preamble => "wrong content in the preamble".to_owned(),
            ModuleError::MissingFunctionSection => "missing a function section".to_owned(),
            ModuleError::UnknownSignature => "function of an unknown signature".to_owned(),
            ModuleError::CodeSection => "wrong content in code section".to_owned(),
            ModuleError::Runtime => "the runtime cannot take what the module declares".to_owned(),
            ModuleError::Function { kind, .. } => kind.message(),
        }
    }
}

/// Something that a module declares to the runtime.
pub enum Declaration {
    Memory(Memory),
    Global(Global),
    Table(Table),
    Elements(ElementsEntry),
}

/// The mathematical content of a [`Declaration`].
pub enum DeclarationModel {
    Memory(Memory),
    Global(Global),
    Table(Table),
    Elements(ElementsModel),
}

impl View for Declaration {
    type V = DeclarationModel;

    open spec fn view(&self) -> DeclarationModel {
        match *self {
            Declaration::Memory(memory) => DeclarationModel::Memory(memory),
            Declaration::Global(global) => DeclarationModel::Global(global),
            Declaration::Table(table) => DeclarationModel::Table(table),
            Declaration::Elements(entry) => DeclarationModel::Elements(entry@),
        }
    }
}

/// The contents of a list of declarations.
pub open spec fn declarations_view(declarations: Seq<Declaration>) -> Seq<DeclarationModel> {
    declarations.map_values(|d: Declaration| d@)
}

/// What the sections before the code say.
pub struct Preamble {
    /// The signatures of the type section.
    pub signatures: Vec<Signature>,
    /// For each function, imported or not, the index of its signature.
    pub functions: Option<Vec<SignatureIndex>>,
    /// The number of imported functions: they are the first functions.
    pub function_imports_count: usize,
    /// What is declared to the runtime, in the order of the module.
    pub declarations: Vec<Declaration>,
    /// The globals, imported or not.
    pub globals: Vec<Global>,
    /// The names of the exported functions.
    pub exports: Option<HashMap<FunctionIndex, String>>,
    pub start_index: Option<FunctionIndex>,
    /// The position of the first record of the code section, if the module
    /// has one.
    pub code: Option<usize>,
}

/// The mathematical content of a [`Preamble`].
pub struct PreambleModel {
    pub signatures: Seq<SignatureModel>,
    pub functions: Option<Seq<SignatureIndex>>,
    pub function_imports_count: nat,
    pub declarations: Seq<DeclarationModel>,
    pub globals: Seq<Global>,
    pub exports: Option<Map<FunctionIndex, Seq<char>>>,
    pub start_index: Option<FunctionIndex>,
    pub code: Option<usize>,
}

impl View for Preamble {
    type V = PreambleModel;

    open spec fn view(&self) -> PreambleModel {
        PreambleModel {
            signatures: signatures_view(self.signatures@),
            functions: match self.functions {
                Some(functions) => Some(functions@),
                None => None,
            },
            function_imports_count: self.function_imports_count as nat,
            declarations: declarations_view(self.declarations@),
            globals: self.globals@,
            exports: match self.exports {
                Some(exports) => Some(names_of(exports@)),
                None => None,
            },
            start_index: self.start_index,
            code: self.code,
        }
    }
}

impl PreambleModel {
    /// What a module without sections says.
    pub open spec fn empty() -> PreambleModel {
        PreambleModel {
            signatures: seq![],
            functions: None,
            function_imports_count: 0,
            declarations: seq![],
            globals: seq![],
            exports: None,
            start_index: None,
            code: None,
        }
    }

    /// The imported functions are among the functions.
    /// The module declares nothing and has no code: it asks nothing of a
    /// runtime.
    pub open spec fn asks_nothing(self) -> bool {
        self.code is None && self.declarations.len() == 0
    }

    pub open spec fn counted(self) -> bool {
        match self.functions {
            Some(functions) => self.function_imports_count <= functions.len(),
            None => self.function_imports_count == 0,
        }
    }

    /// The functions with one more.
    pub open spec fn with_function(self, sig_index: SignatureIndex) -> PreambleModel {
        PreambleModel {
            functions: match self.functions {
                Some(functions) => Some(functions.push(sig_index)),
                None => Some(seq![sig_index]),
            },
            ..self
        }
    }

    /// The preamble after an import: an imported function is a function of
    /// the module, and an imported memory, global or table is declared.
    pub open spec fn with_import(self, import: Import) -> PreambleModel {
        match import {
            Import::Function { sig_index } => PreambleModel {
                function_imports_count: self.function_imports_count + 1,
                ..self.with_function(sig_index as usize)
            },
            Import::Memory(memory) => PreambleModel {
                declarations: self.declarations.push(DeclarationModel::Memory(memory)),
                ..self
            },
            Import::Global(global) => PreambleModel {
                declarations: self.declarations.push(DeclarationModel::Global(global)),
                globals: self.globals.push(global),
                ..self
            },
            Import::Table(table) => PreambleModel {
                declarations: self.declarations.push(DeclarationModel::Table(table)),
                ..self
            },
        }
    }

    /// The preamble after the first `n` of a list of imports.
    pub open spec fn with_imports(self, imports: Seq<Import>, n: int) -> PreambleModel
        decreases n,
    {
        if n <= 0 {
            self
        } else {
            self.with_imports(imports, n - 1).with_import(imports[n - 1])
        }
    }

    /// The preamble after the function section.
    pub open spec fn with_functions(self, functions: Seq<SignatureIndex>) -> PreambleModel {
        PreambleModel {
            functions: match self.functions {
                Some(imported) => Some(imported + functions),
                None => Some(functions),
            },
            ..self
        }
    }

    /// The preamble after the table section.
    pub open spec fn with_tables(self, tables: Seq<Table>) -> PreambleModel {
        PreambleModel {
            declarations: self.declarations + tables.map_values(
                |t: Table| DeclarationModel::Table(t),
            ),
            ..self
        }
    }

    /// The preamble after the memory section.
    pub open spec fn with_memories(self, memories: Seq<Memory>) -> PreambleModel {
        PreambleModel {
            declarations: self.declarations + memories.map_values(
                |m: Memory| DeclarationModel::Memory(m),
            ),
            ..self
        }
    }

    /// The preamble after the global section.
    pub open spec fn with_globals(self, globals: Seq<Global>) -> PreambleModel {
        PreambleModel {
            declarations: self.declarations + globals.map_values(
                |g: Global| DeclarationModel::Global(g),
            ),
            globals: self.globals + globals,
            ..self
        }
    }

    /// The preamble after the element section.
    pub open spec fn with_elements(self, entries: Seq<ElementsModel>) -> PreambleModel {
        PreambleModel {
            declarations: self.declarations + entries.map_values(
                |e: ElementsModel| DeclarationModel::Elements(e),
            ),
            ..self
        }
    }
}

/// What the sections say that begin at `pos`, added to what the sections
/// before said, or the section that holds what does not belong to it. The
/// sections are taken as they come, up to the beginning of the code section
/// or to the end of the module. The contents of the data section are not
/// among the records.
pub open spec fn preamble_from(states: Seq<Record>, pos: int, said: PreambleModel) -> Result<
    PreambleModel,
    ModuleError,
>
    decreases states.len() - pos,
{
    if pos < 0 || pos >= states.len() {
        Err(ModuleError::Preamble)
    } else {
        match states[pos] {
            Record::BeginSection { code } => match code {
                SectionCode::Type => match signatures_from(states, pos + 1) {
                    Some((signatures, end)) if pos < end <= states.len() => preamble_from(
                        states,
                        end,
                        PreambleModel { signatures, ..said },
                    ),
                    _ => Err(ModuleError::TypeSection),
                },
                SectionCode::Import => match imports_from(states, pos + 1) {
                    Some((imports, end)) if pos < end <= states.len() => preamble_from(
                        states,
                        end,
                        said.with_imports(imports, imports.len() as int),
                    ),
                    _ => Err(ModuleError::ImportSection),
                },
                SectionCode::Function => match functions_from(states, pos + 1) {
                    Some((functions, end)) if pos < end <= states.len() => preamble_from(
                        states,
                        end,
                        said.with_functions(functions),
                    ),
                    _ => Err(ModuleError::FunctionSection),
                },
                SectionCode::Table => match tables_from(states, pos + 1) {
                    Some((tables, end)) if pos < end <= states.len() => preamble_from(
                        states,
                        end,
                        said.with_tables(tables),
                    ),
                    _ => Err(ModuleError::TableSection),
                },
                SectionCode::Memory => match memories_from(states, pos + 1) {
                    Some((memories, end)) if pos < end <= states.len() => preamble_from(
                        states,
                        end,
                        said.with_memories(memories),
                    ),
                    _ => Err(ModuleError::MemorySection),
                },
                SectionCode::Global => match globals_from(states, pos + 1) {
                    Some((globals, end)) if pos < end <= states.len() => preamble_from(
                        states,
                        end,
                        said.with_globals(globals),
                    ),
                    _ => Err(ModuleError::GlobalSection),
                },
                SectionCode::Export => match exports_from(states, pos + 1, Map::empty()) {
                    Some((exports, end)) if pos < end <= states.len() => preamble_from(
                        states,
                        end,
                        PreambleModel { exports: Some(exports), ..said },
                    ),
                    _ => Err(ModuleError::ExportSection),
                },
                SectionCode::Start => if pos + 2 < states.len() && states[pos + 2] is EndSection {
                    match states[pos + 1] {
                        Record::StartSectionEntry(index) => preamble_from(
                            states,
                            pos + 3,
                            PreambleModel { start_index: Some(index as usize), ..said },
                        ),
                        _ => Err(ModuleError::StartSection),
                    }
                } else {
                    Err(ModuleError::StartSection)
                },
                SectionCode::Element => match elements_from(states, pos + 1, said.globals) {
                    Some((entries, end)) if pos < end <= states.len() => preamble_from(
                        states,
                        end,
                        said.with_elements(entries),
                    ),
                    _ => Err(ModuleError::ElementSection),
                },
                SectionCode::Data => preamble_from(states, pos + 1, said),
                SectionCode::Code => Ok(PreambleModel { code: Some((pos + 1) as usize), ..said }),
                SectionCode::Custom => Err(ModuleError::Preamble),
            },
            Record::EndSection => preamble_from(states, pos + 1, said),
            Record::EndWasm => Ok(said),
            _ => Err(ModuleError::Preamble),
        }
    }
}

/// What the sections of a module say before its code.
pub open spec fn preamble_of(states: Seq<Record>) -> Result<PreambleModel, ModuleError> {
    if states.len() > 0 && states[0] is BeginWasm {
        preamble_from(states, 1, PreambleModel::empty())
    } else {
        Err(ModuleError::BadBeginning)
    }
}

impl Preamble {
    /// What a module without sections says.
    fn empty() -> (preamble: Preamble)
        ensures
            preamble@ == PreambleModel::empty(),
    {
        let preamble = Preamble {
            signatures: Vec::new(),
            functions: None,
            function_imports_count: 0,
            declarations: Vec::new(),
            globals: Vec::new(),
            exports: None,
            start_index: None,
            code: None,
        };
        assert(preamble@.signatures =~= seq![]);
        assert(preamble@.declarations =~= seq![]);
        assert(preamble@.globals =~= seq![]);
        preamble
    }

    fn add_function(&mut self, sig_index: SignatureIndex)
        ensures
            final(self)@ == old(self)@.with_function(sig_index),
            final(self)@.functions matches Some(functions) && functions.len() <= usize::MAX,
    {
        let mut functions = match self.functions.take() {
            Some(functions) => functions,
            None => Vec::new(),
        };
        functions.push(sig_index);
        assert(old(self).functions is None ==> functions@ =~= seq![sig_index]);
        assert(functions@.len() == functions.len());
        self.functions = Some(functions);
    }

    fn declare(&mut self, declaration: Declaration)
        ensures
            final(self)@ == (PreambleModel {
                declarations: old(self)@.declarations.push(declaration@),
                ..old(self)@
            }),
    {
        self.declarations.push(declaration);
        assert(declarations_view(self.declarations@) =~= declarations_view(
            old(self).declarations@,
        ).push(declaration@));
    }

    fn add_imports(&mut self, imports: &Vec<Import>)
        requires
            old(self)@.counted(),
        ensures
            final(self)@ == old(self)@.with_imports(imports@, imports@.len() as int),
            final(self)@.counted(),
    {
        let mut i: usize = 0;
        while i < imports.len()
            invariant
                i <= imports.len(),
                self@ == old(self)@.with_imports(imports@, i as int),
                self@.counted(),
            decreases imports.len() - i,
        {
            match imports[i] {
                Import::Function { sig_index } => {
                    self.add_function(sig_index as usize);
                    self.function_imports_count += 1;
                },
                Import::Memory(memory) => {
                    self.declare(Declaration::Memory(memory));
                },
                Import::Global(global) => {
                    self.declare(Declaration::Global(global));
                    self.globals.push(global);
                },
                Import::Table(table) => {
                    self.declare(Declaration::Table(table));
                },
            }
            i += 1;
        }
    }

    fn add_functions(&mut self, functions: Vec<SignatureIndex>)
        ensures
            final(self)@ == old(self)@.with_functions(functions@),
    {
        let mut functions = functions;
        match self.functions.take() {
            Some(imported) => {
                let mut all = imported;
                all.append(&mut functions);
                self.functions = Some(all);
            },
            None => {
                self.functions = Some(functions);
            },
        }
    }

    fn add_tables(&mut self, tables: &Vec<Table>)
        ensures
            final(self)@ == old(self)@.with_tables(tables@),
    {
        let mut i: usize = 0;
        assert(old(self)@.declarations + tables@.subrange(0, 0).map_values(
            |t: Table| DeclarationModel::Table(t),
        ) =~= old(self)@.declarations);
        while i < tables.len()
            invariant
                i <= tables.len(),
                self@ == (PreambleModel {
                    declarations: old(self)@.declarations + tables@.subrange(0, i as int).map_values(
                        |t: Table| DeclarationModel::Table(t),
                    ),
                    ..old(self)@
                }),
            decreases tables.len() - i,
        {
            let ghost before = self@.declarations;
            self.declare(Declaration::Table(tables[i]));
            assert(before.push(DeclarationModel::Table(tables@[i as int])) =~= old(self)@.declarations + tables@.subrange(0, i + 1).map_values(
                |t: Table| DeclarationModel::Table(t),
            ));
            i += 1;
        }
        assert(tables@.subrange(0, tables.len() as int) =~= tables@);
    }

    fn add_memories(&mut self, memories: &Vec<Memory>)
        ensures
            final(self)@ == old(self)@.with_memories(memories@),
    {
        let mut i: usize = 0;
        assert(old(self)@.declarations + memories@.subrange(0, 0).map_values(
            |m: Memory| DeclarationModel::Memory(m),
        ) =~= old(self)@.declarations);
        while i < memories.len()
            invariant
                i <= memories.len(),
                self@ == (PreambleModel {
                    declarations: old(self)@.declarations + memories@.subrange(
                        0,
                        i as int,
                    ).map_values(|m: Memory| DeclarationModel::Memory(m)),
                    ..old(self)@
                }),
            decreases memories.len() - i,
        {
            let ghost before = self@.declarations;
            self.declare(Declaration::Memory(memories[i]));
            assert(before.push(DeclarationModel::Memory(memories@[i as int])) =~= old(self)@.declarations + memories@.subrange(0, i + 1).map_values(
                |m: Memory| DeclarationModel::Memory(m),
            ));
            i += 1;
        }
        assert(memories@.subrange(0, memories.len() as int) =~= memories@);
    }

    fn add_globals(&mut self, globals: &Vec<Global>)
        ensures
            final(self)@ == old(self)@.with_globals(globals@),
    {
        let mut i: usize = 0;
        assert(old(self)@.declarations + globals@.subrange(0, 0).map_values(
            |g: Global| DeclarationModel::Global(g),
        ) =~= old(self)@.declarations);
        assert(old(self)@.globals + globals@.subrange(0, 0) =~= old(self)@.globals);
        while i < globals.len()
            invariant
                i <= globals.len(),
                self@ == (PreambleModel {
                    declarations: old(self)@.declarations + globals@.subrange(
                        0,
                        i as int,
                    ).map_values(|g: Global| DeclarationModel::Global(g)),
                    globals: old(self)@.globals + globals@.subrange(0, i as int),
                    ..old(self)@
                }),
            decreases globals.len() - i,
        {
            let ghost before = self@;
            self.declare(Declaration::Global(globals[i]));
            self.globals.push(globals[i]);
            assert(before.declarations.push(DeclarationModel::Global(globals@[i as int])) =~= old(self)@.declarations + globals@.subrange(0, i + 1).map_values(
                |g: Global| DeclarationModel::Global(g),
            ));
            assert(before.globals.push(globals@[i as int]) =~= old(self)@.globals
                + globals@.subrange(0, i + 1));
            i += 1;
        }
        assert(globals@.subrange(0, globals.len() as int) =~= globals@);
    }

    fn add_elements(&mut self, entries: Vec<ElementsEntry>)
        ensures
            final(self)@ == old(self)@.with_elements(elements_view(entries@)),
    {
        let ghost all = elements_view(entries@);
        let ghost start = self@.declarations;
        assert(start + all.subrange(0, 0).map_values(
            |e: ElementsModel| DeclarationModel::Elements(e),
        ) =~= start);
        for entry in iter: entries
            invariant
                all == elements_view(iter.seq()),
                self@ == (PreambleModel {
                    declarations: start + all.subrange(0, iter.index() as int).map_values(
                        |e: ElementsModel| DeclarationModel::Elements(e),
                    ),
                    ..old(self)@
                }),
        {
            let ghost declared = self@.declarations;
            let ghost model = entry@;
            self.declare(Declaration::Elements(entry));
            assert(declared.push(DeclarationModel::Elements(model)) =~= start + all.subrange(
                0,
                iter.index() + 1,
            ).map_values(|e: ElementsModel| DeclarationModel::Elements(e)));
        }
        assert(all.subrange(0, all.len() as int) =~= all);
    }
}

/// Whether a record begins a module.
fn begins_module(state: &Record) -> (b: bool)
    ensures
        b == (*state is BeginWasm),
{
    match state {
        Record::BeginWasm { .. } => true,
        _ => false,
    }
}

/// Reads the sections of a module up to the beginning of its code.
pub fn parse_preamble(states: &Vec<Record>) -> (res: Result<Preamble, ModuleError>)
    ensures
        res matches Ok(preamble) ==> preamble@.counted(),
        match res {
            Ok(preamble) => preamble_of(states@) == Ok::<PreambleModel, ModuleError>(preamble@),
            Err(error) => preamble_of(states@) == Err::<PreambleModel, ModuleError>(error),
        },
{
    if states.len() == 0 || !begins_module(&states[0]) {
        return Err(ModuleError::BadBeginning);
    }
    let mut said = Preamble::empty();
    let mut at: usize = 1;
    loop
        invariant
            preamble_of(states@) == preamble_from(states@, at as int, said@),
            said@.counted(),
        decreases states.len() - at,
    {
        if at >= states.len() {
            return Err(ModuleError::Preamble);
        }
        match &states[at] {
            Record::BeginSection { code } => match code {
                SectionCode::Type => match parse_function_signatures(states, at + 1) {
                    Ok((signatures, end)) => {
                        said.signatures = signatures;
                        at = end;
                    },
                    Err(_) => {
                        return Err(ModuleError::TypeSection);
                    },
                },
                SectionCode::Import => match parse_import_section(states, at + 1) {
                    Ok((imports, end)) => {
                        said.add_imports(&imports);
                        at = end;
                    },
                    Err(_) => {
                        return Err(ModuleError::ImportSection);
                    },
                },
                SectionCode::Function => match parse_function_section(states, at + 1) {
                    Ok((functions, end)) => {
                        said.add_functions(functions);
                        at = end;
                    },
                    Err(_) => {
                        return Err(ModuleError::FunctionSection);
                    },
                },
                SectionCode::Table => match parse_table_section(states, at + 1) {
                    Ok((tables, end)) => {
                        said.add_tables(&tables);
                        at = end;
                    },
                    Err(_) => {
                        return Err(ModuleError::TableSection);
                    },
                },
                SectionCode::Memory => match parse_memory_section(states, at + 1) {
                    Ok((memories, end)) => {
                        said.add_memories(&memories);
                        at = end;
                    },
                    Err(_) => {
                        return Err(ModuleError::MemorySection);
                    },
                },
                SectionCode::Global => match parse_global_section(states, at + 1) {
                    Ok((globals, end)) => {
                        said.add_globals(&globals);
                        at = end;
                    },
                    Err(_) => {
                        return Err(ModuleError::GlobalSection);
                    },
                },
                SectionCode::Export => match parse_export_section(states, at + 1) {
                    Ok((exports, end)) => {
                        said.exports = Some(exports);
                        at = end;
                    },
                    Err(_) => {
                        return Err(ModuleError::ExportSection);
                    },
                },
                SectionCode::Start => {
                    if states.len() < 3 || at >= states.len() - 2 {
                        return Err(ModuleError::StartSection);
                    }
                    match &states[at + 2] {
                        Record::EndSection => {},
                        _ => {
                            return Err(ModuleError::StartSection);
                        },
                    }
                    match &states[at + 1] {
                        Record::StartSectionEntry(index) => {
                            said.start_index = Some(*index as usize);
                        },
                        _ => {
                            return Err(ModuleError::StartSection);
                        },
                    }
                    at = at + 3;
                },
                SectionCode::Element => match parse_elements_section(states, at + 1, &said.globals) {
                    Ok((entries, end)) => {
                        said.add_elements(entries);
                        at = end;
                    },
                    Err(_) => {
                        return Err(ModuleError::ElementSection);
                    },
                },
                SectionCode::Data => {
                    at = at + 1;
                },
                SectionCode::Code => {
                    // The code section begins.
                    said.code = Some(at + 1);
                    return Ok(said);
                },
                SectionCode::Custom => {
                    return Err(ModuleError::Preamble);
                },
            },
            Record::EndSection => {
                at = at + 1;
            },
            Record::EndWasm => {
                return Ok(said);
            },
            _ => {
                return Err(ModuleError::Preamble);
            },
        }
    }
}

/// The operators of a function body that begin at `pos`: the operators up
/// to the first record that is none.
pub open spec fn operators_from(states: Seq<Record>, pos: int) -> Seq<WasmOperator>
    decreases states.len() - pos,
{
    if pos < 0 || pos >= states.len() {
        seq![]
    } else {
        match states[pos] {
            Record::CodeOperator(op) => seq![op] + operators_from(states, pos + 1),
            _ => seq![],
        }
    }
}

/// The operators that begin at `pos` are the records from `pos` on.
proof fn lemma_operators_are_records(states: Seq<Record>, pos: int, i: int)
    requires
        0 <= pos,
        0 <= i < operators_from(states, pos).len(),
    ensures
        pos + i < states.len(),
        states[pos + i] == Record::CodeOperator(operators_from(states, pos)[i]),
    decreases i,
{
    if i > 0 {
        lemma_operators_are_records(states, pos + 1, i - 1);
    }
}

/// The number of operators that begin at `pos`.
fn count_operators(states: &Vec<Record>, pos: usize) -> (count: usize)
    ensures
        count == operators_from(states@, pos as int).len(),
        pos + count <= states@.len() || count == 0,
{
    let mut count: usize = 0;
    if pos >= states.len() {
        return 0;
    }
    let ghost ops = operators_from(states@, pos as int);
    assert(ops =~= Seq::<WasmOperator>::empty() + ops);
    loop
        invariant
            pos + count <= states.len(),
            ops == operators_from(states@, pos as int),
            ops.len() == count + operators_from(states@, pos + count).len(),
        decreases states.len() - pos - count,
    {
        if pos + count >= states.len() {
            return count;
        }
        match &states[pos + count] {
            Record::CodeOperator(_) => {},
            _ => {
                return count;
            },
        }
        count += 1;
    }
}

/// The translations of the function bodies that begin at `pos`, the first
/// of which is that of function number `index`, and the runtime after them;
/// or the first failure. Each body is its beginning, its locals, its
/// operators and its end. The runtime is told of each body's end.
pub open spec fn bodies_from<R: WasmRuntime>(
    states: Seq<Record>,
    pos: int,
    module: ModuleModel,
    runtime: R,
    index: int,
) -> Result<(Seq<FunctionTranslationModel>, R), ModuleError>
    decreases states.len() - pos,
{
    if pos < 0 || pos >= states.len() {
        Err(ModuleError::CodeSection)
    } else if states[pos] is EndSection {
        Ok((seq![], runtime))
    } else if states[pos] is BeginFunctionBody && pos + 1 < states.len() {
        match states[pos + 1] {
            Record::FunctionBodyLocals { locals } => if 0 <= index < module.functions.len() {
                let signature = module.signatures[module.functions[index] as int]@;
                let ops = operators_from(states, pos + 2);
                let stop = pos + 2 + ops.len();
                match translate_body(signature, locals@, runtime, module, ops) {
                    Err((kind, location)) => Err(ModuleError::Function { kind, location }),
                    Ok((end, r)) => if stop < states.len() && states[stop] is EndFunctionBody {
                        match bodies_from(states, stop + 1, module, r.between_functions(), index + 1) {
                            Ok((rest, last)) => Ok(
                                (
                                    seq![
                                        FunctionTranslationModel::Code(
                                            function_of_translation(
                                                end,
                                                module,
                                                index as usize,
                                                signature,
                                            ),
                                        ),
                                    ] + rest,
                                    last,
                                ),
                            ),
                            Err(error) => Err(error),
                        }
                    } else {
                        Err(
                            ModuleError::Function {
                                kind: ErrorKind::MalformedStream,
                                location: Some(ops.len() as usize),
                            },
                        )
                    },
                }
            } else {
                Err(ModuleError::UnknownSignature)
            },
            _ => Err(ModuleError::CodeSection),
        }
    } else {
        Err(ModuleError::CodeSection)
    }
}

/// Translates the body of a function whose `count` operators are the
/// records from `first` on.
fn translate_function_records<R: WasmRuntime>(
    states: &Vec<Record>,
    first: usize,
    count: usize,
    function_index: FunctionIndex,
    sig: &Signature,
    locals: &Vec<(u32, WasmType)>,
    module: &ModuleContext,
    runtime: &mut R,
) -> (res: Result<(Function, FunctionImports), TranslationError>)
    requires
        module@.wf(),
        count == operators_from(states@, first as int).len(),
        first + count <= states@.len(),
    ensures
        match (
            res,
            translate_body(
                sig@,
                locals@,
                *old(runtime),
                module@,
                operators_from(states@, first as int),
            ),
        ) {
            (Ok((func, imports)), Ok((end, r))) => {
                &&& function_model(func, imports) == function_of_translation(
                    end,
                    module@,
                    function_index,
                    sig@,
                )
                &&& replay(commands_view(func.commands@)) is Some
                &&& *final(runtime) == r
            },
            (Err(error), Err((kind, location))) => TranslationError::spec_new(kind, location, error),
            _ => false,
        },
{
    let ghost ops = operators_from(states@, first as int);
    let mut translator = match FuncTranslator::new(sig, locals) {
        Ok(translator) => translator,
        Err(error) => {
            return Err(error);
        },
    };
    let ghost whole = translator@.translate_from(*old(runtime), module@, ops, 0);
    let mut i: usize = 0;
    while i < count
        invariant
            i <= count,
            count == ops.len(),
            first + count <= states.len(),
            ops == operators_from(states@, first as int),
            translator@.wf(),
            module@.wf(),
            crate::semantics::locals_supported(locals@),
            crate::semantics::locals_fit(sig@, locals@),
            whole == TranslationModel::begin(sig@, locals@).translate_from(
                *old(runtime),
                module@,
                ops,
                0,
            ),
            whole == translator@.translate_from(*runtime, module@, ops, i as int),
        decreases count - i,
    {
        proof {
            lemma_operators_are_records(states@, first as int, i as int);
        }
        let last = i + 1 == count;
        match &states[first + i] {
            Record::CodeOperator(op) => {
                match translate_next(&mut translator, op, i, last, runtime, module, Ghost(ops)) {
                    Ok(()) => {},
                    Err(error) => {
                        return Err(error);
                    },
                }
            },
            _ => {},
        }
        i += 1;
    }
    proof {
        reveal_with_fuel(TranslationModel::translate_from, 1);
    }
    finish_body(translator, i, function_index, sig, module)
}

/// What is translated of the code section: the functions translated so far
/// with the rest behind.
pub open spec fn behind_functions<R: WasmRuntime>(
    translated: Seq<FunctionTranslationModel>,
    rest: Result<(Seq<FunctionTranslationModel>, R), ModuleError>,
) -> Result<(Seq<FunctionTranslationModel>, R), ModuleError> {
    match rest {
        Ok((functions, runtime)) => Ok((translated + functions, runtime)),
        Err(error) => Err(error),
    }
}

/// Translates the function bodies of the code section, whose records begin
/// at `pos`. The first body is that of function number `first_index`.
/// `functions` holds what was translated before and gets the translations.
pub fn translate_bodies<R: WasmRuntime>(
    states: &Vec<Record>,
    pos: usize,
    module: &ModuleContext,
    first_index: FunctionIndex,
    runtime: &mut R,
    functions: &mut Vec<FunctionTranslation>,
) -> (res: Result<(), ModuleError>)
    requires
        module@.wf(),
    ensures
        can_be_replayed(old(functions)@) ==> can_be_replayed(final(functions)@),
        match (res, bodies_from(states@, pos as int, module@, *old(runtime), first_index as int)) {
            (Ok(()), Ok((translated, r))) => {
                &&& translations_view(final(functions)@) == translations_view(old(functions)@)
                    + translated
                &&& *final(runtime) == r
            },
            (Err(error), Err(expected)) => error == expected,
            _ => false,
        },
{
    let ghost before = translations_view(functions@);
    let ghost whole = bodies_from(states@, pos as int, module@, *old(runtime), first_index as int);
    let mut at: usize = pos;
    let mut index: usize = first_index;
    let ghost mut translated: Seq<FunctionTranslationModel> = seq![];
    assert(before + translated =~= before);
    assert(whole == behind_functions(translated, whole)) by {
        match whole {
            Ok((list, r)) => {
                assert(translated + list =~= list);
            },
            Err(_) => {},
        }
    }
    loop
        invariant
            module@.wf(),
            can_be_replayed(old(functions)@) ==> can_be_replayed(functions@),
            before == translations_view(old(functions)@),
            translations_view(functions@) == before + translated,
            whole == behind_functions(
                translated,
                bodies_from(states@, at as int, module@, *runtime, index as int),
            ),
            whole == bodies_from(states@, pos as int, module@, *old(runtime), first_index as int),
        decreases states.len() - at,
    {
        if at >= states.len() {
            return Err(ModuleError::CodeSection);
        }
        match &states[at] {
            Record::EndSection => {
                proof {
                    assert(translated + Seq::<FunctionTranslationModel>::empty() =~= translated);
                    assert(bodies_from(states@, at as int, module@, *runtime, index as int) == Ok::<
                        (Seq<FunctionTranslationModel>, R),
                        ModuleError,
                    >((seq![], *runtime)));
                }
                return Ok(());
            },
            Record::BeginFunctionBody => {},
            _ => {
                return Err(ModuleError::CodeSection);
            },
        }
        if at + 1 >= states.len() {
            return Err(ModuleError::CodeSection);
        }
        let locals = match &states[at + 1] {
            Record::FunctionBodyLocals { locals } => locals,
            _ => {
                return Err(ModuleError::CodeSection);
            },
        };
        if index >= module.functions.len() {
            return Err(ModuleError::UnknownSignature);
        }
        assert(module@.functions[index as int] < module@.signatures.len());
        let sig = &module.signatures[module.functions[index]];
        let count = count_operators(states, at + 2);
        let ghost start_runtime = *runtime;
        let (il, imports) = match translate_function_records(
            states,
            at + 2,
            count,
            index,
            sig,
            locals,
            module,
            runtime,
        ) {
            Ok(translation) => translation,
            Err(error) => {
                return Err(ModuleError::Function { kind: error.kind, location: error.location });
            },
        };
        let stop: usize = at + 2 + count;
        if stop >= states.len() {
            return Err(
                ModuleError::Function { kind: ErrorKind::MalformedStream, location: Some(count) },
            );
        }
        match &states[stop] {
            Record::EndFunctionBody => {},
            _ => {
                return Err(
                    ModuleError::Function {
                        kind: ErrorKind::MalformedStream,
                        location: Some(count),
                    },
                );
            },
        }
        let translation = FunctionTranslation::Code { il, imports };
        let ghost model = translation@;
        let ghost list = functions@;
        functions.push(translation);
        runtime.next_function();
        proof {
            assert(translations_view(functions@) =~= translations_view(list).push(model));
            assert(before + translated.push(model) =~= (before + translated).push(model));
            match bodies_from(states@, stop + 1, module@, *runtime, index + 1) {
                Ok((rest, last)) => {
                    assert(translated.push(model) + rest =~= translated + (seq![model] + rest));
                },
                Err(_) => {},
            }
            translated = translated.push(model);
        }
        index += 1;
        at = stop + 1;
    }
}

/// Whether every function has a signature among `count` signatures.
fn functions_have_signatures(functions: &Vec<SignatureIndex>, count: usize) -> (ok: bool)
    ensures
        ok == (forall|i: int| 0 <= i < functions@.len() ==> #[trigger] functions@[i] < count),
{
    let mut i: usize = 0;
    while i < functions.len()
        invariant
            i <= functions.len(),
            forall|j: int| 0 <= j < i ==> #[trigger] functions@[j] < count,
        decreases functions.len() - i,
    {
        if functions[i] >= count {
            return false;
        }
        i += 1;
    }
    true
}

/// Whether `after` is the runtime `before` once a declaration is handed to
/// it. Elements are handed to a runtime only if their table has room for
/// them.
pub open spec fn declares_one<R: WasmRuntime>(before: R, declaration: DeclarationModel, after: R)
    -> bool {
    match declaration {
        DeclarationModel::Memory(memory) => before.declares_memory(memory, after),
        DeclarationModel::Global(global) => before.declares_global(global, after),
        DeclarationModel::Table(table) => before.declares_table(table, after),
        DeclarationModel::Elements(entry) => before.table_takes(
            entry.table_index,
            entry.offset,
            entry.elements.len(),
        ) && before.declares_elements(entry.table_index, entry.offset, entry.elements, after),
    }
}

/// Whether `after` is the runtime `before` once the first `n` declarations
/// are handed to it, one after the other.
pub open spec fn declares<R: WasmRuntime>(
    before: R,
    declarations: Seq<DeclarationModel>,
    n: int,
    after: R,
) -> bool
    decreases n,
{
    if n <= 0 {
        after == before
    } else {
        exists|middle: R|
            {
                &&& #[trigger] is_runtime(middle)
                &&& declares(before, declarations, n - 1, middle)
                &&& declares_one(middle, declarations[n - 1], after)
            }
    }
}

/// Holds of every runtime: it names the runtime between two declarations.
pub open spec fn is_runtime<R: WasmRuntime>(runtime: R) -> bool {
    true
}

/// One more declaration handed over is one more declaration declared.
pub proof fn lemma_declares_next<R: WasmRuntime>(
    before: R,
    declarations: Seq<DeclarationModel>,
    n: int,
    middle: R,
    after: R,
)
    requires
        n >= 0,
        declares(before, declarations, n, middle),
        declares_one(middle, declarations[n], after),
    ensures
        declares(before, declarations, n + 1, after),
{
    assert(is_runtime(middle));
}

/// Whether `after` is the runtime `before` once the declarations before
/// number `k` are handed to it, and declaration `k` is elements for which
/// their table has no room then.
pub open spec fn refuses_at<R: WasmRuntime>(
    before: R,
    declarations: Seq<DeclarationModel>,
    k: int,
    after: R,
) -> bool {
    &&& 0 <= k < declarations.len()
    &&& declares(before, declarations, k, after)
    &&& declarations[k] matches DeclarationModel::Elements(entry)
    &&& !after.table_takes(entry.table_index, entry.offset, entry.elements.len())
}

/// Hands the declarations of a module to a runtime that is not yet ready,
/// in their order: each memory, global and table is declared, and the
/// elements are put into their table. Stops before the first elements for
/// which their table has no room, and returns `false` then; returns `true`
/// when every declaration was handed over.
pub fn declare_all<R: WasmRuntime>(declarations: &Vec<Declaration>, runtime: &mut R) -> (declared: bool)
    requires
        !old(runtime).ready(),
    ensures
        !final(runtime).ready(),
        declared ==> declares(
            *old(runtime),
            declarations_view(declarations@),
            declarations@.len() as int,
            *final(runtime),
        ),
        !declared ==> exists|k: int| #[trigger]
            refuses_at(*old(runtime), declarations_view(declarations@), k, *final(runtime)),
{
    let mut i: usize = 0;
    while i < declarations.len()
        invariant
            i <= declarations.len(),
            !runtime.ready(),
            declares(*old(runtime), declarations_view(declarations@), i as int, *runtime),
        decreases declarations.len() - i,
    {
        let ghost middle = *runtime;
        assert(declarations_view(declarations@)[i as int] == declarations@[i as int]@);
        match &declarations[i] {
            Declaration::Memory(memory) => {
                runtime.declare_memory(*memory);
            },
            Declaration::Global(global) => {
                runtime.declare_global(*global);
            },
            Declaration::Table(table) => {
                runtime.declare_table(*table);
            },
            Declaration::Elements(entry) => {
                if !runtime.table_takes_elements(
                    entry.table_index,
                    entry.offset,
                    entry.elements.len(),
                ) {
                    assert(refuses_at(
                        *old(runtime),
                        declarations_view(declarations@),
                        i as int,
                        *runtime,
                    ));
                    return false;
                }
                runtime.declare_table_elements(entry.table_index, entry.offset, &entry.elements);
            },
        }
        assert(declares_one(middle, declarations_view(declarations@)[i as int], *runtime));
        proof {
            lemma_declares_next(
                *old(runtime),
                declarations_view(declarations@),
                i as int,
                middle,
                *runtime,
            );
        }
        i += 1;
    }
    true
}

/// A list of as many imported functions as `count` says.
fn imported_functions(count: usize) -> (functions: Vec<FunctionTranslation>)
    ensures
        functions@.len() == count,
        forall|i: int| 0 <= i < count ==> (#[trigger] functions@[i]) is Import,
{
    let mut functions: Vec<FunctionTranslation> = Vec::new();
    let mut i: usize = 0;
    while i < count
        invariant
            i <= count,
            functions@.len() == i,
            forall|j: int| 0 <= j < i ==> (#[trigger] functions@[j]) is Import,
        decreases count - i,
    {
        functions.push(FunctionTranslation::Import());
        i += 1;
    }
    functions
}

/// The module is the one that a preamble tells of.
pub open spec fn tells_of(preamble: PreambleModel, module: ModuleModel) -> bool {
    &&& signatures_view(module.signatures) == preamble.signatures
    &&& preamble.functions == Some(module.functions)
    &&& match (preamble.exports, module.exports) {
        (Some(names), Some(exports)) => names == names_of(exports),
        (None, None) => true,
        _ => false,
    }
}

/// As many imported functions as `count` says.
pub open spec fn imported(count: nat) -> Seq<FunctionTranslationModel> {
    Seq::new(count, |i: int| FunctionTranslationModel::Import)
}

/// The result is what the code section yields for a module and a runtime
/// that has laid the module out: the imported functions followed by the
/// translated ones, or the failure of the code section.
pub open spec fn translates_code<R: WasmRuntime>(
    states: Seq<Record>,
    preamble: PreambleModel,
    module: ModuleModel,
    ready: R,
    res: Result<TranslationResult, ModuleError>,
    after: R,
) -> bool {
    &&& tells_of(preamble, module)
    &&& ready.ready()
    &&& match bodies_from(
        states,
        preamble.code.unwrap() as int,
        module,
        ready,
        preamble.function_imports_count as int,
    ) {
        Ok((translated, last)) => {
            &&& res matches Ok(result)
            &&& translations_view(result.functions@) == imported(preamble.function_imports_count)
                + translated
            &&& result.start_index == preamble.start_index
            &&& after == last
        },
        Err(error) => res == Err::<TranslationResult, ModuleError>(error),
    }
}

/// Every function of a preamble has a signature of the preamble.
pub open spec fn has_signatures(preamble: PreambleModel) -> bool {
    preamble.functions matches Some(functions) && forall|i: int|
        0 <= i < functions.len() ==> #[trigger] functions[i] < preamble.signatures.len()
}

/// The result holds no function and no start index.
pub open spec fn yields_nothing(res: Result<TranslationResult, ModuleError>) -> bool {
    res matches Ok(result) && result.functions@.len() == 0 && result.start_index is None
}

/// The result is the translation of the module whose records are `states`,
/// for a runtime that is `before` and is `after` afterwards.
///
/// The failures of the sections before the code come as [`preamble_of`]
/// says. A module with code needs functions, each with a signature of the
/// module. A module that declares something or has code needs a runtime
/// that is not yet ready. Up to here a failure leaves the runtime as it
/// was. The runtime is handed what the module declares, in the order of
/// the module. A module without code yields no function. For a module
/// with code the runtime lays out what was declared, and the result is
/// what [`bodies_from`] says for the runtime as it is after that. The steps
/// of every translated function can be replayed.
pub open spec fn translates<R: WasmRuntime>(
    states: Seq<Record>,
    before: R,
    res: Result<TranslationResult, ModuleError>,
    after: R,
) -> bool {
    &&& res matches Ok(result) ==> can_be_replayed(result.functions@)
    &&& match preamble_of(states) {
        Err(error) => res == Err::<TranslationResult, ModuleError>(error) && after == before,
        Ok(preamble) => if preamble.code is Some && preamble.functions is None {
            res == Err::<TranslationResult, ModuleError>(ModuleError::MissingFunctionSection)
                && after == before
        } else if preamble.code is Some && !has_signatures(preamble) {
            res == Err::<TranslationResult, ModuleError>(ModuleError::UnknownSignature) && after
                == before
        } else if preamble.asks_nothing() {
            yields_nothing(res) && after == before
        } else if before.ready() {
            res == Err::<TranslationResult, ModuleError>(ModuleError::Runtime) && after == before
        } else {
            ||| res == Err::<TranslationResult, ModuleError>(ModuleError::ElementSection)
                && exists|k: int| #[trigger] refuses_at(before, preamble.declarations, k, after)
            ||| exists|declared: R| #[trigger]
                declares(
                    before,
                    preamble.declarations,
                    preamble.declarations.len() as int,
                    declared,
                ) && translates_declared(states, preamble, declared, res, after)
        },
    }
}

/// The result is that of a module whose declarations the runtime has
/// taken and is `declared` with them. Without code there is no function,
/// and the runtime stays as it is. With code the runtime is told to lay
/// the module out: if it is not ready then, the translation stops, and
/// otherwise the code section is translated for the runtime as it is
/// then.
pub open spec fn translates_declared<R: WasmRuntime>(
    states: Seq<Record>,
    preamble: PreambleModel,
    declared: R,
    res: Result<TranslationResult, ModuleError>,
    after: R,
) -> bool {
    if preamble.code is None {
        yields_nothing(res) && after == declared
    } else {
        ||| res == Err::<TranslationResult, ModuleError>(ModuleError::Runtime) && !after.ready()
            && declared.lays_out(after)
        ||| exists|module: ModuleModel, ready: R| #[trigger]
            translates_code(states, preamble, module, ready, res, after) && declared.lays_out(
                ready,
            )
    }
}

/// The result is the preamble.
pub open spec fn tells(res: Result<Preamble, ModuleError>, preamble: PreambleModel) -> bool {
    res matches Ok(read) && read@ == preamble && read@.counted()
}

/// The result is what the sections before the code of the module whose
/// records are `states` say, for a runtime that is `before`, and that is
/// `after` once it has taken what they declare.
///
/// The failures are those of [`translates`], but for the failures of the
/// code section, and like there a failure before anything is declared
/// leaves the runtime as it was. Where the module has code, the runtime
/// has laid out what was declared and is ready.
pub open spec fn prepares<R: WasmRuntime>(
    states: Seq<Record>,
    before: R,
    res: Result<Preamble, ModuleError>,
    after: R,
) -> bool {
    match preamble_of(states) {
        Err(error) => res == Err::<Preamble, ModuleError>(error) && after == before,
        Ok(preamble) => if preamble.code is Some && preamble.functions is None {
            res == Err::<Preamble, ModuleError>(ModuleError::MissingFunctionSection) && after
                == before
        } else if preamble.code is Some && !has_signatures(preamble) {
            res == Err::<Preamble, ModuleError>(ModuleError::UnknownSignature) && after == before
        } else if preamble.asks_nothing() {
            tells(res, preamble) && after == before
        } else if before.ready() {
            res == Err::<Preamble, ModuleError>(ModuleError::Runtime) && after == before
        } else {
            ||| res == Err::<Preamble, ModuleError>(ModuleError::ElementSection) && exists|k: int|
                #[trigger] refuses_at(before, preamble.declarations, k, after)
            ||| exists|declared: R| #[trigger]
                declares(
                    before,
                    preamble.declarations,
                    preamble.declarations.len() as int,
                    declared,
                ) && prepares_declared(preamble, declared, res, after)
        },
    }
}

/// The result is that of a module whose declarations the runtime has
/// taken and is `declared` with them. Without code the runtime stays as it
/// is. With code it is told to lay the module out, and is ready then or
/// stops the translation.
pub open spec fn prepares_declared<R: WasmRuntime>(
    preamble: PreambleModel,
    declared: R,
    res: Result<Preamble, ModuleError>,
    after: R,
) -> bool {
    if preamble.code is None {
        tells(res, preamble) && after == declared
    } else {
        ||| res == Err::<Preamble, ModuleError>(ModuleError::Runtime) && !after.ready()
            && declared.lays_out(after)
        ||| tells(res, preamble) && after.ready() && declared.lays_out(after)
    }
}

/// A preamble whose code can be translated: where there is code there
/// are functions, each with a signature.
pub open spec fn can_translate(preamble: PreambleModel) -> bool {
    preamble.code is Some ==> has_signatures(preamble)
}

/// The result of the translation of a module with the failure as its
/// message.
pub open spec fn with_message(
    outcome: Result<TranslationResult, ModuleError>,
    res: Result<TranslationResult, String>,
) -> bool {
    match (outcome, res) {
        (Ok(translated), Ok(result)) => result == translated,
        (Err(error), Err(message)) => message@ == error.spec_message(),
        _ => false,
    }
}

/// Reads the sections before the code from the records of a module, and
/// hands what they declare to the runtime. Where the module has code, the
/// runtime is then told to lay out what was declared. The result is what
/// the sections say; [`translate_code`] translates the code of the module
/// from it.
pub fn prepare_module<R: WasmRuntime>(states: &Vec<Record>, runtime: &mut R) -> (res: Result<
    Preamble,
    ModuleError,
>)
    ensures
        prepares(states@, *old(runtime), res, *final(runtime)),
        res matches Ok(preamble) ==> can_translate(preamble@) && (preamble.code is Some
            ==> final(runtime).ready()),
{
    let preamble = match parse_preamble(states) {
        Ok(preamble) => preamble,
        Err(error) => {
            return Err(error);
        },
    };
    if preamble.code.is_some() {
        // The code section has begun: what is needed to translate a
        // function must be there.
        let known = match &preamble.functions {
            Some(functions) => {
                assert(signatures_view(preamble.signatures@).len() == preamble.signatures@.len());
                functions_have_signatures(functions, preamble.signatures.len())
            },
            None => {
                return Err(ModuleError::MissingFunctionSection);
            },
        };
        if !known {
            return Err(ModuleError::UnknownSignature);
        }
    }
    assert(preamble@.declarations == declarations_view(preamble.declarations@));
    assert(preamble@.declarations.len() == preamble.declarations@.len());
    if preamble.code.is_none() && preamble.declarations.len() == 0 {
        return Ok(preamble);
    }
    if runtime.is_ready() {
        return Err(ModuleError::Runtime);
    }
    if !declare_all(&preamble.declarations, runtime) {
        return Err(ModuleError::ElementSection);
    }
    let ghost declared = *runtime;
    if preamble.code.is_none() {
        let res = Ok(preamble);
        assert(prepares_declared(preamble@, declared, res, *runtime));
        return res;
    }
    runtime.begin_translation();
    let ready = runtime.is_ready();
    let res = if ready {
        Ok(preamble)
    } else {
        Err(ModuleError::Runtime)
    };
    assert(prepares_declared(preamble_of(states@).unwrap(), declared, res, *runtime));
    res
}

/// Translates the code of a module from its records and from what its
/// sections before the code say, for a runtime that has taken what they
/// declare and is ready. A module without code yields no function and
/// leaves the runtime as it is. The result of a module with code is what
/// [`bodies_from`] says: the imported functions, as `Import`, followed by
/// the translated functions, or the failure of the code section.
pub fn translate_code<R: WasmRuntime>(
    states: &Vec<Record>,
    preamble: &Preamble,
    runtime: &mut R,
) -> (res: Result<TranslationResult, ModuleError>)
    requires
        can_translate(preamble@),
        preamble.code is Some ==> old(runtime).ready(),
    ensures
        res matches Ok(result) ==> can_be_replayed(result.functions@),
        preamble.code is None ==> yields_nothing(res) && *final(runtime) == *old(runtime),
        preamble.code is Some ==> exists|module: ModuleModel| #[trigger]
            translates_code(states@, preamble@, module, *old(runtime), res, *final(runtime)),
{
    let code = match preamble.code {
        Some(code) => code,
        None => {
            return Ok(TranslationResult { functions: Vec::new(), start_index: None });
        },
    };
    let functions = match &preamble.functions {
        Some(functions) => functions,
        None => {
            // Not reached: a preamble with code has functions.
            return Ok(TranslationResult { functions: Vec::new(), start_index: None });
        },
    };
    assert(signatures_view(preamble.signatures@).len() == preamble.signatures@.len());
    let module = ModuleContext {
        signatures: &preamble.signatures,
        functions,
        exports: &preamble.exports,
    };
    assert(module@.wf()) by {
        assert(has_signatures(preamble@));
        assert(preamble@.functions == Some(module@.functions));
        assert forall|i: int| 0 <= i < module@.functions.len() implies #[trigger] module@.functions[i]
            < module@.signatures.len() by {
            assert(preamble@.functions.unwrap()[i] < preamble@.signatures.len());
        }
    }
    let mut translated = imported_functions(preamble.function_imports_count);
    assert(translations_view(translated@) =~= imported(preamble.function_imports_count as nat));
    let res = match translate_bodies(
        states,
        code,
        &module,
        preamble.function_imports_count,
        runtime,
        &mut translated,
    ) {
        Ok(()) => Ok(TranslationResult { functions: translated, start_index: preamble.start_index }),
        Err(error) => Err(error),
    };
    assert(translates_code(states@, preamble@, module@, *old(runtime), res, *runtime));
    res
}

/// Translates a module from its records: reads the sections before the
/// code, hands what they declare to the runtime, lets the runtime lay it
/// out, and translates the function bodies.
///
/// The failures of the sections before the code come as [`preamble_of`]
/// says. A module with code needs functions, each with a signature of the
/// module, and a module that declares something or has code needs a
/// runtime that is not yet ready. A module that ends before any code
/// yields no function. Where the runtime takes what a module with code
/// declares, the result is what [`bodies_from`] says for the runtime as it
/// is then: the imported functions, as `Import`, followed by the translated
/// functions, or the failure of the code section. The steps of every
/// translated function can be replayed.
pub fn translate_states<R: WasmRuntime>(states: &Vec<Record>, runtime: &mut R) -> (res: Result<
    TranslationResult,
    ModuleError,
>)
    ensures
        translates(states@, *old(runtime), res, *final(runtime)),
{
    let preamble = match prepare_module(states, runtime) {
        Ok(preamble) => preamble,
        Err(error) => {
            return Err(error);
        },
    };
    let ghost prepared = *runtime;
    let res = translate_code(states, &preamble, runtime);
    proof {
        let read = preamble_of(states@).unwrap();
        if !read.asks_nothing() {
            let declared = choose|declared: R| #[trigger]
                declares(
                    *old(runtime),
                    read.declarations,
                    read.declarations.len() as int,
                    declared,
                ) && prepares_declared(read, declared, Ok::<Preamble, ModuleError>(preamble), prepared);
            assert(translates_declared(states@, read, declared, res, *runtime));
        }
    }
    res
}

/// Why a module has no function to start with.
#[derive(Clone, Copy, Debug, PartialEq, Eq, Structural)]
pub enum StartError {
    /// The module names no start function.
    NoStart,
    /// The start function is imported, or is no function of the module:
    /// there is no code to run.
    Import,
}

/// The function with which the execution of a translated module starts:
/// the start function that the module names, which must be one of the
/// translated functions.
pub fn start_function(functions: &Vec<FunctionTranslation>, start_index: Option<FunctionIndex>) -> (res:
    Result<FunctionIndex, StartError>)
    ensures
        match res {
            Ok(index) => start_index == Some(index) && index < functions@.len()
                && functions@[index as int] is Code,
            Err(StartError::NoStart) => start_index is None,
            Err(StartError::Import) => start_index matches Some(index) && (index
                >= functions@.len() || functions@[index as int] is Import),
        },
{
    match start_index {
        None => Err(StartError::NoStart),
        Some(index) => {
            if index >= functions.len() {
                return Err(StartError::Import);
            }
            match &functions[index] {
                FunctionTranslation::Code { .. } => Ok(index),
                FunctionTranslation::Import() => Err(StartError::Import),
            }
        },
    }
}

/// Translates a sequence of bytes that forms a WebAssembly binary into the
/// functions of the module. The records of the module are read with the
/// `wasmparser` crate, and the result is their translation as
/// [`translates`] says, with a failure turned into its message.
pub fn translate_module<R: WasmRuntime>(data: &Vec<u8>, runtime: &mut R) -> (res: Result<
    TranslationResult,
    String,
>)
    ensures
        exists|outcome: Result<TranslationResult, ModuleError>| #[trigger]
            translates(records(data@), *old(runtime), outcome, *final(runtime)) && with_message(
                outcome,
                res,
            ),
{
    let states = read_module(data.as_slice());
    let outcome = translate_states(&states, runtime);
    let ghost translated = outcome;
    let res = match outcome {
        Ok(result) => Ok(result),
        Err(error) => Err(error.message()),
    };
    assert(translates(records(data@), *old(runtime), translated, *runtime) && with_message(
        translated,
        res,
    ));
    res
}

} // verus!
