//! A runtime that lays the globals, tables and memories out in buffers of
//! its own, and translates accesses to them into loads and stores at the
//! addresses of those buffers.
use vstd::prelude::*;
use byteorder::{ByteOrder, LittleEndian};
use crate::ir::{Ebb, Value, ValueType, FuncRef, SigRef, Opcode, Cond, IntCC, Imm, Target, InstHeader,
                Signature, SignatureModel, CommandModel, Inst};
use crate::builder::{FunctionBuilder, BuilderModel};
use crate::runtime::runtime::{Global, GlobalInit, Table, Memory, WasmRuntime, emits_code,
                              bind_results, inst_results, lemma_ins_emits_code};
use crate::translation_utils::{FunctionIndex, TableIndex, GlobalIndex, MemoryIndex, RawByte,
                               Address};

verus! {

/// The size of a page of linear memory, in bytes.
pub const PAGE_SIZE: usize = 65536;

/// An element of a table.
#[derive(Clone, Copy, Debug, PartialEq, Eq, Structural)]
pub enum TableElement {
    Trap(),
    Function(FunctionIndex),
}

/// A declared global and where its value lies in the globals area.
#[derive(Clone, Copy, Debug, PartialEq, Eq, Structural)]
pub struct GlobalInfo {
    pub global: Global,
    pub offset: usize,
}

/// A declared table.
#[derive(Debug)]
pub struct TablesData {
    pub addresses: Vec<Address>,
    pub elements: Vec<TableElement>,
    pub info: Table,
}

/// A declared memory.
#[derive(Debug)]
pub struct MemoryData {
    pub data: Vec<RawByte>,
    pub info: Memory,
}

/// The four bytes of a value, the lowest first.
pub open spec fn le_bytes_u32(value: u32) -> Seq<u8> {
    seq![
        (value % 256) as u8,
        (value / 256 % 256) as u8,
        (value / 65536 % 256) as u8,
        (value / 16777216) as u8,
    ]
}

/// The eight bytes of a value, the lowest first.
pub open spec fn le_bytes_u64(value: u64) -> Seq<u8> {
    seq![
        (value % 256) as u8,
        (value / 256 % 256) as u8,
        (value / 65536 % 256) as u8,
        (value / 16777216 % 256) as u8,
        (value / 4294967296 % 256) as u8,
        (value / 1099511627776 % 256) as u8,
        (value / 281474976710656 % 256) as u8,
        (value / 72057594037927936) as u8,
    ]
}

/// A signed value as the unsigned value of the same 32 bits, in two's
/// complement.
pub open spec fn unsigned_32(value: i32) -> u32 {
    if value < 0 {
        (value + 4294967296) as u32
    } else {
        value as u32
    }
}

/// A signed value as the unsigned value of the same 64 bits, in two's
/// complement.
pub open spec fn unsigned_64(value: i64) -> u64 {
    if value < 0 {
        (value + 18446744073709551616) as u64
    } else {
        value as u64
    }
}

/// `data` with `bytes` written over it from position `at` on.
pub open spec fn splice(data: Seq<u8>, at: int, bytes: Seq<u8>) -> Seq<u8> {
    data.subrange(0, at) + bytes + data.subrange(at + bytes.len(), data.len() as int)
}

/// Writes a signed 32 bit integer in little endian order, two's complement,
/// over the four bytes at `offset`, as `LittleEndian::write_i32` does.
#[verifier::external_body]
fn write_i32(data: &mut Vec<u8>, offset: usize, value: i32)
    requires
        offset + 4 <= old(data)@.len(),
    ensures
        final(data)@ == splice(old(data)@, offset as int, le_bytes_u32(unsigned_32(value))),
{
    LittleEndian::write_i32(&mut data[offset..offset + 4], value);
}

/// Writes a signed 64 bit integer in little endian order, two's complement,
/// over the eight bytes at `offset`, as `LittleEndian::write_i64` does.
#[verifier::external_body]
fn write_i64(data: &mut Vec<u8>, offset: usize, value: i64)
    requires
        offset + 8 <= old(data)@.len(),
    ensures
        final(data)@ == splice(old(data)@, offset as int, le_bytes_u64(unsigned_64(value))),
{
    LittleEndian::write_i64(&mut data[offset..offset + 8], value);
}

/// Writes an unsigned 32 bit integer in little endian order over the four
/// bytes at `offset`, as `LittleEndian::write_u32` does.
#[verifier::external_body]
fn write_u32(data: &mut Vec<u8>, offset: usize, value: u32)
    requires
        offset + 4 <= old(data)@.len(),
    ensures
        final(data)@ == splice(old(data)@, offset as int, le_bytes_u32(value)),
{
    LittleEndian::write_u32(&mut data[offset..offset + 4], value);
}

/// Writes an unsigned 64 bit integer in little endian order over the eight
/// bytes at `offset`, as `LittleEndian::write_u64` does.
#[verifier::external_body]
fn write_u64(data: &mut Vec<u8>, offset: usize, value: u64)
    requires
        offset + 8 <= old(data)@.len(),
    ensures
        final(data)@ == splice(old(data)@, offset as int, le_bytes_u64(value)),
{
    LittleEndian::write_u64(&mut data[offset..offset + 8], value);
}

/// Where the value of global `i` lies: behind the values of the globals
/// declared before it.
pub open spec fn offset_of(globals: Seq<GlobalInfo>, i: int) -> int
    decreases i,
{
    if i <= 0 {
        0
    } else {
        offset_of(globals, i - 1) + globals[i - 1].global.ty.spec_bytes()
    }
}

/// The size of the globals area.
pub open spec fn globals_size(globals: Seq<GlobalInfo>) -> int {
    offset_of(globals, globals.len() as int)
}

/// The number of bytes that the initializer of a global writes.
pub open spec fn init_width(global: Global) -> int {
    match global.initializer {
        GlobalInit::I32Const(_) | GlobalInit::F32Const(_) => 4,
        GlobalInit::I64Const(_) | GlobalInit::F64Const(_) => 8,
        GlobalInit::Import() => 0,
        GlobalInit::ImportRef(_) => global.ty.spec_bytes() as int,
    }
}

/// The initializer of global `i` can be carried out: what it writes lies in
/// the globals area, and so does what it copies.
pub open spec fn init_fits(globals: Seq<GlobalInfo>, i: int) -> bool {
    &&& offset_of(globals, i) + init_width(globals[i].global) <= globals_size(globals)
    &&& globals[i].global.initializer matches GlobalInit::ImportRef(r) ==> r < globals.len()
        && offset_of(globals, r as int) + init_width(globals[i].global) <= globals_size(globals)
}

/// The globals can be laid out: the area has a size that can be addressed,
/// and every initializer can be carried out.
pub open spec fn layable(globals: Seq<GlobalInfo>) -> bool {
    &&& globals_size(globals) <= usize::MAX
    &&& forall|i: int| 0 <= i < globals.len() ==> init_fits(globals, i)
}

/// The globals area after the initializers of the first `n` globals, which
/// are carried out in the order of the declarations on an area of zeros.
pub open spec fn initialized(globals: Seq<GlobalInfo>, n: int) -> Seq<u8>
    decreases n,
{
    if n <= 0 {
        Seq::new(globals_size(globals) as nat, |i: int| 0u8)
    } else {
        let data = initialized(globals, n - 1);
        let at = offset_of(globals, n - 1);
        let global = globals[n - 1].global;
        match global.initializer {
            GlobalInit::I32Const(value) => splice(data, at, le_bytes_u32(unsigned_32(value))),
            GlobalInit::I64Const(value) => splice(data, at, le_bytes_u64(unsigned_64(value))),
            GlobalInit::F32Const(bits) => splice(data, at, le_bytes_u32(bits)),
            GlobalInit::F64Const(bits) => splice(data, at, le_bytes_u64(bits)),
            GlobalInit::Import() => data,
            GlobalInit::ImportRef(r) => splice(
                data,
                at,
                data.subrange(
                    offset_of(globals, r as int),
                    offset_of(globals, r as int) + global.ty.spec_bytes(),
                ),
            ),
        }
    }
}

/// The offsets grow with the index.
pub proof fn lemma_offsets_monotonic(globals: Seq<GlobalInfo>, i: int, j: int)
    requires
        0 <= i <= j,
    ensures
        0 <= offset_of(globals, i) <= offset_of(globals, j),
        i < j ==> offset_of(globals, i) + globals[i].global.ty.spec_bytes() <= offset_of(globals, j),
    decreases j,
{
    if i < j {
        lemma_offsets_monotonic(globals, i, j - 1);
    } else if i > 0 {
        lemma_offsets_monotonic(globals, i - 1, i - 1);
    }
}

/// Writes `bytes` over a buffer from position `at` on.
fn write_bytes(data: &mut Vec<u8>, at: usize, bytes: &Vec<u8>)
    requires
        at + bytes@.len() <= old(data)@.len(),
    ensures
        final(data)@ == splice(old(data)@, at as int, bytes@),
{
    let mut k: usize = 0;
    assert(data@ =~= splice(old(data)@, at as int, bytes@.subrange(0, 0)));
    while k < bytes.len()
        invariant
            k <= bytes.len(),
            data.len() == old(data).len(),
            at + bytes.len() <= data.len(),
            data@ == splice(old(data)@, at as int, bytes@.subrange(0, k as int)),
        decreases bytes.len() - k,
    {
        data.set(at + k, bytes[k]);
        assert(data@ =~= splice(old(data)@, at as int, bytes@.subrange(0, k + 1)));
        k += 1;
    }
    assert(bytes@.subrange(0, bytes.len() as int) =~= bytes@);
}

/// A copy of `count` bytes of a buffer from position `from` on.
fn read_bytes(data: &Vec<u8>, from: usize, count: usize) -> (bytes: Vec<u8>)
    requires
        from + count <= data@.len(),
    ensures
        bytes@ == data@.subrange(from as int, from + count),
{
    let mut bytes: Vec<u8> = Vec::new();
    let mut i: usize = 0;
    while i < count
        invariant
            i <= count,
            from + count <= data.len(),
            bytes@ == data@.subrange(from as int, from + i),
        decreases count - i,
    {
        bytes.push(data[from + i]);
        assert(data@.subrange(from as int, from + i).push(data@[from + i]) =~= data@.subrange(
            from as int,
            from + i + 1,
        ));
        i += 1;
    }
    bytes
}

/// The initializers keep the size of the globals area.
pub proof fn lemma_initialized_len(globals: Seq<GlobalInfo>, n: int)
    requires
        layable(globals),
        0 <= n <= globals.len(),
    ensures
        initialized(globals, n).len() == globals_size(globals),
    decreases n,
{
    lemma_offsets_monotonic(globals, 0, globals.len() as int);
    if n > 0 {
        lemma_initialized_len(globals, n - 1);
        lemma_offsets_monotonic(globals, n - 1, globals.len() as int);
        assert(init_fits(globals, n - 1));
        match globals[n - 1].global.initializer {
            GlobalInit::ImportRef(r) => {
                lemma_offsets_monotonic(globals, r as int, globals.len() as int);
            },
            _ => {},
        }
    }
}

/// The runtime of a module that is translated to be run in this process.
pub struct StandaloneRuntime {
    /// The globals area.
    pub globals_data: Vec<RawByte>,
    /// The declared globals, with their offsets in the globals area.
    pub globals_info: Vec<GlobalInfo>,
    pub tables: Vec<TablesData>,
    pub memories: Vec<MemoryData>,
    /// Whether the globals and tables are laid out.
    pub instantiated: bool,
    /// The functions that the function under translation has imported to
    /// ask for the size of the memory and to grow it.
    pub has_current_memory: Option<FuncRef>,
    pub has_grow_memory: Option<FuncRef>,
    /// The addresses of the globals area and of the first table.
    pub globals_address: i64,
    pub table_address: i64,
}

impl StandaloneRuntime {
    /// The declared globals, with their offsets.
    pub open spec fn globals(&self) -> Seq<GlobalInfo> {
        self.globals_info@
    }

    /// The globals area.
    pub open spec fn globals_area(&self) -> Seq<u8> {
        self.globals_data@
    }

    /// The declared tables.
    pub open spec fn tables(&self) -> Seq<TablesData> {
        self.tables@
    }

    /// The declared memories.
    pub open spec fn memories(&self) -> Seq<MemoryData> {
        self.memories@
    }

    /// Whether the globals and tables are laid out: whether the runtime is
    /// ready.
    pub open spec fn is_instantiated(&self) -> bool {
        self.instantiated
    }

    /// The addresses of the globals area and of the first table, as the
    /// embedding gave them.
    pub open spec fn addresses(&self) -> (i64, i64) {
        (self.globals_address, self.table_address)
    }

    /// The functions that the function under translation has imported to
    /// ask for the size of the memory and to grow it.
    pub open spec fn memory_functions(&self) -> (Option<FuncRef>, Option<FuncRef>) {
        (self.has_current_memory, self.has_grow_memory)
    }

    /// Each global has its offset, the globals area holds the first values
    /// of the globals, and each table has one address for each element,
    /// which is zero.
    pub open spec fn laid_out(&self) -> bool {
        &&& layable(self.globals_info@)
        &&& self.globals_data@ == initialized(self.globals_info@, self.globals_info@.len() as int)
        &&& forall|i: int|
            0 <= i < self.globals_info@.len() ==> (#[trigger] self.globals_info@[i]).offset
                == offset_of(self.globals_info@, i)
        &&& forall|t: int|
            0 <= t < self.tables@.len() ==> (#[trigger] self.tables@[t]).addresses@ == Seq::new(
                self.tables@[t].info.size as nat,
                |i: int| 0u32,
            )
    }

    /// What no declaration changes is in `self` as it is in `before`.
    pub open spec fn keeps_but_globals(self, before: StandaloneRuntime) -> bool {
        &&& self.globals_data == before.globals_data
        &&& self.instantiated == before.instantiated
        &&& self.has_current_memory == before.has_current_memory
        &&& self.has_grow_memory == before.has_grow_memory
        &&& self.globals_address == before.globals_address
        &&& self.table_address == before.table_address
    }

    /// Allocates the runtime data structures: a runtime to which nothing is
    /// declared yet, which is not ready, and which knows no address.
    pub fn new() -> (runtime: StandaloneRuntime)
        ensures
            !runtime.is_instantiated(),
            !runtime.ready(),
            !runtime.can_call_indirect(),
            runtime.globals().len() == 0,
            runtime.globals_area().len() == 0,
            runtime.tables().len() == 0,
            runtime.memories().len() == 0,
            runtime.memory_functions() == (None::<FuncRef>, None::<FuncRef>),
            runtime.addresses() == (0i64, 0i64),
    {
        StandaloneRuntime {
            globals_data: Vec::new(),
            globals_info: Vec::new(),
            tables: Vec::new(),
            memories: Vec::new(),
            instantiated: false,
            has_current_memory: None,
            has_grow_memory: None,
            globals_address: 0,
            table_address: 0,
        }
    }

    /// Tells the runtime where the embedding holds the globals area and the
    /// first table. Code translated afterwards refers to these addresses.
    pub fn set_addresses(&mut self, globals_address: i64, table_address: i64)
        ensures
            final(self).addresses() == (globals_address, table_address),
            final(self).globals() == old(self).globals(),
            final(self).globals_area() == old(self).globals_area(),
            final(self).tables() == old(self).tables(),
            final(self).memories() == old(self).memories(),
            final(self).is_instantiated() == old(self).is_instantiated(),
            final(self).memory_functions() == old(self).memory_functions(),
            final(self).ready() == old(self).ready(),
            final(self).can_call_indirect() == old(self).can_call_indirect(),
            forall|index: GlobalIndex|
                #[trigger] final(self).has_global(index) == old(self).has_global(index),
            old(self).laid_out() ==> final(self).laid_out(),
    {
        self.globals_address = globals_address;
        self.table_address = table_address;
    }

    /// The globals area.
    pub fn globals_data(&self) -> (data: &Vec<RawByte>)
        ensures
            data@ == self.globals_area(),
    {
        &self.globals_data
    }

    /// The number of declared globals.
    pub fn num_globals(&self) -> (n: usize)
        ensures
            n == self.globals().len(),
    {
        self.globals_info.len()
    }

    /// A declared global and its offset.
    pub fn global_info(&self, index: GlobalIndex) -> (info: GlobalInfo)
        requires
            index < self.globals().len(),
        ensures
            info == self.globals()[index as int],
    {
        self.globals_info[index]
    }

    /// The number of declared tables.
    pub fn num_tables(&self) -> (n: usize)
        ensures
            n == self.tables().len(),
    {
        self.tables.len()
    }

    /// A declared table.
    pub fn table(&self, index: TableIndex) -> (table: &TablesData)
        requires
            index < self.tables().len(),
        ensures
            *table == self.tables()[index as int],
    {
        &self.tables[index]
    }

    /// The number of declared memories.
    pub fn num_memories(&self) -> (n: usize)
        ensures
            n == self.memories().len(),
    {
        self.memories.len()
    }

    /// The size of a memory, in bytes.
    pub fn memory_size(&self, memory_index: MemoryIndex) -> (size: usize)
        requires
            memory_index < self.memories().len(),
        ensures
            size == self.memories()[memory_index as int].data@.len(),
    {
        self.memories[memory_index].data.len()
    }

    /// The bytes of a memory from `address` on; `len` of them.
    pub fn inspect_memory(&self, memory_index: MemoryIndex, address: usize, len: usize) -> (bytes:
        Vec<u8>)
        requires
            memory_index < self.memories().len(),
            address + len <= self.memories()[memory_index as int].data@.len(),
        ensures
            bytes@ == self.memories()[memory_index as int].data@.subrange(
                address as int,
                address + len,
            ),
    {
        read_bytes(&self.memories[memory_index].data, address, len)
    }

    /// Gives each global its offset. Returns the size of the globals area,
    /// if it can be addressed.
    fn lay_out_globals(&mut self) -> (size: Option<usize>)
        ensures
            final(self).globals_info@.len() == old(self).globals_info@.len(),
            forall|i: int|
                0 <= i < old(self).globals_info@.len() ==> (#[trigger] final(self).globals_info@[i]).global == old(self).globals_info@[i].global,
            match size {
                Some(size) => {
                    &&& size == globals_size(final(self).globals_info@)
                    &&& forall|i: int|
                        0 <= i < final(self).globals_info@.len() ==> (#[trigger] final(self).globals_info@[i]).offset == offset_of(final(self).globals_info@, i)
                },
                None => globals_size(final(self).globals_info@) > usize::MAX,
            },
            final(self).globals_data == old(self).globals_data,
            final(self).tables == old(self).tables,
            final(self).memories == old(self).memories,
            final(self).instantiated == old(self).instantiated,
            final(self).has_current_memory == old(self).has_current_memory,
            final(self).has_grow_memory == old(self).has_grow_memory,
            final(self).globals_address == old(self).globals_address,
            final(self).table_address == old(self).table_address,
    {
        let mut size: usize = 0;
        let mut i: usize = 0;
        let n: usize = self.globals_info.len();
        while i < n
            invariant
                i <= n,
                n == self.globals_info@.len(),
                n == old(self).globals_info@.len(),
                size == offset_of(self.globals_info@, i as int),
                forall|j: int|
                    0 <= j < n ==> (#[trigger] self.globals_info@[j]).global == old(self).globals_info@[j].global,
                forall|j: int|
                    0 <= j < i ==> (#[trigger] self.globals_info@[j]).offset == offset_of(
                        self.globals_info@,
                        j,
                    ),
                self.globals_data == old(self).globals_data,
                self.tables == old(self).tables,
                self.memories == old(self).memories,
                self.instantiated == old(self).instantiated,
                self.has_current_memory == old(self).has_current_memory,
                self.has_grow_memory == old(self).has_grow_memory,
                self.globals_address == old(self).globals_address,
                self.table_address == old(self).table_address,
            decreases n - i,
        {
            let info = self.globals_info[i];
            let ghost before = self.globals_info@;
            self.globals_info.set(i, GlobalInfo { global: info.global, offset: size });
            proof {
                lemma_same_types_same_offsets(before, self.globals_info@, i as int);
                assert forall|j: int| 0 <= j < i implies (#[trigger] self.globals_info@[j]).offset
                    == offset_of(self.globals_info@, j) by {
                    lemma_same_types_same_offsets(before, self.globals_info@, j);
                }
            }
            match size.checked_add(info.global.ty.bytes()) {
                Some(next) => {
                    size = next;
                },
                None => {
                    proof {
                        lemma_offsets_monotonic(self.globals_info@, i + 1, n as int);
                    }
                    return None;
                },
            }
            i += 1;
        }
        Some(size)
    }
}

/// The offsets depend on the types of the globals only.
pub proof fn lemma_same_types_same_offsets(a: Seq<GlobalInfo>, b: Seq<GlobalInfo>, i: int)
    requires
        a.len() == b.len(),
        0 <= i <= a.len(),
        forall|j: int| 0 <= j < a.len() ==> (#[trigger] a[j]).global == b[j].global,
    ensures
        offset_of(a, i) == offset_of(b, i),
    decreases i,
{
    if i > 0 {
        lemma_same_types_same_offsets(a, b, i - 1);
    }
}

/// The header of the constant that holds an address.
pub open spec fn address_header(ty: ValueType, address: i64) -> InstHeader {
    InstHeader { ty: Some(ty), imm: Some(Imm::Int(address)), ..InstHeader::spec_plain(Opcode::Iconst) }
}

/// The header of a load of type `ty` at a constant offset.
pub open spec fn load_header(ty: ValueType, offset: usize) -> InstHeader {
    InstHeader {
        ty: Some(ty),
        imm: Some(Imm::Offset(offset as i32)),
        ..InstHeader::spec_plain(Opcode::Load)
    }
}

/// The header of a store at a constant offset.
pub open spec fn store_header(offset: usize) -> InstHeader {
    InstHeader { imm: Some(Imm::Offset(offset as i32)), ..InstHeader::spec_plain(Opcode::Store) }
}

/// The header of a call of an imported function.
pub open spec fn call_header(func: FuncRef) -> InstHeader {
    InstHeader { target: Some(Target::Func(func)), ..InstHeader::spec_plain(Opcode::Call) }
}

/// The signature of the function that grows the memory.
pub open spec fn grow_memory_signature() -> SignatureModel {
    SignatureModel { argument_types: seq![ValueType::I32], return_types: seq![ValueType::I32] }
}

/// The signature of the function that tells the size of the memory.
pub open spec fn current_memory_signature() -> SignatureModel {
    SignatureModel { argument_types: seq![], return_types: seq![ValueType::I32] }
}

/// The function that a memory operator calls: the one imported for it
/// before, if the builder knows it, and else a new import.
pub open spec fn memory_function(
    builder: BuilderModel,
    known: Option<FuncRef>,
    signature: SignatureModel,
    name: Seq<char>,
) -> (BuilderModel, FuncRef) {
    match known {
        Some(func) if func.0 < builder.functions => (builder, func),
        _ => {
            let (b1, sigref) = builder.import_signature(signature);
            b1.import_function(name, sigref)
        },
    }
}

/// The call of a memory function with the operands `args`, and its result.
pub open spec fn call_memory_function(builder: BuilderModel, func: FuncRef, args: Seq<Value>) -> (
    BuilderModel,
    Value,
) {
    let (b1, inst, _result) = builder.ins(call_header(func), args);
    b1.inst_result(inst, 0)
}

/// The function that tells the size of the memory is imported once for
/// the function under translation. Where none is known, `current_memory`
/// imports one signature and one function and calls that function. A
/// second `current_memory` imports nothing and calls the same function.
pub proof fn lemma_current_memory_is_imported_once(runtime: StandaloneRuntime, builder: BuilderModel)
    requires
        runtime.has_current_memory is None,
    ensures
        ({
            let (first, b1, v1) = runtime.current_memory(builder);
            let (second, b2, v2) = first.current_memory(b1);
            let func = FuncRef(builder.functions as usize);
            &&& first.has_current_memory == Some(func)
            &&& b1.signatures == builder.signatures + 1
            &&& b1.functions == builder.functions + 1
            &&& b1.insts == builder.insts + 1
            &&& second == first
            &&& b2.signatures == b1.signatures
            &&& b2.functions == b1.functions
            &&& builder.functions < usize::MAX ==> b2.commands == b1.commands.push(
                CommandModel::Ins {
                    inst: Inst(b1.insts as usize),
                    header: call_header(func),
                    args: seq![],
                    result: None,
                },
            ).push(
                CommandModel::InstResult {
                    inst: Inst(b1.insts as usize),
                    index: 0,
                    value: Value(b1.values as usize),
                },
            )
        }),
{
}

/// The code that finds the function of an indirect call: the index is
/// checked against the size of the table, with a branch to a new block for
/// an index outside it, and the address of the function is loaded from the
/// table. Yields that block, a second new block, and the address.
pub open spec fn check_and_load(
    builder: BuilderModel,
    table_size: usize,
    table_address: i64,
    index_val: Value,
) -> (BuilderModel, Ebb, Ebb, Value) {
    let (b1, trap_ebb) = builder.create_ebb();
    let (b2, continue_ebb) = b1.create_ebb();
    let (b3, _i3, size_val) = b2.ins(address_header(ValueType::I32, table_size as i64), seq![]);
    let (b4, _i4, zero_val) = b3.ins(address_header(ValueType::I32, 0), seq![]);
    let below = InstHeader {
        cond: Some(Cond::Int(IntCC::UnsignedLessThan)),
        ..InstHeader::spec_branch(Opcode::BrIntCompare, trap_ebb)
    };
    let above = InstHeader {
        cond: Some(Cond::Int(IntCC::UnsignedGreaterThanOrEqual)),
        ..InstHeader::spec_branch(Opcode::BrIntCompare, trap_ebb)
    };
    let b5 = b4.ins(below, seq![index_val, zero_val.unwrap()]).0;
    let b6 = b5.ins(above, seq![index_val, size_val.unwrap()]).0.seal_block(trap_ebb);
    let scale = InstHeader { imm: Some(Imm::Int(4)), ..InstHeader::spec_plain(Opcode::ImulImm) };
    let (b7, _i7, offset_val) = b6.ins(scale, seq![index_val]);
    let (b8, _i8, table_val) = b7.ins(address_header(ValueType::I32, table_address), seq![]);
    let (b9, _i9, entry_addr) = b8.ins(
        InstHeader::spec_plain(Opcode::Iadd),
        seq![table_val.unwrap(), offset_val.unwrap()],
    );
    let (b10, _i10, entry) = b9.ins(load_header(ValueType::I32, 0), seq![entry_addr.unwrap()]);
    (b10, trap_ebb, continue_ebb, entry.unwrap())
}

/// The code of an indirect call: the function is found in the table and
/// called, and the code goes on in a new block. An index outside the table
/// leads to a trap.
pub open spec fn indirect_call(
    builder: BuilderModel,
    table_size: usize,
    table_address: i64,
    sig_ref: SigRef,
    index_val: Value,
    call_args: Seq<Value>,
    num_results: usize,
) -> (BuilderModel, Seq<Value>) {
    let (b10, trap_ebb, continue_ebb, entry) = check_and_load(
        builder,
        table_size,
        table_address,
        index_val,
    );
    let call = InstHeader {
        target: Some(Target::Sig(sig_ref)),
        ..InstHeader::spec_plain(Opcode::CallIndirect)
    };
    let (b11, call_inst, _r) = b10.ins(call, seq![entry] + call_args);
    let b12 = b11.ins(InstHeader::spec_branch(Opcode::Jump, continue_ebb), seq![]).0.seal_block(
        continue_ebb,
    ).switch_to_block(trap_ebb);
    let b13 = b12.ins(InstHeader::spec_plain(Opcode::Trap), seq![]).0.switch_to_block(continue_ebb);
    bind_results(b13, call_inst, 0, num_results)
}

/// Code emitted after code emitted is code emitted.
pub proof fn lemma_emits_code_transitive(a: BuilderModel, b: BuilderModel, c: BuilderModel)
    requires
        a.wf(),
        emits_code(a, b),
        emits_code(b, c),
    ensures
        emits_code(a, c),
{
    assert(c.commands.subrange(0, a.commands.len() as int) =~= b.commands.subrange(
        0,
        a.commands.len() as int,
    ));
}

/// Emits an instruction that has a result.
fn emit(builder: &mut FunctionBuilder, header: InstHeader, args: Vec<Value>) -> (value: Value)
    requires
        old(builder)@.wf(),
        old(builder)@.can_emit(),
        old(builder)@.defines_all(args@),
        old(builder)@.has_target(header.target),
        header.opcode.spec_has_result(),
        !header.opcode.spec_is_terminator(),
    ensures
        (final(builder)@, Some(value)) == (
            old(builder)@.ins(header, args@).0,
            old(builder)@.ins(header, args@).2,
        ),
        emits_code(old(builder)@, final(builder)@),
        final(builder)@.defines(value),
        final(builder)@.position == old(builder)@.position,
        final(builder)@.num_ebbs() == old(builder)@.num_ebbs(),
        final(builder)@.signatures == old(builder)@.signatures,
        final(builder)@.functions == old(builder)@.functions,
{
    let ghost before = builder@;
    let ghost operands = args@;
    let (_inst, value) = builder.ins(header, args);
    proof {
        lemma_ins_emits_code(before, header, operands);
    }
    value.unwrap()
}

/// A list of one value.
fn one(value: Value) -> (list: Vec<Value>)
    ensures
        list@ == seq![value],
{
    let mut list: Vec<Value> = Vec::new();
    list.push(value);
    assert(list@ =~= seq![value]);
    list
}

/// A list of two values.
fn two(first: Value, second: Value) -> (list: Vec<Value>)
    ensures
        list@ == seq![first, second],
{
    let mut list: Vec<Value> = Vec::new();
    list.push(first);
    list.push(second);
    assert(list@ =~= seq![first, second]);
    list
}

/// The function that a memory operator calls.
fn import_memory_function(
    builder: &mut FunctionBuilder,
    known: Option<FuncRef>,
    signature: Signature,
    name: String,
) -> (func: FuncRef)
    requires
        old(builder)@.wf(),
        old(builder)@.can_emit(),
    ensures
        (final(builder)@, func) == memory_function(old(builder)@, known, signature@, name@),
        emits_code(old(builder)@, final(builder)@),
        func.0 < final(builder)@.functions,
        final(builder)@.values == old(builder)@.values,
{
    assert(builder@.commands.subrange(0, builder@.commands.len() as int) =~= builder@.commands);
    match known {
        Some(func) => {
            if func.0 < builder.num_functions() {
                return func;
            }
        },
        None => {},
    }
    let sigref = builder.import_signature(signature);
    let func = builder.import_function(name, sigref);
    assert(builder@.commands.subrange(0, old(builder)@.commands.len() as int)
        =~= old(builder)@.commands);
    func
}

/// Calls a memory function and returns its result.
fn emit_memory_call(builder: &mut FunctionBuilder, func: FuncRef, args: Vec<Value>) -> (value: Value)
    requires
        old(builder)@.wf(),
        old(builder)@.can_emit(),
        old(builder)@.defines_all(args@),
        func.0 < old(builder)@.functions,
    ensures
        (final(builder)@, value) == call_memory_function(old(builder)@, func, args@),
        emits_code(old(builder)@, final(builder)@),
        final(builder)@.defines(value),
{
    let ghost before = builder@;
    let ghost operands = args@;
    let header = InstHeader {
        opcode: Opcode::Call,
        ty: None,
        cond: None,
        imm: None,
        target: Some(Target::Func(func)),
    };
    let (inst, _result) = builder.ins(header, args);
    proof {
        lemma_ins_emits_code(before, header, operands);
    }
    let value = builder.inst_result(inst, 0);
    assert(builder@.commands.subrange(0, before.commands.len() as int) =~= before.commands);
    value
}

impl WasmRuntime for StandaloneRuntime {
    open spec fn ready(&self) -> bool {
        self.instantiated
    }

    open spec fn has_global(&self, index: GlobalIndex) -> bool {
        index < self.globals_info@.len()
    }

    open spec fn can_call_indirect(&self) -> bool {
        self.tables@.len() >= 1
    }

    open spec fn between_functions(self) -> Self {
        StandaloneRuntime { has_current_memory: None, has_grow_memory: None, ..self }
    }

    open spec fn declares_global(self, global: Global, after: Self) -> bool {
        &&& after.globals_info@ == self.globals_info@.push(GlobalInfo { global, offset: 0 })
        &&& after.keeps_but_globals(self)
        &&& after.tables == self.tables
        &&& after.memories == self.memories
    }

    open spec fn declares_table(self, table: Table, after: Self) -> bool {
        &&& after.tables@.len() == self.tables@.len() + 1
        &&& after.tables@.subrange(0, self.tables@.len() as int) == self.tables@
        &&& after.tables@.last().info == table
        &&& after.tables@.last().addresses@.len() == 0
        &&& after.tables@.last().elements@ == Seq::new(
            table.size as nat,
            |i: int| TableElement::Trap(),
        )
        &&& after.keeps_but_globals(self)
        &&& after.globals_info == self.globals_info
        &&& after.memories == self.memories
    }

    open spec fn declares_memory(self, memory: Memory, after: Self) -> bool {
        &&& after.memories@.len() == self.memories@.len() + 1
        &&& after.memories@.subrange(0, self.memories@.len() as int) == self.memories@
        &&& after.memories@.last().info == memory
        &&& after.memories@.last().data@ == Seq::new(
            if memory.pages_count * PAGE_SIZE <= usize::MAX {
                (memory.pages_count * PAGE_SIZE) as nat
            } else {
                0
            },
            |i: int| 0u8,
        )
        &&& after.keeps_but_globals(self)
        &&& after.globals_info == self.globals_info
        &&& after.tables == self.tables
    }

    open spec fn declares_elements(
        self,
        table_index: TableIndex,
        offset: usize,
        elements: Seq<FunctionIndex>,
        after: Self,
    ) -> bool {
        &&& after.tables@.len() == self.tables@.len()
        &&& forall|t: int|
            0 <= t < self.tables@.len() && t != table_index ==> #[trigger] after.tables@[t]
                == self.tables@[t]
        &&& after.tables@[table_index as int].info == self.tables@[table_index as int].info
        &&& after.tables@[table_index as int].addresses
            == self.tables@[table_index as int].addresses
        &&& after.tables@[table_index as int].elements@.len()
            == self.tables@[table_index as int].elements@.len()
        &&& forall|i: int|
            0 <= i < elements.len() ==> after.tables@[table_index as int].elements@[offset + i]
                == TableElement::Function(#[trigger] elements[i])
        &&& forall|j: int|
            0 <= j < offset || offset + elements.len() <= j
                < self.tables@[table_index as int].elements@.len()
                ==> #[trigger] after.tables@[table_index as int].elements@[j]
                == self.tables@[table_index as int].elements@[j]
        &&& after.keeps_but_globals(self)
        &&& after.globals_info == self.globals_info
        &&& after.memories == self.memories
    }

    /// The runtime is ready exactly if the globals can be laid out, and
    /// then each global has its offset, the globals area holds the first
    /// values, and each table has its addresses. What was declared stays.
    open spec fn lays_out(self, after: Self) -> bool {
        &&& after.instantiated <==> layable(after.globals_info@)
        &&& after.instantiated ==> after.laid_out()
        &&& after.globals_info@.len() == self.globals_info@.len()
        &&& forall|i: int|
            0 <= i < self.globals_info@.len() ==> (#[trigger] after.globals_info@[i]).global
                == self.globals_info@[i].global
        &&& after.memories == self.memories
        &&& after.tables@.len() == self.tables@.len()
        &&& forall|t: int|
            0 <= t < self.tables@.len() ==> (#[trigger] after.tables@[t]).info
                == self.tables@[t].info && after.tables@[t].elements == self.tables@[t].elements
        &&& after.has_current_memory == self.has_current_memory
        &&& after.has_grow_memory == self.has_grow_memory
        &&& after.globals_address == self.globals_address
        &&& after.table_address == self.table_address
    }

    open spec fn table_takes(&self, table_index: TableIndex, offset: usize, count: nat) -> bool {
        table_index < self.tables@.len() && offset + count
            <= self.tables@[table_index as int].elements@.len()
    }

    open spec fn get_global(&self, builder: BuilderModel, index: GlobalIndex) -> (
        BuilderModel,
        Value,
    ) {
        let info = self.globals_info@[index as int];
        let (b1, _i1, address) = builder.ins(
            address_header(ValueType::I64, self.globals_address),
            seq![],
        );
        let (b2, _i2, value) = b1.ins(
            load_header(info.global.ty, info.offset),
            seq![address.unwrap()],
        );
        (b2, value.unwrap())
    }

    open spec fn set_global(&self, builder: BuilderModel, index: GlobalIndex, value: Value)
        -> BuilderModel {
        let info = self.globals_info@[index as int];
        let (b1, _i1, address) = builder.ins(
            address_header(ValueType::I64, self.globals_address),
            seq![],
        );
        b1.ins(store_header(info.offset), seq![value, address.unwrap()]).0
    }

    open spec fn grow_memory(self, builder: BuilderModel, pages: Value) -> (
        Self,
        BuilderModel,
        Value,
    ) {
        let (b1, func) = memory_function(
            builder,
            self.has_grow_memory,
            grow_memory_signature(),
            "grow_memory"@,
        );
        let (b2, value) = call_memory_function(b1, func, seq![pages]);
        (StandaloneRuntime { has_grow_memory: Some(func), ..self }, b2, value)
    }

    open spec fn current_memory(self, builder: BuilderModel) -> (Self, BuilderModel, Value) {
        let (b1, func) = memory_function(
            builder,
            self.has_current_memory,
            current_memory_signature(),
            "current_memory"@,
        );
        let (b2, value) = call_memory_function(b1, func, seq![]);
        (StandaloneRuntime { has_current_memory: Some(func), ..self }, b2, value)
    }

    open spec fn call_indirect(
        &self,
        builder: BuilderModel,
        sig_ref: SigRef,
        index_val: Value,
        call_args: Seq<Value>,
        num_results: usize,
    ) -> (BuilderModel, Seq<Value>) {
        indirect_call(
            builder,
            self.tables@[0].info.size,
            self.table_address,
            sig_ref,
            index_val,
            call_args,
            num_results,
        )
    }

    fn declare_global(&mut self, global: Global)
        ensures
            final(self).globals() == old(self).globals().push(GlobalInfo { global, offset: 0 }),
            final(self).tables() == old(self).tables(),
            final(self).memories() == old(self).memories(),
    {
        self.globals_info.push(GlobalInfo { global, offset: 0 });
    }

    fn declare_table(&mut self, table: Table)
        ensures
            final(self).tables().len() == old(self).tables().len() + 1,
            final(self).tables().last().info == table,
            final(self).tables().last().elements@ == Seq::new(
                table.size as nat,
                |i: int| TableElement::Trap(),
            ),
            final(self).tables().subrange(0, old(self).tables().len() as int) == old(self).tables(),
            final(self).globals() == old(self).globals(),
            final(self).memories() == old(self).memories(),
    {
        let mut elements: Vec<TableElement> = Vec::new();
        elements.resize(table.size, TableElement::Trap());
        assert(elements@ =~= Seq::new(table.size as nat, |i: int| TableElement::Trap()));
        self.tables.push(TablesData { info: table, addresses: Vec::new(), elements });
        assert(self.tables@.subrange(0, old(self).tables@.len() as int) =~= old(self).tables@);
    }

    fn declare_table_elements(
        &mut self,
        table_index: TableIndex,
        offset: usize,
        elements: &Vec<FunctionIndex>,
    )
        ensures
            final(self).tables().len() == old(self).tables().len(),
            forall|t: int|
                0 <= t < old(self).tables().len() && t != table_index
                    ==> #[trigger] final(self).tables()[t] == old(self).tables()[t],
            final(self).tables()[table_index as int].info == old(self).tables()[table_index as int].info,
            final(self).tables()[table_index as int].addresses == old(self).tables()[table_index as int].addresses,
            final(self).tables()[table_index as int].elements@.len() == old(self).tables()[table_index as int].elements@.len(),
            forall|i: int|
                0 <= i < elements@.len() ==> final(self).tables()[table_index as int].elements@[offset + i] == TableElement::Function(
                    #[trigger] elements@[i],
                ),
            forall|j: int|
                0 <= j < offset || offset + elements@.len() <= j < old(self).tables()[table_index as int].elements@.len() ==> #[trigger] final(self).tables()[table_index as int].elements@[j] == old(self).tables()[table_index as int].elements@[j],
            final(self).globals() == old(self).globals(),
            final(self).memories() == old(self).memories(),
    {
        let mut tables: Vec<TablesData> = Vec::new();
        std::mem::swap(&mut tables, &mut self.tables);
        let mut filled: Vec<TableElement> = Vec::new();
        std::mem::swap(&mut filled, &mut tables[table_index].elements);
        let ghost before = filled@;
        let mut i: usize = 0;
        while i < elements.len()
            invariant
                i <= elements.len(),
                filled.len() == before.len(),
                offset + elements.len() <= filled.len(),
                forall|k: int|
                    0 <= k < i ==> filled@[offset + k] == TableElement::Function(
                        #[trigger] elements@[k],
                    ),
                forall|j: int|
                    0 <= j < offset || offset + i <= j < before.len() ==> #[trigger] filled@[j]
                        == before[j],
            decreases elements.len() - i,
        {
            filled.set(offset + i, TableElement::Function(elements[i]));
            i += 1;
        }
        std::mem::swap(&mut filled, &mut tables[table_index].elements);
        std::mem::swap(&mut tables, &mut self.tables);
    }

    fn declare_memory(&mut self, memory: Memory)
        ensures
            final(self).memories().len() == old(self).memories().len() + 1,
            final(self).memories().last().info == memory,
            final(self).memories().last().data@ == Seq::new(
                if memory.pages_count * PAGE_SIZE <= usize::MAX {
                    (memory.pages_count * PAGE_SIZE) as nat
                } else {
                    0
                },
                |i: int| 0u8,
            ),
            final(self).memories().subrange(0, old(self).memories().len() as int) == old(self).memories(),
            final(self).globals() == old(self).globals(),
            final(self).tables() == old(self).tables(),
    {
        let mut data: Vec<u8> = Vec::new();
        match memory.pages_count.checked_mul(PAGE_SIZE) {
            Some(size) => {
                data.resize(size, 0);
            },
            None => {},
        }
        assert(data@ =~= Seq::new(
            if memory.pages_count * PAGE_SIZE <= usize::MAX {
                (memory.pages_count * PAGE_SIZE) as nat
            } else {
                0
            },
            |i: int| 0u8,
        ));
        self.memories.push(MemoryData { info: memory, data });
        assert(self.memories@.subrange(0, old(self).memories@.len() as int) =~= old(self).memories@);
    }

    fn declare_data_initialization(
        &mut self,
        memory_index: MemoryIndex,
        offset: usize,
        data: &Vec<u8>,
    ) -> (res: Result<(), String>)
        ensures
            res is Ok <==> memory_index < old(self).memories().len() && offset + data@.len() <= old(self).memories()[memory_index as int].data@.len(),
            res is Ok ==> final(self).memories().len() == old(self).memories().len() && final(self).memories()[memory_index as int].data@ == splice(
                old(self).memories()[memory_index as int].data@,
                offset as int,
                data@,
            ),
            res is Err ==> final(self).memories() == old(self).memories(),
            final(self).globals() == old(self).globals(),
            final(self).tables() == old(self).tables(),
    {
        if memory_index >= self.memories.len() {
            return Err("initialization data out of bounds".to_owned());
        }
        let size: usize = self.memories[memory_index].data.len();
        if data.len() > size || offset > size - data.len() {
            return Err("initialization data out of bounds".to_owned());
        }
        let mut memories: Vec<MemoryData> = Vec::new();
        std::mem::swap(&mut memories, &mut self.memories);
        let mut bytes: Vec<u8> = Vec::new();
        std::mem::swap(&mut bytes, &mut memories[memory_index].data);
        write_bytes(&mut bytes, offset, data);
        std::mem::swap(&mut bytes, &mut memories[memory_index].data);
        std::mem::swap(&mut memories, &mut self.memories);
        Ok(())
    }

    fn begin_translation(&mut self)
        ensures
            final(self).ready() <==> layable(final(self).globals()),
            final(self).ready() ==> final(self).laid_out(),
            final(self).globals().len() == old(self).globals().len(),
            forall|i: int|
                0 <= i < old(self).globals().len() ==> (#[trigger] final(self).globals()[i]).global
                    == old(self).globals()[i].global,
            final(self).memories() == old(self).memories(),
            final(self).tables().len() == old(self).tables().len(),
            forall|t: int|
                0 <= t < old(self).tables().len() ==> (#[trigger] final(self).tables()[t]).info == old(self).tables()[t].info && final(self).tables()[t].elements == old(self).tables()[t].elements,
    {
        let size = match self.lay_out_globals() {
            Some(size) => size,
            None => {
                return ;
            },
        };
        if !self.initializers_fit(size) {
            return ;
        }
        self.globals_data.clear();
        self.globals_data.resize(size, 0);
        assert(self.globals_data@ =~= initialized(self.globals_info@, 0));
        self.initialize_globals();
        self.allocate_tables();
        self.instantiated = true;
    }

    fn next_function(&mut self)
        ensures
            final(self).memory_functions() == (None::<FuncRef>, None::<FuncRef>),
            final(self).globals() == old(self).globals(),
            final(self).globals_area() == old(self).globals_area(),
            final(self).tables() == old(self).tables(),
            final(self).memories() == old(self).memories(),
            final(self).addresses() == old(self).addresses(),
    {
        self.has_current_memory = None;
        self.has_grow_memory = None;
    }

    fn supports_call_indirect(&self) -> (supported: bool) {
        self.tables.len() >= 1
    }

    fn table_takes_elements(&self, table_index: TableIndex, offset: usize, count: usize) -> (takes:
        bool) {
        if table_index >= self.tables.len() {
            return false;
        }
        let size: usize = self.tables[table_index].elements.len();
        count <= size && offset <= size - count
    }

    fn knows_global(&self, index: GlobalIndex) -> (known: bool) {
        index < self.globals_info.len()
    }

    fn is_ready(&self) -> (ready: bool) {
        self.instantiated
    }

    fn translate_get_global(&self, builder: &mut FunctionBuilder, global_index: GlobalIndex) -> (value:
        Value) {
        let info = self.globals_info[global_index];
        let ghost b0 = builder@;
        let address = emit(
            builder,
            InstHeader {
                opcode: Opcode::Iconst,
                ty: Some(ValueType::I64),
                cond: None,
                imm: Some(Imm::Int(self.globals_address)),
                target: None,
            },
            Vec::new(),
        );
        let ghost b1 = builder@;
        let value = emit(
            builder,
            InstHeader {
                opcode: Opcode::Load,
                ty: Some(info.global.ty),
                cond: None,
                imm: Some(Imm::Offset(#[verifier::truncate] (info.offset as i32))),
                target: None,
            },
            one(address),
        );
        proof {
            lemma_emits_code_transitive(b0, b1, builder@);
        }
        value
    }

    fn translate_set_global(
        &self,
        builder: &mut FunctionBuilder,
        global_index: GlobalIndex,
        val: Value,
    ) {
        let info = self.globals_info[global_index];
        let ghost b0 = builder@;
        let address = emit(
            builder,
            InstHeader {
                opcode: Opcode::Iconst,
                ty: Some(ValueType::I64),
                cond: None,
                imm: Some(Imm::Int(self.globals_address)),
                target: None,
            },
            Vec::new(),
        );
        let ghost b1 = builder@;
        let header = InstHeader {
            opcode: Opcode::Store,
            ty: None,
            cond: None,
            imm: Some(Imm::Offset(#[verifier::truncate] (info.offset as i32))),
            target: None,
        };
        let args = two(val, address);
        builder.ins(header, args);
        proof {
            lemma_ins_emits_code(b1, header, seq![val, address]);
            lemma_emits_code_transitive(b0, b1, builder@);
        }
    }

    fn translate_grow_memory(&mut self, builder: &mut FunctionBuilder, val: Value) -> (value: Value) {
        let ghost b0 = builder@;
        let signature = Signature { argument_types: vec![ValueType::I32], return_types: vec![ValueType::I32] };
        assert(signature@.argument_types =~= seq![ValueType::I32]);
        assert(signature@.return_types =~= seq![ValueType::I32]);
        let func = import_memory_function(
            builder,
            self.has_grow_memory,
            signature,
            "grow_memory".to_owned(),
        );
        self.has_grow_memory = Some(func);
        let ghost b1 = builder@;
        let value = emit_memory_call(builder, func, one(val));
        proof {
            lemma_emits_code_transitive(b0, b1, builder@);
        }
        value
    }

    fn translate_current_memory(&mut self, builder: &mut FunctionBuilder) -> (value: Value) {
        let ghost b0 = builder@;
        let signature = Signature { argument_types: Vec::new(), return_types: vec![ValueType::I32] };
        assert(signature@.argument_types =~= seq![]);
        assert(signature@.return_types =~= seq![ValueType::I32]);
        let func = import_memory_function(
            builder,
            self.has_current_memory,
            signature,
            "current_memory".to_owned(),
        );
        self.has_current_memory = Some(func);
        let ghost b1 = builder@;
        let value = emit_memory_call(builder, func, Vec::new());
        proof {
            lemma_emits_code_transitive(b0, b1, builder@);
        }
        value
    }

    fn translate_call_indirect(
        &self,
        builder: &mut FunctionBuilder,
        sig_ref: SigRef,
        index_val: Value,
        call_args: Vec<Value>,
        num_results: usize,
    ) -> (results: Vec<Value>) {
        let ghost b0 = builder@;
        let (trap_ebb, continue_ebb, entry) = emit_check_and_load(
            builder,
            self.tables[0].info.size,
            self.table_address,
            index_val,
        );
        let ghost b10 = builder@;
        let mut args = one(entry);
        let mut call_args = call_args;
        args.append(&mut call_args);
        let (call_inst, _result) = builder.ins(
            InstHeader {
                opcode: Opcode::CallIndirect,
                ty: None,
                cond: None,
                imm: None,
                target: Some(Target::Sig(sig_ref)),
            },
            args,
        );
        builder.ins(InstHeader::branch(Opcode::Jump, continue_ebb), Vec::new());
        builder.seal_block(continue_ebb);
        builder.switch_to_block(trap_ebb);
        builder.ins(InstHeader::plain(Opcode::Trap), Vec::new());
        builder.switch_to_block(continue_ebb);
        let ghost b13 = builder@;
        let results = inst_results(builder, call_inst, num_results);
        proof {
            assert(b13.commands.subrange(0, b0.commands.len() as int) =~= b10.commands.subrange(
                0,
                b0.commands.len() as int,
            ));
            assert(builder@.commands.subrange(0, b0.commands.len() as int) =~= b13.commands.subrange(
                0,
                b0.commands.len() as int,
            ));
        }
        results
    }
}

/// Emits the code that finds the function of an indirect call.
fn emit_check_and_load(
    builder: &mut FunctionBuilder,
    table_size: usize,
    table_address: i64,
    index_val: Value,
) -> (out: (Ebb, Ebb, Value))
    requires
        old(builder)@.wf(),
        old(builder)@.can_emit(),
        old(builder)@.defines(index_val),
    ensures
        (final(builder)@, out.0, out.1, out.2) == check_and_load(
            old(builder)@,
            table_size,
            table_address,
            index_val,
        ),
        emits_code(old(builder)@, final(builder)@),
        final(builder)@.position == old(builder)@.position,
        final(builder)@.defines(out.2),
        final(builder)@.num_ebbs() == old(builder)@.num_ebbs() + 2,
        out.0 == Ebb(old(builder)@.num_ebbs() as usize),
        out.1 == Ebb((old(builder)@.num_ebbs() + 1) as usize),
        !final(builder)@.is_filled_ebb(out.0),
        !final(builder)@.is_filled_ebb(out.1),
        !final(builder)@.is_sealed(out.1),
        final(builder)@.signatures == old(builder)@.signatures,
{
    let ghost b0 = builder@;
    let trap_ebb = builder.create_ebb();
    let continue_ebb = builder.create_ebb();
    let ghost b2 = builder@;
    assert(b2.commands.subrange(0, b0.commands.len() as int) =~= b0.commands);
    assert(emits_code(b0, b2));
    let size_val = emit(
        builder,
        InstHeader {
            opcode: Opcode::Iconst,
            ty: Some(ValueType::I32),
            cond: None,
            imm: Some(Imm::Int(#[verifier::truncate] (table_size as i64))),
            target: None,
        },
        Vec::new(),
    );
    let ghost b3 = builder@;
    let zero_val = emit(
        builder,
        InstHeader {
            opcode: Opcode::Iconst,
            ty: Some(ValueType::I32),
            cond: None,
            imm: Some(Imm::Int(0)),
            target: None,
        },
        Vec::new(),
    );
    let ghost b4 = builder@;
    proof {
        lemma_emits_code_transitive(b2, b3, b4);
        lemma_emits_code_transitive(b0, b2, b4);
    }
    let below = InstHeader {
        opcode: Opcode::BrIntCompare,
        ty: None,
        cond: Some(Cond::Int(IntCC::UnsignedLessThan)),
        imm: None,
        target: Some(Target::Ebb(trap_ebb)),
    };
    builder.ins(below, two(index_val, zero_val));
    let ghost b5 = builder@;
    let above = InstHeader {
        opcode: Opcode::BrIntCompare,
        ty: None,
        cond: Some(Cond::Int(IntCC::UnsignedGreaterThanOrEqual)),
        imm: None,
        target: Some(Target::Ebb(trap_ebb)),
    };
    builder.ins(above, two(index_val, size_val));
    let ghost b5b = builder@;
    builder.seal_block(trap_ebb);
    let ghost b6 = builder@;
    proof {
        lemma_ins_emits_code(b4, below, seq![index_val, zero_val]);
        lemma_ins_emits_code(b5, above, seq![index_val, size_val]);
        lemma_emits_code_transitive(b4, b5, b5b);
        lemma_emits_code_transitive(b0, b4, b5b);
        assert(b6.commands.subrange(0, b0.commands.len() as int) =~= b5b.commands.subrange(
            0,
            b0.commands.len() as int,
        ));
        assert(emits_code(b0, b6));
    }
    finish_load(builder, table_address, index_val, Ghost(b0), trap_ebb, continue_ebb)
}

/// Emits the load of the function's address from the table.
fn finish_load(
    builder: &mut FunctionBuilder,
    table_address: i64,
    index_val: Value,
    start: Ghost<BuilderModel>,
    trap_ebb: Ebb,
    continue_ebb: Ebb,
) -> (out: (Ebb, Ebb, Value))
    requires
        old(builder)@.wf(),
        old(builder)@.can_emit(),
        old(builder)@.defines(index_val),
        start@.wf(),
        emits_code(start@, old(builder)@),
    ensures
        out.0 == trap_ebb,
        out.1 == continue_ebb,
        ({
            let scale = InstHeader {
                imm: Some(Imm::Int(4)),
                ..InstHeader::spec_plain(Opcode::ImulImm)
            };
            let (b7, _i7, offset_val) = old(builder)@.ins(scale, seq![index_val]);
            let (b8, _i8, table_val) = b7.ins(address_header(ValueType::I32, table_address), seq![]);
            let (b9, _i9, entry_addr) = b8.ins(
                InstHeader::spec_plain(Opcode::Iadd),
                seq![table_val.unwrap(), offset_val.unwrap()],
            );
            let (b10, _i10, entry) = b9.ins(load_header(ValueType::I32, 0), seq![entry_addr.unwrap()]);
            final(builder)@ == b10 && entry == Some(out.2)
        }),
        emits_code(start@, final(builder)@),
        final(builder)@.position == old(builder)@.position,
        final(builder)@.defines(out.2),
        final(builder)@.sealed == old(builder)@.sealed,
        final(builder)@.filled == old(builder)@.filled,
        final(builder)@.signatures == old(builder)@.signatures,
{
    let ghost b6 = builder@;
    let offset_val = emit(
        builder,
        InstHeader {
            opcode: Opcode::ImulImm,
            ty: None,
            cond: None,
            imm: Some(Imm::Int(4)),
            target: None,
        },
        one(index_val),
    );
    let ghost b7 = builder@;
    let table_val = emit(
        builder,
        InstHeader {
            opcode: Opcode::Iconst,
            ty: Some(ValueType::I32),
            cond: None,
            imm: Some(Imm::Int(table_address)),
            target: None,
        },
        Vec::new(),
    );
    let ghost b8 = builder@;
    let entry_addr = emit(builder, InstHeader::plain(Opcode::Iadd), two(table_val, offset_val));
    let ghost b9 = builder@;
    let entry = emit(
        builder,
        InstHeader {
            opcode: Opcode::Load,
            ty: Some(ValueType::I32),
            cond: None,
            imm: Some(Imm::Offset(0)),
            target: None,
        },
        one(entry_addr),
    );
    proof {
        lemma_emits_code_transitive(b6, b7, b8);
        lemma_emits_code_transitive(b6, b8, b9);
        lemma_emits_code_transitive(b6, b9, builder@);
        lemma_emits_code_transitive(start@, b6, builder@);
    }
    (trap_ebb, continue_ebb, entry)
}

impl StandaloneRuntime {
    /// Whether every initializer can be carried out in an area of `size`
    /// bytes.
    fn initializers_fit(&self, size: usize) -> (fit: bool)
        requires
            size == globals_size(self.globals_info@),
            forall|i: int|
                0 <= i < self.globals_info@.len() ==> (#[trigger] self.globals_info@[i]).offset
                    == offset_of(self.globals_info@, i),
        ensures
            fit == layable(self.globals_info@),
    {
        let n: usize = self.globals_info.len();
        let mut i: usize = 0;
        while i < n
            invariant
                i <= n,
                n == self.globals_info@.len(),
                size == globals_size(self.globals_info@),
                forall|j: int|
                    0 <= j < n ==> (#[trigger] self.globals_info@[j]).offset == offset_of(
                        self.globals_info@,
                        j,
                    ),
                forall|j: int| 0 <= j < i ==> init_fits(self.globals_info@, j),
            decreases n - i,
        {
            let info = self.globals_info[i];
            proof {
                lemma_offsets_monotonic(self.globals_info@, i as int, n as int);
            }
            let width: usize = match info.global.initializer {
                GlobalInit::I32Const(_) | GlobalInit::F32Const(_) => 4,
                GlobalInit::I64Const(_) | GlobalInit::F64Const(_) => 8,
                GlobalInit::Import() => 0,
                GlobalInit::ImportRef(_) => info.global.ty.bytes(),
            };
            if width > size - info.offset {
                assert(!init_fits(self.globals_info@, i as int));
                return false;
            }
            match info.global.initializer {
                GlobalInit::ImportRef(r) => {
                    if r >= n {
                        assert(!init_fits(self.globals_info@, i as int));
                        return false;
                    }
                    proof {
                        lemma_offsets_monotonic(self.globals_info@, r as int, n as int);
                    }
                    if width > size - self.globals_info[r].offset {
                        assert(!init_fits(self.globals_info@, i as int));
                        return false;
                    }
                },
                _ => {},
            }
            i += 1;
        }
        true
    }

    /// Carries the initializers out, in the order of the declarations.
    fn initialize_globals(&mut self)
        requires
            layable(old(self).globals_info@),
            old(self).globals_data@ == initialized(old(self).globals_info@, 0),
            forall|i: int|
                0 <= i < old(self).globals_info@.len() ==> (#[trigger] old(self).globals_info@[i]).offset == offset_of(old(self).globals_info@, i),
        ensures
            final(self).globals_data@ == initialized(
                old(self).globals_info@,
                old(self).globals_info@.len() as int,
            ),
            final(self).globals_info == old(self).globals_info,
            final(self).tables == old(self).tables,
            final(self).memories == old(self).memories,
            final(self).instantiated == old(self).instantiated,
            final(self).has_current_memory == old(self).has_current_memory,
            final(self).has_grow_memory == old(self).has_grow_memory,
            final(self).globals_address == old(self).globals_address,
            final(self).table_address == old(self).table_address,
    {
        let n: usize = self.globals_info.len();
        let mut i: usize = 0;
        while i < n
            invariant
                i <= n,
                n == self.globals_info@.len(),
                layable(self.globals_info@),
                self.globals_data@ == initialized(self.globals_info@, i as int),
                forall|j: int|
                    0 <= j < n ==> (#[trigger] self.globals_info@[j]).offset == offset_of(
                        self.globals_info@,
                        j,
                    ),
                self.globals_info == old(self).globals_info,
                self.tables == old(self).tables,
                self.memories == old(self).memories,
                self.instantiated == old(self).instantiated,
                self.has_current_memory == old(self).has_current_memory,
                self.has_grow_memory == old(self).has_grow_memory,
                self.globals_address == old(self).globals_address,
                self.table_address == old(self).table_address,
            decreases n - i,
        {
            let info = self.globals_info[i];
            proof {
                lemma_initialized_len(self.globals_info@, i as int);
                lemma_offsets_monotonic(self.globals_info@, i as int, n as int);
                assert(init_fits(self.globals_info@, i as int));
            }
            match info.global.initializer {
                GlobalInit::I32Const(value) => {
                    write_i32(&mut self.globals_data, info.offset, value);
                },
                GlobalInit::I64Const(value) => {
                    write_i64(&mut self.globals_data, info.offset, value);
                },
                GlobalInit::F32Const(bits) => {
                    write_u32(&mut self.globals_data, info.offset, bits);
                },
                GlobalInit::F64Const(bits) => {
                    write_u64(&mut self.globals_data, info.offset, bits);
                },
                GlobalInit::Import() => {
                    // The value comes from another module: nothing is
                    // written here.
                },
                GlobalInit::ImportRef(r) => {
                    let from = self.globals_info[r].offset;
                    let bytes = read_bytes(&self.globals_data, from, info.global.ty.bytes());
                    write_bytes(&mut self.globals_data, info.offset, &bytes);
                },
            }
            i += 1;
        }
    }

    /// Gives each table one address for each element.
    fn allocate_tables(&mut self)
        ensures
            final(self).tables@.len() == old(self).tables@.len(),
            forall|t: int|
                0 <= t < old(self).tables@.len() ==> (#[trigger] final(self).tables@[t]).info == old(self).tables@[t].info && final(self).tables@[t].elements == old(self).tables@[t].elements,
            forall|t: int|
                0 <= t < final(self).tables@.len() ==> (#[trigger] final(self).tables@[t]).addresses@ == Seq::new(
                    final(self).tables@[t].info.size as nat,
                    |i: int| 0u32,
                ),
            final(self).globals_info == old(self).globals_info,
            final(self).globals_data == old(self).globals_data,
            final(self).memories == old(self).memories,
            final(self).instantiated == old(self).instantiated,
            final(self).has_current_memory == old(self).has_current_memory,
            final(self).has_grow_memory == old(self).has_grow_memory,
            final(self).globals_address == old(self).globals_address,
            final(self).table_address == old(self).table_address,
    {
        let mut tables: Vec<TablesData> = Vec::new();
        std::mem::swap(&mut tables, &mut self.tables);
        let n: usize = tables.len();
        let mut t: usize = 0;
        while t < n
            invariant
                t <= n,
                n == tables@.len(),
                n == old(self).tables@.len(),
                forall|k: int|
                    0 <= k < n ==> (#[trigger] tables@[k]).info == old(self).tables@[k].info
                        && tables@[k].elements == old(self).tables@[k].elements,
                forall|k: int|
                    0 <= k < t ==> (#[trigger] tables@[k]).addresses@ == Seq::new(
                        tables@[k].info.size as nat,
                        |i: int| 0u32,
                    ),
            decreases n - t,
        {
            let mut addresses: Vec<Address> = Vec::new();
            addresses.resize(tables[t].info.size, 0);
            assert(addresses@ =~= Seq::new(tables@[t as int].info.size as nat, |i: int| 0u32));
            std::mem::swap(&mut addresses, &mut tables[t].addresses);
            t += 1;
        }
        std::mem::swap(&mut tables, &mut self.tables);
    }
}

} // verus!
