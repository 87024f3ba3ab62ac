//! WebAssembly modules that a script loads at run time.
//!
//! A script compiles modules, instantiates them, calls what they export, and reads and writes
//! their memories. Modules and instances are known to it by id. The engine is that of the
//! `wasmtime` crate; every instance has a store of its own, whose memories are limited.
//!
//! Floating-point numbers come as their bits. What a number becomes in another type, where floating
//! point is involved, is the caller's to compute.
use vstd::prelude::*;
use wasmtime::{
    Config, Engine, ExternType, Func, Instance, Memory, Module, Store, StoreLimits,
    StoreLimitsBuilder, Val, ValType,
};

use crate::bytes::{overwritten, slice_of};
use crate::error::{AfterburnerError, ErrorView};
use crate::json::{
    first_member, json_object, member, member_is_the_first_of_its_name, member_of, members,
    object_with_text, put, text_in, Json, JsonView,
};
use crate::registry::{long_id_after, next_long, Slots};
use crate::text::{
    decimal, decimal_reads_back, fault_message, fault_text, i64_text, parse_i64, push_i64, push_u64,
    same_text, signed_number,
};

verus! {

pub type ModuleId = u64;

pub type InstanceId = u64;

/// Bytes that a memory of an instance may grow to.
pub const DEFAULT_MAX_MEMORY: usize = 268_435_456;

/// The engine of the `wasmtime` crate.
#[verifier::external_type_specification]
#[verifier::external_body]
pub struct ExEngine(Engine);

/// A compiled module of the `wasmtime` crate.
#[verifier::external_type_specification]
#[verifier::external_body]
pub struct ExModule(Module);

/// An instance in a store of the `wasmtime` crate.
#[verifier::external_type_specification]
#[verifier::external_body]
pub struct ExInstance(Instance);

/// A function in a store of the `wasmtime` crate.
#[verifier::external_type_specification]
#[verifier::external_body]
pub struct ExFunc(Func);

/// A memory in a store of the `wasmtime` crate.
#[verifier::external_type_specification]
#[verifier::external_body]
pub struct ExMemory(Memory);

/// A value of the `wasmtime` crate.
#[verifier::external_type_specification]
#[verifier::external_body]
pub struct ExVal(Val);

/// Limits of a store of the `wasmtime` crate.
#[verifier::external_type_specification]
#[verifier::external_body]
pub struct ExStoreLimits(StoreLimits);

/// A store of the `wasmtime` crate: it holds instances, their functions and their memories.
#[verifier::external_type_specification]
#[verifier::external_body]
#[verifier::reject_recursive_types(T)]
pub struct ExStore<T: 'static>(Store<T>);

/// What an export or an import is.
#[derive(Debug, Clone, Copy, PartialEq, Eq, Structural)]
pub enum ExternKind {
    Func,
    Memory,
    Table,
    Global,
    Other,
}

/// An export of a module: its name, what it is, and for a function how many parameters and results
/// it has.
#[verifier::ext_equal]
pub struct ExportView {
    pub name: Seq<char>,
    pub kind: ExternKind,
    pub params: usize,
    pub results: usize,
}

/// An import of a module: where it comes from, its name, and what it is.
#[verifier::ext_equal]
pub struct ImportView {
    pub module: Seq<char>,
    pub name: Seq<char>,
    pub kind: ExternKind,
}

/// The type of a value.
#[derive(Debug, Clone)]
pub enum ValueType {
    I32,
    I64,
    F32,
    F64,
    /// A type that has no plain values, as the engine prints it.
    Other(String),
}

/// [`ValueType`] over sequences.
#[verifier::ext_equal]
pub enum TypeView {
    I32,
    I64,
    F32,
    F64,
    Other(Seq<char>),
}

impl View for ValueType {
    type V = TypeView;

    open spec fn view(&self) -> TypeView {
        match self {
            ValueType::I32 => TypeView::I32,
            ValueType::I64 => TypeView::I64,
            ValueType::F32 => TypeView::F32,
            ValueType::F64 => TypeView::F64,
            ValueType::Other(s) => TypeView::Other(s@),
        }
    }
}

/// Types over sequences.
pub open spec fn type_views(v: Seq<ValueType>) -> Seq<TypeView> {
    Seq::new(v.len(), |i: int| v[i]@)
}

/// A function's type: its parameters, and how many results it has.
#[verifier::ext_equal]
pub struct FuncView {
    pub params: Seq<TypeView>,
    pub results: nat,
}

/// A value of a guest.
#[derive(Debug, Clone, Copy, PartialEq, Eq, Structural)]
pub enum WasmValue {
    I32(i32),
    I64(i64),
    /// A number of single precision, by its bits.
    F32(u32),
    /// A number of double precision, by its bits.
    F64(u64),
}

/// A result as the engine gives it.
pub enum RawResult {
    Value(WasmValue),
    /// A value that is no number, as the engine prints it.
    Other(String),
}

/// [`RawResult`] over sequences.
#[verifier::ext_equal]
pub enum RawView {
    Value(WasmValue),
    Other(Seq<char>),
}

impl View for RawResult {
    type V = RawView;

    open spec fn view(&self) -> RawView {
        match self {
            RawResult::Value(x) => RawView::Value(*x),
            RawResult::Other(text) => RawView::Other(text@),
        }
    }
}

/// Results over sequences.
pub open spec fn raw_views(v: Seq<RawResult>) -> Seq<RawView> {
    Seq::new(v.len(), |i: int| v[i]@)
}

/// What a value becomes in each type, as floating point has it.
#[derive(Debug, Clone, Copy, PartialEq, Eq, Structural)]
pub struct Casts {
    pub to_i32: i32,
    pub to_i64: i64,
    pub to_f32: u32,
    pub to_f64: u64,
}

/// An argument: a value, and what it becomes in other types.
#[derive(Debug, Clone, Copy, PartialEq, Eq, Structural)]
pub struct WasmArg {
    pub value: WasmValue,
    pub casts: Casts,
}

/// The binary that a module was compiled from.
pub uninterp spec fn module_source(m: Module) -> Seq<u8>;

/// What the module in a binary exports, in its order.
pub uninterp spec fn exports_of(binary: Seq<u8>) -> Seq<ExportView>;

/// What the module in a binary imports, in its order.
pub uninterp spec fn imports_of(binary: Seq<u8>) -> Seq<ImportView>;

/// The instances that a store holds, with the binary that each was made from.
pub uninterp spec fn instances_in(s: Store<StoreLimits>) -> Map<Instance, Seq<u8>>;

/// The functions that a store holds, with their types.
pub uninterp spec fn functions_in(s: Store<StoreLimits>) -> Map<Func, FuncView>;

/// The memories that a store holds, with their bytes.
pub uninterp spec fn memories_in(s: Store<StoreLimits>) -> Map<Memory, Seq<u8>>;

/// A call that a store has made: the type of the function, what was handed to it, and what came
/// back, or what was said where it trapped. An argument that is no number counts as none.
#[verifier::ext_equal]
pub struct CallView {
    pub function: FuncView,
    pub args: Seq<Option<WasmValue>>,
    pub outcome: Result<Seq<RawView>, Seq<char>>,
}

/// The calls that a store has made, in their order.
pub uninterp spec fn calls_in(s: Store<StoreLimits>) -> Seq<CallView>;

/// Bytes that a memory of a store may grow to.
pub uninterp spec fn memory_limit(s: Store<StoreLimits>) -> usize;

/// The memory that an instance exports under the name `memory`, if any.
pub uninterp spec fn memory_export(i: Instance) -> Option<Memory>;

/// The type of the function that the module in a binary exports under a name.
pub uninterp spec fn signature_of(binary: Seq<u8>, name: Seq<char>) -> FuncView;

/// Whether `name` is exported, as a function.
pub open spec fn exports_function(e: Seq<ExportView>, name: Seq<char>) -> bool {
    exists|i: int| 0 <= i < e.len() && (#[trigger] e[i]).name == name && e[i].kind is Func
}

/// Whether no memory of a store is larger than its limit.
pub open spec fn within_limit(s: Store<StoreLimits>) -> bool {
    forall|m: Memory| #[trigger]
        memories_in(s).contains_key(m) ==> memories_in(s)[m].len() <= memory_limit(s)
}

/// Whether two stores hold the same instances and memories, and have made the same calls.
pub open spec fn same_contents(a: Store<StoreLimits>, b: Store<StoreLimits>) -> bool {
    &&& instances_in(a) == instances_in(b)
    &&& calls_in(a) == calls_in(b)
    &&& memories_in(a) == memories_in(b)
    &&& memory_limit(a) == memory_limit(b)
}

/// Exports over sequences.
pub open spec fn export_views(v: Seq<(String, ExternKind, usize, usize)>) -> Seq<ExportView> {
    Seq::new(
        v.len(),
        |i: int| ExportView { name: v[i].0@, kind: v[i].1, params: v[i].2, results: v[i].3 },
    )
}

/// Imports over sequences.
pub open spec fn import_views(v: Seq<(String, String, ExternKind)>) -> Seq<ImportView> {
    Seq::new(v.len(), |i: int| ImportView { module: v[i].0@, name: v[i].1@, kind: v[i].2 })
}

/// `Engine::new` of the `wasmtime` crate, with its default settings but for the address space that
/// it sets aside for a memory: `reserved` bytes. Where it refuses that, `Engine::default`.
#[verifier::external_body]
fn new_engine(reserved: u64) -> Engine {
    let mut config = Config::new();
    config.memory_reservation(reserved);
    Engine::new(&config).unwrap_or_default()
}

/// `Module::from_binary` of the `wasmtime` crate, with the error made into the text that it prints.
/// A module that comes back was compiled from these bytes. Which bytes compile, and what the
/// engine says of others, is left open.
#[verifier::external_body]
fn module_from_binary(engine: &Engine, bytes: &[u8]) -> (r: Result<Module, String>)
    ensures
        r matches Ok(m) ==> module_source(m) == bytes@,
{
    match Module::from_binary(engine, bytes) {
        Ok(m) => Ok(m),
        Err(e) => Err(e.to_string()),
    }
}

/// `Module::exports` of the `wasmtime` crate: what a module exports follows from its binary.
#[verifier::external_body]
fn list_exports(m: &Module) -> (r: Vec<(String, ExternKind, usize, usize)>)
    ensures
        export_views(r@) == exports_of(module_source(*m)),
{
    m.exports().map(|e| match e.ty() {
        ExternType::Func(f) => {
            (e.name().to_string(), ExternKind::Func, f.params().len(), f.results().len())
        },
        ExternType::Memory(_) => (e.name().to_string(), ExternKind::Memory, 0, 0),
        ExternType::Table(_) => (e.name().to_string(), ExternKind::Table, 0, 0),
        ExternType::Global(_) => (e.name().to_string(), ExternKind::Global, 0, 0),
        ExternType::Tag(_) => (e.name().to_string(), ExternKind::Other, 0, 0),
    }).collect()
}

/// `Module::imports` of the `wasmtime` crate: what a module imports follows from its binary.
#[verifier::external_body]
fn list_imports(m: &Module) -> (r: Vec<(String, String, ExternKind)>)
    ensures
        import_views(r@) == imports_of(module_source(*m)),
{
    m.imports().map(|i| (i.module().to_string(), i.name().to_string(), match i.ty() {
        ExternType::Func(_) => ExternKind::Func,
        ExternType::Memory(_) => ExternKind::Memory,
        ExternType::Table(_) => ExternKind::Table,
        ExternType::Global(_) => ExternKind::Global,
        ExternType::Tag(_) => ExternKind::Other,
    })).collect()
}

/// `Store::new` of the `wasmtime` crate, with a limiter that keeps every memory of the store within
/// `max` bytes: a memory that would be larger is not made, and does not grow. The store has made no
/// call yet.
#[verifier::external_body]
fn new_store(engine: &Engine, max: usize) -> (r: Store<StoreLimits>)
    ensures
        memory_limit(r) == max,
        within_limit(r),
        calls_in(r).len() == 0,
{
    let mut s = Store::new(engine, StoreLimitsBuilder::new().memory_size(max).build());
    s.limiter(|limits| limits);
    s
}

/// `Instance::new` of the `wasmtime` crate without imports, with the error made into the text that
/// it prints. An instance that comes back belongs to the store, and so does the memory that it
/// exports; what that holds is left open. Whether a module is instantiated is left open too: its
/// start function may trap, and memory may run out.
#[verifier::external_body]
fn new_instance(store: &mut Store<StoreLimits>, module: &Module) -> (r: Result<Instance, String>)
    requires
        within_limit(*old(store)),
    ensures
        calls_in(*final(store)) == calls_in(*old(store)),
        memory_limit(*final(store)) == memory_limit(*old(store)),
        within_limit(*final(store)),
        r matches Ok(i) ==> instances_in(*final(store)).contains_key(i),
        r matches Ok(i) ==> instances_in(*final(store))[i] == module_source(*module),
        r matches Ok(i) ==> (memory_export(i) matches Some(m) ==> memories_in(
            *final(store),
        ).contains_key(m)),
{
    match Instance::new(store, module, &[]) {
        Ok(i) => Ok(i),
        Err(e) => Err(e.to_string()),
    }
}

/// `Instance::get_func` of the `wasmtime` crate finds a function exactly if its module exports one
/// by that name. The function belongs to the store, which keeps what it holds, and its type follows
/// from the module's binary.
#[verifier::external_body]
fn find_function(store: &mut Store<StoreLimits>, instance: &Instance, name: &str) -> (r: Option<
    Func,
>)
    requires
        instances_in(*old(store)).contains_key(*instance),
    ensures
        r is Some <==> exports_function(exports_of(instances_in(*old(store))[*instance]), name@),
        r matches Some(f) ==> functions_in(*final(store)).contains_key(f),
        r matches Some(f) ==> functions_in(*final(store))[f] == signature_of(
            instances_in(*old(store))[*instance],
            name@,
        ),
        same_contents(*old(store), *final(store)),
{
    instance.get_func(store, name)
}

/// `Func::ty` of the `wasmtime` crate, for the parameters.
#[verifier::external_body]
fn parameter_types(store: &Store<StoreLimits>, f: &Func) -> (r: Vec<ValueType>)
    requires
        functions_in(*store).contains_key(*f),
    ensures
        type_views(r@) == functions_in(*store)[*f].params,
{
    f.ty(store).params().map(|t| match t {
        ValType::I32 => ValueType::I32,
        ValType::I64 => ValueType::I64,
        ValType::F32 => ValueType::F32,
        ValType::F64 => ValueType::F64,
        other => ValueType::Other(format!("{other:?}")),
    }).collect()
}

/// The plain value that a value of the engine is, if it is a number.
pub uninterp spec fn plain_value(v: Val) -> Option<WasmValue>;

/// The plain values that values of the engine are, as far as they are numbers.
pub open spec fn plain_values(v: Seq<Val>) -> Seq<Option<WasmValue>> {
    Seq::new(v.len(), |i: int| plain_value(v[i]))
}

/// A call of a function with these arguments, from which this came back.
pub open spec fn a_call(
    function: FuncView,
    args: Seq<Val>,
    r: Result<Vec<RawResult>, String>,
) -> CallView {
    CallView {
        function,
        args: plain_values(args),
        outcome: match r {
            Ok(v) => Ok(raw_views(v@)),
            Err(text) => Err(text@),
        },
    }
}

/// `Func::call` of the `wasmtime` crate, with each result made into a plain value, or into the text
/// that it prints where it is no number, and the error into the text that it prints: the store makes
/// this call, with these arguments, and this comes back. A call that returns gives as many results
/// as the function's type says. What the results are is left open, and so is what the guest wrote to
/// its memories; a store keeps its instances, and no memory outgrows the limit.
#[verifier::external_body]
fn call_function(store: &mut Store<StoreLimits>, f: &Func, args: &Vec<Val>) -> (r: Result<
    Vec<RawResult>,
    String,
>)
    requires
        functions_in(*old(store)).contains_key(*f),
        within_limit(*old(store)),
    ensures
        r matches Ok(v) ==> v@.len() == functions_in(*old(store))[*f].results,
        calls_in(*final(store)) == calls_in(*old(store)).push(
            a_call(functions_in(*old(store))[*f], args@, r),
        ),
        instances_in(*final(store)) == instances_in(*old(store)),
        memories_in(*final(store)).dom() == memories_in(*old(store)).dom(),
        memory_limit(*final(store)) == memory_limit(*old(store)),
        within_limit(*final(store)),
{
    let mut back = vec![Val::I32(0); f.ty(&*store).results().len()];
    match f.call(store, args, &mut back) {
        Ok(()) => Ok(back.into_iter().map(|v| match v {
            Val::I32(x) => RawResult::Value(WasmValue::I32(x)),
            Val::I64(x) => RawResult::Value(WasmValue::I64(x)),
            Val::F32(x) => RawResult::Value(WasmValue::F32(x)),
            Val::F64(x) => RawResult::Value(WasmValue::F64(x)),
            other => RawResult::Other(format!("{other:?}")),
        }).collect()),
        Err(e) => Err(e.to_string()),
    }
}

/// A value of the `wasmtime` crate: its enum `Val` has one variant for each kind of number.
#[verifier::external_body]
fn to_val(v: WasmValue) -> (r: Val)
    ensures
        plain_value(r) == Some(v),
{
    match v {
        WasmValue::I32(x) => Val::I32(x),
        WasmValue::I64(x) => Val::I64(x),
        WasmValue::F32(x) => Val::F32(x),
        WasmValue::F64(x) => Val::F64(x),
    }
}

/// `Instance::get_memory` of the `wasmtime` crate, for the name `memory`: which memory an instance
/// exports never changes. The store keeps what it holds.
#[verifier::external_body]
fn find_memory(store: &mut Store<StoreLimits>, instance: &Instance) -> (r: Option<Memory>)
    requires
        instances_in(*old(store)).contains_key(*instance),
    ensures
        r == memory_export(*instance),
        same_contents(*old(store), *final(store)),
{
    instance.get_memory(store, "memory")
}

/// `Memory::data` of the `wasmtime` crate: the bytes of a memory.
#[verifier::external_body]
fn memory_bytes<'a>(store: &'a Store<StoreLimits>, m: &Memory) -> (r: &'a [u8])
    requires
        memories_in(*store).contains_key(*m),
    ensures
        r@ == memories_in(*store)[*m],
{
    m.data(store)
}

/// `Memory::write` of the `wasmtime` crate: it puts the bytes into a memory where they fit, and
/// changes nothing where they do not. The store keeps everything else that it holds.
#[verifier::external_body]
fn write_bytes(store: &mut Store<StoreLimits>, m: &Memory, at: usize, bytes: &[u8]) -> (r: bool)
    requires
        memories_in(*old(store)).contains_key(*m),
    ensures
        r == (at + bytes@.len() <= memories_in(*old(store))[*m].len()),
        r ==> memories_in(*final(store)) == memories_in(*old(store)).insert(
            *m,
            overwritten(memories_in(*old(store))[*m], at as int, bytes@),
        ),
        !r ==> memories_in(*final(store)) == memories_in(*old(store)),
        instances_in(*final(store)) == instances_in(*old(store)),
        calls_in(*final(store)) == calls_in(*old(store)),
        memory_limit(*final(store)) == memory_limit(*old(store)),
{
    m.write(store, at, bytes).is_ok()
}

/// How the kind of an export or an import is called.
pub open spec fn kind_name(k: ExternKind) -> Seq<char> {
    match k {
        ExternKind::Func => "function"@,
        ExternKind::Memory => "memory"@,
        ExternKind::Table => "table"@,
        ExternKind::Global => "global"@,
        ExternKind::Other => "unknown"@,
    }
}

fn kind_text(k: ExternKind) -> (r: String)
    ensures
        r@ == kind_name(k),
{
    match k {
        ExternKind::Func => "function".to_owned(),
        ExternKind::Memory => "memory".to_owned(),
        ExternKind::Table => "table".to_owned(),
        ExternKind::Global => "global".to_owned(),
        ExternKind::Other => "unknown".to_owned(),
    }
}

/// An export of a module, as a script sees it.
#[derive(Debug, Clone)]
pub struct ExportInfo {
    pub name: String,
    pub kind: String,
    pub param_count: u32,
    pub result_count: u32,
}

/// An import of a module, as a script sees it.
#[derive(Debug, Clone)]
pub struct ImportInfo {
    pub module: String,
    pub name: String,
    pub kind: String,
}

/// Whether a script is told of `e` in this way.
pub open spec fn tells_export(info: ExportInfo, e: ExportView) -> bool {
    &&& info.name@ == e.name
    &&& info.kind@ == kind_name(e.kind)
    &&& info.param_count == e.params as u32
    &&& info.result_count == e.results as u32
}

/// Whether a script is told of `e` in this way.
pub open spec fn tells_import(info: ImportInfo, e: ImportView) -> bool {
    &&& info.module@ == e.module
    &&& info.name@ == e.name
    &&& info.kind@ == kind_name(e.kind)
}

fn low_word(n: usize) -> (r: u32)
    ensures
        r == n as u32,
{
    #[verifier::truncate]
    (n as u32)
}

/// What a script is told of a module's exports.
pub fn describe_exports(list: Vec<(String, ExternKind, usize, usize)>) -> (r: Vec<ExportInfo>)
    ensures
        r@.len() == list@.len(),
        forall|i: int|
            0 <= i < r@.len() ==> tells_export(#[trigger] r@[i], export_views(list@)[i]),
{
    let mut out: Vec<ExportInfo> = Vec::new();
    let mut i: usize = 0;
    while i < list.len()
        invariant
            i <= list@.len(),
            out@.len() == i,
            forall|j: int| 0 <= j < i ==> tells_export(#[trigger] out@[j], export_views(list@)[j]),
        decreases list@.len() - i,
    {
        let e = &list[i];
        out.push(
            ExportInfo {
                name: e.0.as_str().to_owned(),
                kind: kind_text(e.1),
                param_count: low_word(e.2),
                result_count: low_word(e.3),
            },
        );
        i += 1;
    }
    out
}

/// What a script is told of a module's imports.
pub fn describe_imports(list: Vec<(String, String, ExternKind)>) -> (r: Vec<ImportInfo>)
    ensures
        r@.len() == list@.len(),
        forall|i: int|
            0 <= i < r@.len() ==> tells_import(#[trigger] r@[i], import_views(list@)[i]),
{
    let mut out: Vec<ImportInfo> = Vec::new();
    let mut i: usize = 0;
    while i < list.len()
        invariant
            i <= list@.len(),
            out@.len() == i,
            forall|j: int| 0 <= j < i ==> tells_import(#[trigger] out@[j], import_views(list@)[j]),
        decreases list@.len() - i,
    {
        let e = &list[i];
        out.push(
            ImportInfo {
                module: e.0.as_str().to_owned(),
                name: e.1.as_str().to_owned(),
                kind: kind_text(e.2),
            },
        );
        i += 1;
    }
    out
}

/// What `v` becomes as an argument of type `ty`, or what is wrong with it.
pub open spec fn coerced(v: WasmValue, ty: TypeView, casts: Casts) -> Result<WasmValue, Seq<char>> {
    match ty {
        TypeView::I32 => match v {
            WasmValue::I32(x) => Ok(WasmValue::I32(x)),
            WasmValue::I64(x) => if i32::MIN <= x <= i32::MAX {
                Ok(WasmValue::I32(x as i32))
            } else {
                Err("WebAssembly: i64 "@ + decimal(x as int) + " doesn't fit in i32"@)
            },
            _ => Ok(WasmValue::I32(casts.to_i32)),
        },
        TypeView::I64 => match v {
            WasmValue::I32(x) => Ok(WasmValue::I64(x as i64)),
            WasmValue::I64(x) => Ok(WasmValue::I64(x)),
            _ => Ok(WasmValue::I64(casts.to_i64)),
        },
        TypeView::F32 => match v {
            WasmValue::F32(x) => Ok(WasmValue::F32(x)),
            _ => Ok(WasmValue::F32(casts.to_f32)),
        },
        TypeView::F64 => match v {
            WasmValue::F64(x) => Ok(WasmValue::F64(x)),
            _ => Ok(WasmValue::F64(casts.to_f64)),
        },
        TypeView::Other(text) => Err("WebAssembly: unsupported param type "@ + text),
    }
}

/// Whether the outcome of a coercion is this one.
pub open spec fn is_coerced(
    r: Result<WasmValue, AfterburnerError>,
    expected: Result<WasmValue, Seq<char>>,
) -> bool {
    match expected {
        Ok(v) => r == Ok::<WasmValue, AfterburnerError>(v),
        Err(text) => r matches Err(e) && e@ == ErrorView::Host(text),
    }
}

impl WasmValue {
    /// What the value becomes as an argument of type `ty`; `casts` says what it becomes where
    /// floating point is involved.
    pub fn coerce(self, ty: &ValueType, casts: Casts) -> (r: Result<WasmValue, AfterburnerError>)
        ensures
            is_coerced(r, coerced(self, ty@, casts)),
    {
        match ty {
            ValueType::I32 => match self {
                WasmValue::I32(x) => Ok(WasmValue::I32(x)),
                WasmValue::I64(x) => {
                    if x < -2_147_483_648 || x > 2_147_483_647 {
                        let mut m = "WebAssembly: i64 ".to_owned();
                        push_i64(&mut m, x);
                        m.append(" doesn't fit in i32");
                        Err(AfterburnerError::Host(m))
                    } else {
                        Ok(WasmValue::I32(x as i32))
                    }
                },
                _ => Ok(WasmValue::I32(casts.to_i32)),
            },
            ValueType::I64 => match self {
                WasmValue::I32(x) => Ok(WasmValue::I64(x as i64)),
                WasmValue::I64(x) => Ok(WasmValue::I64(x)),
                _ => Ok(WasmValue::I64(casts.to_i64)),
            },
            ValueType::F32 => match self {
                WasmValue::F32(x) => Ok(WasmValue::F32(x)),
                _ => Ok(WasmValue::F32(casts.to_f32)),
            },
            ValueType::F64 => match self {
                WasmValue::F64(x) => Ok(WasmValue::F64(x)),
                _ => Ok(WasmValue::F64(casts.to_f64)),
            },
            ValueType::Other(text) => {
                let mut m = "WebAssembly: unsupported param type ".to_owned();
                m.append(text);
                Err(AfterburnerError::Host(m))
            },
        }
    }
}

/// Whether the first `n` arguments can be coerced.
pub open spec fn all_coerced(args: Seq<WasmArg>, types: Seq<TypeView>, n: int) -> bool {
    forall|i: int|
        0 <= i < n ==> coerced((#[trigger] args[i]).value, types[i], args[i].casts) is Ok
}

/// Coerces arguments to the types of the parameters; the first that does not fit is the error.
pub fn coerce_all(args: &Vec<WasmArg>, types: &Vec<ValueType>) -> (r: Result<
    Vec<WasmValue>,
    AfterburnerError,
>)
    requires
        args@.len() == types@.len(),
    ensures
        match r {
            Ok(v) => {
                &&& all_coerced(args@, type_views(types@), args@.len() as int)
                &&& v@.len() == args@.len()
                &&& forall|i: int|
                    0 <= i < args@.len() ==> coerced(args@[i].value, types@[i]@, args@[i].casts)
                        == Ok::<WasmValue, Seq<char>>(#[trigger] v@[i])
            },
            Err(e) => exists|k: int|
                0 <= k < args@.len() && #[trigger] all_coerced(args@, type_views(types@), k)
                    && coerced(args@[k].value, types@[k]@, args@[k].casts) == Err::<
                    WasmValue,
                    Seq<char>,
                >(e@->Host_0) && e@ is Host,
        },
{
    let mut out: Vec<WasmValue> = Vec::new();
    let mut i: usize = 0;
    while i < args.len()
        invariant
            args@.len() == types@.len(),
            i <= args@.len(),
            out@.len() == i,
            all_coerced(args@, type_views(types@), i as int),
            forall|j: int|
                0 <= j < i ==> coerced(args@[j].value, types@[j]@, args@[j].casts) == Ok::<
                    WasmValue,
                    Seq<char>,
                >(#[trigger] out@[j]),
        decreases args@.len() - i,
    {
        let arg: WasmArg = args[i];
        match arg.value.coerce(&types[i], arg.casts) {
            Ok(v) => {
                out.push(v);
            },
            Err(e) => {
                assert(all_coerced(args@, type_views(types@), i as int));
                return Err(e);
            },
        }
        i += 1;
    }
    Ok(out)
}

/// Whether `r` is what the results `v` come to: the plain values, or the error for the first that is
/// none.
pub open spec fn are_plain_results(
    v: Seq<RawResult>,
    r: Result<Vec<WasmValue>, AfterburnerError>,
) -> bool {
    match r {
        Ok(out) => out@.len() == v.len() && forall|i: int|
            0 <= i < v.len() ==> v[i] == RawResult::Value(#[trigger] out@[i]),
        Err(e) => exists|k: int|
            0 <= k < v.len() && (forall|j: int| 0 <= j < k ==> #[trigger] v[j] is Value)
                && #[trigger] v[k] is Other && e@ == ErrorView::Host(
                "WebAssembly: unsupported result type "@ + v[k]->Other_0@,
            ),
    }
}

fn plain_results(v: Vec<RawResult>) -> (r: Result<Vec<WasmValue>, AfterburnerError>)
    ensures
        are_plain_results(v@, r),
{
    let mut out: Vec<WasmValue> = Vec::new();
    let mut i: usize = 0;
    while i < v.len()
        invariant
            i <= v@.len(),
            out@.len() == i,
            forall|j: int| 0 <= j < i ==> v@[j] == RawResult::Value(#[trigger] out@[j]),
            forall|j: int| 0 <= j < i ==> #[trigger] v@[j] is Value,
        decreases v@.len() - i,
    {
        match &v[i] {
            RawResult::Value(x) => out.push(*x),
            RawResult::Other(text) => {
                let mut m = "WebAssembly: unsupported result type ".to_owned();
                m.append(text);
                assert(v@[i as int] is Other);
                return Err(AfterburnerError::Host(m));
            },
        }
        i += 1;
    }
    Ok(out)
}

/// Whether `r` is what a call comes to, where the engine says `outcome` of it.
pub open spec fn is_call_result(
    export_name: Seq<char>,
    outcome: Result<Vec<RawResult>, String>,
    r: Result<Vec<WasmValue>, AfterburnerError>,
) -> bool {
    match outcome {
        Ok(v) => are_plain_results(v@, r),
        Err(text) => r matches Err(e) && e@ == ErrorView::Host(
            "WebAssembly: `"@ + export_name + "` trapped: "@ + text@,
        ),
    }
}

/// What a call comes to: its results, or the error where the guest trapped or gave a value that is
/// no number.
pub fn call_result(export_name: &str, outcome: Result<Vec<RawResult>, String>) -> (r: Result<
    Vec<WasmValue>,
    AfterburnerError,
>)
    ensures
        is_call_result(export_name@, outcome, r),
{
    match outcome {
        Ok(v) => plain_results(v),
        Err(text) => {
            let mut m = "WebAssembly: `".to_owned();
            m.append(export_name);
            m.append("` trapped: ");
            m.append(&text);
            Err(AfterburnerError::Host(m))
        },
    }
}

/// An instance with the store that holds it.
pub struct Sandbox {
    store: Store<StoreLimits>,
    instance: Instance,
}

/// An instance: the binary that it was made from, the calls that were made of its functions, and the
/// bytes of the memory that it exports.
#[verifier::ext_equal]
pub struct InstanceView {
    pub binary: Seq<u8>,
    pub calls: Seq<CallView>,
    pub memory: Option<Seq<u8>>,
}

impl View for Sandbox {
    type V = InstanceView;

    closed spec fn view(&self) -> InstanceView {
        InstanceView {
            binary: instances_in(self.store)[self.instance],
            calls: calls_in(self.store),
            memory: match memory_export(self.instance) {
                Some(m) => Some(memories_in(self.store)[m]),
                None => None,
            },
        }
    }
}

impl Sandbox {
    /// Whether the instance and its memory belong to the store, and the memory is within its limit.
    pub closed spec fn wf(&self) -> bool {
        &&& instances_in(self.store).contains_key(self.instance)
        &&& memory_export(self.instance) matches Some(m) ==> memories_in(self.store).contains_key(m)
        &&& memory_limit(self.store) == DEFAULT_MAX_MEMORY
        &&& within_limit(self.store)
    }

    proof fn lemma_limit(&self)
        requires
            self.wf(),
        ensures
            self@.memory matches Some(bytes) ==> bytes.len() <= DEFAULT_MAX_MEMORY,
    {
        if let Some(m) = memory_export(self.instance) {
            assert(memories_in(self.store).contains_key(m));
        }
    }
}

/// The loader, over sequences.
#[verifier::ext_equal]
pub struct LoaderView {
    pub next_module: u64,
    pub next_instance: u64,
    /// The modules, by the binaries that they were compiled from.
    pub modules: Map<u64, Seq<u8>>,
    pub instances: Map<u64, InstanceView>,
}

/// The modules and instances that a script has loaded.
pub struct WasmLoader {
    engine: Engine,
    next_module_id: u64,
    next_instance_id: u64,
    modules: Slots<Module>,
    instances: Slots<Sandbox>,
}

impl View for WasmLoader {
    type V = LoaderView;

    closed spec fn view(&self) -> LoaderView {
        LoaderView {
            next_module: self.next_module_id,
            next_instance: self.next_instance_id,
            modules: Map::new(
                |id: u64| self.modules@.contains_key(id),
                |id: u64| module_source(self.modules@[id]),
            ),
            instances: Map::new(
                |id: u64| self.instances@.contains_key(id),
                |id: u64| self.instances@[id]@,
            ),
        }
    }
}

impl LoaderView {
    /// No modules, no instances.
    pub open spec fn fresh() -> LoaderView {
        LoaderView {
            next_module: 1,
            next_instance: 1,
            modules: Map::empty(),
            instances: Map::empty(),
        }
    }

    /// With a module that was compiled from `binary`.
    pub open spec fn compiled(self, binary: Seq<u8>) -> LoaderView {
        LoaderView {
            next_module: next_long(self.next_module),
            modules: self.modules.insert(self.next_module, binary),
            ..self
        }
    }

    /// With one more instance.
    pub open spec fn instantiated(self, instance: InstanceView) -> LoaderView {
        LoaderView {
            next_instance: next_long(self.next_instance),
            instances: self.instances.insert(self.next_instance, instance),
            ..self
        }
    }

    /// Without module `id`.
    pub open spec fn without_module(self, id: u64) -> LoaderView {
        LoaderView { modules: self.modules.remove(id), ..self }
    }

    /// Without instance `id`.
    pub open spec fn without_instance(self, id: u64) -> LoaderView {
        LoaderView { instances: self.instances.remove(id), ..self }
    }

    /// With `instance` in place of instance `id`.
    pub open spec fn with_instance(self, id: u64, instance: InstanceView) -> LoaderView {
        LoaderView { instances: self.instances.insert(id, instance), ..self }
    }

    /// With `bytes` in the memory of instance `id`, from `offset` on.
    pub open spec fn written(self, id: u64, offset: int, bytes: Seq<u8>) -> LoaderView {
        self.with_instance(
            id,
            InstanceView {
                memory: Some(overwritten(self.instances[id].memory->0, offset, bytes)),
                ..self.instances[id]
            },
        )
    }

    /// Whether instance `id` has a memory in which the bytes from `offset` to `end` lie.
    pub open spec fn in_memory(self, id: u64, end: int) -> bool {
        &&& self.instances.contains_key(id)
        &&& self.instances[id].memory matches Some(bytes) && end <= bytes.len()
    }
}

/// What is said of a module that is not known.
pub open spec fn unknown_module(id: u64) -> ErrorView {
    ErrorView::Host("WebAssembly: unknown module "@ + decimal(id as int))
}

/// What is said of a module that is not instantiated because it imports `name`.
pub open spec fn unsatisfied_import(name: Seq<char>) -> ErrorView {
    ErrorView::Host(
        "WebAssembly.instantiate: "@ + ("import not satisfied: "@ + name) + NO_IMPORTS_NOTE@,
    )
}

/// What is said of an instance that is not known.
pub open spec fn unknown_instance(id: u64) -> ErrorView {
    ErrorView::Host("WebAssembly: unknown instance "@ + decimal(id as int))
}

/// What is said of an instance without a memory.
pub open spec fn no_memory() -> ErrorView {
    ErrorView::Host("WebAssembly: instance does not export `memory`"@)
}

/// What is said of a range that a memory does not hold; `what` names the operation.
pub open spec fn bad_range(what: Seq<char>, start: int, end: int, size: int) -> ErrorView {
    ErrorView::Host(
        "WebAssembly.memory."@ + what + ": range "@ + decimal(start) + ".."@ + decimal(end)
            + " exceeds memory size "@ + decimal(size),
    )
}

/// What is said of a range that ends beyond every address.
pub open spec fn range_overflow(what: Seq<char>) -> ErrorView {
    ErrorView::Host("WebAssembly.memory."@ + what + ": offset+len overflow"@)
}

/// What is said behind the reason for which a module was not instantiated.
pub const NO_IMPORTS_NOTE: &'static str = ". Burn's WASM loader v1 doesn't supply user-defined imports yet — modules with `(import \"x\" \"y\")` need to be re-built without imports, or wait for the next loader release.";

fn unknown_module_error(id: u64) -> (r: AfterburnerError)
    ensures
        r@ == unknown_module(id),
{
    let mut m = "WebAssembly: unknown module ".to_owned();
    push_u64(&mut m, id);
    AfterburnerError::Host(m)
}

fn unknown_instance_error(id: u64) -> (r: AfterburnerError)
    ensures
        r@ == unknown_instance(id),
{
    let mut m = "WebAssembly: unknown instance ".to_owned();
    push_u64(&mut m, id);
    AfterburnerError::Host(m)
}

fn bad_range_error(what: &str, start: usize, end: usize, size: usize) -> (r: AfterburnerError)
    ensures
        r@ == bad_range(what@, start as int, end as int, size as int),
{
    let mut m = "WebAssembly.memory.".to_owned();
    m.append(what);
    m.append(": range ");
    push_u64(&mut m, start as u64);
    m.append("..");
    push_u64(&mut m, end as u64);
    m.append(" exceeds memory size ");
    push_u64(&mut m, size as u64);
    AfterburnerError::Host(m)
}

fn overflow_error(what: &str) -> (r: AfterburnerError)
    ensures
        r@ == range_overflow(what@),
{
    let mut m = "WebAssembly.memory.".to_owned();
    m.append(what);
    m.append(": offset+len overflow");
    AfterburnerError::Host(m)
}

impl WasmLoader {
    /// Whether all that is loaded is in order.
    pub closed spec fn wf(&self) -> bool {
        &&& self.modules.wf()
        &&& self.instances.wf()
        &&& forall|id: u64| #[trigger]
            self.instances@.contains_key(id) ==> self.instances@[id].wf()
    }

    /// A loader without modules and instances.
    pub fn new() -> (r: Self)
        ensures
            r.wf(),
            r@ == LoaderView::fresh(),
    {
        let r = WasmLoader {
            engine: new_engine(DEFAULT_MAX_MEMORY as u64),
            next_module_id: 1,
            next_instance_id: 1,
            modules: Slots::new(),
            instances: Slots::new(),
        };
        assert(r@ =~= LoaderView::fresh());
        r
    }

    /// Takes what came of compiling a binary: the module's id, or the error.
    pub fn register_module(&mut self, outcome: Result<Module, String>) -> (r: Result<
        ModuleId,
        AfterburnerError,
    >)
        requires
            old(self).wf(),
        ensures
            final(self).wf(),
            match outcome {
                Ok(m) => r == Ok::<u64, AfterburnerError>(old(self)@.next_module) && final(self)@
                    == old(self)@.compiled(module_source(m)),
                Err(text) => final(self)@ == old(self)@ && (r matches Err(e) && e@
                    == ErrorView::Host("WebAssembly.compile: "@ + text@)),
            },
    {
        match outcome {
            Ok(m) => {
                let id: u64 = self.next_module_id;
                self.next_module_id = long_id_after(id);
                self.modules.insert(id, m);
                assert(self@ =~= old(self)@.compiled(module_source(m)));
                Ok(id)
            },
            Err(text) => {
                let mut m = "WebAssembly.compile: ".to_owned();
                m.append(&text);
                Err(AfterburnerError::Host(m))
            },
        }
    }

    /// Compiles a module. Whether the bytes compile is for the engine to say.
    pub fn compile(&mut self, bytes: &[u8]) -> (r: Result<ModuleId, AfterburnerError>)
        requires
            old(self).wf(),
        ensures
            final(self).wf(),
            match r {
                Ok(id) => id == old(self)@.next_module && final(self)@ == old(self)@.compiled(bytes@),
                Err(e) => final(self)@ == old(self)@ && exists|text: Seq<char>|
                    e@ == ErrorView::Host(#[trigger] ("WebAssembly.compile: "@ + text)),
            },
    {
        let outcome = module_from_binary(&self.engine, bytes);
        self.register_module(outcome)
    }

    /// Forgets a module.
    pub fn drop_module(&mut self, id: ModuleId)
        requires
            old(self).wf(),
        ensures
            final(self).wf(),
            final(self)@ == old(self)@.without_module(id),
    {
        let _ = self.modules.take(id);
        assert(self@ =~= old(self)@.without_module(id));
    }

    /// What a module exports.
    pub fn module_exports(&self, id: ModuleId) -> (r: Result<Vec<ExportInfo>, AfterburnerError>)
        requires
            self.wf(),
        ensures
            match r {
                Ok(v) => self@.modules.contains_key(id) && v@.len() == exports_of(
                    self@.modules[id],
                ).len() && forall|i: int|
                    0 <= i < v@.len() ==> tells_export(
                        #[trigger] v@[i],
                        exports_of(self@.modules[id])[i],
                    ),
                Err(e) => !self@.modules.contains_key(id) && e@ == unknown_module(id),
            },
    {
        match self.modules.get(id) {
            Some(m) => {
                let list = list_exports(m);
                assert(export_views(list@).len() == list@.len());
                Ok(describe_exports(list))
            },
            None => Err(unknown_module_error(id)),
        }
    }

    /// What a module imports.
    pub fn module_imports(&self, id: ModuleId) -> (r: Result<Vec<ImportInfo>, AfterburnerError>)
        requires
            self.wf(),
        ensures
            match r {
                Ok(v) => self@.modules.contains_key(id) && v@.len() == imports_of(
                    self@.modules[id],
                ).len() && forall|i: int|
                    0 <= i < v@.len() ==> tells_import(
                        #[trigger] v@[i],
                        imports_of(self@.modules[id])[i],
                    ),
                Err(e) => !self@.modules.contains_key(id) && e@ == unknown_module(id),
            },
    {
        match self.modules.get(id) {
            Some(m) => {
                let list = list_imports(m);
                assert(import_views(list@).len() == list@.len());
                Ok(describe_imports(list))
            },
            None => Err(unknown_module_error(id)),
        }
    }

    /// Takes what came of instantiating a module: the instance's id, or the error.
    pub fn register_instance(&mut self, outcome: Result<Sandbox, String>) -> (r: Result<
        InstanceId,
        AfterburnerError,
    >)
        requires
            old(self).wf(),
            outcome matches Ok(sandbox) ==> sandbox.wf(),
        ensures
            final(self).wf(),
            match outcome {
                Ok(sandbox) => r == Ok::<u64, AfterburnerError>(old(self)@.next_instance)
                    && final(self)@ == old(self)@.instantiated(sandbox@),
                Err(text) => final(self)@ == old(self)@ && (r matches Err(e) && e@
                    == ErrorView::Host("WebAssembly.instantiate: "@ + text@ + NO_IMPORTS_NOTE@)),
            },
    {
        match outcome {
            Ok(sandbox) => {
                let id: u64 = self.next_instance_id;
                self.next_instance_id = long_id_after(id);
                self.instances.insert(id, sandbox);
                assert(self@ =~= old(self)@.instantiated(sandbox@));
                assert forall|k: u64| #[trigger]
                    self.instances@.contains_key(k) implies self.instances@[k].wf() by {
                    if k != id {
                        assert(old(self).instances@.contains_key(k));
                    }
                }
                Ok(id)
            },
            Err(text) => {
                let mut m = "WebAssembly.instantiate: ".to_owned();
                m.append(&text);
                m.append(NO_IMPORTS_NOTE);
                Err(AfterburnerError::Host(m))
            },
        }
    }

    /// Instantiates a module. One that imports anything is refused, with the name of the first thing
    /// that it imports; whether another is instantiated is for the engine to say. The memory of an
    /// instance is within its limit.
    pub fn instantiate(&mut self, module_id: ModuleId) -> (r: Result<InstanceId, AfterburnerError>)
        requires
            old(self).wf(),
        ensures
            final(self).wf(),
            !old(self)@.modules.contains_key(module_id) ==> final(self)@ == old(self)@ && (
            r matches Err(e) && e@ == unknown_module(module_id)),
            old(self)@.modules.contains_key(module_id) && imports_of(
                old(self)@.modules[module_id],
            ).len() > 0 ==> final(self)@ == old(self)@ && (r matches Err(e) && e@
                == unsatisfied_import(imports_of(old(self)@.modules[module_id])[0].name)),
            old(self)@.modules.contains_key(module_id) && imports_of(
                old(self)@.modules[module_id],
            ).len() == 0 ==> match r {
                Ok(id) => {
                    &&& id == old(self)@.next_instance
                    &&& final(self)@ == old(self)@.instantiated(final(self)@.instances[id])
                    &&& final(self)@.instances[id].binary == old(self)@.modules[module_id]
                    &&& final(self)@.instances[id].calls.len() == 0
                    &&& final(self)@.instances[id].memory matches Some(bytes) ==> bytes.len()
                        <= DEFAULT_MAX_MEMORY
                },
                Err(e) => final(self)@ == old(self)@ && exists|text: Seq<char>|
                    e@ == ErrorView::Host(
                        #[trigger] ("WebAssembly.instantiate: "@ + text) + NO_IMPORTS_NOTE@,
                    ),
            },
    {
        let module = match self.modules.get(module_id) {
            Some(m) => m,
            None => return Err(unknown_module_error(module_id)),
        };
        let imports = list_imports(module);
        assert(import_views(imports@).len() == imports@.len());
        let outcome = if imports.len() > 0 {
            assert(import_views(imports@)[0].name == imports@[0].1@);
            let mut text = "import not satisfied: ".to_owned();
            text.append(&imports[0].1);
            Err(text)
        } else {
            let mut store = new_store(&self.engine, DEFAULT_MAX_MEMORY);
            match new_instance(&mut store, module) {
                Ok(instance) => Ok(Sandbox { store, instance }),
                Err(text) => Err(text),
            }
        };
        proof {
            if let Ok(sandbox) = &outcome {
                sandbox.lemma_limit();
            }
        }
        self.register_instance(outcome)
    }

    /// Forgets an instance.
    pub fn drop_instance(&mut self, id: InstanceId)
        requires
            old(self).wf(),
        ensures
            final(self).wf(),
            final(self)@ == old(self)@.without_instance(id),
    {
        let _ = self.instances.take(id);
        assert forall|k: u64| #[trigger] self.instances@.contains_key(k) implies self.instances@[k].wf() by {
            assert(old(self).instances@.contains_key(k));
        }
        assert(self@ =~= old(self)@.without_instance(id));
    }

    /// Puts an instance back that was taken out.
    fn put_back(&mut self, id: u64, sandbox: Sandbox)
        requires
            old(self).wf(),
            sandbox.wf(),
        ensures
            final(self).wf(),
            final(self)@ == (LoaderView {
                instances: old(self)@.instances.insert(id, sandbox@),
                ..old(self)@
            }),
    {
        self.instances.insert(id, sandbox);
        assert forall|k: u64| #[trigger] self.instances@.contains_key(k) implies self.instances@[k].wf() by {
            if k != id {
                assert(old(self).instances@.contains_key(k));
            }
        }
        assert(self@ =~= (LoaderView {
            instances: old(self)@.instances.insert(id, sandbox@),
            ..old(self)@
        }));
    }

    /// Takes an instance out.
    fn take_out(&mut self, id: u64) -> (r: Option<Sandbox>)
        requires
            old(self).wf(),
        ensures
            final(self).wf(),
            final(self)@ == old(self)@.without_instance(id),
            r is Some <==> old(self)@.instances.contains_key(id),
            r matches Some(s) ==> s.wf() && s@ == old(self)@.instances[id],
    {
        let r = self.instances.take(id);
        assert forall|k: u64| #[trigger] self.instances@.contains_key(k) implies self.instances@[k].wf() by {
            assert(old(self).instances@.contains_key(k));
        }
        assert(self@ =~= old(self)@.without_instance(id));
        r
    }

    /// Calls an exported function of an instance. The instance must be known, the function exported,
    /// and every argument fit its parameter; then the guest makes this one call, and what it comes to
    /// is for the guest to say. Nothing but the memory of the instance may change.
    pub fn call_export(
        &mut self,
        instance_id: InstanceId,
        export_name: &str,
        args: Vec<WasmArg>,
    ) -> (r: Result<Vec<WasmValue>, AfterburnerError>)
        requires
            old(self).wf(),
        ensures
            final(self).wf(),
            !old(self)@.instances.contains_key(instance_id) ==> final(self)@ == old(self)@ && (
            r matches Err(e) && e@ == unknown_instance(instance_id)),
            old(self)@.instances.contains_key(instance_id) && !exports_function(
                exports_of(old(self)@.instances[instance_id].binary),
                export_name@,
            ) ==> final(self)@ == old(self)@ && (r matches Err(e) && e@ == ErrorView::Host(
                "WebAssembly: export `"@ + export_name@ + "` not found or not a function"@,
            )),
            old(self)@.instances.contains_key(instance_id) && exports_function(
                exports_of(old(self)@.instances[instance_id].binary),
                export_name@,
            ) ==> {
                &&& is_call(
                    old(self)@.instances[instance_id],
                    export_name@,
                    args@,
                    r,
                    final(self)@.instances[instance_id],
                )
                &&& final(self)@ == old(self)@.with_instance(
                    instance_id,
                    final(self)@.instances[instance_id],
                )
                &&& final(self)@.instances[instance_id].memory matches Some(bytes) ==> bytes.len()
                    <= DEFAULT_MAX_MEMORY
            },
    {
        let mut sandbox = match self.take_out(instance_id) {
            Some(s) => s,
            None => {
                assert(self@ =~= old(self)@);
                return Err(unknown_instance_error(instance_id));
            },
        };
        let ghost before = sandbox@;
        let r = sandbox.call(export_name, args);
        proof {
            sandbox.lemma_limit();
        }
        self.put_back(instance_id, sandbox);
        assert(self@ =~= old(self)@.with_instance(instance_id, sandbox@));
        assert(sandbox@ == before ==> self@ =~= old(self)@);
        r
    }

    /// Reads bytes of an instance's memory.
    pub fn memory_read(&mut self, instance_id: InstanceId, offset: u32, len: u32) -> (r: Result<
        Vec<u8>,
        AfterburnerError,
    >)
        requires
            old(self).wf(),
        ensures
            final(self).wf(),
            final(self)@ == old(self)@,
            match r {
                Ok(bytes) => old(self)@.in_memory(instance_id, offset + len) && bytes@
                    == old(self)@.instances[instance_id].memory->0.subrange(
                    offset as int,
                    offset + len,
                ),
                Err(e) => e@ == access_error(
                    old(self)@,
                    instance_id,
                    "read"@,
                    offset as int,
                    len as int,
                ),
            },
            r is Ok <==> old(self)@.in_memory(instance_id, offset + len),
    {
        let mut sandbox = match self.take_out(instance_id) {
            Some(s) => s,
            None => {
                assert(self@ =~= old(self)@);
                return Err(unknown_instance_error(instance_id));
            },
        };
        let r = sandbox.read(offset, len);
        self.put_back(instance_id, sandbox);
        assert(self@ =~= old(self)@);
        r
    }

    /// Writes bytes into an instance's memory.
    pub fn memory_write(&mut self, instance_id: InstanceId, offset: u32, bytes: &[u8]) -> (r: Result<
        (),
        AfterburnerError,
    >)
        requires
            old(self).wf(),
        ensures
            final(self).wf(),
            match r {
                Ok(_) => old(self)@.in_memory(instance_id, offset + bytes@.len()) && final(self)@
                    == old(self)@.written(instance_id, offset as int, bytes@),
                Err(e) => final(self)@ == old(self)@ && e@ == access_error(
                    old(self)@,
                    instance_id,
                    "write"@,
                    offset as int,
                    bytes@.len() as int,
                ),
            },
            r is Ok <==> old(self)@.in_memory(instance_id, offset + bytes@.len()),
    {
        let mut sandbox = match self.take_out(instance_id) {
            Some(s) => s,
            None => {
                assert(self@ =~= old(self)@);
                return Err(unknown_instance_error(instance_id));
            },
        };
        let r = sandbox.write(offset, bytes);
        self.put_back(instance_id, sandbox);
        if r.is_ok() {
            assert(self@ =~= old(self)@.written(instance_id, offset as int, bytes@));
        } else {
            assert(self@ =~= old(self)@);
        }
        r
    }

    /// How many bytes an instance's memory has.
    pub fn memory_size(&mut self, instance_id: InstanceId) -> (r: Result<u64, AfterburnerError>)
        requires
            old(self).wf(),
        ensures
            final(self).wf(),
            final(self)@ == old(self)@,
            r matches Ok(n) ==> n <= DEFAULT_MAX_MEMORY,
            match r {
                Ok(n) => old(self)@.in_memory(instance_id, n as int) && n
                    == old(self)@.instances[instance_id].memory->0.len(),
                Err(e) => if old(self)@.instances.contains_key(instance_id) {
                    old(self)@.instances[instance_id].memory is None && e@ == no_memory()
                } else {
                    e@ == unknown_instance(instance_id)
                },
            },
    {
        let mut sandbox = match self.take_out(instance_id) {
            Some(s) => s,
            None => {
                assert(self@ =~= old(self)@);
                return Err(unknown_instance_error(instance_id));
            },
        };
        let r = sandbox.size();
        self.put_back(instance_id, sandbox);
        assert(self@ =~= old(self)@);
        r
    }
}

/// What is said where the bytes from `offset` on cannot be read or written.
pub open spec fn access_error(
    v: LoaderView,
    id: u64,
    what: Seq<char>,
    offset: int,
    len: int,
) -> ErrorView {
    if !v.instances.contains_key(id) {
        unknown_instance(id)
    } else {
        range_error(v.instances[id].memory, what, offset, len)
    }
}

/// What is said where a memory does not hold the bytes from `offset` on.
pub open spec fn range_error(
    memory: Option<Seq<u8>>,
    what: Seq<char>,
    offset: int,
    len: int,
) -> ErrorView {
    match memory {
        None => no_memory(),
        Some(bytes) => if offset + len > usize::MAX {
            range_overflow(what)
        } else {
            bad_range(what, offset, offset + len, bytes.len() as int)
        },
    }
}

/// Whether `r` is what comes of calling an exported function: an error where the arguments do not
/// fit its parameters, and then nothing changes; otherwise what comes back from one call of the
/// function with what the arguments become.
pub open spec fn is_call(
    before: InstanceView,
    export_name: Seq<char>,
    args: Seq<WasmArg>,
    r: Result<Vec<WasmValue>, AfterburnerError>,
    after: InstanceView,
) -> bool {
    let f = signature_of(before.binary, export_name);
    if fit(args, f.params) {
        &&& after.binary == before.binary
        &&& after.calls.len() == before.calls.len() + 1
        &&& after.calls.drop_last() == before.calls
        &&& after.calls.last().function == f
        &&& after.calls.last().args == handed(args, f.params)
        &&& is_outcome(export_name, f.results, after.calls.last().outcome, r)
    } else {
        &&& after == before
        &&& r matches Err(e) && is_argument_error(export_name, args, f.params, e@)
    }
}

/// Whether there are as many arguments as parameters, each fit for its own.
pub open spec fn fit(args: Seq<WasmArg>, types: Seq<TypeView>) -> bool {
    args.len() == types.len() && all_coerced(args, types, args.len() as int)
}

/// What arguments become for parameters of these types.
pub open spec fn handed(args: Seq<WasmArg>, types: Seq<TypeView>) -> Seq<Option<WasmValue>> {
    Seq::new(
        args.len(),
        |i: int| Some(coerced(args[i].value, types[i], args[i].casts)->Ok_0),
    )
}

/// Whether `r` is what a call comes to from which `outcome` came back: as many numbers as the
/// function has results; or the error for the first that is none, or for a trap.
pub open spec fn is_outcome(
    export_name: Seq<char>,
    results: nat,
    outcome: Result<Seq<RawView>, Seq<char>>,
    r: Result<Vec<WasmValue>, AfterburnerError>,
) -> bool {
    match outcome {
        Ok(given) => given.len() == results && match r {
            Ok(out) => given == Seq::new(out@.len(), |i: int| RawView::Value(out@[i])),
            Err(e) => exists|k: int|
                0 <= k < given.len() && #[trigger] given[k] is Other && (forall|j: int|
                    0 <= j < k ==> #[trigger] given[j] is Value) && e@ == ErrorView::Host(
                    "WebAssembly: unsupported result type "@ + given[k]->Other_0,
                ),
        },
        Err(text) => r matches Err(e) && e@ == ErrorView::Host(
            "WebAssembly: `"@ + export_name + "` trapped: "@ + text,
        ),
    }
}

impl Sandbox {
    /// Calls an exported function.
    fn call(&mut self, export_name: &str, args: Vec<WasmArg>) -> (r: Result<
        Vec<WasmValue>,
        AfterburnerError,
    >)
        requires
            old(self).wf(),
        ensures
            final(self).wf(),
            final(self)@.binary == old(self)@.binary,
            exports_function(exports_of(old(self)@.binary), export_name@) ==> is_call(
                old(self)@,
                export_name@,
                args@,
                r,
                final(self)@,
            ),
            !exports_function(exports_of(old(self)@.binary), export_name@) ==> final(self)@
                == old(self)@ && (r matches Err(e) && e@ == ErrorView::Host(
                "WebAssembly: export `"@ + export_name@ + "` not found or not a function"@,
            )),
    {
        let f = match find_function(&mut self.store, &self.instance, export_name) {
            Some(f) => f,
            None => {
                let mut m = "WebAssembly: export `".to_owned();
                m.append(export_name);
                m.append("` not found or not a function");
                return Err(AfterburnerError::Host(m));
            },
        };
        let types = parameter_types(&self.store, &f);
        let vals = match check_arguments(export_name, &args, &types) {
            Ok(vals) => vals,
            Err(e) => return Err(e),
        };
        let mut vector: Vec<Val> = Vec::new();
        let mut i: usize = 0;
        while i < vals.len()
            invariant
                i <= vals@.len(),
                vector@.len() == i,
                forall|j: int|
                    0 <= j < i ==> plain_value(#[trigger] vector@[j]) == Some(vals@[j]),
            decreases vals@.len() - i,
        {
            vector.push(to_val(vals[i]));
            i += 1;
        }
        assert(all_coerced(args@, type_views(types@), args@.len() as int)) by {
            assert forall|j: int| 0 <= j < args@.len() implies coerced(
                #[trigger] args@[j].value,
                type_views(types@)[j],
                args@[j].casts,
            ) is Ok by {
                assert(coerced(args@[j].value, type_views(types@)[j], args@[j].casts) == Ok::<
                    WasmValue,
                    Seq<char>,
                >(vals@[j]));
            }
        }
        let ghost before = calls_in(self.store);
        let ghost f_type = functions_in(self.store)[f];
        let back = call_function(&mut self.store, &f, &vector);
        assert(plain_values(vector@) =~= handed(args@, type_views(types@)));
        assert(self@.calls.drop_last() =~= before);
        assert(self@.calls.last() == a_call(f_type, vector@, back));
        let ghost came = back;
        let r = call_result(export_name, back);
        proof {
            if let Ok(raw) = came {
                lemma_outcome(export_name@, raw@, r);
            }
        }
        r
    }

    /// Reads bytes of the memory.
    fn read(&mut self, offset: u32, len: u32) -> (r: Result<Vec<u8>, AfterburnerError>)
        requires
            old(self).wf(),
        ensures
            final(self).wf(),
            final(self)@ == old(self)@,
            match r {
                Ok(bytes) => old(self)@.memory matches Some(m) && offset + len <= m.len() && bytes@
                    == m.subrange(offset as int, offset + len),
                Err(e) => e@ == range_error(
                    old(self)@.memory,
                    "read"@,
                    offset as int,
                    len as int,
                ),
            },
            r is Ok <==> (old(self)@.memory matches Some(m) && offset + len <= m.len()),
    {
        proof {
            self.lemma_limit();
        }
        let m = match find_memory(&mut self.store, &self.instance) {
            Some(m) => m,
            None => {
                return Err(
                    AfterburnerError::Host(
                        "WebAssembly: instance does not export `memory`".to_owned(),
                    ),
                );
            },
        };
        let data = memory_bytes(&self.store, &m);
        let start: usize = offset as usize;
        let end: usize = match start.checked_add(len as usize) {
            Some(end) => end,
            None => return Err(overflow_error("read")),
        };
        if end > data.len() {
            return Err(bad_range_error("read", start, end, data.len()));
        }
        Ok(slice_of(data, start, end))
    }

    /// Writes bytes into the memory.
    fn write(&mut self, offset: u32, bytes: &[u8]) -> (r: Result<(), AfterburnerError>)
        requires
            old(self).wf(),
        ensures
            final(self).wf(),
            match r {
                Ok(_) => final(self)@.binary == old(self)@.binary && final(self)@.calls == old(
                    self,
                )@.calls && (old(self)@.memory matches Some(m) && offset + bytes@.len() <= m.len() && final(self)@.memory == Some(
                    overwritten(m, offset as int, bytes@),
                )),
                Err(e) => final(self)@ == old(self)@ && e@ == range_error(
                    old(self)@.memory,
                    "write"@,
                    offset as int,
                    bytes@.len() as int,
                ),
            },
            r is Ok <==> (old(self)@.memory matches Some(m) && offset + bytes@.len() <= m.len()),
    {
        proof {
            self.lemma_limit();
        }
        let m = match find_memory(&mut self.store, &self.instance) {
            Some(m) => m,
            None => {
                return Err(
                    AfterburnerError::Host(
                        "WebAssembly: instance does not export `memory`".to_owned(),
                    ),
                );
            },
        };
        let size: usize = memory_bytes(&self.store, &m).len();
        let start: usize = offset as usize;
        let end: usize = match start.checked_add(bytes.len()) {
            Some(end) => end,
            None => return Err(overflow_error("write")),
        };
        if end > size {
            return Err(bad_range_error("write", start, end, size));
        }
        let ghost before = self.store;
        let _ = write_bytes(&mut self.store, &m, start, bytes);
        assert forall|k: Memory| #[trigger]
            memories_in(self.store).contains_key(k) implies memories_in(self.store)[k].len()
            <= memory_limit(self.store) by {
            assert(memories_in(before).contains_key(k));
        }
        Ok(())
    }

    /// How many bytes the memory has.
    fn size(&mut self) -> (r: Result<u64, AfterburnerError>)
        requires
            old(self).wf(),
        ensures
            final(self).wf(),
            final(self)@ == old(self)@,
            match r {
                Ok(n) => n <= DEFAULT_MAX_MEMORY && (old(self)@.memory matches Some(m) && n
                    == m.len()),
                Err(e) => old(self)@.memory is None && e@ == no_memory(),
            },
    {
        proof {
            self.lemma_limit();
        }
        match find_memory(&mut self.store, &self.instance) {
            Some(m) => Ok(memory_bytes(&self.store, &m).len() as u64),
            None => Err(
                AfterburnerError::Host(
                    "WebAssembly: instance does not export `memory`".to_owned(),
                ),
            ),
        }
    }
}

proof fn lemma_outcome(
    export_name: Seq<char>,
    raw: Seq<RawResult>,
    r: Result<Vec<WasmValue>, AfterburnerError>,
)
    requires
        are_plain_results(raw, r),
    ensures
        is_outcome(export_name, raw.len(), Ok(raw_views(raw)), r),
{
    let given = raw_views(raw);
    match r {
        Ok(out) => {
            assert forall|i: int| 0 <= i < given.len() implies given[i] == RawView::Value(
                out@[i],
            ) by {
                assert(raw[i] == RawResult::Value(out@[i]));
            }
            assert(given =~= Seq::new(out@.len(), |i: int| RawView::Value(out@[i])));
        },
        Err(e) => {
            let k = choose|k: int|
                0 <= k < raw.len() && (forall|j: int| 0 <= j < k ==> #[trigger] raw[j] is Value)
                    && #[trigger] raw[k] is Other && e@ == ErrorView::Host(
                    "WebAssembly: unsupported result type "@ + raw[k]->Other_0@,
                );
            assert forall|j: int| 0 <= j < k implies #[trigger] given[j] is Value by {
                assert(raw[j] is Value);
            }
            assert(given[k] == raw[k]@);
        },
    }
}

/// Whether `v` is what the arguments `args` become for parameters of these types.
pub open spec fn are_arguments(args: Seq<WasmArg>, types: Seq<TypeView>, v: Seq<WasmValue>) -> bool {
    &&& args.len() == types.len()
    &&& v.len() == args.len()
    &&& forall|i: int|
        0 <= i < args.len() ==> coerced(args[i].value, types[i], args[i].casts) == Ok::<
            WasmValue,
            Seq<char>,
        >(#[trigger] v[i])
}

/// Whether `e` is the error for arguments that do not fit parameters of these types: there are too
/// many or too few, or `e` is about the first that does not fit.
pub open spec fn is_argument_error(
    export_name: Seq<char>,
    args: Seq<WasmArg>,
    types: Seq<TypeView>,
    e: ErrorView,
) -> bool {
    if args.len() != types.len() {
        e == ErrorView::Host(
            "WebAssembly: `"@ + export_name + "` expects "@ + decimal(types.len() as int)
                + " arg(s), got "@ + decimal(args.len() as int),
        )
    } else {
        exists|k: int|
            0 <= k < args.len() && #[trigger] all_coerced(args, types, k) && coerced(
                args[k].value,
                types[k],
                args[k].casts,
            ) is Err && e == ErrorView::Host(
                coerced(args[k].value, types[k], args[k].casts)->Err_0,
            )
    }
}

/// Checks the arguments of a call against the parameters' types: as many as there are parameters,
/// each fit for its own.
pub fn check_arguments(export_name: &str, args: &Vec<WasmArg>, types: &Vec<ValueType>) -> (r: Result<
    Vec<WasmValue>,
    AfterburnerError,
>)
    ensures
        r matches Ok(v) ==> are_arguments(args@, type_views(types@), v@),
        r matches Err(e) ==> is_argument_error(export_name@, args@, type_views(types@), e@),
{
    if types.len() != args.len() {
        let mut m = "WebAssembly: `".to_owned();
        m.append(export_name);
        m.append("` expects ");
        push_u64(&mut m, types.len() as u64);
        m.append(" arg(s), got ");
        push_u64(&mut m, args.len() as u64);
        return Err(AfterburnerError::Host(m));
    }
    let r = coerce_all(args, types);
    proof {
        if let Err(e) = &r {
            let k = choose|k: int|
                0 <= k < args@.len() && #[trigger] all_coerced(args@, type_views(types@), k)
                    && coerced(args@[k].value, types@[k]@, args@[k].casts) == Err::<
                    WasmValue,
                    Seq<char>,
                >(e@->Host_0) && e@ is Host;
            assert(all_coerced(args@, type_views(types@), k));
            assert(type_views(types@)[k] == types@[k]@);
        }
    }
    r
}

/// What was written into a memory is read back, and what lies before it or behind it is left as it
/// was.
pub proof fn write_is_read_back(memory: Seq<u8>, offset: int, bytes: Seq<u8>, from: int, to: int)
    requires
        0 <= offset,
        offset + bytes.len() <= memory.len(),
        0 <= from <= to <= memory.len(),
    ensures
        overwritten(memory, offset, bytes).len() == memory.len(),
        overwritten(memory, offset, bytes).subrange(offset, offset + bytes.len()) == bytes,
        to <= offset ==> overwritten(memory, offset, bytes).subrange(from, to) == memory.subrange(
            from,
            to,
        ),
        from >= offset + bytes.len() ==> overwritten(memory, offset, bytes).subrange(from, to)
            == memory.subrange(from, to),
{
    let w = overwritten(memory, offset, bytes);
    assert(w.subrange(offset, offset + bytes.len()) =~= bytes);
    if to <= offset || from >= offset + bytes.len() {
        assert(w.subrange(from, to) =~= memory.subrange(from, to));
    }
}

/// Bytes that were written into an instance's memory are read back from it, its size stays, and a
/// range that was in the memory still is.
pub proof fn instance_write_is_read_back(
    v: LoaderView,
    id: u64,
    offset: int,
    bytes: Seq<u8>,
    end: int,
)
    requires
        0 <= offset,
        v.in_memory(id, offset + bytes.len()),
    ensures
        v.written(id, offset, bytes).in_memory(id, offset + bytes.len()),
        v.written(id, offset, bytes).instances[id].memory->0.subrange(
            offset,
            offset + bytes.len(),
        ) == bytes,
        v.written(id, offset, bytes).in_memory(id, end) == v.in_memory(id, end),
        forall|i: int|
            0 <= i < v.instances[id].memory->0.len() && !(offset <= i < offset + bytes.len())
                ==> #[trigger] v.written(id, offset, bytes).instances[id].memory->0[i]
                == v.instances[id].memory->0[i],
{
    let memory = v.instances[id].memory->0;
    write_is_read_back(memory, offset, bytes, 0, 0);
}

/// Instances are apart: writing to one, or forgetting one, leaves every other as it was.
pub proof fn instances_are_apart(v: LoaderView, id: u64, other: u64, offset: int, bytes: Seq<u8>)
    requires
        id != other,
    ensures
        v.written(id, offset, bytes).instances.contains_key(other) == v.instances.contains_key(other),
        v.without_instance(id).instances.contains_key(other) == v.instances.contains_key(other),
        v.instances.contains_key(other) ==> v.written(id, offset, bytes).instances[other]
            == v.instances[other] && v.without_instance(id).instances[other] == v.instances[other],
        !v.without_instance(id).instances.contains_key(id),
        !v.without_module(id).modules.contains_key(id),
{
}

/// A value as JSON: its type and its value; a 64-bit integer as text, since a script's numbers are
/// not exact that far.
pub open spec fn value_members(v: WasmValue) -> Seq<(Seq<char>, JsonView)> {
    match v {
        WasmValue::I32(x) => seq![
            ("type"@, JsonView::Text("i32"@)),
            ("value"@, JsonView::Int(x as i64)),
        ],
        WasmValue::I64(x) => seq![
            ("type"@, JsonView::Text("i64"@)),
            ("value"@, JsonView::Text(decimal(x as int))),
        ],
        WasmValue::F32(b) => seq![("type"@, JsonView::Text("f32"@)), ("value"@, JsonView::F32(b))],
        WasmValue::F64(b) => seq![("type"@, JsonView::Text("f64"@)), ("value"@, JsonView::F64(b))],
    }
}

/// A number in both precisions, by its bits.
#[derive(Debug, Clone, Copy, PartialEq, Eq, Structural)]
pub struct FloatBits {
    pub single: u32,
    pub double: u64,
}

/// Whether `v` is a number.
pub open spec fn is_number(v: JsonView) -> bool {
    v is Int || v is Big || v is F32 || v is F64
}

/// The value that `v` writes, or what is wrong with it. A floating-point number that is held in the
/// type's own precision keeps its bits; `float` is what any other number becomes.
pub open spec fn value_in(v: JsonView, float: FloatBits) -> Result<WasmValue, Seq<char>> {
    match (text_in(member_of(v, "type"@)), member_of(v, "value"@)) {
        (None, _) => Err("WasmValue: missing `type`"@),
        (_, None) => Err("WasmValue: missing `value`"@),
        (Some(ty), Some(val)) => if ty == "i32"@ {
            match val {
                JsonView::Int(n) => Ok(WasmValue::I32(n as i32)),
                _ => Err("WasmValue.i32: not a number"@),
            }
        } else if ty == "i64"@ {
            match val {
                JsonView::Text(t) => match signed_number(t) {
                    Ok(n) => Ok(WasmValue::I64(n as i64)),
                    Err(f) => Err("WasmValue.i64 parse: "@ + fault_text(f)),
                },
                _ => Err("WasmValue.i64: not a string"@),
            }
        } else if ty == "f32"@ {
            match val {
                JsonView::F32(b) => Ok(WasmValue::F32(b)),
                _ => if is_number(val) {
                    Ok(WasmValue::F32(float.single))
                } else {
                    Err("WasmValue.f32: not a number"@)
                },
            }
        } else if ty == "f64"@ {
            match val {
                JsonView::F64(b) => Ok(WasmValue::F64(b)),
                _ => if is_number(val) {
                    Ok(WasmValue::F64(float.double))
                } else {
                    Err("WasmValue.f64: not a number"@)
                },
            }
        } else {
            Err("WasmValue: unknown type `"@ + ty + "`"@)
        },
    }
}

fn low_i32(n: i64) -> (r: i32)
    ensures
        r == n as i32,
{
    #[verifier::truncate]
    (n as i32)
}

fn host_error(text: &str) -> (r: AfterburnerError)
    ensures
        r@ == ErrorView::Host(text@),
{
    AfterburnerError::Host(text.to_owned())
}

fn is_json_number(v: &Json) -> (r: bool)
    ensures
        r == is_number(v@),
{
    match v {
        Json::Int(_) => true,
        Json::Big(_) => true,
        Json::F32(_) => true,
        Json::F64(_) => true,
        _ => false,
    }
}

fn read_i64(val: &Json) -> (r: Result<WasmValue, AfterburnerError>)
    ensures
        is_coerced(
            r,
            match val@ {
                JsonView::Text(t) => match signed_number(t) {
                    Ok(n) => Ok(WasmValue::I64(n as i64)),
                    Err(f) => Err("WasmValue.i64 parse: "@ + fault_text(f)),
                },
                _ => Err("WasmValue.i64: not a string"@),
            },
        ),
{
    match val {
        Json::Text(t) => match parse_i64(t) {
            Ok(n) => Ok(WasmValue::I64(n)),
            Err(f) => {
                let mut m = "WasmValue.i64 parse: ".to_owned();
                m.append(&fault_message(f));
                Err(AfterburnerError::Host(m))
            },
        },
        _ => Err(host_error("WasmValue.i64: not a string")),
    }
}

impl WasmValue {
    /// The value as JSON.
    pub fn to_json(&self) -> (r: Json)
        ensures
            r@ == JsonView::Object(value_members(*self)),
    {
        let mut o = match self {
            WasmValue::I32(_) => object_with_text("type", "i32"),
            WasmValue::I64(_) => object_with_text("type", "i64"),
            WasmValue::F32(_) => object_with_text("type", "f32"),
            WasmValue::F64(_) => object_with_text("type", "f64"),
        };
        let value = match self {
            WasmValue::I32(x) => Json::Int(*x as i64),
            WasmValue::I64(x) => Json::Text(i64_text(*x)),
            WasmValue::F32(b) => Json::F32(*b),
            WasmValue::F64(b) => Json::F64(*b),
        };
        put(&mut o, "value", value);
        assert(members(o@) =~= value_members(*self));
        json_object(o)
    }

    /// The value that `v` writes; `float` is its member `value` as a floating-point number, where
    /// that is a number of another kind than the type.
    pub fn from_json(v: &Json, float: FloatBits) -> (r: Result<WasmValue, AfterburnerError>)
        ensures
            is_coerced(r, value_in(v@, float)),
    {
        let ty = match member(v, "type") {
            Some(Json::Text(t)) => t,
            _ => return Err(host_error("WasmValue: missing `type`")),
        };
        let val = match member(v, "value") {
            Some(val) => val,
            None => return Err(host_error("WasmValue: missing `value`")),
        };
        if same_text(ty, "i32") {
            return match val {
                Json::Int(n) => Ok(WasmValue::I32(low_i32(*n))),
                _ => Err(host_error("WasmValue.i32: not a number")),
            };
        }
        if same_text(ty, "i64") {
            return read_i64(val);
        }
        if same_text(ty, "f32") {
            return match val {
                Json::F32(b) => Ok(WasmValue::F32(*b)),
                _ => if is_json_number(val) {
                    Ok(WasmValue::F32(float.single))
                } else {
                    Err(host_error("WasmValue.f32: not a number"))
                },
            };
        }
        if same_text(ty, "f64") {
            return match val {
                Json::F64(b) => Ok(WasmValue::F64(*b)),
                _ => if is_json_number(val) {
                    Ok(WasmValue::F64(float.double))
                } else {
                    Err(host_error("WasmValue.f64: not a number"))
                },
            };
        }
        let mut m = "WasmValue: unknown type `".to_owned();
        m.append(ty);
        m.append("`");
        Err(AfterburnerError::Host(m))
    }
}

/// A value that was written as JSON is read back: the same type, and the same value.
pub proof fn values_read_back(v: WasmValue, float: FloatBits)
    ensures
        value_in(JsonView::Object(value_members(v)), float) == Ok::<WasmValue, Seq<char>>(v),
{
    let m = value_members(v);
    reveal_strlit("type");
    reveal_strlit("value");
    reveal_strlit("i32");
    reveal_strlit("i64");
    reveal_strlit("f32");
    reveal_strlit("f64");
    reveal_with_fuel(first_member, 3);
    assert("type"@.len() != "value"@.len());
    assert(m[0].0 == "type"@ && m[1].0 == "value"@);
    assert("i32"@[0] != "f32"@[0] && "i32"@[1] != "i64"@[1] && "f32"@[1] != "f64"@[1]);
    assert("i64"@[0] != "f32"@[0] && "i64"@[0] != "f64"@[0] && "i32"@[0] != "f64"@[0]);
    if let WasmValue::I64(x) = v {
        decimal_reads_back(x);
    }
}

/// Coercion keeps the number: what is handed to a parameter is the value's own cast to its type. A
/// number of the parameter's own type is handed over as it is; from one integer type to the other
/// the integer stays the same, and one that does not fit is refused; and between integers and
/// floating-point numbers it is the cast to the parameter's type.
pub proof fn coercion_keeps_the_number(v: WasmValue, casts: Casts, other: Seq<char>)
    ensures
        coerced(v, TypeView::F32, casts) == Ok::<WasmValue, Seq<char>>(
            WasmValue::F32(
                if v is F32 {
                    v->F32_0
                } else {
                    casts.to_f32
                },
            ),
        ),
        coerced(v, TypeView::F64, casts) == Ok::<WasmValue, Seq<char>>(
            WasmValue::F64(
                if v is F64 {
                    v->F64_0
                } else {
                    casts.to_f64
                },
            ),
        ),
        v is F32 || v is F64 ==> coerced(v, TypeView::I32, casts) == Ok::<WasmValue, Seq<char>>(
            WasmValue::I32(casts.to_i32),
        ),
        v is F32 || v is F64 ==> coerced(v, TypeView::I64, casts) == Ok::<WasmValue, Seq<char>>(
            WasmValue::I64(casts.to_i64),
        ),
        v matches WasmValue::I32(x) ==> (coerced(v, TypeView::I32, casts) matches Ok(
            WasmValue::I32(y),
        ) && y == x),
        v matches WasmValue::I32(x) ==> (coerced(v, TypeView::I64, casts) matches Ok(
            WasmValue::I64(y),
        ) && y == x),
        v matches WasmValue::I64(x) ==> (coerced(v, TypeView::I64, casts) matches Ok(
            WasmValue::I64(y),
        ) && y == x),
        v matches WasmValue::I64(x) ==> (-0x8000_0000 <= x <= 0x7fff_ffff ==> (coerced(
            v,
            TypeView::I32,
            casts,
        ) matches Ok(WasmValue::I32(y)) && y == x)),
        v matches WasmValue::I64(x) ==> (x < -0x8000_0000 || x > 0x7fff_ffff ==> coerced(
            v,
            TypeView::I32,
            casts,
        ) is Err),
        coerced(v, TypeView::Other(other), casts) is Err,
{
}

/// A function is handed one number for each argument, of its parameter's type, and each is what its
/// argument coerces to.
pub proof fn arguments_are_handed_over_in_order(args: Seq<WasmArg>, types: Seq<TypeView>, i: int)
    requires
        fit(args, types),
        0 <= i < args.len(),
    ensures
        args.len() == types.len(),
        handed(args, types).len() == args.len(),
        handed(args, types)[i] == Some(coerced(args[i].value, types[i], args[i].casts)->Ok_0),
        types[i] is I32 ==> handed(args, types)[i]->0 is I32,
        types[i] is I64 ==> handed(args, types)[i]->0 is I64,
        types[i] is F32 ==> handed(args, types)[i]->0 is F32,
        types[i] is F64 ==> handed(args, types)[i]->0 is F64,
        !(types[i] is Other),
{
    assert(coerced(args[i].value, types[i], args[i].casts) is Ok);
}

/// A value is told with its type's name and its number: a 64-bit integer as its digits, every other
/// number as a number.
pub proof fn values_are_told(v: WasmValue)
    ensures
        v matches WasmValue::I32(x) ==> member_of(JsonView::Object(value_members(v)), "type"@) == Some(
            JsonView::Text("i32"@),
        ) && member_of(JsonView::Object(value_members(v)), "value"@) == Some(
            JsonView::Int(x as i64),
        ),
        v matches WasmValue::I64(x) ==> member_of(JsonView::Object(value_members(v)), "type"@) == Some(
            JsonView::Text("i64"@),
        ) && member_of(JsonView::Object(value_members(v)), "value"@) == Some(
            JsonView::Text(decimal(x as int)),
        ),
        v matches WasmValue::F32(b) ==> member_of(JsonView::Object(value_members(v)), "type"@) == Some(
            JsonView::Text("f32"@),
        ) && member_of(JsonView::Object(value_members(v)), "value"@) == Some(JsonView::F32(b)),
        v matches WasmValue::F64(b) ==> member_of(JsonView::Object(value_members(v)), "type"@) == Some(
            JsonView::Text("f64"@),
        ) && member_of(JsonView::Object(value_members(v)), "value"@) == Some(JsonView::F64(b)),
{
    reveal_strlit("type");
    reveal_strlit("value");
    assert("type"@.len() != "value"@.len());
    member_is_the_first_of_its_name(value_members(v), "type"@, 0);
    member_is_the_first_of_its_name(value_members(v), "value"@, 1);
}

/// A value that a script writes is read by the type that it names: integers by their 32 bits, 64-bit
/// integers from their digits, and floating-point numbers from any number.
pub proof fn written_values_are_read(v: JsonView, n: i64, x: i64, float: FloatBits)
    ensures
        text_in(member_of(v, "type"@)) == Some("i32"@) && member_of(v, "value"@) == Some(
            JsonView::Int(n),
        ) ==> (value_in(v, float) matches Ok(WasmValue::I32(y)) && (y as i64 as u64) & 0xffff_ffff == (
        n as u64) & 0xffff_ffff && (-0x8000_0000 <= n <= 0x7fff_ffff ==> y == n)),
        text_in(member_of(v, "type"@)) == Some("i64"@) && member_of(v, "value"@) == Some(
            JsonView::Text(decimal(x as int)),
        ) ==> value_in(v, float) == Ok::<WasmValue, Seq<char>>(WasmValue::I64(x)),
        text_in(member_of(v, "type"@)) == Some("f32"@) && member_of(v, "value"@) == Some(
            JsonView::Int(n),
        ) ==> value_in(v, float) == Ok::<WasmValue, Seq<char>>(WasmValue::F32(float.single)),
        text_in(member_of(v, "type"@)) == Some("f64"@) && member_of(v, "value"@) == Some(
            JsonView::Int(n),
        ) ==> value_in(v, float) == Ok::<WasmValue, Seq<char>>(WasmValue::F64(float.double)),
        member_of(v, "type"@) is None || member_of(v, "value"@) is None ==> value_in(v, float) is Err,
{
    reveal_strlit("i32");
    reveal_strlit("i64");
    reveal_strlit("f32");
    reveal_strlit("f64");
    assert("i32"@[0] != "f32"@[0] && "i32"@[1] != "i64"@[1] && "f32"@[1] != "f64"@[1]);
    assert("i64"@[0] != "f32"@[0] && "i64"@[0] != "f64"@[0] && "i32"@[0] != "f64"@[0]);
    decimal_reads_back(x);
    lemma_low_word(n);
}

proof fn lemma_low_word(n: i64)
    ensures
        ((n as i32) as i64 as u64) & 0xffff_ffff == (n as u64) & 0xffff_ffff,
        -0x8000_0000 <= n <= 0x7fff_ffff ==> (n as i32) == n,
{
    assert(((n as i32) as i64 as u64) & 0xffff_ffff == (n as u64) & 0xffff_ffff) by (bit_vector);
    assert(-0x8000_0000i64 <= n && n <= 0x7fff_ffffi64 ==> ((n as i32) as i64) == n) by (bit_vector);
}

/// Every range that lies in an instance's memory can be read and written, up to its last byte, and
/// none that does not.
pub proof fn whole_memory_can_be_reached(v: LoaderView, id: u64, end: int)
    ensures
        v.instances.contains_key(id) && v.instances[id].memory is Some ==> (v.in_memory(id, end)
            <==> end <= v.instances[id].memory->0.len()),
        !v.instances.contains_key(id) || v.instances[id].memory is None ==> !v.in_memory(id, end),
{
}

/// A module or an instance that is taken up is known by its id, and every other stays as it was; ids
/// go up one by one.
pub proof fn loaded_things_have_ids_of_their_own(
    v: LoaderView,
    binary: Seq<u8>,
    instance: InstanceView,
    other: u64,
)
    ensures
        v.compiled(binary).modules.contains_key(v.next_module),
        v.compiled(binary).modules[v.next_module] == binary,
        v.compiled(binary).instances == v.instances,
        other != v.next_module ==> v.compiled(binary).modules.contains_key(other)
            == v.modules.contains_key(other),
        other != v.next_module && v.modules.contains_key(other) ==> v.compiled(
            binary,
        ).modules[other] == v.modules[other],
        v.next_module < u64::MAX ==> v.compiled(binary).next_module == v.next_module + 1,
        v.instantiated(instance).instances.contains_key(v.next_instance),
        v.instantiated(instance).instances[v.next_instance] == instance,
        v.instantiated(instance).modules == v.modules,
        other != v.next_instance ==> v.instantiated(instance).instances.contains_key(other)
            == v.instances.contains_key(other),
        other != v.next_instance && v.instances.contains_key(other) ==> v.instantiated(
            instance,
        ).instances[other] == v.instances[other],
        v.next_instance < u64::MAX ==> v.instantiated(instance).next_instance == v.next_instance + 1,
        !v.without_module(other).modules.contains_key(other),
        v.without_module(other).instances == v.instances,
        v.without_instance(other).modules == v.modules,
{
}

/// Exports and imports are told as what they are, each kind by a word of its own.
pub proof fn kinds_have_their_words(info: ExportInfo, e: ExportView)
    requires
        tells_export(info, e),
    ensures
        info.name@ == e.name,
        e.kind is Func <==> info.kind@ == "function"@,
        e.kind is Memory <==> info.kind@ == "memory"@,
        e.kind is Table <==> info.kind@ == "table"@,
        e.kind is Global <==> info.kind@ == "global"@,
        e.params <= u32::MAX ==> info.param_count == e.params,
        e.results <= u32::MAX ==> info.result_count == e.results,
{
    reveal_strlit("function");
    reveal_strlit("memory");
    reveal_strlit("table");
    reveal_strlit("global");
    reveal_strlit("unknown");
    assert("function"@[0] == 'f' && "memory"@[0] == 'm' && "table"@[0] == 't' && "global"@[0] == 'g'
        && "unknown"@[0] == 'u');
}

/// A call that returns numbers gives exactly those numbers, in their order; one that returns anything
/// else, or traps, gives an error.
pub proof fn results_are_the_functions(
    export_name: Seq<char>,
    results: nat,
    outcome: Result<Seq<RawView>, Seq<char>>,
    r: Result<Vec<WasmValue>, AfterburnerError>,
    i: int,
)
    requires
        is_outcome(export_name, results, outcome, r),
    ensures
        r matches Ok(out) ==> out@.len() == results && outcome is Ok && (0 <= i < results
            ==> outcome->Ok_0[i] == RawView::Value(out@[i])),
        outcome is Err ==> r is Err,
        outcome matches Ok(given) ==> ((forall|k: int|
            0 <= k < given.len() ==> (#[trigger] given[k]) is Value) ==> r is Ok),
        outcome matches Ok(given) ==> (0 <= i < given.len() && given[i] is Other ==> r is Err),
{
    if outcome is Ok {
        let given = outcome->Ok_0;
        if r is Ok && 0 <= i < given.len() {
            assert(given[i] == RawView::Value(r->Ok_0@[i]));
        }
    }
}

/// A call with arguments that fit makes exactly one call of the function, with those arguments; one
/// with too many, too few or unfit arguments makes none and changes nothing.
pub proof fn one_call_is_made(
    before: InstanceView,
    name: Seq<char>,
    args: Seq<WasmArg>,
    r: Result<Vec<WasmValue>, AfterburnerError>,
    after: InstanceView,
)
    requires
        is_call(before, name, args, r, after),
    ensures
        args.len() != signature_of(before.binary, name).params.len() ==> r is Err && after == before,
        after.calls.len() == before.calls.len() || after.calls.len() == before.calls.len() + 1,
        after.calls.len() == before.calls.len() + 1 <==> fit(
            args,
            signature_of(before.binary, name).params,
        ),
        r is Ok ==> after.calls.len() == before.calls.len() + 1 && after.calls.last().args.len()
            == args.len() && r->Ok_0@.len() == signature_of(before.binary, name).results,
        after.binary == before.binary,
{
}

/// A range is refused with its own bounds and the memory's size; and what is not there is named.
pub proof fn refused_ranges_are_told(
    v: LoaderView,
    id: u64,
    what: Seq<char>,
    offset: int,
    len: int,
)
    ensures
        !v.instances.contains_key(id) ==> access_error(v, id, what, offset, len) == ErrorView::Host(
            "WebAssembly: unknown instance "@ + decimal(id as int),
        ),
        v.instances.contains_key(id) && v.instances[id].memory is None ==> access_error(
            v,
            id,
            what,
            offset,
            len,
        ) == ErrorView::Host("WebAssembly: instance does not export `memory`"@),
        v.instances.contains_key(id) && v.instances[id].memory is Some && offset + len <= usize::MAX
            ==> access_error(v, id, what, offset, len) == ErrorView::Host(
            "WebAssembly.memory."@ + what + ": range "@ + decimal(offset) + ".."@ + decimal(
                offset + len,
            ) + " exceeds memory size "@ + decimal(v.instances[id].memory->0.len() as int),
        ),
{
}

/// A loader begins with nothing, and with ids from one on.
pub proof fn loader_begins_empty(id: u64)
    ensures
        !LoaderView::fresh().modules.contains_key(id),
        !LoaderView::fresh().instances.contains_key(id),
        LoaderView::fresh().next_module == 1,
        LoaderView::fresh().next_instance == 1,
        DEFAULT_MAX_MEMORY == 268435456,
{
}

/// An import is told with where it comes from, its name and its kind.
pub proof fn imports_are_told(info: ImportInfo, e: ImportView)
    requires
        tells_import(info, e),
    ensures
        info.module@ == e.module,
        info.name@ == e.name,
        e.kind is Func ==> info.kind@ == "function"@,
        e.kind is Memory ==> info.kind@ == "memory"@,
        e.kind is Table ==> info.kind@ == "table"@,
        e.kind is Global ==> info.kind@ == "global"@,
        e.kind is Other ==> info.kind@ == "unknown"@,
{
}

} // verus!
