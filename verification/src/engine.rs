//! The validation engine's type model as this library sees it: what a
//! finished `wasmparser::types::Types` holds, and the calls that read it.
use vstd::prelude::*;
use wasmparser::CompositeType as Definition;
use crate::model::{CompositeSig, CompositeType, FieldType, FuncSig, FuncType, GlobalSig, GlobalType,
    MemoryType, StructType, TableSig, TableType, Token, view_of};

verus! {

/// The engine's finished type model, opaque to the verifier.
#[verifier::external_type_specification]
#[verifier::external_body]
pub struct ExTypes(wasmparser::types::Types);

/// The core types of a model by index: the definition at each position, or
/// `None` where the position holds a module type instead of a definition.
pub uninterp spec fn core_types(model: wasmparser::types::Types) -> Seq<Option<CompositeSig>>;

/// The signatures of the core functions of a model by index, or `None` where
/// a function's type is not a function type.
pub uninterp spec fn functions(model: wasmparser::types::Types) -> Seq<Option<FuncSig>>;

/// The globals of a model by index.
pub uninterp spec fn globals(model: wasmparser::types::Types) -> Seq<GlobalSig>;

/// The memories of a model by index.
pub uninterp spec fn memories(model: wasmparser::types::Types) -> Seq<MemoryType>;

/// The tables of a model by index.
pub uninterp spec fn tables(model: wasmparser::types::Types) -> Seq<TableSig>;

/// The element segment types of a model by index.
pub uninterp spec fn elements(model: wasmparser::types::Types) -> Seq<Token>;

/// Calls `Types::type_count`: the number of core types.
#[verifier::external_body]
pub(crate) fn core_type_count(model: &wasmparser::types::Types) -> (n: usize)
    ensures
        n == core_types(*model).len(),
{
    model.type_count()
}

/// Calls `Types::core_type_at` and reads the definition that the id stands
/// for: its kind, and its value types by their `Display` text. A position
/// that holds a module type, whose id does not convert to a `CoreTypeId`,
/// gives `None`.
#[verifier::external_body]
pub(crate) fn core_type_at(model: &wasmparser::types::Types, index: u32) -> (r: Option<CompositeType>)
    requires
        (index as int) < core_types(*model).len(),
    ensures
        view_of(r) == core_types(*model)[index as int],
{
    let id = wasmparser::types::CoreTypeId::try_from(model.core_type_at(index)).ok()?;
    Some(match &model[id].composite_type {
        Definition::Func(f) => CompositeType::Func(FuncType {
            params: f.params().iter().map(ToString::to_string).collect(),
            results: f.results().iter().map(ToString::to_string).collect() }),
        Definition::Struct(s) => CompositeType::Struct(StructType {
            fields: s.fields.iter().map(|f| FieldType { element_type: f.element_type.to_string(), mutable: f.mutable }).collect() }),
        Definition::Array(a) => CompositeType::Array(
            FieldType { element_type: a.0.element_type.to_string(), mutable: a.0.mutable }),
    })
}

/// Calls `Types::core_function_count`.
#[verifier::external_body]
pub(crate) fn function_count(model: &wasmparser::types::Types) -> (n: u32)
    ensures
        n == functions(*model).len(),
{
    model.core_function_count()
}

/// Calls `Types::core_function_at` and reads the signature that the id stands
/// for, its value types by their `Display` text. A type that is no function
/// type gives `None`.
#[verifier::external_body]
pub(crate) fn function_at(model: &wasmparser::types::Types, index: u32) -> (r: Option<FuncType>)
    requires
        (index as int) < functions(*model).len(),
    ensures
        view_of(r) == functions(*model)[index as int],
{
    match &model[model.core_function_at(index)].composite_type {
        Definition::Func(f) => Some(FuncType {
            params: f.params().iter().map(ToString::to_string).collect(),
            results: f.results().iter().map(ToString::to_string).collect() }),
        Definition::Struct(_) => None,
        Definition::Array(_) => None,
    }
}

/// Calls `Types::global_count`.
#[verifier::external_body]
pub(crate) fn global_count(model: &wasmparser::types::Types) -> (n: u32)
    ensures
        n == globals(*model).len(),
{
    model.global_count()
}

/// Calls `Types::global_at` and copies its fields, the content type by its
/// `Display` text.
#[verifier::external_body]
pub(crate) fn global_at(model: &wasmparser::types::Types, index: u32) -> (r: GlobalType)
    requires
        (index as int) < globals(*model).len(),
    ensures
        r@ == globals(*model)[index as int],
{
    let global = model.global_at(index);
    GlobalType { content_type: global.content_type.to_string(), mutable: global.mutable }
}

/// Calls `Types::memory_count`.
#[verifier::external_body]
pub(crate) fn memory_count(model: &wasmparser::types::Types) -> (n: u32)
    ensures
        n == memories(*model).len(),
{
    model.memory_count()
}

/// Calls `Types::memory_at` and copies its fields.
#[verifier::external_body]
pub(crate) fn memory_at(model: &wasmparser::types::Types, index: u32) -> (r: MemoryType)
    requires
        (index as int) < memories(*model).len(),
    ensures
        r == memories(*model)[index as int],
{
    let memory = model.memory_at(index);
    MemoryType { memory64: memory.memory64, shared: memory.shared, initial: memory.initial, maximum: memory.maximum }
}

/// Calls `Types::table_count`.
#[verifier::external_body]
pub(crate) fn table_count(model: &wasmparser::types::Types) -> (n: usize)
    ensures
        n == tables(*model).len(),
{
    model.table_count()
}

/// Calls `Types::table_at` and copies its fields, the element type by its
/// `Display` text.
#[verifier::external_body]
pub(crate) fn table_at(model: &wasmparser::types::Types, index: u32) -> (r: TableType)
    requires
        (index as int) < tables(*model).len(),
    ensures
        r@ == tables(*model)[index as int],
{
    let table = model.table_at(index);
    TableType { element_type: table.element_type.to_string(), initial: table.initial, maximum: table.maximum }
}

/// Calls `Types::element_count`.
#[verifier::external_body]
pub(crate) fn element_count(model: &wasmparser::types::Types) -> (n: u32)
    ensures
        n == elements(*model).len(),
{
    model.element_count()
}

/// Calls `Types::element_at` and gives the reference type's `Display` text.
#[verifier::external_body]
pub(crate) fn element_at(model: &wasmparser::types::Types, index: u32) -> (r: String)
    requires
        (index as int) < elements(*model).len(),
    ensures
        r@ == elements(*model)[index as int],
{
    model.element_at(index).to_string()
}

} // verus!
