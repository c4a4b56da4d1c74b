//! Projection of a finished type model into the output schema, index by index
//! and in ascending order. Every index below a count must resolve: a position
//! that does not is reported as a defect of the model, never skipped.
use vstd::prelude::*;
use crate::engine;
use crate::model::{CompositeSig, CompositeType, FuncSig, FuncType, GlobalType, MemoryType, SchemaSig,
    TableType, TypeSchema, tokens};

verus! {

/// The type model of a module that passed validation.
pub struct TypeModel(pub wasmparser::types::Types);

/// A defect of a type model that keeps it from being projected.
#[derive(Clone, Copy, Debug, PartialEq, Eq, Structural)]
pub enum ProjectionError {
    /// The core type at this index is no function, struct or array definition.
    ForeignCoreType(u32),
    /// The type of the function at this index is no function type.
    ForeignFunctionType(u32),
    /// There are more core types than 32-bit indices.
    CoreTypeSpace,
    /// There are more tables than 32-bit indices.
    TableSpace,
}

/// Every entry below `end` is present.
pub open spec fn present_below<T>(s: Seq<Option<T>>, end: int) -> bool {
    forall|j: int| 0 <= j < end && j < s.len() ==> (#[trigger] s[j]) is Some
}

/// `index` is the first position of `s` that holds no entry.
pub open spec fn first_missing<T>(s: Seq<Option<T>>, index: int) -> bool {
    0 <= index < s.len() && s[index] is None && present_below(s, index)
}

/// `out` holds exactly the entries of `s`, which are all present, in order.
pub open spec fn lists_all<T>(s: Seq<Option<T>>, out: Seq<T>) -> bool {
    out.len() == s.len() && forall|j: int| 0 <= j < s.len() ==> (#[trigger] s[j]) == Some(out[j])
}

/// What projecting the core types of `model` gives.
pub open spec fn core_types_outcome(
    model: wasmparser::types::Types,
    r: Result<Seq<CompositeSig>, ProjectionError>,
) -> bool {
    let all = engine::core_types(model);
    match r {
        Ok(out) => all.len() <= u32::MAX && lists_all(all, out),
        Err(ProjectionError::CoreTypeSpace) => all.len() > u32::MAX,
        Err(ProjectionError::ForeignCoreType(i)) => all.len() <= u32::MAX && first_missing(all, i as int),
        Err(_) => false,
    }
}

/// What projecting the functions of `model` gives.
pub open spec fn functions_outcome(
    model: wasmparser::types::Types,
    r: Result<Seq<FuncSig>, ProjectionError>,
) -> bool {
    let all = engine::functions(model);
    match r {
        Ok(out) => lists_all(all, out),
        Err(ProjectionError::ForeignFunctionType(i)) => first_missing(all, i as int),
        Err(_) => false,
    }
}

/// What projecting the tables of `model` gives.
pub open spec fn tables_outcome(
    model: wasmparser::types::Types,
    r: Result<Seq<crate::model::TableSig>, ProjectionError>,
) -> bool {
    let all = engine::tables(model);
    match r {
        Ok(out) => all.len() <= u32::MAX && out == all,
        Err(ProjectionError::TableSpace) => all.len() > u32::MAX,
        Err(_) => false,
    }
}

/// What projecting `model` gives: the six sequences as the model holds them,
/// or the first defect met, looking at core types, then functions, then tables.
pub open spec fn projection(model: wasmparser::types::Types, r: Result<SchemaSig, ProjectionError>) -> bool {
    match r {
        Ok(schema) => {
            &&& core_types_outcome(model, Ok(schema.types))
            &&& functions_outcome(model, Ok(schema.functions))
            &&& schema.globals == engine::globals(model)
            &&& schema.memories == engine::memories(model)
            &&& tables_outcome(model, Ok(schema.tables))
            &&& schema.elements == engine::elements(model)
        },
        Err(e) => {
            ||| core_types_outcome(model, Err(e))
            ||| (exists|t: Seq<CompositeSig>| core_types_outcome(model, Ok(t)))
                && functions_outcome(model, Err(e))
            ||| (exists|t: Seq<CompositeSig>| core_types_outcome(model, Ok(t)))
                && (exists|f: Seq<FuncSig>| functions_outcome(model, Ok(f)))
                && tables_outcome(model, Err(e))
        },
    }
}

/// The views of a sequence of composite types.
pub open spec fn composite_views(v: Seq<CompositeType>) -> Seq<CompositeSig> {
    v.map_values(|t: CompositeType| t@)
}

/// The views of a sequence of function types.
pub open spec fn func_views(v: Seq<FuncType>) -> Seq<FuncSig> {
    v.map_values(|f: FuncType| f@)
}

/// The views of a sequence of global types.
pub open spec fn global_views(v: Seq<GlobalType>) -> Seq<crate::model::GlobalSig> {
    v.map_values(|g: GlobalType| g@)
}

/// The views of a sequence of table types.
pub open spec fn table_views(v: Seq<TableType>) -> Seq<crate::model::TableSig> {
    v.map_values(|t: TableType| t@)
}

/// The result of a projection step with its entries taken by their views.
pub open spec fn composite_result(r: Result<Vec<CompositeType>, ProjectionError>) -> Result<
    Seq<CompositeSig>,
    ProjectionError,
> {
    match r {
        Ok(v) => Ok(composite_views(v@)),
        Err(e) => Err(e),
    }
}

/// The result of a projection step with its entries taken by their views.
pub open spec fn func_result(r: Result<Vec<FuncType>, ProjectionError>) -> Result<Seq<FuncSig>, ProjectionError> {
    match r {
        Ok(v) => Ok(func_views(v@)),
        Err(e) => Err(e),
    }
}

/// The result of a projection step with its entries taken by their views.
pub open spec fn table_result(r: Result<Vec<TableType>, ProjectionError>) -> Result<
    Seq<crate::model::TableSig>,
    ProjectionError,
> {
    match r {
        Ok(v) => Ok(table_views(v@)),
        Err(e) => Err(e),
    }
}

/// The result of a projection with the schema taken by its view.
pub open spec fn schema_result(r: Result<TypeSchema, ProjectionError>) -> Result<SchemaSig, ProjectionError> {
    match r {
        Ok(s) => Ok(s@),
        Err(e) => Err(e),
    }
}

/// The element segment types of a model, in index order.
pub fn serialize_elements(types: &wasmparser::types::Types) -> (out: Vec<String>)
    ensures
        tokens(out@) == engine::elements(*types),
{
    let n: u32 = engine::element_count(types);
    let mut out: Vec<String> = Vec::new();
    let mut index: u32 = 0;
    while index < n
        invariant
            n == engine::elements(*types).len(),
            index <= n,
            out@.len() == index,
            forall|j: int| 0 <= j < index ==> (#[trigger] out@[j])@ == engine::elements(*types)[j],
        decreases n - index,
    {
        out.push(engine::element_at(types, index));
        index = index + 1;
    }
    assert(tokens(out@) =~= engine::elements(*types));
    out
}

/// The tables of a model, in index order.
pub fn serialize_tables(types: &wasmparser::types::Types) -> (r: Result<Vec<TableType>, ProjectionError>)
    ensures
        tables_outcome(*types, table_result(r)),
{
    let count: usize = engine::table_count(types);
    if count > 0xffff_ffff {
        return Err(ProjectionError::TableSpace);
    }
    let mut out: Vec<TableType> = Vec::new();
    let mut index: u32 = 0;
    while (index as usize) < count
        invariant
            count == engine::tables(*types).len(),
            count <= u32::MAX,
            index <= count,
            out@.len() == index,
            forall|j: int| 0 <= j < index ==> (#[trigger] out@[j])@ == engine::tables(*types)[j],
        decreases count - index,
    {
        out.push(engine::table_at(types, index));
        index = index + 1;
    }
    assert(table_views(out@) =~= engine::tables(*types));
    Ok(out)
}

/// The memories of a model, in index order.
pub fn serialize_memories(types: &wasmparser::types::Types) -> (out: Vec<MemoryType>)
    ensures
        out@ == engine::memories(*types),
{
    let n: u32 = engine::memory_count(types);
    let mut out: Vec<MemoryType> = Vec::new();
    let mut index: u32 = 0;
    while index < n
        invariant
            n == engine::memories(*types).len(),
            index <= n,
            out@.len() == index,
            forall|j: int| 0 <= j < index ==> (#[trigger] out@[j]) == engine::memories(*types)[j],
        decreases n - index,
    {
        out.push(engine::memory_at(types, index));
        index = index + 1;
    }
    assert(out@ =~= engine::memories(*types));
    out
}

/// The globals of a model, in index order.
pub fn serialize_globals(types: &wasmparser::types::Types) -> (out: Vec<GlobalType>)
    ensures
        global_views(out@) == engine::globals(*types),
{
    let n: u32 = engine::global_count(types);
    let mut out: Vec<GlobalType> = Vec::new();
    let mut index: u32 = 0;
    while index < n
        invariant
            n == engine::globals(*types).len(),
            index <= n,
            out@.len() == index,
            forall|j: int| 0 <= j < index ==> (#[trigger] out@[j])@ == engine::globals(*types)[j],
        decreases n - index,
    {
        out.push(engine::global_at(types, index));
        index = index + 1;
    }
    assert(global_views(out@) =~= engine::globals(*types));
    out
}

/// The signatures of the functions of a model, in index order.
pub fn serialize_functions(types: &wasmparser::types::Types) -> (r: Result<Vec<FuncType>, ProjectionError>)
    ensures
        functions_outcome(*types, func_result(r)),
{
    let n: u32 = engine::function_count(types);
    let mut out: Vec<FuncType> = Vec::new();
    let mut index: u32 = 0;
    while index < n
        invariant
            n == engine::functions(*types).len(),
            index <= n,
            out@.len() == index,
            forall|j: int|
                0 <= j < index ==> (#[trigger] engine::functions(*types)[j]) == Some(func_views(out@)[j]),
        decreases n - index,
    {
        match engine::function_at(types, index) {
            Some(function) => {
                out.push(function);
            },
            None => {
                return Err(ProjectionError::ForeignFunctionType(index));
            },
        }
        index = index + 1;
    }
    Ok(out)
}

/// The core types of a model, in index order.
pub fn serialize_types(types: &wasmparser::types::Types) -> (r: Result<Vec<CompositeType>, ProjectionError>)
    ensures
        core_types_outcome(*types, composite_result(r)),
{
    let count: usize = engine::core_type_count(types);
    if count > 0xffff_ffff {
        return Err(ProjectionError::CoreTypeSpace);
    }
    let mut out: Vec<CompositeType> = Vec::new();
    let mut index: u32 = 0;
    while (index as usize) < count
        invariant
            count == engine::core_types(*types).len(),
            count <= u32::MAX,
            index <= count,
            out@.len() == index,
            forall|j: int|
                0 <= j < index ==> (#[trigger] engine::core_types(*types)[j]) == Some(composite_views(out@)[j]),
        decreases count - index,
    {
        match engine::core_type_at(types, index) {
            Some(composite) => {
                out.push(composite);
            },
            None => {
                return Err(ProjectionError::ForeignCoreType(index));
            },
        }
        index = index + 1;
    }
    Ok(out)
}

impl TypeModel {
    /// The model that this value holds.
    pub open spec fn model(self) -> wasmparser::types::Types {
        self.0
    }

    /// Projects the model into the output schema: core types first, then
    /// functions, globals, memories, tables and element types.
    pub fn serialize(&self) -> (r: Result<TypeSchema, ProjectionError>)
        ensures
            projection(self.model(), schema_result(r)),
    {
        let types = match serialize_types(&self.0) {
            Ok(v) => v,
            Err(e) => {
                return Err(e);
            },
        };
        let functions = match serialize_functions(&self.0) {
            Ok(v) => v,
            Err(e) => {
                return Err(e);
            },
        };
        let globals = serialize_globals(&self.0);
        let memories = serialize_memories(&self.0);
        let tables = match serialize_tables(&self.0) {
            Ok(v) => v,
            Err(e) => {
                return Err(e);
            },
        };
        let elements = serialize_elements(&self.0);
        Ok(TypeSchema { types, functions, globals, memories, tables, elements })
    }
}

/// The first missing position of a sequence is unique.
pub proof fn lemma_first_missing_is_unique<T>(s: Seq<Option<T>>, i: int, j: int)
    requires
        first_missing(s, i),
        first_missing(s, j),
    ensures
        i == j,
{
    if i < j {
        assert(s[i] is Some);
    }
    if j < i {
        assert(s[j] is Some);
    }
}

/// A sequence whose entries are all present lists them in one way only, and
/// has no missing position.
pub proof fn lemma_lists_all_is_unique<T>(s: Seq<Option<T>>, a: Seq<T>, b: Seq<T>, i: int)
    requires
        lists_all(s, a),
    ensures
        lists_all(s, b) ==> a == b,
        !first_missing(s, i),
{
    if lists_all(s, b) {
        assert forall|j: int| 0 <= j < a.len() implies a[j] == b[j] by {
            assert(s[j] == Some(a[j]));
            assert(s[j] == Some(b[j]));
        }
        assert(a =~= b);
    }
    if 0 <= i < s.len() {
        assert(s[i] == Some(a[i]));
    }
}

/// A model has exactly one projection: whatever `projection` admits for one
/// model is one and the same result.
pub proof fn lemma_projection_is_unique(
    model: wasmparser::types::Types,
    a: Result<SchemaSig, ProjectionError>,
    b: Result<SchemaSig, ProjectionError>,
)
    requires
        projection(model, a),
        projection(model, b),
    ensures
        a == b,
{
    let types = engine::core_types(model);
    let functions = engine::functions(model);
    match (a, b) {
        (Ok(x), Ok(y)) => {
            lemma_lists_all_is_unique(types, x.types, y.types, 0);
            lemma_lists_all_is_unique(functions, x.functions, y.functions, 0);
        },
        (Ok(x), Err(e)) => {
            lemma_defect_excludes_schema(model, x, e);
        },
        (Err(e), Ok(y)) => {
            lemma_defect_excludes_schema(model, y, e);
        },
        (Err(e), Err(f)) => {
            lemma_defect_is_unique(model, e, f);
        },
    }
}

/// A model that has a projection has no defect.
proof fn lemma_defect_excludes_schema(model: wasmparser::types::Types, x: SchemaSig, e: ProjectionError)
    requires
        projection(model, Ok(x)),
    ensures
        !projection(model, Err(e)),
{
    let types = engine::core_types(model);
    let functions = engine::functions(model);
    match e {
        ProjectionError::ForeignCoreType(i) => {
            lemma_lists_all_is_unique(types, x.types, x.types, i as int);
        },
        ProjectionError::ForeignFunctionType(i) => {
            lemma_lists_all_is_unique(functions, x.functions, x.functions, i as int);
        },
        _ => {},
    }
}

/// A model has at most one defect.
proof fn lemma_defect_is_unique(model: wasmparser::types::Types, e: ProjectionError, f: ProjectionError)
    requires
        projection(model, Err(e)),
        projection(model, Err(f)),
    ensures
        e == f,
{
    let types = engine::core_types(model);
    let functions = engine::functions(model);
    if core_types_outcome(model, Err(e)) || core_types_outcome(model, Err(f)) {
        if exists|t: Seq<CompositeSig>| core_types_outcome(model, Ok(t)) {
            let t = choose|t: Seq<CompositeSig>| core_types_outcome(model, Ok(t));
            if let ProjectionError::ForeignCoreType(i) = e {
                lemma_lists_all_is_unique(types, t, t, i as int);
            }
            if let ProjectionError::ForeignCoreType(j) = f {
                lemma_lists_all_is_unique(types, t, t, j as int);
            }
        }
        if let ProjectionError::ForeignCoreType(i) = e {
            if let ProjectionError::ForeignCoreType(j) = f {
                lemma_first_missing_is_unique(types, i as int, j as int);
            }
        }
    } else if functions_outcome(model, Err(e)) || functions_outcome(model, Err(f)) {
        if exists|s: Seq<FuncSig>| functions_outcome(model, Ok(s)) {
            let s = choose|s: Seq<FuncSig>| functions_outcome(model, Ok(s));
            if let ProjectionError::ForeignFunctionType(i) = e {
                lemma_lists_all_is_unique(functions, s, s, i as int);
            }
            if let ProjectionError::ForeignFunctionType(j) = f {
                lemma_lists_all_is_unique(functions, s, s, j as int);
            }
        }
        if let ProjectionError::ForeignFunctionType(i) = e {
            if let ProjectionError::ForeignFunctionType(j) = f {
                lemma_first_missing_is_unique(functions, i as int, j as int);
            }
        }
    }
}

/// With no more core types than 32-bit indices, and each of them a
/// definition, projecting the core types succeeds: the result is as long as
/// the model's list, and its entry at an index is the model's core type at
/// that index.
pub proof fn lemma_core_types_keep_order(
    model: wasmparser::types::Types,
    r: Result<Seq<CompositeSig>, ProjectionError>,
)
    requires
        core_types_outcome(model, r),
        engine::core_types(model).len() <= u32::MAX,
        present_below(engine::core_types(model), engine::core_types(model).len() as int),
    ensures
        r is Ok,
        r->Ok_0.len() == engine::core_types(model).len(),
        forall|i: int| 0 <= i < r->Ok_0.len() ==> engine::core_types(model)[i] == Some(#[trigger] r->Ok_0[i]),
{
    if let Err(ProjectionError::ForeignCoreType(i)) = r {
        assert(engine::core_types(model)[i as int] is Some);
    }
}

/// With no more tables than 32-bit indices, projecting the tables succeeds,
/// and the result is the model's list of tables, entry by entry.
pub proof fn lemma_tables_keep_order(
    model: wasmparser::types::Types,
    r: Result<Seq<crate::model::TableSig>, ProjectionError>,
)
    requires
        tables_outcome(model, r),
        engine::tables(model).len() <= u32::MAX,
    ensures
        r == Ok::<Seq<crate::model::TableSig>, ProjectionError>(engine::tables(model)),
{
}

/// Each sequence of a projection follows the model's own order: the entry at
/// an index is what the model declares at that index, and no entry is left out.
pub proof fn lemma_projection_keeps_order(model: wasmparser::types::Types, schema: SchemaSig)
    requires
        projection(model, Ok(schema)),
    ensures
        schema.types.len() == engine::core_types(model).len(),
        forall|i: int| 0 <= i < schema.types.len() ==> engine::core_types(model)[i] == Some(#[trigger] schema.types[i]),
        schema.functions.len() == engine::functions(model).len(),
        forall|i: int|
            0 <= i < schema.functions.len() ==> engine::functions(model)[i] == Some(#[trigger] schema.functions[i]),
        schema.globals.len() == engine::globals(model).len(),
        forall|i: int| 0 <= i < schema.globals.len() ==> #[trigger] schema.globals[i] == engine::globals(model)[i],
        schema.memories.len() == engine::memories(model).len(),
        forall|i: int| 0 <= i < schema.memories.len() ==> #[trigger] schema.memories[i] == engine::memories(model)[i],
        schema.tables.len() == engine::tables(model).len(),
        forall|i: int| 0 <= i < schema.tables.len() ==> #[trigger] schema.tables[i] == engine::tables(model)[i],
        schema.elements.len() == engine::elements(model).len(),
        forall|i: int| 0 <= i < schema.elements.len() ==> #[trigger] schema.elements[i] == engine::elements(model)[i],
{
}

} // verus!
