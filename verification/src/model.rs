//! The output schema: plain descriptions of the types that a module declares,
//! and their mathematical views.
use vstd::prelude::*;

verus! {

/// A function signature; each value type is its canonical token.
#[derive(Debug)]
pub struct FuncType {
    pub params: Vec<String>,
    pub results: Vec<String>,
}

/// A field of a struct type, or the element of an array type.
#[derive(Debug)]
pub struct FieldType {
    pub element_type: String,
    pub mutable: bool,
}

/// A struct type: its fields in declaration order.
#[derive(Debug)]
pub struct StructType {
    pub fields: Vec<FieldType>,
}

/// A composite type definition, tagged by its kind.
#[derive(Debug)]
pub enum CompositeType {
    Func(FuncType),
    Struct(StructType),
    Array(FieldType),
}

/// The type of a global.
#[derive(Debug)]
pub struct GlobalType {
    pub content_type: String,
    pub mutable: bool,
}

/// The type of a linear memory.
#[derive(Clone, Copy, Debug, PartialEq, Eq, Structural)]
pub struct MemoryType {
    pub memory64: bool,
    pub shared: bool,
    pub initial: u64,
    pub maximum: Option<u64>,
}

/// The type of a table.
#[derive(Debug)]
pub struct TableType {
    pub element_type: String,
    pub initial: u32,
    pub maximum: Option<u32>,
}

/// The description of a module's types: six sequences, each in ascending index order.
#[derive(Debug)]
pub struct TypeSchema {
    pub types: Vec<CompositeType>,
    pub functions: Vec<FuncType>,
    pub globals: Vec<GlobalType>,
    pub memories: Vec<MemoryType>,
    pub tables: Vec<TableType>,
    pub elements: Vec<String>,
}

/// A value type token as a sequence of characters.
pub type Token = Seq<char>;

/// The view of a [`FuncType`].
pub struct FuncSig {
    pub params: Seq<Token>,
    pub results: Seq<Token>,
}

/// The view of a [`FieldType`].
pub struct FieldSig {
    pub element_type: Token,
    pub mutable: bool,
}

/// The view of a [`CompositeType`].
pub enum CompositeSig {
    Func(FuncSig),
    Struct(Seq<FieldSig>),
    Array(FieldSig),
}

/// The view of a [`GlobalType`].
pub struct GlobalSig {
    pub content_type: Token,
    pub mutable: bool,
}

/// The view of a [`TableType`].
pub struct TableSig {
    pub element_type: Token,
    pub initial: u32,
    pub maximum: Option<u32>,
}

/// The view of a [`TypeSchema`].
pub struct SchemaSig {
    pub types: Seq<CompositeSig>,
    pub functions: Seq<FuncSig>,
    pub globals: Seq<GlobalSig>,
    pub memories: Seq<MemoryType>,
    pub tables: Seq<TableSig>,
    pub elements: Seq<Token>,
}

/// An optional value taken by its view.
pub open spec fn view_of<T: View>(r: Option<T>) -> Option<T::V> {
    match r {
        Some(x) => Some(x@),
        None => None,
    }
}

/// The tokens of a sequence of strings, in order.
pub open spec fn tokens(strings: Seq<String>) -> Seq<Token> {
    strings.map_values(|s: String| s@)
}

impl View for FuncType {
    type V = FuncSig;

    open spec fn view(&self) -> FuncSig {
        FuncSig { params: tokens(self.params@), results: tokens(self.results@) }
    }
}

impl View for FieldType {
    type V = FieldSig;

    open spec fn view(&self) -> FieldSig {
        FieldSig { element_type: self.element_type@, mutable: self.mutable }
    }
}

impl View for StructType {
    type V = Seq<FieldSig>;

    open spec fn view(&self) -> Seq<FieldSig> {
        self.fields@.map_values(|f: FieldType| f@)
    }
}

impl View for CompositeType {
    type V = CompositeSig;

    open spec fn view(&self) -> CompositeSig {
        match self {
            CompositeType::Func(f) => CompositeSig::Func(f@),
            CompositeType::Struct(s) => CompositeSig::Struct(s@),
            CompositeType::Array(a) => CompositeSig::Array(a@),
        }
    }
}

impl View for GlobalType {
    type V = GlobalSig;

    open spec fn view(&self) -> GlobalSig {
        GlobalSig { content_type: self.content_type@, mutable: self.mutable }
    }
}

impl View for TableType {
    type V = TableSig;

    open spec fn view(&self) -> TableSig {
        TableSig { element_type: self.element_type@, initial: self.initial, maximum: self.maximum }
    }
}

impl View for TypeSchema {
    type V = SchemaSig;

    open spec fn view(&self) -> SchemaSig {
        SchemaSig {
            types: self.types@.map_values(|t: CompositeType| t@),
            functions: self.functions@.map_values(|f: FuncType| f@),
            globals: self.globals@.map_values(|g: GlobalType| g@),
            memories: self.memories@,
            tables: self.tables@.map_values(|t: TableType| t@),
            elements: tokens(self.elements@),
        }
    }
}

} // verus!
