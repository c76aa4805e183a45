//! Value, reference and composite types as they are read from a module.

use vstd::prelude::*;

verus! {

/// Abstract heap types, shared by every module.
#[derive(Clone, Copy, Debug, PartialEq, Eq)]
pub enum AbstractHeapType {
    Func,
    Extern,
    Any,
    /// The bottom of the `any` hierarchy, written `none` in the text format.
    NoAny,
    NoExtern,
    NoFunc,
    Eq,
    Struct,
    Array,
    I31,
    Exn,
    NoExn,
    Cont,
    NoCont,
}

/// A type index, told apart by the index space it points into.
#[derive(Clone, Copy, Debug, PartialEq, Eq)]
pub enum UnpackedIndex {
    /// Index into the module's type space.
    Module(u32),
    /// Index into the members of the enclosing recursive group.
    RecGroup(u32),
    /// Identifier handed out by a validator.
    Id(u32),
}

/// A type index as it is stored inside other types.
#[derive(Clone, Copy, Debug, PartialEq, Eq)]
pub struct PackedIndex {
    pub index: UnpackedIndex,
}

impl PackedIndex {
    pub open spec fn spec_unpack(self) -> UnpackedIndex {
        self.index
    }

    /// The index with its index space.
    #[verifier::when_used_as_spec(spec_unpack)]
    pub fn unpack(self) -> (r: UnpackedIndex)
        ensures
            r == self.index,
    {
        self.index
    }
}

/// What a reference points to.
#[derive(Clone, Copy, Debug, PartialEq, Eq)]
pub enum HeapType {
    Abstract { shared: bool, ty: AbstractHeapType },
    Concrete(UnpackedIndex),
}

/// A reference type: whether it admits null, and what it points to.
#[derive(Clone, Copy, Debug, PartialEq, Eq)]
pub struct RefType {
    pub nullable: bool,
    pub heap_type: HeapType,
}

impl RefType {
    pub open spec fn spec_is_nullable(self) -> bool {
        self.nullable
    }

    /// Whether the type admits null.
    #[verifier::when_used_as_spec(spec_is_nullable)]
    pub fn is_nullable(self) -> (r: bool)
        ensures
            r == self.nullable,
    {
        self.nullable
    }

    pub open spec fn spec_heap_type(self) -> HeapType {
        self.heap_type
    }

    /// What a reference of the type points to.
    #[verifier::when_used_as_spec(spec_heap_type)]
    pub fn heap_type(self) -> (r: HeapType)
        ensures
            r == self.heap_type,
    {
        self.heap_type
    }
}

/// The type of a value.
#[derive(Clone, Copy, Debug, PartialEq, Eq)]
pub enum ValType {
    I32,
    I64,
    F32,
    F64,
    V128,
    Ref(RefType),
}

/// The type of a field: a value type, or one of the packed integer types.
#[derive(Clone, Copy, Debug, PartialEq, Eq)]
pub enum StorageType {
    I8,
    I16,
    Val(ValType),
}

/// The type of a field of a struct or of the elements of an array.
#[derive(Clone, Copy, Debug, PartialEq, Eq)]
pub struct FieldType {
    pub element_type: StorageType,
    pub mutable: bool,
}

/// A function type: the types of the parameters, then of the results.
#[derive(Clone, Debug, PartialEq, Eq)]
pub struct FuncType {
    pub params: Vec<ValType>,
    pub results: Vec<ValType>,
}

/// An array type, by the type of its elements.
#[derive(Clone, Copy, Debug, PartialEq, Eq)]
pub struct ArrayType(pub FieldType);

/// A struct type, by the types of its fields in order.
#[derive(Clone, Debug, PartialEq, Eq)]
pub struct StructType {
    pub fields: Vec<FieldType>,
}

/// A continuation type, by the index of its function type.
#[derive(Clone, Copy, Debug, PartialEq, Eq)]
pub struct ContType(pub PackedIndex);

/// A function, array, struct or continuation type.
#[derive(Clone, Debug, PartialEq, Eq)]
pub enum CompositeInnerType {
    Func(FuncType),
    Array(ArrayType),
    Struct(StructType),
    Cont(ContType),
}

/// A composite type, and whether it is shared.
#[derive(Clone, Debug, PartialEq, Eq)]
pub struct CompositeType {
    pub inner: CompositeInnerType,
    pub shared: bool,
}

/// One type definition: a composite type, the type it extends if it extends
/// one, and whether it can be extended.
#[derive(Clone, Debug, PartialEq, Eq)]
pub struct SubType {
    pub is_final: bool,
    pub supertype_idx: Option<PackedIndex>,
    pub composite_type: CompositeType,
}

/// The type of a global: the type of its value, and whether it can change and
/// is shared.
#[derive(Clone, Copy, Debug, PartialEq, Eq)]
pub struct GlobalType {
    pub content_type: ValType,
    pub mutable: bool,
    pub shared: bool,
}

/// The type of a memory: its limits in pages, the width of its addresses,
/// whether it is shared, and the size of its pages where it is not the usual
/// one.
#[derive(Clone, Copy, Debug, PartialEq, Eq)]
pub struct MemoryType {
    pub memory64: bool,
    pub shared: bool,
    pub initial: u64,
    pub maximum: Option<u64>,
    pub page_size_log2: Option<u32>,
}

/// The type of a table: the type of its elements, its limits, the width of its
/// indexes, and whether it is shared.
#[derive(Clone, Copy, Debug, PartialEq, Eq)]
pub struct TableType {
    pub element_type: RefType,
    pub table64: bool,
    pub initial: u64,
    pub maximum: Option<u64>,
    pub shared: bool,
}

/// What a tag is for.
#[derive(Clone, Copy, Debug, PartialEq, Eq)]
pub enum TagKind {
    Exception,
}

/// The type of a tag, by the index of its function type.
#[derive(Clone, Copy, Debug, PartialEq, Eq)]
pub struct TagType {
    pub kind: TagKind,
    pub func_type_idx: u32,
}

/// The kinds of things that a module exports.
#[derive(Clone, Copy, Debug, PartialEq, Eq)]
pub enum ExternalKind {
    Func,
    Table,
    Memory,
    Global,
    Tag,
}

/// What an import refers to.
#[derive(Clone, Copy, Debug, PartialEq, Eq)]
pub enum TypeRef {
    Func(u32),
    Table(TableType),
    Memory(MemoryType),
    Global(GlobalType),
    Tag(TagType),
}

} // verus!
