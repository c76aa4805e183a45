//! The items of a module's sections, and the payloads a module is read as.

use super::operator::Operator;
use super::types::{
    ExternalKind, GlobalType, MemoryType, RefType, SubType, TableType, TagType, TypeRef, ValType,
};
use vstd::prelude::*;

verus! {

/// A half-open range of byte offsets into the module.
#[derive(Clone, Copy, Debug, PartialEq, Eq)]
pub struct ByteRange {
    pub start: usize,
    pub end: usize,
}

/// One entry of the type section: either a single type that stands alone, or
/// an explicit recursive group of any number of types.
#[derive(Debug, PartialEq, Eq)]
pub struct RecGroup {
    explicit: bool,
    types: Vec<SubType>,
}

impl RecGroup {
    #[verifier::type_invariant]
    spec fn well_formed(self) -> bool {
        !self.explicit ==> self.types@.len() == 1
    }

    /// Whether the group was written as a recursive group.
    pub closed spec fn explicit(self) -> bool {
        self.explicit
    }

    /// The members of the group, in order.
    pub closed spec fn members(self) -> Seq<SubType> {
        self.types@
    }

    /// The group of a type that stands alone.
    pub fn implicit(ty: SubType) -> (r: Self)
        ensures
            !r.explicit(),
            r.members() == seq![ty],
    {
        let mut types: Vec<SubType> = Vec::new();
        types.push(ty);
        RecGroup { explicit: false, types }
    }

    /// An explicit recursive group of `types`.
    pub fn explicit_group(types: Vec<SubType>) -> (r: Self)
        ensures
            r.explicit(),
            r.members() == types@,
    {
        RecGroup { explicit: true, types }
    }

    /// Whether the group was written as a recursive group.
    pub fn is_explicit_rec_group(&self) -> (r: bool)
        ensures
            r == self.explicit(),
    {
        self.explicit
    }

    /// The members; exactly one where the group is not explicit.
    pub fn types(&self) -> (r: &Vec<SubType>)
        ensures
            r@ == self.members(),
            !self.explicit() ==> r@.len() == 1,
    {
        proof {
            use_type_invariant(self);
        }
        &self.types
    }

    /// The members; exactly one where the group is not explicit.
    pub fn into_types(self) -> (r: Vec<SubType>)
        ensures
            r@ == self.members(),
            !self.explicit() ==> r@.len() == 1,
    {
        proof {
            use_type_invariant(&self);
        }
        self.types
    }
}

impl Clone for RecGroup {
    fn clone(&self) -> (r: Self)
        ensures
            r.explicit() == self.explicit(),
            r.members().len() == self.members().len(),
    {
        proof {
            use_type_invariant(self);
        }
        RecGroup { explicit: self.explicit, types: self.types.clone() }
    }
}

/// A constant expression: every operator that was read, the closing `end`
/// included where the module holds one.
#[derive(Clone, Debug, PartialEq, Eq)]
pub struct ConstExpr {
    pub operators: Vec<Operator>,
}

/// One import: where it comes from, and what it is.
#[derive(Clone, Debug, PartialEq, Eq)]
pub struct Import {
    pub module: String,
    pub name: String,
    pub ty: TypeRef,
}

/// How the elements of a table start out.
#[derive(Clone, Debug, PartialEq, Eq)]
pub enum TableInit {
    /// Every element starts out null.
    RefNull,
    /// Every element starts out as the value of the expression.
    Expr(ConstExpr),
}

/// One table: its type, and how its elements start out.
#[derive(Clone, Debug, PartialEq, Eq)]
pub struct Table {
    pub ty: TableType,
    pub init: TableInit,
}

/// One global: its type, and the expression that gives its first value.
#[derive(Clone, Debug, PartialEq, Eq)]
pub struct Global {
    pub ty: GlobalType,
    pub init_expr: ConstExpr,
}

/// One export: its name, and the index of what it names in the index space of
/// its kind.
#[derive(Clone, Debug, PartialEq, Eq)]
pub struct Export {
    pub name: String,
    pub kind: ExternalKind,
    pub index: u32,
}

/// When and where an element segment is put into a table.
#[derive(Clone, Debug, PartialEq, Eq)]
pub enum ElementKind {
    Passive,
    Active { table_index: Option<u32>, offset_expr: ConstExpr },
    Declared,
}

/// What an element segment holds: function indexes, or expressions of one
/// reference type.
#[derive(Clone, Debug, PartialEq, Eq)]
pub enum ElementItems {
    Functions(Vec<u32>),
    Expressions(RefType, Vec<ConstExpr>),
}

/// One element segment.
#[derive(Clone, Debug, PartialEq, Eq)]
pub struct Element {
    pub kind: ElementKind,
    pub items: ElementItems,
}

/// When and where a data segment is put into a memory.
#[derive(Clone, Debug, PartialEq, Eq)]
pub enum DataKind {
    Passive,
    Active { memory_index: u32, offset_expr: ConstExpr },
}

/// One data segment.
#[derive(Clone, Debug, PartialEq, Eq)]
pub struct Data {
    pub kind: DataKind,
    pub data: Vec<u8>,
}

/// One function body: its local declarations, then its operators.
#[derive(Clone, Debug, PartialEq, Eq)]
pub struct FunctionBody {
    pub locals: Vec<(u32, ValType)>,
    pub operators: Vec<Operator>,
}

/// What the header says the bytes hold.
#[derive(Clone, Copy, Debug, PartialEq, Eq)]
pub enum Encoding {
    Module,
    Component,
}

/// One step of reading a module: the header, a section with its items, one
/// function body, or the end.
#[derive(Clone, Debug, PartialEq, Eq)]
pub enum Payload {
    Version { num: u16, encoding: Encoding, range: ByteRange },
    TypeSection(Vec<RecGroup>),
    ImportSection(Vec<Import>),
    FunctionSection(Vec<u32>),
    TableSection(Vec<Table>),
    MemorySection(Vec<MemoryType>),
    TagSection(Vec<TagType>),
    GlobalSection(Vec<Global>),
    ExportSection(Vec<Export>),
    StartSection { func: u32, range: ByteRange },
    ElementSection(Vec<Element>),
    DataCountSection { count: u32, range: ByteRange },
    DataSection(Vec<Data>),
    CodeSectionStart { count: u32, range: ByteRange, size: u32 },
    CodeSectionEntry(FunctionBody),
    ModuleSection { range: ByteRange },
    InstanceSection { range: ByteRange },
    CoreTypeSection { range: ByteRange },
    ComponentSection { range: ByteRange },
    ComponentInstanceSection { range: ByteRange },
    ComponentAliasSection { range: ByteRange },
    ComponentTypeSection { range: ByteRange },
    ComponentCanonicalSection { range: ByteRange },
    ComponentStartSection { range: ByteRange },
    ComponentImportSection { range: ByteRange },
    ComponentExportSection { range: ByteRange },
    CustomSection { name: String, data: Vec<u8> },
    UnknownSection { id: u8, range: ByteRange },
    End(usize),
}

} // verus!
