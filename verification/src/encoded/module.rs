//! The sections of a module as they are handed to the writer.

use super::instruction::Instruction;
use super::types::{
    EntityType, ExportKind, GlobalType, MemoryType, RefType, SubType, TableType, TagType, ValType,
};
use vstd::prelude::*;

verus! {

/// A constant expression in the extended form: any instructions, without the
/// closing `end`, which the writer appends.
#[derive(Clone, Debug, PartialEq, Eq)]
pub struct ConstExpr {
    pub instructions: Vec<Instruction>,
}

impl ConstExpr {
    /// The expression of the given instructions, in the extended form.
    pub fn extended(instructions: Vec<Instruction>) -> (r: Self)
        ensures
            r.instructions == instructions,
    {
        ConstExpr { instructions }
    }
}

/// One declaration of the type section.
#[derive(Clone, Debug, PartialEq, Eq)]
pub enum TypeEntry {
    /// The types of one recursive group, written inside one recursive scope.
    Rec(Vec<SubType>),
    /// One type written on its own.
    Sub(SubType),
}

/// One import: where it comes from, and what it is.
#[derive(Clone, Debug, PartialEq, Eq)]
pub struct Import {
    pub module: String,
    pub field: String,
    pub ty: EntityType,
}

/// One table: its type, and how its elements start out.
#[derive(Clone, Debug, PartialEq, Eq)]
pub struct Table {
    pub ty: TableType,
    /// The initial value of every element; null where there is none.
    pub init: Option<ConstExpr>,
}

/// One global: its type, and the expression that gives its first value.
#[derive(Clone, Debug, PartialEq, Eq)]
pub struct Global {
    pub ty: GlobalType,
    pub init_expr: ConstExpr,
}

/// One export: its name, and the index of what it names in the index space of
/// its kind.
#[derive(Clone, Debug, PartialEq, Eq)]
pub struct Export {
    pub name: String,
    pub kind: ExportKind,
    pub index: u32,
}

/// When and where an element segment is put into a table.
#[derive(Clone, Debug, PartialEq, Eq)]
pub enum ElementMode {
    Passive,
    Declared,
    Active { table: Option<u32>, offset: ConstExpr },
}

/// What an element segment holds: function indexes, or expressions of one
/// reference type.
#[derive(Clone, Debug, PartialEq, Eq)]
pub enum Elements {
    Functions(Vec<u32>),
    Expressions(RefType, Vec<ConstExpr>),
}

/// One element segment.
#[derive(Clone, Debug, PartialEq, Eq)]
pub struct ElementSegment {
    pub mode: ElementMode,
    pub elements: Elements,
}

/// When and where a data segment is put into a memory.
#[derive(Clone, Debug, PartialEq, Eq)]
pub enum DataSegmentMode {
    Active { memory_index: u32, offset: ConstExpr },
    Passive,
}

/// One data segment.
#[derive(Clone, Debug, PartialEq, Eq)]
pub struct DataSegment {
    pub mode: DataSegmentMode,
    pub data: Vec<u8>,
}

/// One function body: its local declarations, then its instructions.
#[derive(Clone, Debug, PartialEq, Eq)]
pub struct Function {
    pub locals: Vec<(u32, ValType)>,
    pub instructions: Vec<Instruction>,
}

impl Function {
    /// A body with the given locals and no instruction yet.
    pub fn new(locals: Vec<(u32, ValType)>) -> (r: Self)
        ensures
            r.locals == locals,
            r.instructions@ == Seq::<Instruction>::empty(),
    {
        Function { locals, instructions: Vec::new() }
    }

    /// Appends one instruction to the body.
    pub fn instruction(&mut self, instruction: Instruction)
        ensures
            final(self).locals == old(self).locals,
            final(self).instructions@ == old(self).instructions@.push(instruction),
    {
        self.instructions.push(instruction);
    }
}

/// One section of a module, with its items in order.
#[derive(Clone, Debug, PartialEq, Eq)]
pub enum Section {
    Type(Vec<TypeEntry>),
    Import(Vec<Import>),
    Function(Vec<u32>),
    Table(Vec<Table>),
    Memory(Vec<MemoryType>),
    Tag(Vec<TagType>),
    Global(Vec<Global>),
    Export(Vec<Export>),
    Start { function_index: u32 },
    Element(Vec<ElementSegment>),
    Code(Vec<Function>),
    Data(Vec<DataSegment>),
    DataCount { count: u32 },
    Custom { name: String, data: Vec<u8> },
}

/// A module as the sequence of its sections, in the order they are written.
#[derive(Clone, Debug, PartialEq, Eq)]
pub struct Module {
    pub sections: Vec<Section>,
}

} // verus!
