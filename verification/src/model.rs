//! Intermediate model for parsed WebAssembly.

use crate::decoded::module::{Data, Element, Export, Global, Import, RecGroup, Table};
use crate::decoded::operator::Operator;
use crate::decoded::types::{MemoryType, TagType, TypeRef, ValType};
use vstd::prelude::*;

verus! {

/// The body of one function: its local declarations, then its operators.
/// The entry at one position belongs to the function index at that position.
#[derive(Clone, Debug, PartialEq, Eq)]
pub struct CodeSectionEntry {
    pub locals: Vec<(u32, ValType)>,
    pub operators: Vec<Operator>,
}

impl Default for CodeSectionEntry {
    fn default() -> (r: Self)
        ensures
            r.locals@.len() == 0,
            r.operators@.len() == 0,
    {
        CodeSectionEntry { locals: Vec::new(), operators: Vec::new() }
    }
}

/// A module as one ordered collection per kind of section. The position of
/// an item in its collection is the index by which the rest of the module
/// refers to it.
#[derive(Clone, Debug, PartialEq, Eq)]
pub struct Model {
    pub custom_sections: Vec<(String, Vec<u8>)>,
    pub rec_groups: Vec<RecGroup>,
    pub imports: Vec<Import>,
    pub function_indexes: Vec<u32>,
    pub tables: Vec<Table>,
    pub memory_types: Vec<MemoryType>,
    pub globals: Vec<Global>,
    pub exports: Vec<Export>,
    pub start_function_index: Option<u32>,
    pub tag_types: Vec<TagType>,
    pub elements: Vec<Element>,
    pub data: Vec<Data>,
    pub data_count: Option<u32>,
    pub code_section_entries: Vec<CodeSectionEntry>,
}

/// The number of globals among `imports`. They come first in the index
/// space of globals, before those that the module defines.
pub open spec fn imported_globals(imports: Seq<Import>) -> nat
    decreases imports.len(),
{
    if imports.len() == 0 {
        0
    } else {
        imported_globals(imports.drop_last()) + if imports.last().ty is Global {
            1nat
        } else {
            0nat
        }
    }
}

/// There are no more globals among the imports than there are imports.
pub proof fn lemma_imported_globals_bound(imports: Seq<Import>)
    ensures
        imported_globals(imports) <= imports.len(),
    decreases imports.len(),
{
    if imports.len() > 0 {
        lemma_imported_globals_bound(imports.drop_last());
    }
}

/// What a model holds, as mathematical sequences.
pub struct ModelView {
    pub custom_sections: Seq<(String, Vec<u8>)>,
    pub rec_groups: Seq<RecGroup>,
    pub imports: Seq<Import>,
    pub function_indexes: Seq<u32>,
    pub tables: Seq<Table>,
    pub memory_types: Seq<MemoryType>,
    pub globals: Seq<Global>,
    pub exports: Seq<Export>,
    pub start_function_index: Option<u32>,
    pub tag_types: Seq<TagType>,
    pub elements: Seq<Element>,
    pub data: Seq<Data>,
    pub data_count: Option<u32>,
    pub code_section_entries: Seq<CodeSectionEntry>,
}

impl ModelView {
    /// The view of a model without any section.
    pub open spec fn empty() -> ModelView {
        ModelView {
            custom_sections: Seq::empty(),
            rec_groups: Seq::empty(),
            imports: Seq::empty(),
            function_indexes: Seq::empty(),
            tables: Seq::empty(),
            memory_types: Seq::empty(),
            globals: Seq::empty(),
            exports: Seq::empty(),
            start_function_index: None,
            tag_types: Seq::empty(),
            elements: Seq::empty(),
            data: Seq::empty(),
            data_count: None,
            code_section_entries: Seq::empty(),
        }
    }
}

impl View for Model {
    type V = ModelView;

    open spec fn view(&self) -> ModelView {
        ModelView {
            custom_sections: self.custom_sections@,
            rec_groups: self.rec_groups@,
            imports: self.imports@,
            function_indexes: self.function_indexes@,
            tables: self.tables@,
            memory_types: self.memory_types@,
            globals: self.globals@,
            exports: self.exports@,
            start_function_index: self.start_function_index,
            tag_types: self.tag_types@,
            elements: self.elements@,
            data: self.data@,
            data_count: self.data_count,
            code_section_entries: self.code_section_entries@,
        }
    }
}

impl Model {
    /// Whether the model holds nothing at all.
    pub open spec fn is_empty(self) -> bool {
        &&& self.custom_sections@.len() == 0
        &&& self.rec_groups@.len() == 0
        &&& self.imports@.len() == 0
        &&& self.function_indexes@.len() == 0
        &&& self.tables@.len() == 0
        &&& self.memory_types@.len() == 0
        &&& self.globals@.len() == 0
        &&& self.exports@.len() == 0
        &&& self.start_function_index is None
        &&& self.tag_types@.len() == 0
        &&& self.elements@.len() == 0
        &&& self.data@.len() == 0
        &&& self.data_count is None
        &&& self.code_section_entries@.len() == 0
    }

    /// The number of globals of the module, imported or defined: the index
    /// that the next global would get.
    pub open spec fn global_count(self) -> nat {
        imported_globals(self.imports@) + self.globals@.len()
    }

    /// What a model must meet to be written: its globals leave room in their
    /// index space for one more, and the operators of each function body can
    /// be counted in a signed 64-bit integer.
    pub open spec fn well_formed(self) -> bool {
        &&& self.global_count() <= u32::MAX
        &&& forall|i: int|
            0 <= i < self.code_section_entries@.len() ==> (
            #[trigger] self.code_section_entries@[i]).operators@.len() <= i64::MAX
    }

    /// Counts the globals that the module imports.
    pub fn imported_global_count(&self) -> (r: usize)
        ensures
            r == imported_globals(self.imports@),
    {
        let mut count: usize = 0;
        let mut i: usize = 0;
        while i < self.imports.len()
            invariant
                i <= self.imports.len(),
                count == imported_globals(self.imports@.take(i as int)),
            decreases self.imports.len() - i,
        {
            proof {
                lemma_imported_globals_bound(self.imports@.take(i as int));
                assert(self.imports@.take(i + 1).drop_last() == self.imports@.take(i as int));
            }
            if matches!(self.imports[i].ty, TypeRef::Global(_)) {
                count += 1;
            }
            i += 1;
        }
        assert(self.imports@.take(i as int) == self.imports@);
        count
    }

    /// Tests whether the model is well formed.
    pub fn is_well_formed(&self) -> (r: bool)
        ensures
            r == self.well_formed(),
    {
        if self.imported_global_count() as u128 + self.globals.len() as u128 > u32::MAX as u128 {
            return false;
        }
        let mut i: usize = 0;
        while i < self.code_section_entries.len()
            invariant
                i <= self.code_section_entries.len(),
                forall|j: int|
                    0 <= j < i ==> (#[trigger] self.code_section_entries@[j]).operators@.len()
                        <= i64::MAX,
            decreases self.code_section_entries.len() - i,
        {
            if self.code_section_entries[i].operators.len() as u64 > i64::MAX as u64 {
                return false;
            }
            i += 1;
        }
        true
    }
}

impl Default for Model {
    /// The model of a module without any section.
    fn default() -> (r: Self)
        ensures
            r.is_empty(),
            r@ == ModelView::empty(),
            r.well_formed(),
    {
        Model {
            custom_sections: Vec::new(),
            rec_groups: Vec::new(),
            imports: Vec::new(),
            function_indexes: Vec::new(),
            tables: Vec::new(),
            memory_types: Vec::new(),
            globals: Vec::new(),
            exports: Vec::new(),
            start_function_index: None,
            tag_types: Vec::new(),
            elements: Vec::new(),
            data: Vec::new(),
            data_count: None,
            code_section_entries: Vec::new(),
        }
    }
}

} // verus!
