//! The WebAssembly encoder: from a model to the sections of a module, in
//! their canonical order.

use crate::decoded::module as dec;
use crate::decoded::types::SubType;
use crate::encoded::module::{
    DataSegment, ElementSegment, Export, Function, Global, Import, Module, Section, Table,
    TypeEntry,
};
use crate::encoded::types as enc_ty;
use crate::mappings::items::{
    data_maps, element_maps, export_maps, global_maps, import_maps, map_data, map_element,
    map_export, map_global, map_import, map_locals, map_memory_types, map_rec_group, map_table,
    map_tag_types, mapped_locals, mapped_memory_types, mapped_tag_types, rec_group_maps,
    sub_types_map, table_maps,
};
use crate::mappings::types::{operators_map, sub_type_maps};
use crate::metering::{metered, Metering};
use crate::model::{CodeSectionEntry, Model};
use vstd::prelude::*;

verus! {

/// The declarations of the type section stand for the groups one by one.
pub open spec fn types_encode(from: Seq<dec::RecGroup>, to: Seq<TypeEntry>) -> bool {
    &&& to.len() == from.len()
    &&& forall|i: int| 0 <= i < from.len() ==> rec_group_maps(#[trigger] from[i], to[i])
}

/// The types of the groups in the order of their flat index: the members
/// of the first group, then those of the second, and so on.
pub open spec fn flat_members(groups: Seq<dec::RecGroup>) -> Seq<SubType>
    decreases groups.len(),
{
    if groups.len() == 0 {
        Seq::empty()
    } else {
        flat_members(groups.drop_last()) + groups.last().members()
    }
}

/// The types that one declaration holds, in order.
pub open spec fn declared_types(entry: TypeEntry) -> Seq<enc_ty::SubType> {
    match entry {
        TypeEntry::Rec(types) => types@,
        TypeEntry::Sub(ty) => seq![ty],
    }
}

/// The types of the declarations in the order of their flat index.
pub open spec fn flat_types(entries: Seq<TypeEntry>) -> Seq<enc_ty::SubType>
    decreases entries.len(),
{
    if entries.len() == 0 {
        Seq::empty()
    } else {
        flat_types(entries.drop_last()) + declared_types(entries.last())
    }
}

/// Writing the type section keeps the flat numbering of types: the type at
/// each flat index of what is written is the mapped type at that index of
/// the model, whether or not its group was explicit.
pub proof fn lemma_flat_type_numbering(groups: Seq<dec::RecGroup>, entries: Seq<TypeEntry>)
    requires
        types_encode(groups, entries),
    ensures
        sub_types_map(flat_members(groups), flat_types(entries)),
    decreases groups.len(),
{
    if groups.len() > 0 {
        let g = groups.drop_last();
        let e = entries.drop_last();
        assert(types_encode(g, e)) by {
            assert forall|i: int| 0 <= i < g.len() implies rec_group_maps(#[trigger] g[i], e[i]) by {
                assert(rec_group_maps(groups[i], entries[i]));
            }
        }
        lemma_flat_type_numbering(g, e);
        assert(rec_group_maps(groups[groups.len() - 1], entries[groups.len() - 1]));
        let last_from = groups.last().members();
        let last_to = declared_types(entries.last());
        assert(sub_types_map(last_from, last_to));
        let from = flat_members(groups);
        let to = flat_types(entries);
        assert forall|i: int| 0 <= i < from.len() implies sub_type_maps(#[trigger] from[i], to[i]) by {
            if i < flat_members(g).len() {
                assert(sub_type_maps(flat_members(g)[i], flat_types(e)[i]));
            } else {
                assert(sub_type_maps(
                    last_from[i - flat_members(g).len()],
                    last_to[i - flat_members(g).len()],
                ));
            }
        }
    }
}

pub open spec fn imports_encode(from: Seq<dec::Import>, to: Seq<Import>) -> bool {
    &&& to.len() == from.len()
    &&& forall|i: int| 0 <= i < from.len() ==> import_maps(#[trigger] from[i], to[i])
}

pub open spec fn tables_encode(from: Seq<dec::Table>, to: Seq<Table>) -> bool {
    &&& to.len() == from.len()
    &&& forall|i: int| 0 <= i < from.len() ==> table_maps(#[trigger] from[i], to[i])
}

/// The globals of the model one by one, then the injected global where
/// metering is on.
pub open spec fn globals_encode(from: Seq<dec::Global>, metering: bool, to: Seq<Global>) -> bool {
    &&& to.len() == from.len() + if metering {
        1int
    } else {
        0int
    }
    &&& forall|i: int| 0 <= i < from.len() ==> global_maps(#[trigger] from[i], to[i])
    &&& metering ==> Metering::injected_global(to[from.len() as int])
}

/// The exports of the model one by one, then the injected export of the
/// global at `index` where metering is on.
pub open spec fn exports_encode(
    from: Seq<dec::Export>,
    metering: bool,
    index: u32,
    to: Seq<Export>,
) -> bool {
    &&& to.len() == from.len() + if metering {
        1int
    } else {
        0int
    }
    &&& forall|i: int| 0 <= i < from.len() ==> export_maps(#[trigger] from[i], to[i])
    &&& metering ==> Metering::injected_export(to[from.len() as int], index)
}

pub open spec fn elements_encode(from: Seq<dec::Element>, to: Seq<ElementSegment>) -> bool {
    &&& to.len() == from.len()
    &&& forall|i: int| 0 <= i < from.len() ==> element_maps(#[trigger] from[i], to[i])
}

pub open spec fn data_encode(from: Seq<dec::Data>, to: Seq<DataSegment>) -> bool {
    &&& to.len() == from.len()
    &&& forall|i: int| 0 <= i < from.len() ==> data_maps(#[trigger] from[i], to[i])
}

/// The body holds the mapped locals, then the mapped operators: those of the
/// entry as they are, or their metered form where metering is on.
pub open spec fn function_encodes(
    from: CodeSectionEntry,
    metering: bool,
    index: u32,
    to: Function,
) -> bool {
    &&& to.locals@ == mapped_locals(from.locals@)
    &&& operators_map(
        if metering {
            metered(from.operators@, index)
        } else {
            from.operators@
        },
        to.instructions@,
    )
}

pub open spec fn code_encodes(
    from: Seq<CodeSectionEntry>,
    metering: bool,
    index: u32,
    to: Seq<Function>,
) -> bool {
    &&& to.len() == from.len()
    &&& forall|i: int|
        0 <= i < from.len() ==> function_encodes(#[trigger] from[i], metering, index, to[i])
}

pub open spec fn custom_encodes(from: (String, Vec<u8>), to: Section) -> bool {
    match to {
        Section::Custom { name, data } => name@ == from.0@ && data@ == from.1@,
        _ => false,
    }
}

/// How many of the sections that are written only on a condition the model
/// has among the first `upto` of them: tag, start, data count.
pub open spec fn optional_sections(model: Model, upto: int) -> int {
    (if upto >= 1 && model.tag_types@.len() > 0 {
        1int
    } else {
        0int
    }) + (if upto >= 2 && model.start_function_index is Some {
        1int
    } else {
        0int
    }) + (if upto >= 3 && model.data_count is Some {
        1int
    } else {
        0int
    })
}

/// Whether `module` is what `model` is written as: the sections in the
/// canonical order (type, import, function, table, memory, tag where there
/// is a tag, global, export, start where there is one, element, code, data,
/// data count where there is one, then the custom sections), each holding
/// the mapped items of the model in their order, with the injected global
/// and export at the end of theirs where metering is on. The injected
/// global has the index that follows those of all globals of the model,
/// and that is the index which the injected export and the metered bodies
/// name.
pub open spec fn encodes(model: Model, metering: bool, module: Module) -> bool {
    let s = module.sections@;
    let c = optional_sections(model, 3);
    &&& s.len() == 10 + c + model.custom_sections@.len()
    &&& standard_sections_encode(model, metering, s)
    &&& forall|i: int|
        0 <= i < model.custom_sections@.len() ==> custom_encodes(
            #[trigger] model.custom_sections@[i],
            s[10 + c + i],
        )
}

/// The part of [`encodes`] that speaks of the sections before the custom
/// sections.
pub open spec fn standard_sections_encode(model: Model, metering: bool, s: Seq<Section>) -> bool {
    let index = model.global_count() as u32;
    let a = optional_sections(model, 1);
    let b = optional_sections(model, 2);
    &&& s[0] matches Section::Type(types) && types_encode(model.rec_groups@, types@)
    &&& s[1] matches Section::Import(imports) && imports_encode(model.imports@, imports@)
    &&& s[2] matches Section::Function(functions) && functions@ == model.function_indexes@
    &&& s[3] matches Section::Table(tables) && tables_encode(model.tables@, tables@)
    &&& s[4] matches Section::Memory(memories) && memories@ == mapped_memory_types(
        model.memory_types@,
    )
    &&& model.tag_types@.len() > 0 ==> (s[5] matches Section::Tag(tags) && tags@
        == mapped_tag_types(model.tag_types@))
    &&& s[5 + a] matches Section::Global(globals) && globals_encode(
        model.globals@,
        metering,
        globals@,
    )
    &&& s[6 + a] matches Section::Export(exports) && exports_encode(
        model.exports@,
        metering,
        index,
        exports@,
    )
    &&& model.start_function_index matches Some(function_index) ==> s[7 + a] == (Section::Start {
        function_index,
    })
    &&& s[7 + b] matches Section::Element(elements) && elements_encode(
        model.elements@,
        elements@,
    )
    &&& s[8 + b] matches Section::Code(functions) && code_encodes(
        model.code_section_entries@,
        metering,
        index,
        functions@,
    )
    &&& s[9 + b] matches Section::Data(segments) && data_encode(model.data@, segments@)
    &&& model.data_count matches Some(count) ==> s[10 + b] == (Section::DataCount { count })
}

fn encode_types(rec_groups: Vec<dec::RecGroup>) -> (r: Vec<TypeEntry>)
    ensures
        types_encode(rec_groups@, r@),
{
    let mut entries: Vec<TypeEntry> = Vec::new();
    for rec_group in it: rec_groups
        invariant
            entries@.len() == it.index(),
            forall|i: int| 0 <= i < it.index() ==> rec_group_maps(#[trigger] it.seq()[i], entries@[i]),
    {
        entries.push(map_rec_group(rec_group));
    }
    entries
}

fn encode_imports(imports: Vec<dec::Import>) -> (r: Vec<Import>)
    ensures
        imports_encode(imports@, r@),
{
    let mut section: Vec<Import> = Vec::new();
    for import in it: imports
        invariant
            section@.len() == it.index(),
            forall|i: int| 0 <= i < it.index() ==> import_maps(#[trigger] it.seq()[i], section@[i]),
    {
        section.push(map_import(import));
    }
    section
}

fn encode_tables(tables: Vec<dec::Table>) -> (r: Vec<Table>)
    ensures
        tables_encode(tables@, r@),
{
    let mut section: Vec<Table> = Vec::new();
    for table in it: tables
        invariant
            section@.len() == it.index(),
            forall|i: int| 0 <= i < it.index() ==> table_maps(#[trigger] it.seq()[i], section@[i]),
    {
        section.push(map_table(table));
    }
    section
}

fn encode_globals(globals: Vec<dec::Global>) -> (r: Vec<Global>)
    ensures
        globals_encode(globals@, false, r@),
{
    let mut section: Vec<Global> = Vec::new();
    for global in it: globals
        invariant
            section@.len() == it.index(),
            forall|i: int| 0 <= i < it.index() ==> global_maps(#[trigger] it.seq()[i], section@[i]),
    {
        section.push(map_global(global));
    }
    section
}

fn encode_exports(exports: Vec<dec::Export>) -> (r: Vec<Export>)
    ensures
        exports_encode(exports@, false, 0, r@),
{
    let mut section: Vec<Export> = Vec::new();
    for export in it: exports
        invariant
            section@.len() == it.index(),
            forall|i: int| 0 <= i < it.index() ==> export_maps(#[trigger] it.seq()[i], section@[i]),
    {
        section.push(map_export(export));
    }
    section
}

fn encode_elements(elements: Vec<dec::Element>) -> (r: Vec<ElementSegment>)
    ensures
        elements_encode(elements@, r@),
{
    let mut section: Vec<ElementSegment> = Vec::new();
    for element in it: elements
        invariant
            section@.len() == it.index(),
            forall|i: int| 0 <= i < it.index() ==> element_maps(#[trigger] it.seq()[i], section@[i]),
    {
        section.push(map_element(element));
    }
    section
}

fn encode_data(data: Vec<dec::Data>) -> (r: Vec<DataSegment>)
    ensures
        data_encode(data@, r@),
{
    let mut section: Vec<DataSegment> = Vec::new();
    for segment in it: data
        invariant
            section@.len() == it.index(),
            forall|i: int| 0 <= i < it.index() ==> data_maps(#[trigger] it.seq()[i], section@[i]),
    {
        section.push(map_data(segment));
    }
    section
}

/// The WebAssembly encoder.
pub struct Encoder {
    /// Metering properties.
    metering: Metering,
}

impl Default for Encoder {
    fn default() -> (r: Self)
        ensures
            !r.metering_enabled(),
    {
        Self::new()
    }
}

impl Encoder {
    /// Whether the encoder meters the function bodies it writes.
    pub closed spec fn metering_enabled(self) -> bool {
        self.metering.enabled()
    }

    /// The index of the global that holds the remaining points in the
    /// module that was written last.
    pub closed spec fn remaining_points_global_index(self) -> u32 {
        self.metering.global_index()
    }

    /// Creates a new [Encoder] instance.
    pub fn new() -> (r: Self)
        ensures
            !r.metering_enabled(),
    {
        Self { metering: Metering::new(false) }
    }

    /// Creates a new [Encoder] instance with metering.
    pub fn new_with_metering() -> (r: Self)
        ensures
            r.metering_enabled(),
    {
        Self { metering: Metering::new(true) }
    }

    fn encode_code(&mut self, entries: Vec<CodeSectionEntry>) -> (r: Vec<Function>)
        requires
            forall|i: int|
                0 <= i < entries@.len() ==> (#[trigger] entries@[i]).operators@.len() <= i64::MAX,
        ensures
            *final(self) == *old(self),
            code_encodes(
                entries@,
                old(self).metering.enabled(),
                old(self).metering.global_index(),
                r@,
            ),
    {
        let mut section: Vec<Function> = Vec::new();
        let ghost all = entries@;
        for entry in it: entries
            invariant
                it.seq() == all,
                *self == *old(self),
                forall|i: int| 0 <= i < all.len() ==> (#[trigger] all[i]).operators@.len() <= i64::MAX,
                section@.len() == it.index(),
                forall|i: int|
                    0 <= i < it.index() ==> function_encodes(
                        #[trigger] all[i],
                        old(self).metering.enabled(),
                        old(self).metering.global_index(),
                        section@[i],
                    ),
        {
            assert(entry == all[it.index() as int]);
            let mut function = Function::new(map_locals(entry.locals));
            self.metering.update_function(&mut function, entry.operators);
            assert(function.instructions@.skip(0) =~= function.instructions@);
            section.push(function);
        }
        section
    }

    /// Encodes the WebAssembly model into the sections of a module.
    pub fn encode(&mut self, model: Model) -> (module: Module)
        requires
            model.well_formed(),
        ensures
            final(self).metering_enabled() == old(self).metering_enabled(),
            old(self).metering_enabled() ==> final(self).remaining_points_global_index()
                == model.global_count(),
            encodes(model, old(self).metering_enabled(), module),
    {
        let ghost metering = self.metering.enabled();
        let imported = model.imported_global_count();
        let Model {
            custom_sections,
            rec_groups,
            imports,
            function_indexes,
            tables,
            memory_types,
            globals,
            exports,
            start_function_index,
            tag_types,
            elements,
            data,
            data_count,
            code_section_entries,
        } = model;
        let mut sections: Vec<Section> = Vec::new();

        sections.push(Section::Type(encode_types(rec_groups)));
        sections.push(Section::Import(encode_imports(imports)));
        sections.push(Section::Function(function_indexes));
        sections.push(Section::Table(encode_tables(tables)));
        sections.push(Section::Memory(map_memory_types(memory_types)));

        let tag_section = map_tag_types(tag_types);
        if !tag_section.is_empty() {
            sections.push(Section::Tag(tag_section));
        }
        assert(sections@.len() == 5 + optional_sections(model, 1));

        let mut global_section = encode_globals(globals);
        self.metering.update_global_section(imported, &mut global_section);
        assert(globals_encode(model.globals@, metering, global_section@)) by {
            if metering {
                assert(global_section@.drop_last().len() == model.globals@.len());
            }
        }
        sections.push(Section::Global(global_section));

        let mut export_section = encode_exports(exports);
        self.metering.update_export_section(&mut export_section);
        assert(exports_encode(
            model.exports@,
            metering,
            self.metering.global_index(),
            export_section@,
        )) by {
            if metering {
                assert(export_section@.drop_last().len() == model.exports@.len());
            }
        }
        sections.push(Section::Export(export_section));

        if let Some(function_index) = start_function_index {
            sections.push(Section::Start { function_index });
        }
        assert(sections@.len() == 7 + optional_sections(model, 2));

        sections.push(Section::Element(encode_elements(elements)));
        sections.push(Section::Code(self.encode_code(code_section_entries)));
        sections.push(Section::Data(encode_data(data)));

        if let Some(count) = data_count {
            sections.push(Section::DataCount { count });
        }
        assert(sections@.len() == 10 + optional_sections(model, 3));

        let ghost fixed = sections@;
        assert(standard_sections_encode(model, metering, fixed));
        for custom_section in it: custom_sections
            invariant
                it.seq() == model.custom_sections@,
                sections@.len() == fixed.len() + it.index(),
                sections@.take(fixed.len() as int) == fixed,
                forall|i: int|
                    0 <= i < it.index() ==> custom_encodes(
                        #[trigger] model.custom_sections@[i],
                        sections@[fixed.len() + i],
                    ),
        {
            let ghost previous = sections@;
            let (name, data) = custom_section;
            sections.push(Section::Custom { name, data });
            assert(sections@.take(fixed.len() as int) =~= previous.take(fixed.len() as int));
        }
        assert forall|i: int| 0 <= i < fixed.len() implies sections@[i] == fixed[i] by {
            assert(sections@.take(fixed.len() as int)[i] == sections@[i]);
        }
        Module { sections }
    }
}

} // verus!
