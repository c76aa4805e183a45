//! Mapping of the items that sections hold.

use super::scalars::{map_ref_type, map_val_type, mapped_ref_type, mapped_val_type};
use super::types::{
    const_expr_maps, map_const_expr, map_export_kind, map_global_type, map_memory_type,
    map_sub_type, map_table_type, map_tag_type, map_type_ref, mapped_export_kind,
    mapped_global_type, mapped_memory_type, mapped_table_type, mapped_tag_type, mapped_type_ref,
    sub_type_maps,
};
use crate::decoded::module as dec;
use crate::decoded::types::{MemoryType, SubType, TagType, ValType};
use crate::encoded::module as enc;
use crate::encoded::types as enc_ty;
use vstd::prelude::*;

verus! {

/// Types correspond one by one, in order.
pub open spec fn sub_types_map(from: Seq<SubType>, to: Seq<enc_ty::SubType>) -> bool {
    &&& to.len() == from.len()
    &&& forall|i: int| 0 <= i < from.len() ==> sub_type_maps(#[trigger] from[i], to[i])
}

/// An explicit group becomes one recursive scope of its members; a type
/// that stands alone becomes one declaration of its own.
pub open spec fn rec_group_maps(from: dec::RecGroup, to: enc::TypeEntry) -> bool {
    match to {
        enc::TypeEntry::Rec(types) => from.explicit() && sub_types_map(from.members(), types@),
        enc::TypeEntry::Sub(ty) => !from.explicit() && from.members().len() == 1 && sub_type_maps(
            from.members()[0],
            ty,
        ),
    }
}

pub open spec fn import_maps(from: dec::Import, to: enc::Import) -> bool {
    &&& to.module@ == from.module@
    &&& to.field@ == from.name@
    &&& to.ty == mapped_type_ref(from.ty)
}

pub open spec fn table_maps(from: dec::Table, to: enc::Table) -> bool {
    &&& to.ty == mapped_table_type(from.ty)
    &&& match (from.init, to.init) {
        (dec::TableInit::RefNull, None) => true,
        (dec::TableInit::Expr(f), Some(t)) => const_expr_maps(f, t),
        _ => false,
    }
}

pub open spec fn global_maps(from: dec::Global, to: enc::Global) -> bool {
    &&& to.ty == mapped_global_type(from.ty)
    &&& const_expr_maps(from.init_expr, to.init_expr)
}

pub open spec fn export_maps(from: dec::Export, to: enc::Export) -> bool {
    &&& to.name@ == from.name@
    &&& to.kind == mapped_export_kind(from.kind)
    &&& to.index == from.index
}

pub open spec fn element_kind_maps(from: dec::ElementKind, to: enc::ElementMode) -> bool {
    match (from, to) {
        (dec::ElementKind::Passive, enc::ElementMode::Passive) => true,
        (dec::ElementKind::Declared, enc::ElementMode::Declared) => true,
        (
            dec::ElementKind::Active { table_index, offset_expr },
            enc::ElementMode::Active { table, offset },
        ) => table == table_index && const_expr_maps(offset_expr, offset),
        _ => false,
    }
}

/// Expressions correspond one by one, in order.
pub open spec fn const_exprs_map(from: Seq<dec::ConstExpr>, to: Seq<enc::ConstExpr>) -> bool {
    &&& to.len() == from.len()
    &&& forall|i: int| 0 <= i < from.len() ==> const_expr_maps(#[trigger] from[i], to[i])
}

pub open spec fn element_items_map(from: dec::ElementItems, to: enc::Elements) -> bool {
    match (from, to) {
        (dec::ElementItems::Functions(f), enc::Elements::Functions(t)) => t@ == f@,
        (dec::ElementItems::Expressions(ty, f), enc::Elements::Expressions(to_ty, t)) => to_ty
            == mapped_ref_type(ty) && const_exprs_map(f@, t@),
        _ => false,
    }
}

pub open spec fn element_maps(from: dec::Element, to: enc::ElementSegment) -> bool {
    &&& element_kind_maps(from.kind, to.mode)
    &&& element_items_map(from.items, to.elements)
}

pub open spec fn data_maps(from: dec::Data, to: enc::DataSegment) -> bool {
    &&& to.data@ == from.data@
    &&& match (from.kind, to.mode) {
        (dec::DataKind::Passive, enc::DataSegmentMode::Passive) => true,
        (
            dec::DataKind::Active { memory_index, offset_expr },
            enc::DataSegmentMode::Active { memory_index: to_index, offset },
        ) => to_index == memory_index && const_expr_maps(offset_expr, offset),
        _ => false,
    }
}

pub open spec fn mapped_local(local: (u32, ValType)) -> (u32, enc_ty::ValType) {
    (local.0, mapped_val_type(local.1))
}

pub open spec fn mapped_locals(locals: Seq<(u32, ValType)>) -> Seq<(u32, enc_ty::ValType)> {
    locals.map_values(|l: (u32, ValType)| mapped_local(l))
}

pub open spec fn mapped_memory_types(tys: Seq<MemoryType>) -> Seq<enc_ty::MemoryType> {
    tys.map_values(|ty: MemoryType| mapped_memory_type(ty))
}

pub open spec fn mapped_tag_types(tys: Seq<TagType>) -> Seq<enc_ty::TagType> {
    tys.map_values(|ty: TagType| mapped_tag_type(ty))
}

pub fn map_sub_types(sub_types: Vec<SubType>) -> (r: Vec<enc_ty::SubType>)
    ensures
        sub_types_map(sub_types@, r@),
{
    let mut mapped: Vec<enc_ty::SubType> = Vec::new();
    for sub_type in it: sub_types
        invariant
            mapped@.len() == it.index(),
            forall|i: int| 0 <= i < it.index() ==> sub_type_maps(#[trigger] it.seq()[i], mapped@[i]),
    {
        mapped.push(map_sub_type(sub_type));
    }
    mapped
}

pub fn map_rec_group(rec_group: dec::RecGroup) -> (r: enc::TypeEntry)
    ensures
        rec_group_maps(rec_group, r),
{
    let explicit = rec_group.is_explicit_rec_group();
    let mut sub_types = map_sub_types(rec_group.into_types());
    if explicit {
        enc::TypeEntry::Rec(sub_types)
    } else {
        enc::TypeEntry::Sub(sub_types.remove(0))
    }
}

pub fn map_import(import: dec::Import) -> (r: enc::Import)
    ensures
        import_maps(import, r),
{
    enc::Import { module: import.module, field: import.name, ty: map_type_ref(import.ty) }
}

pub fn map_table(table: dec::Table) -> (r: enc::Table)
    ensures
        table_maps(table, r),
{
    let ty = map_table_type(table.ty);
    match table.init {
        dec::TableInit::RefNull => enc::Table { ty, init: None },
        dec::TableInit::Expr(const_expr) => enc::Table { ty, init: Some(map_const_expr(const_expr)) },
    }
}

pub fn map_global(global: dec::Global) -> (r: enc::Global)
    ensures
        global_maps(global, r),
{
    enc::Global { ty: map_global_type(global.ty), init_expr: map_const_expr(global.init_expr) }
}

pub fn map_export(export: dec::Export) -> (r: enc::Export)
    ensures
        export_maps(export, r),
{
    enc::Export { name: export.name, kind: map_export_kind(export.kind), index: export.index }
}

pub fn map_const_exprs(const_exprs: Vec<dec::ConstExpr>) -> (r: Vec<enc::ConstExpr>)
    ensures
        const_exprs_map(const_exprs@, r@),
{
    let mut mapped: Vec<enc::ConstExpr> = Vec::new();
    for const_expr in it: const_exprs
        invariant
            mapped@.len() == it.index(),
            forall|i: int|
                0 <= i < it.index() ==> const_expr_maps(#[trigger] it.seq()[i], mapped@[i]),
    {
        mapped.push(map_const_expr(const_expr));
    }
    mapped
}

pub fn map_element(element: dec::Element) -> (r: enc::ElementSegment)
    ensures
        element_maps(element, r),
{
    let mode = match element.kind {
        dec::ElementKind::Passive => enc::ElementMode::Passive,
        dec::ElementKind::Declared => enc::ElementMode::Declared,
        dec::ElementKind::Active { table_index, offset_expr } => enc::ElementMode::Active {
            table: table_index,
            offset: map_const_expr(offset_expr),
        },
    };
    let elements = match element.items {
        dec::ElementItems::Functions(functions) => enc::Elements::Functions(functions),
        dec::ElementItems::Expressions(ref_type, const_exprs) => enc::Elements::Expressions(
            map_ref_type(ref_type),
            map_const_exprs(const_exprs),
        ),
    };
    enc::ElementSegment { mode, elements }
}

pub fn map_data(data: dec::Data) -> (r: enc::DataSegment)
    ensures
        data_maps(data, r),
{
    match data.kind {
        dec::DataKind::Passive => enc::DataSegment {
            mode: enc::DataSegmentMode::Passive,
            data: data.data,
        },
        dec::DataKind::Active { memory_index, offset_expr } => enc::DataSegment {
            mode: enc::DataSegmentMode::Active { memory_index, offset: map_const_expr(offset_expr) },
            data: data.data,
        },
    }
}

pub fn map_locals(locals: Vec<(u32, ValType)>) -> (r: Vec<(u32, enc_ty::ValType)>)
    ensures
        r@ == mapped_locals(locals@),
{
    let mut mapped: Vec<(u32, enc_ty::ValType)> = Vec::new();
    let mut i: usize = 0;
    while i < locals.len()
        invariant
            i <= locals.len(),
            mapped@ == mapped_locals(locals@.take(i as int)),
        decreases locals.len() - i,
    {
        let local = locals[i];
        mapped.push((local.0, map_val_type(local.1)));
        assert(locals@.take(i + 1) == locals@.take(i as int).push(locals@[i as int]));
        assert(mapped@ =~= mapped_locals(locals@.take(i + 1)));
        i += 1;
    }
    assert(locals@.take(i as int) == locals@);
    mapped
}

pub fn map_memory_types(memory_types: Vec<MemoryType>) -> (r: Vec<enc_ty::MemoryType>)
    ensures
        r@ == mapped_memory_types(memory_types@),
{
    let mut mapped: Vec<enc_ty::MemoryType> = Vec::new();
    let mut i: usize = 0;
    while i < memory_types.len()
        invariant
            i <= memory_types.len(),
            mapped@ == mapped_memory_types(memory_types@.take(i as int)),
        decreases memory_types.len() - i,
    {
        mapped.push(map_memory_type(memory_types[i]));
        assert(memory_types@.take(i + 1) == memory_types@.take(i as int).push(
            memory_types@[i as int],
        ));
        assert(mapped@ =~= mapped_memory_types(memory_types@.take(i + 1)));
        i += 1;
    }
    assert(memory_types@.take(i as int) == memory_types@);
    mapped
}

pub fn map_tag_types(tag_types: Vec<TagType>) -> (r: Vec<enc_ty::TagType>)
    ensures
        r@ == mapped_tag_types(tag_types@),
{
    let mut mapped: Vec<enc_ty::TagType> = Vec::new();
    let mut i: usize = 0;
    while i < tag_types.len()
        invariant
            i <= tag_types.len(),
            mapped@ == mapped_tag_types(tag_types@.take(i as int)),
        decreases tag_types.len() - i,
    {
        mapped.push(map_tag_type(tag_types[i]));
        assert(tag_types@.take(i + 1) == tag_types@.take(i as int).push(tag_types@[i as int]));
        assert(mapped@ =~= mapped_tag_types(tag_types@.take(i + 1)));
        i += 1;
    }
    assert(tag_types@.take(i as int) == tag_types@);
    mapped
}

} // verus!
