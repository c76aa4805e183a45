//! Mapping of composite types, of the types that sections hold, and of
//! constant expressions.

use super::operators::{map_operator, operator_maps};
use super::scalars::{
    map_packed_index, map_ref_type, map_val_type, map_val_types, mapped_packed_index,
    mapped_ref_type, mapped_val_type, mapped_val_types,
};
use crate::decoded::module as dec_mod;
use crate::decoded::operator::Operator;
use crate::decoded::types as dec;
use crate::encoded::instruction::Instruction;
use crate::encoded::module as enc_mod;
use crate::encoded::types as enc;
use vstd::prelude::*;

verus! {

pub open spec fn mapped_storage_type(ty: dec::StorageType) -> enc::StorageType {
    match ty {
        dec::StorageType::I8 => enc::StorageType::I8,
        dec::StorageType::I16 => enc::StorageType::I16,
        dec::StorageType::Val(v) => enc::StorageType::Val(mapped_val_type(v)),
    }
}

pub open spec fn mapped_field_type(ty: dec::FieldType) -> enc::FieldType {
    enc::FieldType { element_type: mapped_storage_type(ty.element_type), mutable: ty.mutable }
}

pub open spec fn mapped_field_types(tys: Seq<dec::FieldType>) -> Seq<enc::FieldType> {
    tys.map_values(|ty: dec::FieldType| mapped_field_type(ty))
}

pub open spec fn mapped_array_type(ty: dec::ArrayType) -> enc::ArrayType {
    enc::ArrayType(mapped_field_type(ty.0))
}

pub open spec fn mapped_cont_type(ty: dec::ContType) -> enc::ContType {
    enc::ContType(mapped_packed_index(ty.0))
}

/// Parameters and results are mapped one by one, in order.
pub open spec fn func_type_maps(from: dec::FuncType, to: enc::FuncType) -> bool {
    &&& to.params@ == mapped_val_types(from.params@)
    &&& to.results@ == mapped_val_types(from.results@)
}

/// Fields are mapped one by one, in order.
pub open spec fn struct_type_maps(from: dec::StructType, to: enc::StructType) -> bool {
    to.fields@ == mapped_field_types(from.fields@)
}

pub open spec fn composite_inner_type_maps(
    from: dec::CompositeInnerType,
    to: enc::CompositeInnerType,
) -> bool {
    match (from, to) {
        (dec::CompositeInnerType::Func(f), enc::CompositeInnerType::Func(t)) => func_type_maps(f, t),
        (dec::CompositeInnerType::Array(f), enc::CompositeInnerType::Array(t)) => t
            == mapped_array_type(f),
        (dec::CompositeInnerType::Struct(f), enc::CompositeInnerType::Struct(t)) => struct_type_maps(
            f,
            t,
        ),
        (dec::CompositeInnerType::Cont(f), enc::CompositeInnerType::Cont(t)) => t
            == mapped_cont_type(f),
        _ => false,
    }
}

pub open spec fn composite_type_maps(from: dec::CompositeType, to: enc::CompositeType) -> bool {
    &&& composite_inner_type_maps(from.inner, to.inner)
    &&& to.shared == from.shared
}

pub open spec fn mapped_supertype(index: Option<dec::PackedIndex>) -> Option<u32> {
    match index {
        Some(i) => Some(mapped_packed_index(i)),
        None => None,
    }
}

pub open spec fn sub_type_maps(from: dec::SubType, to: enc::SubType) -> bool {
    &&& to.is_final == from.is_final
    &&& to.supertype_idx == mapped_supertype(from.supertype_idx)
    &&& composite_type_maps(from.composite_type, to.composite_type)
}

pub open spec fn mapped_global_type(ty: dec::GlobalType) -> enc::GlobalType {
    enc::GlobalType {
        val_type: mapped_val_type(ty.content_type),
        mutable: ty.mutable,
        shared: ty.shared,
    }
}

pub open spec fn mapped_memory_type(ty: dec::MemoryType) -> enc::MemoryType {
    enc::MemoryType {
        minimum: ty.initial,
        maximum: ty.maximum,
        memory64: ty.memory64,
        shared: ty.shared,
        page_size_log2: ty.page_size_log2,
    }
}

pub open spec fn mapped_table_type(ty: dec::TableType) -> enc::TableType {
    enc::TableType {
        element_type: mapped_ref_type(ty.element_type),
        table64: ty.table64,
        minimum: ty.initial,
        maximum: ty.maximum,
        shared: ty.shared,
    }
}

pub open spec fn mapped_tag_kind(kind: dec::TagKind) -> enc::TagKind {
    match kind {
        dec::TagKind::Exception => enc::TagKind::Exception,
    }
}

pub open spec fn mapped_tag_type(ty: dec::TagType) -> enc::TagType {
    enc::TagType { kind: mapped_tag_kind(ty.kind), func_type_idx: ty.func_type_idx }
}

pub open spec fn mapped_export_kind(kind: dec::ExternalKind) -> enc::ExportKind {
    match kind {
        dec::ExternalKind::Func => enc::ExportKind::Func,
        dec::ExternalKind::Table => enc::ExportKind::Table,
        dec::ExternalKind::Memory => enc::ExportKind::Memory,
        dec::ExternalKind::Global => enc::ExportKind::Global,
        dec::ExternalKind::Tag => enc::ExportKind::Tag,
    }
}

pub open spec fn mapped_type_ref(ty: dec::TypeRef) -> enc::EntityType {
    match ty {
        dec::TypeRef::Func(index) => enc::EntityType::Function(index),
        dec::TypeRef::Table(t) => enc::EntityType::Table(mapped_table_type(t)),
        dec::TypeRef::Memory(t) => enc::EntityType::Memory(mapped_memory_type(t)),
        dec::TypeRef::Global(t) => enc::EntityType::Global(mapped_global_type(t)),
        dec::TypeRef::Tag(t) => enc::EntityType::Tag(mapped_tag_type(t)),
    }
}

/// Operators and instructions correspond one by one, in order.
pub open spec fn operators_map(operators: Seq<Operator>, instructions: Seq<Instruction>) -> bool {
    &&& instructions.len() == operators.len()
    &&& forall|i: int|
        0 <= i < operators.len() ==> operator_maps(#[trigger] operators[i], instructions[i])
}

/// The operators of a constant expression that are written: all of them,
/// but for one closing `end` where the last operator is one.
pub open spec fn written_operators(operators: Seq<Operator>) -> Seq<Operator> {
    if operators.len() > 0 && operators.last() is End {
        operators.drop_last()
    } else {
        operators
    }
}

pub open spec fn const_expr_maps(from: dec_mod::ConstExpr, to: enc_mod::ConstExpr) -> bool {
    operators_map(written_operators(from.operators@), to.instructions@)
}

/// What is written of a constant expression is what was read, but for the
/// closing `end`: with that put back where one was left out, the operators
/// are those that were read, in their order.
pub proof fn lemma_written_operators(operators: Seq<Operator>)
    ensures
        operators == if operators.len() > 0 && operators.last() is End {
            written_operators(operators).push(Operator::End)
        } else {
            written_operators(operators)
        },
{
    if operators.len() > 0 && operators.last() is End {
        assert(operators =~= operators.drop_last().push(operators.last()));
    }
}

/// Only `end` maps to `end`.
pub proof fn lemma_end_maps_to_end(operator: Operator, instruction: Instruction)
    requires
        operator_maps(operator, instruction),
    ensures
        operator is End <==> instruction is End,
{
}

pub fn map_storage_type(storage_type: dec::StorageType) -> (r: enc::StorageType)
    ensures
        r == mapped_storage_type(storage_type),
{
    match storage_type {
        dec::StorageType::I8 => enc::StorageType::I8,
        dec::StorageType::I16 => enc::StorageType::I16,
        dec::StorageType::Val(val_type) => enc::StorageType::Val(map_val_type(val_type)),
    }
}

pub fn map_field_type(field_type: &dec::FieldType) -> (r: enc::FieldType)
    ensures
        r == mapped_field_type(*field_type),
{
    enc::FieldType {
        element_type: map_storage_type(field_type.element_type),
        mutable: field_type.mutable,
    }
}

pub fn map_func_type(func_type: dec::FuncType) -> (r: enc::FuncType)
    ensures
        func_type_maps(func_type, r),
{
    enc::FuncType::new(map_val_types(func_type.params), map_val_types(func_type.results))
}

pub fn map_array_type(array_type: dec::ArrayType) -> (r: enc::ArrayType)
    ensures
        r == mapped_array_type(array_type),
{
    enc::ArrayType(map_field_type(&array_type.0))
}

pub fn map_struct_type(struct_type: dec::StructType) -> (r: enc::StructType)
    ensures
        struct_type_maps(struct_type, r),
{
    let mut fields: Vec<enc::FieldType> = Vec::new();
    let mut i: usize = 0;
    while i < struct_type.fields.len()
        invariant
            i <= struct_type.fields.len(),
            fields@ == mapped_field_types(struct_type.fields@.take(i as int)),
        decreases struct_type.fields.len() - i,
    {
        fields.push(map_field_type(&struct_type.fields[i]));
        assert(struct_type.fields@.take(i + 1) == struct_type.fields@.take(i as int).push(
            struct_type.fields@[i as int],
        ));
        assert(fields@ =~= mapped_field_types(struct_type.fields@.take(i + 1)));
        i += 1;
    }
    assert(struct_type.fields@.take(i as int) == struct_type.fields@);
    enc::StructType { fields }
}

pub fn map_cont_type(cont_type: dec::ContType) -> (r: enc::ContType)
    ensures
        r == mapped_cont_type(cont_type),
{
    enc::ContType(map_packed_index(cont_type.0))
}

pub fn map_composite_inner_type(composite_inner_type: dec::CompositeInnerType) -> (r:
    enc::CompositeInnerType)
    ensures
        composite_inner_type_maps(composite_inner_type, r),
{
    match composite_inner_type {
        dec::CompositeInnerType::Func(func_type) => enc::CompositeInnerType::Func(
            map_func_type(func_type),
        ),
        dec::CompositeInnerType::Array(array_type) => enc::CompositeInnerType::Array(
            map_array_type(array_type),
        ),
        dec::CompositeInnerType::Struct(struct_type) => enc::CompositeInnerType::Struct(
            map_struct_type(struct_type),
        ),
        dec::CompositeInnerType::Cont(cont_type) => enc::CompositeInnerType::Cont(
            map_cont_type(cont_type),
        ),
    }
}

pub fn map_composite_type(composite_type: dec::CompositeType) -> (r: enc::CompositeType)
    ensures
        composite_type_maps(composite_type, r),
{
    enc::CompositeType {
        inner: map_composite_inner_type(composite_type.inner),
        shared: composite_type.shared,
    }
}

pub fn map_sub_type(sub_type: dec::SubType) -> (r: enc::SubType)
    ensures
        sub_type_maps(sub_type, r),
{
    let supertype_idx = match sub_type.supertype_idx {
        Some(packed_index) => Some(map_packed_index(packed_index)),
        None => None,
    };
    enc::SubType {
        is_final: sub_type.is_final,
        supertype_idx,
        composite_type: map_composite_type(sub_type.composite_type),
    }
}

pub fn map_global_type(global_type: dec::GlobalType) -> (r: enc::GlobalType)
    ensures
        r == mapped_global_type(global_type),
{
    enc::GlobalType {
        val_type: map_val_type(global_type.content_type),
        mutable: global_type.mutable,
        shared: global_type.shared,
    }
}

pub fn map_memory_type(memory_type: dec::MemoryType) -> (r: enc::MemoryType)
    ensures
        r == mapped_memory_type(memory_type),
{
    enc::MemoryType {
        minimum: memory_type.initial,
        maximum: memory_type.maximum,
        memory64: memory_type.memory64,
        shared: memory_type.shared,
        page_size_log2: memory_type.page_size_log2,
    }
}

pub fn map_table_type(table_type: dec::TableType) -> (r: enc::TableType)
    ensures
        r == mapped_table_type(table_type),
{
    enc::TableType {
        element_type: map_ref_type(table_type.element_type),
        table64: table_type.table64,
        minimum: table_type.initial,
        maximum: table_type.maximum,
        shared: table_type.shared,
    }
}

pub fn map_tag_kind(tag_kind: dec::TagKind) -> (r: enc::TagKind)
    ensures
        r == mapped_tag_kind(tag_kind),
{
    match tag_kind {
        dec::TagKind::Exception => enc::TagKind::Exception,
    }
}

pub fn map_tag_type(tag_type: dec::TagType) -> (r: enc::TagType)
    ensures
        r == mapped_tag_type(tag_type),
{
    enc::TagType { kind: map_tag_kind(tag_type.kind), func_type_idx: tag_type.func_type_idx }
}

pub fn map_export_kind(external_kind: dec::ExternalKind) -> (r: enc::ExportKind)
    ensures
        r == mapped_export_kind(external_kind),
{
    match external_kind {
        dec::ExternalKind::Func => enc::ExportKind::Func,
        dec::ExternalKind::Table => enc::ExportKind::Table,
        dec::ExternalKind::Memory => enc::ExportKind::Memory,
        dec::ExternalKind::Global => enc::ExportKind::Global,
        dec::ExternalKind::Tag => enc::ExportKind::Tag,
    }
}

pub fn map_type_ref(type_ref: dec::TypeRef) -> (r: enc::EntityType)
    ensures
        r == mapped_type_ref(type_ref),
{
    match type_ref {
        dec::TypeRef::Func(index) => enc::EntityType::Function(index),
        dec::TypeRef::Table(table_type) => enc::EntityType::Table(map_table_type(table_type)),
        dec::TypeRef::Memory(memory_type) => enc::EntityType::Memory(map_memory_type(memory_type)),
        dec::TypeRef::Global(global_type) => enc::EntityType::Global(map_global_type(global_type)),
        dec::TypeRef::Tag(tag_type) => enc::EntityType::Tag(map_tag_type(tag_type)),
    }
}

/// Maps every operator, in order.
pub fn map_operators(operators: Vec<Operator>) -> (r: Vec<Instruction>)
    ensures
        operators_map(operators@, r@),
{
    let mut instructions: Vec<Instruction> = Vec::new();
    for operator in it: operators
        invariant
            instructions@.len() == it.index(),
            forall|i: int|
                0 <= i < it.index() ==> operator_maps(#[trigger] it.seq()[i], instructions@[i]),
    {
        instructions.push(map_operator(operator));
    }
    instructions
}

/// Maps a constant expression: every operator in order, without the one
/// closing `end` that the expression may end in.
pub fn map_const_expr(const_expr: dec_mod::ConstExpr) -> (r: enc_mod::ConstExpr)
    ensures
        const_expr_maps(const_expr, r),
{
    let mut instructions = map_operators(const_expr.operators);
    let n = instructions.len();
    if n > 0 {
        proof {
            lemma_end_maps_to_end(const_expr.operators@[n - 1], instructions@[n - 1]);
        }
        if matches!(instructions[n - 1], Instruction::End) {
            instructions.pop();
        }
    }
    enc_mod::ConstExpr::extended(instructions)
}

} // verus!
