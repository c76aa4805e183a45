//! Mapping of value types, reference types and operator immediates.

use crate::decoded::immediates as dec_imm;
use crate::decoded::types as dec;
use crate::encoded::immediates as enc_imm;
use crate::encoded::types as enc;
use vstd::prelude::*;

verus! {

pub open spec fn mapped_abstract_heap_type(ty: dec::AbstractHeapType) -> enc::AbstractHeapType {
    match ty {
        dec::AbstractHeapType::Func => enc::AbstractHeapType::Func,
        dec::AbstractHeapType::Extern => enc::AbstractHeapType::Extern,
        dec::AbstractHeapType::Any => enc::AbstractHeapType::Any,
        dec::AbstractHeapType::NoAny => enc::AbstractHeapType::NoAny,
        dec::AbstractHeapType::NoExtern => enc::AbstractHeapType::NoExtern,
        dec::AbstractHeapType::NoFunc => enc::AbstractHeapType::NoFunc,
        dec::AbstractHeapType::Eq => enc::AbstractHeapType::Eq,
        dec::AbstractHeapType::Struct => enc::AbstractHeapType::Struct,
        dec::AbstractHeapType::Array => enc::AbstractHeapType::Array,
        dec::AbstractHeapType::I31 => enc::AbstractHeapType::I31,
        dec::AbstractHeapType::Exn => enc::AbstractHeapType::Exn,
        dec::AbstractHeapType::NoExn => enc::AbstractHeapType::NoExn,
        dec::AbstractHeapType::Cont => enc::AbstractHeapType::Cont,
        dec::AbstractHeapType::NoCont => enc::AbstractHeapType::NoCont,
    }
}

/// The number a type index carries, whatever index space it points into.
pub open spec fn mapped_unpacked_index(index: dec::UnpackedIndex) -> u32 {
    match index {
        dec::UnpackedIndex::Module(i) => i,
        dec::UnpackedIndex::RecGroup(i) => i,
        dec::UnpackedIndex::Id(i) => i,
    }
}

pub open spec fn mapped_packed_index(index: dec::PackedIndex) -> u32 {
    mapped_unpacked_index(index.unpack())
}

pub open spec fn mapped_heap_type(ty: dec::HeapType) -> enc::HeapType {
    match ty {
        dec::HeapType::Abstract { shared, ty } => enc::HeapType::Abstract {
            shared,
            ty: mapped_abstract_heap_type(ty),
        },
        dec::HeapType::Concrete(index) => enc::HeapType::Concrete(mapped_unpacked_index(index)),
    }
}

pub open spec fn mapped_ref_type(ty: dec::RefType) -> enc::RefType {
    enc::RefType { nullable: ty.is_nullable(), heap_type: mapped_heap_type(ty.heap_type()) }
}

pub open spec fn mapped_val_type(ty: dec::ValType) -> enc::ValType {
    match ty {
        dec::ValType::I32 => enc::ValType::I32,
        dec::ValType::I64 => enc::ValType::I64,
        dec::ValType::F32 => enc::ValType::F32,
        dec::ValType::F64 => enc::ValType::F64,
        dec::ValType::V128 => enc::ValType::V128,
        dec::ValType::Ref(r) => enc::ValType::Ref(mapped_ref_type(r)),
    }
}

pub open spec fn mapped_val_types(tys: Seq<dec::ValType>) -> Seq<enc::ValType> {
    tys.map_values(|ty: dec::ValType| mapped_val_type(ty))
}

pub open spec fn mapped_block_type(ty: dec_imm::BlockType) -> enc_imm::BlockType {
    match ty {
        dec_imm::BlockType::Empty => enc_imm::BlockType::Empty,
        dec_imm::BlockType::Type(v) => enc_imm::BlockType::Result(mapped_val_type(v)),
        dec_imm::BlockType::FuncType(index) => enc_imm::BlockType::FunctionType(index),
    }
}

/// The largest admitted alignment is not written, so it has no counterpart.
pub open spec fn mapped_mem_arg(arg: dec_imm::MemArg) -> enc_imm::MemArg {
    enc_imm::MemArg { offset: arg.offset, align: arg.align as u32, memory_index: arg.memory }
}

pub open spec fn mapped_ieee32(value: dec_imm::Ieee32) -> enc_imm::Ieee32 {
    enc_imm::Ieee32(value.bits())
}

pub open spec fn mapped_ieee64(value: dec_imm::Ieee64) -> enc_imm::Ieee64 {
    enc_imm::Ieee64(value.bits())
}

pub open spec fn mapped_ordering(ordering: dec_imm::MemoryOrdering) -> enc_imm::MemoryOrdering {
    match ordering {
        dec_imm::MemoryOrdering::AcqRel => enc_imm::MemoryOrdering::AcqRel,
        dec_imm::MemoryOrdering::SeqCst => enc_imm::MemoryOrdering::SeqCst,
    }
}

pub open spec fn mapped_catch(catch: dec_imm::Catch) -> enc_imm::Catch {
    match catch {
        dec_imm::Catch::One { tag, label } => enc_imm::Catch::One { tag, label },
        dec_imm::Catch::OneRef { tag, label } => enc_imm::Catch::OneRef { tag, label },
        dec_imm::Catch::All { label } => enc_imm::Catch::All { label },
        dec_imm::Catch::AllRef { label } => enc_imm::Catch::AllRef { label },
    }
}

pub open spec fn mapped_catches(catches: Seq<dec_imm::Catch>) -> Seq<enc_imm::Catch> {
    catches.map_values(|c: dec_imm::Catch| mapped_catch(c))
}

pub open spec fn mapped_handle(handle: dec_imm::Handle) -> enc_imm::Handle {
    match handle {
        dec_imm::Handle::OnLabel { tag, label } => enc_imm::Handle::OnLabel { tag, label },
        dec_imm::Handle::OnSwitch { tag } => enc_imm::Handle::OnSwitch { tag },
    }
}

pub open spec fn mapped_handles(handles: Seq<dec_imm::Handle>) -> Seq<enc_imm::Handle> {
    handles.map_values(|h: dec_imm::Handle| mapped_handle(h))
}

pub fn map_abstract_heap_type(abstract_heap_type: dec::AbstractHeapType) -> (r: enc::AbstractHeapType)
    ensures
        r == mapped_abstract_heap_type(abstract_heap_type),
{
    match abstract_heap_type {
        dec::AbstractHeapType::Func => enc::AbstractHeapType::Func,
        dec::AbstractHeapType::Extern => enc::AbstractHeapType::Extern,
        dec::AbstractHeapType::Any => enc::AbstractHeapType::Any,
        dec::AbstractHeapType::NoAny => enc::AbstractHeapType::NoAny,
        dec::AbstractHeapType::NoExtern => enc::AbstractHeapType::NoExtern,
        dec::AbstractHeapType::NoFunc => enc::AbstractHeapType::NoFunc,
        dec::AbstractHeapType::Eq => enc::AbstractHeapType::Eq,
        dec::AbstractHeapType::Struct => enc::AbstractHeapType::Struct,
        dec::AbstractHeapType::Array => enc::AbstractHeapType::Array,
        dec::AbstractHeapType::I31 => enc::AbstractHeapType::I31,
        dec::AbstractHeapType::Exn => enc::AbstractHeapType::Exn,
        dec::AbstractHeapType::NoExn => enc::AbstractHeapType::NoExn,
        dec::AbstractHeapType::Cont => enc::AbstractHeapType::Cont,
        dec::AbstractHeapType::NoCont => enc::AbstractHeapType::NoCont,
    }
}

pub fn map_unpacked_index(unpacked_index: dec::UnpackedIndex) -> (r: u32)
    ensures
        r == mapped_unpacked_index(unpacked_index),
{
    match unpacked_index {
        dec::UnpackedIndex::Module(module_id) => module_id,
        dec::UnpackedIndex::RecGroup(rec_group_id) => rec_group_id,
        dec::UnpackedIndex::Id(core_type_id) => core_type_id,
    }
}

pub fn map_packed_index(packed_index: dec::PackedIndex) -> (r: u32)
    ensures
        r == mapped_packed_index(packed_index),
{
    map_unpacked_index(packed_index.unpack())
}

pub fn map_heap_type(heap_type: dec::HeapType) -> (r: enc::HeapType)
    ensures
        r == mapped_heap_type(heap_type),
{
    match heap_type {
        dec::HeapType::Abstract { shared, ty } => enc::HeapType::Abstract {
            shared,
            ty: map_abstract_heap_type(ty),
        },
        dec::HeapType::Concrete(unpacked_index) => enc::HeapType::Concrete(
            map_unpacked_index(unpacked_index),
        ),
    }
}

pub fn map_ref_type(ref_type: dec::RefType) -> (r: enc::RefType)
    ensures
        r == mapped_ref_type(ref_type),
{
    enc::RefType {
        nullable: ref_type.is_nullable(),
        heap_type: map_heap_type(ref_type.heap_type()),
    }
}

pub fn map_val_type(val_type: dec::ValType) -> (r: enc::ValType)
    ensures
        r == mapped_val_type(val_type),
{
    match val_type {
        dec::ValType::I32 => enc::ValType::I32,
        dec::ValType::I64 => enc::ValType::I64,
        dec::ValType::F32 => enc::ValType::F32,
        dec::ValType::F64 => enc::ValType::F64,
        dec::ValType::V128 => enc::ValType::V128,
        dec::ValType::Ref(ref_type) => enc::ValType::Ref(map_ref_type(ref_type)),
    }
}

pub fn map_val_types(val_types: Vec<dec::ValType>) -> (r: Vec<enc::ValType>)
    ensures
        r@ == mapped_val_types(val_types@),
{
    let mut mapped: Vec<enc::ValType> = Vec::new();
    let mut i: usize = 0;
    while i < val_types.len()
        invariant
            i <= val_types.len(),
            mapped@ == mapped_val_types(val_types@.take(i as int)),
        decreases val_types.len() - i,
    {
        mapped.push(map_val_type(val_types[i]));
        assert(val_types@.take(i + 1) == val_types@.take(i as int).push(val_types@[i as int]));
        assert(mapped@ =~= mapped_val_types(val_types@.take(i + 1)));
        i += 1;
    }
    assert(val_types@.take(i as int) == val_types@);
    mapped
}

pub fn map_block_type(block_type: dec_imm::BlockType) -> (r: enc_imm::BlockType)
    ensures
        r == mapped_block_type(block_type),
{
    match block_type {
        dec_imm::BlockType::Empty => enc_imm::BlockType::Empty,
        dec_imm::BlockType::Type(val_type) => enc_imm::BlockType::Result(map_val_type(val_type)),
        dec_imm::BlockType::FuncType(index) => enc_imm::BlockType::FunctionType(index),
    }
}

pub fn map_mem_arg(mem_arg: dec_imm::MemArg) -> (r: enc_imm::MemArg)
    ensures
        r == mapped_mem_arg(mem_arg),
{
    enc_imm::MemArg {
        offset: mem_arg.offset,
        align: mem_arg.align as u32,
        memory_index: mem_arg.memory,
    }
}

pub fn map_ieee32(ieee32: dec_imm::Ieee32) -> (r: enc_imm::Ieee32)
    ensures
        r == mapped_ieee32(ieee32),
{
    enc_imm::Ieee32::new(ieee32.bits())
}

pub fn map_ieee64(ieee64: dec_imm::Ieee64) -> (r: enc_imm::Ieee64)
    ensures
        r == mapped_ieee64(ieee64),
{
    enc_imm::Ieee64::new(ieee64.bits())
}

pub fn map_ordering(ordering: dec_imm::MemoryOrdering) -> (r: enc_imm::MemoryOrdering)
    ensures
        r == mapped_ordering(ordering),
{
    match ordering {
        dec_imm::MemoryOrdering::AcqRel => enc_imm::MemoryOrdering::AcqRel,
        dec_imm::MemoryOrdering::SeqCst => enc_imm::MemoryOrdering::SeqCst,
    }
}

pub fn map_catch(catch: dec_imm::Catch) -> (r: enc_imm::Catch)
    ensures
        r == mapped_catch(catch),
{
    match catch {
        dec_imm::Catch::One { tag, label } => enc_imm::Catch::One { tag, label },
        dec_imm::Catch::OneRef { tag, label } => enc_imm::Catch::OneRef { tag, label },
        dec_imm::Catch::All { label } => enc_imm::Catch::All { label },
        dec_imm::Catch::AllRef { label } => enc_imm::Catch::AllRef { label },
    }
}

pub fn map_catches(catches: Vec<dec_imm::Catch>) -> (r: Vec<enc_imm::Catch>)
    ensures
        r@ == mapped_catches(catches@),
{
    let mut mapped: Vec<enc_imm::Catch> = Vec::new();
    let mut i: usize = 0;
    while i < catches.len()
        invariant
            i <= catches.len(),
            mapped@ == mapped_catches(catches@.take(i as int)),
        decreases catches.len() - i,
    {
        mapped.push(map_catch(catches[i]));
        assert(catches@.take(i + 1) == catches@.take(i as int).push(catches@[i as int]));
        assert(mapped@ =~= mapped_catches(catches@.take(i + 1)));
        i += 1;
    }
    assert(catches@.take(i as int) == catches@);
    mapped
}

pub fn map_handle(handle: dec_imm::Handle) -> (r: enc_imm::Handle)
    ensures
        r == mapped_handle(handle),
{
    match handle {
        dec_imm::Handle::OnLabel { tag, label } => enc_imm::Handle::OnLabel { tag, label },
        dec_imm::Handle::OnSwitch { tag } => enc_imm::Handle::OnSwitch { tag },
    }
}

pub fn map_resume_table(resume_table: dec_imm::ResumeTable) -> (r: Vec<enc_imm::Handle>)
    ensures
        r@ == mapped_handles(resume_table.handlers@),
{
    let handlers = resume_table.handlers;
    let mut mapped: Vec<enc_imm::Handle> = Vec::new();
    let mut i: usize = 0;
    while i < handlers.len()
        invariant
            i <= handlers.len(),
            mapped@ == mapped_handles(handlers@.take(i as int)),
        decreases handlers.len() - i,
    {
        mapped.push(map_handle(handlers[i]));
        assert(handlers@.take(i + 1) == handlers@.take(i as int).push(handlers@[i as int]));
        assert(mapped@ =~= mapped_handles(handlers@.take(i + 1)));
        i += 1;
    }
    assert(handlers@.take(i as int) == handlers@);
    mapped
}

} // verus!
