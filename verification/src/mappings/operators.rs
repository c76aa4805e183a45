//! Mapping of operators to instructions.

use super::scalars::{
    map_block_type, map_catches, map_heap_type, map_ieee32, map_ieee64, map_mem_arg, map_ordering,
    map_ref_type, map_resume_table, map_val_type, map_val_types, mapped_block_type, mapped_catches,
    mapped_handles, mapped_heap_type, mapped_ieee32, mapped_ieee64, mapped_mem_arg, mapped_ordering,
    mapped_ref_type, mapped_val_type, mapped_val_types,
};
use crate::decoded::operator::Operator;
use crate::encoded::instruction::Instruction;
use vstd::prelude::*;

verus! {

/// Whether `instruction` is the counterpart of `operator`: the instruction of
/// the same name whose immediates are the mapped immediates of the operator,
/// lists compared element by element.
pub open spec fn operator_maps(operator: Operator, instruction: Instruction) -> bool {
    match (operator, instruction) {
        (Operator::Unreachable, Instruction::Unreachable) => true,
        (Operator::Nop, Instruction::Nop) => true,
        (Operator::Block { blockty }, Instruction::Block(e0)) => e0 == mapped_block_type(blockty),
        (Operator::Loop { blockty }, Instruction::Loop(e0)) => e0 == mapped_block_type(blockty),
        (Operator::If { blockty }, Instruction::If(e0)) => e0 == mapped_block_type(blockty),
        (Operator::Else, Instruction::Else) => true,
        (Operator::End, Instruction::End) => true,
        (Operator::Br { relative_depth }, Instruction::Br(e0)) => e0 == relative_depth,
        (Operator::BrIf { relative_depth }, Instruction::BrIf(e0)) => e0 == relative_depth,
        (Operator::BrTable { targets }, Instruction::BrTable(e0, e1)) => e0@ == targets.targets@ && e1 == targets.default,
        (Operator::Return, Instruction::Return) => true,
        (Operator::Call { function_index }, Instruction::Call(e0)) => e0 == function_index,
        (Operator::CallIndirect { type_index, table_index }, Instruction::CallIndirect { type_index: e_type_index, table_index: e_table_index }) => e_type_index == type_index && e_table_index == table_index,
        (Operator::Drop, Instruction::Drop) => true,
        (Operator::Select, Instruction::Select) => true,
        (Operator::LocalGet { local_index }, Instruction::LocalGet(e0)) => e0 == local_index,
        (Operator::LocalSet { local_index }, Instruction::LocalSet(e0)) => e0 == local_index,
        (Operator::LocalTee { local_index }, Instruction::LocalTee(e0)) => e0 == local_index,
        (Operator::GlobalGet { global_index }, Instruction::GlobalGet(e0)) => e0 == global_index,
        (Operator::GlobalSet { global_index }, Instruction::GlobalSet(e0)) => e0 == global_index,
        (Operator::I32Load { memarg }, Instruction::I32Load(e0)) => e0 == mapped_mem_arg(memarg),
        (Operator::I64Load { memarg }, Instruction::I64Load(e0)) => e0 == mapped_mem_arg(memarg),
        (Operator::F32Load { memarg }, Instruction::F32Load(e0)) => e0 == mapped_mem_arg(memarg),
        (Operator::F64Load { memarg }, Instruction::F64Load(e0)) => e0 == mapped_mem_arg(memarg),
        (Operator::I32Load8S { memarg }, Instruction::I32Load8S(e0)) => e0 == mapped_mem_arg(memarg),
        (Operator::I32Load8U { memarg }, Instruction::I32Load8U(e0)) => e0 == mapped_mem_arg(memarg),
        (Operator::I32Load16S { memarg }, Instruction::I32Load16S(e0)) => e0 == mapped_mem_arg(memarg),
        (Operator::I32Load16U { memarg }, Instruction::I32Load16U(e0)) => e0 == mapped_mem_arg(memarg),
        (Operator::I64Load8S { memarg }, Instruction::I64Load8S(e0)) => e0 == mapped_mem_arg(memarg),
        (Operator::I64Load8U { memarg }, Instruction::I64Load8U(e0)) => e0 == mapped_mem_arg(memarg),
        (Operator::I64Load16S { memarg }, Instruction::I64Load16S(e0)) => e0 == mapped_mem_arg(memarg),
        (Operator::I64Load16U { memarg }, Instruction::I64Load16U(e0)) => e0 == mapped_mem_arg(memarg),
        (Operator::I64Load32S { memarg }, Instruction::I64Load32S(e0)) => e0 == mapped_mem_arg(memarg),
        (Operator::I64Load32U { memarg }, Instruction::I64Load32U(e0)) => e0 == mapped_mem_arg(memarg),
        (Operator::I32Store { memarg }, Instruction::I32Store(e0)) => e0 == mapped_mem_arg(memarg),
        (Operator::I64Store { memarg }, Instruction::I64Store(e0)) => e0 == mapped_mem_arg(memarg),
        (Operator::F32Store { memarg }, Instruction::F32Store(e0)) => e0 == mapped_mem_arg(memarg),
        (Operator::F64Store { memarg }, Instruction::F64Store(e0)) => e0 == mapped_mem_arg(memarg),
        (Operator::I32Store8 { memarg }, Instruction::I32Store8(e0)) => e0 == mapped_mem_arg(memarg),
        (Operator::I32Store16 { memarg }, Instruction::I32Store16(e0)) => e0 == mapped_mem_arg(memarg),
        (Operator::I64Store8 { memarg }, Instruction::I64Store8(e0)) => e0 == mapped_mem_arg(memarg),
        (Operator::I64Store16 { memarg }, Instruction::I64Store16(e0)) => e0 == mapped_mem_arg(memarg),
        (Operator::I64Store32 { memarg }, Instruction::I64Store32(e0)) => e0 == mapped_mem_arg(memarg),
        (Operator::MemorySize { mem }, Instruction::MemorySize(e0)) => e0 == mem,
        (Operator::MemoryGrow { mem }, Instruction::MemoryGrow(e0)) => e0 == mem,
        (Operator::I32Const { value }, Instruction::I32Const(e0)) => e0 == value,
        (Operator::I64Const { value }, Instruction::I64Const(e0)) => e0 == value,
        (Operator::F32Const { value }, Instruction::F32Const(e0)) => e0 == mapped_ieee32(value),
        (Operator::F64Const { value }, Instruction::F64Const(e0)) => e0 == mapped_ieee64(value),
        (Operator::I32Eqz, Instruction::I32Eqz) => true,
        (Operator::I32Eq, Instruction::I32Eq) => true,
        (Operator::I32Ne, Instruction::I32Ne) => true,
        (Operator::I32LtS, Instruction::I32LtS) => true,
        (Operator::I32LtU, Instruction::I32LtU) => true,
        (Operator::I32GtS, Instruction::I32GtS) => true,
        (Operator::I32GtU, Instruction::I32GtU) => true,
        (Operator::I32LeS, Instruction::I32LeS) => true,
        (Operator::I32LeU, Instruction::I32LeU) => true,
        (Operator::I32GeS, Instruction::I32GeS) => true,
        (Operator::I32GeU, Instruction::I32GeU) => true,
        (Operator::I64Eqz, Instruction::I64Eqz) => true,
        (Operator::I64Eq, Instruction::I64Eq) => true,
        (Operator::I64Ne, Instruction::I64Ne) => true,
        (Operator::I64LtS, Instruction::I64LtS) => true,
        (Operator::I64LtU, Instruction::I64LtU) => true,
        (Operator::I64GtS, Instruction::I64GtS) => true,
        (Operator::I64GtU, Instruction::I64GtU) => true,
        (Operator::I64LeS, Instruction::I64LeS) => true,
        (Operator::I64LeU, Instruction::I64LeU) => true,
        (Operator::I64GeS, Instruction::I64GeS) => true,
        (Operator::I64GeU, Instruction::I64GeU) => true,
        (Operator::F32Eq, Instruction::F32Eq) => true,
        (Operator::F32Ne, Instruction::F32Ne) => true,
        (Operator::F32Lt, Instruction::F32Lt) => true,
        (Operator::F32Gt, Instruction::F32Gt) => true,
        (Operator::F32Le, Instruction::F32Le) => true,
        (Operator::F32Ge, Instruction::F32Ge) => true,
        (Operator::F64Eq, Instruction::F64Eq) => true,
        (Operator::F64Ne, Instruction::F64Ne) => true,
        (Operator::F64Lt, Instruction::F64Lt) => true,
        (Operator::F64Gt, Instruction::F64Gt) => true,
        (Operator::F64Le, Instruction::F64Le) => true,
        (Operator::F64Ge, Instruction::F64Ge) => true,
        (Operator::I32Clz, Instruction::I32Clz) => true,
        (Operator::I32Ctz, Instruction::I32Ctz) => true,
        (Operator::I32Popcnt, Instruction::I32Popcnt) => true,
        (Operator::I32Add, Instruction::I32Add) => true,
        (Operator::I32Sub, Instruction::I32Sub) => true,
        (Operator::I32Mul, Instruction::I32Mul) => true,
        (Operator::I32DivS, Instruction::I32DivS) => true,
        (Operator::I32DivU, Instruction::I32DivU) => true,
        (Operator::I32RemS, Instruction::I32RemS) => true,
        (Operator::I32RemU, Instruction::I32RemU) => true,
        (Operator::I32And, Instruction::I32And) => true,
        (Operator::I32Or, Instruction::I32Or) => true,
        (Operator::I32Xor, Instruction::I32Xor) => true,
        (Operator::I32Shl, Instruction::I32Shl) => true,
        (Operator::I32ShrS, Instruction::I32ShrS) => true,
        (Operator::I32ShrU, Instruction::I32ShrU) => true,
        (Operator::I32Rotl, Instruction::I32Rotl) => true,
        (Operator::I32Rotr, Instruction::I32Rotr) => true,
        (Operator::I64Clz, Instruction::I64Clz) => true,
        (Operator::I64Ctz, Instruction::I64Ctz) => true,
        (Operator::I64Popcnt, Instruction::I64Popcnt) => true,
        (Operator::I64Add, Instruction::I64Add) => true,
        (Operator::I64Sub, Instruction::I64Sub) => true,
        (Operator::I64Mul, Instruction::I64Mul) => true,
        (Operator::I64DivS, Instruction::I64DivS) => true,
        (Operator::I64DivU, Instruction::I64DivU) => true,
        (Operator::I64RemS, Instruction::I64RemS) => true,
        (Operator::I64RemU, Instruction::I64RemU) => true,
        (Operator::I64And, Instruction::I64And) => true,
        (Operator::I64Or, Instruction::I64Or) => true,
        (Operator::I64Xor, Instruction::I64Xor) => true,
        (Operator::I64Shl, Instruction::I64Shl) => true,
        (Operator::I64ShrS, Instruction::I64ShrS) => true,
        (Operator::I64ShrU, Instruction::I64ShrU) => true,
        (Operator::I64Rotl, Instruction::I64Rotl) => true,
        (Operator::I64Rotr, Instruction::I64Rotr) => true,
        (Operator::F32Abs, Instruction::F32Abs) => true,
        (Operator::F32Neg, Instruction::F32Neg) => true,
        (Operator::F32Ceil, Instruction::F32Ceil) => true,
        (Operator::F32Floor, Instruction::F32Floor) => true,
        (Operator::F32Trunc, Instruction::F32Trunc) => true,
        (Operator::F32Nearest, Instruction::F32Nearest) => true,
        (Operator::F32Sqrt, Instruction::F32Sqrt) => true,
        (Operator::F32Add, Instruction::F32Add) => true,
        (Operator::F32Sub, Instruction::F32Sub) => true,
        (Operator::F32Mul, Instruction::F32Mul) => true,
        (Operator::F32Div, Instruction::F32Div) => true,
        (Operator::F32Min, Instruction::F32Min) => true,
        (Operator::F32Max, Instruction::F32Max) => true,
        (Operator::F32Copysign, Instruction::F32Copysign) => true,
        (Operator::F64Abs, Instruction::F64Abs) => true,
        (Operator::F64Neg, Instruction::F64Neg) => true,
        (Operator::F64Ceil, Instruction::F64Ceil) => true,
        (Operator::F64Floor, Instruction::F64Floor) => true,
        (Operator::F64Trunc, Instruction::F64Trunc) => true,
        (Operator::F64Nearest, Instruction::F64Nearest) => true,
        (Operator::F64Sqrt, Instruction::F64Sqrt) => true,
        (Operator::F64Add, Instruction::F64Add) => true,
        (Operator::F64Sub, Instruction::F64Sub) => true,
        (Operator::F64Mul, Instruction::F64Mul) => true,
        (Operator::F64Div, Instruction::F64Div) => true,
        (Operator::F64Min, Instruction::F64Min) => true,
        (Operator::F64Max, Instruction::F64Max) => true,
        (Operator::F64Copysign, Instruction::F64Copysign) => true,
        (Operator::I32WrapI64, Instruction::I32WrapI64) => true,
        (Operator::I32TruncF32S, Instruction::I32TruncF32S) => true,
        (Operator::I32TruncF32U, Instruction::I32TruncF32U) => true,
        (Operator::I32TruncF64S, Instruction::I32TruncF64S) => true,
        (Operator::I32TruncF64U, Instruction::I32TruncF64U) => true,
        (Operator::I64ExtendI32S, Instruction::I64ExtendI32S) => true,
        (Operator::I64ExtendI32U, Instruction::I64ExtendI32U) => true,
        (Operator::I64TruncF32S, Instruction::I64TruncF32S) => true,
        (Operator::I64TruncF32U, Instruction::I64TruncF32U) => true,
        (Operator::I64TruncF64S, Instruction::I64TruncF64S) => true,
        (Operator::I64TruncF64U, Instruction::I64TruncF64U) => true,
        (Operator::F32ConvertI32S, Instruction::F32ConvertI32S) => true,
        (Operator::F32ConvertI32U, Instruction::F32ConvertI32U) => true,
        (Operator::F32ConvertI64S, Instruction::F32ConvertI64S) => true,
        (Operator::F32ConvertI64U, Instruction::F32ConvertI64U) => true,
        (Operator::F32DemoteF64, Instruction::F32DemoteF64) => true,
        (Operator::F64ConvertI32S, Instruction::F64ConvertI32S) => true,
        (Operator::F64ConvertI32U, Instruction::F64ConvertI32U) => true,
        (Operator::F64ConvertI64S, Instruction::F64ConvertI64S) => true,
        (Operator::F64ConvertI64U, Instruction::F64ConvertI64U) => true,
        (Operator::F64PromoteF32, Instruction::F64PromoteF32) => true,
        (Operator::I32ReinterpretF32, Instruction::I32ReinterpretF32) => true,
        (Operator::I64ReinterpretF64, Instruction::I64ReinterpretF64) => true,
        (Operator::F32ReinterpretI32, Instruction::F32ReinterpretI32) => true,
        (Operator::F64ReinterpretI64, Instruction::F64ReinterpretI64) => true,
        (Operator::I32Extend8S, Instruction::I32Extend8S) => true,
        (Operator::I32Extend16S, Instruction::I32Extend16S) => true,
        (Operator::I64Extend8S, Instruction::I64Extend8S) => true,
        (Operator::I64Extend16S, Instruction::I64Extend16S) => true,
        (Operator::I64Extend32S, Instruction::I64Extend32S) => true,
        (Operator::RefEq, Instruction::RefEq) => true,
        (Operator::StructNew { struct_type_index }, Instruction::StructNew(e0)) => e0 == struct_type_index,
        (Operator::StructNewDefault { struct_type_index }, Instruction::StructNewDefault(e0)) => e0 == struct_type_index,
        (Operator::StructGet { struct_type_index, field_index }, Instruction::StructGet { struct_type_index: e_struct_type_index, field_index: e_field_index }) => e_struct_type_index == struct_type_index && e_field_index == field_index,
        (Operator::StructGetS { struct_type_index, field_index }, Instruction::StructGetS { struct_type_index: e_struct_type_index, field_index: e_field_index }) => e_struct_type_index == struct_type_index && e_field_index == field_index,
        (Operator::StructGetU { struct_type_index, field_index }, Instruction::StructGetU { struct_type_index: e_struct_type_index, field_index: e_field_index }) => e_struct_type_index == struct_type_index && e_field_index == field_index,
        (Operator::StructSet { struct_type_index, field_index }, Instruction::StructSet { struct_type_index: e_struct_type_index, field_index: e_field_index }) => e_struct_type_index == struct_type_index && e_field_index == field_index,
        (Operator::ArrayNew { array_type_index }, Instruction::ArrayNew(e0)) => e0 == array_type_index,
        (Operator::ArrayNewDefault { array_type_index }, Instruction::ArrayNewDefault(e0)) => e0 == array_type_index,
        (Operator::ArrayNewFixed { array_type_index, array_size }, Instruction::ArrayNewFixed { array_type_index: e_array_type_index, array_size: e_array_size }) => e_array_type_index == array_type_index && e_array_size == array_size,
        (Operator::ArrayNewData { array_type_index, array_data_index }, Instruction::ArrayNewData { array_type_index: e_array_type_index, array_data_index: e_array_data_index }) => e_array_type_index == array_type_index && e_array_data_index == array_data_index,
        (Operator::ArrayNewElem { array_type_index, array_elem_index }, Instruction::ArrayNewElem { array_type_index: e_array_type_index, array_elem_index: e_array_elem_index }) => e_array_type_index == array_type_index && e_array_elem_index == array_elem_index,
        (Operator::ArrayGet { array_type_index }, Instruction::ArrayGet(e0)) => e0 == array_type_index,
        (Operator::ArrayGetS { array_type_index }, Instruction::ArrayGetS(e0)) => e0 == array_type_index,
        (Operator::ArrayGetU { array_type_index }, Instruction::ArrayGetU(e0)) => e0 == array_type_index,
        (Operator::ArraySet { array_type_index }, Instruction::ArraySet(e0)) => e0 == array_type_index,
        (Operator::ArrayLen, Instruction::ArrayLen) => true,
        (Operator::ArrayFill { array_type_index }, Instruction::ArrayFill(e0)) => e0 == array_type_index,
        (Operator::ArrayCopy { array_type_index_dst, array_type_index_src }, Instruction::ArrayCopy { array_type_index_dst: e_array_type_index_dst, array_type_index_src: e_array_type_index_src }) => e_array_type_index_dst == array_type_index_dst && e_array_type_index_src == array_type_index_src,
        (Operator::ArrayInitData { array_type_index, array_data_index }, Instruction::ArrayInitData { array_type_index: e_array_type_index, array_data_index: e_array_data_index }) => e_array_type_index == array_type_index && e_array_data_index == array_data_index,
        (Operator::ArrayInitElem { array_type_index, array_elem_index }, Instruction::ArrayInitElem { array_type_index: e_array_type_index, array_elem_index: e_array_elem_index }) => e_array_type_index == array_type_index && e_array_elem_index == array_elem_index,
        (Operator::RefTestNonNull { hty }, Instruction::RefTestNonNull(e0)) => e0 == mapped_heap_type(hty),
        (Operator::RefTestNullable { hty }, Instruction::RefTestNullable(e0)) => e0 == mapped_heap_type(hty),
        (Operator::RefCastNonNull { hty }, Instruction::RefCastNonNull(e0)) => e0 == mapped_heap_type(hty),
        (Operator::RefCastNullable { hty }, Instruction::RefCastNullable(e0)) => e0 == mapped_heap_type(hty),
        (Operator::BrOnCast { relative_depth, from_ref_type, to_ref_type }, Instruction::BrOnCast { relative_depth: e_relative_depth, from_ref_type: e_from_ref_type, to_ref_type: e_to_ref_type }) => e_relative_depth == relative_depth && e_from_ref_type == mapped_ref_type(from_ref_type) && e_to_ref_type == mapped_ref_type(to_ref_type),
        (Operator::BrOnCastFail { relative_depth, from_ref_type, to_ref_type }, Instruction::BrOnCastFail { relative_depth: e_relative_depth, from_ref_type: e_from_ref_type, to_ref_type: e_to_ref_type }) => e_relative_depth == relative_depth && e_from_ref_type == mapped_ref_type(from_ref_type) && e_to_ref_type == mapped_ref_type(to_ref_type),
        (Operator::AnyConvertExtern, Instruction::AnyConvertExtern) => true,
        (Operator::ExternConvertAny, Instruction::ExternConvertAny) => true,
        (Operator::RefI31, Instruction::RefI31) => true,
        (Operator::I31GetS, Instruction::I31GetS) => true,
        (Operator::I31GetU, Instruction::I31GetU) => true,
        (Operator::I32TruncSatF32S, Instruction::I32TruncSatF32S) => true,
        (Operator::I32TruncSatF32U, Instruction::I32TruncSatF32U) => true,
        (Operator::I32TruncSatF64S, Instruction::I32TruncSatF64S) => true,
        (Operator::I32TruncSatF64U, Instruction::I32TruncSatF64U) => true,
        (Operator::I64TruncSatF32S, Instruction::I64TruncSatF32S) => true,
        (Operator::I64TruncSatF32U, Instruction::I64TruncSatF32U) => true,
        (Operator::I64TruncSatF64S, Instruction::I64TruncSatF64S) => true,
        (Operator::I64TruncSatF64U, Instruction::I64TruncSatF64U) => true,
        (Operator::MemoryInit { data_index, mem }, Instruction::MemoryInit { mem: e_mem, data_index: e_data_index }) => e_mem == mem && e_data_index == data_index,
        (Operator::DataDrop { data_index }, Instruction::DataDrop(e0)) => e0 == data_index,
        (Operator::MemoryCopy { dst_mem, src_mem }, Instruction::MemoryCopy { dst_mem: e_dst_mem, src_mem: e_src_mem }) => e_dst_mem == dst_mem && e_src_mem == src_mem,
        (Operator::MemoryFill { mem }, Instruction::MemoryFill(e0)) => e0 == mem,
        (Operator::TableInit { elem_index, table }, Instruction::TableInit { elem_index: e_elem_index, table: e_table }) => e_elem_index == elem_index && e_table == table,
        (Operator::ElemDrop { elem_index }, Instruction::ElemDrop(e0)) => e0 == elem_index,
        (Operator::TableCopy { dst_table, src_table }, Instruction::TableCopy { dst_table: e_dst_table, src_table: e_src_table }) => e_dst_table == dst_table && e_src_table == src_table,
        (Operator::TypedSelect { ty }, Instruction::TypedSelect(e0)) => e0 == mapped_val_type(ty),
        (Operator::TypedSelectMulti { tys }, Instruction::TypedSelectMulti(e0)) => e0@ == mapped_val_types(tys@),
        (Operator::RefNull { hty }, Instruction::RefNull(e0)) => e0 == mapped_heap_type(hty),
        (Operator::RefIsNull, Instruction::RefIsNull) => true,
        (Operator::RefFunc { function_index }, Instruction::RefFunc(e0)) => e0 == function_index,
        (Operator::TableFill { table }, Instruction::TableFill(e0)) => e0 == table,
        (Operator::TableGet { table }, Instruction::TableGet(e0)) => e0 == table,
        (Operator::TableSet { table }, Instruction::TableSet(e0)) => e0 == table,
        (Operator::TableGrow { table }, Instruction::TableGrow(e0)) => e0 == table,
        (Operator::TableSize { table }, Instruction::TableSize(e0)) => e0 == table,
        (Operator::ReturnCall { function_index }, Instruction::ReturnCall(e0)) => e0 == function_index,
        (Operator::ReturnCallIndirect { type_index, table_index }, Instruction::ReturnCallIndirect { type_index: e_type_index, table_index: e_table_index }) => e_type_index == type_index && e_table_index == table_index,
        (Operator::MemoryDiscard { mem }, Instruction::MemoryDiscard(e0)) => e0 == mem,
        (Operator::MemoryAtomicNotify { memarg }, Instruction::MemoryAtomicNotify(e0)) => e0 == mapped_mem_arg(memarg),
        (Operator::MemoryAtomicWait32 { memarg }, Instruction::MemoryAtomicWait32(e0)) => e0 == mapped_mem_arg(memarg),
        (Operator::MemoryAtomicWait64 { memarg }, Instruction::MemoryAtomicWait64(e0)) => e0 == mapped_mem_arg(memarg),
        (Operator::AtomicFence, Instruction::AtomicFence) => true,
        (Operator::I32AtomicLoad { memarg }, Instruction::I32AtomicLoad(e0)) => e0 == mapped_mem_arg(memarg),
        (Operator::I64AtomicLoad { memarg }, Instruction::I64AtomicLoad(e0)) => e0 == mapped_mem_arg(memarg),
        (Operator::I32AtomicLoad8U { memarg }, Instruction::I32AtomicLoad8U(e0)) => e0 == mapped_mem_arg(memarg),
        (Operator::I32AtomicLoad16U { memarg }, Instruction::I32AtomicLoad16U(e0)) => e0 == mapped_mem_arg(memarg),
        (Operator::I64AtomicLoad8U { memarg }, Instruction::I64AtomicLoad8U(e0)) => e0 == mapped_mem_arg(memarg),
        (Operator::I64AtomicLoad16U { memarg }, Instruction::I64AtomicLoad16U(e0)) => e0 == mapped_mem_arg(memarg),
        (Operator::I64AtomicLoad32U { memarg }, Instruction::I64AtomicLoad32U(e0)) => e0 == mapped_mem_arg(memarg),
        (Operator::I32AtomicStore { memarg }, Instruction::I32AtomicStore(e0)) => e0 == mapped_mem_arg(memarg),
        (Operator::I64AtomicStore { memarg }, Instruction::I64AtomicStore(e0)) => e0 == mapped_mem_arg(memarg),
        (Operator::I32AtomicStore8 { memarg }, Instruction::I32AtomicStore8(e0)) => e0 == mapped_mem_arg(memarg),
        (Operator::I32AtomicStore16 { memarg }, Instruction::I32AtomicStore16(e0)) => e0 == mapped_mem_arg(memarg),
        (Operator::I64AtomicStore8 { memarg }, Instruction::I64AtomicStore8(e0)) => e0 == mapped_mem_arg(memarg),
        (Operator::I64AtomicStore16 { memarg }, Instruction::I64AtomicStore16(e0)) => e0 == mapped_mem_arg(memarg),
        (Operator::I64AtomicStore32 { memarg }, Instruction::I64AtomicStore32(e0)) => e0 == mapped_mem_arg(memarg),
        (Operator::I32AtomicRmwAdd { memarg }, Instruction::I32AtomicRmwAdd(e0)) => e0 == mapped_mem_arg(memarg),
        (Operator::I64AtomicRmwAdd { memarg }, Instruction::I64AtomicRmwAdd(e0)) => e0 == mapped_mem_arg(memarg),
        (Operator::I32AtomicRmw8AddU { memarg }, Instruction::I32AtomicRmw8AddU(e0)) => e0 == mapped_mem_arg(memarg),
        (Operator::I32AtomicRmw16AddU { memarg }, Instruction::I32AtomicRmw16AddU(e0)) => e0 == mapped_mem_arg(memarg),
        (Operator::I64AtomicRmw8AddU { memarg }, Instruction::I64AtomicRmw8AddU(e0)) => e0 == mapped_mem_arg(memarg),
        (Operator::I64AtomicRmw16AddU { memarg }, Instruction::I64AtomicRmw16AddU(e0)) => e0 == mapped_mem_arg(memarg),
        (Operator::I64AtomicRmw32AddU { memarg }, Instruction::I64AtomicRmw32AddU(e0)) => e0 == mapped_mem_arg(memarg),
        (Operator::I32AtomicRmwSub { memarg }, Instruction::I32AtomicRmwSub(e0)) => e0 == mapped_mem_arg(memarg),
        (Operator::I64AtomicRmwSub { memarg }, Instruction::I64AtomicRmwSub(e0)) => e0 == mapped_mem_arg(memarg),
        (Operator::I32AtomicRmw8SubU { memarg }, Instruction::I32AtomicRmw8SubU(e0)) => e0 == mapped_mem_arg(memarg),
        (Operator::I32AtomicRmw16SubU { memarg }, Instruction::I32AtomicRmw16SubU(e0)) => e0 == mapped_mem_arg(memarg),
        (Operator::I64AtomicRmw8SubU { memarg }, Instruction::I64AtomicRmw8SubU(e0)) => e0 == mapped_mem_arg(memarg),
        (Operator::I64AtomicRmw16SubU { memarg }, Instruction::I64AtomicRmw16SubU(e0)) => e0 == mapped_mem_arg(memarg),
        (Operator::I64AtomicRmw32SubU { memarg }, Instruction::I64AtomicRmw32SubU(e0)) => e0 == mapped_mem_arg(memarg),
        (Operator::I32AtomicRmwAnd { memarg }, Instruction::I32AtomicRmwAnd(e0)) => e0 == mapped_mem_arg(memarg),
        (Operator::I64AtomicRmwAnd { memarg }, Instruction::I64AtomicRmwAnd(e0)) => e0 == mapped_mem_arg(memarg),
        (Operator::I32AtomicRmw8AndU { memarg }, Instruction::I32AtomicRmw8AndU(e0)) => e0 == mapped_mem_arg(memarg),
        (Operator::I32AtomicRmw16AndU { memarg }, Instruction::I32AtomicRmw16AndU(e0)) => e0 == mapped_mem_arg(memarg),
        (Operator::I64AtomicRmw8AndU { memarg }, Instruction::I64AtomicRmw8AndU(e0)) => e0 == mapped_mem_arg(memarg),
        (Operator::I64AtomicRmw16AndU { memarg }, Instruction::I64AtomicRmw16AndU(e0)) => e0 == mapped_mem_arg(memarg),
        (Operator::I64AtomicRmw32AndU { memarg }, Instruction::I64AtomicRmw32AndU(e0)) => e0 == mapped_mem_arg(memarg),
        (Operator::I32AtomicRmwOr { memarg }, Instruction::I32AtomicRmwOr(e0)) => e0 == mapped_mem_arg(memarg),
        (Operator::I64AtomicRmwOr { memarg }, Instruction::I64AtomicRmwOr(e0)) => e0 == mapped_mem_arg(memarg),
        (Operator::I32AtomicRmw8OrU { memarg }, Instruction::I32AtomicRmw8OrU(e0)) => e0 == mapped_mem_arg(memarg),
        (Operator::I32AtomicRmw16OrU { memarg }, Instruction::I32AtomicRmw16OrU(e0)) => e0 == mapped_mem_arg(memarg),
        (Operator::I64AtomicRmw8OrU { memarg }, Instruction::I64AtomicRmw8OrU(e0)) => e0 == mapped_mem_arg(memarg),
        (Operator::I64AtomicRmw16OrU { memarg }, Instruction::I64AtomicRmw16OrU(e0)) => e0 == mapped_mem_arg(memarg),
        (Operator::I64AtomicRmw32OrU { memarg }, Instruction::I64AtomicRmw32OrU(e0)) => e0 == mapped_mem_arg(memarg),
        (Operator::I32AtomicRmwXor { memarg }, Instruction::I32AtomicRmwXor(e0)) => e0 == mapped_mem_arg(memarg),
        (Operator::I64AtomicRmwXor { memarg }, Instruction::I64AtomicRmwXor(e0)) => e0 == mapped_mem_arg(memarg),
        (Operator::I32AtomicRmw8XorU { memarg }, Instruction::I32AtomicRmw8XorU(e0)) => e0 == mapped_mem_arg(memarg),
        (Operator::I32AtomicRmw16XorU { memarg }, Instruction::I32AtomicRmw16XorU(e0)) => e0 == mapped_mem_arg(memarg),
        (Operator::I64AtomicRmw8XorU { memarg }, Instruction::I64AtomicRmw8XorU(e0)) => e0 == mapped_mem_arg(memarg),
        (Operator::I64AtomicRmw16XorU { memarg }, Instruction::I64AtomicRmw16XorU(e0)) => e0 == mapped_mem_arg(memarg),
        (Operator::I64AtomicRmw32XorU { memarg }, Instruction::I64AtomicRmw32XorU(e0)) => e0 == mapped_mem_arg(memarg),
        (Operator::I32AtomicRmwXchg { memarg }, Instruction::I32AtomicRmwXchg(e0)) => e0 == mapped_mem_arg(memarg),
        (Operator::I64AtomicRmwXchg { memarg }, Instruction::I64AtomicRmwXchg(e0)) => e0 == mapped_mem_arg(memarg),
        (Operator::I32AtomicRmw8XchgU { memarg }, Instruction::I32AtomicRmw8XchgU(e0)) => e0 == mapped_mem_arg(memarg),
        (Operator::I32AtomicRmw16XchgU { memarg }, Instruction::I32AtomicRmw16XchgU(e0)) => e0 == mapped_mem_arg(memarg),
        (Operator::I64AtomicRmw8XchgU { memarg }, Instruction::I64AtomicRmw8XchgU(e0)) => e0 == mapped_mem_arg(memarg),
        (Operator::I64AtomicRmw16XchgU { memarg }, Instruction::I64AtomicRmw16XchgU(e0)) => e0 == mapped_mem_arg(memarg),
        (Operator::I64AtomicRmw32XchgU { memarg }, Instruction::I64AtomicRmw32XchgU(e0)) => e0 == mapped_mem_arg(memarg),
        (Operator::I32AtomicRmwCmpxchg { memarg }, Instruction::I32AtomicRmwCmpxchg(e0)) => e0 == mapped_mem_arg(memarg),
        (Operator::I64AtomicRmwCmpxchg { memarg }, Instruction::I64AtomicRmwCmpxchg(e0)) => e0 == mapped_mem_arg(memarg),
        (Operator::I32AtomicRmw8CmpxchgU { memarg }, Instruction::I32AtomicRmw8CmpxchgU(e0)) => e0 == mapped_mem_arg(memarg),
        (Operator::I32AtomicRmw16CmpxchgU { memarg }, Instruction::I32AtomicRmw16CmpxchgU(e0)) => e0 == mapped_mem_arg(memarg),
        (Operator::I64AtomicRmw8CmpxchgU { memarg }, Instruction::I64AtomicRmw8CmpxchgU(e0)) => e0 == mapped_mem_arg(memarg),
        (Operator::I64AtomicRmw16CmpxchgU { memarg }, Instruction::I64AtomicRmw16CmpxchgU(e0)) => e0 == mapped_mem_arg(memarg),
        (Operator::I64AtomicRmw32CmpxchgU { memarg }, Instruction::I64AtomicRmw32CmpxchgU(e0)) => e0 == mapped_mem_arg(memarg),
        (Operator::V128Load { memarg }, Instruction::V128Load(e0)) => e0 == mapped_mem_arg(memarg),
        (Operator::V128Load8x8S { memarg }, Instruction::V128Load8x8S(e0)) => e0 == mapped_mem_arg(memarg),
        (Operator::V128Load8x8U { memarg }, Instruction::V128Load8x8U(e0)) => e0 == mapped_mem_arg(memarg),
        (Operator::V128Load16x4S { memarg }, Instruction::V128Load16x4S(e0)) => e0 == mapped_mem_arg(memarg),
        (Operator::V128Load16x4U { memarg }, Instruction::V128Load16x4U(e0)) => e0 == mapped_mem_arg(memarg),
        (Operator::V128Load32x2S { memarg }, Instruction::V128Load32x2S(e0)) => e0 == mapped_mem_arg(memarg),
        (Operator::V128Load32x2U { memarg }, Instruction::V128Load32x2U(e0)) => e0 == mapped_mem_arg(memarg),
        (Operator::V128Load8Splat { memarg }, Instruction::V128Load8Splat(e0)) => e0 == mapped_mem_arg(memarg),
        (Operator::V128Load16Splat { memarg }, Instruction::V128Load16Splat(e0)) => e0 == mapped_mem_arg(memarg),
        (Operator::V128Load32Splat { memarg }, Instruction::V128Load32Splat(e0)) => e0 == mapped_mem_arg(memarg),
        (Operator::V128Load64Splat { memarg }, Instruction::V128Load64Splat(e0)) => e0 == mapped_mem_arg(memarg),
        (Operator::V128Load32Zero { memarg }, Instruction::V128Load32Zero(e0)) => e0 == mapped_mem_arg(memarg),
        (Operator::V128Load64Zero { memarg }, Instruction::V128Load64Zero(e0)) => e0 == mapped_mem_arg(memarg),
        (Operator::V128Store { memarg }, Instruction::V128Store(e0)) => e0 == mapped_mem_arg(memarg),
        (Operator::V128Load8Lane { memarg, lane }, Instruction::V128Load8Lane { memarg: e_memarg, lane: e_lane }) => e_memarg == mapped_mem_arg(memarg) && e_lane == lane,
        (Operator::V128Load16Lane { memarg, lane }, Instruction::V128Load16Lane { memarg: e_memarg, lane: e_lane }) => e_memarg == mapped_mem_arg(memarg) && e_lane == lane,
        (Operator::V128Load32Lane { memarg, lane }, Instruction::V128Load32Lane { memarg: e_memarg, lane: e_lane }) => e_memarg == mapped_mem_arg(memarg) && e_lane == lane,
        (Operator::V128Load64Lane { memarg, lane }, Instruction::V128Load64Lane { memarg: e_memarg, lane: e_lane }) => e_memarg == mapped_mem_arg(memarg) && e_lane == lane,
        (Operator::V128Store8Lane { memarg, lane }, Instruction::V128Store8Lane { memarg: e_memarg, lane: e_lane }) => e_memarg == mapped_mem_arg(memarg) && e_lane == lane,
        (Operator::V128Store16Lane { memarg, lane }, Instruction::V128Store16Lane { memarg: e_memarg, lane: e_lane }) => e_memarg == mapped_mem_arg(memarg) && e_lane == lane,
        (Operator::V128Store32Lane { memarg, lane }, Instruction::V128Store32Lane { memarg: e_memarg, lane: e_lane }) => e_memarg == mapped_mem_arg(memarg) && e_lane == lane,
        (Operator::V128Store64Lane { memarg, lane }, Instruction::V128Store64Lane { memarg: e_memarg, lane: e_lane }) => e_memarg == mapped_mem_arg(memarg) && e_lane == lane,
        (Operator::V128Const { value }, Instruction::V128Const(e0)) => e0 == value.i128(),
        (Operator::I8x16Shuffle { lanes }, Instruction::I8x16Shuffle(e0)) => e0 == lanes,
        (Operator::I8x16ExtractLaneS { lane }, Instruction::I8x16ExtractLaneS(e0)) => e0 == lane,
        (Operator::I8x16ExtractLaneU { lane }, Instruction::I8x16ExtractLaneU(e0)) => e0 == lane,
        (Operator::I8x16ReplaceLane { lane }, Instruction::I8x16ReplaceLane(e0)) => e0 == lane,
        (Operator::I16x8ExtractLaneS { lane }, Instruction::I16x8ExtractLaneS(e0)) => e0 == lane,
        (Operator::I16x8ExtractLaneU { lane }, Instruction::I16x8ExtractLaneU(e0)) => e0 == lane,
        (Operator::I16x8ReplaceLane { lane }, Instruction::I16x8ReplaceLane(e0)) => e0 == lane,
        (Operator::I32x4ExtractLane { lane }, Instruction::I32x4ExtractLane(e0)) => e0 == lane,
        (Operator::I32x4ReplaceLane { lane }, Instruction::I32x4ReplaceLane(e0)) => e0 == lane,
        (Operator::I64x2ExtractLane { lane }, Instruction::I64x2ExtractLane(e0)) => e0 == lane,
        (Operator::I64x2ReplaceLane { lane }, Instruction::I64x2ReplaceLane(e0)) => e0 == lane,
        (Operator::F32x4ExtractLane { lane }, Instruction::F32x4ExtractLane(e0)) => e0 == lane,
        (Operator::F32x4ReplaceLane { lane }, Instruction::F32x4ReplaceLane(e0)) => e0 == lane,
        (Operator::F64x2ExtractLane { lane }, Instruction::F64x2ExtractLane(e0)) => e0 == lane,
        (Operator::F64x2ReplaceLane { lane }, Instruction::F64x2ReplaceLane(e0)) => e0 == lane,
        (Operator::I8x16Swizzle, Instruction::I8x16Swizzle) => true,
        (Operator::I8x16Splat, Instruction::I8x16Splat) => true,
        (Operator::I16x8Splat, Instruction::I16x8Splat) => true,
        (Operator::I32x4Splat, Instruction::I32x4Splat) => true,
        (Operator::I64x2Splat, Instruction::I64x2Splat) => true,
        (Operator::F32x4Splat, Instruction::F32x4Splat) => true,
        (Operator::F64x2Splat, Instruction::F64x2Splat) => true,
        (Operator::I8x16Eq, Instruction::I8x16Eq) => true,
        (Operator::I8x16Ne, Instruction::I8x16Ne) => true,
        (Operator::I8x16LtS, Instruction::I8x16LtS) => true,
        (Operator::I8x16LtU, Instruction::I8x16LtU) => true,
        (Operator::I8x16GtS, Instruction::I8x16GtS) => true,
        (Operator::I8x16GtU, Instruction::I8x16GtU) => true,
        (Operator::I8x16LeS, Instruction::I8x16LeS) => true,
        (Operator::I8x16LeU, Instruction::I8x16LeU) => true,
        (Operator::I8x16GeS, Instruction::I8x16GeS) => true,
        (Operator::I8x16GeU, Instruction::I8x16GeU) => true,
        (Operator::I16x8Eq, Instruction::I16x8Eq) => true,
        (Operator::I16x8Ne, Instruction::I16x8Ne) => true,
        (Operator::I16x8LtS, Instruction::I16x8LtS) => true,
        (Operator::I16x8LtU, Instruction::I16x8LtU) => true,
        (Operator::I16x8GtS, Instruction::I16x8GtS) => true,
        (Operator::I16x8GtU, Instruction::I16x8GtU) => true,
        (Operator::I16x8LeS, Instruction::I16x8LeS) => true,
        (Operator::I16x8LeU, Instruction::I16x8LeU) => true,
        (Operator::I16x8GeS, Instruction::I16x8GeS) => true,
        (Operator::I16x8GeU, Instruction::I16x8GeU) => true,
        (Operator::I32x4Eq, Instruction::I32x4Eq) => true,
        (Operator::I32x4Ne, Instruction::I32x4Ne) => true,
        (Operator::I32x4LtS, Instruction::I32x4LtS) => true,
        (Operator::I32x4LtU, Instruction::I32x4LtU) => true,
        (Operator::I32x4GtS, Instruction::I32x4GtS) => true,
        (Operator::I32x4GtU, Instruction::I32x4GtU) => true,
        (Operator::I32x4LeS, Instruction::I32x4LeS) => true,
        (Operator::I32x4LeU, Instruction::I32x4LeU) => true,
        (Operator::I32x4GeS, Instruction::I32x4GeS) => true,
        (Operator::I32x4GeU, Instruction::I32x4GeU) => true,
        (Operator::I64x2Eq, Instruction::I64x2Eq) => true,
        (Operator::I64x2Ne, Instruction::I64x2Ne) => true,
        (Operator::I64x2LtS, Instruction::I64x2LtS) => true,
        (Operator::I64x2GtS, Instruction::I64x2GtS) => true,
        (Operator::I64x2LeS, Instruction::I64x2LeS) => true,
        (Operator::I64x2GeS, Instruction::I64x2GeS) => true,
        (Operator::F32x4Eq, Instruction::F32x4Eq) => true,
        (Operator::F32x4Ne, Instruction::F32x4Ne) => true,
        (Operator::F32x4Lt, Instruction::F32x4Lt) => true,
        (Operator::F32x4Gt, Instruction::F32x4Gt) => true,
        (Operator::F32x4Le, Instruction::F32x4Le) => true,
        (Operator::F32x4Ge, Instruction::F32x4Ge) => true,
        (Operator::F64x2Eq, Instruction::F64x2Eq) => true,
        (Operator::F64x2Ne, Instruction::F64x2Ne) => true,
        (Operator::F64x2Lt, Instruction::F64x2Lt) => true,
        (Operator::F64x2Gt, Instruction::F64x2Gt) => true,
        (Operator::F64x2Le, Instruction::F64x2Le) => true,
        (Operator::F64x2Ge, Instruction::F64x2Ge) => true,
        (Operator::V128Not, Instruction::V128Not) => true,
        (Operator::V128And, Instruction::V128And) => true,
        (Operator::V128AndNot, Instruction::V128AndNot) => true,
        (Operator::V128Or, Instruction::V128Or) => true,
        (Operator::V128Xor, Instruction::V128Xor) => true,
        (Operator::V128Bitselect, Instruction::V128Bitselect) => true,
        (Operator::V128AnyTrue, Instruction::V128AnyTrue) => true,
        (Operator::I8x16Abs, Instruction::I8x16Abs) => true,
        (Operator::I8x16Neg, Instruction::I8x16Neg) => true,
        (Operator::I8x16Popcnt, Instruction::I8x16Popcnt) => true,
        (Operator::I8x16AllTrue, Instruction::I8x16AllTrue) => true,
        (Operator::I8x16Bitmask, Instruction::I8x16Bitmask) => true,
        (Operator::I8x16NarrowI16x8S, Instruction::I8x16NarrowI16x8S) => true,
        (Operator::I8x16NarrowI16x8U, Instruction::I8x16NarrowI16x8U) => true,
        (Operator::I8x16Shl, Instruction::I8x16Shl) => true,
        (Operator::I8x16ShrS, Instruction::I8x16ShrS) => true,
        (Operator::I8x16ShrU, Instruction::I8x16ShrU) => true,
        (Operator::I8x16Add, Instruction::I8x16Add) => true,
        (Operator::I8x16AddSatS, Instruction::I8x16AddSatS) => true,
        (Operator::I8x16AddSatU, Instruction::I8x16AddSatU) => true,
        (Operator::I8x16Sub, Instruction::I8x16Sub) => true,
        (Operator::I8x16SubSatS, Instruction::I8x16SubSatS) => true,
        (Operator::I8x16SubSatU, Instruction::I8x16SubSatU) => true,
        (Operator::I8x16MinS, Instruction::I8x16MinS) => true,
        (Operator::I8x16MinU, Instruction::I8x16MinU) => true,
        (Operator::I8x16MaxS, Instruction::I8x16MaxS) => true,
        (Operator::I8x16MaxU, Instruction::I8x16MaxU) => true,
        (Operator::I8x16AvgrU, Instruction::I8x16AvgrU) => true,
        (Operator::I16x8ExtAddPairwiseI8x16S, Instruction::I16x8ExtAddPairwiseI8x16S) => true,
        (Operator::I16x8ExtAddPairwiseI8x16U, Instruction::I16x8ExtAddPairwiseI8x16U) => true,
        (Operator::I16x8Abs, Instruction::I16x8Abs) => true,
        (Operator::I16x8Neg, Instruction::I16x8Neg) => true,
        (Operator::I16x8Q15MulrSatS, Instruction::I16x8Q15MulrSatS) => true,
        (Operator::I16x8AllTrue, Instruction::I16x8AllTrue) => true,
        (Operator::I16x8Bitmask, Instruction::I16x8Bitmask) => true,
        (Operator::I16x8NarrowI32x4S, Instruction::I16x8NarrowI32x4S) => true,
        (Operator::I16x8NarrowI32x4U, Instruction::I16x8NarrowI32x4U) => true,
        (Operator::I16x8ExtendLowI8x16S, Instruction::I16x8ExtendLowI8x16S) => true,
        (Operator::I16x8ExtendHighI8x16S, Instruction::I16x8ExtendHighI8x16S) => true,
        (Operator::I16x8ExtendLowI8x16U, Instruction::I16x8ExtendLowI8x16U) => true,
        (Operator::I16x8ExtendHighI8x16U, Instruction::I16x8ExtendHighI8x16U) => true,
        (Operator::I16x8Shl, Instruction::I16x8Shl) => true,
        (Operator::I16x8ShrS, Instruction::I16x8ShrS) => true,
        (Operator::I16x8ShrU, Instruction::I16x8ShrU) => true,
        (Operator::I16x8Add, Instruction::I16x8Add) => true,
        (Operator::I16x8AddSatS, Instruction::I16x8AddSatS) => true,
        (Operator::I16x8AddSatU, Instruction::I16x8AddSatU) => true,
        (Operator::I16x8Sub, Instruction::I16x8Sub) => true,
        (Operator::I16x8SubSatS, Instruction::I16x8SubSatS) => true,
        (Operator::I16x8SubSatU, Instruction::I16x8SubSatU) => true,
        (Operator::I16x8Mul, Instruction::I16x8Mul) => true,
        (Operator::I16x8MinS, Instruction::I16x8MinS) => true,
        (Operator::I16x8MinU, Instruction::I16x8MinU) => true,
        (Operator::I16x8MaxS, Instruction::I16x8MaxS) => true,
        (Operator::I16x8MaxU, Instruction::I16x8MaxU) => true,
        (Operator::I16x8AvgrU, Instruction::I16x8AvgrU) => true,
        (Operator::I16x8ExtMulLowI8x16S, Instruction::I16x8ExtMulLowI8x16S) => true,
        (Operator::I16x8ExtMulHighI8x16S, Instruction::I16x8ExtMulHighI8x16S) => true,
        (Operator::I16x8ExtMulLowI8x16U, Instruction::I16x8ExtMulLowI8x16U) => true,
        (Operator::I16x8ExtMulHighI8x16U, Instruction::I16x8ExtMulHighI8x16U) => true,
        (Operator::I32x4ExtAddPairwiseI16x8S, Instruction::I32x4ExtAddPairwiseI16x8S) => true,
        (Operator::I32x4ExtAddPairwiseI16x8U, Instruction::I32x4ExtAddPairwiseI16x8U) => true,
        (Operator::I32x4Abs, Instruction::I32x4Abs) => true,
        (Operator::I32x4Neg, Instruction::I32x4Neg) => true,
        (Operator::I32x4AllTrue, Instruction::I32x4AllTrue) => true,
        (Operator::I32x4Bitmask, Instruction::I32x4Bitmask) => true,
        (Operator::I32x4ExtendLowI16x8S, Instruction::I32x4ExtendLowI16x8S) => true,
        (Operator::I32x4ExtendHighI16x8S, Instruction::I32x4ExtendHighI16x8S) => true,
        (Operator::I32x4ExtendLowI16x8U, Instruction::I32x4ExtendLowI16x8U) => true,
        (Operator::I32x4ExtendHighI16x8U, Instruction::I32x4ExtendHighI16x8U) => true,
        (Operator::I32x4Shl, Instruction::I32x4Shl) => true,
        (Operator::I32x4ShrS, Instruction::I32x4ShrS) => true,
        (Operator::I32x4ShrU, Instruction::I32x4ShrU) => true,
        (Operator::I32x4Add, Instruction::I32x4Add) => true,
        (Operator::I32x4Sub, Instruction::I32x4Sub) => true,
        (Operator::I32x4Mul, Instruction::I32x4Mul) => true,
        (Operator::I32x4MinS, Instruction::I32x4MinS) => true,
        (Operator::I32x4MinU, Instruction::I32x4MinU) => true,
        (Operator::I32x4MaxS, Instruction::I32x4MaxS) => true,
        (Operator::I32x4MaxU, Instruction::I32x4MaxU) => true,
        (Operator::I32x4DotI16x8S, Instruction::I32x4DotI16x8S) => true,
        (Operator::I32x4ExtMulLowI16x8S, Instruction::I32x4ExtMulLowI16x8S) => true,
        (Operator::I32x4ExtMulHighI16x8S, Instruction::I32x4ExtMulHighI16x8S) => true,
        (Operator::I32x4ExtMulLowI16x8U, Instruction::I32x4ExtMulLowI16x8U) => true,
        (Operator::I32x4ExtMulHighI16x8U, Instruction::I32x4ExtMulHighI16x8U) => true,
        (Operator::I64x2Abs, Instruction::I64x2Abs) => true,
        (Operator::I64x2Neg, Instruction::I64x2Neg) => true,
        (Operator::I64x2AllTrue, Instruction::I64x2AllTrue) => true,
        (Operator::I64x2Bitmask, Instruction::I64x2Bitmask) => true,
        (Operator::I64x2ExtendLowI32x4S, Instruction::I64x2ExtendLowI32x4S) => true,
        (Operator::I64x2ExtendHighI32x4S, Instruction::I64x2ExtendHighI32x4S) => true,
        (Operator::I64x2ExtendLowI32x4U, Instruction::I64x2ExtendLowI32x4U) => true,
        (Operator::I64x2ExtendHighI32x4U, Instruction::I64x2ExtendHighI32x4U) => true,
        (Operator::I64x2Shl, Instruction::I64x2Shl) => true,
        (Operator::I64x2ShrS, Instruction::I64x2ShrS) => true,
        (Operator::I64x2ShrU, Instruction::I64x2ShrU) => true,
        (Operator::I64x2Add, Instruction::I64x2Add) => true,
        (Operator::I64x2Sub, Instruction::I64x2Sub) => true,
        (Operator::I64x2Mul, Instruction::I64x2Mul) => true,
        (Operator::I64x2ExtMulLowI32x4S, Instruction::I64x2ExtMulLowI32x4S) => true,
        (Operator::I64x2ExtMulHighI32x4S, Instruction::I64x2ExtMulHighI32x4S) => true,
        (Operator::I64x2ExtMulLowI32x4U, Instruction::I64x2ExtMulLowI32x4U) => true,
        (Operator::I64x2ExtMulHighI32x4U, Instruction::I64x2ExtMulHighI32x4U) => true,
        (Operator::F32x4Ceil, Instruction::F32x4Ceil) => true,
        (Operator::F32x4Floor, Instruction::F32x4Floor) => true,
        (Operator::F32x4Trunc, Instruction::F32x4Trunc) => true,
        (Operator::F32x4Nearest, Instruction::F32x4Nearest) => true,
        (Operator::F32x4Abs, Instruction::F32x4Abs) => true,
        (Operator::F32x4Neg, Instruction::F32x4Neg) => true,
        (Operator::F32x4Sqrt, Instruction::F32x4Sqrt) => true,
        (Operator::F32x4Add, Instruction::F32x4Add) => true,
        (Operator::F32x4Sub, Instruction::F32x4Sub) => true,
        (Operator::F32x4Mul, Instruction::F32x4Mul) => true,
        (Operator::F32x4Div, Instruction::F32x4Div) => true,
        (Operator::F32x4Min, Instruction::F32x4Min) => true,
        (Operator::F32x4Max, Instruction::F32x4Max) => true,
        (Operator::F32x4PMin, Instruction::F32x4PMin) => true,
        (Operator::F32x4PMax, Instruction::F32x4PMax) => true,
        (Operator::F64x2Ceil, Instruction::F64x2Ceil) => true,
        (Operator::F64x2Floor, Instruction::F64x2Floor) => true,
        (Operator::F64x2Trunc, Instruction::F64x2Trunc) => true,
        (Operator::F64x2Nearest, Instruction::F64x2Nearest) => true,
        (Operator::F64x2Abs, Instruction::F64x2Abs) => true,
        (Operator::F64x2Neg, Instruction::F64x2Neg) => true,
        (Operator::F64x2Sqrt, Instruction::F64x2Sqrt) => true,
        (Operator::F64x2Add, Instruction::F64x2Add) => true,
        (Operator::F64x2Sub, Instruction::F64x2Sub) => true,
        (Operator::F64x2Mul, Instruction::F64x2Mul) => true,
        (Operator::F64x2Div, Instruction::F64x2Div) => true,
        (Operator::F64x2Min, Instruction::F64x2Min) => true,
        (Operator::F64x2Max, Instruction::F64x2Max) => true,
        (Operator::F64x2PMin, Instruction::F64x2PMin) => true,
        (Operator::F64x2PMax, Instruction::F64x2PMax) => true,
        (Operator::I32x4TruncSatF32x4S, Instruction::I32x4TruncSatF32x4S) => true,
        (Operator::I32x4TruncSatF32x4U, Instruction::I32x4TruncSatF32x4U) => true,
        (Operator::F32x4ConvertI32x4S, Instruction::F32x4ConvertI32x4S) => true,
        (Operator::F32x4ConvertI32x4U, Instruction::F32x4ConvertI32x4U) => true,
        (Operator::I32x4TruncSatF64x2SZero, Instruction::I32x4TruncSatF64x2SZero) => true,
        (Operator::I32x4TruncSatF64x2UZero, Instruction::I32x4TruncSatF64x2UZero) => true,
        (Operator::F64x2ConvertLowI32x4S, Instruction::F64x2ConvertLowI32x4S) => true,
        (Operator::F64x2ConvertLowI32x4U, Instruction::F64x2ConvertLowI32x4U) => true,
        (Operator::F32x4DemoteF64x2Zero, Instruction::F32x4DemoteF64x2Zero) => true,
        (Operator::F64x2PromoteLowF32x4, Instruction::F64x2PromoteLowF32x4) => true,
        (Operator::I8x16RelaxedSwizzle, Instruction::I8x16RelaxedSwizzle) => true,
        (Operator::I32x4RelaxedTruncF32x4S, Instruction::I32x4RelaxedTruncF32x4S) => true,
        (Operator::I32x4RelaxedTruncF32x4U, Instruction::I32x4RelaxedTruncF32x4U) => true,
        (Operator::I32x4RelaxedTruncF64x2SZero, Instruction::I32x4RelaxedTruncF64x2SZero) => true,
        (Operator::I32x4RelaxedTruncF64x2UZero, Instruction::I32x4RelaxedTruncF64x2UZero) => true,
        (Operator::F32x4RelaxedMadd, Instruction::F32x4RelaxedMadd) => true,
        (Operator::F32x4RelaxedNmadd, Instruction::F32x4RelaxedNmadd) => true,
        (Operator::F64x2RelaxedMadd, Instruction::F64x2RelaxedMadd) => true,
        (Operator::F64x2RelaxedNmadd, Instruction::F64x2RelaxedNmadd) => true,
        (Operator::I8x16RelaxedLaneselect, Instruction::I8x16RelaxedLaneselect) => true,
        (Operator::I16x8RelaxedLaneselect, Instruction::I16x8RelaxedLaneselect) => true,
        (Operator::I32x4RelaxedLaneselect, Instruction::I32x4RelaxedLaneselect) => true,
        (Operator::I64x2RelaxedLaneselect, Instruction::I64x2RelaxedLaneselect) => true,
        (Operator::F32x4RelaxedMin, Instruction::F32x4RelaxedMin) => true,
        (Operator::F32x4RelaxedMax, Instruction::F32x4RelaxedMax) => true,
        (Operator::F64x2RelaxedMin, Instruction::F64x2RelaxedMin) => true,
        (Operator::F64x2RelaxedMax, Instruction::F64x2RelaxedMax) => true,
        (Operator::I16x8RelaxedQ15mulrS, Instruction::I16x8RelaxedQ15mulrS) => true,
        (Operator::I16x8RelaxedDotI8x16I7x16S, Instruction::I16x8RelaxedDotI8x16I7x16S) => true,
        (Operator::I32x4RelaxedDotI8x16I7x16AddS, Instruction::I32x4RelaxedDotI8x16I7x16AddS) => true,
        (Operator::TryTable { try_table }, Instruction::TryTable(e0, e1)) => e0 == mapped_block_type(try_table.ty) && e1@ == mapped_catches(try_table.catches@),
        (Operator::Throw { tag_index }, Instruction::Throw(e0)) => e0 == tag_index,
        (Operator::ThrowRef, Instruction::ThrowRef) => true,
        (Operator::Try { blockty }, Instruction::Try(e0)) => e0 == mapped_block_type(blockty),
        (Operator::Catch { tag_index }, Instruction::Catch(e0)) => e0 == tag_index,
        (Operator::Rethrow { relative_depth }, Instruction::Rethrow(e0)) => e0 == relative_depth,
        (Operator::Delegate { relative_depth }, Instruction::Delegate(e0)) => e0 == relative_depth,
        (Operator::CatchAll, Instruction::CatchAll) => true,
        (Operator::GlobalAtomicGet { ordering, global_index }, Instruction::GlobalAtomicGet { ordering: e_ordering, global_index: e_global_index }) => e_ordering == mapped_ordering(ordering) && e_global_index == global_index,
        (Operator::GlobalAtomicSet { ordering, global_index }, Instruction::GlobalAtomicSet { ordering: e_ordering, global_index: e_global_index }) => e_ordering == mapped_ordering(ordering) && e_global_index == global_index,
        (Operator::GlobalAtomicRmwAdd { ordering, global_index }, Instruction::GlobalAtomicRmwAdd { ordering: e_ordering, global_index: e_global_index }) => e_ordering == mapped_ordering(ordering) && e_global_index == global_index,
        (Operator::GlobalAtomicRmwSub { ordering, global_index }, Instruction::GlobalAtomicRmwSub { ordering: e_ordering, global_index: e_global_index }) => e_ordering == mapped_ordering(ordering) && e_global_index == global_index,
        (Operator::GlobalAtomicRmwAnd { ordering, global_index }, Instruction::GlobalAtomicRmwAnd { ordering: e_ordering, global_index: e_global_index }) => e_ordering == mapped_ordering(ordering) && e_global_index == global_index,
        (Operator::GlobalAtomicRmwOr { ordering, global_index }, Instruction::GlobalAtomicRmwOr { ordering: e_ordering, global_index: e_global_index }) => e_ordering == mapped_ordering(ordering) && e_global_index == global_index,
        (Operator::GlobalAtomicRmwXor { ordering, global_index }, Instruction::GlobalAtomicRmwXor { ordering: e_ordering, global_index: e_global_index }) => e_ordering == mapped_ordering(ordering) && e_global_index == global_index,
        (Operator::GlobalAtomicRmwXchg { ordering, global_index }, Instruction::GlobalAtomicRmwXchg { ordering: e_ordering, global_index: e_global_index }) => e_ordering == mapped_ordering(ordering) && e_global_index == global_index,
        (Operator::GlobalAtomicRmwCmpxchg { ordering, global_index }, Instruction::GlobalAtomicRmwCmpxchg { ordering: e_ordering, global_index: e_global_index }) => e_ordering == mapped_ordering(ordering) && e_global_index == global_index,
        (Operator::TableAtomicGet { ordering, table_index }, Instruction::TableAtomicGet { ordering: e_ordering, table_index: e_table_index }) => e_ordering == mapped_ordering(ordering) && e_table_index == table_index,
        (Operator::TableAtomicSet { ordering, table_index }, Instruction::TableAtomicSet { ordering: e_ordering, table_index: e_table_index }) => e_ordering == mapped_ordering(ordering) && e_table_index == table_index,
        (Operator::TableAtomicRmwXchg { ordering, table_index }, Instruction::TableAtomicRmwXchg { ordering: e_ordering, table_index: e_table_index }) => e_ordering == mapped_ordering(ordering) && e_table_index == table_index,
        (Operator::TableAtomicRmwCmpxchg { ordering, table_index }, Instruction::TableAtomicRmwCmpxchg { ordering: e_ordering, table_index: e_table_index }) => e_ordering == mapped_ordering(ordering) && e_table_index == table_index,
        (Operator::StructAtomicGet { ordering, struct_type_index, field_index }, Instruction::StructAtomicGet { ordering: e_ordering, struct_type_index: e_struct_type_index, field_index: e_field_index }) => e_ordering == mapped_ordering(ordering) && e_struct_type_index == struct_type_index && e_field_index == field_index,
        (Operator::StructAtomicGetS { ordering, struct_type_index, field_index }, Instruction::StructAtomicGetS { ordering: e_ordering, struct_type_index: e_struct_type_index, field_index: e_field_index }) => e_ordering == mapped_ordering(ordering) && e_struct_type_index == struct_type_index && e_field_index == field_index,
        (Operator::StructAtomicGetU { ordering, struct_type_index, field_index }, Instruction::StructAtomicGetU { ordering: e_ordering, struct_type_index: e_struct_type_index, field_index: e_field_index }) => e_ordering == mapped_ordering(ordering) && e_struct_type_index == struct_type_index && e_field_index == field_index,
        (Operator::StructAtomicSet { ordering, struct_type_index, field_index }, Instruction::StructAtomicSet { ordering: e_ordering, struct_type_index: e_struct_type_index, field_index: e_field_index }) => e_ordering == mapped_ordering(ordering) && e_struct_type_index == struct_type_index && e_field_index == field_index,
        (Operator::StructAtomicRmwAdd { ordering, struct_type_index, field_index }, Instruction::StructAtomicRmwAdd { ordering: e_ordering, struct_type_index: e_struct_type_index, field_index: e_field_index }) => e_ordering == mapped_ordering(ordering) && e_struct_type_index == struct_type_index && e_field_index == field_index,
        (Operator::StructAtomicRmwSub { ordering, struct_type_index, field_index }, Instruction::StructAtomicRmwSub { ordering: e_ordering, struct_type_index: e_struct_type_index, field_index: e_field_index }) => e_ordering == mapped_ordering(ordering) && e_struct_type_index == struct_type_index && e_field_index == field_index,
        (Operator::StructAtomicRmwAnd { ordering, struct_type_index, field_index }, Instruction::StructAtomicRmwAnd { ordering: e_ordering, struct_type_index: e_struct_type_index, field_index: e_field_index }) => e_ordering == mapped_ordering(ordering) && e_struct_type_index == struct_type_index && e_field_index == field_index,
        (Operator::StructAtomicRmwOr { ordering, struct_type_index, field_index }, Instruction::StructAtomicRmwOr { ordering: e_ordering, struct_type_index: e_struct_type_index, field_index: e_field_index }) => e_ordering == mapped_ordering(ordering) && e_struct_type_index == struct_type_index && e_field_index == field_index,
        (Operator::StructAtomicRmwXor { ordering, struct_type_index, field_index }, Instruction::StructAtomicRmwXor { ordering: e_ordering, struct_type_index: e_struct_type_index, field_index: e_field_index }) => e_ordering == mapped_ordering(ordering) && e_struct_type_index == struct_type_index && e_field_index == field_index,
        (Operator::StructAtomicRmwXchg { ordering, struct_type_index, field_index }, Instruction::StructAtomicRmwXchg { ordering: e_ordering, struct_type_index: e_struct_type_index, field_index: e_field_index }) => e_ordering == mapped_ordering(ordering) && e_struct_type_index == struct_type_index && e_field_index == field_index,
        (Operator::StructAtomicRmwCmpxchg { ordering, struct_type_index, field_index }, Instruction::StructAtomicRmwCmpxchg { ordering: e_ordering, struct_type_index: e_struct_type_index, field_index: e_field_index }) => e_ordering == mapped_ordering(ordering) && e_struct_type_index == struct_type_index && e_field_index == field_index,
        (Operator::ArrayAtomicGet { ordering, array_type_index }, Instruction::ArrayAtomicGet { ordering: e_ordering, array_type_index: e_array_type_index }) => e_ordering == mapped_ordering(ordering) && e_array_type_index == array_type_index,
        (Operator::ArrayAtomicGetS { ordering, array_type_index }, Instruction::ArrayAtomicGetS { ordering: e_ordering, array_type_index: e_array_type_index }) => e_ordering == mapped_ordering(ordering) && e_array_type_index == array_type_index,
        (Operator::ArrayAtomicGetU { ordering, array_type_index }, Instruction::ArrayAtomicGetU { ordering: e_ordering, array_type_index: e_array_type_index }) => e_ordering == mapped_ordering(ordering) && e_array_type_index == array_type_index,
        (Operator::ArrayAtomicSet { ordering, array_type_index }, Instruction::ArrayAtomicSet { ordering: e_ordering, array_type_index: e_array_type_index }) => e_ordering == mapped_ordering(ordering) && e_array_type_index == array_type_index,
        (Operator::ArrayAtomicRmwAdd { ordering, array_type_index }, Instruction::ArrayAtomicRmwAdd { ordering: e_ordering, array_type_index: e_array_type_index }) => e_ordering == mapped_ordering(ordering) && e_array_type_index == array_type_index,
        (Operator::ArrayAtomicRmwSub { ordering, array_type_index }, Instruction::ArrayAtomicRmwSub { ordering: e_ordering, array_type_index: e_array_type_index }) => e_ordering == mapped_ordering(ordering) && e_array_type_index == array_type_index,
        (Operator::ArrayAtomicRmwAnd { ordering, array_type_index }, Instruction::ArrayAtomicRmwAnd { ordering: e_ordering, array_type_index: e_array_type_index }) => e_ordering == mapped_ordering(ordering) && e_array_type_index == array_type_index,
        (Operator::ArrayAtomicRmwOr { ordering, array_type_index }, Instruction::ArrayAtomicRmwOr { ordering: e_ordering, array_type_index: e_array_type_index }) => e_ordering == mapped_ordering(ordering) && e_array_type_index == array_type_index,
        (Operator::ArrayAtomicRmwXor { ordering, array_type_index }, Instruction::ArrayAtomicRmwXor { ordering: e_ordering, array_type_index: e_array_type_index }) => e_ordering == mapped_ordering(ordering) && e_array_type_index == array_type_index,
        (Operator::ArrayAtomicRmwXchg { ordering, array_type_index }, Instruction::ArrayAtomicRmwXchg { ordering: e_ordering, array_type_index: e_array_type_index }) => e_ordering == mapped_ordering(ordering) && e_array_type_index == array_type_index,
        (Operator::ArrayAtomicRmwCmpxchg { ordering, array_type_index }, Instruction::ArrayAtomicRmwCmpxchg { ordering: e_ordering, array_type_index: e_array_type_index }) => e_ordering == mapped_ordering(ordering) && e_array_type_index == array_type_index,
        (Operator::RefI31Shared, Instruction::RefI31Shared) => true,
        (Operator::CallRef { type_index }, Instruction::CallRef(e0)) => e0 == type_index,
        (Operator::ReturnCallRef { type_index }, Instruction::ReturnCallRef(e0)) => e0 == type_index,
        (Operator::RefAsNonNull, Instruction::RefAsNonNull) => true,
        (Operator::BrOnNull { relative_depth }, Instruction::BrOnNull(e0)) => e0 == relative_depth,
        (Operator::BrOnNonNull { relative_depth }, Instruction::BrOnNonNull(e0)) => e0 == relative_depth,
        (Operator::ContNew { cont_type_index }, Instruction::ContNew(e0)) => e0 == cont_type_index,
        (Operator::ContBind { argument_index, result_index }, Instruction::ContBind { argument_index: e_argument_index, result_index: e_result_index }) => e_argument_index == argument_index && e_result_index == result_index,
        (Operator::Suspend { tag_index }, Instruction::Suspend(e0)) => e0 == tag_index,
        (Operator::Resume { cont_type_index, resume_table }, Instruction::Resume { cont_type_index: e_cont_type_index, resume_table: e_resume_table }) => e_cont_type_index == cont_type_index && e_resume_table@ == mapped_handles(resume_table.handlers@),
        (Operator::ResumeThrow { cont_type_index, tag_index, resume_table }, Instruction::ResumeThrow { cont_type_index: e_cont_type_index, tag_index: e_tag_index, resume_table: e_resume_table }) => e_cont_type_index == cont_type_index && e_tag_index == tag_index && e_resume_table@ == mapped_handles(resume_table.handlers@),
        (Operator::Switch { cont_type_index, tag_index }, Instruction::Switch { cont_type_index: e_cont_type_index, tag_index: e_tag_index }) => e_cont_type_index == cont_type_index && e_tag_index == tag_index,
        (Operator::I64Add128, Instruction::I64Add128) => true,
        (Operator::I64Sub128, Instruction::I64Sub128) => true,
        (Operator::I64MulWideS, Instruction::I64MulWideS) => true,
        (Operator::I64MulWideU, Instruction::I64MulWideU) => true,
        _ => false,
    }
}

/// The instruction that stands for `operator` on the encode side.
pub fn map_operator(operator: Operator) -> (r: Instruction)
    ensures
        operator_maps(operator, r),
{
    match operator {
        Operator::Unreachable => Instruction::Unreachable,
        Operator::Nop => Instruction::Nop,
        Operator::Block { blockty } => Instruction::Block(map_block_type(blockty)),
        Operator::Loop { blockty } => Instruction::Loop(map_block_type(blockty)),
        Operator::If { blockty } => Instruction::If(map_block_type(blockty)),
        Operator::Else => Instruction::Else,
        Operator::End => Instruction::End,
        Operator::Br { relative_depth } => Instruction::Br(relative_depth),
        Operator::BrIf { relative_depth } => Instruction::BrIf(relative_depth),
        Operator::BrTable { targets } => Instruction::BrTable(targets.targets, targets.default),
        Operator::Return => Instruction::Return,
        Operator::Call { function_index } => Instruction::Call(function_index),
        Operator::CallIndirect { type_index, table_index } => Instruction::CallIndirect { type_index, table_index },
        Operator::Drop => Instruction::Drop,
        Operator::Select => Instruction::Select,
        Operator::LocalGet { local_index } => Instruction::LocalGet(local_index),
        Operator::LocalSet { local_index } => Instruction::LocalSet(local_index),
        Operator::LocalTee { local_index } => Instruction::LocalTee(local_index),
        Operator::GlobalGet { global_index } => Instruction::GlobalGet(global_index),
        Operator::GlobalSet { global_index } => Instruction::GlobalSet(global_index),
        Operator::I32Load { memarg } => Instruction::I32Load(map_mem_arg(memarg)),
        Operator::I64Load { memarg } => Instruction::I64Load(map_mem_arg(memarg)),
        Operator::F32Load { memarg } => Instruction::F32Load(map_mem_arg(memarg)),
        Operator::F64Load { memarg } => Instruction::F64Load(map_mem_arg(memarg)),
        Operator::I32Load8S { memarg } => Instruction::I32Load8S(map_mem_arg(memarg)),
        Operator::I32Load8U { memarg } => Instruction::I32Load8U(map_mem_arg(memarg)),
        Operator::I32Load16S { memarg } => Instruction::I32Load16S(map_mem_arg(memarg)),
        Operator::I32Load16U { memarg } => Instruction::I32Load16U(map_mem_arg(memarg)),
        Operator::I64Load8S { memarg } => Instruction::I64Load8S(map_mem_arg(memarg)),
        Operator::I64Load8U { memarg } => Instruction::I64Load8U(map_mem_arg(memarg)),
        Operator::I64Load16S { memarg } => Instruction::I64Load16S(map_mem_arg(memarg)),
        Operator::I64Load16U { memarg } => Instruction::I64Load16U(map_mem_arg(memarg)),
        Operator::I64Load32S { memarg } => Instruction::I64Load32S(map_mem_arg(memarg)),
        Operator::I64Load32U { memarg } => Instruction::I64Load32U(map_mem_arg(memarg)),
        Operator::I32Store { memarg } => Instruction::I32Store(map_mem_arg(memarg)),
        Operator::I64Store { memarg } => Instruction::I64Store(map_mem_arg(memarg)),
        Operator::F32Store { memarg } => Instruction::F32Store(map_mem_arg(memarg)),
        Operator::F64Store { memarg } => Instruction::F64Store(map_mem_arg(memarg)),
        Operator::I32Store8 { memarg } => Instruction::I32Store8(map_mem_arg(memarg)),
        Operator::I32Store16 { memarg } => Instruction::I32Store16(map_mem_arg(memarg)),
        Operator::I64Store8 { memarg } => Instruction::I64Store8(map_mem_arg(memarg)),
        Operator::I64Store16 { memarg } => Instruction::I64Store16(map_mem_arg(memarg)),
        Operator::I64Store32 { memarg } => Instruction::I64Store32(map_mem_arg(memarg)),
        Operator::MemorySize { mem } => Instruction::MemorySize(mem),
        Operator::MemoryGrow { mem } => Instruction::MemoryGrow(mem),
        Operator::I32Const { value } => Instruction::I32Const(value),
        Operator::I64Const { value } => Instruction::I64Const(value),
        Operator::F32Const { value } => Instruction::F32Const(map_ieee32(value)),
        Operator::F64Const { value } => Instruction::F64Const(map_ieee64(value)),
        Operator::I32Eqz => Instruction::I32Eqz,
        Operator::I32Eq => Instruction::I32Eq,
        Operator::I32Ne => Instruction::I32Ne,
        Operator::I32LtS => Instruction::I32LtS,
        Operator::I32LtU => Instruction::I32LtU,
        Operator::I32GtS => Instruction::I32GtS,
        Operator::I32GtU => Instruction::I32GtU,
        Operator::I32LeS => Instruction::I32LeS,
        Operator::I32LeU => Instruction::I32LeU,
        Operator::I32GeS => Instruction::I32GeS,
        Operator::I32GeU => Instruction::I32GeU,
        Operator::I64Eqz => Instruction::I64Eqz,
        Operator::I64Eq => Instruction::I64Eq,
        Operator::I64Ne => Instruction::I64Ne,
        Operator::I64LtS => Instruction::I64LtS,
        Operator::I64LtU => Instruction::I64LtU,
        Operator::I64GtS => Instruction::I64GtS,
        Operator::I64GtU => Instruction::I64GtU,
        Operator::I64LeS => Instruction::I64LeS,
        Operator::I64LeU => Instruction::I64LeU,
        Operator::I64GeS => Instruction::I64GeS,
        Operator::I64GeU => Instruction::I64GeU,
        Operator::F32Eq => Instruction::F32Eq,
        Operator::F32Ne => Instruction::F32Ne,
        Operator::F32Lt => Instruction::F32Lt,
        Operator::F32Gt => Instruction::F32Gt,
        Operator::F32Le => Instruction::F32Le,
        Operator::F32Ge => Instruction::F32Ge,
        Operator::F64Eq => Instruction::F64Eq,
        Operator::F64Ne => Instruction::F64Ne,
        Operator::F64Lt => Instruction::F64Lt,
        Operator::F64Gt => Instruction::F64Gt,
        Operator::F64Le => Instruction::F64Le,
        Operator::F64Ge => Instruction::F64Ge,
        Operator::I32Clz => Instruction::I32Clz,
        Operator::I32Ctz => Instruction::I32Ctz,
        Operator::I32Popcnt => Instruction::I32Popcnt,
        Operator::I32Add => Instruction::I32Add,
        Operator::I32Sub => Instruction::I32Sub,
        Operator::I32Mul => Instruction::I32Mul,
        Operator::I32DivS => Instruction::I32DivS,
        Operator::I32DivU => Instruction::I32DivU,
        Operator::I32RemS => Instruction::I32RemS,
        Operator::I32RemU => Instruction::I32RemU,
        Operator::I32And => Instruction::I32And,
        Operator::I32Or => Instruction::I32Or,
        Operator::I32Xor => Instruction::I32Xor,
        Operator::I32Shl => Instruction::I32Shl,
        Operator::I32ShrS => Instruction::I32ShrS,
        Operator::I32ShrU => Instruction::I32ShrU,
        Operator::I32Rotl => Instruction::I32Rotl,
        Operator::I32Rotr => Instruction::I32Rotr,
        Operator::I64Clz => Instruction::I64Clz,
        Operator::I64Ctz => Instruction::I64Ctz,
        Operator::I64Popcnt => Instruction::I64Popcnt,
        Operator::I64Add => Instruction::I64Add,
        Operator::I64Sub => Instruction::I64Sub,
        Operator::I64Mul => Instruction::I64Mul,
        Operator::I64DivS => Instruction::I64DivS,
        Operator::I64DivU => Instruction::I64DivU,
        Operator::I64RemS => Instruction::I64RemS,
        Operator::I64RemU => Instruction::I64RemU,
        Operator::I64And => Instruction::I64And,
        Operator::I64Or => Instruction::I64Or,
        Operator::I64Xor => Instruction::I64Xor,
        Operator::I64Shl => Instruction::I64Shl,
        Operator::I64ShrS => Instruction::I64ShrS,
        Operator::I64ShrU => Instruction::I64ShrU,
        Operator::I64Rotl => Instruction::I64Rotl,
        Operator::I64Rotr => Instruction::I64Rotr,
        Operator::F32Abs => Instruction::F32Abs,
        Operator::F32Neg => Instruction::F32Neg,
        Operator::F32Ceil => Instruction::F32Ceil,
        Operator::F32Floor => Instruction::F32Floor,
        Operator::F32Trunc => Instruction::F32Trunc,
        Operator::F32Nearest => Instruction::F32Nearest,
        Operator::F32Sqrt => Instruction::F32Sqrt,
        Operator::F32Add => Instruction::F32Add,
        Operator::F32Sub => Instruction::F32Sub,
        Operator::F32Mul => Instruction::F32Mul,
        Operator::F32Div => Instruction::F32Div,
        Operator::F32Min => Instruction::F32Min,
        Operator::F32Max => Instruction::F32Max,
        Operator::F32Copysign => Instruction::F32Copysign,
        Operator::F64Abs => Instruction::F64Abs,
        Operator::F64Neg => Instruction::F64Neg,
        Operator::F64Ceil => Instruction::F64Ceil,
        Operator::F64Floor => Instruction::F64Floor,
        Operator::F64Trunc => Instruction::F64Trunc,
        Operator::F64Nearest => Instruction::F64Nearest,
        Operator::F64Sqrt => Instruction::F64Sqrt,
        Operator::F64Add => Instruction::F64Add,
        Operator::F64Sub => Instruction::F64Sub,
        Operator::F64Mul => Instruction::F64Mul,
        Operator::F64Div => Instruction::F64Div,
        Operator::F64Min => Instruction::F64Min,
        Operator::F64Max => Instruction::F64Max,
        Operator::F64Copysign => Instruction::F64Copysign,
        Operator::I32WrapI64 => Instruction::I32WrapI64,
        Operator::I32TruncF32S => Instruction::I32TruncF32S,
        Operator::I32TruncF32U => Instruction::I32TruncF32U,
        Operator::I32TruncF64S => Instruction::I32TruncF64S,
        Operator::I32TruncF64U => Instruction::I32TruncF64U,
        Operator::I64ExtendI32S => Instruction::I64ExtendI32S,
        Operator::I64ExtendI32U => Instruction::I64ExtendI32U,
        Operator::I64TruncF32S => Instruction::I64TruncF32S,
        Operator::I64TruncF32U => Instruction::I64TruncF32U,
        Operator::I64TruncF64S => Instruction::I64TruncF64S,
        Operator::I64TruncF64U => Instruction::I64TruncF64U,
        Operator::F32ConvertI32S => Instruction::F32ConvertI32S,
        Operator::F32ConvertI32U => Instruction::F32ConvertI32U,
        Operator::F32ConvertI64S => Instruction::F32ConvertI64S,
        Operator::F32ConvertI64U => Instruction::F32ConvertI64U,
        Operator::F32DemoteF64 => Instruction::F32DemoteF64,
        Operator::F64ConvertI32S => Instruction::F64ConvertI32S,
        Operator::F64ConvertI32U => Instruction::F64ConvertI32U,
        Operator::F64ConvertI64S => Instruction::F64ConvertI64S,
        Operator::F64ConvertI64U => Instruction::F64ConvertI64U,
        Operator::F64PromoteF32 => Instruction::F64PromoteF32,
        Operator::I32ReinterpretF32 => Instruction::I32ReinterpretF32,
        Operator::I64ReinterpretF64 => Instruction::I64ReinterpretF64,
        Operator::F32ReinterpretI32 => Instruction::F32ReinterpretI32,
        Operator::F64ReinterpretI64 => Instruction::F64ReinterpretI64,
        Operator::I32Extend8S => Instruction::I32Extend8S,
        Operator::I32Extend16S => Instruction::I32Extend16S,
        Operator::I64Extend8S => Instruction::I64Extend8S,
        Operator::I64Extend16S => Instruction::I64Extend16S,
        Operator::I64Extend32S => Instruction::I64Extend32S,
        Operator::RefEq => Instruction::RefEq,
        Operator::StructNew { struct_type_index } => Instruction::StructNew(struct_type_index),
        Operator::StructNewDefault { struct_type_index } => Instruction::StructNewDefault(struct_type_index),
        Operator::StructGet { struct_type_index, field_index } => Instruction::StructGet { struct_type_index, field_index },
        Operator::StructGetS { struct_type_index, field_index } => Instruction::StructGetS { struct_type_index, field_index },
        Operator::StructGetU { struct_type_index, field_index } => Instruction::StructGetU { struct_type_index, field_index },
        Operator::StructSet { struct_type_index, field_index } => Instruction::StructSet { struct_type_index, field_index },
        Operator::ArrayNew { array_type_index } => Instruction::ArrayNew(array_type_index),
        Operator::ArrayNewDefault { array_type_index } => Instruction::ArrayNewDefault(array_type_index),
        Operator::ArrayNewFixed { array_type_index, array_size } => Instruction::ArrayNewFixed { array_type_index, array_size },
        Operator::ArrayNewData { array_type_index, array_data_index } => Instruction::ArrayNewData { array_type_index, array_data_index },
        Operator::ArrayNewElem { array_type_index, array_elem_index } => Instruction::ArrayNewElem { array_type_index, array_elem_index },
        Operator::ArrayGet { array_type_index } => Instruction::ArrayGet(array_type_index),
        Operator::ArrayGetS { array_type_index } => Instruction::ArrayGetS(array_type_index),
        Operator::ArrayGetU { array_type_index } => Instruction::ArrayGetU(array_type_index),
        Operator::ArraySet { array_type_index } => Instruction::ArraySet(array_type_index),
        Operator::ArrayLen => Instruction::ArrayLen,
        Operator::ArrayFill { array_type_index } => Instruction::ArrayFill(array_type_index),
        Operator::ArrayCopy { array_type_index_dst, array_type_index_src } => Instruction::ArrayCopy { array_type_index_dst, array_type_index_src },
        Operator::ArrayInitData { array_type_index, array_data_index } => Instruction::ArrayInitData { array_type_index, array_data_index },
        Operator::ArrayInitElem { array_type_index, array_elem_index } => Instruction::ArrayInitElem { array_type_index, array_elem_index },
        Operator::RefTestNonNull { hty } => Instruction::RefTestNonNull(map_heap_type(hty)),
        Operator::RefTestNullable { hty } => Instruction::RefTestNullable(map_heap_type(hty)),
        Operator::RefCastNonNull { hty } => Instruction::RefCastNonNull(map_heap_type(hty)),
        Operator::RefCastNullable { hty } => Instruction::RefCastNullable(map_heap_type(hty)),
        Operator::BrOnCast { relative_depth, from_ref_type, to_ref_type } => Instruction::BrOnCast { relative_depth, from_ref_type: map_ref_type(from_ref_type), to_ref_type: map_ref_type(to_ref_type) },
        Operator::BrOnCastFail { relative_depth, from_ref_type, to_ref_type } => Instruction::BrOnCastFail { relative_depth, from_ref_type: map_ref_type(from_ref_type), to_ref_type: map_ref_type(to_ref_type) },
        Operator::AnyConvertExtern => Instruction::AnyConvertExtern,
        Operator::ExternConvertAny => Instruction::ExternConvertAny,
        Operator::RefI31 => Instruction::RefI31,
        Operator::I31GetS => Instruction::I31GetS,
        Operator::I31GetU => Instruction::I31GetU,
        Operator::I32TruncSatF32S => Instruction::I32TruncSatF32S,
        Operator::I32TruncSatF32U => Instruction::I32TruncSatF32U,
        Operator::I32TruncSatF64S => Instruction::I32TruncSatF64S,
        Operator::I32TruncSatF64U => Instruction::I32TruncSatF64U,
        Operator::I64TruncSatF32S => Instruction::I64TruncSatF32S,
        Operator::I64TruncSatF32U => Instruction::I64TruncSatF32U,
        Operator::I64TruncSatF64S => Instruction::I64TruncSatF64S,
        Operator::I64TruncSatF64U => Instruction::I64TruncSatF64U,
        Operator::MemoryInit { data_index, mem } => Instruction::MemoryInit { mem, data_index },
        Operator::DataDrop { data_index } => Instruction::DataDrop(data_index),
        Operator::MemoryCopy { dst_mem, src_mem } => Instruction::MemoryCopy { dst_mem, src_mem },
        Operator::MemoryFill { mem } => Instruction::MemoryFill(mem),
        Operator::TableInit { elem_index, table } => Instruction::TableInit { elem_index, table },
        Operator::ElemDrop { elem_index } => Instruction::ElemDrop(elem_index),
        Operator::TableCopy { dst_table, src_table } => Instruction::TableCopy { dst_table, src_table },
        Operator::TypedSelect { ty } => Instruction::TypedSelect(map_val_type(ty)),
        Operator::TypedSelectMulti { tys } => Instruction::TypedSelectMulti(map_val_types(tys)),
        Operator::RefNull { hty } => Instruction::RefNull(map_heap_type(hty)),
        Operator::RefIsNull => Instruction::RefIsNull,
        Operator::RefFunc { function_index } => Instruction::RefFunc(function_index),
        Operator::TableFill { table } => Instruction::TableFill(table),
        Operator::TableGet { table } => Instruction::TableGet(table),
        Operator::TableSet { table } => Instruction::TableSet(table),
        Operator::TableGrow { table } => Instruction::TableGrow(table),
        Operator::TableSize { table } => Instruction::TableSize(table),
        Operator::ReturnCall { function_index } => Instruction::ReturnCall(function_index),
        Operator::ReturnCallIndirect { type_index, table_index } => Instruction::ReturnCallIndirect { type_index, table_index },
        Operator::MemoryDiscard { mem } => Instruction::MemoryDiscard(mem),
        Operator::MemoryAtomicNotify { memarg } => Instruction::MemoryAtomicNotify(map_mem_arg(memarg)),
        Operator::MemoryAtomicWait32 { memarg } => Instruction::MemoryAtomicWait32(map_mem_arg(memarg)),
        Operator::MemoryAtomicWait64 { memarg } => Instruction::MemoryAtomicWait64(map_mem_arg(memarg)),
        Operator::AtomicFence => Instruction::AtomicFence,
        Operator::I32AtomicLoad { memarg } => Instruction::I32AtomicLoad(map_mem_arg(memarg)),
        Operator::I64AtomicLoad { memarg } => Instruction::I64AtomicLoad(map_mem_arg(memarg)),
        Operator::I32AtomicLoad8U { memarg } => Instruction::I32AtomicLoad8U(map_mem_arg(memarg)),
        Operator::I32AtomicLoad16U { memarg } => Instruction::I32AtomicLoad16U(map_mem_arg(memarg)),
        Operator::I64AtomicLoad8U { memarg } => Instruction::I64AtomicLoad8U(map_mem_arg(memarg)),
        Operator::I64AtomicLoad16U { memarg } => Instruction::I64AtomicLoad16U(map_mem_arg(memarg)),
        Operator::I64AtomicLoad32U { memarg } => Instruction::I64AtomicLoad32U(map_mem_arg(memarg)),
        Operator::I32AtomicStore { memarg } => Instruction::I32AtomicStore(map_mem_arg(memarg)),
        Operator::I64AtomicStore { memarg } => Instruction::I64AtomicStore(map_mem_arg(memarg)),
        Operator::I32AtomicStore8 { memarg } => Instruction::I32AtomicStore8(map_mem_arg(memarg)),
        Operator::I32AtomicStore16 { memarg } => Instruction::I32AtomicStore16(map_mem_arg(memarg)),
        Operator::I64AtomicStore8 { memarg } => Instruction::I64AtomicStore8(map_mem_arg(memarg)),
        Operator::I64AtomicStore16 { memarg } => Instruction::I64AtomicStore16(map_mem_arg(memarg)),
        Operator::I64AtomicStore32 { memarg } => Instruction::I64AtomicStore32(map_mem_arg(memarg)),
        Operator::I32AtomicRmwAdd { memarg } => Instruction::I32AtomicRmwAdd(map_mem_arg(memarg)),
        Operator::I64AtomicRmwAdd { memarg } => Instruction::I64AtomicRmwAdd(map_mem_arg(memarg)),
        Operator::I32AtomicRmw8AddU { memarg } => Instruction::I32AtomicRmw8AddU(map_mem_arg(memarg)),
        Operator::I32AtomicRmw16AddU { memarg } => Instruction::I32AtomicRmw16AddU(map_mem_arg(memarg)),
        Operator::I64AtomicRmw8AddU { memarg } => Instruction::I64AtomicRmw8AddU(map_mem_arg(memarg)),
        Operator::I64AtomicRmw16AddU { memarg } => Instruction::I64AtomicRmw16AddU(map_mem_arg(memarg)),
        Operator::I64AtomicRmw32AddU { memarg } => Instruction::I64AtomicRmw32AddU(map_mem_arg(memarg)),
        Operator::I32AtomicRmwSub { memarg } => Instruction::I32AtomicRmwSub(map_mem_arg(memarg)),
        Operator::I64AtomicRmwSub { memarg } => Instruction::I64AtomicRmwSub(map_mem_arg(memarg)),
        Operator::I32AtomicRmw8SubU { memarg } => Instruction::I32AtomicRmw8SubU(map_mem_arg(memarg)),
        Operator::I32AtomicRmw16SubU { memarg } => Instruction::I32AtomicRmw16SubU(map_mem_arg(memarg)),
        Operator::I64AtomicRmw8SubU { memarg } => Instruction::I64AtomicRmw8SubU(map_mem_arg(memarg)),
        Operator::I64AtomicRmw16SubU { memarg } => Instruction::I64AtomicRmw16SubU(map_mem_arg(memarg)),
        Operator::I64AtomicRmw32SubU { memarg } => Instruction::I64AtomicRmw32SubU(map_mem_arg(memarg)),
        Operator::I32AtomicRmwAnd { memarg } => Instruction::I32AtomicRmwAnd(map_mem_arg(memarg)),
        Operator::I64AtomicRmwAnd { memarg } => Instruction::I64AtomicRmwAnd(map_mem_arg(memarg)),
        Operator::I32AtomicRmw8AndU { memarg } => Instruction::I32AtomicRmw8AndU(map_mem_arg(memarg)),
        Operator::I32AtomicRmw16AndU { memarg } => Instruction::I32AtomicRmw16AndU(map_mem_arg(memarg)),
        Operator::I64AtomicRmw8AndU { memarg } => Instruction::I64AtomicRmw8AndU(map_mem_arg(memarg)),
        Operator::I64AtomicRmw16AndU { memarg } => Instruction::I64AtomicRmw16AndU(map_mem_arg(memarg)),
        Operator::I64AtomicRmw32AndU { memarg } => Instruction::I64AtomicRmw32AndU(map_mem_arg(memarg)),
        Operator::I32AtomicRmwOr { memarg } => Instruction::I32AtomicRmwOr(map_mem_arg(memarg)),
        Operator::I64AtomicRmwOr { memarg } => Instruction::I64AtomicRmwOr(map_mem_arg(memarg)),
        Operator::I32AtomicRmw8OrU { memarg } => Instruction::I32AtomicRmw8OrU(map_mem_arg(memarg)),
        Operator::I32AtomicRmw16OrU { memarg } => Instruction::I32AtomicRmw16OrU(map_mem_arg(memarg)),
        Operator::I64AtomicRmw8OrU { memarg } => Instruction::I64AtomicRmw8OrU(map_mem_arg(memarg)),
        Operator::I64AtomicRmw16OrU { memarg } => Instruction::I64AtomicRmw16OrU(map_mem_arg(memarg)),
        Operator::I64AtomicRmw32OrU { memarg } => Instruction::I64AtomicRmw32OrU(map_mem_arg(memarg)),
        Operator::I32AtomicRmwXor { memarg } => Instruction::I32AtomicRmwXor(map_mem_arg(memarg)),
        Operator::I64AtomicRmwXor { memarg } => Instruction::I64AtomicRmwXor(map_mem_arg(memarg)),
        Operator::I32AtomicRmw8XorU { memarg } => Instruction::I32AtomicRmw8XorU(map_mem_arg(memarg)),
        Operator::I32AtomicRmw16XorU { memarg } => Instruction::I32AtomicRmw16XorU(map_mem_arg(memarg)),
        Operator::I64AtomicRmw8XorU { memarg } => Instruction::I64AtomicRmw8XorU(map_mem_arg(memarg)),
        Operator::I64AtomicRmw16XorU { memarg } => Instruction::I64AtomicRmw16XorU(map_mem_arg(memarg)),
        Operator::I64AtomicRmw32XorU { memarg } => Instruction::I64AtomicRmw32XorU(map_mem_arg(memarg)),
        Operator::I32AtomicRmwXchg { memarg } => Instruction::I32AtomicRmwXchg(map_mem_arg(memarg)),
        Operator::I64AtomicRmwXchg { memarg } => Instruction::I64AtomicRmwXchg(map_mem_arg(memarg)),
        Operator::I32AtomicRmw8XchgU { memarg } => Instruction::I32AtomicRmw8XchgU(map_mem_arg(memarg)),
        Operator::I32AtomicRmw16XchgU { memarg } => Instruction::I32AtomicRmw16XchgU(map_mem_arg(memarg)),
        Operator::I64AtomicRmw8XchgU { memarg } => Instruction::I64AtomicRmw8XchgU(map_mem_arg(memarg)),
        Operator::I64AtomicRmw16XchgU { memarg } => Instruction::I64AtomicRmw16XchgU(map_mem_arg(memarg)),
        Operator::I64AtomicRmw32XchgU { memarg } => Instruction::I64AtomicRmw32XchgU(map_mem_arg(memarg)),
        Operator::I32AtomicRmwCmpxchg { memarg } => Instruction::I32AtomicRmwCmpxchg(map_mem_arg(memarg)),
        Operator::I64AtomicRmwCmpxchg { memarg } => Instruction::I64AtomicRmwCmpxchg(map_mem_arg(memarg)),
        Operator::I32AtomicRmw8CmpxchgU { memarg } => Instruction::I32AtomicRmw8CmpxchgU(map_mem_arg(memarg)),
        Operator::I32AtomicRmw16CmpxchgU { memarg } => Instruction::I32AtomicRmw16CmpxchgU(map_mem_arg(memarg)),
        Operator::I64AtomicRmw8CmpxchgU { memarg } => Instruction::I64AtomicRmw8CmpxchgU(map_mem_arg(memarg)),
        Operator::I64AtomicRmw16CmpxchgU { memarg } => Instruction::I64AtomicRmw16CmpxchgU(map_mem_arg(memarg)),
        Operator::I64AtomicRmw32CmpxchgU { memarg } => Instruction::I64AtomicRmw32CmpxchgU(map_mem_arg(memarg)),
        Operator::V128Load { memarg } => Instruction::V128Load(map_mem_arg(memarg)),
        Operator::V128Load8x8S { memarg } => Instruction::V128Load8x8S(map_mem_arg(memarg)),
        Operator::V128Load8x8U { memarg } => Instruction::V128Load8x8U(map_mem_arg(memarg)),
        Operator::V128Load16x4S { memarg } => Instruction::V128Load16x4S(map_mem_arg(memarg)),
        Operator::V128Load16x4U { memarg } => Instruction::V128Load16x4U(map_mem_arg(memarg)),
        Operator::V128Load32x2S { memarg } => Instruction::V128Load32x2S(map_mem_arg(memarg)),
        Operator::V128Load32x2U { memarg } => Instruction::V128Load32x2U(map_mem_arg(memarg)),
        Operator::V128Load8Splat { memarg } => Instruction::V128Load8Splat(map_mem_arg(memarg)),
        Operator::V128Load16Splat { memarg } => Instruction::V128Load16Splat(map_mem_arg(memarg)),
        Operator::V128Load32Splat { memarg } => Instruction::V128Load32Splat(map_mem_arg(memarg)),
        Operator::V128Load64Splat { memarg } => Instruction::V128Load64Splat(map_mem_arg(memarg)),
        Operator::V128Load32Zero { memarg } => Instruction::V128Load32Zero(map_mem_arg(memarg)),
        Operator::V128Load64Zero { memarg } => Instruction::V128Load64Zero(map_mem_arg(memarg)),
        Operator::V128Store { memarg } => Instruction::V128Store(map_mem_arg(memarg)),
        Operator::V128Load8Lane { memarg, lane } => Instruction::V128Load8Lane { memarg: map_mem_arg(memarg), lane },
        Operator::V128Load16Lane { memarg, lane } => Instruction::V128Load16Lane { memarg: map_mem_arg(memarg), lane },
        Operator::V128Load32Lane { memarg, lane } => Instruction::V128Load32Lane { memarg: map_mem_arg(memarg), lane },
        Operator::V128Load64Lane { memarg, lane } => Instruction::V128Load64Lane { memarg: map_mem_arg(memarg), lane },
        Operator::V128Store8Lane { memarg, lane } => Instruction::V128Store8Lane { memarg: map_mem_arg(memarg), lane },
        Operator::V128Store16Lane { memarg, lane } => Instruction::V128Store16Lane { memarg: map_mem_arg(memarg), lane },
        Operator::V128Store32Lane { memarg, lane } => Instruction::V128Store32Lane { memarg: map_mem_arg(memarg), lane },
        Operator::V128Store64Lane { memarg, lane } => Instruction::V128Store64Lane { memarg: map_mem_arg(memarg), lane },
        Operator::V128Const { value } => Instruction::V128Const(value.i128()),
        Operator::I8x16Shuffle { lanes } => Instruction::I8x16Shuffle(lanes),
        Operator::I8x16ExtractLaneS { lane } => Instruction::I8x16ExtractLaneS(lane),
        Operator::I8x16ExtractLaneU { lane } => Instruction::I8x16ExtractLaneU(lane),
        Operator::I8x16ReplaceLane { lane } => Instruction::I8x16ReplaceLane(lane),
        Operator::I16x8ExtractLaneS { lane } => Instruction::I16x8ExtractLaneS(lane),
        Operator::I16x8ExtractLaneU { lane } => Instruction::I16x8ExtractLaneU(lane),
        Operator::I16x8ReplaceLane { lane } => Instruction::I16x8ReplaceLane(lane),
        Operator::I32x4ExtractLane { lane } => Instruction::I32x4ExtractLane(lane),
        Operator::I32x4ReplaceLane { lane } => Instruction::I32x4ReplaceLane(lane),
        Operator::I64x2ExtractLane { lane } => Instruction::I64x2ExtractLane(lane),
        Operator::I64x2ReplaceLane { lane } => Instruction::I64x2ReplaceLane(lane),
        Operator::F32x4ExtractLane { lane } => Instruction::F32x4ExtractLane(lane),
        Operator::F32x4ReplaceLane { lane } => Instruction::F32x4ReplaceLane(lane),
        Operator::F64x2ExtractLane { lane } => Instruction::F64x2ExtractLane(lane),
        Operator::F64x2ReplaceLane { lane } => Instruction::F64x2ReplaceLane(lane),
        Operator::I8x16Swizzle => Instruction::I8x16Swizzle,
        Operator::I8x16Splat => Instruction::I8x16Splat,
        Operator::I16x8Splat => Instruction::I16x8Splat,
        Operator::I32x4Splat => Instruction::I32x4Splat,
        Operator::I64x2Splat => Instruction::I64x2Splat,
        Operator::F32x4Splat => Instruction::F32x4Splat,
        Operator::F64x2Splat => Instruction::F64x2Splat,
        Operator::I8x16Eq => Instruction::I8x16Eq,
        Operator::I8x16Ne => Instruction::I8x16Ne,
        Operator::I8x16LtS => Instruction::I8x16LtS,
        Operator::I8x16LtU => Instruction::I8x16LtU,
        Operator::I8x16GtS => Instruction::I8x16GtS,
        Operator::I8x16GtU => Instruction::I8x16GtU,
        Operator::I8x16LeS => Instruction::I8x16LeS,
        Operator::I8x16LeU => Instruction::I8x16LeU,
        Operator::I8x16GeS => Instruction::I8x16GeS,
        Operator::I8x16GeU => Instruction::I8x16GeU,
        Operator::I16x8Eq => Instruction::I16x8Eq,
        Operator::I16x8Ne => Instruction::I16x8Ne,
        Operator::I16x8LtS => Instruction::I16x8LtS,
        Operator::I16x8LtU => Instruction::I16x8LtU,
        Operator::I16x8GtS => Instruction::I16x8GtS,
        Operator::I16x8GtU => Instruction::I16x8GtU,
        Operator::I16x8LeS => Instruction::I16x8LeS,
        Operator::I16x8LeU => Instruction::I16x8LeU,
        Operator::I16x8GeS => Instruction::I16x8GeS,
        Operator::I16x8GeU => Instruction::I16x8GeU,
        Operator::I32x4Eq => Instruction::I32x4Eq,
        Operator::I32x4Ne => Instruction::I32x4Ne,
        Operator::I32x4LtS => Instruction::I32x4LtS,
        Operator::I32x4LtU => Instruction::I32x4LtU,
        Operator::I32x4GtS => Instruction::I32x4GtS,
        Operator::I32x4GtU => Instruction::I32x4GtU,
        Operator::I32x4LeS => Instruction::I32x4LeS,
        Operator::I32x4LeU => Instruction::I32x4LeU,
        Operator::I32x4GeS => Instruction::I32x4GeS,
        Operator::I32x4GeU => Instruction::I32x4GeU,
        Operator::I64x2Eq => Instruction::I64x2Eq,
        Operator::I64x2Ne => Instruction::I64x2Ne,
        Operator::I64x2LtS => Instruction::I64x2LtS,
        Operator::I64x2GtS => Instruction::I64x2GtS,
        Operator::I64x2LeS => Instruction::I64x2LeS,
        Operator::I64x2GeS => Instruction::I64x2GeS,
        Operator::F32x4Eq => Instruction::F32x4Eq,
        Operator::F32x4Ne => Instruction::F32x4Ne,
        Operator::F32x4Lt => Instruction::F32x4Lt,
        Operator::F32x4Gt => Instruction::F32x4Gt,
        Operator::F32x4Le => Instruction::F32x4Le,
        Operator::F32x4Ge => Instruction::F32x4Ge,
        Operator::F64x2Eq => Instruction::F64x2Eq,
        Operator::F64x2Ne => Instruction::F64x2Ne,
        Operator::F64x2Lt => Instruction::F64x2Lt,
        Operator::F64x2Gt => Instruction::F64x2Gt,
        Operator::F64x2Le => Instruction::F64x2Le,
        Operator::F64x2Ge => Instruction::F64x2Ge,
        Operator::V128Not => Instruction::V128Not,
        Operator::V128And => Instruction::V128And,
        Operator::V128AndNot => Instruction::V128AndNot,
        Operator::V128Or => Instruction::V128Or,
        Operator::V128Xor => Instruction::V128Xor,
        Operator::V128Bitselect => Instruction::V128Bitselect,
        Operator::V128AnyTrue => Instruction::V128AnyTrue,
        Operator::I8x16Abs => Instruction::I8x16Abs,
        Operator::I8x16Neg => Instruction::I8x16Neg,
        Operator::I8x16Popcnt => Instruction::I8x16Popcnt,
        Operator::I8x16AllTrue => Instruction::I8x16AllTrue,
        Operator::I8x16Bitmask => Instruction::I8x16Bitmask,
        Operator::I8x16NarrowI16x8S => Instruction::I8x16NarrowI16x8S,
        Operator::I8x16NarrowI16x8U => Instruction::I8x16NarrowI16x8U,
        Operator::I8x16Shl => Instruction::I8x16Shl,
        Operator::I8x16ShrS => Instruction::I8x16ShrS,
        Operator::I8x16ShrU => Instruction::I8x16ShrU,
        Operator::I8x16Add => Instruction::I8x16Add,
        Operator::I8x16AddSatS => Instruction::I8x16AddSatS,
        Operator::I8x16AddSatU => Instruction::I8x16AddSatU,
        Operator::I8x16Sub => Instruction::I8x16Sub,
        Operator::I8x16SubSatS => Instruction::I8x16SubSatS,
        Operator::I8x16SubSatU => Instruction::I8x16SubSatU,
        Operator::I8x16MinS => Instruction::I8x16MinS,
        Operator::I8x16MinU => Instruction::I8x16MinU,
        Operator::I8x16MaxS => Instruction::I8x16MaxS,
        Operator::I8x16MaxU => Instruction::I8x16MaxU,
        Operator::I8x16AvgrU => Instruction::I8x16AvgrU,
        Operator::I16x8ExtAddPairwiseI8x16S => Instruction::I16x8ExtAddPairwiseI8x16S,
        Operator::I16x8ExtAddPairwiseI8x16U => Instruction::I16x8ExtAddPairwiseI8x16U,
        Operator::I16x8Abs => Instruction::I16x8Abs,
        Operator::I16x8Neg => Instruction::I16x8Neg,
        Operator::I16x8Q15MulrSatS => Instruction::I16x8Q15MulrSatS,
        Operator::I16x8AllTrue => Instruction::I16x8AllTrue,
        Operator::I16x8Bitmask => Instruction::I16x8Bitmask,
        Operator::I16x8NarrowI32x4S => Instruction::I16x8NarrowI32x4S,
        Operator::I16x8NarrowI32x4U => Instruction::I16x8NarrowI32x4U,
        Operator::I16x8ExtendLowI8x16S => Instruction::I16x8ExtendLowI8x16S,
        Operator::I16x8ExtendHighI8x16S => Instruction::I16x8ExtendHighI8x16S,
        Operator::I16x8ExtendLowI8x16U => Instruction::I16x8ExtendLowI8x16U,
        Operator::I16x8ExtendHighI8x16U => Instruction::I16x8ExtendHighI8x16U,
        Operator::I16x8Shl => Instruction::I16x8Shl,
        Operator::I16x8ShrS => Instruction::I16x8ShrS,
        Operator::I16x8ShrU => Instruction::I16x8ShrU,
        Operator::I16x8Add => Instruction::I16x8Add,
        Operator::I16x8AddSatS => Instruction::I16x8AddSatS,
        Operator::I16x8AddSatU => Instruction::I16x8AddSatU,
        Operator::I16x8Sub => Instruction::I16x8Sub,
        Operator::I16x8SubSatS => Instruction::I16x8SubSatS,
        Operator::I16x8SubSatU => Instruction::I16x8SubSatU,
        Operator::I16x8Mul => Instruction::I16x8Mul,
        Operator::I16x8MinS => Instruction::I16x8MinS,
        Operator::I16x8MinU => Instruction::I16x8MinU,
        Operator::I16x8MaxS => Instruction::I16x8MaxS,
        Operator::I16x8MaxU => Instruction::I16x8MaxU,
        Operator::I16x8AvgrU => Instruction::I16x8AvgrU,
        Operator::I16x8ExtMulLowI8x16S => Instruction::I16x8ExtMulLowI8x16S,
        Operator::I16x8ExtMulHighI8x16S => Instruction::I16x8ExtMulHighI8x16S,
        Operator::I16x8ExtMulLowI8x16U => Instruction::I16x8ExtMulLowI8x16U,
        Operator::I16x8ExtMulHighI8x16U => Instruction::I16x8ExtMulHighI8x16U,
        Operator::I32x4ExtAddPairwiseI16x8S => Instruction::I32x4ExtAddPairwiseI16x8S,
        Operator::I32x4ExtAddPairwiseI16x8U => Instruction::I32x4ExtAddPairwiseI16x8U,
        Operator::I32x4Abs => Instruction::I32x4Abs,
        Operator::I32x4Neg => Instruction::I32x4Neg,
        Operator::I32x4AllTrue => Instruction::I32x4AllTrue,
        Operator::I32x4Bitmask => Instruction::I32x4Bitmask,
        Operator::I32x4ExtendLowI16x8S => Instruction::I32x4ExtendLowI16x8S,
        Operator::I32x4ExtendHighI16x8S => Instruction::I32x4ExtendHighI16x8S,
        Operator::I32x4ExtendLowI16x8U => Instruction::I32x4ExtendLowI16x8U,
        Operator::I32x4ExtendHighI16x8U => Instruction::I32x4ExtendHighI16x8U,
        Operator::I32x4Shl => Instruction::I32x4Shl,
        Operator::I32x4ShrS => Instruction::I32x4ShrS,
        Operator::I32x4ShrU => Instruction::I32x4ShrU,
        Operator::I32x4Add => Instruction::I32x4Add,
        Operator::I32x4Sub => Instruction::I32x4Sub,
        Operator::I32x4Mul => Instruction::I32x4Mul,
        Operator::I32x4MinS => Instruction::I32x4MinS,
        Operator::I32x4MinU => Instruction::I32x4MinU,
        Operator::I32x4MaxS => Instruction::I32x4MaxS,
        Operator::I32x4MaxU => Instruction::I32x4MaxU,
        Operator::I32x4DotI16x8S => Instruction::I32x4DotI16x8S,
        Operator::I32x4ExtMulLowI16x8S => Instruction::I32x4ExtMulLowI16x8S,
        Operator::I32x4ExtMulHighI16x8S => Instruction::I32x4ExtMulHighI16x8S,
        Operator::I32x4ExtMulLowI16x8U => Instruction::I32x4ExtMulLowI16x8U,
        Operator::I32x4ExtMulHighI16x8U => Instruction::I32x4ExtMulHighI16x8U,
        Operator::I64x2Abs => Instruction::I64x2Abs,
        Operator::I64x2Neg => Instruction::I64x2Neg,
        Operator::I64x2AllTrue => Instruction::I64x2AllTrue,
        Operator::I64x2Bitmask => Instruction::I64x2Bitmask,
        Operator::I64x2ExtendLowI32x4S => Instruction::I64x2ExtendLowI32x4S,
        Operator::I64x2ExtendHighI32x4S => Instruction::I64x2ExtendHighI32x4S,
        Operator::I64x2ExtendLowI32x4U => Instruction::I64x2ExtendLowI32x4U,
        Operator::I64x2ExtendHighI32x4U => Instruction::I64x2ExtendHighI32x4U,
        Operator::I64x2Shl => Instruction::I64x2Shl,
        Operator::I64x2ShrS => Instruction::I64x2ShrS,
        Operator::I64x2ShrU => Instruction::I64x2ShrU,
        Operator::I64x2Add => Instruction::I64x2Add,
        Operator::I64x2Sub => Instruction::I64x2Sub,
        Operator::I64x2Mul => Instruction::I64x2Mul,
        Operator::I64x2ExtMulLowI32x4S => Instruction::I64x2ExtMulLowI32x4S,
        Operator::I64x2ExtMulHighI32x4S => Instruction::I64x2ExtMulHighI32x4S,
        Operator::I64x2ExtMulLowI32x4U => Instruction::I64x2ExtMulLowI32x4U,
        Operator::I64x2ExtMulHighI32x4U => Instruction::I64x2ExtMulHighI32x4U,
        Operator::F32x4Ceil => Instruction::F32x4Ceil,
        Operator::F32x4Floor => Instruction::F32x4Floor,
        Operator::F32x4Trunc => Instruction::F32x4Trunc,
        Operator::F32x4Nearest => Instruction::F32x4Nearest,
        Operator::F32x4Abs => Instruction::F32x4Abs,
        Operator::F32x4Neg => Instruction::F32x4Neg,
        Operator::F32x4Sqrt => Instruction::F32x4Sqrt,
        Operator::F32x4Add => Instruction::F32x4Add,
        Operator::F32x4Sub => Instruction::F32x4Sub,
        Operator::F32x4Mul => Instruction::F32x4Mul,
        Operator::F32x4Div => Instruction::F32x4Div,
        Operator::F32x4Min => Instruction::F32x4Min,
        Operator::F32x4Max => Instruction::F32x4Max,
        Operator::F32x4PMin => Instruction::F32x4PMin,
        Operator::F32x4PMax => Instruction::F32x4PMax,
        Operator::F64x2Ceil => Instruction::F64x2Ceil,
        Operator::F64x2Floor => Instruction::F64x2Floor,
        Operator::F64x2Trunc => Instruction::F64x2Trunc,
        Operator::F64x2Nearest => Instruction::F64x2Nearest,
        Operator::F64x2Abs => Instruction::F64x2Abs,
        Operator::F64x2Neg => Instruction::F64x2Neg,
        Operator::F64x2Sqrt => Instruction::F64x2Sqrt,
        Operator::F64x2Add => Instruction::F64x2Add,
        Operator::F64x2Sub => Instruction::F64x2Sub,
        Operator::F64x2Mul => Instruction::F64x2Mul,
        Operator::F64x2Div => Instruction::F64x2Div,
        Operator::F64x2Min => Instruction::F64x2Min,
        Operator::F64x2Max => Instruction::F64x2Max,
        Operator::F64x2PMin => Instruction::F64x2PMin,
        Operator::F64x2PMax => Instruction::F64x2PMax,
        Operator::I32x4TruncSatF32x4S => Instruction::I32x4TruncSatF32x4S,
        Operator::I32x4TruncSatF32x4U => Instruction::I32x4TruncSatF32x4U,
        Operator::F32x4ConvertI32x4S => Instruction::F32x4ConvertI32x4S,
        Operator::F32x4ConvertI32x4U => Instruction::F32x4ConvertI32x4U,
        Operator::I32x4TruncSatF64x2SZero => Instruction::I32x4TruncSatF64x2SZero,
        Operator::I32x4TruncSatF64x2UZero => Instruction::I32x4TruncSatF64x2UZero,
        Operator::F64x2ConvertLowI32x4S => Instruction::F64x2ConvertLowI32x4S,
        Operator::F64x2ConvertLowI32x4U => Instruction::F64x2ConvertLowI32x4U,
        Operator::F32x4DemoteF64x2Zero => Instruction::F32x4DemoteF64x2Zero,
        Operator::F64x2PromoteLowF32x4 => Instruction::F64x2PromoteLowF32x4,
        Operator::I8x16RelaxedSwizzle => Instruction::I8x16RelaxedSwizzle,
        Operator::I32x4RelaxedTruncF32x4S => Instruction::I32x4RelaxedTruncF32x4S,
        Operator::I32x4RelaxedTruncF32x4U => Instruction::I32x4RelaxedTruncF32x4U,
        Operator::I32x4RelaxedTruncF64x2SZero => Instruction::I32x4RelaxedTruncF64x2SZero,
        Operator::I32x4RelaxedTruncF64x2UZero => Instruction::I32x4RelaxedTruncF64x2UZero,
        Operator::F32x4RelaxedMadd => Instruction::F32x4RelaxedMadd,
        Operator::F32x4RelaxedNmadd => Instruction::F32x4RelaxedNmadd,
        Operator::F64x2RelaxedMadd => Instruction::F64x2RelaxedMadd,
        Operator::F64x2RelaxedNmadd => Instruction::F64x2RelaxedNmadd,
        Operator::I8x16RelaxedLaneselect => Instruction::I8x16RelaxedLaneselect,
        Operator::I16x8RelaxedLaneselect => Instruction::I16x8RelaxedLaneselect,
        Operator::I32x4RelaxedLaneselect => Instruction::I32x4RelaxedLaneselect,
        Operator::I64x2RelaxedLaneselect => Instruction::I64x2RelaxedLaneselect,
        Operator::F32x4RelaxedMin => Instruction::F32x4RelaxedMin,
        Operator::F32x4RelaxedMax => Instruction::F32x4RelaxedMax,
        Operator::F64x2RelaxedMin => Instruction::F64x2RelaxedMin,
        Operator::F64x2RelaxedMax => Instruction::F64x2RelaxedMax,
        Operator::I16x8RelaxedQ15mulrS => Instruction::I16x8RelaxedQ15mulrS,
        Operator::I16x8RelaxedDotI8x16I7x16S => Instruction::I16x8RelaxedDotI8x16I7x16S,
        Operator::I32x4RelaxedDotI8x16I7x16AddS => Instruction::I32x4RelaxedDotI8x16I7x16AddS,
        Operator::TryTable { try_table } => Instruction::TryTable(map_block_type(try_table.ty), map_catches(try_table.catches)),
        Operator::Throw { tag_index } => Instruction::Throw(tag_index),
        Operator::ThrowRef => Instruction::ThrowRef,
        Operator::Try { blockty } => Instruction::Try(map_block_type(blockty)),
        Operator::Catch { tag_index } => Instruction::Catch(tag_index),
        Operator::Rethrow { relative_depth } => Instruction::Rethrow(relative_depth),
        Operator::Delegate { relative_depth } => Instruction::Delegate(relative_depth),
        Operator::CatchAll => Instruction::CatchAll,
        Operator::GlobalAtomicGet { ordering, global_index } => Instruction::GlobalAtomicGet { ordering: map_ordering(ordering), global_index },
        Operator::GlobalAtomicSet { ordering, global_index } => Instruction::GlobalAtomicSet { ordering: map_ordering(ordering), global_index },
        Operator::GlobalAtomicRmwAdd { ordering, global_index } => Instruction::GlobalAtomicRmwAdd { ordering: map_ordering(ordering), global_index },
        Operator::GlobalAtomicRmwSub { ordering, global_index } => Instruction::GlobalAtomicRmwSub { ordering: map_ordering(ordering), global_index },
        Operator::GlobalAtomicRmwAnd { ordering, global_index } => Instruction::GlobalAtomicRmwAnd { ordering: map_ordering(ordering), global_index },
        Operator::GlobalAtomicRmwOr { ordering, global_index } => Instruction::GlobalAtomicRmwOr { ordering: map_ordering(ordering), global_index },
        Operator::GlobalAtomicRmwXor { ordering, global_index } => Instruction::GlobalAtomicRmwXor { ordering: map_ordering(ordering), global_index },
        Operator::GlobalAtomicRmwXchg { ordering, global_index } => Instruction::GlobalAtomicRmwXchg { ordering: map_ordering(ordering), global_index },
        Operator::GlobalAtomicRmwCmpxchg { ordering, global_index } => Instruction::GlobalAtomicRmwCmpxchg { ordering: map_ordering(ordering), global_index },
        Operator::TableAtomicGet { ordering, table_index } => Instruction::TableAtomicGet { ordering: map_ordering(ordering), table_index },
        Operator::TableAtomicSet { ordering, table_index } => Instruction::TableAtomicSet { ordering: map_ordering(ordering), table_index },
        Operator::TableAtomicRmwXchg { ordering, table_index } => Instruction::TableAtomicRmwXchg { ordering: map_ordering(ordering), table_index },
        Operator::TableAtomicRmwCmpxchg { ordering, table_index } => Instruction::TableAtomicRmwCmpxchg { ordering: map_ordering(ordering), table_index },
        Operator::StructAtomicGet { ordering, struct_type_index, field_index } => Instruction::StructAtomicGet { ordering: map_ordering(ordering), struct_type_index, field_index },
        Operator::StructAtomicGetS { ordering, struct_type_index, field_index } => Instruction::StructAtomicGetS { ordering: map_ordering(ordering), struct_type_index, field_index },
        Operator::StructAtomicGetU { ordering, struct_type_index, field_index } => Instruction::StructAtomicGetU { ordering: map_ordering(ordering), struct_type_index, field_index },
        Operator::StructAtomicSet { ordering, struct_type_index, field_index } => Instruction::StructAtomicSet { ordering: map_ordering(ordering), struct_type_index, field_index },
        Operator::StructAtomicRmwAdd { ordering, struct_type_index, field_index } => Instruction::StructAtomicRmwAdd { ordering: map_ordering(ordering), struct_type_index, field_index },
        Operator::StructAtomicRmwSub { ordering, struct_type_index, field_index } => Instruction::StructAtomicRmwSub { ordering: map_ordering(ordering), struct_type_index, field_index },
        Operator::StructAtomicRmwAnd { ordering, struct_type_index, field_index } => Instruction::StructAtomicRmwAnd { ordering: map_ordering(ordering), struct_type_index, field_index },
        Operator::StructAtomicRmwOr { ordering, struct_type_index, field_index } => Instruction::StructAtomicRmwOr { ordering: map_ordering(ordering), struct_type_index, field_index },
        Operator::StructAtomicRmwXor { ordering, struct_type_index, field_index } => Instruction::StructAtomicRmwXor { ordering: map_ordering(ordering), struct_type_index, field_index },
        Operator::StructAtomicRmwXchg { ordering, struct_type_index, field_index } => Instruction::StructAtomicRmwXchg { ordering: map_ordering(ordering), struct_type_index, field_index },
        Operator::StructAtomicRmwCmpxchg { ordering, struct_type_index, field_index } => Instruction::StructAtomicRmwCmpxchg { ordering: map_ordering(ordering), struct_type_index, field_index },
        Operator::ArrayAtomicGet { ordering, array_type_index } => Instruction::ArrayAtomicGet { ordering: map_ordering(ordering), array_type_index },
        Operator::ArrayAtomicGetS { ordering, array_type_index } => Instruction::ArrayAtomicGetS { ordering: map_ordering(ordering), array_type_index },
        Operator::ArrayAtomicGetU { ordering, array_type_index } => Instruction::ArrayAtomicGetU { ordering: map_ordering(ordering), array_type_index },
        Operator::ArrayAtomicSet { ordering, array_type_index } => Instruction::ArrayAtomicSet { ordering: map_ordering(ordering), array_type_index },
        Operator::ArrayAtomicRmwAdd { ordering, array_type_index } => Instruction::ArrayAtomicRmwAdd { ordering: map_ordering(ordering), array_type_index },
        Operator::ArrayAtomicRmwSub { ordering, array_type_index } => Instruction::ArrayAtomicRmwSub { ordering: map_ordering(ordering), array_type_index },
        Operator::ArrayAtomicRmwAnd { ordering, array_type_index } => Instruction::ArrayAtomicRmwAnd { ordering: map_ordering(ordering), array_type_index },
        Operator::ArrayAtomicRmwOr { ordering, array_type_index } => Instruction::ArrayAtomicRmwOr { ordering: map_ordering(ordering), array_type_index },
        Operator::ArrayAtomicRmwXor { ordering, array_type_index } => Instruction::ArrayAtomicRmwXor { ordering: map_ordering(ordering), array_type_index },
        Operator::ArrayAtomicRmwXchg { ordering, array_type_index } => Instruction::ArrayAtomicRmwXchg { ordering: map_ordering(ordering), array_type_index },
        Operator::ArrayAtomicRmwCmpxchg { ordering, array_type_index } => Instruction::ArrayAtomicRmwCmpxchg { ordering: map_ordering(ordering), array_type_index },
        Operator::RefI31Shared => Instruction::RefI31Shared,
        Operator::CallRef { type_index } => Instruction::CallRef(type_index),
        Operator::ReturnCallRef { type_index } => Instruction::ReturnCallRef(type_index),
        Operator::RefAsNonNull => Instruction::RefAsNonNull,
        Operator::BrOnNull { relative_depth } => Instruction::BrOnNull(relative_depth),
        Operator::BrOnNonNull { relative_depth } => Instruction::BrOnNonNull(relative_depth),
        Operator::ContNew { cont_type_index } => Instruction::ContNew(cont_type_index),
        Operator::ContBind { argument_index, result_index } => Instruction::ContBind { argument_index, result_index },
        Operator::Suspend { tag_index } => Instruction::Suspend(tag_index),
        Operator::Resume { cont_type_index, resume_table } => Instruction::Resume { cont_type_index, resume_table: map_resume_table(resume_table) },
        Operator::ResumeThrow { cont_type_index, tag_index, resume_table } => Instruction::ResumeThrow { cont_type_index, tag_index, resume_table: map_resume_table(resume_table) },
        Operator::Switch { cont_type_index, tag_index } => Instruction::Switch { cont_type_index, tag_index },
        Operator::I64Add128 => Instruction::I64Add128,
        Operator::I64Sub128 => Instruction::I64Sub128,
        Operator::I64MulWideS => Instruction::I64MulWideS,
        Operator::I64MulWideU => Instruction::I64MulWideU,
    }
}

} // verus!
