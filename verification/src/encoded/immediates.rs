//! Immediate operands of instructions.

use super::types::ValType;
use vstd::prelude::*;

verus! {

/// The signature of a block, loop or if.
#[derive(Clone, Copy, Debug, PartialEq, Eq)]
pub enum BlockType {
    Empty,
    Result(ValType),
    FunctionType(u32),
}

/// Immediate of a memory access.
#[derive(Clone, Copy, Debug, PartialEq, Eq)]
pub struct MemArg {
    pub offset: u64,
    /// Alignment as a power of two.
    pub align: u32,
    pub memory_index: u32,
}

/// A 32-bit float constant, kept as its bit pattern.
#[derive(Clone, Copy, Debug, PartialEq, Eq)]
pub struct Ieee32(pub u32);

impl Ieee32 {
    /// The constant with the given bit pattern.
    pub fn new(bits: u32) -> (r: Self)
        ensures
            r.0 == bits,
    {
        Ieee32(bits)
    }
}

/// A 64-bit float constant, kept as its bit pattern.
#[derive(Clone, Copy, Debug, PartialEq, Eq)]
pub struct Ieee64(pub u64);

impl Ieee64 {
    /// The constant with the given bit pattern.
    pub fn new(bits: u64) -> (r: Self)
        ensures
            r.0 == bits,
    {
        Ieee64(bits)
    }
}

/// One clause of a `try_table`.
#[derive(Clone, Copy, Debug, PartialEq, Eq)]
pub enum Catch {
    One { tag: u32, label: u32 },
    OneRef { tag: u32, label: u32 },
    All { label: u32 },
    AllRef { label: u32 },
}

/// One handler of a resume table.
#[derive(Clone, Copy, Debug, PartialEq, Eq)]
pub enum Handle {
    OnLabel { tag: u32, label: u32 },
    OnSwitch { tag: u32 },
}

/// Memory ordering of an atomic access.
#[derive(Clone, Copy, Debug, PartialEq, Eq)]
pub enum MemoryOrdering {
    AcqRel,
    SeqCst,
}

} // verus!
