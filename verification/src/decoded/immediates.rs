//! Immediate operands of operators.

use super::types::ValType;
use vstd::prelude::*;

verus! {

/// The signature of a block, loop or if.
#[derive(Clone, Copy, Debug, PartialEq, Eq)]
pub enum BlockType {
    Empty,
    Type(ValType),
    FuncType(u32),
}

/// Immediate of a memory access.
#[derive(Clone, Copy, Debug, PartialEq, Eq)]
pub struct MemArg {
    /// Alignment as a power of two.
    pub align: u8,
    /// Largest alignment the operator admits, as a power of two.
    pub max_align: u8,
    pub offset: u64,
    pub memory: u32,
}

/// Branch table: the targets in order, then the default target.
#[derive(Clone, Debug, PartialEq, Eq)]
pub struct BrTable {
    pub targets: Vec<u32>,
    pub default: u32,
}

/// A 32-bit float constant, kept as its bit pattern.
#[derive(Clone, Copy, Debug, PartialEq, Eq)]
pub struct Ieee32(pub u32);

impl Ieee32 {
    pub open spec fn spec_bits(self) -> u32 {
        self.0
    }

    /// The bit pattern of the constant.
    #[verifier::when_used_as_spec(spec_bits)]
    pub fn bits(self) -> (r: u32)
        ensures
            r == self.0,
    {
        self.0
    }
}

/// A 64-bit float constant, kept as its bit pattern.
#[derive(Clone, Copy, Debug, PartialEq, Eq)]
pub struct Ieee64(pub u64);

impl Ieee64 {
    pub open spec fn spec_bits(self) -> u64 {
        self.0
    }

    /// The bit pattern of the constant.
    #[verifier::when_used_as_spec(spec_bits)]
    pub fn bits(self) -> (r: u64)
        ensures
            r == self.0,
    {
        self.0
    }
}

/// A 128-bit vector constant, kept as the integer that its sixteen bytes
/// spell in little-endian order.
#[derive(Clone, Copy, Debug, PartialEq, Eq)]
pub struct V128(pub i128);

impl V128 {
    pub open spec fn spec_i128(self) -> i128 {
        self.0
    }

    /// The constant as one integer.
    #[verifier::when_used_as_spec(spec_i128)]
    pub fn i128(self) -> (r: i128)
        ensures
            r == self.0,
    {
        self.0
    }
}

/// One clause of a `try_table`.
#[derive(Clone, Copy, Debug, PartialEq, Eq)]
pub enum Catch {
    One { tag: u32, label: u32 },
    OneRef { tag: u32, label: u32 },
    All { label: u32 },
    AllRef { label: u32 },
}

/// The immediate of `try_table`: the signature of the block and its clauses, in
/// order.
#[derive(Clone, Debug, PartialEq, Eq)]
pub struct TryTable {
    pub ty: BlockType,
    pub catches: Vec<Catch>,
}

/// One handler of a resume table.
#[derive(Clone, Copy, Debug, PartialEq, Eq)]
pub enum Handle {
    OnLabel { tag: u32, label: u32 },
    OnSwitch { tag: u32 },
}

/// The handlers of a `resume`, in order.
#[derive(Clone, Debug, PartialEq, Eq)]
pub struct ResumeTable {
    pub handlers: Vec<Handle>,
}

/// Memory ordering of an atomic access.
#[derive(Clone, Copy, Debug, PartialEq, Eq)]
pub enum MemoryOrdering {
    AcqRel,
    SeqCst,
}

} // verus!
