//! The WebAssembly proposals a module may use, and what the validator is told.

use vstd::prelude::*;

verus! {

/// A proposal that the user of the library switches on or off.
#[derive(Clone, Copy, Debug, PartialEq, Eq)]
pub enum Proposal {
    Threads,
    ReferenceTypes,
    Simd,
    BulkMemory,
    MultiValue,
    TailCall,
    MultiMemory,
    Memory64,
    Exceptions,
    ExtendedConst,
    RelaxedSimd,
}

/// A capability of the validator whose setting the library fixes.
#[derive(Clone, Copy, Debug, PartialEq, Eq)]
pub enum Capability {
    MutableGlobal,
    SaturatingFloatToInt,
    Floats,
    SignExtension,
    GcTypes,
    ComponentModel,
    FunctionReferences,
    MemoryControl,
    Gc,
}

/// WebAssembly features.
///
/// Usually, each feature has its corresponding proposal.
#[derive(Debug, Clone, Copy, Eq, PartialEq, Hash)]
pub struct Features {
    /// Enables `Threads` proposal.
    pub threads: bool,
    /// Enables `Reference Types` proposal.
    pub reference_types: bool,
    /// Enables `SIMD` proposal.
    pub simd: bool,
    /// Enables the WebAssembly bulk memory operations proposal.
    pub bulk_memory: bool,
    /// Multi Value proposal.
    pub multi_value: bool,
    /// Tail call proposal.
    pub tail_call: bool,
    /// Multi Memory proposal.
    pub multi_memory: bool,
    /// 64-bit Memory proposal.
    pub memory64: bool,
    /// Wasm exceptions proposal.
    pub exceptions: bool,
    /// Extended constant expressions proposal.
    pub extended_const: bool,
    /// Relaxed SIMD proposal.
    pub relaxed_simd: bool,
}

/// One flag of those that a validator is made with.
#[derive(Clone, Copy, Debug, PartialEq, Eq)]
pub enum Flag {
    /// The flag of a proposal.
    Proposal(Proposal),
    /// The flag of a capability.
    Capability(Capability),
    /// A flag that the library has no name for, by the position of its bit.
    Other(u32),
}

/// The flags that `features` holds, as a set.
pub uninterp spec fn enabled_flags(features: wasmparser::WasmFeatures) -> Set<Flag>;

/// `wasmparser::WasmFeatures`: the set of flags that a validator is made
/// with. Its contents are known through [`enabled_flags`] alone.
#[verifier::external_type_specification]
#[verifier::external_body]
pub struct ExWasmFeatures(wasmparser::WasmFeatures);

/// `WasmFeatures::default()`: the validator's own choice of flags. Of the
/// flags that the library has a name for, nothing is claimed; every other
/// flag is off in it.
#[verifier::external_body]
fn default_flags() -> (r: wasmparser::WasmFeatures)
    ensures
        forall|flag: Flag| #[trigger] enabled_flags(r).contains(flag) ==> !(flag is Other),
{
    wasmparser::WasmFeatures::default()
}

/// The constant of `WasmFeatures` that stands for `proposal`: the set of
/// that one flag.
#[verifier::external_body]
fn proposal_flag(proposal: Proposal) -> (r: wasmparser::WasmFeatures)
    ensures
        enabled_flags(r) == set![Flag::Proposal(proposal)],
{
    match proposal {
        Proposal::Threads => wasmparser::WasmFeatures::THREADS,
        Proposal::ReferenceTypes => wasmparser::WasmFeatures::REFERENCE_TYPES,
        Proposal::Simd => wasmparser::WasmFeatures::SIMD,
        Proposal::BulkMemory => wasmparser::WasmFeatures::BULK_MEMORY,
        Proposal::MultiValue => wasmparser::WasmFeatures::MULTI_VALUE,
        Proposal::TailCall => wasmparser::WasmFeatures::TAIL_CALL,
        Proposal::MultiMemory => wasmparser::WasmFeatures::MULTI_MEMORY,
        Proposal::Memory64 => wasmparser::WasmFeatures::MEMORY64,
        Proposal::Exceptions => wasmparser::WasmFeatures::EXCEPTIONS,
        Proposal::ExtendedConst => wasmparser::WasmFeatures::EXTENDED_CONST,
        Proposal::RelaxedSimd => wasmparser::WasmFeatures::RELAXED_SIMD,
    }
}

/// The constant of `WasmFeatures` that stands for `capability`: the set of
/// that one flag.
#[verifier::external_body]
fn capability_flag(capability: Capability) -> (r: wasmparser::WasmFeatures)
    ensures
        enabled_flags(r) == set![Flag::Capability(capability)],
{
    match capability {
        Capability::MutableGlobal => wasmparser::WasmFeatures::MUTABLE_GLOBAL,
        Capability::SaturatingFloatToInt => wasmparser::WasmFeatures::SATURATING_FLOAT_TO_INT,
        Capability::Floats => wasmparser::WasmFeatures::FLOATS,
        Capability::SignExtension => wasmparser::WasmFeatures::SIGN_EXTENSION,
        Capability::GcTypes => wasmparser::WasmFeatures::GC_TYPES,
        Capability::ComponentModel => wasmparser::WasmFeatures::COMPONENT_MODEL,
        Capability::FunctionReferences => wasmparser::WasmFeatures::FUNCTION_REFERENCES,
        Capability::MemoryControl => wasmparser::WasmFeatures::MEMORY_CONTROL,
        Capability::Gc => wasmparser::WasmFeatures::GC,
    }
}

/// `WasmFeatures::set`: puts the flags of `flags` into `features` where `on`
/// holds, and takes them out of it where not. No other flag changes.
#[verifier::external_body]
fn set_flags(features: &mut wasmparser::WasmFeatures, flags: wasmparser::WasmFeatures, on: bool)
    ensures
        enabled_flags(*final(features)) == if on {
            enabled_flags(*old(features)).union(enabled_flags(flags))
        } else {
            enabled_flags(*old(features)).difference(enabled_flags(flags))
        },
{
    features.set(flags, on);
}

/// Switches one proposal on or off in what the validator is told.
fn set_proposal(features: &mut wasmparser::WasmFeatures, proposal: Proposal, on: bool)
    ensures
        enabled_flags(*final(features)) == if on {
            enabled_flags(*old(features)).insert(Flag::Proposal(proposal))
        } else {
            enabled_flags(*old(features)).remove(Flag::Proposal(proposal))
        },
{
    set_flags(features, proposal_flag(proposal), on);
    assert(enabled_flags(*features) =~= if on {
        enabled_flags(*old(features)).insert(Flag::Proposal(proposal))
    } else {
        enabled_flags(*old(features)).remove(Flag::Proposal(proposal))
    });
}

/// Switches one capability on or off in what the validator is told.
fn set_capability(features: &mut wasmparser::WasmFeatures, capability: Capability, on: bool)
    ensures
        enabled_flags(*final(features)) == if on {
            enabled_flags(*old(features)).insert(Flag::Capability(capability))
        } else {
            enabled_flags(*old(features)).remove(Flag::Capability(capability))
        },
{
    set_flags(features, capability_flag(capability), on);
    assert(enabled_flags(*features) =~= if on {
        enabled_flags(*old(features)).insert(Flag::Capability(capability))
    } else {
        enabled_flags(*old(features)).remove(Flag::Capability(capability))
    });
}

impl Features {
    /// Creates a new feature set with all features enabled.
    pub fn new() -> (r: Self)
        ensures
            forall|p: Proposal| r.has(p),
    {
        Self {
            threads: true,
            reference_types: true,
            simd: true,
            bulk_memory: true,
            multi_value: true,
            tail_call: true,
            multi_memory: true,
            memory64: true,
            exceptions: true,
            extended_const: true,
            relaxed_simd: true,
        }
    }

    /// Whether the set holds `proposal`.
    pub open spec fn has(self, proposal: Proposal) -> bool {
        match proposal {
            Proposal::Threads => self.threads,
            Proposal::ReferenceTypes => self.reference_types,
            Proposal::Simd => self.simd,
            Proposal::BulkMemory => self.bulk_memory,
            Proposal::MultiValue => self.multi_value,
            Proposal::TailCall => self.tail_call,
            Proposal::MultiMemory => self.multi_memory,
            Proposal::Memory64 => self.memory64,
            Proposal::Exceptions => self.exceptions,
            Proposal::ExtendedConst => self.extended_const,
            Proposal::RelaxedSimd => self.relaxed_simd,
        }
    }

    /// The proposals of the set.
    pub open spec fn proposals(self) -> Set<Proposal> {
        Set::new(|p: Proposal| self.has(p))
    }

    /// The capabilities that are on whatever the set holds.
    pub open spec fn forced_capabilities() -> Set<Capability> {
        set![
            Capability::MutableGlobal,
            Capability::SaturatingFloatToInt,
            Capability::Floats,
            Capability::SignExtension,
            Capability::GcTypes,
        ]
    }

    /// The flags that the validator is told: each proposal as the set has
    /// it, the forced capabilities, and no other flag.
    pub open spec fn flags(self) -> Set<Flag> {
        Set::new(
            |flag: Flag|
                match flag {
                    Flag::Proposal(proposal) => self.has(proposal),
                    Flag::Capability(capability) => Self::forced_capabilities().contains(
                        capability,
                    ),
                    Flag::Other(_) => false,
                },
        )
    }

    /// What the validator is told: each proposal as the set has it, the
    /// forced capabilities on, every other flag off.
    pub fn validator_flags(self) -> (r: wasmparser::WasmFeatures)
        ensures
            enabled_flags(r) == self.flags(),
    {
        let mut wasm_features = default_flags();
        set_proposal(&mut wasm_features, Proposal::Threads, self.threads);
        set_proposal(&mut wasm_features, Proposal::ReferenceTypes, self.reference_types);
        set_proposal(&mut wasm_features, Proposal::Simd, self.simd);
        set_proposal(&mut wasm_features, Proposal::BulkMemory, self.bulk_memory);
        set_proposal(&mut wasm_features, Proposal::MultiValue, self.multi_value);
        set_proposal(&mut wasm_features, Proposal::TailCall, self.tail_call);
        set_proposal(&mut wasm_features, Proposal::MultiMemory, self.multi_memory);
        set_proposal(&mut wasm_features, Proposal::Memory64, self.memory64);
        set_proposal(&mut wasm_features, Proposal::Exceptions, self.exceptions);
        set_proposal(&mut wasm_features, Proposal::ExtendedConst, self.extended_const);
        set_proposal(&mut wasm_features, Proposal::RelaxedSimd, self.relaxed_simd);
        set_capability(&mut wasm_features, Capability::MutableGlobal, true);
        set_capability(&mut wasm_features, Capability::SaturatingFloatToInt, true);
        set_capability(&mut wasm_features, Capability::Floats, true);
        set_capability(&mut wasm_features, Capability::SignExtension, true);
        set_capability(&mut wasm_features, Capability::GcTypes, true);
        set_capability(&mut wasm_features, Capability::ComponentModel, false);
        set_capability(&mut wasm_features, Capability::FunctionReferences, false);
        set_capability(&mut wasm_features, Capability::MemoryControl, false);
        set_capability(&mut wasm_features, Capability::Gc, false);
        assert(enabled_flags(wasm_features) =~= self.flags());
        wasm_features
    }
}

impl Default for Features {
    /// The feature set with all features disabled.
    fn default() -> (r: Self)
        ensures
            forall|p: Proposal| !r.has(p),
    {
        Self {
            threads: false,
            reference_types: false,
            simd: false,
            bulk_memory: false,
            multi_value: false,
            tail_call: false,
            multi_memory: false,
            memory64: false,
            exceptions: false,
            extended_const: false,
            relaxed_simd: false,
        }
    }
}

impl vstd::std_specs::convert::FromSpecImpl<Features> for wasmparser::WasmFeatures {
    /// The flags cannot be written down as a value, so the conversion is
    /// described by what `from` ensures, not by `from_spec`.
    open spec fn obeys_from_spec() -> bool {
        false
    }

    open spec fn from_spec(v: Features) -> Self {
        arbitrary()
    }
}

impl From<Features> for wasmparser::WasmFeatures {
    fn from(value: Features) -> (r: Self)
        ensures
            enabled_flags(r) == value.flags(),
    {
        value.validator_flags()
    }
}

} // verus!
