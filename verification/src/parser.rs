//! The WebAssembly parser: validation of the bytes, then the routing of what
//! was read from them into a model, section by section.

use crate::decoded::module::{ByteRange, Encoding, Payload};
use crate::errors::{ErrorKind, WasmarinError};
use crate::features::{enabled_flags, Features, Flag};
use crate::model::{CodeSectionEntry, Model, ModelView};
use vstd::prelude::*;

verus! {

/// `wasmparser::BinaryReaderError`: what the validator returns for a module
/// that it refuses. Nothing of it is read but its text.
#[verifier::external_type_specification]
#[verifier::external_body]
pub struct ExBinaryReaderError(wasmparser::BinaryReaderError);

/// Whether a validator that is made with exactly the flags `flags` accepts
/// the bytes `data` as a module.
pub uninterp spec fn accepted_by_validator(flags: Set<Flag>, data: Seq<u8>) -> bool;

/// `Validator::new_with_features` and `Validator::validate_all`: validates the
/// whole of `data` with a validator made with `features`. The outcome depends
/// on the flags and the bytes alone; what it is, is left to the validator.
#[verifier::external_body]
fn run_validator(features: wasmparser::WasmFeatures, data: &[u8]) -> (r: Result<
    (),
    wasmparser::BinaryReaderError,
>)
    ensures
        r is Ok <==> accepted_by_validator(enabled_flags(features), data@),
{
    match wasmparser::Validator::new_with_features(features).validate_all(data) {
        Ok(_) => Ok(()),
        Err(error) => Err(error),
    }
}

/// `to_string` of a `BinaryReaderError`: the words of the error, with the
/// offset at which it arose. Nothing is claimed of the text.
#[verifier::external_body]
fn error_text(error: &wasmparser::BinaryReaderError) -> (r: String) {
    error.to_string()
}

/// Whether the validator accepts `data` as a module under `features`: with
/// each proposal as `features` has it, the forced capabilities on and every
/// other flag off.
pub open spec fn valid_under(features: Features, data: Seq<u8>) -> bool {
    accepted_by_validator(features.flags(), data)
}

/// What was read from a module, one step at a time: a payload, or the words
/// of the reader where the bytes of the step could not be read.
pub type Step = Result<Payload, String>;

/// The section id and the range of a payload that the parser does not
/// handle: the data count section, the sections of components, and sections
/// of an unknown id.
pub open spec fn unsupported_section(payload: Payload) -> Option<(u8, ByteRange)> {
    match payload {
        Payload::DataCountSection { count, range } => Some((12u8, range)),
        Payload::ModuleSection { range } => Some((1u8, range)),
        Payload::InstanceSection { range } => Some((2u8, range)),
        Payload::CoreTypeSection { range } => Some((3u8, range)),
        Payload::ComponentSection { range } => Some((4u8, range)),
        Payload::ComponentInstanceSection { range } => Some((5u8, range)),
        Payload::ComponentAliasSection { range } => Some((6u8, range)),
        Payload::ComponentTypeSection { range } => Some((7u8, range)),
        Payload::ComponentCanonicalSection { range } => Some((8u8, range)),
        Payload::ComponentStartSection { range } => Some((9u8, range)),
        Payload::ComponentImportSection { range } => Some((10u8, range)),
        Payload::ComponentExportSection { range } => Some((11u8, range)),
        Payload::UnknownSection { id, range } => Some((id, range)),
        _ => None,
    }
}

/// The failure that a step amounts to, if it is one.
pub open spec fn failure_of(step: Step) -> Option<ErrorKind> {
    match step {
        Err(_) => Some(ErrorKind::Decode),
        Ok(payload) => match unsupported_section(payload) {
            Some((id, range)) => Some(ErrorKind::UnsupportedSection { id, range }),
            None => None,
        },
    }
}

/// The model after one more payload: the items of a section are appended to
/// the collection of their kind, in their order; a function body becomes one
/// more code entry; a custom section is kept with its name and bytes; the
/// start function is recorded; everything else leaves the model as it is.
pub open spec fn accepted(model: ModelView, payload: Payload) -> ModelView {
    match payload {
        Payload::TypeSection(items) => ModelView { rec_groups: model.rec_groups + items@, ..model },
        Payload::ImportSection(items) => ModelView { imports: model.imports + items@, ..model },
        Payload::FunctionSection(items) => ModelView {
            function_indexes: model.function_indexes + items@,
            ..model
        },
        Payload::TableSection(items) => ModelView { tables: model.tables + items@, ..model },
        Payload::MemorySection(items) => ModelView {
            memory_types: model.memory_types + items@,
            ..model
        },
        Payload::TagSection(items) => ModelView { tag_types: model.tag_types + items@, ..model },
        Payload::GlobalSection(items) => ModelView { globals: model.globals + items@, ..model },
        Payload::ExportSection(items) => ModelView { exports: model.exports + items@, ..model },
        Payload::StartSection { func, range } => ModelView {
            start_function_index: Some(func),
            ..model
        },
        Payload::ElementSection(items) => ModelView { elements: model.elements + items@, ..model },
        Payload::DataSection(items) => ModelView { data: model.data + items@, ..model },
        Payload::CodeSectionEntry(body) => ModelView {
            code_section_entries: model.code_section_entries.push(
                CodeSectionEntry { locals: body.locals, operators: body.operators },
            ),
            ..model
        },
        Payload::CustomSection { name, data } => ModelView {
            custom_sections: model.custom_sections.push((name, data)),
            ..model
        },
        _ => model,
    }
}

/// The model that the payloads among `steps` add up to, from an empty one.
pub open spec fn routed(steps: Seq<Step>) -> ModelView
    decreases steps.len(),
{
    if steps.len() == 0 {
        ModelView::empty()
    } else {
        match steps.last() {
            Ok(payload) => accepted(routed(steps.drop_last()), payload),
            Err(_) => routed(steps.drop_last()),
        }
    }
}

/// The position of the first step that is a failure, if there is one.
pub open spec fn first_failure(steps: Seq<Step>) -> Option<int>
    decreases steps.len(),
{
    if steps.len() == 0 {
        None
    } else {
        match first_failure(steps.drop_last()) {
            Some(i) => Some(i),
            None => if failure_of(steps.last()) is Some {
                Some(steps.len() - 1)
            } else {
                None
            },
        }
    }
}

/// What the header of a module says.
pub struct Header {
    pub version: u16,
    pub encoding: Encoding,
    pub range: ByteRange,
}

/// The header that is on record after one more payload: what the payload
/// says where it is a header, else what was on record before.
pub open spec fn header_after(before: Header, payload: Payload) -> Header {
    match payload {
        Payload::Version { num, encoding, range } => Header { version: num, encoding, range },
        _ => before,
    }
}

/// The header that is on record after the payloads among `steps`, where
/// `before` was on record before them.
pub open spec fn recorded(before: Header, steps: Seq<Step>) -> Header
    decreases steps.len(),
{
    if steps.len() == 0 {
        before
    } else {
        match steps.last() {
            Ok(payload) => header_after(recorded(before, steps.drop_last()), payload),
            Err(_) => recorded(before, steps.drop_last()),
        }
    }
}

/// The first failure lies among the steps, is a failure, and no step before
/// it is one; where there is none, no step is a failure.
pub proof fn lemma_first_failure(steps: Seq<Step>)
    ensures
        match first_failure(steps) {
            Some(i) => {
                &&& 0 <= i < steps.len()
                &&& failure_of(steps[i]) is Some
                &&& forall|j: int| 0 <= j < i ==> failure_of(#[trigger] steps[j]) is None
            },
            None => forall|j: int| 0 <= j < steps.len() ==> failure_of(#[trigger] steps[j]) is None,
        },
    decreases steps.len(),
{
    if steps.len() > 0 {
        lemma_first_failure(steps.drop_last());
        assert forall|j: int| 0 <= j < steps.len() - 1 implies steps.drop_last()[j]
            == steps[j] by {}
    }
}

/// Where no step before position `i` is a failure and the step there is one,
/// it is the first failure.
pub proof fn lemma_first_failure_found(steps: Seq<Step>, i: int)
    requires
        0 <= i < steps.len(),
        first_failure(steps.take(i)) is None,
        failure_of(steps[i]) is Some,
    ensures
        first_failure(steps) == Some(i),
    decreases steps.len(),
{
    if steps.len() == i + 1 {
        assert(steps.drop_last() == steps.take(i));
    } else {
        assert(steps.drop_last().take(i) == steps.take(i));
        lemma_first_failure_found(steps.drop_last(), i);
    }
}

/// What parsing `steps` comes to, with `before` on record at the start and
/// `after` at the end. Without a failure among the steps: the model that
/// they add up to. Otherwise: the error of the first failure, which for
/// bytes that could not be read carries the reader's words; the record then
/// stands as the steps before the failure left it.
pub open spec fn parsed(
    before: Header,
    steps: Seq<Step>,
    after: Header,
    result: Result<Model, WasmarinError>,
) -> bool {
    match first_failure(steps) {
        None => {
            &&& result matches Ok(model)
            &&& model@ == routed(steps)
            &&& after == recorded(before, steps)
        },
        Some(i) => {
            &&& result matches Err(error)
            &&& Some(error.kind) == failure_of(steps[i])
            &&& steps[i] matches Err(message) ==> error.message == message
            &&& after == recorded(before, steps.take(i))
        },
    }
}

/// The WebAssembly parser.
pub struct Parser {
    /// The version number found in the WASM file header.
    version: u16,
    /// The WebAssembly encoding format.
    encoding: Encoding,
    /// The WebAssembly header range.
    header_range: ByteRange,
}

impl Default for Parser {
    /// Creates a new parser with default settings.
    fn default() -> (r: Self)
        ensures
            r.header() == Parser::initial_header(),
    {
        Self::new()
    }
}

impl Parser {
    /// The header that the parser has on record.
    pub closed spec fn header(self) -> Header {
        Header { version: self.version, encoding: self.encoding, range: self.header_range }
    }

    /// What a new parser has on record: version zero of a module, at no range.
    pub open spec fn initial_header() -> Header {
        Header { version: 0, encoding: Encoding::Module, range: ByteRange { start: 0, end: 0 } }
    }

    /// Creates a new parser.
    pub fn new() -> (r: Self)
        ensures
            r.header() == Self::initial_header(),
    {
        Self {
            version: 0,
            encoding: Encoding::Module,
            header_range: ByteRange { start: 0, end: 0 },
        }
    }

    /// The version number on record.
    pub fn version(&self) -> (r: u16)
        ensures
            r == self.header().version,
    {
        self.version
    }

    /// The encoding on record.
    pub fn encoding(&self) -> (r: Encoding)
        ensures
            r == self.header().encoding,
    {
        self.encoding
    }

    /// The range of the header on record.
    pub fn header_range(&self) -> (r: ByteRange)
        ensures
            r == self.header().range,
    {
        self.header_range
    }

    /// What the validator's word on a module comes to: nothing where it
    /// accepts the module, else its words as `ErrorKind::Validation`.
    pub fn validated(outcome: Result<(), String>) -> (r: Result<(), WasmarinError>)
        ensures
            match outcome {
                Ok(()) => r is Ok,
                Err(message) => {
                    &&& r matches Err(error)
                    &&& error.kind == ErrorKind::Validation
                    &&& error.message == message
                },
            },
    {
        match outcome {
            Ok(()) => Ok(()),
            Err(message) => Err(WasmarinError::validation(message)),
        }
    }

    /// Asks the validator whether `data` is a valid module under `features`:
    /// nothing where it is, else the validator's words.
    fn ask_validator(data: &[u8], features: Features) -> (r: Result<(), String>)
        ensures
            r is Ok <==> valid_under(features, data@),
    {
        match run_validator(features.validator_flags(), data) {
            Ok(()) => Ok(()),
            Err(error) => Err(error_text(&error)),
        }
    }

    /// Validates `data` against the requested WebAssembly features: nothing
    /// where the validator accepts the module under them, else its words as
    /// `ErrorKind::Validation`.
    pub fn validate(data: &[u8], features: Features) -> (r: Result<(), WasmarinError>)
        ensures
            r is Ok <==> valid_under(features, data@),
            r matches Err(error) ==> error.kind == ErrorKind::Validation,
    {
        Self::validated(Self::ask_validator(data, features))
    }

    /// Routes the payloads of a module into a new model, in their order. The
    /// first step that is a failure ends the parse, and no model is returned.
    pub fn parse_payloads(&mut self, steps: Vec<Step>) -> (r: Result<Model, WasmarinError>)
        ensures
            parsed(old(self).header(), steps@, final(self).header(), r),
    {
        let mut model = Model::default();
        let ghost all = steps@;
        for step in it: steps
            invariant
                it.seq() == all,
                first_failure(all.take(it.index() as int)) is None,
                model@ == routed(all.take(it.index() as int)),
                self.header() == recorded(old(self).header(), all.take(it.index() as int)),
        {
            let ghost i = it.index() as int;
            proof {
                assert(all.take(i + 1).drop_last() == all.take(i));
                assert(all.take(i + 1).last() == step);
            }
            match step {
                Err(message) => {
                    proof {
                        lemma_first_failure_found(all, i);
                    }
                    return Err(WasmarinError::decode(message));
                },
                Ok(payload) => {
                    match self.accept(&mut model, payload) {
                        Ok(()) => {},
                        Err(error) => {
                            proof {
                                lemma_first_failure_found(all, i);
                            }
                            return Err(error);
                        },
                    }
                },
            }
        }
        assert(all.take(all.len() as int) == all);
        Ok(model)
    }

    /// Parses a module of which the validator has spoken: refused, it gives
    /// the validator's words as `ErrorKind::Validation` and reads nothing;
    /// accepted, it is parsed as [`Parser::parse_payloads`] does.
    pub fn parse_validated(&mut self, validation: Result<(), String>, steps: Vec<Step>) -> (r:
        Result<Model, WasmarinError>)
        ensures
            match validation {
                Err(message) => {
                    &&& r matches Err(error)
                    &&& error.kind == ErrorKind::Validation
                    &&& error.message == message
                    &&& *final(self) == *old(self)
                },
                Ok(()) => parsed(old(self).header(), steps@, final(self).header(), r),
            },
    {
        match Self::validated(validation) {
            Err(error) => Err(error),
            Ok(()) => self.parse_payloads(steps),
        }
    }

    /// Parses WASM binary: validates `data` under `features` first, then
    /// routes `steps`, which are what was read from `data`, into a model. A
    /// module that the validator refuses gives `ErrorKind::Validation`, and
    /// nothing of it is read.
    pub fn parse_wasm_bytes(&mut self, data: &[u8], features: Features, steps: Vec<Step>) -> (r:
        Result<Model, WasmarinError>)
        ensures
            if valid_under(features, data@) {
                parsed(old(self).header(), steps@, final(self).header(), r)
            } else {
                &&& r matches Err(error)
                &&& error.kind == ErrorKind::Validation
                &&& *final(self) == *old(self)
            },
    {
        self.parse_validated(Self::ask_validator(data, features), steps)
    }

    /// Routes one payload into `model`, or fails where the payload is of a
    /// kind that is not handled.
    pub fn accept(&mut self, model: &mut Model, payload: Payload) -> (r: Result<(), WasmarinError>)
        ensures
            r is Ok <==> unsupported_section(payload) is None,
            r is Ok ==> {
                &&& final(model)@ == accepted(old(model)@, payload)
                &&& final(self).header() == header_after(old(self).header(), payload)
            },
            r matches Err(error) ==> {
                &&& unsupported_section(payload) matches Some((id, range))
                &&& error.kind == (ErrorKind::UnsupportedSection { id, range })
                &&& *final(model) == *old(model)
                &&& *final(self) == *old(self)
            },
    {
        match payload {
            Payload::Version { num, encoding, range } => {
                self.version = num;
                self.encoding = encoding;
                self.header_range = range;
            },
            Payload::TypeSection(mut items) => {
                model.rec_groups.append(&mut items);
            },
            Payload::ImportSection(mut items) => {
                model.imports.append(&mut items);
            },
            Payload::FunctionSection(mut items) => {
                model.function_indexes.append(&mut items);
            },
            Payload::TableSection(mut items) => {
                model.tables.append(&mut items);
            },
            Payload::MemorySection(mut items) => {
                model.memory_types.append(&mut items);
            },
            Payload::TagSection(mut items) => {
                model.tag_types.append(&mut items);
            },
            Payload::GlobalSection(mut items) => {
                model.globals.append(&mut items);
            },
            Payload::ExportSection(mut items) => {
                model.exports.append(&mut items);
            },
            Payload::StartSection { func, range: _ } => {
                model.start_function_index = Some(func);
            },
            Payload::ElementSection(mut items) => {
                model.elements.append(&mut items);
            },
            Payload::DataCountSection { count: _, range } => {
                return Err(WasmarinError::unsupported_section(12, range));
            },
            Payload::DataSection(mut items) => {
                model.data.append(&mut items);
            },
            Payload::CodeSectionStart { count: _, range: _, size: _ } => {},
            Payload::CodeSectionEntry(body) => {
                model.code_section_entries.push(
                    CodeSectionEntry { locals: body.locals, operators: body.operators },
                );
            },
            Payload::ModuleSection { range } => {
                return Err(WasmarinError::unsupported_section(1, range));
            },
            Payload::InstanceSection { range } => {
                return Err(WasmarinError::unsupported_section(2, range));
            },
            Payload::CoreTypeSection { range } => {
                return Err(WasmarinError::unsupported_section(3, range));
            },
            Payload::ComponentSection { range } => {
                return Err(WasmarinError::unsupported_section(4, range));
            },
            Payload::ComponentInstanceSection { range } => {
                return Err(WasmarinError::unsupported_section(5, range));
            },
            Payload::ComponentAliasSection { range } => {
                return Err(WasmarinError::unsupported_section(6, range));
            },
            Payload::ComponentTypeSection { range } => {
                return Err(WasmarinError::unsupported_section(7, range));
            },
            Payload::ComponentCanonicalSection { range } => {
                return Err(WasmarinError::unsupported_section(8, range));
            },
            Payload::ComponentStartSection { range } => {
                return Err(WasmarinError::unsupported_section(9, range));
            },
            Payload::ComponentImportSection { range } => {
                return Err(WasmarinError::unsupported_section(10, range));
            },
            Payload::ComponentExportSection { range } => {
                return Err(WasmarinError::unsupported_section(11, range));
            },
            Payload::CustomSection { name, data } => {
                model.custom_sections.push((name, data));
            },
            Payload::UnknownSection { id, range } => {
                return Err(WasmarinError::unsupported_section(id, range));
            },
            Payload::End(_) => {},
        }
        Ok(())
    }
}

} // verus!
