//! What can go wrong at the boundary, and where it went wrong.

use vstd::prelude::*;
use vstd::string::*;

verus! {

/// Why the codec gave up on a value or on bytes, in the codec's own words.
#[derive(Clone, Debug, PartialEq, Eq)]
pub enum CodecError {
    /// A value could not be turned into bytes.
    Serialize(String),
    /// Bytes could not be turned into a value of the wanted type.
    Deserialize(String),
}

/// A `CodecError` as a mathematical value.
pub enum CodecErrorView {
    Serialize(Seq<char>),
    Deserialize(Seq<char>),
}

impl View for CodecError {
    type V = CodecErrorView;

    open spec fn view(&self) -> CodecErrorView {
        match *self {
            CodecError::Serialize(message) => CodecErrorView::Serialize(message@),
            CodecError::Deserialize(message) => CodecErrorView::Deserialize(message@),
        }
    }
}

/// Every way in which a call across the boundary can end other than with the
/// value that the guest returned.
#[derive(Clone, Debug, PartialEq, Eq)]
pub enum Failure {
    /// A pointer or a length does not fit where it has to go.
    PointerMap,
    /// These bytes could not be turned into a value.
    Deserialize(Vec<u8>),
    /// The codec gave up.
    Serialize(CodecError),
    /// An error could not be reported because reporting it failed.
    ErrorWhileError,
    /// Bytes were read or written outside the guest's memory, or the memory
    /// could not grow.
    Memory,
    /// The guest's own logic failed, with this message.
    Guest(String),
    /// The host's own logic failed, with this message.
    Host(String),
    /// The host ended the call early. The bytes are the call's result, encoded
    /// as though the guest had returned them.
    HostShortCircuit(Vec<u8>),
    /// The guest's code could not be compiled.
    Compile(String),
    /// The engine could not run the guest's function to its end.
    CallError(String),
    /// The cache of compiled modules was used before it was set up.
    UninitializedSerializedModuleCache,
}

/// A `Failure` as a mathematical value.
pub enum FailureView {
    PointerMap,
    Deserialize(Seq<u8>),
    Serialize(CodecErrorView),
    ErrorWhileError,
    Memory,
    Guest(Seq<char>),
    Host(Seq<char>),
    HostShortCircuit(Seq<u8>),
    Compile(Seq<char>),
    CallError(Seq<char>),
    UninitializedSerializedModuleCache,
}

impl View for Failure {
    type V = FailureView;

    open spec fn view(&self) -> FailureView {
        match *self {
            Failure::PointerMap => FailureView::PointerMap,
            Failure::Deserialize(bytes) => FailureView::Deserialize(bytes@),
            Failure::Serialize(error) => FailureView::Serialize(error@),
            Failure::ErrorWhileError => FailureView::ErrorWhileError,
            Failure::Memory => FailureView::Memory,
            Failure::Guest(message) => FailureView::Guest(message@),
            Failure::Host(message) => FailureView::Host(message@),
            Failure::HostShortCircuit(bytes) => FailureView::HostShortCircuit(bytes@),
            Failure::Compile(message) => FailureView::Compile(message@),
            Failure::CallError(message) => FailureView::CallError(message@),
            Failure::UninitializedSerializedModuleCache =>
                FailureView::UninitializedSerializedModuleCache,
        }
    }
}

/// The families into which the errors fall.
#[derive(Clone, Copy, Debug, PartialEq, Eq, Structural)]
pub enum ErrorKind {
    /// A value could not be encoded.
    Serialization,
    /// Bytes could not be decoded into the wanted type.
    Deserialization,
    /// A byte range lies outside the memory, or the memory could not grow.
    Memory,
    /// The engine or the host failed while the call ran.
    Runtime,
    /// The guest's own logic reported a failure.
    Guest,
    /// No failure at all: the host answered the call early.
    ShortCircuit,
}

/// The family of an error.
pub open spec fn kind_of(error: FailureView) -> ErrorKind {
    match error {
        FailureView::PointerMap => ErrorKind::Memory,
        FailureView::Deserialize(_) => ErrorKind::Deserialization,
        FailureView::Serialize(CodecErrorView::Serialize(_)) => ErrorKind::Serialization,
        FailureView::Serialize(CodecErrorView::Deserialize(_)) => ErrorKind::Deserialization,
        FailureView::ErrorWhileError => ErrorKind::Runtime,
        FailureView::Memory => ErrorKind::Memory,
        FailureView::Guest(_) => ErrorKind::Guest,
        FailureView::Host(_) => ErrorKind::Runtime,
        FailureView::HostShortCircuit(_) => ErrorKind::ShortCircuit,
        FailureView::Compile(_) => ErrorKind::Runtime,
        FailureView::CallError(_) => ErrorKind::Runtime,
        FailureView::UninitializedSerializedModuleCache => ErrorKind::Runtime,
    }
}

/// Whether a guest in whose call this error came up may be left in a state
/// that cannot be relied on. Such a guest is not to be called again.
///
/// Bytes that do not decode, a value that does not encode, and errors that the
/// guest or the host raised in their own logic leave the guest as it was. A
/// bad pointer, a failed memory access and a run that the engine could not
/// finish do not.
pub open spec fn may_corrupt(error: FailureView) -> bool {
    match error {
        FailureView::PointerMap => true,
        FailureView::Deserialize(_) => false,
        FailureView::Serialize(_) => false,
        FailureView::ErrorWhileError => true,
        FailureView::Memory => true,
        FailureView::Guest(_) => false,
        FailureView::Host(_) => false,
        FailureView::HostShortCircuit(_) => false,
        FailureView::Compile(_) => true,
        FailureView::CallError(_) => true,
        FailureView::UninitializedSerializedModuleCache => true,
    }
}

impl Failure {
    /// Whether the guest is not to be called again after this error.
    pub fn maybe_corrupt(&self) -> (corrupt: bool)
        ensures
            corrupt == may_corrupt(self@),
    {
        match self {
            Failure::PointerMap => true,
            Failure::Deserialize(_) => false,
            Failure::Serialize(_) => false,
            Failure::ErrorWhileError => true,
            Failure::Memory => true,
            Failure::Guest(_) => false,
            Failure::Host(_) => false,
            Failure::HostShortCircuit(_) => false,
            Failure::Compile(_) => true,
            Failure::CallError(_) => true,
            Failure::UninitializedSerializedModuleCache => true,
        }
    }

    /// The family that this error falls into.
    pub fn kind(&self) -> (kind: ErrorKind)
        ensures
            kind == kind_of(self@),
    {
        match self {
            Failure::PointerMap => ErrorKind::Memory,
            Failure::Deserialize(_) => ErrorKind::Deserialization,
            Failure::Serialize(CodecError::Serialize(_)) => ErrorKind::Serialization,
            Failure::Serialize(CodecError::Deserialize(_)) => ErrorKind::Deserialization,
            Failure::ErrorWhileError => ErrorKind::Runtime,
            Failure::Memory => ErrorKind::Memory,
            Failure::Guest(_) => ErrorKind::Guest,
            Failure::Host(_) => ErrorKind::Runtime,
            Failure::HostShortCircuit(_) => ErrorKind::ShortCircuit,
            Failure::Compile(_) => ErrorKind::Runtime,
            Failure::CallError(_) => ErrorKind::Runtime,
            Failure::UninitializedSerializedModuleCache => ErrorKind::Runtime,
        }
    }
}

/// An error together with the source position at which it was first raised.
#[derive(Clone, Debug, PartialEq, Eq)]
pub struct BoundaryError {
    /// The source file in which the error was raised.
    pub file: String,
    /// The line of that file.
    pub line: u32,
    /// What went wrong.
    pub error: Failure,
}

/// A `BoundaryError` as a mathematical value.
pub struct BoundaryErrorView {
    pub file: Seq<char>,
    pub line: u32,
    pub error: FailureView,
}

impl View for BoundaryError {
    type V = BoundaryErrorView;

    open spec fn view(&self) -> BoundaryErrorView {
        BoundaryErrorView { file: self.file@, line: self.line, error: self.error@ }
    }
}

/// The name under which this library raises its own errors.
pub const HOST_ORIGIN: &'static str = "wasm_boundary";

/// What `raise` returns for an error: the error itself, raised by this library.
pub open spec fn raised(error: FailureView) -> BoundaryErrorView {
    BoundaryErrorView { file: HOST_ORIGIN@, line: 0, error }
}

/// Raises an error in the name of this library. The library cannot know the
/// line of its own source that it runs, so the line is zero.
pub fn raise(error: Failure) -> (raised_error: BoundaryError)
    ensures
        raised_error@ == raised(error@),
{
    BoundaryError { file: String::from_str(HOST_ORIGIN), line: 0, error }
}

impl BoundaryError {
    /// The family that this error falls into.
    pub fn kind(&self) -> (kind: ErrorKind)
        ensures
            kind == kind_of(self@.error),
    {
        self.error.kind()
    }
}

} // verus!
