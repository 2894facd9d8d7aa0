//! The byte codec, as far as this library relies on it.
//!
//! Nothing in this file is proved. The codec is MessagePack as
//! `holochain_serialized_bytes` writes and reads it. What it makes of a text
//! or of a reply takes pages to say, so each such result has a name here, and
//! of a name no more is claimed than that the same input gives the same
//! output. Only the bytes of the unit value are stated.

use crate::error::BoundaryError;
use crate::error::BoundaryErrorView;
use crate::error::CodecError;
use crate::error::CodecErrorView;
use crate::error::Failure;
use holochain_serialized_bytes::SerializedBytesError;
use holochain_wasmer_common::WasmError;
use holochain_wasmer_common::WasmErrorInner;
use vstd::prelude::*;

verus! {

/// `holochain_serialized_bytes::SerializedBytesError`: why the codec gave up.
#[verifier::external_type_specification]
#[verifier::external_body]
pub struct ExSerializedBytesError(SerializedBytesError);

/// `holochain_wasmer_common::WasmError`: the form in which a `BoundaryError`
/// goes through the codec.
#[verifier::external_type_specification]
#[verifier::external_body]
pub struct ExWasmError(WasmError);

/// What the codec makes of a text: its bytes, or why it gave up.
pub uninterp spec fn encoded_text(text: Seq<char>) -> Result<Seq<u8>, CodecErrorView>;

/// What the codec reads out of bytes that should hold a text.
pub uninterp spec fn decoded_text(bytes: Seq<u8>) -> Result<Seq<char>, CodecErrorView>;

/// What the codec makes of a reply: a text, or the error that stands in its
/// place.
pub uninterp spec fn encoded_reply(reply: Result<Seq<char>, BoundaryErrorView>) -> Result<
    Seq<u8>,
    CodecErrorView,
>;

/// What the codec reads out of bytes that should hold a reply.
pub uninterp spec fn decoded_reply(bytes: Seq<u8>) -> Result<
    Result<Seq<char>, BoundaryErrorView>,
    CodecErrorView,
>;

/// The bytes of the unit value: the one byte that MessagePack calls nil.
pub open spec fn unit_bytes() -> Seq<u8> {
    seq![0xc0u8]
}

/// What the codec makes of the unit value: it never gives up on it.
pub open spec fn encoded_unit() -> Result<Seq<u8>, CodecErrorView> {
    Ok(unit_bytes())
}

/// A reply as a mathematical value.
pub open spec fn reply_view(reply: Result<String, BoundaryError>) -> Result<
    Seq<char>,
    BoundaryErrorView,
> {
    match reply {
        Ok(text) => Ok(text@),
        Err(error) => Err(error@),
    }
}

/// Encoded bytes, or the codec's error, as a mathematical value.
pub open spec fn encoded_view(encoded: Result<Vec<u8>, CodecError>) -> Result<
    Seq<u8>,
    CodecErrorView,
> {
    match encoded {
        Ok(bytes) => Ok(bytes@),
        Err(error) => Err(error@),
    }
}

/// A decoded text, or the codec's error, as a mathematical value.
pub open spec fn decoded_view(decoded: Result<String, CodecError>) -> Result<
    Seq<char>,
    CodecErrorView,
> {
    match decoded {
        Ok(text) => Ok(text@),
        Err(error) => Err(error@),
    }
}

/// A decoded reply, or the codec's error, as a mathematical value.
pub open spec fn decoded_reply_view(decoded: Result<Result<String, BoundaryError>, CodecError>) -> Result<
    Result<Seq<char>, BoundaryErrorView>,
    CodecErrorView,
> {
    match decoded {
        Ok(reply) => Ok(reply_view(reply)),
        Err(error) => Err(error@),
    }
}

/// Makes a `holochain_wasmer_common::WasmError` of an error: the form in which
/// it goes through the codec, field for field and variant for variant.
#[verifier::external_body]
pub(crate) fn wire_error(error: BoundaryError) -> WasmError {
    let inner = match error.error {
        Failure::PointerMap => WasmErrorInner::PointerMap,
        Failure::Deserialize(b) => WasmErrorInner::Deserialize(b),
        Failure::Serialize(CodecError::Serialize(m)) => WasmErrorInner::Serialize(SerializedBytesError::Serialize(m)),
        Failure::Serialize(CodecError::Deserialize(m)) => WasmErrorInner::Serialize(SerializedBytesError::Deserialize(m)),
        Failure::ErrorWhileError => WasmErrorInner::ErrorWhileError,
        Failure::Memory => WasmErrorInner::Memory,
        Failure::Guest(m) => WasmErrorInner::Guest(m),
        Failure::Host(m) => WasmErrorInner::Host(m),
        Failure::HostShortCircuit(b) => WasmErrorInner::HostShortCircuit(b),
        Failure::Compile(m) => WasmErrorInner::Compile(m),
        Failure::CallError(m) => WasmErrorInner::CallError(m),
        Failure::UninitializedSerializedModuleCache => WasmErrorInner::UninitializedSerializedModuleCache,
    };
    WasmError { file: error.file, line: error.line, error: inner }
}

/// Makes an error of a `holochain_wasmer_common::WasmError`, field for field
/// and variant for variant.
#[verifier::external_body]
pub(crate) fn host_error(error: WasmError) -> BoundaryError {
    let inner = match error.error {
        WasmErrorInner::PointerMap => Failure::PointerMap,
        WasmErrorInner::Deserialize(b) => Failure::Deserialize(b),
        WasmErrorInner::Serialize(SerializedBytesError::Serialize(m)) => Failure::Serialize(CodecError::Serialize(m)),
        WasmErrorInner::Serialize(SerializedBytesError::Deserialize(m)) => Failure::Serialize(CodecError::Deserialize(m)),
        WasmErrorInner::ErrorWhileError => Failure::ErrorWhileError,
        WasmErrorInner::Memory => Failure::Memory,
        WasmErrorInner::Guest(m) => Failure::Guest(m),
        WasmErrorInner::Host(m) => Failure::Host(m),
        WasmErrorInner::HostShortCircuit(b) => Failure::HostShortCircuit(b),
        WasmErrorInner::Compile(m) => Failure::Compile(m),
        WasmErrorInner::CallError(m) => Failure::CallError(m),
        WasmErrorInner::UninitializedSerializedModuleCache => Failure::UninitializedSerializedModuleCache,
    };
    BoundaryError { file: error.file, line: error.line, error: inner }
}

/// Makes a `CodecError` of a `holochain_serialized_bytes::SerializedBytesError`,
/// variant for variant.
#[verifier::external_body]
fn codec_error(error: SerializedBytesError) -> CodecError {
    match error {
        SerializedBytesError::Serialize(message) => CodecError::Serialize(message),
        SerializedBytesError::Deserialize(message) => CodecError::Deserialize(message),
    }
}

/// `holochain_serialized_bytes::encode` on a `String`. Claimed: the result is
/// what the codec makes of that text.
#[verifier::external_body]
pub(crate) fn encode_text(text: &String) -> (encoded: Result<Vec<u8>, CodecError>)
    ensures
        encoded_view(encoded) == encoded_text(text@),
{
    holochain_serialized_bytes::encode(text).map_err(codec_error)
}

/// `holochain_serialized_bytes::decode` into a `String`. Claimed: the result
/// is what the codec reads out of those bytes.
#[verifier::external_body]
pub(crate) fn decode_text(bytes: &[u8]) -> (decoded: Result<String, CodecError>)
    ensures
        decoded_view(decoded) == decoded_text(bytes@),
{
    holochain_serialized_bytes::decode::<[u8], String>(bytes).map_err(codec_error)
}

/// `holochain_serialized_bytes::encode` on a `Result` of a `String` or a
/// `WasmError`. Claimed: the result is what the codec makes of that reply.
#[verifier::external_body]
pub(crate) fn encode_reply(reply: Result<String, BoundaryError>) -> (encoded: Result<
    Vec<u8>,
    CodecError,
>)
    ensures
        encoded_view(encoded) == encoded_reply(reply_view(reply)),
{
    holochain_serialized_bytes::encode(&reply.map_err(wire_error)).map_err(codec_error)
}

/// `holochain_serialized_bytes::decode` into a `Result` of a `String` or a
/// `WasmError`. Claimed: the result is what the codec reads out of those
/// bytes.
#[verifier::external_body]
pub(crate) fn decode_reply(bytes: &[u8]) -> (decoded: Result<
    Result<String, BoundaryError>,
    CodecError,
>)
    ensures
        decoded_reply_view(decoded) == decoded_reply(bytes@),
{
    holochain_serialized_bytes::decode::<[u8], Result<String, WasmError>>(bytes)
        .map(|reply| reply.map_err(host_error))
        .map_err(codec_error)
}

/// `holochain_serialized_bytes::encode` on `()`. Claimed: the unit value
/// always has bytes, and they are the one byte that MessagePack calls nil.
#[verifier::external_body]
pub(crate) fn encode_unit() -> (encoded: Result<Vec<u8>, CodecError>)
    ensures
        encoded_view(encoded) == encoded_unit(),
{
    holochain_serialized_bytes::encode(&()).map_err(codec_error)
}

} // verus!
