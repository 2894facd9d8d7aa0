//! Moving values into and out of guest memory: a value becomes bytes, the
//! bytes get room in the memory, and the place of the bytes is packed into
//! one word.

use crate::codec::decode_reply;
use crate::codec::decode_text;
use crate::codec::decoded_reply;
use crate::codec::decoded_text;
use crate::codec::encode_reply;
use crate::codec::encode_text;
use crate::codec::encode_unit;
use crate::codec::encoded_reply;
use crate::codec::encoded_text;
use crate::codec::reply_view;
use crate::codec::unit_bytes;
use crate::engine::in_bounds;
use crate::error::raise;
use crate::error::raised;
use crate::error::BoundaryError;
use crate::error::BoundaryErrorView;
use crate::error::CodecErrorView;
use crate::error::Failure;
use crate::error::FailureView;
use crate::memory::byte_range;
use crate::memory::GuestMemory;
use crate::pair::decode_pair;
use crate::pair::encode_pair;
use crate::pair::lemma_decode_of_encode;
use crate::pair::word_len;
use crate::pair::word_ptr;
use crate::pair::GuestPtrLen;
use vstd::prelude::*;

verus! {

/// A packed word, or the error in its place, as a mathematical value.
pub open spec fn word_view(word: Result<GuestPtrLen, BoundaryError>) -> Result<
    GuestPtrLen,
    BoundaryErrorView,
> {
    match word {
        Ok(word) => Ok(word),
        Err(error) => Err(error@),
    }
}

/// Bytes, or the error in their place, as a mathematical value.
pub open spec fn bytes_view(bytes: Result<Vec<u8>, BoundaryError>) -> Result<
    Seq<u8>,
    BoundaryErrorView,
> {
    match bytes {
        Ok(bytes) => Ok(bytes@),
        Err(error) => Err(error@),
    }
}

/// Whether a memory is what it was: the same bytes, the same addresses handed
/// out, the same room at the same place, the same maximum.
pub open spec fn untouched(before: GuestMemory, after: GuestMemory) -> bool {
    &&& after@ == before@
    &&& after.handed_out() == before.handed_out()
    &&& after.room() == before.room()
    &&& after.cursor() == before.cursor()
    &&& after.maximum() == before.maximum()
}

/// Whether `word` is the place at which `bytes` were put into a memory that
/// was `before` and is now `after`: the word carries their length and the
/// address that was next to be handed out, the bytes stand there inside the
/// memory, their addresses were handed out by this step and not earlier, and
/// every other byte that the memory held is what it was.
pub open spec fn placed_at(
    before: GuestMemory,
    after: GuestMemory,
    bytes: Seq<u8>,
    word: GuestPtrLen,
) -> bool {
    &&& word_len(word) == bytes.len()
    &&& word_ptr(word) == before.next_place(bytes.len() as int)
    &&& after.cursor() == word_ptr(word) + word_len(word)
    &&& after.room() == before.room_after(bytes.len() as int)
    &&& in_bounds(after@.len(), word_ptr(word), word_len(word))
    &&& after@.subrange(word_ptr(word), word_ptr(word) + word_len(word)) == bytes
    &&& byte_range(word_ptr(word), word_len(word)).disjoint(before.handed_out())
    &&& after.handed_out() == before.handed_out().union(
        byte_range(word_ptr(word), word_len(word)),
    )
    &&& after@.len() >= before@.len()
    &&& after.maximum() == before.maximum()
    &&& bytes.len() > before.room() ==> before.may_grow_for(bytes.len() as int)
    &&& forall|address: int|
        0 <= address < before@.len() && !byte_range(word_ptr(word), word_len(word)).contains(
            address,
        ) ==> after@[address] == before@[address]
}

/// What `place` may have done with `bytes`.
///
/// More bytes than a length can count get no place. Any other bytes get one
/// unless the memory had no room for them and could not grow: in a memory of
/// the host's own that is decided by its maximum and by what a guest pointer
/// can address, in a memory of the engine by the engine too. Where they get
/// none, the memory is untouched.
pub open spec fn placement(
    before: GuestMemory,
    after: GuestMemory,
    bytes: Seq<u8>,
    word: Result<GuestPtrLen, BoundaryErrorView>,
) -> bool {
    if bytes.len() > u32::MAX {
        word == Err::<GuestPtrLen, BoundaryErrorView>(raised(FailureView::PointerMap))
            && untouched(before, after)
    } else {
        match word {
            Ok(word) => placed_at(before, after, bytes, word),
            Err(error) => {
                &&& error == raised(FailureView::Memory)
                &&& untouched(before, after)
                &&& bytes.len() > before.room()
                &&& before.maximum() is Some ==> !before.may_grow_for(bytes.len() as int)
            },
        }
    }
}

/// What is read at the place that `word` names in a memory of these bytes: the
/// bytes that stand there, or a memory error where the place reaches past the
/// end.
pub open spec fn fetched(memory: Seq<u8>, word: GuestPtrLen) -> Result<Seq<u8>, BoundaryErrorView> {
    if in_bounds(memory.len(), word_ptr(word), word_len(word)) {
        Ok(memory.subrange(word_ptr(word), word_ptr(word) + word_len(word)))
    } else {
        Err(raised(FailureView::Memory))
    }
}

/// Gives `bytes` room of exactly their length in the memory, writes them
/// there and returns their place as one word.
pub fn place(memory: &mut GuestMemory, bytes: &[u8]) -> (word: Result<GuestPtrLen, BoundaryError>)
    requires
        old(memory).wf(),
    ensures
        final(memory).wf(),
        placement(*old(memory), *final(memory), bytes@, word_view(word)),
{
    if bytes.len() > u32::MAX as usize {
        return Err(raise(Failure::PointerMap));
    }
    let len: u32 = bytes.len() as u32;
    let ghost before = *memory;
    let guest_ptr: u32 = match memory.allocate(len) {
        Ok(guest_ptr) => guest_ptr,
        Err(error) => {
            return Err(error);
        },
    };
    let ghost grown = *memory;
    match memory.write(guest_ptr, bytes) {
        Ok(()) => {
            let word: u64 = encode_pair(guest_ptr, len);
            proof {
                lemma_decode_of_encode(guest_ptr, len);
                assert(memory@.subrange(guest_ptr as int, guest_ptr + len) =~= bytes@);
                assert forall|address: int|
                    0 <= address < before@.len() && !byte_range(
                        guest_ptr as int,
                        len as int,
                    ).contains(address) implies memory@[address] == before@[address] by {
                    assert(grown@.subrange(0, before@.len() as int)[address] == grown@[address]);
                }
            }
            Ok(word)
        },
        // Not reached: the bytes that were just handed out lie inside the memory.
        Err(error) => Err(error),
    }
}

/// Reads the bytes at the place that `word` names.
pub fn fetch(memory: &GuestMemory, word: GuestPtrLen) -> (bytes: Result<Vec<u8>, BoundaryError>)
    requires
        memory.wf(),
    ensures
        bytes_view(bytes) == fetched(memory@, word),
{
    let (guest_ptr, len) = decode_pair(word);
    memory.read(guest_ptr, len)
}

/// A text, or the error in its place, as a mathematical value.
pub open spec fn text_view(text: Result<String, BoundaryError>) -> Result<
    Seq<char>,
    BoundaryErrorView,
> {
    reply_view(text)
}

/// A reply, or the error that kept it from being read, as a mathematical
/// value.
pub open spec fn read_reply_view(reply: Result<Result<String, BoundaryError>, BoundaryError>) -> Result<
    Result<Seq<char>, BoundaryErrorView>,
    BoundaryErrorView,
> {
    match reply {
        Ok(reply) => Ok(reply_view(reply)),
        Err(error) => Err(error@),
    }
}

/// What becomes of encoded bytes that are to be placed: where the codec gave
/// up there is nothing to place, the memory is untouched and the codec's error
/// is handed on; else the bytes are placed.
pub open spec fn placement_of(
    before: GuestMemory,
    after: GuestMemory,
    encoded: Result<Seq<u8>, CodecErrorView>,
    word: Result<GuestPtrLen, BoundaryErrorView>,
) -> bool {
    match encoded {
        Ok(bytes) => placement(before, after, bytes, word),
        Err(error) => word == Err::<GuestPtrLen, BoundaryErrorView>(
            raised(FailureView::Serialize(error)),
        ) && untouched(before, after),
    }
}

/// The text that is read at the place that `word` names: a memory error where
/// the place reaches past the end of the memory, the codec's error where the
/// bytes there hold no text.
pub open spec fn text_at(memory: Seq<u8>, word: GuestPtrLen) -> Result<Seq<char>, BoundaryErrorView> {
    match fetched(memory, word) {
        Ok(bytes) => match decoded_text(bytes) {
            Ok(text) => Ok(text),
            Err(error) => Err(raised(FailureView::Serialize(error))),
        },
        Err(error) => Err(error),
    }
}

/// The reply that is read at the place that `word` names: a memory error
/// where the place reaches past the end of the memory, the codec's error where
/// the bytes there hold no reply.
pub open spec fn reply_at(memory: Seq<u8>, word: GuestPtrLen) -> Result<
    Result<Seq<char>, BoundaryErrorView>,
    BoundaryErrorView,
> {
    match fetched(memory, word) {
        Ok(bytes) => match decoded_reply(bytes) {
            Ok(reply) => Ok(reply),
            Err(error) => Err(raised(FailureView::Serialize(error))),
        },
        Err(error) => Err(error),
    }
}

/// Encodes a text, gives the bytes room in the memory, writes them and
/// returns their place.
pub fn write_value(memory: &mut GuestMemory, value: &String) -> (word: Result<
    GuestPtrLen,
    BoundaryError,
>)
    requires
        old(memory).wf(),
    ensures
        final(memory).wf(),
        placement_of(*old(memory), *final(memory), encoded_text(value@), word_view(word)),
{
    match encode_text(value) {
        Ok(bytes) => place(memory, bytes.as_slice()),
        Err(error) => Err(raise(Failure::Serialize(error))),
    }
}

/// Reads the bytes at the place that `word` names and decodes them as a text.
pub fn read_value(memory: &GuestMemory, word: GuestPtrLen) -> (value: Result<String, BoundaryError>)
    requires
        memory.wf(),
    ensures
        text_view(value) == text_at(memory@, word),
{
    match fetch(memory, word) {
        Ok(bytes) => match decode_text(bytes.as_slice()) {
            Ok(text) => Ok(text),
            Err(error) => Err(raise(Failure::Serialize(error))),
        },
        Err(error) => Err(error),
    }
}

/// Encodes a reply, gives the bytes room in the memory, writes them and
/// returns their place.
pub fn write_reply(memory: &mut GuestMemory, reply: Result<String, BoundaryError>) -> (word: Result<
    GuestPtrLen,
    BoundaryError,
>)
    requires
        old(memory).wf(),
    ensures
        final(memory).wf(),
        placement_of(
            *old(memory),
            *final(memory),
            encoded_reply(reply_view(reply)),
            word_view(word),
        ),
{
    match encode_reply(reply) {
        Ok(bytes) => place(memory, bytes.as_slice()),
        Err(error) => Err(raise(Failure::Serialize(error))),
    }
}

/// Reads the bytes at the place that `word` names and decodes them as a reply.
pub fn read_reply(memory: &GuestMemory, word: GuestPtrLen) -> (reply: Result<
    Result<String, BoundaryError>,
    BoundaryError,
>)
    requires
        memory.wf(),
    ensures
        read_reply_view(reply) == reply_at(memory@, word),
{
    match fetch(memory, word) {
        Ok(bytes) => match decode_reply(bytes.as_slice()) {
            Ok(reply) => Ok(reply),
            Err(error) => Err(raise(Failure::Serialize(error))),
        },
        Err(error) => Err(error),
    }
}

/// Gives the one byte of the unit value room in the memory, writes it and
/// returns its place.
pub fn write_unit(memory: &mut GuestMemory) -> (word: Result<GuestPtrLen, BoundaryError>)
    requires
        old(memory).wf(),
    ensures
        final(memory).wf(),
        placement(*old(memory), *final(memory), unit_bytes(), word_view(word)),
{
    match encode_unit() {
        Ok(bytes) => place(memory, bytes.as_slice()),
        // Not reached: the codec never gives up on the unit value.
        Err(error) => Err(raise(Failure::Serialize(error))),
    }
}

} // verus!
