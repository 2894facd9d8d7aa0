//! What holds of the boundary as a whole, beyond what each function promises
//! for itself.

use crate::codec::decoded_reply;
use crate::codec::decoded_text;
use crate::codec::encoded_reply;
use crate::codec::encoded_text;
use crate::dispatch::call_result;
use crate::dispatch::InvocationView;
use crate::engine::overwritten;
use crate::engine::PAGE_SIZE;
use crate::error::kind_of;
use crate::error::may_corrupt;
use crate::error::BoundaryErrorView;
use crate::error::CodecErrorView;
use crate::error::ErrorKind;
use crate::error::FailureView;
use crate::host::host_processed;
use crate::host::process_string_reply;
use crate::host::short_circuit_answer;
use crate::host::short_circuit_error;
use crate::marshal::fetched;
use crate::marshal::placed_at;
use crate::marshal::placement;
use crate::marshal::placement_of;
use crate::marshal::reply_at;
use crate::marshal::text_at;
use crate::memory::byte_range;
use crate::memory::writable;
use crate::memory::GuestMemory;
use crate::pair::lemma_encode_of_decode;
use crate::pair::word_len;
use crate::pair::word_ptr;
use crate::pair::GuestPtrLen;
use vstd::prelude::*;

verus! {

/// Whether the codec can carry a text: it has bytes for it, and it reads the
/// same text out of those bytes.
pub open spec fn representable(text: Seq<char>) -> bool {
    encoded_text(text) matches Ok(bytes) && decoded_text(bytes) == Ok::<Seq<char>, CodecErrorView>(
        text,
    )
}

/// Whether the codec can carry a reply: it has bytes for it, and it reads the
/// same reply out of those bytes.
pub open spec fn representable_reply(reply: Result<Seq<char>, BoundaryErrorView>) -> bool {
    encoded_reply(reply) matches Ok(bytes) && decoded_reply(bytes) == Ok::<
        Result<Seq<char>, BoundaryErrorView>,
        CodecErrorView,
    >(reply)
}

/// Bytes that were placed are read back byte for byte at the word that
/// placing them returned, however many pages they fill.
pub proof fn lemma_placed_bytes_are_fetched(
    before: GuestMemory,
    after: GuestMemory,
    bytes: Seq<u8>,
    word: GuestPtrLen,
)
    requires
        placed_at(before, after, bytes, word),
    ensures
        fetched(after@, word) == Ok::<Seq<u8>, BoundaryErrorView>(bytes),
{
}

/// A text that the codec can carry comes back as it went in: reading at the
/// word that writing returned gives the text that was written.
pub proof fn lemma_value_round_trip(
    before: GuestMemory,
    after: GuestMemory,
    value: Seq<char>,
    word: GuestPtrLen,
)
    requires
        representable(value),
        placed_at(before, after, encoded_text(value)->Ok_0, word),
    ensures
        text_at(after@, word) == Ok::<Seq<char>, BoundaryErrorView>(value),
{
}

/// A reply that the codec can carry comes back as it went in, be it a text
/// or an error with its position.
pub proof fn lemma_reply_round_trip(
    before: GuestMemory,
    after: GuestMemory,
    reply: Result<Seq<char>, BoundaryErrorView>,
    word: GuestPtrLen,
)
    requires
        representable_reply(reply),
        placed_at(before, after, encoded_reply(reply)->Ok_0, word),
    ensures
        reply_at(after@, word) == Ok::<
            Result<Seq<char>, BoundaryErrorView>,
            BoundaryErrorView,
        >(reply),
{
}

/// Bytes that were placed stay where they are and what they are when other
/// bytes are placed after them: nothing that was handed out is handed out
/// again, moved or overwritten by a later placement.
pub proof fn lemma_placed_bytes_stay(
    before: GuestMemory,
    between: GuestMemory,
    after: GuestMemory,
    first: Seq<u8>,
    first_word: GuestPtrLen,
    second: Seq<u8>,
    second_word: GuestPtrLen,
)
    requires
        placed_at(before, between, first, first_word),
        placed_at(between, after, second, second_word),
    ensures
        fetched(after@, first_word) == Ok::<Seq<u8>, BoundaryErrorView>(first),
        byte_range(word_ptr(first_word), word_len(first_word)).disjoint(
            byte_range(word_ptr(second_word), word_len(second_word)),
        ),
{
    let ptr = word_ptr(first_word);
    let len = word_len(first_word);
    assert forall|address: int| byte_range(ptr, len).contains(address) implies !byte_range(
        word_ptr(second_word),
        word_len(second_word),
    ).contains(address) by {
        assert(between.handed_out().contains(address));
    }
    assert forall|address: int| ptr <= address < ptr + len implies #[trigger] after@[address]
        == between@[address] by {
        assert(byte_range(ptr, len).contains(address));
    }
    assert(after@.subrange(ptr, ptr + len) =~= between@.subrange(ptr, ptr + len));
}

/// Writing bytes over bytes changes no size: only growth changes the number
/// of pages, and a memory never shrinks.
pub proof fn lemma_overwriting_keeps_size(bytes: Seq<u8>, guest_ptr: int, data: Seq<u8>)
    requires
        writable(bytes.len(), guest_ptr, data.len() as int),
    ensures
        overwritten(bytes, guest_ptr, data).len() == bytes.len(),
        overwritten(bytes, guest_ptr, data).subrange(guest_ptr, guest_ptr + data.len()) == data,
        forall|address: int|
            0 <= address < bytes.len() && !byte_range(guest_ptr, data.len() as int).contains(
                address,
            ) ==> overwritten(bytes, guest_ptr, data)[address] == bytes[address],
{
    assert(overwritten(bytes, guest_ptr, data).subrange(guest_ptr, guest_ptr + data.len())
        =~= data);
}

/// The size query has one answer for one memory: asked twice with nothing
/// placed in between, it answers the same number of pages twice.
pub proof fn lemma_size_query_is_idempotent(memory: GuestMemory, first: u32, second: u32)
    requires
        first == memory.pages(),
        second == memory.pages(),
    ensures
        first == second,
{
}

/// An early answer of the host is the result of the call whatever the guest's
/// memory holds, and so whatever the guest would have returned: the result is
/// what the codec reads out of the answer's bytes.
pub proof fn lemma_short_circuit_takes_precedence(
    memory: Seq<u8>,
    other_memory: Seq<u8>,
    file: Seq<char>,
    line: u32,
    payload: Seq<u8>,
)
    ensures
        call_result(
            memory,
            InvocationView::Raised(
                BoundaryErrorView { file, line, error: FailureView::HostShortCircuit(payload) },
            ),
        ) == call_result(
            other_memory,
            InvocationView::Raised(
                BoundaryErrorView { file, line, error: FailureView::HostShortCircuit(payload) },
            ),
        ),
        decoded_text(payload) matches Ok(text) ==> call_result(
            memory,
            InvocationView::Raised(
                BoundaryErrorView { file, line, error: FailureView::HostShortCircuit(payload) },
            ),
        ) == Ok::<Seq<char>, BoundaryErrorView>(text),
{
}

/// A call during which `short_circuit` was raised succeeds with the answer
/// that `short_circuit` carries, where the codec can carry that answer.
pub proof fn lemma_short_circuit_answers(memory: Seq<u8>)
    requires
        representable(short_circuit_answer()),
    ensures
        call_result(memory, InvocationView::Raised(short_circuit_error())) == Ok::<
            Seq<char>,
            BoundaryErrorView,
        >(short_circuit_answer()),
{
}

/// A run that the engine could not finish is a failure of the runtime kind,
/// whatever the guest's memory holds, and the guest is not to be called
/// again.
pub proof fn lemma_trap_is_a_runtime_failure(memory: Seq<u8>, message: Seq<char>)
    ensures
        call_result(memory, InvocationView::Trapped(message)) matches Err(error) && kind_of(
            error.error,
        ) == ErrorKind::Runtime && may_corrupt(error.error),
{
}

/// An error that the guest returned in its reply is the error of the call,
/// with its message, its file and its line as the guest raised them.
pub proof fn lemma_guest_error_is_preserved(
    memory: Seq<u8>,
    word: GuestPtrLen,
    error: BoundaryErrorView,
)
    requires
        reply_at(memory, word) == Ok::<Result<Seq<char>, BoundaryErrorView>, BoundaryErrorView>(
            Err(error),
        ),
    ensures
        call_result(memory, InvocationView::Returned(word)) == Err::<
            Seq<char>,
            BoundaryErrorView,
        >(error),
{
}

/// An error that the host raised while the guest ran is the error of the
/// call as it stands, unless it is an early answer.
pub proof fn lemma_host_error_is_preserved(memory: Seq<u8>, error: BoundaryErrorView)
    requires
        !(error.error is HostShortCircuit),
    ensures
        call_result(memory, InvocationView::Raised(error)) == Err::<Seq<char>, BoundaryErrorView>(
            error,
        ),
{
}

/// A call that hands a text to `test_process_string` and returns what the
/// host answered ends with the text marked by the host, where the codec can
/// carry the text and the reply.
pub proof fn lemma_processed_text_comes_back(
    before: GuestMemory,
    between: GuestMemory,
    after: GuestMemory,
    text: Seq<char>,
    argument: GuestPtrLen,
    returned: GuestPtrLen,
)
    requires
        representable(text),
        representable_reply(Ok(host_processed(text))),
        placed_at(before, between, encoded_text(text)->Ok_0, argument),
        placement_of(
            between,
            after,
            encoded_reply(
                process_string_reply(between@, word_ptr(argument) as u32, word_len(argument) as u32),
            ),
            Ok::<GuestPtrLen, BoundaryErrorView>(returned),
        ),
    ensures
        call_result(after@, InvocationView::Returned(returned)) == Ok::<
            Seq<char>,
            BoundaryErrorView,
        >(host_processed(text)),
{
    lemma_encode_of_decode(argument);
}

/// Placing bytes never takes pages away: a memory only grows.
pub proof fn lemma_memory_only_grows(
    before: GuestMemory,
    after: GuestMemory,
    bytes: Seq<u8>,
    word: Result<GuestPtrLen, BoundaryErrorView>,
)
    requires
        placement(before, after, bytes, word),
    ensures
        after.pages() >= before.pages(),
        after@.len() >= before@.len(),
{
    let size = PAGE_SIZE as int;
    let small = before@.len() as int;
    let large = after@.len() as int;
    assert(small / size <= large / size) by (nonlinear_arith)
        requires
            0 <= small <= large,
            size > 0,
    ;
}

} // verus!
