//! One call into the guest from beginning to end: the argument is encoded
//! into the guest's memory, the engine runs the guest's function, and what
//! came back is decoded into the call's result.
//!
//! A call goes through `Encoding`, `Invoking` and `Decoding` and ends in
//! success or in failure. `begin_call` is the step from `Encoding`, the
//! engine's run of the guest is `Invoking`, `finish_call` is the step from
//! `Decoding`. Nothing is ever tried twice.

use crate::codec::decode_reply;
use crate::codec::decode_text;
use crate::codec::decoded_reply;
use crate::codec::decoded_text;
use crate::codec::encode_text;
use crate::codec::encoded_text;
use crate::engine::exported_memory;
use crate::error::may_corrupt;
use crate::error::raise;
use crate::error::raised;
use crate::error::BoundaryError;
use crate::error::BoundaryErrorView;
use crate::error::CodecErrorView;
use crate::error::Failure;
use crate::error::FailureView;
use crate::marshal::fetch;
use crate::marshal::fetched;
use crate::marshal::place;
use crate::marshal::placement;
use crate::marshal::placement_of;
use crate::marshal::text_view;
use crate::marshal::word_view;
use crate::marshal::write_value;
use crate::memory::GuestMemory;
use crate::pair::decode_pair;
use crate::pair::GuestPtrLen;
use holochain_wasmer_host::prelude::Instance;
use vstd::prelude::*;

verus! {

/// How the engine's run of a guest function ended.
#[derive(Clone, Debug, PartialEq, Eq)]
pub enum Invocation {
    /// The function returned, with this word.
    Returned(GuestPtrLen),
    /// A function of the host raised this error while the guest ran, and the
    /// run ended there.
    Raised(BoundaryError),
    /// The engine could not run the function to its end; the text says why.
    Trapped(String),
}

/// An `Invocation` as a mathematical value.
pub enum InvocationView {
    Returned(GuestPtrLen),
    Raised(BoundaryErrorView),
    Trapped(Seq<char>),
}

impl View for Invocation {
    type V = InvocationView;

    open spec fn view(&self) -> InvocationView {
        match *self {
            Invocation::Returned(word) => InvocationView::Returned(word),
            Invocation::Raised(error) => InvocationView::Raised(error@),
            Invocation::Trapped(message) => InvocationView::Trapped(message@),
        }
    }
}

/// The bytes in which a call's result lies, before they are decoded.
#[derive(Clone, Debug, PartialEq, Eq)]
pub enum Resolved {
    /// The guest returned: these bytes hold its reply, a value or an error.
    Reply(Vec<u8>),
    /// The host answered early: these bytes hold the value itself.
    Answer(Vec<u8>),
}

/// A `Resolved` as a mathematical value.
pub enum ResolvedView {
    Reply(Seq<u8>),
    Answer(Seq<u8>),
}

impl View for Resolved {
    type V = ResolvedView;

    open spec fn view(&self) -> ResolvedView {
        match *self {
            Resolved::Reply(bytes) => ResolvedView::Reply(bytes@),
            Resolved::Answer(bytes) => ResolvedView::Answer(bytes@),
        }
    }
}

/// Resolved bytes, or the error in their place, as a mathematical value.
pub open spec fn resolved_view(resolved: Result<Resolved, BoundaryError>) -> Result<
    ResolvedView,
    BoundaryErrorView,
> {
    match resolved {
        Ok(resolved) => Ok(resolved@),
        Err(error) => Err(error@),
    }
}

/// Where the result of a call lies after the run ended as `invocation` and
/// left the guest's memory with these bytes.
///
/// A word that the guest returned names the bytes of its reply. An early
/// answer of the host is the result whatever the memory holds. Any other error
/// that the host raised is the call's error as it stands. A run that the
/// engine could not finish is a call error with the engine's message.
pub open spec fn resolution(memory: Seq<u8>, invocation: InvocationView) -> Result<
    ResolvedView,
    BoundaryErrorView,
> {
    match invocation {
        InvocationView::Returned(word) => match fetched(memory, word) {
            Ok(bytes) => Ok(ResolvedView::Reply(bytes)),
            Err(error) => Err(error),
        },
        InvocationView::Raised(error) => match error.error {
            FailureView::HostShortCircuit(payload) => Ok(ResolvedView::Answer(payload)),
            _ => Err(error),
        },
        InvocationView::Trapped(message) => Err(raised(FailureView::CallError(message))),
    }
}

/// The text that resolved bytes hold. A reply holds a text or the guest's own
/// error, which is handed on as it stands; an early answer holds a text.
/// Bytes that hold neither are the codec's error.
pub open spec fn decoded_result(resolved: ResolvedView) -> Result<Seq<char>, BoundaryErrorView> {
    match resolved {
        ResolvedView::Reply(bytes) => match decoded_reply(bytes) {
            Ok(Ok(text)) => Ok(text),
            Ok(Err(error)) => Err(error),
            Err(error) => Err(raised(FailureView::Serialize(error))),
        },
        ResolvedView::Answer(bytes) => match decoded_text(bytes) {
            Ok(text) => Ok(text),
            Err(error) => Err(raised(FailureView::Serialize(error))),
        },
    }
}

/// The result of a call whose run ended as `invocation` and left the guest's
/// memory with these bytes.
pub open spec fn call_result(memory: Seq<u8>, invocation: InvocationView) -> Result<
    Seq<char>,
    BoundaryErrorView,
> {
    match resolution(memory, invocation) {
        Ok(resolved) => decoded_result(resolved),
        Err(error) => Err(error),
    }
}

/// The step from `Encoding`: moves the argument of a call into the guest's
/// memory and returns the word to invoke the guest with. Where this fails the
/// call has failed, and the guest is not to be invoked.
pub fn begin_call(memory: &mut GuestMemory, input: &String) -> (word: Result<
    GuestPtrLen,
    BoundaryError,
>)
    requires
        old(memory).wf(),
    ensures
        final(memory).wf(),
        placement_of(*old(memory), *final(memory), encoded_text(input@), word_view(word)),
{
    write_value(memory, input)
}

/// Finds the bytes in which the result of a call lies, once the run has
/// ended.
pub fn resolve(memory: &GuestMemory, invocation: Invocation) -> (resolved: Result<
    Resolved,
    BoundaryError,
>)
    requires
        memory.wf(),
    ensures
        resolved_view(resolved) == resolution(memory@, invocation@),
{
    match invocation {
        Invocation::Returned(word) => match fetch(memory, word) {
            Ok(bytes) => Ok(Resolved::Reply(bytes)),
            Err(error) => Err(error),
        },
        Invocation::Raised(error) => {
            let BoundaryError { file, line, error } = error;
            match error {
                Failure::HostShortCircuit(payload) => Ok(Resolved::Answer(payload)),
                other => Err(BoundaryError { file, line, error: other }),
            }
        },
        Invocation::Trapped(message) => Err(raise(Failure::CallError(message))),
    }
}

/// Decodes the text that resolved bytes hold.
pub fn decode_resolved(resolved: Resolved) -> (decoded: Result<String, BoundaryError>)
    ensures
        text_view(decoded) == decoded_result(resolved@),
{
    match resolved {
        Resolved::Reply(bytes) => match decode_reply(bytes.as_slice()) {
            Ok(Ok(text)) => Ok(text),
            Ok(Err(error)) => Err(error),
            Err(error) => Err(raise(Failure::Serialize(error))),
        },
        Resolved::Answer(bytes) => match decode_text(bytes.as_slice()) {
            Ok(text) => Ok(text),
            Err(error) => Err(raise(Failure::Serialize(error))),
        },
    }
}

/// The step from `Decoding`: turns the end of the run into the result of the
/// call.
pub fn finish_call(memory: &GuestMemory, invocation: Invocation) -> (result: Result<
    String,
    BoundaryError,
>)
    requires
        memory.wf(),
    ensures
        text_view(result) == call_result(memory@, invocation@),
{
    match resolve(memory, invocation) {
        Ok(resolved) => decode_resolved(resolved),
        Err(error) => Err(error),
    }
}

/// What a call with the bytes of an argument may have done, in a memory that
/// was `before` and is now `after`.
///
/// Either the call failed while encoding: the bytes got no place, the error
/// is the one that placing them gives, and the memory is untouched, which
/// shows that the guest did not run. Or the bytes were placed, the guest ran
/// once, and the result is what `resolution` makes of the way in which the run
/// ended and of the memory as the run left it.
pub open spec fn bytes_call_ended(
    before: GuestMemory,
    after: GuestMemory,
    bytes: Seq<u8>,
    resolved: Result<ResolvedView, BoundaryErrorView>,
) -> bool {
    ||| resolved matches Err(error) && placement(
        before,
        after,
        bytes,
        Err::<GuestPtrLen, BoundaryErrorView>(error),
    )
    ||| bytes.len() <= u32::MAX && exists|invocation: InvocationView|
        resolved == #[trigger] resolution(after@, invocation)
}

/// What a call with an argument may have done, in a memory that was `before`
/// and is now `after`, where the codec made `encoded` of the argument.
///
/// Either the call failed while encoding: the argument got no place, the
/// error is the one that placing it gives, and the memory is untouched, which
/// shows that the guest did not run. Or the argument was placed, the guest
/// ran once, and the result is what `call_result` makes of the way in which
/// the run ended and of the memory as the run left it.
pub open spec fn call_ended(
    before: GuestMemory,
    after: GuestMemory,
    encoded: Result<Seq<u8>, CodecErrorView>,
    result: Result<Seq<char>, BoundaryErrorView>,
) -> bool {
    ||| result matches Err(error) && placement_of(
        before,
        after,
        encoded,
        Err::<GuestPtrLen, BoundaryErrorView>(error),
    )
    ||| encoded matches Ok(bytes) && bytes.len() <= u32::MAX && exists|invocation: InvocationView|
        result == #[trigger] call_result(after@, invocation)
}

/// Whether a call that ended in this way leaves the guest in a state that
/// cannot be relied on.
pub open spec fn spends<T>(result: Result<T, BoundaryErrorView>) -> bool {
    result matches Err(error) && may_corrupt(error.error)
}

/// The name under which a guest exports its linear memory.
pub const MEMORY_EXPORT: &'static str = "memory";

/// A guest that the engine has made ready to run, together with the manager
/// of its memory.
///
/// A guest is called one call at a time. Once a call has ended in an error
/// that may have left the guest's state corrupt, the guest is spent and is not
/// to be called again.
pub struct Guest {
    instance: Instance,
    memory: GuestMemory,
    spent: bool,
}

impl Guest {
    /// What holds of every guest that this library made: its memory is a
    /// memory of the engine, and the manager of that memory is well formed.
    pub closed spec fn wf(&self) -> bool {
        self.memory.wf() && self.memory.maximum() is None
    }

    /// The guest's memory and what the host has handed out of it.
    pub closed spec fn memory(&self) -> GuestMemory {
        self.memory
    }

    /// Whether the guest is not to be called again.
    pub closed spec fn is_spent(&self) -> bool {
        self.spent
    }

    /// Takes charge of a guest that the engine has made ready. A guest that
    /// exports no linear memory under the name `memory` is a memory error.
    pub fn new(instance: Instance) -> (made: Result<Guest, BoundaryError>)
        ensures
            match made {
                Ok(guest) => {
                    &&& guest.wf()
                    &&& !guest.is_spent()
                    &&& guest.memory().handed_out() == Set::<int>::empty()
                    &&& guest.memory().room() == 0
                },
                Err(error) => error@ == raised(FailureView::Memory),
            },
    {
        match exported_memory(&instance, MEMORY_EXPORT) {
            Some(memory) => Ok(Guest { instance, memory: GuestMemory::adopt(memory), spent: false }),
            None => Err(raise(Failure::Memory)),
        }
    }

    /// Whether the guest is not to be called again.
    pub fn spent(&self) -> (spent: bool)
        ensures
            spent == self.is_spent(),
    {
        self.spent
    }

    /// The manager of the guest's memory.
    pub fn guest_memory(&self) -> (memory: &GuestMemory)
        ensures
            *memory == self.memory(),
    {
        &self.memory
    }

    /// Calls the guest's function `name` with an argument that is already
    /// encoded, and finds the bytes in which the result lies.
    ///
    /// Where the bytes cannot be placed, the call fails there and the guest is
    /// not invoked. Otherwise the guest runs once. How the run ends is the
    /// guest's and the engine's affair. The guest is spent by an error that may
    /// have corrupted it, and by no other end of the call.
    pub fn call_bytes(&mut self, name: &str, payload: &[u8]) -> (resolved: Result<
        Resolved,
        BoundaryError,
    >)
        requires
            old(self).wf(),
            !old(self).is_spent(),
        ensures
            final(self).wf(),
            final(self).memory()@.len() >= old(self).memory()@.len(),
            bytes_call_ended(
                old(self).memory(),
                final(self).memory(),
                payload@,
                resolved_view(resolved),
            ),
            final(self).is_spent() == spends(resolved_view(resolved)),
    {
        let resolved = self.run_bytes(name, payload);
        self.spent = match &resolved {
            Ok(_) => false,
            Err(error) => error.error.maybe_corrupt(),
        };
        resolved
    }

    /// Places the bytes, lets the guest run and finds the bytes of the result.
    fn run_bytes(&mut self, name: &str, payload: &[u8]) -> (resolved: Result<
        Resolved,
        BoundaryError,
    >)
        requires
            old(self).wf(),
        ensures
            final(self).wf(),
            final(self).is_spent() == old(self).is_spent(),
            final(self).memory()@.len() >= old(self).memory()@.len(),
            bytes_call_ended(
                old(self).memory(),
                final(self).memory(),
                payload@,
                resolved_view(resolved),
            ),
    {
        let word: u64 = match place(&mut self.memory, payload) {
            Ok(word) => word,
            Err(error) => {
                return Err(error);
            },
        };
        let (guest_ptr, len) = decode_pair(word);
        match self.memory.run(&self.instance, name, guest_ptr, len) {
            Some(invocation) => {
                let resolved = resolve(&self.memory, invocation);
                resolved
            },
            // Not reached: the memory is the engine's.
            None => Err(raise(Failure::Memory)),
        }
    }

    /// Calls the guest's function `name` with a text and returns the text
    /// that comes back.
    ///
    /// Where the argument cannot be encoded or placed, the call fails there
    /// and the guest is not invoked. Otherwise the guest runs once, and the
    /// result is what `call_result` makes of the end of the run and of the
    /// memory as the run left it. How the run ends is the guest's and the
    /// engine's affair. The guest is spent by an error that may have corrupted
    /// it, and by no other end of the call.
    pub fn call(&mut self, name: &str, input: &String) -> (result: Result<String, BoundaryError>)
        requires
            old(self).wf(),
            !old(self).is_spent(),
        ensures
            final(self).wf(),
            final(self).memory()@.len() >= old(self).memory()@.len(),
            call_ended(
                old(self).memory(),
                final(self).memory(),
                encoded_text(input@),
                text_view(result),
            ),
            final(self).is_spent() == spends(text_view(result)),
    {
        let result = self.run_text(name, input);
        self.spent = match &result {
            Ok(_) => false,
            Err(error) => error.error.maybe_corrupt(),
        };
        result
    }

    /// Encodes the argument, lets the guest run and decodes the result.
    fn run_text(&mut self, name: &str, input: &String) -> (result: Result<String, BoundaryError>)
        requires
            old(self).wf(),
        ensures
            final(self).wf(),
            final(self).is_spent() == old(self).is_spent(),
            final(self).memory()@.len() >= old(self).memory()@.len(),
            call_ended(
                old(self).memory(),
                final(self).memory(),
                encoded_text(input@),
                text_view(result),
            ),
    {
        let bytes: Vec<u8> = match encode_text(input) {
            Ok(bytes) => bytes,
            Err(error) => {
                return Err(raise(Failure::Serialize(error)));
            },
        };
        match self.run_bytes(name, bytes.as_slice()) {
            Ok(resolved) => {
                let result = decode_resolved(resolved);
                proof {
                    let invocation = choose|invocation: InvocationView|
                        Ok::<ResolvedView, BoundaryErrorView>(resolved@) == #[trigger] resolution(
                            self.memory@,
                            invocation,
                        );
                    assert(text_view(result) == call_result(self.memory@, invocation));
                }
                result
            },
            Err(error) => {
                proof {
                    if !placement(
                        old(self).memory,
                        self.memory,
                        bytes@,
                        Err::<GuestPtrLen, BoundaryErrorView>(error@),
                    ) {
                        let invocation = choose|invocation: InvocationView|
                            Err::<ResolvedView, BoundaryErrorView>(error@) == #[trigger] resolution(
                                self.memory@,
                                invocation,
                            );
                        assert(text_view(Err(error)) == call_result(self.memory@, invocation));
                    }
                }
                Err(error)
            },
        }
    }
}

} // verus!
