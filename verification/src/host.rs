//! The functions that the host offers to the guest, and the names under which
//! the guest finds them.

use crate::codec::encode_text;
use crate::codec::encoded_reply;
use crate::codec::encoded_text;
use crate::error::raise;
use crate::error::raised;
use crate::error::BoundaryError;
use crate::error::BoundaryErrorView;
use crate::error::Failure;
use crate::error::FailureView;
use crate::marshal::placement;
use crate::marshal::placement_of;
use crate::marshal::read_value;
use crate::marshal::text_at;
use crate::marshal::word_view;
use crate::marshal::write_reply;
use crate::marshal::write_unit;
use crate::codec::unit_bytes;
use crate::memory::GuestMemory;
use crate::pair::encode_pair;
use crate::pair::pair_word;
use crate::pair::lemma_decode_of_encode;
use crate::pair::GuestPtr;
use crate::pair::GuestPtrLen;
use crate::pair::Len;
use crate::payload::processed;
use crate::payload::SomeStruct;
use vstd::prelude::*;
use vstd::string::*;

verus! {

/// The functions that the host offers to the guest.
#[derive(Clone, Copy, Debug, PartialEq, Eq, Structural)]
pub enum HostFunction {
    /// Ends the call early with a fixed answer.
    ShortCircuit,
    /// Takes a text and gives it back, marked by the host.
    TestProcessString,
    /// Takes a structure and gives it back, processed.
    TestProcessStruct,
    /// Reports a number for diagnosis.
    Debug,
    /// Tells the size of the guest's memory in pages.
    Pages,
}

/// One function of the host under the name by which the guest links it.
#[derive(Clone, Copy, Debug, PartialEq, Eq)]
pub struct HostImport {
    /// The namespace of the import.
    pub namespace: &'static str,
    /// The name of the import inside its namespace.
    pub name: &'static str,
    /// The function that the name stands for.
    pub function: HostFunction,
}

/// The namespace in which the guest finds every function of the host.
pub const IMPORT_NAMESPACE: &'static str = "env";

/// The namespace of every import.
pub open spec fn import_namespace() -> Seq<char> {
    IMPORT_NAMESPACE@
}

/// The name under which the guest links a function of the host.
pub open spec fn import_name_of(function: HostFunction) -> Seq<char> {
    match function {
        HostFunction::ShortCircuit => "__hc__short_circuit_5"@,
        HostFunction::TestProcessString => "__hc__test_process_string_2"@,
        HostFunction::TestProcessStruct => "__hc__test_process_struct_2"@,
        HostFunction::Debug => "__hc__debug_1"@,
        HostFunction::Pages => "__hc__pages_1"@,
    }
}

/// The functions of the host in the order in which they are offered.
pub open spec fn host_functions() -> Seq<HostFunction> {
    seq![
        HostFunction::ShortCircuit,
        HostFunction::TestProcessString,
        HostFunction::TestProcessStruct,
        HostFunction::Debug,
        HostFunction::Pages,
    ]
}

/// The name under which the guest links `function`.
pub fn import_name(function: HostFunction) -> (name: &'static str)
    ensures
        name@ == import_name_of(function),
{
    match function {
        HostFunction::ShortCircuit => "__hc__short_circuit_5",
        HostFunction::TestProcessString => "__hc__test_process_string_2",
        HostFunction::TestProcessStruct => "__hc__test_process_struct_2",
        HostFunction::Debug => "__hc__debug_1",
        HostFunction::Pages => "__hc__pages_1",
    }
}

/// No two functions of the host have one name: the guest can always tell
/// them apart when it links.
pub proof fn lemma_import_names_differ(one: HostFunction, other: HostFunction)
    requires
        one != other,
    ensures
        import_name_of(one) != import_name_of(other),
{
    reveal_strlit("__hc__short_circuit_5");
    reveal_strlit("__hc__test_process_string_2");
    reveal_strlit("__hc__test_process_struct_2");
    reveal_strlit("__hc__debug_1");
    reveal_strlit("__hc__pages_1");
    assert("__hc__test_process_string_2"@.len() == 27);
    assert("__hc__test_process_struct_2"@.len() == 27);
    assert("__hc__test_process_string_2"@[22] == 'i');
    assert("__hc__test_process_struct_2"@[22] == 'u');
    assert("__hc__debug_1"@[6] == 'd');
    assert("__hc__pages_1"@[6] == 'p');
}

/// Everything that the host offers to a guest: each function once, under its
/// name, in the namespace `env`.
pub fn import_object() -> (imports: Vec<HostImport>)
    ensures
        imports@.len() == host_functions().len(),
        forall|index: int|
            0 <= index < imports@.len() ==> {
                &&& (#[trigger] imports@[index]).function == host_functions()[index]
                &&& imports@[index].namespace@ == import_namespace()
                &&& imports@[index].name@ == import_name_of(host_functions()[index])
            },
{
    let mut imports: Vec<HostImport> = Vec::new();
    imports.push(
        HostImport {
            namespace: IMPORT_NAMESPACE,
            name: import_name(HostFunction::ShortCircuit),
            function: HostFunction::ShortCircuit,
        },
    );
    imports.push(
        HostImport {
            namespace: IMPORT_NAMESPACE,
            name: import_name(HostFunction::TestProcessString),
            function: HostFunction::TestProcessString,
        },
    );
    imports.push(
        HostImport {
            namespace: IMPORT_NAMESPACE,
            name: import_name(HostFunction::TestProcessStruct),
            function: HostFunction::TestProcessStruct,
        },
    );
    imports.push(
        HostImport {
            namespace: IMPORT_NAMESPACE,
            name: import_name(HostFunction::Debug),
            function: HostFunction::Debug,
        },
    );
    imports.push(
        HostImport {
            namespace: IMPORT_NAMESPACE,
            name: import_name(HostFunction::Pages),
            function: HostFunction::Pages,
        },
    );
    imports
}

/// The answer with which `short_circuit` ends a call.
pub open spec fn short_circuit_answer() -> Seq<char> {
    "shorts"@
}

/// The error that `short_circuit` raises: the early answer in its encoded
/// form, or the codec's error where the answer could not be encoded.
pub open spec fn short_circuit_error() -> BoundaryErrorView {
    match encoded_text(short_circuit_answer()) {
        Ok(bytes) => raised(FailureView::HostShortCircuit(bytes)),
        Err(error) => raised(FailureView::Serialize(error)),
    }
}

/// Ends the call early: raises the error that carries the encoded answer
/// `shorts`. Its arguments are not looked at and the memory is not touched.
pub fn short_circuit(memory: &GuestMemory, guest_ptr: GuestPtr, len: Len) -> (word: Result<
    GuestPtrLen,
    BoundaryError,
>)
    ensures
        word_view(word) == Err::<GuestPtrLen, BoundaryErrorView>(short_circuit_error()),
{
    let answer: String = String::from_str("shorts");
    match encode_text(&answer) {
        Ok(bytes) => Err(raise(Failure::HostShortCircuit(bytes))),
        Err(error) => Err(raise(Failure::Serialize(error))),
    }
}

/// What the host makes of a text.
pub open spec fn host_processed(text: Seq<char>) -> Seq<char> {
    "host: "@ + text
}

/// The reply of `test_process_string` to the bytes at `guest_ptr`: the text
/// that they hold, marked by the host, or the error that kept the text from
/// being read.
pub open spec fn process_string_reply(memory: Seq<u8>, guest_ptr: GuestPtr, len: Len) -> Result<
    Seq<char>,
    BoundaryErrorView,
> {
    match text_at(memory, pair_word(guest_ptr, len) as u64) {
        Ok(text) => Ok(host_processed(text)),
        Err(error) => Err(error),
    }
}

/// Marks a text as having passed through the host.
pub fn process_string(text: &String) -> (marked: String)
    ensures
        marked@ == host_processed(text@),
{
    let mut marked: String = String::from_str("host: ");
    marked.append(text.as_str());
    marked
}

/// Reads the text at `guest_ptr`, marks it and moves the reply into the
/// memory. A text that cannot be read is answered too: the reply then holds
/// the error. Only a reply that cannot be encoded or placed is a failure of
/// the function itself.
pub fn test_process_string(memory: &mut GuestMemory, guest_ptr: GuestPtr, len: Len) -> (word:
    Result<GuestPtrLen, BoundaryError>)
    requires
        old(memory).wf(),
    ensures
        final(memory).wf(),
        placement_of(
            *old(memory),
            *final(memory),
            encoded_reply(process_string_reply(old(memory)@, guest_ptr, len)),
            word_view(word),
        ),
{
    proof {
        lemma_decode_of_encode(guest_ptr, len);
    }
    let reply: Result<String, BoundaryError> = match read_value(
        memory,
        encode_pair(guest_ptr, len),
    ) {
        Ok(text) => Ok(process_string(&text)),
        Err(error) => Err(error),
    };
    write_reply(memory, reply)
}

/// Processes a structure that was read from the guest and gives the reply
/// that goes back: the processed structure. This never fails.
pub fn test_process_struct(some_struct: SomeStruct) -> (reply: Result<SomeStruct, BoundaryError>)
    ensures
        reply matches Ok(done) && done@ == processed(some_struct@),
{
    let mut some_struct = some_struct;
    some_struct.process();
    Ok(some_struct)
}

/// The character that stands for a digit below ten.
pub open spec fn digit(value: int) -> char {
    if value == 0 {
        '0'
    } else if value == 1 {
        '1'
    } else if value == 2 {
        '2'
    } else if value == 3 {
        '3'
    } else if value == 4 {
        '4'
    } else if value == 5 {
        '5'
    } else if value == 6 {
        '6'
    } else if value == 7 {
        '7'
    } else if value == 8 {
        '8'
    } else {
        '9'
    }
}

/// A number written in decimal digits, the most significant first.
pub open spec fn decimal(number: nat) -> Seq<char>
    decreases number,
{
    if number < 10 {
        seq![digit(number as int)]
    } else {
        decimal(number / 10).push(digit((number % 10) as int))
    }
}

/// The line that a diagnostic call for `some_number` puts out.
pub open spec fn debug_text(some_number: u32) -> Seq<char> {
    "debug "@ + decimal(some_number as nat)
}

/// The text of one digit.
fn digit_text(value: u32) -> (text: &'static str)
    requires
        value < 10,
    ensures
        text@ == seq![digit(value as int)],
{
    proof {
        reveal_strlit("0");
        reveal_strlit("1");
        reveal_strlit("2");
        reveal_strlit("3");
        reveal_strlit("4");
        reveal_strlit("5");
        reveal_strlit("6");
        reveal_strlit("7");
        reveal_strlit("8");
        reveal_strlit("9");
    }
    let text: &'static str = if value == 0 {
        "0"
    } else if value == 1 {
        "1"
    } else if value == 2 {
        "2"
    } else if value == 3 {
        "3"
    } else if value == 4 {
        "4"
    } else if value == 5 {
        "5"
    } else if value == 6 {
        "6"
    } else if value == 7 {
        "7"
    } else if value == 8 {
        "8"
    } else {
        "9"
    };
    text
}

/// Appends a number in decimal digits to a text.
fn append_decimal(text: &mut String, number: u32)
    ensures
        final(text)@ == old(text)@ + decimal(number as nat),
    decreases number,
{
    if number >= 10 {
        append_decimal(text, number / 10);
    }
    text.append(digit_text(number % 10));
}

/// The line that a diagnostic call puts out: the word `debug` and the number
/// in decimal digits. The line is the caller's to print.
pub fn debug_line(some_number: u32) -> (line: String)
    ensures
        line@ == debug_text(some_number),
{
    let mut line: String = String::from_str("debug ");
    append_decimal(&mut line, some_number);
    line
}

/// Answers a diagnostic call: puts the line of `debug_line` out and moves the
/// unit value into the memory. The line is put out whether or not the unit
/// value gets a place. What was put out before stays as it is; printing what
/// is put out is the caller's.
pub fn debug(memory: &mut GuestMemory, some_number: u32, output: &mut Vec<String>) -> (word:
    Result<GuestPtrLen, BoundaryError>)
    requires
        old(memory).wf(),
    ensures
        final(memory).wf(),
        placement(*old(memory), *final(memory), unit_bytes(), word_view(word)),
        final(output)@.len() == old(output)@.len() + 1,
        final(output)@.subrange(0, old(output)@.len() as int) == old(output)@,
        final(output)@[old(output)@.len() as int]@ == debug_text(some_number),
{
    output.push(debug_line(some_number));
    write_unit(memory)
}

/// Tells the size of the memory in pages. The argument is not looked at, and
/// asking changes nothing.
pub fn pages(memory: &GuestMemory, ignored: u32) -> (pages: Result<u32, BoundaryError>)
    requires
        memory.wf(),
    ensures
        pages matches Ok(count) && count == memory.pages(),
{
    Ok(memory.size())
}

} // verus!
