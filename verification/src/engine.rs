//! The engine, as far as this library relies on it: its linear memory, and
//! the run of a guest's function.
//!
//! Nothing in this file is proved. Each item states what the engine does, and
//! the rest of the library is verified against these statements.

use crate::codec::host_error;
use crate::dispatch::Invocation;
use holochain_wasmer_common::WasmError;
use holochain_wasmer_host::prelude::Instance;
use holochain_wasmer_host::prelude::Memory;
use holochain_wasmer_host::prelude::MemoryError;
use vstd::prelude::*;
use wasmer_engine::RuntimeError;

verus! {

/// `wasmer::Memory`: one linear memory of the engine.
#[verifier::external_type_specification]
#[verifier::external_body]
pub struct ExMemory(Memory);

/// `wasmer::MemoryError`: why a memory could not be made or grown.
#[verifier::external_type_specification]
#[verifier::external_body]
pub struct ExMemoryError(MemoryError);

/// `wasmer::Instance`: a guest that the engine has made ready to run.
#[verifier::external_type_specification]
#[verifier::external_body]
pub struct ExInstance(Instance);

/// `wasmer_engine::RuntimeError`: why the engine stopped.
#[verifier::external_type_specification]
#[verifier::external_body]
pub struct ExRuntimeError(RuntimeError);

/// The bytes that a linear memory holds, from offset zero to its end.
pub uninterp spec fn memory_bytes(memory: Memory) -> Seq<u8>;

/// The number of bytes in one page of linear memory.
pub const PAGE_SIZE: u64 = 65536;

/// Whether `len` bytes at `guest_ptr` lie inside a memory of `size` bytes.
pub open spec fn in_bounds(size: nat, guest_ptr: int, len: int) -> bool {
    0 <= guest_ptr && 0 <= len && guest_ptr + len <= size
}

/// The bytes of a memory after `data` was written over them at `guest_ptr`.
pub open spec fn overwritten(bytes: Seq<u8>, guest_ptr: int, data: Seq<u8>) -> Seq<u8> {
    bytes.subrange(0, guest_ptr) + data + bytes.subrange(
        guest_ptr + data.len(),
        bytes.len() as int,
    )
}

/// `Memory::size`, in pages. Claimed: the memory holds exactly that many pages
/// of bytes.
#[verifier::external_body]
pub(crate) fn memory_pages(memory: &Memory) -> (pages: u32)
    ensures
        memory_bytes(*memory).len() == pages as int * PAGE_SIZE as int,
{
    memory.size().0
}

/// `Memory::grow` by `delta` pages. Claimed: on success the result is the
/// number of pages before the call, the memory is `delta` pages longer and its
/// old bytes are where they were; on failure the memory is as it was.
#[verifier::external_body]
pub(crate) fn grow_memory(memory: &mut Memory, delta: u32) -> (grown: Result<u32, MemoryError>)
    ensures
        match grown {
            Ok(before) => {
                &&& memory_bytes(*old(memory)).len() == before as int * PAGE_SIZE as int
                &&& memory_bytes(*final(memory)).len() == memory_bytes(*old(memory)).len()
                    + delta as int * PAGE_SIZE as int
                &&& memory_bytes(*final(memory)).subrange(
                    0,
                    memory_bytes(*old(memory)).len() as int,
                ) == memory_bytes(*old(memory))
            },
            Err(_) => memory_bytes(*final(memory)) == memory_bytes(*old(memory)),
        },
{
    memory.grow(delta).map(|pages| pages.0)
}

/// `holochain_wasmer_host::guest::read_bytes`. Claimed: a range that lies
/// inside the memory is read as it stands there, and a range that reaches past
/// the end of the memory is an error.
#[verifier::external_body]
pub(crate) fn read_memory(memory: &Memory, guest_ptr: u32, len: u32) -> (read: Result<
    Vec<u8>,
    RuntimeError,
>)
    ensures
        in_bounds(memory_bytes(*memory).len(), guest_ptr as int, len as int) ==> read is Ok
            && read->Ok_0@ == memory_bytes(*memory).subrange(guest_ptr as int, guest_ptr + len),
        !in_bounds(memory_bytes(*memory).len(), guest_ptr as int, len as int) ==> read is Err,
{
    holochain_wasmer_host::guest::read_bytes(memory, guest_ptr, len)
}

/// `holochain_wasmer_host::guest::write_bytes`. Claimed: bytes that fit inside
/// the memory at `guest_ptr`, and whose count fits in 32 bits, are written
/// there and no other byte changes; any other bytes are an error and nothing
/// is written.
#[verifier::external_body]
pub(crate) fn write_memory(memory: &mut Memory, guest_ptr: u32, bytes: &[u8]) -> (written: Result<
    (),
    RuntimeError,
>)
    ensures
        bytes@.len() <= u32::MAX && in_bounds(
            memory_bytes(*old(memory)).len(),
            guest_ptr as int,
            bytes@.len() as int,
        ) ==> written is Ok && memory_bytes(*final(memory)) == overwritten(
            memory_bytes(*old(memory)),
            guest_ptr as int,
            bytes@,
        ),
        !(bytes@.len() <= u32::MAX && in_bounds(
            memory_bytes(*old(memory)).len(),
            guest_ptr as int,
            bytes@.len() as int,
        )) ==> written is Err && memory_bytes(*final(memory)) == memory_bytes(*old(memory)),
{
    holochain_wasmer_host::guest::write_bytes(memory, guest_ptr, bytes)
}

/// `Exports::get_memory` on the exports of a guest, and `Clone::clone` on the
/// memory found: another handle to the same memory. Nothing is claimed of the
/// result.
#[verifier::external_body]
pub(crate) fn exported_memory(instance: &Instance, name: &str) -> Option<Memory> {
    instance.exports.get_memory(name).ok().cloned()
}

/// `Exports::get_native_function` for a function from two 32-bit integers to
/// one 64-bit integer, `NativeFunc::call` on it, and `RuntimeError::downcast`
/// on the error of a run that did not return. `memory` is the guest's memory.
/// Nothing is claimed of how the run ends. Claimed of the memory: the guest
/// may have written any bytes and may have grown it, but a linear memory never
/// shrinks and stays a whole number of pages long.
#[verifier::external_body]
pub(crate) fn run_export(
    instance: &Instance,
    memory: &mut Memory,
    name: &str,
    guest_ptr: u32,
    len: u32,
) -> (invocation: Invocation)
    ensures
        memory_bytes(*final(memory)).len() >= memory_bytes(*old(memory)).len(),
        memory_bytes(*final(memory)).len() % (PAGE_SIZE as nat) == 0,
{
    match instance.exports.get_native_function::<(i32, i32), i64>(name) {
        Err(error) => Invocation::Trapped(error.to_string()),
        Ok(function) => match function.call(guest_ptr as i32, len as i32) {
            Ok(word) => Invocation::Returned(word as u64),
            Err(error) => match error.downcast::<WasmError>() {
                Ok(error) => Invocation::Raised(host_error(error)),
                Err(error) => Invocation::Trapped(error.to_string()),
            },
        },
    }
}

} // verus!
