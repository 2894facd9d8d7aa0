//! The manager of a guest's linear memory: it finds room for the bytes that
//! the host sends, and reads and writes byte ranges with their bounds checked.

use crate::engine::grow_memory;
use crate::engine::in_bounds;
use crate::engine::memory_bytes;
use crate::engine::memory_pages;
use crate::engine::overwritten;
use crate::dispatch::Invocation;
use crate::engine::read_memory;
use crate::engine::run_export;
use crate::engine::write_memory;
use crate::engine::PAGE_SIZE;
use crate::error::raise;
use crate::error::raised;
use crate::error::BoundaryError;
use crate::error::Failure;
use crate::error::FailureView;
use holochain_wasmer_host::prelude::Instance;
use holochain_wasmer_host::prelude::Memory;
use vstd::prelude::*;
use vstd::slice::slice_to_vec;

verus! {

/// The greatest number of pages that a memory of the host's own can have:
/// every byte of such a memory has an address that a guest pointer can hold.
pub const MAX_PAGES: u32 = 65535;

/// The greatest number of pages that a memory of the host's own may grow to,
/// where it was made with this maximum or with none.
pub open spec fn page_limit(maximum: Option<u32>) -> int {
    match maximum {
        Some(maximum) => maximum as int,
        None => MAX_PAGES as int,
    }
}

/// The addresses of `len` bytes at `guest_ptr`.
pub open spec fn byte_range(guest_ptr: int, len: int) -> Set<int> {
    Set::new(|address: int| guest_ptr <= address < guest_ptr + len)
}

/// Whether `len` bytes can be written at `guest_ptr` into a memory of `size`
/// bytes: they lie inside it, and a length can count them.
pub open spec fn writable(size: nat, guest_ptr: int, len: int) -> bool {
    len <= u32::MAX && in_bounds(size, guest_ptr, len)
}

/// The number of whole pages that `len` bytes take.
pub open spec fn pages_for(len: int) -> int {
    (len + PAGE_SIZE as int - 1) / (PAGE_SIZE as int)
}

/// Whether every byte of a memory of `pages` pages has an address that a
/// guest pointer can hold, with room for a length beside it.
pub open spec fn addressable(pages: int) -> bool {
    pages * PAGE_SIZE as int <= u32::MAX
}

/// Where the bytes of a memory live.
enum Backing {
    /// In a linear memory of the engine.
    Engine(Memory),
    /// In a buffer of the host, with the greatest number of pages that it may
    /// grow to.
    Buffer(Vec<u8>, u32),
}

/// A guest's linear memory together with what the host has handed out of it.
///
/// The manager hands out bytes only from pages that it has grown itself, so
/// what it hands out never lies in bytes that the memory had before.
pub struct GuestMemory {
    backing: Backing,
    /// The free bytes of the pages grown last: the first of them, and one
    /// past the last.
    free: (u64, u64),
    /// Every address that was handed out so far.
    handed: Ghost<Set<int>>,
}

impl View for GuestMemory {
    type V = Seq<u8>;

    /// The bytes of the memory, from offset zero to its end.
    closed spec fn view(&self) -> Seq<u8> {
        match self.backing {
            Backing::Engine(memory) => memory_bytes(memory),
            Backing::Buffer(bytes, _) => bytes@,
        }
    }
}

impl GuestMemory {
    /// What holds of every memory that this library made: it is a whole
    /// number of pages long, the free bytes that it keeps lie inside it, and
    /// none of them was handed out.
    pub closed spec fn wf(&self) -> bool {
        &&& self.free.0 <= self.free.1 <= self@.len()
        &&& self.free.1 <= u32::MAX
        &&& self@.len() % (PAGE_SIZE as nat) == 0
        &&& forall|address: int|
            self.free.0 <= address < self.free.1 ==> !self.handed@.contains(address)
        &&& forall|address: int| #[trigger]
            self.handed@.contains(address) ==> 0 <= address < self@.len()
        &&& match self.backing {
            Backing::Engine(_) => true,
            Backing::Buffer(bytes, maximum) => bytes@.len() <= maximum * PAGE_SIZE && maximum
                <= MAX_PAGES,
        }
    }

    /// Every address that an allocation has handed out so far.
    pub closed spec fn handed_out(&self) -> Set<int> {
        self.handed@
    }

    /// The number of bytes that can still be handed out without growing the
    /// memory.
    pub closed spec fn room(&self) -> nat {
        (self.free.1 - self.free.0) as nat
    }

    /// The address of the byte that is handed out next while there is room.
    pub closed spec fn cursor(&self) -> int {
        self.free.0 as int
    }

    /// The address at which `len` bytes are handed out: at the cursor where
    /// there is room for them, else at the start of the pages that the memory
    /// grows by.
    pub open spec fn next_place(&self, len: int) -> int {
        if len <= self.room() {
            self.cursor()
        } else {
            self@.len() as int
        }
    }

    /// The room that is left after `len` bytes were handed out.
    pub open spec fn room_after(&self, len: int) -> int {
        if len <= self.room() {
            self.room() - len
        } else {
            pages_for(len) * PAGE_SIZE as int - len
        }
    }

    /// The number of pages that the memory holds.
    pub open spec fn pages(&self) -> int {
        self@.len() as int / (PAGE_SIZE as int)
    }

    /// The greatest number of pages that the memory may grow to, where this
    /// library decides it. In a memory of the engine the engine decides, and
    /// this is `None`.
    pub closed spec fn maximum(&self) -> Option<int> {
        match self.backing {
            Backing::Engine(_) => None,
            Backing::Buffer(_, maximum) => Some(maximum as int),
        }
    }

    /// Whether the memory may grow by the pages that `len` bytes take, as far
    /// as this library decides it: the grown memory stays addressable and
    /// within its maximum.
    pub open spec fn may_grow_for(&self, len: int) -> bool {
        &&& addressable(self.pages() + pages_for(len))
        &&& self.maximum() matches Some(maximum) ==> self.pages() + pages_for(len) <= maximum
    }

    /// Makes a memory of the host's own: `pages` pages that may grow to
    /// `maximum` pages, or to `MAX_PAGES` where no maximum is given. A memory
    /// that would start above its maximum, or a maximum above `MAX_PAGES`, is
    /// a memory error.
    pub fn new(pages: u32, maximum: Option<u32>) -> (made: Result<GuestMemory, BoundaryError>)
        ensures
            match made {
                Ok(memory) => {
                    &&& memory.wf()
                    &&& memory.pages() == pages
                    &&& memory@.len() == pages * PAGE_SIZE
                    &&& forall|address: int|
                        0 <= address < memory@.len() ==> memory@[address] == 0
                    &&& memory.handed_out() == Set::<int>::empty()
                    &&& memory.room() == 0
                    &&& memory.maximum() == Some(page_limit(maximum))
                },
                Err(error) => error@ == raised(FailureView::Memory),
            },
            made is Ok <==> pages <= page_limit(maximum) <= MAX_PAGES,
    {
        let limit: u32 = match maximum {
            Some(maximum) => maximum,
            None => MAX_PAGES,
        };
        if pages > limit || limit > MAX_PAGES {
            return Err(raise(Failure::Memory));
        }
        let size: u64 = pages as u64 * PAGE_SIZE;
        let bytes: Vec<u8> = vec![0u8; size as usize];
        Ok(
            GuestMemory {
                backing: Backing::Buffer(bytes, limit),
                free: (0, 0),
                handed: Ghost(Set::empty()),
            },
        )
    }

    /// Takes charge of a memory of the engine. Nothing is handed out yet, and
    /// the bytes that the memory holds are left to the guest.
    ///
    /// What this library states of the manager holds as long as nobody else
    /// writes to the memory or grows it while the manager is in use, but for
    /// the guest while it runs.
    pub fn adopt(memory: Memory) -> (manager: GuestMemory)
        ensures
            manager.wf(),
            manager@ == memory_bytes(memory),
            manager.handed_out() == Set::<int>::empty(),
            manager.room() == 0,
            manager.maximum() is None,
    {
        // The engine counts the memory in pages: it is a whole number of them long.
        let _pages: u32 = memory_pages(&memory);
        GuestMemory { backing: Backing::Engine(memory), free: (0, 0), handed: Ghost(Set::empty()) }
    }

    /// Lets the engine run the guest's function `name` on the bytes at
    /// `guest_ptr`, where the memory is the guest's. The guest may write to
    /// the memory and grow it; what the manager keeps beside the bytes is not
    /// the guest's to change. In a memory of the host's own no guest runs.
    pub(crate) fn run(&mut self, instance: &Instance, name: &str, guest_ptr: u32, len: u32) -> (invocation:
        Option<Invocation>)
        requires
            old(self).wf(),
        ensures
            final(self).wf(),
            final(self)@.len() >= old(self)@.len(),
            final(self).handed_out() == old(self).handed_out(),
            final(self).room() == old(self).room(),
            final(self).cursor() == old(self).cursor(),
            final(self).maximum() == old(self).maximum(),
            invocation is Some <==> old(self).maximum() is None,
            invocation is None ==> final(self)@ == old(self)@,
    {
        match &mut self.backing {
            Backing::Engine(memory) => Some(run_export(instance, memory, name, guest_ptr, len)),
            Backing::Buffer(_, _) => None,
        }
    }

    /// The size of the memory in pages. The memory is always a whole number
    /// of pages long. Asking changes nothing.
    pub fn size(&self) -> (pages: u32)
        requires
            self.wf(),
        ensures
            pages == self.pages(),
            self@.len() == pages * PAGE_SIZE,
    {
        match &self.backing {
            Backing::Engine(memory) => memory_pages(memory),
            Backing::Buffer(bytes, _) => (bytes.len() as u64 / PAGE_SIZE) as u32,
        }
    }

    /// Reads `len` bytes at `guest_ptr`. A range that reaches past the end of
    /// the memory is a memory error; nothing is cut short and nothing wraps.
    pub fn read(&self, guest_ptr: u32, len: u32) -> (read: Result<Vec<u8>, BoundaryError>)
        requires
            self.wf(),
        ensures
            in_bounds(self@.len(), guest_ptr as int, len as int) ==> read is Ok && read->Ok_0@
                == self@.subrange(guest_ptr as int, guest_ptr + len),
            !in_bounds(self@.len(), guest_ptr as int, len as int) ==> read is Err && read->Err_0@
                == raised(FailureView::Memory),
    {
        match &self.backing {
            Backing::Engine(memory) => match read_memory(memory, guest_ptr, len) {
                Ok(bytes) => Ok(bytes),
                Err(_) => Err(raise(Failure::Memory)),
            },
            Backing::Buffer(bytes, _) => {
                if guest_ptr as u64 + len as u64 > bytes.len() as u64 {
                    return Err(raise(Failure::Memory));
                }
                let start: usize = guest_ptr as usize;
                let end: usize = start + len as usize;
                Ok(slice_to_vec(&bytes.as_slice()[start..end]))
            },
        }
    }

    /// Writes `bytes` at `guest_ptr`. Bytes that would reach past the end of
    /// the memory, or more bytes than a length can count, are a memory error,
    /// and then nothing is written. No byte outside the range changes, and the
    /// memory keeps its size.
    pub fn write(&mut self, guest_ptr: u32, bytes: &[u8]) -> (written: Result<(), BoundaryError>)
        requires
            old(self).wf(),
        ensures
            final(self).wf(),
            final(self).handed_out() == old(self).handed_out(),
            final(self).room() == old(self).room(),
            final(self).cursor() == old(self).cursor(),
            final(self).maximum() == old(self).maximum(),
            writable(old(self)@.len(), guest_ptr as int, bytes@.len() as int) ==> written is Ok
                && final(self)@ == overwritten(old(self)@, guest_ptr as int, bytes@),
            !writable(old(self)@.len(), guest_ptr as int, bytes@.len() as int) ==> written is Err
                && written->Err_0@ == raised(FailureView::Memory) && final(self)@ == old(self)@,
    {
        match &mut self.backing {
            Backing::Engine(memory) => match write_memory(memory, guest_ptr, bytes) {
                Ok(()) => Ok(()),
                Err(_) => Err(raise(Failure::Memory)),
            },
            Backing::Buffer(held, _) => {
                if bytes.len() > u32::MAX as usize || guest_ptr as u64 + bytes.len() as u64
                    > held.len() as u64 {
                    return Err(raise(Failure::Memory));
                }
                let start: usize = guest_ptr as usize;
                let ghost before = held@;
                let mut index: usize = 0;
                while index < bytes.len()
                    invariant
                        index <= bytes@.len(),
                        start + bytes@.len() <= held@.len() <= usize::MAX,
                        held@.len() == before.len(),
                        held@ == overwritten(before, start as int, bytes@.subrange(0, index as int))
                            .subrange(0, start + index) + before.subrange(
                            start + index,
                            before.len() as int,
                        ),
                    decreases bytes@.len() - index,
                {
                    held.set(start + index, bytes[index]);
                    index = index + 1;
                }
                Ok(())
            },
        }
    }

    /// Grows the memory by `delta` pages and tells how many pages it had.
    /// The bytes that the memory held stay where they were. A memory that
    /// may not grow stays as it is.
    fn grow(&mut self, delta: u32) -> (grown: Result<u32, BoundaryError>)
        requires
            old(self).wf(),
            addressable(old(self).pages() + delta),
        ensures
            final(self).wf(),
            final(self).handed_out() == old(self).handed_out(),
            final(self).room() == old(self).room(),
            final(self).cursor() == old(self).cursor(),
            final(self).maximum() == old(self).maximum(),
            old(self).maximum() matches Some(maximum) ==> (grown is Ok <==> old(self).pages()
                + delta <= maximum),
            match grown {
                Ok(before) => {
                    &&& before == old(self).pages()
                    &&& final(self).pages() == before + delta
                    &&& final(self)@.len() == old(self)@.len() + delta * PAGE_SIZE
                    &&& final(self)@.subrange(0, old(self)@.len() as int) == old(self)@
                    &&& old(self).maximum() is Some ==> forall|address: int|
                        old(self)@.len() <= address < final(self)@.len() ==> final(self)@[address]
                            == 0
                },
                Err(error) => error@ == raised(FailureView::Memory) && final(self)@ == old(self)@,
            },
    {
        match &mut self.backing {
            Backing::Engine(memory) => match grow_memory(memory, delta) {
                Ok(before) => Ok(before),
                Err(_) => Err(raise(Failure::Memory)),
            },
            Backing::Buffer(held, maximum) => {
                let before: u64 = held.len() as u64 / PAGE_SIZE;
                if before + delta as u64 > *maximum as u64 {
                    return Err(raise(Failure::Memory));
                }
                let size: u64 = (before + delta as u64) * PAGE_SIZE;
                held.resize(size as usize, 0u8);
                Ok(before as u32)
            },
        }
    }

    /// Finds or makes room for `len` bytes and hands them out.
    ///
    /// Where the pages grown last still have room, the bytes come from there
    /// and the memory stays as it is. Otherwise the memory grows by the whole
    /// pages that `len` bytes take, and the bytes are the first of the new
    /// pages. Growth may be refused: by this library, where the grown memory
    /// would pass its maximum or what a guest pointer can address, or by the
    /// engine. That is a memory error, it is not tried again, and the memory
    /// stays as it is.
    ///
    /// Bytes that were handed out are never handed out again, and no byte that
    /// the memory held changes or moves. In a memory of the host's own the
    /// pages that it grows by hold zeros.
    pub fn allocate(&mut self, len: u32) -> (allocated: Result<u32, BoundaryError>)
        requires
            old(self).wf(),
        ensures
            final(self).wf(),
            final(self).maximum() == old(self).maximum(),
            final(self)@.len() >= old(self)@.len(),
            final(self)@.subrange(0, old(self)@.len() as int) == old(self)@,
            old(self).maximum() is Some ==> forall|address: int|
                old(self)@.len() <= address < final(self)@.len() ==> final(self)@[address] == 0,
            len <= old(self).room() ==> allocated is Ok && final(self)@ == old(self)@,
            old(self).maximum() is Some ==> (allocated is Ok <==> len <= old(self).room() || old(self).may_grow_for(len as int)),
            match allocated {
                Ok(guest_ptr) => {
                    &&& guest_ptr == old(self).next_place(len as int)
                    &&& final(self).cursor() == guest_ptr + len
                    &&& final(self).room() == old(self).room_after(len as int)
                    &&& in_bounds(final(self)@.len(), guest_ptr as int, len as int)
                    &&& byte_range(guest_ptr as int, len as int).disjoint(old(self).handed_out())
                    &&& final(self).handed_out() == old(self).handed_out().union(
                        byte_range(guest_ptr as int, len as int),
                    )
                    &&& len > old(self).room() ==> old(self).may_grow_for(len as int) && final(self).pages() == old(self).pages() + pages_for(len as int) && guest_ptr == old(self)@.len()
                },
                Err(error) => {
                    &&& error@ == raised(FailureView::Memory)
                    &&& final(self)@ == old(self)@
                    &&& final(self).handed_out() == old(self).handed_out()
                    &&& final(self).room() == old(self).room()
                    &&& final(self).cursor() == old(self).cursor()
                    &&& len > old(self).room()
                },
            },
    {
        if len as u64 <= self.free.1 - self.free.0 {
            let guest_ptr: u64 = self.free.0;
            self.free = (guest_ptr + len as u64, self.free.1);
            proof {
                self.handed@ = self.handed@.union(byte_range(guest_ptr as int, len as int));
            }
            return Ok(guest_ptr as u32);
        }
        let pages_now: u32 = self.size();
        let delta: u64 = (len as u64 + PAGE_SIZE - 1) / PAGE_SIZE;
        let start: u64 = pages_now as u64 * PAGE_SIZE;
        if start + delta * PAGE_SIZE > u32::MAX as u64 {
            return Err(raise(Failure::Memory));
        }
        match self.grow(delta as u32) {
            Err(error) => {
                Err(error)
            },
            Ok(_) => {
                self.free = (start + len as u64, start + delta * PAGE_SIZE);
                proof {
                    self.handed@ = self.handed@.union(byte_range(start as int, len as int));
                }
                Ok(start as u32)
            },
        }
    }
}

} // verus!
