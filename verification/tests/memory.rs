use wasm_boundary::error::ErrorKind;
use wasm_boundary::error::Failure;
use wasm_boundary::memory::GuestMemory;
use wasm_boundary::memory::MAX_PAGES;

fn guest_memory(pages: u32, maximum: Option<u32>) -> GuestMemory {
    GuestMemory::new(pages, maximum).unwrap()
}

#[test]
fn size_is_the_number_of_pages() {
    assert_eq!(guest_memory(3, None).size(), 3);
    assert_eq!(guest_memory(0, None).size(), 0);
    assert_eq!(guest_memory(2, Some(2)).size(), 2);
}

#[test]
fn a_memory_above_its_maximum_cannot_be_made() {
    assert_eq!(GuestMemory::new(2, Some(1)).err().unwrap().error, Failure::Memory);
    assert_eq!(GuestMemory::new(0, Some(MAX_PAGES + 1)).err().unwrap().error, Failure::Memory);
    assert!(GuestMemory::new(0, Some(MAX_PAGES)).is_ok());
    assert!(GuestMemory::new(1, Some(1)).is_ok());
}

#[test]
fn size_asked_twice_is_the_same() {
    let mut memory = guest_memory(2, None);
    let first = memory.size();
    let second = memory.size();
    assert_eq!(first, second);
    assert_eq!(first, 2);
    memory.write(0, &[1, 2, 3]).unwrap();
    memory.read(0, 3).unwrap();
    assert_eq!(memory.size(), 2);
}

#[test]
fn first_allocation_grows_by_whole_pages() {
    let mut memory = guest_memory(1, None);
    let guest_ptr = memory.allocate(10).unwrap();
    assert_eq!(guest_ptr, 65536);
    assert_eq!(memory.size(), 2);
    let next = memory.allocate(20).unwrap();
    assert_eq!(next, 65546);
    assert_eq!(memory.size(), 2);
}

#[test]
fn allocation_larger_than_a_page_grows_enough() {
    let mut memory = guest_memory(1, None);
    let guest_ptr = memory.allocate(65537).unwrap();
    assert_eq!(guest_ptr, 65536);
    assert_eq!(memory.size(), 3);
    let exact = memory.allocate(65535).unwrap();
    assert_eq!(exact, 65536 + 65537);
    assert_eq!(memory.size(), 3);
    let more = memory.allocate(1).unwrap();
    assert_eq!(more, 3 * 65536);
    assert_eq!(memory.size(), 4);
}

#[test]
fn allocation_of_nothing_never_grows() {
    let mut memory = guest_memory(1, Some(1));
    assert_eq!(memory.allocate(0).unwrap(), 0);
    assert_eq!(memory.size(), 1);
}

#[test]
fn what_does_not_fit_the_rest_of_a_page_starts_a_new_one() {
    let mut memory = guest_memory(0, None);
    assert_eq!(memory.allocate(65000).unwrap(), 0);
    assert_eq!(memory.allocate(1000).unwrap(), 65536);
    assert_eq!(memory.size(), 2);
    assert_eq!(memory.allocate(536).unwrap(), 66536);
    assert_eq!(memory.size(), 2);
}

#[test]
fn refused_growth_is_a_memory_error() {
    let mut memory = guest_memory(1, Some(1));
    let error = memory.allocate(1).unwrap_err();
    assert_eq!(error.error, Failure::Memory);
    assert_eq!(error.kind(), ErrorKind::Memory);
    assert_eq!(memory.size(), 1);
}

#[test]
fn growth_stops_at_the_maximum() {
    let mut memory = guest_memory(1, Some(3));
    assert_eq!(memory.allocate(2 * 65536).unwrap(), 65536);
    assert_eq!(memory.size(), 3);
    assert_eq!(memory.allocate(1).unwrap_err().error, Failure::Memory);
    assert_eq!(memory.size(), 3);
}

#[test]
fn growth_keeps_the_bytes_that_were_there() {
    let mut memory = guest_memory(1, None);
    memory.write(65530, &[9, 8, 7, 6, 5, 4]).unwrap();
    let guest_ptr = memory.allocate(70000).unwrap();
    assert_eq!(guest_ptr, 65536);
    assert_eq!(memory.read(65530, 6).unwrap(), vec![9, 8, 7, 6, 5, 4]);
    assert_eq!(memory.read(65536, 4).unwrap(), vec![0, 0, 0, 0]);
}

#[test]
fn write_then_read_gives_the_bytes_back() {
    let mut memory = guest_memory(1, None);
    memory.write(100, &[1, 2, 3]).unwrap();
    assert_eq!(memory.read(100, 3).unwrap(), vec![1, 2, 3]);
    assert_eq!(memory.read(99, 5).unwrap(), vec![0, 1, 2, 3, 0]);
    memory.write(101, &[7]).unwrap();
    assert_eq!(memory.read(100, 3).unwrap(), vec![1, 7, 3]);
    memory.write(50, &[]).unwrap();
    assert_eq!(memory.read(100, 3).unwrap(), vec![1, 7, 3]);
}

#[test]
fn access_out_of_bounds_is_a_memory_error() {
    let mut memory = guest_memory(1, None);
    assert_eq!(memory.read(65536, 1).unwrap_err().error, Failure::Memory);
    assert_eq!(memory.read(65535, 2).unwrap_err().error, Failure::Memory);
    assert_eq!(memory.read(u32::MAX, u32::MAX).unwrap_err().error, Failure::Memory);
    assert_eq!(memory.write(65535, &[1, 2]).unwrap_err().error, Failure::Memory);
    assert_eq!(memory.write(65536, &[1]).unwrap_err().error, Failure::Memory);
    assert_eq!(memory.read(65535, 1).unwrap(), vec![0]);
    assert_eq!(memory.read(65536, 0).unwrap(), Vec::<u8>::new());
    assert_eq!(memory.read(65537, 0).unwrap_err().error, Failure::Memory);
    memory.write(65535, &[5]).unwrap();
    assert_eq!(memory.read(65535, 1).unwrap(), vec![5]);
}

#[test]
fn a_refused_write_writes_nothing() {
    let mut memory = guest_memory(1, None);
    memory.write(65534, &[1, 1]).unwrap();
    assert!(memory.write(65534, &[2, 2, 2]).is_err());
    assert_eq!(memory.read(65534, 2).unwrap(), vec![1, 1]);
}

#[test]
fn errors_of_the_library_name_the_library() {
    let memory = guest_memory(1, None);
    let error = memory.read(65536, 1).unwrap_err();
    assert_eq!(error.file, "wasm_boundary");
    assert_eq!(error.line, 0);
}
