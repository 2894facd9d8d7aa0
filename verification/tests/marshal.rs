use wasm_boundary::error::BoundaryError;
use wasm_boundary::error::CodecError;
use wasm_boundary::error::ErrorKind;
use wasm_boundary::error::Failure;
use wasm_boundary::marshal::fetch;
use wasm_boundary::marshal::place;
use wasm_boundary::marshal::read_reply;
use wasm_boundary::marshal::read_value;
use wasm_boundary::marshal::write_reply;
use wasm_boundary::marshal::write_unit;
use wasm_boundary::marshal::write_value;
use wasm_boundary::memory::GuestMemory;
use wasm_boundary::pair::decode_pair;
use wasm_boundary::pair::encode_pair;

fn guest_memory() -> GuestMemory {
    GuestMemory::new(1, None).unwrap()
}

fn located(error: Failure) -> BoundaryError {
    BoundaryError { file: "src/wasm.rs".into(), line: 103, error }
}

#[test]
fn bytes_round_trip() {
    let mut memory = guest_memory();
    let word = place(&mut memory, &[1, 2, 3, 4, 5]).unwrap();
    assert_eq!(decode_pair(word), (65536, 5));
    assert_eq!(fetch(&memory, word).unwrap(), vec![1, 2, 3, 4, 5]);
}

#[test]
fn literal_bytes() {
    let mut memory = guest_memory();
    let input: Vec<u8> = vec![1, 2, 3];
    let word = place(&mut memory, &input).unwrap();
    let result: Vec<u8> = fetch(&memory, word).unwrap();
    assert_eq!(input, result);
}

#[test]
fn no_bytes_have_a_place_too() {
    let mut memory = guest_memory();
    let word = place(&mut memory, &[]).unwrap();
    assert_eq!(decode_pair(word), (0, 0));
    assert_eq!(fetch(&memory, word).unwrap(), Vec::<u8>::new());
    assert_eq!(memory.size(), 1);
}

#[test]
fn bytes_of_many_pages_round_trip() {
    let mut memory = guest_memory();
    let bytes: Vec<u8> = (0..200_000u32).map(|i| (i % 251) as u8).collect();
    let word = place(&mut memory, &bytes).unwrap();
    assert_eq!(decode_pair(word), (65536, 200_000));
    assert_eq!(memory.size(), 1 + 4);
    assert_eq!(fetch(&memory, word).unwrap(), bytes);
}

#[test]
fn bytes_without_room_are_a_memory_error() {
    let mut memory = GuestMemory::new(1, Some(2)).unwrap();
    let error = place(&mut memory, &vec![0u8; 65537]).unwrap_err();
    assert_eq!(error.error, Failure::Memory);
    assert_eq!(memory.size(), 1);
    assert!(place(&mut memory, &vec![1u8; 65536]).is_ok());
    assert_eq!(memory.size(), 2);
}

#[test]
fn fetch_out_of_bounds_is_a_memory_error() {
    let memory = guest_memory();
    assert_eq!(fetch(&memory, encode_pair(65536, 1)).unwrap_err().error, Failure::Memory);
    assert_eq!(fetch(&memory, u64::MAX).unwrap_err().error, Failure::Memory);
}

#[test]
fn a_text_is_encoded_as_a_messagepack_string() {
    let mut memory = guest_memory();
    let word = write_value(&mut memory, &String::from("foo")).unwrap();
    assert_eq!(fetch(&memory, word).unwrap(), vec![0xa3, b'f', b'o', b'o']);
    let long = "x".repeat(40);
    let word = write_value(&mut memory, &long).unwrap();
    let bytes = fetch(&memory, word).unwrap();
    assert_eq!(bytes.len(), 42);
    assert_eq!(&bytes[..2], &[0xd9, 40]);
}

#[test]
fn a_text_is_decoded_from_a_messagepack_string() {
    let mut memory = guest_memory();
    let word = place(&mut memory, &[0xa5, b'h', b'e', b'l', b'l', b'o']).unwrap();
    assert_eq!(read_value(&memory, word).unwrap(), "hello");
}

#[test]
fn a_text_round_trips() {
    let mut memory = guest_memory();
    for text in ["", "foo", "╰▐ ✖ 〜 ✖ ▐╯", "line\nbreak\0nul"] {
        let word = write_value(&mut memory, &String::from(text)).unwrap();
        assert_eq!(read_value(&memory, word).unwrap(), text);
    }
}

#[test]
fn a_text_longer_than_a_page_round_trips() {
    let mut memory = guest_memory();
    let text = "0123456789abcdef".repeat(5000);
    assert!(text.len() > 65536);
    let word = write_value(&mut memory, &text).unwrap();
    let (guest_ptr, len) = decode_pair(word);
    assert_eq!(guest_ptr, 65536);
    assert_eq!(len, 80_000 + 5);
    assert_eq!(memory.size(), 3);
    assert_eq!(read_value(&memory, word).unwrap(), text);
}

#[test]
fn stacked_test() {
    let mut memory = guest_memory();
    let first = write_value(&mut memory, &String::from("first")).unwrap();
    let second = write_value(&mut memory, &String::from("second")).unwrap();
    assert_ne!(first, second);
    let result: String = read_value(&memory, first).expect("stacked strings call");
    assert_eq!("first", &result);
    assert_eq!(read_value(&memory, second).unwrap(), "second");
}

#[test]
fn bytes_that_hold_no_text_are_a_deserialization_error() {
    let mut memory = guest_memory();
    let word = place(&mut memory, &[0xc0]).unwrap();
    let error = read_value(&memory, word).unwrap_err();
    assert!(matches!(error.error, Failure::Serialize(CodecError::Deserialize(_))));
    assert_eq!(error.kind(), ErrorKind::Deserialization);
    let cut_short = place(&mut memory, &[0xa3, b'f']).unwrap();
    assert_eq!(read_value(&memory, cut_short).unwrap_err().kind(), ErrorKind::Deserialization);
}

#[test]
fn a_reply_is_encoded_as_a_map_of_one_entry() {
    let mut memory = guest_memory();
    let word = write_reply(&mut memory, Ok(String::from("x"))).unwrap();
    assert_eq!(fetch(&memory, word).unwrap(), vec![0x81, 0xa2, b'O', b'k', 0xa1, b'x']);
}

#[test]
fn a_reply_is_decoded_from_a_map_of_one_entry() {
    let mut memory = guest_memory();
    let word = place(&mut memory, &[0x81, 0xa2, b'O', b'k', 0xa2, b'h', b'i']).unwrap();
    assert_eq!(read_reply(&memory, word).unwrap(), Ok(String::from("hi")));
}

#[test]
fn every_error_round_trips_in_a_reply() {
    let failures = vec![
        Failure::PointerMap,
        Failure::Deserialize(vec![1, 2, 3]),
        Failure::Serialize(CodecError::Serialize("too deep".into())),
        Failure::Serialize(CodecError::Deserialize("not a text".into())),
        Failure::ErrorWhileError,
        Failure::Memory,
        Failure::Guest("oh no!".into()),
        Failure::Host("host says no".into()),
        Failure::HostShortCircuit(vec![0xa6, b's', b'h', b'o', b'r', b't', b's']),
        Failure::Compile("bad module".into()),
        Failure::CallError("unreachable".into()),
        Failure::UninitializedSerializedModuleCache,
    ];
    let mut memory = guest_memory();
    for failure in failures {
        let error = located(failure);
        let word = write_reply(&mut memory, Err(error.clone())).unwrap();
        assert_eq!(read_reply(&memory, word).unwrap(), Err(error));
    }
}

#[test]
fn a_reply_of_many_pages_round_trips() {
    let mut memory = guest_memory();
    let text = "╰▐ ✖ 〜 ✖ ▐╯".repeat(10_000);
    let word = write_reply(&mut memory, Ok(text.clone())).unwrap();
    assert_eq!(read_reply(&memory, word).unwrap(), Ok(text));
}

#[test]
fn a_text_is_no_reply() {
    let mut memory = guest_memory();
    let word = write_value(&mut memory, &String::from("foo")).unwrap();
    assert_eq!(read_reply(&memory, word).unwrap_err().kind(), ErrorKind::Deserialization);
}

#[test]
fn the_unit_value_is_the_nil_byte() {
    let mut memory = guest_memory();
    let word = write_unit(&mut memory).unwrap();
    assert_eq!(decode_pair(word), (65536, 1));
    assert_eq!(fetch(&memory, word).unwrap(), vec![0xc0]);
}
