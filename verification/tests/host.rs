use wasm_boundary::error::ErrorKind;
use wasm_boundary::error::Failure;
use wasm_boundary::host::debug;
use wasm_boundary::host::debug_line;
use wasm_boundary::host::import_name;
use wasm_boundary::host::import_object;
use wasm_boundary::host::pages;
use wasm_boundary::host::process_string;
use wasm_boundary::host::short_circuit;
use wasm_boundary::host::test_process_string;
use wasm_boundary::host::test_process_struct;
use wasm_boundary::host::HostFunction;
use wasm_boundary::marshal::fetch;
use wasm_boundary::marshal::place;
use wasm_boundary::marshal::read_reply;
use wasm_boundary::marshal::write_value;
use wasm_boundary::memory::GuestMemory;
use wasm_boundary::pair::decode_pair;
use wasm_boundary::payload::SomeStruct;

fn guest_memory() -> GuestMemory {
    GuestMemory::new(1, None).unwrap()
}

#[test]
fn the_host_offers_five_functions_under_their_names() {
    let imports = import_object();
    let offered: Vec<(&str, &str, HostFunction)> =
        imports.iter().map(|import| (import.namespace, import.name, import.function)).collect();
    assert_eq!(
        offered,
        vec![
            ("env", "__hc__short_circuit_5", HostFunction::ShortCircuit),
            ("env", "__hc__test_process_string_2", HostFunction::TestProcessString),
            ("env", "__hc__test_process_struct_2", HostFunction::TestProcessStruct),
            ("env", "__hc__debug_1", HostFunction::Debug),
            ("env", "__hc__pages_1", HostFunction::Pages),
        ]
    );
}

#[test]
fn no_two_imports_have_one_name() {
    let imports = import_object();
    for (index, one) in imports.iter().enumerate() {
        assert_eq!(one.name, import_name(one.function));
        for other in imports.iter().skip(index + 1) {
            assert_ne!(one.name, other.name);
        }
    }
}

#[test]
fn short_circuit_raises_the_encoded_answer() {
    let memory = guest_memory();
    let error = short_circuit(&memory, 0, 0).unwrap_err();
    assert_eq!(
        error.error,
        Failure::HostShortCircuit(vec![0xa6, b's', b'h', b'o', b'r', b't', b's'])
    );
    assert_eq!(error.kind(), ErrorKind::ShortCircuit);
    assert_eq!(memory.size(), 1);
    let again = short_circuit(&memory, 12345, 678).unwrap_err();
    assert_eq!(again, error);
}

#[test]
fn process_string_marks_the_text() {
    assert_eq!(process_string(&String::from("foo")), "host: foo");
    assert_eq!(process_string(&String::new()), "host: ");
    assert_eq!(process_string(&String::from("〜")), "host: 〜");
}

#[test]
fn test_process_string_answers_with_the_marked_text() {
    let mut memory = guest_memory();
    let (guest_ptr, len) = decode_pair(write_value(&mut memory, &String::from("foo")).unwrap());
    let word = test_process_string(&mut memory, guest_ptr, len).unwrap();
    assert_eq!(read_reply(&memory, word).unwrap(), Ok(String::from("host: foo")));
    assert_eq!(
        fetch(&memory, word).unwrap(),
        vec![0x81, 0xa2, b'O', b'k', 0xa9, b'h', b'o', b's', b't', b':', b' ', b'f', b'o', b'o']
    );
}

#[test]
fn test_process_string_answers_a_bad_argument_with_an_error() {
    let mut memory = guest_memory();
    let (guest_ptr, len) = decode_pair(place(&mut memory, &[0xc0]).unwrap());
    let word = test_process_string(&mut memory, guest_ptr, len).unwrap();
    let reply = read_reply(&memory, word).unwrap();
    assert_eq!(reply.unwrap_err().kind(), ErrorKind::Deserialization);
}

#[test]
fn test_process_string_answers_a_bad_pointer_with_an_error() {
    let mut memory = guest_memory();
    let word = test_process_string(&mut memory, 65536, 10).unwrap();
    let reply = read_reply(&memory, word).unwrap();
    assert_eq!(reply.unwrap_err().error, Failure::Memory);
}

#[test]
fn test_process_string_fails_where_the_reply_has_no_room() {
    let mut memory = GuestMemory::new(1, Some(2)).unwrap();
    let (guest_ptr, len) = decode_pair(write_value(&mut memory, &String::from("foo")).unwrap());
    let filler = memory.allocate(65536 - len).unwrap();
    assert_eq!(filler, guest_ptr + len);
    let error = test_process_string(&mut memory, guest_ptr, len).unwrap_err();
    assert_eq!(error.error, Failure::Memory);
    assert_eq!(memory.size(), 2);
}

#[test]
fn native_struct_test() {
    let some_inner = "foo";
    let some_struct = SomeStruct::new(some_inner.into());

    let result: SomeStruct = test_process_struct(some_struct.clone()).unwrap();

    let expected = SomeStruct::new(format!("processed: {}", some_inner));
    assert_eq!(result, expected,);
}

#[test]
fn process_marks_the_inner_text() {
    let mut some_struct = SomeStruct::new(String::new());
    some_struct.process();
    assert_eq!(some_struct.inner(), "processed: ");
    some_struct.process();
    assert_eq!(some_struct.inner(), "processed: processed: ");
}

#[test]
fn debug_answers_with_the_unit_value() {
    let mut memory = guest_memory();
    let mut output = Vec::new();
    let word = debug(&mut memory, 5, &mut output).unwrap();
    assert_eq!(fetch(&memory, word).unwrap(), vec![0xc0]);
    assert_eq!(output, vec![String::from("debug 5")]);
}

#[test]
fn debug_puts_a_line_out_for_every_call() {
    let mut memory = GuestMemory::new(0, Some(0)).unwrap();
    let mut output = vec![String::from("earlier")];
    assert!(debug(&mut memory, 1, &mut output).is_err());
    let mut memory = guest_memory();
    assert!(debug(&mut memory, 23, &mut output).is_ok());
    assert_eq!(output, vec!["earlier", "debug 1", "debug 23"]);
}

#[test]
fn debug_line_writes_the_number_in_decimal() {
    assert_eq!(debug_line(0), "debug 0");
    assert_eq!(debug_line(7), "debug 7");
    assert_eq!(debug_line(10), "debug 10");
    assert_eq!(debug_line(1234567890), "debug 1234567890");
    assert_eq!(debug_line(u32::MAX), "debug 4294967295");
    for number in [9u32, 99, 100, 101, 65536, 1_000_000] {
        assert_eq!(debug_line(number), format!("debug {:?}", number));
    }
}

#[test]
fn pages_tells_the_size_and_ignores_its_argument() {
    let mut memory = GuestMemory::new(3, None).unwrap();
    assert_eq!(pages(&memory, 0).unwrap(), 3);
    assert_eq!(pages(&memory, 77).unwrap(), 3);
    memory.allocate(1).unwrap();
    assert_eq!(pages(&memory, 0).unwrap(), 4);
    assert_eq!(pages(&memory, 0).unwrap(), 4);
}
