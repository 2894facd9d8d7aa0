use wasm_boundary::pair::decode_pair;
use wasm_boundary::pair::encode_pair;

#[test]
fn pointer_is_the_high_half_and_length_the_low_half() {
    assert_eq!(encode_pair(1, 2), 0x0000_0001_0000_0002);
    assert_eq!(encode_pair(0, 0), 0);
    assert_eq!(encode_pair(0, 7), 7);
    assert_eq!(encode_pair(7, 0), 7 << 32);
    assert_eq!(encode_pair(65536, 1000), 65536 * 4294967296 + 1000);
}

#[test]
fn decode_splits_the_halves() {
    assert_eq!(decode_pair(0x0000_0001_0000_0002), (1, 2));
    assert_eq!(decode_pair(0), (0, 0));
    assert_eq!(decode_pair(u64::MAX), (u32::MAX, u32::MAX));
    assert_eq!(decode_pair(0xdead_beef_0000_0010), (0xdead_beef, 16));
}

#[test]
fn some_round_trip_u32() {
    let (out_a, out_b) = decode_pair(encode_pair(u32::MAX, u32::MAX));
    assert_eq!(u32::MAX, out_a);
    assert_eq!(u32::MAX, out_b);
}

#[test]
fn pairs_round_trip_through_words() {
    let samples: [u32; 7] = [0, 1, 2, 65535, 65536, 0x8000_0000, u32::MAX];
    for &ptr in samples.iter() {
        for &len in samples.iter() {
            assert_eq!(decode_pair(encode_pair(ptr, len)), (ptr, len));
        }
    }
}

#[test]
fn words_round_trip_through_pairs() {
    let samples: [u64; 6] = [0, 1, 0xffff_ffff, 0x1_0000_0000, 0x1234_5678_9abc_def0, u64::MAX];
    for &word in samples.iter() {
        let (ptr, len) = decode_pair(word);
        assert_eq!(encode_pair(ptr, len), word);
    }
}
