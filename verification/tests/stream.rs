use provenance_mark::{RngState, Xoshiro256StarStar};

fn words_data(words: [u64; 4]) -> [u8; 32] {
    let mut data = [0u8; 32];
    for (i, word) in words.iter().enumerate() {
        data[8 * i..8 * i + 8].copy_from_slice(&word.to_le_bytes());
    }
    data
}

fn array32(text: &str) -> [u8; 32] {
    hex::decode(text).unwrap().try_into().unwrap()
}

#[test]
fn stream_matches_the_published_output_words() {
    let mut rng = Xoshiro256StarStar::from_data(&words_data([1, 2, 3, 4]));
    let expected: [u64; 10] = [
        11520,
        0,
        1509978240,
        1215971899390074240,
        1216172134540287360,
        607988272756665600,
        16172922978634559625,
        8476171486693032832,
        10595114339597558777,
        2904607092377533576,
    ];
    for word in expected {
        assert_eq!(rng.next_u64(), word);
    }
}

#[test]
fn stream_bytes_are_the_low_bytes_of_the_words() {
    let mut rng = Xoshiro256StarStar::from_data(&words_data([1, 2, 3, 4]));
    assert_eq!(rng.next_bytes(10), hex::decode("0000808080008980f988").unwrap());

    let mut single = Xoshiro256StarStar::from_data(&words_data([1, 2, 3, 4]));
    assert_eq!(single.next_byte(), 0x00);
    assert_eq!(single.next_byte(), 0x00);
    assert_eq!(single.next_byte(), 0x80);
}

#[test]
fn stream_from_a_digest() {
    let digest = array32("a591a6d40bf420404a011733cfb7b190d62c65bf0bcda32b57b277d9ad9f146e");
    let mut rng = Xoshiro256StarStar::from_data(&digest);
    assert_eq!(
        rng.next_bytes(32),
        hex::decode("b18b446df414ec00714f19cb0f03e45cd3c3d5d071d2e7483ba8627c65b9926a").unwrap()
    );
}

#[test]
fn state_words_are_little_endian() {
    let rng = Xoshiro256StarStar::from_data(&words_data([1, 2, 3, 4]));
    assert_eq!(
        rng.to_data().to_vec(),
        hex::decode("0100000000000000020000000000000003000000000000000400000000000000").unwrap()
    );
}

#[test]
fn state_after_one_step() {
    let mut rng = Xoshiro256StarStar::from_data(&words_data([1, 2, 3, 4]));
    rng.next_u64();
    assert_eq!(rng.to_data(), words_data([7, 0, 262146, 211106232532992]));
}

#[test]
fn export_and_import_keep_the_stream() {
    let seed: [u8; 32] = core::array::from_fn(|i| (i + 1) as u8);
    let mut rng = Xoshiro256StarStar::from_data(&seed);
    assert_eq!(rng.to_data(), seed);
    let first = rng.next_bytes(16);
    assert_eq!(first, hex::decode("e8801207ae4d9eb346ddedced3451749").unwrap());
    let exported = rng.to_data();
    assert_eq!(
        exported,
        array32("3b70c8865ec469273a19df9f87b0f671a2c55b07706c22a8f90a01e304b5349e")
    );
    let mut resumed = Xoshiro256StarStar::from_data(&exported);
    assert_eq!(resumed, rng);
    assert_eq!(resumed.next_bytes(40), rng.next_bytes(40));
}

#[test]
fn peek_does_not_advance() {
    let seed: [u8; 32] = core::array::from_fn(|i| (i + 1) as u8);
    let mut rng = Xoshiro256StarStar::from_data(&seed);
    let before = rng.to_data();
    let ahead = rng.peek_bytes(8);
    assert_eq!(rng.to_data(), before);
    assert_eq!(rng.peek_bytes(8), ahead);
    assert_eq!(rng.next_bytes(8), ahead);
    assert_ne!(rng.to_data(), before);
}

#[test]
fn drawing_in_parts_is_drawing_at_once() {
    let seed: [u8; 32] = core::array::from_fn(|i| (7 * i + 3) as u8);
    let mut whole = Xoshiro256StarStar::from_data(&seed);
    let mut parts = Xoshiro256StarStar::from_data(&seed);
    let all = whole.next_bytes(48);
    let mut joined = parts.next_bytes(5);
    joined.extend(parts.next_bytes(0));
    joined.extend(parts.next_bytes(43));
    assert_eq!(joined, all);
    assert_eq!(parts.to_data(), whole.to_data());
}

#[test]
fn drawing_nothing_changes_nothing() {
    let seed: [u8; 32] = core::array::from_fn(|i| i as u8);
    let mut rng = Xoshiro256StarStar::from_data(&seed);
    assert_eq!(rng.next_bytes(0), Vec::<u8>::new());
    assert_eq!(rng.to_data(), seed);
}

#[test]
fn a_copy_is_an_independent_stream() {
    let seed: [u8; 32] = core::array::from_fn(|i| (i + 1) as u8);
    let mut rng = Xoshiro256StarStar::from_data(&seed);
    let mut copy = rng.clone();
    let drawn = copy.next_bytes(12);
    assert_eq!(rng.to_data(), seed);
    assert_eq!(rng.next_bytes(12), drawn);
}

#[test]
fn rng_state_keeps_its_bytes() {
    let bytes: [u8; 32] = core::array::from_fn(|i| (255 - i) as u8);
    let state = RngState::from_bytes(bytes);
    assert_eq!(state.to_bytes(), bytes);
    assert_eq!(state, RngState::from_bytes(bytes));
}
