use provenance_mark::decimal_text::{byte_list_string, decimal_string};
use provenance_mark::{ProvenanceMarkResolution, ProvenanceSeed, RngState};

#[test]
fn decimal_of_small_and_large_numbers() {
    assert_eq!(decimal_string(0), "0");
    assert_eq!(decimal_string(7), "7");
    assert_eq!(decimal_string(9), "9");
    assert_eq!(decimal_string(10), "10");
    assert_eq!(decimal_string(99), "99");
    assert_eq!(decimal_string(100), "100");
    assert_eq!(decimal_string(255), "255");
    assert_eq!(decimal_string(1_000_000), "1000000");
    assert_eq!(decimal_string(4_294_967_295), "4294967295");
}

#[test]
fn decimal_agrees_with_the_standard_rendering() {
    let mut n: u32 = 1;
    for _ in 0..40 {
        assert_eq!(decimal_string(n), format!("{}", n));
        n = n.wrapping_mul(2_654_435_761).wrapping_add(12_345);
    }
}

#[test]
fn byte_lists() {
    assert_eq!(byte_list_string(&[]), "");
    assert_eq!(byte_list_string(&[0]), "0");
    assert_eq!(byte_list_string(&[1, 20, 255]), "1, 20, 255");
}

#[test]
fn rng_state_text_is_its_debug_form() {
    let bytes: [u8; 32] = core::array::from_fn(|i| (i * 8) as u8);
    let state = RngState::from_bytes(bytes);
    assert_eq!(state.debug_string(), format!("{:?}", state));
    assert!(state.debug_string().starts_with("RngState([0, 8, 16, "));
    assert!(state.debug_string().ends_with(", 240, 248])"));
}

#[test]
fn seed_hex_has_two_lower_case_digits_per_byte() {
    let bytes: [u8; 32] = core::array::from_fn(|i| (i * 8 + 3) as u8);
    let seed = ProvenanceSeed::from_bytes(bytes);
    assert_eq!(
        seed.hex(),
        "030b131b232b333b434b535b636b737b838b939ba3abb3bbc3cbd3dbe3ebf3fb"
    );
    assert_eq!(seed.to_bytes(), bytes);
}

#[test]
fn resolution_names_and_link_lengths() {
    assert_eq!(ProvenanceMarkResolution::Low.link_length(), 4);
    assert_eq!(ProvenanceMarkResolution::Medium.link_length(), 8);
    assert_eq!(ProvenanceMarkResolution::Quartile.link_length(), 16);
    assert_eq!(ProvenanceMarkResolution::High.link_length(), 32);
    assert_eq!(ProvenanceMarkResolution::Low.name(), "low");
    assert_eq!(ProvenanceMarkResolution::Medium.name(), "medium");
    assert_eq!(ProvenanceMarkResolution::Quartile.name(), "quartile");
    assert_eq!(ProvenanceMarkResolution::High.name(), "high");
}
