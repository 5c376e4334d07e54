use parity_clib::utf8::check_utf8;

#[test]
fn empty_buffer_is_well_formed() {
    assert!(check_utf8(&Vec::new()));
}

#[test]
fn plain_ascii_is_well_formed() {
    assert!(check_utf8(&b"--light".to_vec()));
}

#[test]
fn two_byte_scalar_is_well_formed() {
    // U+00E9
    assert!(check_utf8(&vec![0xC3, 0xA9]));
}

#[test]
fn three_byte_scalar_is_well_formed() {
    // U+20AC
    assert!(check_utf8(&vec![0xE2, 0x82, 0xAC]));
}

#[test]
fn four_byte_scalar_is_well_formed() {
    // U+1F600
    assert!(check_utf8(&vec![0xF0, 0x9F, 0x98, 0x80]));
}

#[test]
fn largest_code_point_is_well_formed() {
    // U+10FFFF
    assert!(check_utf8(&vec![0xF4, 0x8F, 0xBF, 0xBF]));
}

#[test]
fn lone_continuation_byte_is_rejected() {
    assert!(!check_utf8(&vec![0x80]));
}

#[test]
fn overlong_two_byte_form_is_rejected() {
    assert!(!check_utf8(&vec![0xC0, 0xAF]));
}

#[test]
fn overlong_three_byte_form_is_rejected() {
    assert!(!check_utf8(&vec![0xE0, 0x80, 0x80]));
}

#[test]
fn surrogate_code_point_is_rejected() {
    // U+D800
    assert!(!check_utf8(&vec![0xED, 0xA0, 0x80]));
}

#[test]
fn beyond_last_code_point_is_rejected() {
    assert!(!check_utf8(&vec![0xF4, 0x90, 0x80, 0x80]));
}

#[test]
fn invalid_lead_byte_is_rejected() {
    assert!(!check_utf8(&vec![0xF5, 0x80, 0x80, 0x80]));
}

#[test]
fn truncated_scalar_is_rejected() {
    assert!(!check_utf8(&vec![0xC2]));
}

#[test]
fn truncated_tail_mid_buffer_is_rejected() {
    assert!(!check_utf8(&vec![0x61, 0xE2, 0x82]));
}

#[test]
fn agreement_with_std_on_mixed_samples() {
    let samples: Vec<Vec<u8>> = vec![
        b"{\"method\":\"eth_blockNumber\"}".to_vec(),
        vec![0xC3, 0x28],
        vec![0xE2, 0x28, 0xA1],
        vec![0xF0, 0x28, 0x8C, 0xBC],
        vec![0xED, 0x9F, 0xBF],
        vec![0xEE, 0x80, 0x80],
        vec![0xC2, 0x80],
        vec![0xDF, 0xBF],
        vec![0xFF],
    ];
    for s in samples {
        assert_eq!(check_utf8(&s), std::str::from_utf8(&s).is_ok());
    }
}
