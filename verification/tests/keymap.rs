use chip8_host::keymap::hex_to_scan_code;
use chip8_host::keymap::scan_code_to_hex;

#[test]
fn round_trip_all_sixteen() {
    let mut k: u8 = 0;
    while k < 16 {
        let code = hex_to_scan_code(k).unwrap();
        assert_eq!(scan_code_to_hex(code), Some(k));
        k += 1;
    }
}

#[test]
fn forward_exact_codes() {
    assert_eq!(hex_to_scan_code(0x0), Ok(27));
    assert_eq!(hex_to_scan_code(0x1), Ok(30));
    assert_eq!(hex_to_scan_code(0x7), Ok(4));
    assert_eq!(hex_to_scan_code(0xC), Ok(33));
    assert_eq!(hex_to_scan_code(0xF), Ok(25));
}

#[test]
fn reverse_exact_keys() {
    assert_eq!(scan_code_to_hex(27), Some(0x0));
    assert_eq!(scan_code_to_hex(29), Some(0xA));
    assert_eq!(scan_code_to_hex(21), Some(0xD));
}

#[test]
fn unmapped_codes_have_no_key() {
    assert_eq!(scan_code_to_hex(0), None);
    assert_eq!(scan_code_to_hex(5), None);
    assert_eq!(scan_code_to_hex(24), None);
    assert_eq!(scan_code_to_hex(28), None);
    assert_eq!(scan_code_to_hex(34), None);
    assert_eq!(scan_code_to_hex(-1), None);
    assert_eq!(scan_code_to_hex(1000), None);
}

#[test]
fn forward_rejects_out_of_domain_keys() {
    let mut k: u16 = 16;
    while k <= 255 {
        assert!(hex_to_scan_code(k as u8).is_err());
        k += 1;
    }
}
