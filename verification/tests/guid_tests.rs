use keystone::guid::GUID;

fn guid(bytes: [u8; 16]) -> GUID {
    GUID { data: bytes }
}

#[test]
fn guid_to_string_is_upper_case_hex_without_separators() {
    let g = guid([
        0x4E, 0x54, 0x53, 0x56, 0x66, 0x69, 0x66, 0x38, 0x6D, 0x38, 0x00, 0x00, 0x00, 0x00, 0x00,
        0x00,
    ]);
    assert_eq!(g.to_string(), "4E545356666966386D38000000000000");
    let h = guid([0xAB; 16]);
    assert_eq!(h.to_string(), "ABABABABABABABABABABABABABABABAB");
    assert_eq!(guid([0; 16]).to_string().len(), 32);
}

#[test]
fn guid_from_string_reads_two_digits_per_byte() {
    let g = GUID::from_string("3C2A31A836CE1F5088C9096932F9A0EA");
    assert_eq!(
        g.data,
        [
            0x3C, 0x2A, 0x31, 0xA8, 0x36, 0xCE, 0x1F, 0x50, 0x88, 0xC9, 0x09, 0x69, 0x32, 0xF9,
            0xA0, 0xEA
        ]
    );
}

#[test]
fn guid_from_string_accepts_lower_case() {
    let g = GUID::from_string("0e19fc23dd029944a8d2230e50617da3");
    assert_eq!(g.to_string(), "0E19FC23DD029944A8D2230E50617DA3");
}

#[test]
fn guid_from_string_short_text_fills_leading_bytes() {
    let g = GUID::from_string("FF01");
    let mut expected = [0u8; 16];
    expected[0] = 0xFF;
    expected[1] = 0x01;
    assert_eq!(g.data, expected);
}

#[test]
fn guid_from_string_drops_trailing_single_digit() {
    let g = GUID::from_string("ABC");
    let mut expected = [0u8; 16];
    expected[0] = 0xAB;
    assert_eq!(g.data, expected);
}

#[test]
fn guid_from_string_counts_other_characters_as_zero() {
    let g = GUID::from_string("Z1G2");
    let mut expected = [0u8; 16];
    expected[0] = 0x01;
    expected[1] = 0x02;
    assert_eq!(g.data, expected);
}

#[test]
fn guid_from_string_rejects_empty_and_overlong_text() {
    assert_eq!(GUID::from_string("").data, [0u8; 16]);
    assert_eq!(GUID::from_string("0123456789ABCDEF0123456789ABCDEF0").data, [0u8; 16]);
}

#[test]
fn guid_text_round_trip() {
    let mut bytes = [0u8; 16];
    for seed in 0..50u32 {
        for (i, b) in bytes.iter_mut().enumerate() {
            *b = (seed.wrapping_mul(2654435761).wrapping_add(i as u32 * 40503) >> 7) as u8;
        }
        let g = guid(bytes);
        assert_eq!(GUID::from_string(&g.to_string()).data, bytes);
    }
}

#[test]
fn guid_equals_compares_bytes() {
    let a = guid([1; 16]);
    let mut other = [1u8; 16];
    assert!(a.equals(&guid(other)));
    other[15] = 2;
    assert!(!a.equals(&guid(other)));
}
