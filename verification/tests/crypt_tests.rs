use runtime::crypt::{
    create_devices, device_id_from_parts, generate_csrftoken, generate_device_fingerprint,
    generate_device_id, get_x_sap_ri, random_hex_string, to_hex_string, x_sap_ri_from, W,
};

#[test]
fn hex_strings_are_lower_case_pairs() {
    assert_eq!(to_hex_string(&[0, 15, 16, 255]), "000f10ff");
    assert_eq!(to_hex_string(&[]), "");
}

#[test]
fn w_takes_the_absolute_xor_of_the_uuid_halves() {
    assert_eq!(W::from_uuid_bits((1u128 << 64) | 2).f3733a, 3);
    assert_eq!(W::from_uuid_bits(0xFFFF_FFFF_FFFF_FFFFu128 << 64).f3733a, 1);
    assert_eq!(W::from_uuid_bits(0x8000_0000_0000_0000u128 << 64).f3733a, i64::MIN);
    assert_eq!(W::from_uuid_bits(0).f3733a, 0);
    let w = W::new();
    assert!(w.f3733a >= 0 || w.f3733a == i64::MIN);
}

#[test]
fn device_id_is_base64_of_big_endian_values() {
    assert_eq!(device_id_from_parts(&[1, 2, 3, 4]), "AAAAAAAAAAEAAAAAAAAAAgAAAAAAAAADAAAAAAAAAAQ=");
    assert_eq!(
        device_id_from_parts(&[0, -1, i64::MAX, i64::MIN]),
        "AAAAAAAAAAD//////////3//////////gAAAAAAAAAA="
    );
    let id = generate_device_id();
    assert_eq!(id.len(), 44);
    assert!(id.ends_with('='));
}

#[test]
fn fingerprints_and_tokens() {
    let fp = generate_device_fingerprint();
    assert_eq!(fp.len(), 24);
    assert!(fp.ends_with("_unknown"));
    assert!(fp[..16].chars().all(|c| c.is_ascii_hexdigit() && !c.is_ascii_uppercase()));
    let hex = random_hex_string(10);
    assert_eq!(hex.len(), 10);
    assert!(hex.chars().all(|c| "0123456789abcdef".contains(c)));
    let token = generate_csrftoken(32);
    assert_eq!(token.chars().count(), 32);
    assert!(token.chars().all(|c| c.is_ascii_alphanumeric()));
    assert_eq!(generate_csrftoken(0), "");
}

#[test]
fn devices_carry_the_sz_token() {
    let d = create_devices("tok");
    assert_eq!(d.device_sz_fingerprint, "tok");
    assert_eq!(d.tongdun_blackbox, "td_disable_for_ID");
    assert!(!d.buyer_payment_info.is_jko_app_installed);
    assert_eq!(d.device_fingerprint.len(), 24);
    assert_eq!(d.device_id.len(), 44);
}

#[test]
fn sap_ri_layout() {
    let random: Vec<u8> = (0u8..22).collect();
    let (hex, ts, first) = x_sap_ri_from(0x0102_0304, &random);
    assert_eq!(hex, "04030201000102030405063703010a0b0c0d0e0f101112131415");
    assert_eq!(ts, 0x0102_0304);
    assert_eq!(first, 0);
    let (hex, _, _) = get_x_sap_ri();
    assert_eq!(hex.len(), 52);
    assert_eq!(&hex[22..23], "3");
    assert_eq!(&hex[24..28], "0301");
}
