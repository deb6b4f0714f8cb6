use hamh::matter::MatterError;
use hamh::pairing::{
    details_of, pairing_from_parts, pairing_info, pretty_pairing_code, DEFAULT_DISCRIMINATOR,
    DEFAULT_PASSCODE, PRODUCT_ID, VENDOR_ID,
};
use hamh::settings::{
    text_or, u16_or, u32_or, DEFAULT_API_PORT, DEFAULT_HOME_ASSISTANT_URL,
    DEFAULT_STORAGE_LOCATION,
};

const ID: u128 = 0x550e8400_e29b_41d4_a716_446655440000;

#[test]
fn pretty_code_groups_the_digits() {
    assert_eq!(pretty_pairing_code("00876800071"), "0087-6800-071");
    assert_eq!(pretty_pairing_code("26318621095"), "2631-8621-095");
    assert_eq!(pretty_pairing_code("123456789"), "1234-5678-9");
    assert_eq!(pretty_pairing_code("12345678"), "12345678");
    assert_eq!(pretty_pairing_code(""), "");
}

#[test]
fn pairing_info_for_known_commissioning_data() {
    let info = pairing_info(ID, 123456, 250).expect("valid commissioning data");
    assert_eq!(info.manual_code, "0087-6800-071");
    assert_eq!(info.discriminator, 250);
    assert!(info.qr_text.starts_with("MT:"));
    assert!(info.qr_text.len() > 3);
    assert!(info.qr_text.is_ascii());
    assert!(info.qr_unicode.lines().count() > 10);
    assert_ne!(info.qr_unicode, info.qr_text);

    let other = pairing_info(ID, 34567890, 2976).expect("valid commissioning data");
    assert_eq!(other.manual_code, "2631-8621-095");
    assert_ne!(other.qr_text, info.qr_text);
}

#[test]
fn pairing_info_is_deterministic() {
    let a = pairing_info(ID, DEFAULT_PASSCODE, DEFAULT_DISCRIMINATOR).expect("defaults are valid");
    let b = pairing_info(ID, DEFAULT_PASSCODE, DEFAULT_DISCRIMINATOR).expect("defaults are valid");
    assert_eq!(a.qr_text, b.qr_text);
    assert_eq!(a.qr_unicode, b.qr_unicode);
    assert_eq!(a.manual_code, b.manual_code);
    assert_eq!(a.discriminator, 3840);
    assert_eq!(b.discriminator, 3840);
    assert_eq!(a.manual_code.len(), 13);
    assert_eq!(DEFAULT_PASSCODE, 20202021);
}

#[test]
fn pairing_info_refuses_an_invalid_passcode() {
    for passcode in [0u32, 11111111, 12345678, 99999999] {
        match pairing_info(ID, passcode, DEFAULT_DISCRIMINATOR) {
            Err(MatterError::Runtime(text)) => assert_eq!(text, "InvalidArgument"),
            _ => panic!("an invalid passcode is a runtime error"),
        }
    }
}

#[test]
fn pairing_parts_fail_in_order() {
    let err = |s: &str| Err(s.to_string());
    let ok = |s: &str| Ok(s.to_string());
    match pairing_from_parts(err("text"), err("art"), "00876800071", 1) {
        Err(MatterError::Runtime(text)) => assert_eq!(text, "text"),
        _ => panic!("the error of the text comes first"),
    }
    match pairing_from_parts(ok("MT:X"), err("art"), "00876800071", 1) {
        Err(MatterError::Runtime(text)) => assert_eq!(text, "art"),
        _ => panic!("the error of the drawing comes next"),
    }
    let info = pairing_from_parts(ok("MT:X"), ok("##"), "00876800071", 9).expect("all parts");
    assert_eq!(info.qr_text, "MT:X");
    assert_eq!(info.qr_unicode, "##");
    assert_eq!(info.manual_code, "0087-6800-071");
    assert_eq!(info.discriminator, 9);
}

#[test]
fn details_name_the_bridge() {
    let d = details_of(ID);
    assert_eq!((d.vid, d.pid), (VENDOR_ID, PRODUCT_ID));
    assert_eq!((d.hw_ver, d.sw_ver), (1, 1));
    assert_eq!(d.sw_ver_str, "1");
    assert_eq!(d.serial_no, "hamh-550e8400-e29b-41d4-a716-446655440000");
    assert_eq!(d.device_name, "HAMH 550e8400-e29b-41d4-a716-446655440000");
}

#[test]
fn numbers_with_defaults() {
    assert_eq!(u32_or(Some("20202021"), 1), 20202021);
    assert_eq!(u32_or(Some("+7"), 1), 7);
    assert_eq!(u32_or(Some("007"), 1), 7);
    assert_eq!(u32_or(Some("4294967295"), 1), u32::MAX);
    assert_eq!(u32_or(Some("4294967296"), 1), 1);
    assert_eq!(u32_or(Some(""), 1), 1);
    assert_eq!(u32_or(Some("+"), 1), 1);
    assert_eq!(u32_or(Some("-1"), 1), 1);
    assert_eq!(u32_or(Some(" 5"), 1), 1);
    assert_eq!(u32_or(Some("5x"), 1), 1);
    assert_eq!(u32_or(None, 20202021), 20202021);
    assert_eq!(u16_or(Some("3840"), 9), 3840);
    assert_eq!(u16_or(Some("65535"), 9), 65535);
    assert_eq!(u16_or(Some("65536"), 9), 9);
    assert_eq!(u16_or(Some("abc"), 9), 9);
    assert_eq!(u16_or(None, DEFAULT_API_PORT), 8482);
}

#[test]
fn text_settings_with_defaults() {
    assert_eq!(text_or(None, DEFAULT_STORAGE_LOCATION), ".hamh-storage");
    assert_eq!(text_or(Some("/data".to_string()), DEFAULT_STORAGE_LOCATION), "/data");
    assert_eq!(text_or(Some(String::new()), DEFAULT_HOME_ASSISTANT_URL), "");
    assert_eq!(text_or(None, DEFAULT_HOME_ASSISTANT_URL), "http://localhost:8123/");
}
