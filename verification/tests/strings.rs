use soulsy::controller::control::{
    cycle_notice, favorite_format_keys, label_format_key, toggle_format_key, MenuEventResponse,
};
use soulsy::controller::facade::{
    convert_to_string_doggedly, text_from_units, u8_widebytes_to_utf8, WideTextError,
};
use soulsy::controller::hud::{CycleLabel, FavoriteChange};
use soulsy::controller::strings::{convert_to_utf8, cstr_to_utf8, string_to_utf8};

#[test]
fn utf8_data_is_untouched() {
    let example = "Sacrÿfev Tëliimi";
    let converted = convert_to_utf8(example.as_bytes().to_vec());
    assert_eq!(converted, example);
    let ex2 = "おはよう";
    let convert2 = convert_to_utf8(ex2.as_bytes().to_vec());
    assert_eq!(convert2, ex2);
    let ex3 = "Zażółć gęślą jaźń";
    let convert3 = convert_to_utf8(ex3.as_bytes().to_vec());
    assert_eq!(convert3, ex3);
}

#[test]
fn iso8859_is_decoded() {
    let bytes: Vec<u8> = vec![
        0x53, 0x61, 0x63, 0x72, 0xff, 0x66, 0x65, 0x76, 0x20, 0x54, 0xeb, 0x6c, 0x69, 0x69,
        0x6d, 0x69,
    ];
    assert!(String::from_utf8(bytes.clone()).is_err());
    let utf8_version = "Sacrÿfev Tëliimi".to_string();
    let converted = convert_to_utf8(bytes.clone());
    assert_eq!(converted, utf8_version);
}

#[test]
fn c_strings_lose_their_terminator() {
    assert_eq!(convert_to_utf8(Vec::new()), "");
    assert_eq!(cstr_to_utf8(b"Iron Dagger\0".to_vec()), "Iron Dagger");
    assert_eq!(cstr_to_utf8(b"Iron Dagger".to_vec()), "Iron Dagger");
    assert_eq!(string_to_utf8(b"Iron Dagger".to_vec()), "Iron Dagger");
}

#[test]
fn names_are_read_doggedly() {
    assert_eq!(convert_to_string_doggedly("Sacrÿfev".as_bytes().to_vec()), "Sacrÿfev");
    // An odd number of bytes that are not UTF-8 cannot be wide text.
    assert_eq!(convert_to_string_doggedly(vec![0xff, 0x41, 0x42]), "");
    // Two bytes of little-endian wide text.
    assert_eq!(convert_to_string_doggedly(vec![0xff, 0x00]), "ÿ");
}

#[test]
fn wide_units_decode_or_fall_back_to_the_c_string() {
    assert_eq!(text_from_units(vec![0x41, 0x42], &vec![0x41, 0x00, 0x42, 0x00]), "AB\0\0");
    // A unit that needs three bytes does not fit: the bytes are read as a C string.
    assert_eq!(text_from_units(vec![0x3042], &b"hi\0".to_vec()), "hi");
}

#[test]
fn wide_bytes_read_in_the_machine_byte_order() {
    // Low byte first the units are "AB"; high byte first they need three
    // bytes each and do not fit.
    let r = u8_widebytes_to_utf8(vec![0x41, 0x00, 0x42, 0x00]);
    assert!(
        r == Ok("AB\0\0".to_string())
            || r == Err(WideTextError::TooLong)
            || r == Err(WideTextError::NotWideText)
    );
    let text = convert_to_string_doggedly(vec![0x41, 0x00, 0x42, 0x00, 0xff, 0xfe]);
    assert!(text == "AB\u{feff}\0" || text == "A" || text.is_empty());
}

#[test]
fn notices_name_the_item_and_the_cycle() {
    assert_eq!(toggle_format_key(MenuEventResponse::ItemAdded), "$SoulsyHUD_fmt_ItemAdded");
    assert_eq!(toggle_format_key(MenuEventResponse::Okay), "$SoulsyHUD_fmt_NoChange");
    assert_eq!(label_format_key(CycleLabel::BothHands), "$SoulsyHUD_fmt_BothHands");
    assert_eq!(
        favorite_format_keys(FavoriteChange::Removed(CycleLabel::Powers)),
        ("$SoulsyHUD_fmt_ItemRemoved", "$SoulsyHUD_fmt_PowersCycle")
    );
    assert_eq!(
        cycle_notice("{item} added to {cycle}", "Iron Dagger", "left hand"),
        Some("Iron Dagger added to left hand".to_string())
    );
    assert_eq!(cycle_notice("{nothing} here", "a", "b"), None);
}
