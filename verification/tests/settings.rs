use soulsy::plugin::HudElement;
use soulsy::controller::settings::{
    bool_from_ini, i32_from_ini, u32_from_ini, u8_from_ini, ActivationMethod, KeySettings,
    NamedAnchor, UnarmedMethod, UserSettings,
};

#[test]
fn settings_values_read_like_parse() {
    assert_eq!(u32_from_ini("12"), Some(12));
    assert_eq!(u32_from_ini("+3"), Some(3));
    assert_eq!(u32_from_ini("-1"), None);
    assert_eq!(u32_from_ini("4294967295"), Some(u32::MAX));
    assert_eq!(u32_from_ini("4294967296"), None);
    assert_eq!(u32_from_ini(""), None);
    assert_eq!(u8_from_ini("255"), Some(255));
    assert_eq!(u8_from_ini("256"), None);
    assert_eq!(i32_from_ini("-5"), Some(-5));
    assert_eq!(i32_from_ini("x"), None);
    for text in ["7", "+7", "-7", "70000", "4294967296", "1e3", " 1"] {
        assert_eq!(u32_from_ini(text), text.parse::<u32>().ok());
        assert_eq!(i32_from_ini(text), text.parse::<i32>().ok());
        assert_eq!(u8_from_ini(text), text.parse::<u8>().ok());
    }
}

#[test]
fn flags_are_set_unless_zero_or_false() {
    assert!(!bool_from_ini("0"));
    assert!(!bool_from_ini("false"));
    assert!(!bool_from_ini("FaLsE"));
    assert!(bool_from_ini("1"));
    assert!(bool_from_ini("yes"));
    assert!(bool_from_ini(""));
}

#[test]
fn anchors_are_numbered() {
    assert_eq!(NamedAnchor::from_ini("3"), Some(NamedAnchor::BottomLeft));
    assert_eq!(NamedAnchor::from_ini("8"), Some(NamedAnchor::LeftCenter));
    assert_eq!(NamedAnchor::from_ini("9"), Some(NamedAnchor::LeftCenter));
    assert_eq!(NamedAnchor::from_ini("42"), Some(NamedAnchor::NoAnchor));
    assert_eq!(NamedAnchor::from_ini("0"), Some(NamedAnchor::NoAnchor));
    assert_eq!(NamedAnchor::from_ini("x"), None);
}

#[test]
fn the_settings_file_overrides_the_defaults() {
    let mut settings = UserSettings::default();
    assert_eq!(settings.keys, KeySettings::default());
    assert_eq!(settings.equip_delay_ms, 750);
    assert_eq!(settings.keys.long_press_ms, 1250);
    let text = "[Controls]\n\
                uLeftCycleKey = 12\n\
                uHowToCycle = 2\n\
                uHowToUnequip = 4\n\
                iUnequipHotkey = 33\n\
                uPowerCycleKey = nonsense\n\
                [Options]\n\
                uEquipDelay = 3000\n\
                uLongPressMillis = 100\n\
                bAutoFade = false\n\
                uControllerKind = 5\n\
                uAnchorLocation = 2\n\
                sSKSEIdentifier = ABCD\n";
    assert!(settings.read_from_text(text));
    assert_eq!(settings.keys.left, 12);
    assert_eq!(settings.keys.power, 3);
    assert_eq!(settings.keys.how_to_cycle, ActivationMethod::Modifier);
    assert_eq!(settings.keys.unarmed_handling, UnarmedMethod::Hotkey);
    assert_eq!(settings.keys.unequip_hotkey(), 33);
    assert_eq!(settings.equip_delay_ms, 2500);
    assert_eq!(settings.keys.long_press_ms, 2600);
    assert!(!settings.keys.autofade);
    assert_eq!(settings.controller_kind, 1);
    assert_eq!(settings.anchor_loc, NamedAnchor::TopRight);
    assert_eq!(settings.skse_identifier, "ABCD");
    assert_eq!(settings.slow_time_percent, 25);
    assert!(settings.keys.long_press_ms > settings.equip_delay_ms);
    // A long press without its own setting follows the delay.
    let mut other = UserSettings::default();
    assert!(other.read_from_text("[Options]\nuEquipDelay = 400\n"));
    assert_eq!(other.equip_delay_ms, 400);
    assert_eq!(other.keys.long_press_ms, 400);
}

#[test]
fn unreadable_settings_change_nothing() {
    let mut settings = UserSettings::default();
    assert!(!settings.read_from_text("[Controls\nuLeftCycleKey = 12\n"));
    assert_eq!(settings.keys.left, 5);
    assert_eq!(settings.skse_identifier, "SOLS");
}

#[test]
fn identifiers_and_slot_keys() {
    let mut settings = UserSettings::default();
    assert_eq!(settings.skse_identifier(), u32::from_le_bytes(*b"SOLS"));
    settings.skse_identifier = "AB".to_string();
    assert_eq!(settings.skse_identifier(), u32::from_le_bytes(*b"AB  "));
    let keys = KeySettings::default();
    assert_eq!(keys.hotkey_for(HudElement::Ammo), keys.left);
    assert_eq!(keys.hotkey_for(HudElement::EquipSet), 9);
    assert_eq!(keys.hotkey_for(HudElement::NotDrawn), keys.refresh_layout);
}

#[test]
fn settings_answer_for_their_keys_and_options() {
    let mut s = UserSettings::default();
    assert_eq!(s.maxlen(), 20);
    assert_eq!(s.equip_delay_ms(), 750);
    assert_eq!(s.fade_time(), 2000);
    assert_eq!(s.long_press_ms(), s.keys.long_press_ms);
    assert_eq!(s.left(), s.keys.left);
    assert_eq!(s.right(), s.keys.right);
    assert_eq!(s.power(), s.keys.power);
    assert_eq!(s.utility(), s.keys.utility);
    assert_eq!(s.equipset(), s.keys.equipset);
    assert_eq!(s.activate(), s.keys.activate);
    assert_eq!(s.showhide(), s.keys.showhide);
    assert_eq!(s.refresh_layout(), s.keys.refresh_layout);
    assert!(s.colorize_icons());
    assert!(s.equip_sets_unequip());
    assert!(!s.link_to_favorites());
    assert!(!s.cycling_slows_time());
    assert_eq!(*s.anchor_loc(), NamedAnchor::NoAnchor);
    assert_eq!(s.controller_kind(), 0);
    s.controller_kind = 7;
    assert_eq!(s.controller_kind(), 2);
    s.keys.unarmed_handling = UnarmedMethod::Hotkey;
    s.keys.unequip_hotkey = 40;
    assert_eq!(s.unequip_hotkey(), 40);
    assert_eq!(*s.unequip_method(), UnarmedMethod::Hotkey);
    s.keys.unarmed_handling = UnarmedMethod::NoSupport;
    assert_eq!(s.unequip_hotkey(), -1);
    s.keys.cycle_modifier = 42;
    assert!(s.cycle_with_modifier());
    assert_eq!(s.cycle_modifier(), 42);
    s.keys.how_to_activate = ActivationMethod::LongPress;
    assert_eq!(*s.utility_activation_method(), ActivationMethod::LongPress);
    assert!(s.should_start_long_press_timer(s.keys.power));
    assert!(!s.should_start_long_press_timer(s.keys.showhide));
}

#[test]
fn layouts_name_their_anchors() {
    assert_eq!(NamedAnchor::from_layout_name("center"), Some(NamedAnchor::Center));
    assert_eq!(NamedAnchor::from_layout_name("bottom_center"), Some(NamedAnchor::CenterBottom));
    assert_eq!(NamedAnchor::from_layout_name("Top_Right"), Some(NamedAnchor::TopRight));
    assert_eq!(NamedAnchor::from_layout_name("center_left"), Some(NamedAnchor::LeftCenter));
    assert_eq!(NamedAnchor::from_layout_name("none"), Some(NamedAnchor::NoAnchor));
    assert_eq!(NamedAnchor::from_layout_name("middle"), None);
    assert_eq!(NamedAnchor::from("RIGHT_CENTER"), NamedAnchor::RightCenter);
    assert_eq!(NamedAnchor::from("sideways"), NamedAnchor::NoAnchor);
    for a in [
        NamedAnchor::TopLeft,
        NamedAnchor::TopRight,
        NamedAnchor::BottomLeft,
        NamedAnchor::BottomRight,
        NamedAnchor::Center,
        NamedAnchor::CenterTop,
        NamedAnchor::CenterBottom,
        NamedAnchor::LeftCenter,
        NamedAnchor::RightCenter,
        NamedAnchor::NoAnchor,
    ] {
        assert_eq!(NamedAnchor::from_layout_name(a.layout_name()), Some(a));
    }
    assert_eq!(NamedAnchor::CenterTop.layout_name(), "center_top");
}

#[test]
fn can_read_example_ini() {
    // The settings file as the mod configuration menu writes it.
    let text = "[Controls]\n\
                uLeftCycleKey = 5\n\
                uRightCycleKey = 7\n\
                uPowerCycleKey = 3\n\
                uUtilityCycleKey = 6\n\
                uUtilityActivateKey = 4\n\
                iEquipSetCycleKey = -1\n\
                uHowToCycle = 0\n\
                uHowToActivate = 0\n\
                uHowToUnequip = 1\n\
                iCycleModifierKey = -1\n\
                bLongPressMatches = 1\n\
                bCycleAmmo = 1\n\
                uShowHideKey = 2\n\
                uRefreshKey = 0\n\
                [Options]\n\
                uEquipDelay = 750\n\
                uLongPressMillis = 1250\n\
                bAutoFade = true\n\
                uFadeTime = 2000\n\
                bEquipSetsUnequip = 1\n\
                bGroupPotions = 1\n\
                bDebugMode = 0\n\
                sLogLevel = info\n\
                uAnchorLocation = 0\n\
                sSKSEIdentifier = SOLS\n";
    let mut le_options = UserSettings::default();
    assert!(le_options.read_from_text(text));
    assert!(le_options.keys.long_press_ms > le_options.equip_delay_ms);
}
