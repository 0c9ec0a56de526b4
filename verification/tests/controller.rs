use soulsy::controller::control::{MenuEventResponse, RequestedAction};
use soulsy::controller::cycles::CycleData;
use soulsy::controller::facade::{
    equipped_data, equipset_index_to_id, get_cycle_formids, get_equipset_ids, get_equipset_names,
    handle_create_equipset, handle_remove_equipset, handle_rename_equipset, handle_update_equipset,
    look_up_equipset_by_name, serialize_cycles, serialize_version, show_ui, string_to_int, u8_widebytes_to_utf8,
    ucs2_to_utf8, WideTextError,
};
use soulsy::controller::itemdata::{
    empty_itemdata, hand2hand_itemdata, make_health_proxy, make_magicka_proxy, make_stamina_proxy,
    ItemData,
};
use soulsy::controller::keys::{CycleSlot, KeyState, Modifier, ModifierKeys, NotACycle};
use soulsy::controller::settings::{ActivationMethod, UnarmedMethod};
use soulsy::controller::tesitemkind::ItemKind;
use soulsy::plugin::{Action, EquippedData, HudElement, KeyEventResponse};

#[test]
fn script_numbers_are_read_like_parse() {
    assert_eq!(string_to_int("42".to_string()), 42);
    assert_eq!(string_to_int("-7".to_string()), -7);
    assert_eq!(string_to_int("+3".to_string()), 3);
    assert_eq!(string_to_int("007".to_string()), 7);
    assert_eq!(string_to_int("2147483647".to_string()), 2147483647);
    assert_eq!(string_to_int("-2147483648".to_string()), -2147483648);
    assert_eq!(string_to_int("2147483648".to_string()), -1);
    assert_eq!(string_to_int("".to_string()), -1);
    assert_eq!(string_to_int("-".to_string()), -1);
    assert_eq!(string_to_int(" 4".to_string()), -1);
    assert_eq!(string_to_int("4x".to_string()), -1);
    for text in ["12", "-12", "+0", "99999999999", "abc", "1_0"] {
        let expected = text.parse::<i32>().unwrap_or(-1);
        assert_eq!(string_to_int(text.to_string()), expected);
    }
}

fn three_sets() -> CycleData {
    let mut cycles = CycleData::default();
    for name in ["alpha", "beta", "gamma"] {
        let data = EquippedData {
            items: Vec::new(),
            empty_slots: Vec::new(),
        };
        assert!(handle_create_equipset(&mut cycles, name.to_string(), data));
    }
    cycles
}

#[test]
fn equipsets_through_the_script_interface() {
    let mut cycles = three_sets();
    assert_eq!(
        get_equipset_ids(&cycles),
        vec!["0".to_string(), "1".to_string(), "2".to_string()]
    );
    assert_eq!(equipset_index_to_id(&cycles, "2".to_string()), 2);
    assert_eq!(equipset_index_to_id(&cycles, "3".to_string()), -1);
    assert_eq!(equipset_index_to_id(&cycles, "-1".to_string()), -1);
    assert_eq!(equipset_index_to_id(&cycles, "70000".to_string()), -1);
    assert!(handle_rename_equipset(&mut cycles, 1, "delta".to_string()));
    assert_eq!(look_up_equipset_by_name(&mut cycles, "delta".to_string()), 1);
    assert!(handle_remove_equipset(&mut cycles, 0));
    assert!(!handle_remove_equipset(&mut cycles, 0));
    assert_eq!(
        get_equipset_names(&cycles),
        vec!["delta".to_string(), "gamma".to_string()]
    );
    assert_eq!(equipset_index_to_id(&cycles, "0".to_string()), 1);
    let data = equipped_data(vec!["mod.esp|0x1".to_string()], vec![2]);
    assert_eq!(data.items, vec!["mod.esp|0x1".to_string()]);
    assert!(handle_update_equipset(&mut cycles, 2, *data));
    assert!(show_ui(&mut cycles));
    assert_eq!(serialize_version(), 2);
}

#[test]
fn written_ids_read_back() {
    let cycles = three_sets();
    for id in get_equipset_ids(&cycles) {
        let read = string_to_int(id.clone());
        assert_eq!(read.to_string(), id);
    }
}

#[test]
fn cycle_formids_by_script_number() {
    let mut cycles = CycleData::default();
    cycles.add_item(CycleSlot::Utility, "mod.esp|0x9");
    assert_eq!(get_cycle_formids(&cycles, 1), vec!["mod.esp|0x9".to_string()]);
    assert!(get_cycle_formids(&cycles, 0).is_empty());
    assert!(get_cycle_formids(&cycles, 9).is_empty());
}

#[test]
fn wide_strings_decode_into_padded_utf8() {
    assert_eq!(ucs2_to_utf8(vec![0x41, 0x42]), Ok("AB\0\0".to_string()));
    assert_eq!(ucs2_to_utf8(vec![0xe9]), Ok("é".to_string()));
    assert_eq!(ucs2_to_utf8(vec![0x3042]), Err(WideTextError::TooLong));
    assert_eq!(ucs2_to_utf8(Vec::new()), Ok(String::new()));
    assert_eq!(
        u8_widebytes_to_utf8(vec![0x41, 0x00, 0x42]),
        Err(WideTextError::NotWideText)
    );
    assert_eq!(u8_widebytes_to_utf8(Vec::new()), Ok(String::new()));
}

#[test]
fn named_items_carry_nul_terminated_names() {
    let item = ItemData::new_with_name(
        ItemKind::HandToHand,
        false,
        false,
        1,
        "Fists".to_string(),
        "fists",
    );
    assert_eq!(item.name(), "Fists".to_string());
    assert_eq!(item.name_bytes(), vec![0x46, 0x69, 0x73, 0x74, 0x73, 0x00]);
    assert!(item.name_is_utf8());
    assert_eq!(item.form_string(), "fists".to_string());
    let unarmed = hand2hand_itemdata();
    assert_eq!(unarmed.form_string(), "unarmed_proxy".to_string());
    assert_eq!(unarmed.kind(), ItemKind::HandToHand);
    assert_eq!(unarmed.count(), 1);
    let mut magicka = make_magicka_proxy(10);
    assert_eq!(magicka.count(), 10);
    assert!(magicka.has_count());
    magicka.set_count(3);
    assert_eq!(magicka.count(), 3);
    assert!(!magicka.highlighted());
    magicka.set_highlighted(true);
    assert!(magicka.highlighted());
    assert_eq!(make_health_proxy(8).name(), "Best Health".to_string());
    assert_eq!(make_stamina_proxy(11).kind(), ItemKind::PotionStamina);
    let empty = empty_itemdata();
    assert_eq!(empty.name(), String::new());
    assert_eq!(empty.kind(), ItemKind::NotFound);
    assert!(!empty.two_handed());
}

#[test]
fn slots_actions_and_keys() {
    for slot in [CycleSlot::Left, CycleSlot::Power, CycleSlot::Right, CycleSlot::Utility] {
        let action = Action::from(slot);
        assert_eq!(CycleSlot::try_from(action), Ok(slot));
    }
    assert_eq!(CycleSlot::try_from(Action::ShowHide), Err(NotACycle));
    assert_eq!(HudElement::from(&CycleSlot::Power), HudElement::Power);
    let keys = ModifierKeys {
        unequip: 42,
        cycle: 56,
        activate: 29,
        menu: -1,
    };
    assert_eq!(Modifier::Cycle.key_for(&keys), 56);
    assert_eq!(Modifier::Menu.key_for(&keys), -1);
    assert_eq!(KeyState::default(), KeyState::Up);
    assert_eq!(KeyState::from_button(true, true), KeyState::Down);
    assert_eq!(KeyState::from_button(false, true), KeyState::Pressed);
    assert_eq!(KeyState::from_button(false, false), KeyState::Up);
}

#[test]
fn settings_values_and_responses() {
    assert_eq!(ActivationMethod::from_ini("1"), Some(ActivationMethod::LongPress));
    assert_eq!(ActivationMethod::from_ini("3"), None);
    assert_eq!(UnarmedMethod::from_ini("3"), Some(UnarmedMethod::AddToCycles));
    assert_eq!(UnarmedMethod::from_ini(""), None);
    assert_eq!(MenuEventResponse::default(), MenuEventResponse::Unhandled);
    let handled = KeyEventResponse::handled();
    assert!(handled.handled);
    assert_eq!(handled.start_timer, Action::NoAction);
    assert!(!KeyEventResponse::default().handled);
    assert_ne!(RequestedAction::Advance, RequestedAction::NoAction);
}

#[test]
fn saved_bytes_decode_to_the_cycles() {
    let mut cycles = three_sets();
    cycles.add_item(CycleSlot::Power, "mod.esp|0x7");
    let bytes = serialize_cycles(&cycles);
    let (value, len): (
        (
            Vec<String>,
            Vec<String>,
            Vec<String>,
            Vec<String>,
            Vec<(u32, String, Vec<String>, Vec<u8>, String)>,
            bool,
        ),
        usize,
    ) = bincode::decode_from_slice(&bytes[..], bincode::config::standard())
        .expect("saved bytes decode");
    assert_eq!(len, bytes.len());
    assert!(value.0.is_empty());
    assert_eq!(value.2, vec!["mod.esp|0x7".to_string()]);
    assert_eq!(value.4.len(), 3);
    assert_eq!(value.4[0].1, "alpha");
    assert!(value.4[0].3.is_empty());
    assert_eq!(value.4[0].4, "ArmorHeavy");
    assert_eq!(value.5, cycles.hud_visible);
    assert_eq!(bytes, cycles.serialize());
}
