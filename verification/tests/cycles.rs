use soulsy::controller::control::MenuEventResponse;
use soulsy::controller::cosave_v0::{CycleSerialized, ItemSerialized};
use soulsy::controller::cosave_v1;
use soulsy::controller::cosave_v2;
use soulsy::controller::cycleentries::{
    rename_found, u32_to_decimal, update_found, Cycle, EquipSet, UpdateableItemCycle,
};
use soulsy::controller::cycles::{CycleData, Inventory};
use soulsy::controller::keys::CycleSlot;
use soulsy::data::armor::ArmorType;
use soulsy::data::base::{BaseType, LightType};
use soulsy::data::color::InvColor;
use soulsy::data::potion::PotionType;
use soulsy::data::weapon::{WeaponEquipType, WeaponType};
use soulsy::images::icons::Icon;
use soulsy::plugin::EquippedData;

#[test]
fn basic_cycle_behavior() {
    let mut testcycle = Vec::<&str>::new();
    assert!(testcycle.add(&"one"));
    assert!(testcycle.add(&"two"));
    assert!(testcycle.add(&"three"));
    assert_eq!(testcycle.top().expect("should have a top entry"), "one");
    let advanced = testcycle.advance(1).expect("advancing should work");
    assert_eq!(advanced, "two");
    let next = testcycle
        .peek_next()
        .expect("peeking should return an item");
    assert_eq!(next, "three");
    testcycle.set_top("one");
    assert_eq!(testcycle.top().expect("top should now be one"), "one");
    assert!(testcycle.includes(&"two"));
    assert!(testcycle.delete(&"two"));
    assert!(!testcycle.includes(&"two"));

    assert!(testcycle.add(&"four"));
    assert!(!testcycle.add(&"four"));
    assert!(testcycle.add(&"five"));
    assert_eq!(testcycle.len(), 4);
    assert!(testcycle.filter_id("four"));
    assert!(!testcycle.filter_id("four"));
    assert_eq!(testcycle.len(), 3);
}

#[test]
fn finding_the_next_id() {
    let mut cycle = Vec::<EquipSet>::new();
    let id = cycle.find_next_id();
    assert_eq!(id, 0);
    let zero = EquipSet::new(id, id.to_string(), Vec::new());
    assert!(cycle.add(&zero));
    let id = cycle.find_next_id();
    assert_eq!(id, 1);
    let one = EquipSet::new(id, id.to_string(), Vec::new());
    assert!(cycle.add(&one));
    let id = cycle.find_next_id();
    assert_eq!(id, 2);
    let two = EquipSet::new(id, id.to_string(), Vec::new());
    assert!(cycle.add(&two));
    assert!(cycle.delete(&one));
    let id = cycle.find_next_id();
    assert_eq!(id, 1);
}

#[test]
fn version_0() {
    // lowest priority to write tests for;
    // only used to load from very old saves
}

fn no_items() -> EquippedData {
    EquippedData {
        items: Vec::new(),
        empty_slots: Vec::new(),
    }
}

fn sword() -> BaseType {
    BaseType::Weapon(WeaponType::new(
        Icon::WeaponSwordOneHanded,
        InvColor::White,
        WeaponEquipType::EitherHand,
    ))
}

#[test]
fn toggling_twice_restores_the_cycle() {
    let mut cycles = CycleData::default();
    assert!(cycles.add_item(CycleSlot::Left, "mod.esp|0x1"));
    let before = cycles.formids(&CycleSlot::Left);
    let added = cycles.toggle(&CycleSlot::Left, "mod.esp|0x2", &sword(), 20);
    assert_eq!(added, MenuEventResponse::ItemAdded);
    assert_eq!(
        cycles.formids(&CycleSlot::Left),
        vec!["mod.esp|0x1".to_string(), "mod.esp|0x2".to_string()]
    );
    let removed = cycles.toggle(&CycleSlot::Left, "mod.esp|0x2", &sword(), 20);
    assert_eq!(removed, MenuEventResponse::ItemRemoved);
    assert_eq!(cycles.formids(&CycleSlot::Left), before);
}

#[test]
fn toggle_refuses_full_cycles_and_wrong_kinds() {
    let mut cycles = CycleData::default();
    assert_eq!(
        cycles.toggle(&CycleSlot::Utility, "mod.esp|0x3", &sword(), 20),
        MenuEventResponse::ItemInappropriate
    );
    assert_eq!(cycles.cycle_len(&CycleSlot::Utility), 0);
    let potion = BaseType::Potion(PotionType::Health);
    assert_eq!(
        cycles.toggle(&CycleSlot::Utility, "mod.esp|0x4", &potion, 1),
        MenuEventResponse::ItemAdded
    );
    assert_eq!(
        cycles.toggle(&CycleSlot::Utility, "mod.esp|0x5", &potion, 1),
        MenuEventResponse::TooManyItems
    );
    assert_eq!(cycles.cycle_len(&CycleSlot::Utility), 1);
    let lantern = BaseType::Light(LightType::Lantern);
    assert_eq!(
        cycles.toggle(&CycleSlot::Right, "mod.esp|0x6", &lantern, 20),
        MenuEventResponse::ItemInappropriate
    );
    assert_eq!(
        cycles.toggle(&CycleSlot::Power, "mod.esp|0x7", &BaseType::Power, 20),
        MenuEventResponse::ItemAdded
    );
}

#[test]
fn advancing_and_peeking_cycles() {
    let mut cycles = CycleData::default();
    cycles.add_item(CycleSlot::Right, "a");
    cycles.add_item(CycleSlot::Right, "b");
    cycles.add_item(CycleSlot::Right, "c");
    assert_eq!(cycles.get_top(&CycleSlot::Right), Some("a".to_string()));
    assert_eq!(cycles.peek_next(&CycleSlot::Right), Some("b".to_string()));
    assert_eq!(cycles.advance(&CycleSlot::Right, 2), Some("c".to_string()));
    assert_eq!(cycles.advance(&CycleSlot::Right, 3), Some("c".to_string()));
    cycles.set_top(&CycleSlot::Right, "b");
    assert_eq!(cycles.get_top(&CycleSlot::Right), Some("b".to_string()));
    cycles.set_top(&CycleSlot::Right, "nothing");
    assert_eq!(cycles.get_top(&CycleSlot::Right), Some("b".to_string()));
    assert!(cycles.includes(&CycleSlot::Right, "a"));
    assert!(!cycles.includes(&CycleSlot::Left, "a"));
    assert!(cycles.remove_item(CycleSlot::Right, "a"));
    assert!(!cycles.includes(&CycleSlot::Right, "a"));
    assert_eq!(cycles.get_top(&CycleSlot::Power), None);
}

#[test]
fn zero_counts_leave_the_utility_cycle() {
    let mut cycles = CycleData::default();
    cycles.add_item(CycleSlot::Utility, "potion");
    cycles.add_item(CycleSlot::Left, "potion");
    let potion = BaseType::Potion(PotionType::Health);
    cycles.remove_zero_count_items("potion", &potion, 3);
    assert!(cycles.includes(&CycleSlot::Utility, "potion"));
    cycles.remove_zero_count_items("potion", &potion, 0);
    assert!(!cycles.includes(&CycleSlot::Utility, "potion"));
    // A potion is no hand item, so the hand cycles are not searched for it.
    assert!(cycles.includes(&CycleSlot::Left, "potion"));
    // A sword that runs out leaves both hand cycles.
    let sword = BaseType::Weapon(WeaponType::new(
        Icon::WeaponSwordOneHanded,
        InvColor::White,
        WeaponEquipType::EitherHand,
    ));
    cycles.add_item(CycleSlot::Left, "sword");
    cycles.add_item(CycleSlot::Right, "sword");
    cycles.add_item(CycleSlot::Utility, "sword");
    cycles.remove_zero_count_items("sword", &sword, 0);
    assert!(!cycles.includes(&CycleSlot::Left, "sword"));
    assert!(!cycles.includes(&CycleSlot::Right, "sword"));
    assert!(cycles.includes(&CycleSlot::Utility, "sword"));
    assert!(cycles.includes(&CycleSlot::Left, "potion"));
}

#[test]
fn hud_visibility_changes() {
    let mut cycles = CycleData::default();
    assert!(cycles.hud_visible());
    assert!(!cycles.set_hud_visible(true));
    assert!(cycles.toggle_hud());
    assert!(!cycles.hud_visible());
    assert!(cycles.set_hud_visible(true));
    assert!(cycles.hud_visible());
    cycles.add_item(CycleSlot::Power, "shout");
    cycles.clear();
    assert_eq!(cycles.cycle_len(&CycleSlot::Power), 0);
    assert!(cycles.hud_visible);
}

#[test]
fn equipsets_get_fresh_ids_and_sorted_listings() {
    let mut cycles = CycleData::default();
    assert!(cycles.add_equipset("set-one".to_string(), no_items()));
    assert!(cycles.add_equipset("set-two".to_string(), no_items()));
    assert!(cycles.add_equipset("set-three".to_string(), no_items()));
    assert_eq!(cycles.equipset_ids(), vec![0, 1, 2]);
    assert!(cycles.remove_equipset("1".to_string()));
    assert!(!cycles.remove_equipset("1".to_string()));
    assert!(cycles.add_equipset("set-four".to_string(), no_items()));
    assert_eq!(cycles.equipset_ids(), vec![0, 1, 2]);
    assert_eq!(
        cycles.equipset_names(),
        vec![
            "set-one".to_string(),
            "set-four".to_string(),
            "set-three".to_string()
        ]
    );
    assert_eq!(cycles.equipset_by_name("set-four".to_string()), 1);
    assert_eq!(cycles.equipset_by_name("missing".to_string()), 0);
    let top = cycles.get_top_equipset().expect("there are equipsets");
    assert_eq!(top.id(), 0);
    let next = cycles.advance_equipset(1).expect("there are equipsets");
    assert_eq!(next.id(), 2);
    let found = cycles.equipset_by_id(1).expect("set one exists");
    assert_eq!(found.name(), "set-four".to_string());
    assert!(cycles.equipset_by_id(7).is_none());
}

#[test]
fn sets_out_of_id_order_are_still_found_by_id() {
    let mut cycles = CycleData::default();
    assert!(cycles.add_equipset("zero".to_string(), no_items()));
    assert!(cycles.add_equipset("one".to_string(), no_items()));
    assert!(cycles.add_equipset("two".to_string(), no_items()));
    assert!(cycles.remove_equipset("1".to_string()));
    assert!(cycles.add_equipset("again".to_string(), no_items()));
    // Held as ids 0, 2, 1.
    let held: Vec<u32> = cycles.equipsets.iter().map(|s| s.id()).collect();
    assert_eq!(held, vec![0, 2, 1]);
    assert!(cycles.rename_equipset(1, "renamed".to_string()));
    assert_eq!(cycles.equipset_by_id(1).expect("set one exists").name(), "renamed".to_string());
    assert_eq!(cycles.equipset_by_id(2).expect("set two exists").name(), "two".to_string());
    let data = EquippedData {
        items: vec!["mod.esp|0x7".to_string()],
        empty_slots: Vec::new(),
    };
    assert!(cycles.update_equipset(1, data));
    assert_eq!(
        cycles.equipset_by_id(1).expect("set one exists").item_specs(),
        vec!["mod.esp|0x7".to_string()]
    );
    assert!(cycles.equipset_by_id(2).expect("set two exists").item_specs().is_empty());
    assert!(!cycles.rename_equipset(3, "none".to_string()));
    assert_eq!(cycles.equipset_ids(), vec![0, 1, 2]);
    assert_eq!(
        cycles.equipset_names(),
        vec!["zero".to_string(), "renamed".to_string(), "two".to_string()]
    );
}

#[test]
fn turning_the_equipsets_keeps_their_ids() {
    let mut cycles = CycleData::default();
    assert!(cycles.add_equipset("a".to_string(), no_items()));
    assert!(cycles.add_equipset("b".to_string(), no_items()));
    assert!(cycles.add_equipset("c".to_string(), no_items()));
    let before = cycles.equipset_ids();
    let names = cycles.equipset_names();
    let top = cycles.advance_equipset(2).expect("there are equipsets");
    assert_eq!(top.id(), 2);
    assert_eq!(cycles.equipset_ids(), before);
    assert_eq!(cycles.equipset_names(), names);
}

#[test]
fn equipsets_keep_the_slots_they_empty() {
    let mut cycles = CycleData::default();
    let data = EquippedData {
        items: vec!["mod.esp|0x1".to_string()],
        empty_slots: vec![3],
    };
    assert!(cycles.add_equipset("one".to_string(), data));
    let set = cycles.equipset_by_id(0).expect("set zero exists");
    assert_eq!(set.empty_slots(), vec![3]);
    let data = EquippedData {
        items: Vec::new(),
        empty_slots: vec![4, 5],
    };
    assert!(cycles.update_equipset(0, data));
    let set = cycles.equipset_by_id(0).expect("set zero exists");
    assert_eq!(set.empty_slots(), vec![4, 5]);
    assert!(set.item_specs().is_empty());
    // The slots are saved and read back.
    let bytes = cycles.serialize();
    let loaded = CycleData::deserialize(&bytes, 2, &Vec::new()).expect("saved cycles load");
    assert_eq!(loaded.equipset_by_id(0).expect("set zero loads").empty_slots(), vec![4, 5]);
}

#[test]
fn equipsets_can_be_renamed_and_updated() {
    let mut cycles = CycleData::default();
    cycles.add_equipset("first".to_string(), no_items());
    cycles.add_equipset("second".to_string(), no_items());
    assert!(cycles.rename_equipset(1, "renamed".to_string()));
    assert!(!cycles.rename_equipset(5, "nope".to_string()));
    assert_eq!(
        cycles.equipset_names(),
        vec!["first".to_string(), "renamed".to_string()]
    );
    let data = EquippedData {
        items: vec!["mod.esp|0x10".to_string()],
        empty_slots: vec![3],
    };
    assert!(cycles.update_equipset(0, data));
    let set = cycles.equipset_by_id(0).expect("set zero exists");
    assert_eq!(set.items, vec!["mod.esp|0x10".to_string()]);
    assert_eq!(CycleData::serialize_version(), 2);
}

#[test]
fn ids_are_written_in_decimal() {
    assert_eq!(u32_to_decimal(0), "0".to_string());
    assert_eq!(u32_to_decimal(1234567890), "1234567890".to_string());
    assert_eq!(u32_to_decimal(u32::MAX), u32::MAX.to_string());
}

#[test]
fn shields_and_armor_go_to_different_cycles() {
    let mut cycles = CycleData::default();
    let shield = BaseType::Armor(ArmorType::new(Icon::ArmorShieldHeavy, InvColor::Ash));
    let helmet = BaseType::Armor(ArmorType::new(Icon::ArmorHeavyHead, InvColor::Ash));
    assert_eq!(
        cycles.toggle(&CycleSlot::Left, "shield", &shield, 20),
        MenuEventResponse::ItemAdded
    );
    assert_eq!(
        cycles.toggle(&CycleSlot::Left, "helmet", &helmet, 20),
        MenuEventResponse::ItemInappropriate
    );
    assert_eq!(
        cycles.toggle(&CycleSlot::Utility, "helmet", &helmet, 20),
        MenuEventResponse::ItemAdded
    );
}

#[test]
fn version_2() {
    let mut cycle = CycleData::default();
    cycle.add_item(CycleSlot::Left, "fake-one");
    cycle.add_item(CycleSlot::Left, "fake-two");
    cycle.add_item(CycleSlot::Left, "fake-three");
    let data = EquippedData {
        items: Vec::new(),
        empty_slots: Vec::new(),
    };
    cycle.add_equipset("set-one".to_string(), data.clone());
    cycle.add_equipset("set-two".to_string(), data.clone());

    let bytes = cycle.serialize();
    let table: Vec<(String, String)> = ["fake-one", "fake-two", "fake-three"]
        .iter()
        .map(|s| (s.to_string(), s.to_string()))
        .collect();
    let decoded = cosave_v2::deserialize(&bytes, &table).expect("data should be decodeable");
    assert_eq!(decoded.loaded, !cycle.loaded);
    assert_eq!(decoded.left.len(), cycle.left.len());
    assert_eq!(decoded.equipsets.len(), cycle.equipsets.len());
    let set1 = decoded
        .get_top_equipset()
        .expect("expected actual equipsets");
    assert_eq!(set1.id(), 0);
}

#[test]
fn version_1() {
    let mut cycle = CycleData::default();
    cycle.add_item(CycleSlot::Left, "fake-one");
    cycle.add_item(CycleSlot::Left, "fake-two");
    cycle.add_item(CycleSlot::Left, "fake-three");

    let value = cosave_v1::CycleSerialized::from_cycles(&cycle);
    let config = bincode::config::standard();
    let bytes: Vec<u8> = bincode::encode_to_vec(
        (
            &value.left,
            &value.right,
            &value.power,
            &value.utility,
            value.hud_visible,
        ),
        config,
    )
    .unwrap_or_default();
    let table: Vec<(String, String)> = ["fake-one", "fake-two", "fake-three"]
        .iter()
        .map(|s| (s.to_string(), s.to_string()))
        .collect();
    let decoded = cosave_v1::deserialize(&bytes, &table).expect("data should be decodeable");
    assert_eq!(decoded.loaded, !cycle.loaded);
    assert_eq!(decoded.left.len(), cycle.left.len());
}

#[test]
fn saved_bytes_load_back_by_version() {
    let mut cycle = CycleData::default();
    cycle.add_item(CycleSlot::Left, "mod.esp|0x1");
    cycle.add_item(CycleSlot::Power, "unarmed_proxy");
    cycle.add_item(CycleSlot::Utility, "gone.esp|0x2");
    cycle.add_equipset("set-one".to_string(), no_items());
    let bytes = cycle.serialize();
    assert_eq!(
        CycleData::saved_specs(&bytes, 2),
        Some(vec![
            "mod.esp|0x1".to_string(),
            "unarmed_proxy".to_string(),
            "gone.esp|0x2".to_string()
        ])
    );
    let table = vec![("mod.esp|0x1".to_string(), "mod.esp|0x1".to_string())];
    let loaded = CycleData::deserialize(&bytes, 2, &table).expect("saved bytes load");
    assert_eq!(loaded.formids(&CycleSlot::Left), vec!["mod.esp|0x1".to_string()]);
    assert_eq!(loaded.formids(&CycleSlot::Power), vec!["unarmed_proxy".to_string()]);
    assert!(loaded.formids(&CycleSlot::Utility).is_empty());
    assert_eq!(loaded.equipset_names(), vec!["set-one".to_string()]);
    assert!(loaded.loaded);
    // Unknown versions and broken bytes load nothing.
    assert!(CycleData::deserialize(&bytes, 3, &table).is_none());
    assert!(CycleData::saved_specs(&bytes, 7).is_none());
    assert!(CycleData::deserialize(&[0xff, 0xff, 0xff], 2, &table).is_none());
    // Version 0 saved whole items; only their specs are read back.
    let item = |spec: &str| (Vec::<u8>::new(), spec.to_string(), 0u8, false, false, 1u32);
    let old: (
        Vec<(Vec<u8>, String, u8, bool, bool, u32)>,
        Vec<(Vec<u8>, String, u8, bool, bool, u32)>,
        Vec<(Vec<u8>, String, u8, bool, bool, u32)>,
        Vec<(Vec<u8>, String, u8, bool, bool, u32)>,
        bool,
    ) = (vec![item("mod.esp|0x1"), item("")], Vec::new(), Vec::new(), Vec::new(), true);
    let old_bytes = bincode::encode_to_vec(old, bincode::config::standard()).expect("encodes");
    let loaded = CycleData::deserialize(&old_bytes, 0, &table).expect("old bytes load");
    assert_eq!(loaded.formids(&CycleSlot::Left), vec!["mod.esp|0x1".to_string()]);
    assert!(loaded.hud_visible);
    assert_eq!(
        CycleData::saved_specs(&old_bytes, 0),
        Some(vec!["mod.esp|0x1".to_string(), String::new()])
    );
}

#[test]
fn saved_cycles_keep_known_items_and_stand_ins() {
    let mut cycle = CycleData::default();
    cycle.add_item(CycleSlot::Utility, "health_proxy");
    cycle.add_item(CycleSlot::Utility, "gone.esp|0x1");
    cycle.add_item(CycleSlot::Utility, "mod.esp|0x2");
    cycle.add_item(CycleSlot::Power, "");
    let saved = cosave_v2::CycleSerialized::from_cycles(&cycle);
    assert_eq!(saved.utility.len(), 3);
    let table = vec![("mod.esp|0x2".to_string(), "mod.esp|0x0002".to_string())];
    let loaded = saved.into_cycles(&table);
    assert_eq!(
        loaded.formids(&CycleSlot::Utility),
        vec!["health_proxy".to_string(), "mod.esp|0x0002".to_string()]
    );
    assert!(loaded.formids(&CycleSlot::Power).is_empty());
    assert!(loaded.loaded);
}

#[test]
fn validation_keeps_what_the_player_holds() {
    let mut cycle = CycleData::default();
    cycle.add_item(CycleSlot::Utility, "health_proxy");
    cycle.add_item(CycleSlot::Utility, "magicka_proxy");
    cycle.add_item(CycleSlot::Utility, "mod.esp|0x1");
    cycle.add_item(CycleSlot::Left, "unarmed_proxy");
    cycle.add_item(CycleSlot::Left, "mod.esp|0x2");
    cycle.add_item(CycleSlot::Right, "mod.esp|0x3");
    let inv = Inventory {
        health_potions: 2,
        magicka_potions: 0,
        stamina_potions: 0,
        items: vec![
            ("mod.esp|0x1".to_string(), false, 3),
            ("mod.esp|0x2".to_string(), false, 0),
            ("mod.esp|0x3".to_string(), true, 0),
        ],
    };
    cycle.validate(&inv);
    assert_eq!(
        cycle.formids(&CycleSlot::Utility),
        vec!["health_proxy".to_string(), "mod.esp|0x1".to_string()]
    );
    assert_eq!(cycle.formids(&CycleSlot::Left), vec!["unarmed_proxy".to_string()]);
    assert_eq!(cycle.formids(&CycleSlot::Right), vec!["mod.esp|0x3".to_string()]);
}

#[test]
fn skipping_and_turning_cycles() {
    let mut cycle = CycleData::default();
    for spec in ["a", "b", "a", "c"] {
        cycle.add_item(CycleSlot::Right, spec);
    }
    // Duplicates are not added twice.
    assert_eq!(cycle.formids(&CycleSlot::Right).len(), 3);
    assert_eq!(cycle.advance_skipping(&CycleSlot::Right, "b"), Some("c".to_string()));
    assert_eq!(cycle.formids(&CycleSlot::Right), vec!["c".to_string(), "a".to_string(), "b".to_string()]);
    cycle.turn_to(&CycleSlot::Right, "b");
    assert_eq!(cycle.get_top(&CycleSlot::Right), Some("b".to_string()));
    cycle.turn_to(&CycleSlot::Right, "zzz");
    assert_eq!(cycle.get_top(&CycleSlot::Right), Some("b".to_string()));
    let mut single = CycleData::default();
    single.add_item(CycleSlot::Left, "only");
    assert_eq!(single.advance_skipping(&CycleSlot::Left, "only"), None);
    assert_eq!(CycleData::default().advance_skipping(&CycleSlot::Left, "x"), None);
}

#[test]
fn found_positions_pick_the_set_to_change() {
    let mut sets = vec![
        EquipSet::new(0, "zero".to_string(), Vec::new()),
        EquipSet::new(4, "four".to_string(), Vec::new()),
    ];
    assert!(update_found(&mut sets, Ok(1), vec!["x".to_string()], vec![1]));
    assert_eq!(sets[1].item_specs(), vec!["x".to_string()]);
    assert_eq!(sets[1].empty_slots(), vec![1]);
    assert!(!update_found(&mut sets, Err(1), vec!["y".to_string()], Vec::new()));
    assert!(!update_found(&mut sets, Ok(7), vec!["y".to_string()], Vec::new()));
    assert!(rename_found(&mut sets, Ok(0), "nil".to_string()));
    assert_eq!(sets[0].name(), "nil");
    assert!(!rename_found(&mut sets, Err(0), "none".to_string()));
    assert_eq!(sets[0].name(), "nil");
}

#[test]
fn old_saves_load_their_items() {
    let item = |spec: &str| ItemSerialized {
        form_string: spec.to_string(),
        ..Default::default()
    };
    let saved = CycleSerialized {
        left: vec![item("mod.esp|0x1"), item(""), item("gone.esp|0x2")],
        right: Vec::new(),
        power: vec![item("unarmed_proxy")],
        utility: Vec::new(),
        hud_visible: false,
    };
    let table = vec![("mod.esp|0x1".to_string(), "mod.esp|0x1".to_string())];
    let loaded = saved.into_cycles(&table);
    assert_eq!(loaded.formids(&CycleSlot::Left), vec!["mod.esp|0x1".to_string()]);
    assert_eq!(loaded.formids(&CycleSlot::Power), vec!["unarmed_proxy".to_string()]);
    assert!(!loaded.hud_visible);
    assert!(loaded.equipsets.is_empty());
}
