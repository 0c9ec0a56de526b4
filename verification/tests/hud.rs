use soulsy::controller::control::{MenuEventResponse, RequestedAction};
use soulsy::controller::hud::{
    advance_ammo, assign_keyword, equip_item, handle_favorite_event, Controller, CycleKeyword,
    CycleLabel, Effect, FavoriteChange, GameFacts, ItemTable, ShownItem,
};
use soulsy::controller::keys::{keyup_action, CycleSlot, Hotkey, KeyState, KeyTracker, Modifier};
use soulsy::controller::settings::{ActivationMethod, KeySettings, UnarmedMethod};
use soulsy::data::ammo::AmmoType;
use soulsy::data::base::{BaseType, Proxy};
use soulsy::data::color::InvColor;
use soulsy::data::food::FoodType;
use soulsy::data::potion::PotionType;
use soulsy::data::weapon::{WeaponEquipType, WeaponType};
use soulsy::images::icons::Icon;
use soulsy::plugin::{Action, EquippedData, HudElement};

fn settings() -> KeySettings {
    KeySettings {
        power: 3,
        utility: 4,
        left: 5,
        right: 6,
        equipset: 7,
        activate: 8,
        activate_modifier: -1,
        cycle_modifier: -1,
        menu_modifier: -1,
        unequip_modifier: -1,
        unequip_hotkey: -1,
        unarmed_handling: UnarmedMethod::NoSupport,
        showhide: 9,
        refresh_layout: 10,
        how_to_cycle: ActivationMethod::Hotkey,
        how_to_activate: ActivationMethod::Hotkey,
        long_press_matches: false,
        cycle_ammo: false,
        how_to_toggle: ActivationMethod::Hotkey,
        long_press_ms: 1250,
        autofade: false,
        group_potions: false,
    }
}

fn item(spec: &str, kind: BaseType, count: u32) -> ShownItem {
    ShownItem {
        form_string: spec.to_string(),
        kind,
        count,
    }
}

fn one_hander() -> BaseType {
    BaseType::Weapon(WeaponType::new(
        Icon::WeaponSwordOneHanded,
        InvColor::White,
        WeaponEquipType::EitherHand,
    ))
}

fn two_hander() -> BaseType {
    BaseType::Weapon(WeaponType::new(
        Icon::WeaponSwordTwoHanded,
        InvColor::White,
        WeaponEquipType::TwoHanded,
    ))
}

fn facts() -> GameFacts {
    GameFacts {
        equipped_left: String::new(),
        equipped_right: String::new(),
        equipped_ammo: String::new(),
        ammo: Vec::new(),
        ranged_equipped: false,
    }
}

fn table() -> ItemTable {
    ItemTable {
        items: vec![
            item("p1", BaseType::Power, 1),
            item("p2", BaseType::Power, 1),
            item("sword", one_hander(), 1),
            item("dagger", one_hander(), 2),
            item("greatsword", two_hander(), 1),
            item("potion", BaseType::Potion(PotionType::Poison), 3),
            item("bread", BaseType::Food(FoodType::default()), 2),
            item("health_proxy", BaseType::PotionProxy(Proxy::Health), 4),
        ],
    }
}

fn shown(c: &Controller, e: HudElement) -> Option<String> {
    c.visible.get(e).map(|x| x.form_string)
}

#[test]
fn power_key_release_advances_the_power_cycle() {
    let s = settings();
    let t = table();
    let mut c = Controller::new();
    c.cycles.add_item(CycleSlot::Power, "p1");
    c.cycles.add_item(CycleSlot::Power, "p2");
    let (down, down_fx) = c.handle_key_event(3, true, true, 100, &s, &facts(), &t);
    assert!(down.handled);
    assert_eq!(down.start_timer, Action::NoAction);
    assert!(down_fx.is_empty());
    let (up, up_fx) = c.handle_key_event(3, false, false, 200, &s, &facts(), &t);
    assert!(up.handled);
    assert_eq!(up.start_timer, Action::Power);
    assert!(matches!(up_fx[0], Effect::ShowBriefly));
    assert_eq!(shown(&c, HudElement::Power), Some("p2".to_string()));
    assert_eq!(c.cycles.get_top(&CycleSlot::Power), Some("p2".to_string()));
}

#[test]
fn ignored_and_modifier_keys_are_not_handled() {
    let mut s = settings();
    s.cycle_modifier = 42;
    s.how_to_cycle = ActivationMethod::Modifier;
    let t = table();
    let mut c = Controller::new();
    c.cycles.add_item(CycleSlot::Power, "p1");
    c.cycles.add_item(CycleSlot::Power, "p2");
    let (r, fx) = c.handle_key_event(99, false, false, 0, &s, &facts(), &t);
    assert!(!r.handled && fx.is_empty());
    // Without the modifier held, the power key does nothing.
    c.handle_key_event(3, true, true, 10, &s, &facts(), &t);
    let (r, _) = c.handle_key_event(3, false, false, 20, &s, &facts(), &t);
    assert!(!r.handled);
    assert_eq!(c.cycles.get_top(&CycleSlot::Power), Some("p1".to_string()));
    // With the modifier held, it advances.
    let (m, _) = c.handle_key_event(42, true, true, 30, &s, &facts(), &t);
    assert!(!m.handled);
    assert!(c.keys.modifier_pressed(Modifier::Cycle));
    c.handle_key_event(3, true, true, 40, &s, &facts(), &t);
    let (r, _) = c.handle_key_event(3, false, false, 50, &s, &facts(), &t);
    assert!(r.handled);
    assert_eq!(c.cycles.get_top(&CycleSlot::Power), Some("p2".to_string()));
}

#[test]
fn show_hide_and_refresh_keys() {
    let mut s = settings();
    let t = table();
    let mut c = Controller::new();
    assert!(c.cycles.hud_visible);
    let (r, fx) = c.handle_key_event(9, false, false, 0, &s, &facts(), &t);
    assert!(r.handled);
    assert!(!c.cycles.hud_visible);
    assert_eq!(fx.len(), 2);
    assert!(matches!(fx[0], Effect::ShowBriefly));
    assert!(matches!(fx[1], Effect::StartFade(false)));
    s.autofade = true;
    let (_, fx) = c.handle_key_event(9, false, false, 1, &s, &facts(), &t);
    assert!(!c.cycles.hud_visible);
    assert_eq!(fx.len(), 1);
    let (r, fx) = c.handle_key_event(10, false, false, 2, &s, &facts(), &t);
    assert!(r.handled);
    assert_eq!(fx.len(), 2);
    assert!(matches!(fx[0], Effect::ShowBriefly));
    assert!(matches!(fx[1], Effect::RefreshLayout));
}

#[test]
fn long_press_timers_and_the_release_after_them() {
    let mut s = settings();
    s.unarmed_handling = UnarmedMethod::LongPress;
    assert!(s.should_start_long_press_timer(&Hotkey::Power));
    assert!(!s.should_start_long_press_timer(&Hotkey::Utility));
    let t = table();
    let mut c = Controller::new();
    c.cycles.add_item(CycleSlot::Power, "p1");
    let (_, fx) = c.handle_key_event(3, true, true, 0, &s, &facts(), &t);
    assert!(matches!(fx[0], Effect::StartTimer(Action::LongPressPower, 1250)));
    c.handle_key_event(3, false, true, 1000, &s, &facts(), &t);
    let (r, fx) = c.handle_key_event(3, false, false, 2000, &s, &facts(), &t);
    assert!(!r.handled);
    assert_eq!(fx.len(), 1);
    assert!(matches!(fx[0], Effect::StopTimer(Action::LongPressPower)));
    let fx = c.handle_long_press(Action::LongPressPower, &s, &facts(), &t);
    assert_eq!(fx.len(), 2);
    assert!(matches!(fx[0], Effect::UnequipSlot(Action::Power)));
    assert!(matches!(fx[1], Effect::StopTimer(Action::Power)));
}

#[test]
fn timers_equip_what_the_slot_shows() {
    let s = settings();
    let t = table();
    let mut c = Controller::new();
    c.visible.update_slot(HudElement::Power, item("p1", BaseType::Power, 1));
    let fx = c.timer_fired(Action::Power, &s, true, &facts(), &t);
    assert_eq!(fx.len(), 1);
    assert!(matches!(&fx[0], Effect::EquipShout(f) if f == "p1"));
    c.visible.update_slot(HudElement::Left, item("dagger", one_hander(), 2));
    let fx = c.timer_fired(Action::Left, &s, true, &facts(), &t);
    assert!(matches!(&fx[0], Effect::EquipWeapon(f, Action::Left) if f == "dagger"));
    assert_eq!(c.left_hand_cached, "dagger");
    // A held key holds the equip back.
    c.handle_key_event(6, true, true, 0, &s, &facts(), &t);
    c.visible.update_slot(HudElement::Right, item("sword", one_hander(), 1));
    assert!(c.timer_fired(Action::Right, &s, true, &facts(), &t).is_empty());
}

#[test]
fn grip_changes_set_up_the_hands() {
    let t = table();
    let mut c = Controller::new();
    c.cycles.add_item(CycleSlot::Left, "dagger");
    let great = item("greatsword", two_hander(), 1);
    let fx = c.handle_grip_change(true, &great, "", false, &t);
    assert!(c.cgo_alt_grip);
    assert_eq!(fx.len(), 1);
    assert!(matches!(&fx[0], Effect::ReequipHand(Action::Left, f) if f == "dagger"));
    assert_eq!(c.left_hand_cached, "dagger");
    assert_eq!(shown(&c, HudElement::Left), Some("dagger".to_string()));
    let fx = c.handle_grip_change(false, &great, "", false, &t);
    assert!(matches!(fx[0], Effect::UnequipSlot(Action::Left)));
    assert_eq!(shown(&c, HudElement::Left), Some(String::new()));
    let sword = item("sword", one_hander(), 1);
    let fx = c.handle_grip_change(true, &sword, "shield", false, &t);
    assert!(matches!(fx[0], Effect::UnequipSlot(Action::Left)));
    assert_eq!(c.left_hand_cached, "shield");
    // Ranged weapons and non-weapons change nothing more.
    assert!(c.handle_grip_change(false, &sword, "", true, &t).is_empty());
    assert!(!c.cgo_alt_grip);
}

#[test]
fn equipped_ammo_and_powers_show_in_their_slots() {
    let t = table();
    let mut c = Controller::new();
    let arrow = item("arrow", BaseType::Ammo(AmmoType::Arrow(InvColor::White)), 20);
    let (changed, fx) = c.handle_item_equipped(true, &arrow, "", "", false, &t);
    assert!(changed && fx.is_empty());
    assert_eq!(shown(&c, HudElement::Ammo), Some("arrow".to_string()));
    let (changed, _) = c.handle_item_equipped(true, &arrow, "", "", false, &t);
    assert!(!changed);
    c.cycles.add_item(CycleSlot::Power, "p1");
    c.cycles.add_item(CycleSlot::Power, "p2");
    c.visible.update_slot(HudElement::Power, item("p1", BaseType::Power, 1));
    let (changed, _) = c.handle_item_equipped(true, &item("p2", BaseType::Power, 1), "", "", false, &t);
    assert!(changed);
    assert_eq!(shown(&c, HudElement::Power), Some("p2".to_string()));
    assert_eq!(c.cycles.get_top(&CycleSlot::Power), Some("p2".to_string()));
    let potion = item("potion", BaseType::Potion(PotionType::Poison), 3);
    assert!(!c.handle_item_equipped(true, &potion, "", "", false, &t).0);
}

#[test]
fn equipped_hand_items_are_remembered_and_switches_return_the_other_hand() {
    let t = table();
    let mut c = Controller::new();
    let sword = item("sword", one_hander(), 1);
    let (changed, fx) = c.handle_item_equipped(true, &sword, "sword", "", false, &t);
    assert!(changed && fx.is_empty());
    assert_eq!(c.right_hand_cached, "sword");
    assert_eq!(shown(&c, HudElement::Right), Some("sword".to_string()));
    // Not in either hand: nothing to do.
    let (changed, _) = c.handle_item_equipped(true, &sword, "", "", false, &t);
    assert!(!changed);
    // A two-hander takes the right slot and empties the left.
    c.cycles.add_item(CycleSlot::Right, "sword");
    c.cycles.add_item(CycleSlot::Right, "greatsword");
    let great = item("greatsword", two_hander(), 1);
    let (changed, _) = c.handle_item_equipped(true, &great, "greatsword", "", false, &t);
    assert!(changed);
    assert!(c.two_hander_equipped);
    assert_eq!(shown(&c, HudElement::Left), Some(String::new()));
    assert_eq!(c.cycles.get_top(&CycleSlot::Right), Some("greatsword".to_string()));
    // Back to a one-hander: the left hand gets the top of its cycle.
    c.cycles.add_item(CycleSlot::Left, "dagger");
    let (changed, fx) = c.handle_item_equipped(true, &sword, "sword", "", false, &t);
    assert!(changed);
    assert!(!c.two_hander_equipped);
    assert_eq!(fx.len(), 1);
    assert!(matches!(&fx[0], Effect::ReequipHand(Action::Left, f) if f == "dagger"));
    assert_eq!(c.left_hand_cached, "dagger");
    // A werewolf equips nothing more.
    c.two_hander_equipped = true;
    let (changed, fx) = c.handle_item_equipped(true, &sword, "sword", "", true, &t);
    assert!(!changed && fx.is_empty());
}

#[test]
fn unequipped_items_empty_their_slots() {
    let t = table();
    let mut c = Controller::new();
    c.visible.update_slot(HudElement::Right, item("sword", one_hander(), 1));
    let sword = item("sword", one_hander(), 1);
    assert!(!c.handle_item_unequipped(&sword, "sword", "sword", ""));
    assert!(c.handle_item_unequipped(&sword, "sword", "", ""));
    assert_eq!(shown(&c, HudElement::Right), Some(String::new()));
    let (changed, fx) = c.handle_item_equipped(false, &sword, "", "", false, &t);
    assert!(!changed && fx.is_empty());
}

#[test]
fn inventory_counts_follow_the_game() {
    let t = table();
    let mut c = Controller::new();
    let arrow_kind = BaseType::Ammo(AmmoType::Arrow(InvColor::White));
    c.visible.update_slot(HudElement::Ammo, item("arrow", arrow_kind.clone(), 10));
    assert!(c.handle_inventory_changed(&Some(arrow_kind), "arrow", 5, 0, 0, 0, &t).is_empty());
    assert_eq!(c.visible.get(HudElement::Ammo).unwrap().count, 5);
    // Unknown items change nothing.
    assert!(c.handle_inventory_changed(&None, "arrow", 1, 0, 0, 0, &t).is_empty());
    assert_eq!(c.visible.get(HudElement::Ammo).unwrap().count, 5);
    // A potion group shows the count of its potions.
    c.visible.update_slot(HudElement::Utility, item("health_proxy", BaseType::PotionProxy(Proxy::Health), 4));
    let health = BaseType::Potion(PotionType::Health);
    c.handle_inventory_changed(&Some(health), "mod.esp|0x99", 2, 7, 1, 1, &t);
    assert_eq!(c.visible.get(HudElement::Utility).unwrap().count, 7);
    // A used-up utility item leaves its cycle and the slot shows the next one.
    let poison = BaseType::Potion(PotionType::Poison);
    c.cycles.add_item(CycleSlot::Utility, "potion");
    c.cycles.add_item(CycleSlot::Utility, "bread");
    c.visible.update_slot(HudElement::Utility, item("potion", poison.clone(), 1));
    c.handle_inventory_changed(&Some(poison), "potion", 0, 0, 0, 0, &t);
    assert_eq!(c.cycles.formids(&CycleSlot::Utility), vec!["bread".to_string()]);
    assert_eq!(shown(&c, HudElement::Utility), Some("bread".to_string()));
    // Hand items are recounted.
    c.visible.update_slot(HudElement::Left, item("dagger", one_hander(), 2));
    c.handle_inventory_changed(&Some(one_hander()), "dagger", 1, 0, 0, 0, &t);
    assert_eq!(c.visible.get(HudElement::Left).unwrap().count, 1);
}

#[test]
fn menu_keys_toggle_by_the_settings() {
    let mut s = settings();
    let mut c = Controller::new();
    assert!(c.handle_menu_event(3, true, true, 0, &s));
    assert!(!c.handle_menu_event(3, false, false, 10, &s));
    assert!(!c.handle_menu_event(9, true, true, 20, &s));
    assert!(!c.handle_menu_event(77, true, true, 30, &s));
    s.how_to_toggle = ActivationMethod::Modifier;
    s.menu_modifier = 50;
    assert!(!c.handle_menu_event(3, true, true, 40, &s));
    assert!(!c.handle_menu_event(50, true, true, 50, &s));
    assert!(c.handle_menu_event(3, true, true, 60, &s));
    s.how_to_toggle = ActivationMethod::LongPress;
    assert!(!c.handle_menu_event(4, true, true, 70, &s));
}

#[test]
fn the_key_tracker_remembers_presses() {
    let s = settings();
    let mut keys = KeyTracker::new();
    let (prev, now) = keys.record(5, Hotkey::Left, true, true, 100);
    assert!(prev.is_none());
    assert_eq!(now.state, KeyState::Down);
    assert_eq!(now.press_start, Some(100));
    let (prev, now) = keys.record(5, Hotkey::Left, false, true, 900);
    assert_eq!(prev.unwrap().state, KeyState::Down);
    assert_eq!(now.press_start, Some(100));
    assert!(!now.is_long_press(900, s.long_press_ms));
    assert!(now.is_long_press(1400, s.long_press_ms));
    assert_eq!(keys.get_tracked_key(&Hotkey::Left).key, 5);
    assert_eq!(keys.get_tracked_key(&Hotkey::Right).hotkey, Hotkey::NoHotkey);
    assert!(keys.get(6).is_none());
    assert_eq!(keys.keys.len(), 1);
}

#[test]
fn hand_keys_ask_for_what_the_settings_say() {
    let mut s = settings();
    assert_eq!(keyup_action(&s, false, false, false), RequestedAction::Advance);
    s.unarmed_handling = UnarmedMethod::Modifier;
    assert_eq!(keyup_action(&s, false, true, false), RequestedAction::Unequip);
    s.long_press_matches = true;
    assert_eq!(keyup_action(&s, true, false, false), RequestedAction::Match);
    s.how_to_cycle = ActivationMethod::Modifier;
    assert_eq!(keyup_action(&s, false, false, false), RequestedAction::NoAction);
    assert_eq!(
        Hotkey::Left.long_press_action(&s, false),
        RequestedAction::Match
    );
}

#[test]
fn ammunition_switches_in_order() {
    let ammo = vec!["a".to_string(), "b".to_string(), "c".to_string()];
    let (r, fx) = advance_ammo("b", &ammo);
    assert!(r.handled);
    assert!(matches!(&fx[0], Effect::EquipAmmo(f) if f == "c"));
    let (_, fx) = advance_ammo("c", &ammo);
    assert!(matches!(&fx[0], Effect::EquipAmmo(f) if f == "a"));
    let (_, fx) = advance_ammo("x", &ammo);
    assert!(matches!(&fx[0], Effect::EquipAmmo(f) if f == "c"));
    let (r, fx) = advance_ammo("a", &vec!["a".to_string()]);
    assert!(!r.handled && fx.is_empty());
}

#[test]
fn utility_items_are_used_by_kind() {
    let t = table();
    let mut c = Controller::new();
    c.cycles.add_item(CycleSlot::Utility, "health_proxy");
    let (r, fx) = c.use_utility_item(&t);
    assert_eq!(r.stop_timer, Action::Utility);
    assert!(matches!(fx[0], Effect::ChooseHealthPotion));
    let mut c = Controller::new();
    c.cycles.add_item(CycleSlot::Utility, "bread");
    let (_, fx) = c.use_utility_item(&t);
    assert!(matches!(&fx[0], Effect::ConsumePotion(f) if f == "bread"));
    assert!(Controller::new().use_utility_item(&t).1.is_empty());
    let (r, fx) = c.handle_key_event(8, false, false, 0, &settings(), &facts(), &t);
    assert_eq!(r.stop_timer, Action::Utility);
    assert!(matches!(&fx[1], Effect::ConsumePotion(f) if f == "bread"));
}

#[test]
fn equip_effects_by_kind_and_slot() {
    let sword = item("sword", one_hander(), 1);
    assert!(matches!(&equip_item(&sword, Action::Right)[0], Effect::EquipWeapon(f, Action::Right) if f == "sword"));
    assert!(equip_item(&sword, Action::Power).is_empty());
    let arrow = item("arrow", BaseType::Ammo(AmmoType::Arrow(InvColor::White)), 1);
    assert!(matches!(&equip_item(&arrow, Action::Utility)[0], Effect::EquipAmmo(f) if f == "arrow"));
}

#[test]
fn toggling_and_favorites_fill_the_cycles() {
    let t = table();
    let mut c = Controller::new();
    let p1 = item("p1", BaseType::Power, 1);
    let r = c.handle_toggle_item(Action::Power, &p1, 20, &t);
    assert_eq!(r, Some((MenuEventResponse::ItemAdded, CycleLabel::Powers)));
    assert_eq!(assign_keyword(&c.cycles, &p1), CycleKeyword::InCycle);
    assert_eq!(c.handle_toggle_item(Action::ShowHide, &p1, 20, &t), None);
    let bread = item("bread", BaseType::Food(FoodType::default()), 2);
    let r = handle_favorite_event(&mut c.cycles, true, &bread, true);
    assert_eq!(r, Some(FavoriteChange::Added(CycleLabel::Utilities)));
    let r = handle_favorite_event(&mut c.cycles, false, &bread, true);
    assert_eq!(r, Some(FavoriteChange::Removed(CycleLabel::Utilities)));
    assert_eq!(handle_favorite_event(&mut c.cycles, true, &bread, false), None);
    assert_eq!(assign_keyword(&c.cycles, &bread), CycleKeyword::Cleared);
}

#[test]
fn hands_cycle_match_and_disarm() {
    let t = table();
    let mut c = Controller::new();
    c.cycles.add_item(CycleSlot::Right, "sword");
    c.cycles.add_item(CycleSlot::Right, "dagger");
    let (r, fx) = c.advance_hand_cycle(CycleSlot::Right, &t);
    assert_eq!(r.start_timer, Action::Right);
    assert!(fx.is_empty());
    assert_eq!(shown(&c, HudElement::Right), Some("dagger".to_string()));
    let (r, fx) = c.match_hands(Action::Right, "dagger", &t);
    assert_eq!(r.stop_timer, Action::Right);
    assert!(matches!(&fx[0], Effect::EquipWeapon(f, Action::Left) if f == "dagger"));
    let (r, fx) = c.disarm_player(&t);
    assert_eq!(r.stop_timer, Action::Right);
    assert_eq!(fx.len(), 2);
    assert_eq!(shown(&c, HudElement::Left), Some("unarmed_proxy".to_string()));
    assert_eq!(shown(&c, HudElement::Right), Some("unarmed_proxy".to_string()));
}

#[test]
fn keys_map_to_hotkeys_actions_and_slots() {
    let mut s = settings();
    s.cycle_modifier = 42;
    s.activate_modifier = 42;
    s.unarmed_handling = UnarmedMethod::Hotkey;
    s.unequip_hotkey = 11;
    assert_eq!(Hotkey::from_key(3, &s), Hotkey::Power);
    assert_eq!(Hotkey::from_key(7, &s), Hotkey::Equipment);
    assert_eq!(Hotkey::from_key(11, &s), Hotkey::UnequipHands);
    assert_eq!(Hotkey::from_key(12, &s), Hotkey::NoHotkey);
    match Hotkey::from_key(42, &s) {
        Hotkey::Modifier(set) => assert!(set.cycle && set.activate && !set.menu && !set.unequip),
        other => panic!("expected a modifier, got {other:?}"),
    }
    assert_eq!(Hotkey::Left.key_for(&s), 5);
    assert_eq!(Hotkey::NoHotkey.key_for(&s), -1);
    assert_eq!(s.unequip_hotkey(), 11);
    assert!(s.cycle_with_modifier());
    assert_eq!(s.modifier_keys().cycle, 42);
    assert_eq!(Hotkey::from_slot(&CycleSlot::Utility), Hotkey::Utility);
    assert_eq!(Hotkey::from_action(&Action::RefreshLayout), Hotkey::Refresh);
    assert_eq!(Hotkey::Right.action(), Action::Right);
    assert_eq!(Hotkey::Power.element(), HudElement::Power);
    assert_eq!(Hotkey::Left.slot(), Some(CycleSlot::Left));
    assert_eq!(Hotkey::Refresh.slot(), None);
    assert_eq!(soulsy::controller::keys::action_for_key(4, &s), Action::Utility);
    assert_eq!(soulsy::controller::keys::element_for_action(Action::Left), HudElement::Left);
}

#[test]
fn empty_cycles_refuse_the_keys_that_would_rotate_them() {
    let s = settings();
    let mut c = Controller::new();
    // Key presses going down never rotate anything.
    assert!(c.key_event_allowed(3, true, true, 0, &s, false));
    // Releasing the powers key with an empty powers cycle would rotate it.
    assert!(!c.key_event_allowed(3, false, false, 10, &s, false));
    assert!(!c.rotation_ok(CycleSlot::Power, HudElement::Power));
    c.cycles.add_item(CycleSlot::Power, "p1");
    assert!(c.key_event_allowed(3, false, false, 10, &s, false));
    assert!(c.rotation_ok(CycleSlot::Power, HudElement::Power));
    // Keys the HUD ignores are always fine.
    assert!(c.key_event_allowed(99, false, false, 10, &s, false));
    // The hands: an empty cycle with nothing in the other hand is refused.
    assert!(!c.hand_advance_allowed(CycleSlot::Left));
    assert!(!c.key_event_allowed(5, false, false, 10, &s, false));
    c.cycles.add_item(CycleSlot::Left, "sword");
    assert!(c.hand_advance_allowed(CycleSlot::Left));
    assert!(c.key_event_allowed(5, false, false, 10, &s, false));
    // The equipset key needs a set.
    assert!(!c.key_event_allowed(7, false, false, 10, &s, false));
}

#[test]
fn long_presses_and_emptied_hands_are_checked_the_same_way() {
    let mut s = settings();
    s.how_to_cycle = ActivationMethod::LongPress;
    let mut c = Controller::new();
    assert!(!c.long_press_allowed(Action::LongPressPower, &s, false));
    assert!(c.long_press_allowed(Action::Power, &s, false));
    c.cycles.add_item(CycleSlot::Power, "p1");
    assert!(c.long_press_allowed(Action::LongPressPower, &s, false));
    // An item that ran out in the left hand needs the left cycle to move.
    c.visible.update_slot(HudElement::Left, item("sword", one_hander(), 1));
    let kind = Some(one_hander());
    assert!(!c.inventory_change_allowed(&kind, "sword", 0));
    assert!(c.inventory_change_allowed(&kind, "sword", 1));
    assert!(c.inventory_change_allowed(&None, "sword", 0));
    c.cycles.add_item(CycleSlot::Left, "dagger");
    assert!(c.inventory_change_allowed(&kind, "sword", 0));
}

#[test]
fn a_hand_item_that_runs_out_gives_way_to_the_next() {
    let t = table();
    let mut c = Controller::new();
    c.cycles.add_item(CycleSlot::Left, "sword");
    c.cycles.add_item(CycleSlot::Left, "dagger");
    c.visible.update_slot(HudElement::Left, item("sword", one_hander(), 1));
    let fx = c.handle_inventory_changed(&Some(one_hander()), "sword", 0, 0, 0, 0, &t);
    assert!(fx.is_empty());
    assert_eq!(shown(&c, HudElement::Left), Some("dagger".to_string()));
    assert_eq!(c.cycles.formids(&CycleSlot::Left), vec!["dagger".to_string()]);
    // With nothing else to take, the hand keeps showing the item and the
    // item leaves the cycle, which is then empty: nothing is equipped.
    let mut c = Controller::new();
    c.cycles.add_item(CycleSlot::Right, "sword");
    c.cycles.add_item(CycleSlot::Left, "sword");
    c.cycles.add_item(CycleSlot::Left, "dagger");
    c.visible.update_slot(HudElement::Right, item("sword", one_hander(), 1));
    let fx = c.handle_inventory_changed(&Some(one_hander()), "sword", 0, 0, 0, 0, &t);
    assert_eq!(shown(&c, HudElement::Right), Some("sword".to_string()));
    assert!(c.cycles.formids(&CycleSlot::Right).is_empty());
    assert_eq!(c.cycles.formids(&CycleSlot::Left), vec!["dagger".to_string()]);
    assert!(fx.is_empty());
}

#[test]
fn equipsets_empty_their_slots_when_the_setting_asks() {
    let t = table();
    let mut c = Controller::new();
    let data = EquippedData {
        items: vec!["helm".to_string()],
        empty_slots: vec![2, 7],
    };
    assert!(c.cycles.add_equipset("armor".to_string(), data));
    assert_eq!(c.cycles.equipsets[0].empty_slots(), vec![2, 7]);
    let fx = c.equip_selected_set(true);
    assert_eq!(fx.len(), 3);
    assert!(matches!(fx[0], Effect::UnequipArmorSlot(2)));
    assert!(matches!(fx[1], Effect::UnequipArmorSlot(7)));
    assert!(matches!(&fx[2], Effect::EquipArmor(f) if f == "helm"));
    let fx = c.equip_selected_set(false);
    assert_eq!(fx.len(), 1);
    assert!(matches!(&fx[0], Effect::EquipArmor(f) if f == "helm"));
    let fx = c.timer_fired(Action::Equipment, &settings(), true, &facts(), &t);
    assert_eq!(fx.len(), 3);
}

#[test]
fn applying_settings_fades_unless_autofade() {
    let t = table();
    let mut c = Controller::new();
    let fx = c.apply_settings(UnarmedMethod::NoSupport, false, false, &t);
    assert_eq!(fx.len(), 2);
    assert!(matches!(fx[0], Effect::StartFade(true)));
    assert!(matches!(fx[1], Effect::RefreshLayout));
    let fx = c.apply_settings(UnarmedMethod::NoSupport, false, true, &t);
    assert_eq!(fx.len(), 1);
    assert!(matches!(fx[0], Effect::RefreshLayout));
}
