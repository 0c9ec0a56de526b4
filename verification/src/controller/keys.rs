//! Cycle slots, modifier keys and key states, and how they map onto the
//! actions and HUD elements of the game side.

use vstd::prelude::*;

use super::control::RequestedAction;
use super::settings::{ActivationMethod, KeySettings, UnarmedMethod};
use crate::plugin::{Action, HudElement};

verus! {

/// The four item cycles.
#[derive(Clone, Copy, Debug, PartialEq, Eq, Hash, Structural)]
pub enum CycleSlot {
    Left,
    Power,
    Right,
    Utility,
}

/// The jobs a modifier key can have.
#[derive(Clone, Copy, Debug, PartialEq, Eq, Hash, Structural)]
pub enum Modifier {
    Unequip,
    Cycle,
    Activate,
    Menu,
}

/// The key codes the player bound to each modifier job.
#[derive(Clone, Copy, Debug, PartialEq, Eq, Hash, Structural)]
pub struct ModifierKeys {
    pub unequip: i32,
    pub cycle: i32,
    pub activate: i32,
    pub menu: i32,
}

impl Modifier {
    /// The key bound to this modifier job.
    pub open spec fn spec_key_for(self, keys: ModifierKeys) -> i32 {
        match self {
            Modifier::Unequip => keys.unequip,
            Modifier::Cycle => keys.cycle,
            Modifier::Activate => keys.activate,
            Modifier::Menu => keys.menu,
        }
    }

    /// The key bound to this modifier job in the given settings.
    pub fn key_for(&self, keys: &ModifierKeys) -> (r: i32)
        ensures
            r == self.spec_key_for(*keys),
    {
        match self {
            Modifier::Unequip => keys.unequip,
            Modifier::Cycle => keys.cycle,
            Modifier::Activate => keys.activate,
            Modifier::Menu => keys.menu,
        }
    }
}

/// The state of a key.
#[derive(Clone, Copy, Debug, PartialEq, Eq, Hash, Structural)]
pub enum KeyState {
    Up,
    Pressed,
    Down,
}

impl Default for KeyState {
    fn default() -> (r: Self)
        ensures
            r == KeyState::Up,
    {
        KeyState::Up
    }
}

impl KeyState {
    /// The state a button event reports: down wins over pressed, and a
    /// button that is neither is up.
    pub open spec fn from_button_spec(is_down: bool, is_pressed: bool) -> KeyState {
        if is_down {
            KeyState::Down
        } else if is_pressed {
            KeyState::Pressed
        } else {
            KeyState::Up
        }
    }

    /// The state a button event reports: down wins over pressed, and a
    /// button that is neither is up.
    pub fn from_button(is_down: bool, is_pressed: bool) -> (r: KeyState)
        ensures
            r == KeyState::from_button_spec(is_down, is_pressed),
    {
        if is_down {
            KeyState::Down
        } else if is_pressed {
            KeyState::Pressed
        } else {
            KeyState::Up
        }
    }
}

/// The action of the hotkey of each cycle.
pub open spec fn slot_action(slot: CycleSlot) -> Action {
    match slot {
        CycleSlot::Power => Action::Power,
        CycleSlot::Utility => Action::Utility,
        CycleSlot::Left => Action::Left,
        CycleSlot::Right => Action::Right,
    }
}

/// The cycle an action advances, if any.
pub open spec fn action_slot(action: Action) -> Option<CycleSlot> {
    match action {
        Action::Power => Some(CycleSlot::Power),
        Action::Utility => Some(CycleSlot::Utility),
        Action::Left => Some(CycleSlot::Left),
        Action::Right => Some(CycleSlot::Right),
        _ => None,
    }
}

/// The HUD element that shows each cycle.
pub open spec fn slot_element(slot: CycleSlot) -> HudElement {
    match slot {
        CycleSlot::Power => HudElement::Power,
        CycleSlot::Utility => HudElement::Utility,
        CycleSlot::Left => HudElement::Left,
        CycleSlot::Right => HudElement::Right,
    }
}

impl vstd::std_specs::convert::FromSpecImpl<CycleSlot> for Action {
    open spec fn obeys_from_spec() -> bool {
        true
    }

    open spec fn from_spec(v: CycleSlot) -> Action {
        slot_action(v)
    }
}

impl From<CycleSlot> for Action {
    fn from(value: CycleSlot) -> (r: Action) {
        match value {
            CycleSlot::Power => Action::Power,
            CycleSlot::Utility => Action::Utility,
            CycleSlot::Left => Action::Left,
            CycleSlot::Right => Action::Right,
        }
    }
}

impl<'a> vstd::std_specs::convert::FromSpecImpl<&'a CycleSlot> for HudElement {
    open spec fn obeys_from_spec() -> bool {
        true
    }

    open spec fn from_spec(v: &'a CycleSlot) -> HudElement {
        slot_element(*v)
    }
}

impl<'a> From<&'a CycleSlot> for HudElement {
    fn from(value: &'a CycleSlot) -> (r: HudElement) {
        match value {
            CycleSlot::Power => HudElement::Power,
            CycleSlot::Utility => HudElement::Utility,
            CycleSlot::Left => HudElement::Left,
            CycleSlot::Right => HudElement::Right,
        }
    }
}

/// The error for an action that advances no cycle.
#[derive(Clone, Copy, Debug, PartialEq, Eq, Hash, Structural)]
pub struct NotACycle;

impl vstd::std_specs::convert::TryFromSpecImpl<Action> for CycleSlot {
    open spec fn obeys_try_from_spec() -> bool {
        true
    }

    open spec fn try_from_spec(v: Action) -> Result<CycleSlot, NotACycle> {
        match action_slot(v) {
            Some(s) => Ok(s),
            None => Err(NotACycle),
        }
    }
}

impl TryFrom<Action> for CycleSlot {
    type Error = NotACycle;

    fn try_from(value: Action) -> (r: Result<CycleSlot, NotACycle>) {
        match value {
            Action::Power => Ok(CycleSlot::Power),
            Action::Utility => Ok(CycleSlot::Utility),
            Action::Left => Ok(CycleSlot::Left),
            Action::Right => Ok(CycleSlot::Right),
            _ => Err(NotACycle),
        }
    }
}

/// The hotkey action of a cycle leads back to that cycle, and the cycle of
/// an action that has one leads back to the action.
pub proof fn lemma_slot_action_round_trip(slot: CycleSlot, action: Action)
    ensures
        action_slot(slot_action(slot)) == Some(slot),
        action_slot(action) matches Some(s) ==> slot_action(s) == action,
{
}

/// Which modifier jobs a key has; one key may have several.
#[derive(Clone, Copy, Debug, PartialEq, Eq, Hash, Structural)]
pub struct ModifierSet {
    pub unequip: bool,
    pub cycle: bool,
    pub activate: bool,
    pub menu: bool,
}

impl ModifierSet {
    /// Whether the key has no modifier job.
    pub open spec fn spec_is_empty(self) -> bool {
        !self.unequip && !self.cycle && !self.activate && !self.menu
    }

    /// The first job, in the order unequip, cycle, activate, menu.
    pub open spec fn spec_first(self) -> Option<Modifier> {
        if self.unequip {
            Some(Modifier::Unequip)
        } else if self.cycle {
            Some(Modifier::Cycle)
        } else if self.activate {
            Some(Modifier::Activate)
        } else if self.menu {
            Some(Modifier::Menu)
        } else {
            None
        }
    }
}

/// What a key means to the HUD.
#[derive(Clone, Copy, Debug, PartialEq, Eq, Hash, Structural)]
pub enum Hotkey {
    Power,
    Utility,
    Left,
    Right,
    Equipment,
    Activate,
    UnequipHands,
    Refresh,
    ShowHide,
    /// A modifier key, with all the jobs it has.
    Modifier(ModifierSet),
    /// A key the HUD does not care about.
    NoHotkey,
}

impl Default for Hotkey {
    fn default() -> (r: Self)
        ensures
            r == Hotkey::NoHotkey,
    {
        Hotkey::NoHotkey
    }
}

/// Whether `v` is the key bound to a modifier job; unset modifiers are not positive.
pub open spec fn is_modifier_key(v: u32, modifier: i32) -> bool {
    modifier > 0 && v == modifier as u32
}

/// The modifier jobs of key `v`.
pub open spec fn modifiers_for(v: u32, s: KeySettings) -> ModifierSet {
    ModifierSet {
        unequip: is_modifier_key(v, s.unequip_modifier),
        cycle: is_modifier_key(v, s.cycle_modifier),
        activate: is_modifier_key(v, s.activate_modifier),
        menu: is_modifier_key(v, s.menu_modifier),
    }
}

/// What key `v` means: its modifier jobs if it has any, else the first
/// hotkey it is bound to, checked in a fixed order.
pub open spec fn hotkey_for_key(v: u32, s: KeySettings) -> Hotkey {
    let set = modifiers_for(v, s);
    if !set.spec_is_empty() {
        Hotkey::Modifier(set)
    } else if v == s.power {
        Hotkey::Power
    } else if v == s.utility {
        Hotkey::Utility
    } else if v == s.left {
        Hotkey::Left
    } else if v == s.right {
        Hotkey::Right
    } else if v == s.equipset as u32 {
        Hotkey::Equipment
    } else if v == s.refresh_layout {
        Hotkey::Refresh
    } else if v == s.showhide {
        Hotkey::ShowHide
    } else if v == s.activate {
        Hotkey::Activate
    } else if v == s.spec_unequip_hotkey() as u32 {
        Hotkey::UnequipHands
    } else {
        Hotkey::NoHotkey
    }
}

/// Whether `v` is the key bound to a modifier job.
fn modifier_matches(v: u32, modifier: i32) -> (r: bool)
    ensures
        r == is_modifier_key(v, modifier),
{
    modifier > 0 && v == modifier as u32
}

impl Hotkey {
    /// What key `v` means under the given settings.
    pub fn from_key(v: u32, s: &KeySettings) -> (r: Hotkey)
        ensures
            r == hotkey_for_key(v, *s),
    {
        let set = ModifierSet {
            unequip: modifier_matches(v, s.unequip_modifier),
            cycle: modifier_matches(v, s.cycle_modifier),
            activate: modifier_matches(v, s.activate_modifier),
            menu: modifier_matches(v, s.menu_modifier),
        };
        if set.unequip || set.cycle || set.activate || set.menu {
            Hotkey::Modifier(set)
        } else if v == s.power {
            Hotkey::Power
        } else if v == s.utility {
            Hotkey::Utility
        } else if v == s.left {
            Hotkey::Left
        } else if v == s.right {
            Hotkey::Right
        } else if v == s.equipset as u32 {
            Hotkey::Equipment
        } else if v == s.refresh_layout {
            Hotkey::Refresh
        } else if v == s.showhide {
            Hotkey::ShowHide
        } else if v == s.activate {
            Hotkey::Activate
        } else if v == s.unequip_hotkey() as u32 {
            Hotkey::UnequipHands
        } else {
            Hotkey::NoHotkey
        }
    }

    /// The key bound to this hotkey, as a signed key code; a modifier key
    /// answers with the key of its first job; -1 when there is none.
    pub open spec fn spec_key_for(self, s: KeySettings) -> i32 {
        match self {
            Hotkey::Power => s.power as i32,
            Hotkey::Utility => s.utility as i32,
            Hotkey::Left => s.left as i32,
            Hotkey::Right => s.right as i32,
            Hotkey::Equipment => s.equipset,
            Hotkey::Activate => s.activate as i32,
            Hotkey::UnequipHands => s.spec_unequip_hotkey(),
            Hotkey::Refresh => s.refresh_layout as i32,
            Hotkey::ShowHide => s.showhide as i32,
            Hotkey::Modifier(m) => match m.spec_first() {
                Some(job) => job.spec_key_for(s.spec_modifier_keys()),
                None => -1i32,
            },
            Hotkey::NoHotkey => -1i32,
        }
    }

    /// The key bound to this hotkey under the given settings.
    pub fn key_for(&self, s: &KeySettings) -> (r: i32)
        ensures
            r == self.spec_key_for(*s),
    {
        match self {
            Hotkey::Power => s.power as i32,
            Hotkey::Utility => s.utility as i32,
            Hotkey::Left => s.left as i32,
            Hotkey::Right => s.right as i32,
            Hotkey::Equipment => s.equipset,
            Hotkey::Activate => s.activate as i32,
            Hotkey::UnequipHands => s.unequip_hotkey(),
            Hotkey::Refresh => s.refresh_layout as i32,
            Hotkey::ShowHide => s.showhide as i32,
            Hotkey::Modifier(m) => {
                let keys = s.modifier_keys();
                if m.unequip {
                    Modifier::Unequip.key_for(&keys)
                } else if m.cycle {
                    Modifier::Cycle.key_for(&keys)
                } else if m.activate {
                    Modifier::Activate.key_for(&keys)
                } else if m.menu {
                    Modifier::Menu.key_for(&keys)
                } else {
                    -1
                }
            },
            Hotkey::NoHotkey => -1,
        }
    }

    /// What a long press of this key asks for.
    pub open spec fn spec_long_press_action(self, s: KeySettings, ranged_equipped: bool) -> RequestedAction {
        let advance = s.how_to_cycle is LongPress;
        let unequip = s.unarmed_handling is LongPress;
        if self is Power {
            if unequip {
                RequestedAction::Unequip
            } else if advance {
                RequestedAction::Advance
            } else {
                RequestedAction::NoAction
            }
        } else if self is Utility {
            if s.how_to_activate is LongPress {
                RequestedAction::Consume
            } else if advance {
                RequestedAction::Advance
            } else {
                RequestedAction::NoAction
            }
        } else if self is Left || self is Right {
            if unequip {
                RequestedAction::Unequip
            } else if s.long_press_matches {
                RequestedAction::Match
            } else if advance {
                if self is Left && s.cycle_ammo && ranged_equipped {
                    RequestedAction::AdvanceAmmo
                } else {
                    RequestedAction::Advance
                }
            } else {
                RequestedAction::NoAction
            }
        } else {
            RequestedAction::NoAction
        }
    }

    /// What a long press of this key asks for, given the settings and
    /// whether a ranged weapon is equipped.
    pub fn long_press_action(&self, s: &KeySettings, ranged_equipped: bool) -> (r: RequestedAction)
        ensures
            r == self.spec_long_press_action(*s, ranged_equipped),
    {
        let advance = matches!(s.how_to_cycle, ActivationMethod::LongPress);
        let unequip = matches!(s.unarmed_handling, UnarmedMethod::LongPress);
        if matches!(self, Hotkey::Power) {
            if unequip {
                RequestedAction::Unequip
            } else if advance {
                RequestedAction::Advance
            } else {
                RequestedAction::NoAction
            }
        } else if matches!(self, Hotkey::Utility) {
            let consume = matches!(s.how_to_activate, ActivationMethod::LongPress);
            if consume {
                RequestedAction::Consume
            } else if advance {
                RequestedAction::Advance
            } else {
                RequestedAction::NoAction
            }
        } else if matches!(self, Hotkey::Left | Hotkey::Right) {
            if unequip {
                RequestedAction::Unequip
            } else if s.long_press_matches {
                RequestedAction::Match
            } else if advance {
                if matches!(self, Hotkey::Left) && s.cycle_ammo && ranged_equipped {
                    RequestedAction::AdvanceAmmo
                } else {
                    RequestedAction::Advance
                }
            } else {
                RequestedAction::NoAction
            }
        } else {
            RequestedAction::NoAction
        }
    }

    /// The hotkey of a cycle.
    pub fn from_slot(slot: &CycleSlot) -> (r: Hotkey)
        ensures
            r == match *slot {
                CycleSlot::Left => Hotkey::Left,
                CycleSlot::Power => Hotkey::Power,
                CycleSlot::Right => Hotkey::Right,
                CycleSlot::Utility => Hotkey::Utility,
            },
    {
        match slot {
            CycleSlot::Left => Hotkey::Left,
            CycleSlot::Power => Hotkey::Power,
            CycleSlot::Right => Hotkey::Right,
            CycleSlot::Utility => Hotkey::Utility,
        }
    }

    /// The hotkey that triggers an action.
    pub open spec fn spec_from_action(action: Action) -> Hotkey {
        match action {
            Action::Activate => Hotkey::Activate,
            Action::Left => Hotkey::Left,
            Action::Power => Hotkey::Power,
            Action::Right => Hotkey::Right,
            Action::Equipment => Hotkey::Equipment,
            Action::ShowHide => Hotkey::ShowHide,
            Action::Utility => Hotkey::Utility,
            Action::RefreshLayout => Hotkey::Refresh,
            Action::UnequipHands => Hotkey::UnequipHands,
            _ => Hotkey::NoHotkey,
        }
    }

    /// The hotkey that triggers an action.
    pub fn from_action(action: &Action) -> (r: Hotkey)
        ensures
            r == Hotkey::spec_from_action(*action),
    {
        match action {
            Action::Activate => Hotkey::Activate,
            Action::Left => Hotkey::Left,
            Action::Power => Hotkey::Power,
            Action::Right => Hotkey::Right,
            Action::Equipment => Hotkey::Equipment,
            Action::ShowHide => Hotkey::ShowHide,
            Action::Utility => Hotkey::Utility,
            Action::RefreshLayout => Hotkey::Refresh,
            Action::UnequipHands => Hotkey::UnequipHands,
            _ => Hotkey::NoHotkey,
        }
    }

    /// The action a hotkey triggers.
    pub open spec fn spec_action(self) -> Action {
        match self {
            Hotkey::Power => Action::Power,
            Hotkey::Utility => Action::Utility,
            Hotkey::Left => Action::Left,
            Hotkey::Right => Action::Right,
            Hotkey::Activate => Action::Activate,
            Hotkey::Refresh => Action::RefreshLayout,
            Hotkey::ShowHide => Action::ShowHide,
            Hotkey::Equipment => Action::Equipment,
            _ => Action::NoAction,
        }
    }

    /// The action a hotkey triggers.
    pub fn action(&self) -> (r: Action)
        ensures
            r == self.spec_action(),
    {
        match self {
            Hotkey::Power => Action::Power,
            Hotkey::Utility => Action::Utility,
            Hotkey::Left => Action::Left,
            Hotkey::Right => Action::Right,
            Hotkey::Activate => Action::Activate,
            Hotkey::Refresh => Action::RefreshLayout,
            Hotkey::ShowHide => Action::ShowHide,
            Hotkey::Equipment => Action::Equipment,
            _ => Action::NoAction,
        }
    }

    /// The HUD element a hotkey cycles; other hotkeys draw nothing.
    pub fn element(&self) -> (r: HudElement)
        ensures
            r == match *self {
                Hotkey::Power => HudElement::Power,
                Hotkey::Utility => HudElement::Utility,
                Hotkey::Left => HudElement::Left,
                Hotkey::Right => HudElement::Right,
                _ => HudElement::NotDrawn,
            },
    {
        match self {
            Hotkey::Power => HudElement::Power,
            Hotkey::Utility => HudElement::Utility,
            Hotkey::Left => HudElement::Left,
            Hotkey::Right => HudElement::Right,
            _ => HudElement::NotDrawn,
        }
    }

    /// The cycle a hotkey advances, if any.
    pub fn slot(&self) -> (r: Option<CycleSlot>)
        ensures
            r == match *self {
                Hotkey::Power => Some(CycleSlot::Power),
                Hotkey::Utility => Some(CycleSlot::Utility),
                Hotkey::Left => Some(CycleSlot::Left),
                Hotkey::Right => Some(CycleSlot::Right),
                _ => None,
            },
    {
        match self {
            Hotkey::Power => Some(CycleSlot::Power),
            Hotkey::Utility => Some(CycleSlot::Utility),
            Hotkey::Left => Some(CycleSlot::Left),
            Hotkey::Right => Some(CycleSlot::Right),
            _ => None,
        }
    }
}

/// The action key `value` triggers under the given settings, checked in a fixed order.
pub open spec fn spec_action_for_key(value: u32, s: KeySettings) -> Action {
    if value == s.left {
        Action::Left
    } else if value == s.right {
        Action::Right
    } else if value == s.power {
        Action::Power
    } else if value == s.utility {
        Action::Utility
    } else if value == s.activate {
        Action::Activate
    } else if value == s.showhide {
        Action::ShowHide
    } else if value == s.refresh_layout {
        Action::RefreshLayout
    } else if value == s.equipset as u32 {
        Action::Equipment
    } else if value == s.spec_unequip_hotkey() as u32 {
        Action::UnequipHands
    } else {
        Action::NoAction
    }
}

/// The action key `value` triggers under the given settings.
pub fn action_for_key(value: u32, s: &KeySettings) -> (r: Action)
    ensures
        r == spec_action_for_key(value, *s),
{
    if value == s.left {
        Action::Left
    } else if value == s.right {
        Action::Right
    } else if value == s.power {
        Action::Power
    } else if value == s.utility {
        Action::Utility
    } else if value == s.activate {
        Action::Activate
    } else if value == s.showhide {
        Action::ShowHide
    } else if value == s.refresh_layout {
        Action::RefreshLayout
    } else if value == s.equipset as u32 {
        Action::Equipment
    } else if value == s.unequip_hotkey() as u32 {
        Action::UnequipHands
    } else {
        Action::NoAction
    }
}

/// The HUD element that shows the item of an action; anything else is the ammo element.
pub fn element_for_action(value: Action) -> (r: HudElement)
    ensures
        r == match value {
            Action::Power => HudElement::Power,
            Action::Utility => HudElement::Utility,
            Action::Left => HudElement::Left,
            Action::Right => HudElement::Right,
            _ => HudElement::Ammo,
        },
{
    match value {
        Action::Power => HudElement::Power,
        Action::Utility => HudElement::Utility,
        Action::Left => HudElement::Left,
        Action::Right => HudElement::Right,
        _ => HudElement::Ammo,
    }
}

/// What releasing a hand key asks for: unequipping when the unarmed setting
/// says so, dual-wielding on a long press when enabled, advancing when the
/// cycle setting says so, and nothing otherwise.
pub open spec fn spec_keyup_action(
    s: KeySettings,
    is_long_press: bool,
    unequip_modifier_pressed: bool,
    cycle_modifier_pressed: bool,
) -> RequestedAction {
    let unequip = match s.unarmed_handling {
        UnarmedMethod::LongPress => is_long_press,
        UnarmedMethod::Modifier => unequip_modifier_pressed,
        _ => false,
    };
    let advance = match s.how_to_cycle {
        ActivationMethod::Hotkey => true,
        ActivationMethod::LongPress => is_long_press,
        ActivationMethod::Modifier => cycle_modifier_pressed,
    };
    if unequip {
        RequestedAction::Unequip
    } else if is_long_press && s.long_press_matches {
        RequestedAction::Match
    } else if advance {
        RequestedAction::Advance
    } else {
        RequestedAction::NoAction
    }
}

/// What releasing a hand key asks for, given the settings, whether the press
/// was long, and whether the unequip and cycle modifiers are held.
pub fn keyup_action(
    s: &KeySettings,
    is_long_press: bool,
    unequip_modifier_pressed: bool,
    cycle_modifier_pressed: bool,
) -> (r: RequestedAction)
    ensures
        r == spec_keyup_action(*s, is_long_press, unequip_modifier_pressed, cycle_modifier_pressed),
{
    let unequip = match s.unarmed_handling {
        UnarmedMethod::LongPress => is_long_press,
        UnarmedMethod::Modifier => unequip_modifier_pressed,
        _ => false,
    };
    let advance = match s.how_to_cycle {
        ActivationMethod::Hotkey => true,
        ActivationMethod::LongPress => is_long_press,
        ActivationMethod::Modifier => cycle_modifier_pressed,
    };
    if unequip {
        RequestedAction::Unequip
    } else if is_long_press && s.long_press_matches {
        RequestedAction::Match
    } else if advance {
        RequestedAction::Advance
    } else {
        RequestedAction::NoAction
    }
}

/// A key the controller is tracking: its code, what it means, its state, and
/// when the current press started, in milliseconds of a clock the game side keeps.
#[derive(Clone, Copy, Debug, PartialEq, Eq, Hash, Structural)]
pub struct TrackedKey {
    pub key: u32,
    pub hotkey: Hotkey,
    pub state: KeyState,
    pub press_start: Option<u64>,
}

impl Default for TrackedKey {
    fn default() -> (r: Self)
        ensures
            r == (TrackedKey {
                key: 0,
                hotkey: Hotkey::NoHotkey,
                state: KeyState::Up,
                press_start: None,
            }),
    {
        TrackedKey { key: 0, hotkey: Hotkey::NoHotkey, state: KeyState::Up, press_start: None }
    }
}

impl TrackedKey {
    /// Start tracking key `key` at time `now`.
    pub fn new(key: u32, is_down: bool, is_pressed: bool, now: u64, s: &KeySettings) -> (r: Self)
        ensures
            r.key == key,
            r.hotkey == hotkey_for_key(key, *s),
            r.state == KeyState::from_button_spec(is_down, is_pressed),
            r.press_start == Some(now),
    {
        TrackedKey {
            key,
            hotkey: Hotkey::from_key(key, s),
            state: KeyState::from_button(is_down, is_pressed),
            press_start: Some(now),
        }
    }

    /// The action of the tracked key.
    pub fn action(&self) -> (r: Action)
        ensures
            r == self.hotkey.spec_action(),
    {
        self.hotkey.action()
    }

    /// Whether the HUD does not care about this key.
    pub fn ignore(&self) -> (r: bool)
        ensures
            r == (self.hotkey is NoHotkey),
    {
        matches!(self.hotkey, Hotkey::NoHotkey)
    }

    /// Whether this is a modifier key.
    pub fn is_modifier(&self) -> (r: bool)
        ensures
            r == (self.hotkey is Modifier),
    {
        matches!(self.hotkey, Hotkey::Modifier(_))
    }

    /// Whether this key advances a cycle or the equipsets.
    pub fn is_cycle_key(&self) -> (r: bool)
        ensures
            r == (self.hotkey is Left || self.hotkey is Power || self.hotkey is Right
                || self.hotkey is Utility || self.hotkey is Equipment),
    {
        matches!(
            self.hotkey,
            Hotkey::Left | Hotkey::Power | Hotkey::Right | Hotkey::Utility | Hotkey::Equipment
        )
    }

    /// Record a new button event at time `now`: a key going down starts a new
    /// press, a held key keeps its start, and a released key keeps it too.
    pub fn update(&mut self, is_down: bool, is_pressed: bool, now: u64)
        ensures
            final(self).key == old(self).key,
            final(self).hotkey == old(self).hotkey,
            final(self).state == KeyState::from_button_spec(is_down, is_pressed),
            final(self).press_start == match KeyState::from_button_spec(is_down, is_pressed) {
                KeyState::Up => old(self).press_start,
                KeyState::Pressed => if old(self).press_start is None {
                    Some(now)
                } else {
                    old(self).press_start
                },
                KeyState::Down => Some(now),
            },
    {
        self.state = KeyState::from_button(is_down, is_pressed);
        match self.state {
            KeyState::Up => {},
            KeyState::Pressed => {
                if self.press_start.is_none() {
                    self.press_start = Some(now);
                }
            },
            KeyState::Down => {
                self.press_start = Some(now);
            },
        }
    }

    /// Whether the current press has lasted longer than `long_press_ms` at time `now`.
    pub fn is_long_press(&self, now: u64, long_press_ms: u32) -> (r: bool)
        ensures
            r == match self.press_start {
                Some(start) => now >= start && now - start > long_press_ms,
                None => false,
            },
    {
        match self.press_start {
            Some(start) => now >= start && now - start > long_press_ms as u64,
            None => false,
        }
    }

    /// Whether the key is up.
    pub fn is_up(&self) -> (r: bool)
        ensures
            r == (self.state is Up),
    {
        matches!(self.state, KeyState::Up)
    }

    /// Whether the key is held.
    pub fn is_pressed(&self) -> (r: bool)
        ensures
            r == (self.state is Pressed || self.state is Down),
    {
        matches!(self.state, KeyState::Pressed | KeyState::Down)
    }
}

/// What a button event makes of a tracked key: the new state, and the start
/// of the press, which a key going down sets, a held key keeps (setting it
/// if unknown), and a released key keeps.
pub open spec fn after_event(t: TrackedKey, is_down: bool, is_pressed: bool, now: u64) -> TrackedKey {
    let st = KeyState::from_button_spec(is_down, is_pressed);
    TrackedKey {
        key: t.key,
        hotkey: t.hotkey,
        state: st,
        press_start: match st {
            KeyState::Up => t.press_start,
            KeyState::Pressed => if t.press_start is None {
                Some(now)
            } else {
                t.press_start
            },
            KeyState::Down => Some(now),
        },
    }
}

/// The position of the first entry at or after `i` that tracks key `code`, or -1.
pub open spec fn key_index_from(keys: Seq<TrackedKey>, code: u32, i: int) -> int
    decreases keys.len() - i,
{
    if i < 0 || i >= keys.len() {
        -1
    } else if keys[i].key == code {
        i
    } else {
        key_index_from(keys, code, i + 1)
    }
}

/// The position of the first entry at or after `i` for hotkey `h`, or -1.
pub open spec fn hotkey_index_from(keys: Seq<TrackedKey>, h: Hotkey, i: int) -> int
    decreases keys.len() - i,
{
    if i < 0 || i >= keys.len() {
        -1
    } else if keys[i].hotkey == h {
        i
    } else {
        hotkey_index_from(keys, h, i + 1)
    }
}

/// A found position lies in the sequence and holds the key; -1 means none does.
proof fn lemma_key_index(keys: Seq<TrackedKey>, code: u32, i: int)
    requires
        0 <= i,
    ensures
        ({
            let r = key_index_from(keys, code, i);
            &&& r == -1 ==> forall|j: int| i <= j < keys.len() ==> keys[j].key != code
            &&& r != -1 ==> i <= r < keys.len() && keys[r].key == code && forall|j: int|
                i <= j < r ==> keys[j].key != code
        }),
    decreases keys.len() - i,
{
    if i < keys.len() && keys[i].key != code {
        lemma_key_index(keys, code, i + 1);
    }
}

/// The entry of key `code` with meaning `h` after a button event, from the
/// entry it had before, if any.
pub open spec fn event_entry(
    prev: Option<TrackedKey>,
    code: u32,
    h: Hotkey,
    is_down: bool,
    is_pressed: bool,
    now: u64,
) -> TrackedKey {
    let base = match prev {
        Some(p) => TrackedKey { key: code, hotkey: h, state: p.state, press_start: p.press_start },
        None => TrackedKey { key: code, hotkey: h, state: KeyState::Up, press_start: None },
    };
    after_event(base, is_down, is_pressed, now)
}

/// The tracked keys after a button event for key `code` with meaning `h`:
/// the entry of the key is updated, with its meaning refreshed, or a new
/// entry is added.
pub open spec fn recorded(
    keys: Seq<TrackedKey>,
    code: u32,
    h: Hotkey,
    is_down: bool,
    is_pressed: bool,
    now: u64,
) -> Seq<TrackedKey> {
    let i = key_index_from(keys, code, 0);
    if i >= 0 {
        keys.update(i, event_entry(Some(keys[i]), code, h, is_down, is_pressed, now))
    } else {
        keys.push(event_entry(None, code, h, is_down, is_pressed, now))
    }
}

/// The entry for key `code` among `keys`, if there is one: the first.
pub open spec fn entry_in(keys: Seq<TrackedKey>, code: u32) -> Option<TrackedKey> {
    let i = key_index_from(keys, code, 0);
    if i >= 0 {
        Some(keys[i])
    } else {
        None
    }
}

/// Two sequences of tracked keys that agree on which positions hold key
/// `code` find the same first position for it.
proof fn lemma_same_positions(a: Seq<TrackedKey>, b: Seq<TrackedKey>, code: u32)
    requires
        a.len() <= b.len(),
        forall|j: int| 0 <= j < a.len() ==> (a[j].key == code <==> b[j].key == code),
        forall|j: int| a.len() <= j < b.len() ==> b[j].key != code,
    ensures
        key_index_from(a, code, 0) == key_index_from(b, code, 0),
{
    lemma_key_index(a, code, 0);
    lemma_key_index(b, code, 0);
    let ra = key_index_from(a, code, 0);
    let rb = key_index_from(b, code, 0);
    if ra != -1 && rb != -1 {
        if ra < rb {
            assert(b[ra].key == code);
        } else if rb < ra {
            assert(a[rb].key == code);
        }
    } else if ra != -1 {
        assert(b[ra].key == code);
    } else if rb != -1 {
        assert(rb < a.len());
        assert(a[rb].key == code);
    }
}

/// Reading the entry of a key after recording a button event for it gives
/// the entry that the event made, and every other key keeps its entry.
pub proof fn lemma_record_then_read(
    keys: Seq<TrackedKey>,
    code: u32,
    h: Hotkey,
    is_down: bool,
    is_pressed: bool,
    now: u64,
    other: u32,
)
    ensures
        entry_in(recorded(keys, code, h, is_down, is_pressed, now), code) == Some(
            event_entry(entry_in(keys, code), code, h, is_down, is_pressed, now),
        ),
        other != code ==> entry_in(recorded(keys, code, h, is_down, is_pressed, now), other) == entry_in(
            keys,
            other,
        ),
{
    lemma_key_index(keys, code, 0);
    let i = key_index_from(keys, code, 0);
    let after = recorded(keys, code, h, is_down, is_pressed, now);
    let e = event_entry(entry_in(keys, code), code, h, is_down, is_pressed, now);
    lemma_key_index(after, code, 0);
    let r = key_index_from(after, code, 0);
    if i >= 0 {
        assert(after == keys.update(i, e));
        assert(after[i].key == code);
        if r == -1 {
            assert(after[i].key != code);
        } else if r < i {
            assert(after[r] == keys[r]);
        } else if r > i {
            assert(after[i].key != code);
        }
        if other != code {
            lemma_same_positions(keys, after, other);
            lemma_key_index(keys, other, 0);
            let ro = key_index_from(keys, other, 0);
            if ro >= 0 {
                assert(ro != i);
                assert(after[ro] == keys[ro]);
            }
        }
    } else {
        assert(after == keys.push(e));
        assert(after[keys.len() as int].key == code);
        if r == -1 {
            assert(after[keys.len() as int].key != code);
        } else if r < keys.len() {
            assert(after[r] == keys[r]);
        }
        if other != code {
            lemma_same_positions(keys, after, other);
            lemma_key_index(keys, other, 0);
            let ro = key_index_from(keys, other, 0);
            if ro >= 0 {
                assert(after[ro] == keys[ro]);
            }
        }
    }
}

/// Whether a modifier set has the given job.
pub open spec fn has_job(set: ModifierSet, job: Modifier) -> bool {
    match job {
        Modifier::Unequip => set.unequip,
        Modifier::Cycle => set.cycle,
        Modifier::Activate => set.activate,
        Modifier::Menu => set.menu,
    }
}

/// Whether a tracked key is a held modifier with the given job.
pub open spec fn holds_job(t: TrackedKey, job: Modifier) -> bool {
    &&& t.hotkey matches Hotkey::Modifier(set) && has_job(set, job)
    &&& (t.state is Pressed || t.state is Down)
}

/// Whether some held key among `keys` is a modifier with the given job.
pub open spec fn job_held_in(keys: Seq<TrackedKey>, job: Modifier) -> bool {
    exists|i: int| 0 <= i < keys.len() && holds_job(#[trigger] keys[i], job)
}

/// The keys the controller has seen, with their states.
#[derive(Clone, Debug)]
pub struct KeyTracker {
    pub keys: Vec<TrackedKey>,
}

/// A key that was never seen: up, with no meaning.
pub open spec fn untracked() -> TrackedKey {
    TrackedKey { key: 0, hotkey: Hotkey::NoHotkey, state: KeyState::Up, press_start: None }
}

impl KeyTracker {
    /// The entry for key `code`, if it was seen.
    pub open spec fn entry(self, code: u32) -> Option<TrackedKey> {
        entry_in(self.keys@, code)
    }

    /// The first entry with meaning `h`, or an untracked key.
    pub open spec fn for_hotkey(self, h: Hotkey) -> TrackedKey {
        let i = hotkey_index_from(self.keys@, h, 0);
        if i >= 0 {
            self.keys@[i]
        } else {
            untracked()
        }
    }

    /// Whether some held key is a modifier with the given job.
    pub open spec fn job_held(self, job: Modifier) -> bool {
        job_held_in(self.keys@, job)
    }

    /// No key seen yet.
    pub fn new() -> (r: KeyTracker)
        ensures
            r.keys@.len() == 0,
    {
        KeyTracker { keys: Vec::new() }
    }

    /// The entry for key `code`, if it was seen.
    pub fn get(&self, code: u32) -> (r: Option<TrackedKey>)
        ensures
            r == self.entry(code),
    {
        let mut i: usize = 0;
        while i < self.keys.len()
            invariant
                i <= self.keys@.len(),
                key_index_from(self.keys@, code, 0) == key_index_from(self.keys@, code, i as int),
            decreases self.keys.len() - i,
        {
            if self.keys[i].key == code {
                return Some(self.keys[i]);
            }
            i += 1;
        }
        None
    }

    /// The first entry with meaning `h`, or an untracked key.
    pub fn get_tracked_key(&self, h: &Hotkey) -> (r: TrackedKey)
        ensures
            r == self.for_hotkey(*h),
    {
        let mut i: usize = 0;
        while i < self.keys.len()
            invariant
                i <= self.keys@.len(),
                hotkey_index_from(self.keys@, *h, 0) == hotkey_index_from(self.keys@, *h, i as int),
            decreases self.keys.len() - i,
        {
            if self.keys[i].hotkey == *h {
                return self.keys[i];
            }
            i += 1;
        }
        TrackedKey { key: 0, hotkey: Hotkey::NoHotkey, state: KeyState::Up, press_start: None }
    }

    /// Whether some held key is a modifier with the given job.
    pub fn modifier_pressed(&self, job: Modifier) -> (r: bool)
        ensures
            r == self.job_held(job),
    {
        let mut i: usize = 0;
        while i < self.keys.len()
            invariant
                i <= self.keys@.len(),
                forall|j: int| 0 <= j < i ==> !holds_job(#[trigger] self.keys@[j], job),
            decreases self.keys.len() - i,
        {
            let t = self.keys[i];
            let held = match t.hotkey {
                Hotkey::Modifier(set) => {
                    let has = match job {
                        Modifier::Unequip => set.unequip,
                        Modifier::Cycle => set.cycle,
                        Modifier::Activate => set.activate,
                        Modifier::Menu => set.menu,
                    };
                    has && t.is_pressed()
                },
                _ => false,
            };
            if held {
                assert(holds_job(self.keys@[i as int], job));
                return true;
            }
            i += 1;
        }
        false
    }

    /// Record a button event for key `code` with meaning `h` at time `now`;
    /// returns the entry the key had before, if any, and its new entry.
    pub fn record(&mut self, code: u32, h: Hotkey, is_down: bool, is_pressed: bool, now: u64) -> (r: (
        Option<TrackedKey>,
        TrackedKey,
    ))
        ensures
            r.0 == old(self).entry(code),
            r.1 == event_entry(r.0, code, h, is_down, is_pressed, now),
            final(self).keys@ == recorded(old(self).keys@, code, h, is_down, is_pressed, now),
    {
        let mut i: usize = 0;
        while i < self.keys.len()
            invariant
                i <= self.keys@.len(),
                self.keys@ == old(self).keys@,
                key_index_from(self.keys@, code, 0) == key_index_from(self.keys@, code, i as int),
            decreases self.keys.len() - i,
        {
            if self.keys[i].key == code {
                let prev = self.keys[i];
                let mut t = TrackedKey { key: code, hotkey: h, state: prev.state, press_start: prev.press_start };
                t.update(is_down, is_pressed, now);
                self.keys.set(i, t);
                return (Some(prev), t);
            }
            i += 1;
        }
        let mut t = TrackedKey { key: code, hotkey: h, state: KeyState::Up, press_start: None };
        t.update(is_down, is_pressed, now);
        self.keys.push(t);
        (None, t)
    }
}

/// What a long press asks for. The utility key uses its item when the
/// utility item is activated by a long press, and otherwise advances its
/// cycle when cycles advance by a long press. The power key empties its
/// slot when unarmed handling is by long press, and otherwise advances.
/// The hand keys empty the hand when unarmed handling is by long press,
/// otherwise dual-wield when long presses match the hands, otherwise
/// advance: the left key cycles ammunition instead when that is enabled and
/// a ranged weapon is equipped. Any other key, or a long press that none of
/// the settings gives a meaning, asks for nothing.
pub proof fn lemma_long_press_table(s: KeySettings, ranged: bool)
    ensures
        s.how_to_activate is LongPress ==> Hotkey::Utility.spec_long_press_action(s, ranged)
            == RequestedAction::Consume,
        !(s.how_to_activate is LongPress) && s.how_to_cycle is LongPress
            ==> Hotkey::Utility.spec_long_press_action(s, ranged) == RequestedAction::Advance,
        !(s.how_to_activate is LongPress) && !(s.how_to_cycle is LongPress)
            ==> Hotkey::Utility.spec_long_press_action(s, ranged) == RequestedAction::NoAction,
        s.unarmed_handling is LongPress ==> Hotkey::Power.spec_long_press_action(s, ranged)
            == RequestedAction::Unequip,
        !(s.unarmed_handling is LongPress) && s.how_to_cycle is LongPress
            ==> Hotkey::Power.spec_long_press_action(s, ranged) == RequestedAction::Advance,
        !(s.unarmed_handling is LongPress) && !(s.how_to_cycle is LongPress)
            ==> Hotkey::Power.spec_long_press_action(s, ranged) == RequestedAction::NoAction,
        s.unarmed_handling is LongPress ==> Hotkey::Left.spec_long_press_action(s, ranged)
            == RequestedAction::Unequip && Hotkey::Right.spec_long_press_action(s, ranged)
            == RequestedAction::Unequip,
        !(s.unarmed_handling is LongPress) && s.long_press_matches ==> Hotkey::Left.spec_long_press_action(
            s,
            ranged,
        ) == RequestedAction::Match && Hotkey::Right.spec_long_press_action(s, ranged) == RequestedAction::Match,
        !(s.unarmed_handling is LongPress) && !s.long_press_matches && s.how_to_cycle is LongPress
            ==> Hotkey::Right.spec_long_press_action(s, ranged) == RequestedAction::Advance
            && Hotkey::Left.spec_long_press_action(s, ranged) == (if s.cycle_ammo && ranged {
            RequestedAction::AdvanceAmmo
        } else {
            RequestedAction::Advance
        }),
        !(s.unarmed_handling is LongPress) && !s.long_press_matches && !(s.how_to_cycle is LongPress)
            ==> Hotkey::Left.spec_long_press_action(s, ranged) == RequestedAction::NoAction
            && Hotkey::Right.spec_long_press_action(s, ranged) == RequestedAction::NoAction,
        forall|h: Hotkey|
            !(h is Power || h is Utility || h is Left || h is Right) ==> #[trigger] h.spec_long_press_action(
                s,
                ranged,
            ) == RequestedAction::NoAction,
        forall|h: Hotkey|
            #[trigger] h.spec_long_press_action(s, ranged) == RequestedAction::Consume ==> h is Utility,
{
}

/// What releasing a hand key asks for. It empties the hand when unarmed
/// handling is by long press and the press was long, or by modifier and
/// the unequip modifier is held. Otherwise a long press dual-wields when
/// long presses match the hands. Otherwise it advances the cycle when
/// cycles advance by hotkey, by long press after a long press, or by
/// modifier with the cycle modifier held; else it asks for nothing. Other
/// unarmed settings never empty the hand this way.
pub proof fn lemma_keyup_table(s: KeySettings, long: bool, unequip_held: bool, cycle_held: bool)
    ensures
        ({
            let r = spec_keyup_action(s, long, unequip_held, cycle_held);
            let unequip = (s.unarmed_handling is LongPress && long) || (s.unarmed_handling is Modifier
                && unequip_held);
            let advance = s.how_to_cycle is Hotkey || (s.how_to_cycle is LongPress && long) || (
            s.how_to_cycle is Modifier && cycle_held);
            &&& unequip ==> r == RequestedAction::Unequip
            &&& !unequip && long && s.long_press_matches ==> r == RequestedAction::Match
            &&& !unequip && !(long && s.long_press_matches) && advance ==> r == RequestedAction::Advance
            &&& !unequip && !(long && s.long_press_matches) && !advance ==> r == RequestedAction::NoAction
            &&& !(s.unarmed_handling is LongPress || s.unarmed_handling is Modifier) ==> r
                != RequestedAction::Unequip
            &&& r != RequestedAction::Consume && r != RequestedAction::AdvanceAmmo
        }),
{
}

} // verus!
