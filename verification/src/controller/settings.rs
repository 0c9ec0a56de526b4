//! User setting values read from the settings file.

use vstd::prelude::*;

use super::facade::{digits_up_to, digits_within, lemma_digits_within_range, parse_i32, parsed_i32};
use super::keys::{Hotkey, ModifierKeys};
use crate::plugin::HudElement;
use crate::text::{chars_of, lowercase_of, same_text, to_lowercase};

verus! {

/// How to activate things.
#[derive(Clone, Copy, Debug, PartialEq, Eq, Hash, Structural)]
pub enum ActivationMethod {
    /// Tap the hotkey.
    Hotkey,
    /// Long-press the hotkey.
    LongPress,
    /// Use a modifier plus the hotkey.
    Modifier,
}

/// How the player wants to handle unarmed combat.
#[derive(Clone, Copy, Debug, PartialEq, Eq, Hash, Structural)]
pub enum UnarmedMethod {
    /// No support from the HUD.
    NoSupport,
    /// Long-press a cycle key to unequip.
    LongPress,
    /// Use a modifier plus a cycle key to unequip.
    Modifier,
    /// Add unarmed combat to the slots for left and right hand.
    AddToCycles,
    /// Use a dedicated hotkey to switch to bare fists.
    Hotkey,
}

impl ActivationMethod {
    /// The method a settings value names: `0`, `1` or `2`.
    pub open spec fn spec_from_ini(value: Seq<char>) -> Option<ActivationMethod> {
        if value == "0"@ {
            Some(ActivationMethod::Hotkey)
        } else if value == "1"@ {
            Some(ActivationMethod::LongPress)
        } else if value == "2"@ {
            Some(ActivationMethod::Modifier)
        } else {
            None
        }
    }

    /// Read the method from a settings value.
    pub fn from_ini(value: &str) -> (r: Option<ActivationMethod>)
        ensures
            r == ActivationMethod::spec_from_ini(value@),
    {
        if same_text(value, "0") {
            Some(ActivationMethod::Hotkey)
        } else if same_text(value, "1") {
            Some(ActivationMethod::LongPress)
        } else if same_text(value, "2") {
            Some(ActivationMethod::Modifier)
        } else {
            None
        }
    }
}

impl UnarmedMethod {
    /// The method a settings value names: `0` to `4`.
    pub open spec fn spec_from_ini(value: Seq<char>) -> Option<UnarmedMethod> {
        if value == "0"@ {
            Some(UnarmedMethod::NoSupport)
        } else if value == "1"@ {
            Some(UnarmedMethod::LongPress)
        } else if value == "2"@ {
            Some(UnarmedMethod::Modifier)
        } else if value == "3"@ {
            Some(UnarmedMethod::AddToCycles)
        } else if value == "4"@ {
            Some(UnarmedMethod::Hotkey)
        } else {
            None
        }
    }

    /// Read the method from a settings value.
    pub fn from_ini(value: &str) -> (r: Option<UnarmedMethod>)
        ensures
            r == UnarmedMethod::spec_from_ini(value@),
    {
        if same_text(value, "0") {
            Some(UnarmedMethod::NoSupport)
        } else if same_text(value, "1") {
            Some(UnarmedMethod::LongPress)
        } else if same_text(value, "2") {
            Some(UnarmedMethod::Modifier)
        } else if same_text(value, "3") {
            Some(UnarmedMethod::AddToCycles)
        } else if same_text(value, "4") {
            Some(UnarmedMethod::Hotkey)
        } else {
            None
        }
    }
}

/// The key bindings and key-handling choices from the user settings.
#[derive(Clone, Copy, Debug, PartialEq, Eq, Hash, Structural)]
pub struct KeySettings {
    pub power: u32,
    pub utility: u32,
    pub left: u32,
    pub right: u32,
    pub equipset: i32,
    pub activate: u32,
    pub activate_modifier: i32,
    pub cycle_modifier: i32,
    pub menu_modifier: i32,
    pub unequip_modifier: i32,
    pub unequip_hotkey: i32,
    pub unarmed_handling: UnarmedMethod,
    pub showhide: u32,
    pub refresh_layout: u32,
    pub how_to_cycle: ActivationMethod,
    pub how_to_activate: ActivationMethod,
    pub long_press_matches: bool,
    pub cycle_ammo: bool,
    pub how_to_toggle: ActivationMethod,
    pub long_press_ms: u32,
    pub autofade: bool,
    pub group_potions: bool,
}

impl KeySettings {
    /// The unequip hotkey, which counts only when unarmed combat uses a hotkey.
    pub open spec fn spec_unequip_hotkey(self) -> i32 {
        if self.unarmed_handling is Hotkey {
            self.unequip_hotkey
        } else {
            -1i32
        }
    }

    /// The unequip hotkey, or -1 when unarmed combat does not use a hotkey.
    pub fn unequip_hotkey(&self) -> (r: i32)
        ensures
            r == self.spec_unequip_hotkey(),
    {
        if matches!(self.unarmed_handling, UnarmedMethod::Hotkey) {
            self.unequip_hotkey
        } else {
            -1
        }
    }

    /// The keys bound to the modifier jobs.
    pub open spec fn spec_modifier_keys(self) -> ModifierKeys {
        ModifierKeys {
            unequip: self.unequip_modifier,
            cycle: self.cycle_modifier,
            activate: self.activate_modifier,
            menu: self.menu_modifier,
        }
    }

    /// The keys bound to the modifier jobs.
    pub fn modifier_keys(&self) -> (r: ModifierKeys)
        ensures
            r == self.spec_modifier_keys(),
    {
        ModifierKeys {
            unequip: self.unequip_modifier,
            cycle: self.cycle_modifier,
            activate: self.activate_modifier,
            menu: self.menu_modifier,
        }
    }

    /// Whether pressing this key starts a long-press timer: the hand keys
    /// when a long press dual-wields, the four cycle keys when a long press
    /// activates, and the hand and power keys when a long press unequips.
    pub open spec fn spec_should_start_long_press_timer(self, hotkey: Hotkey) -> bool {
        ||| self.long_press_matches && (hotkey is Left || hotkey is Right)
        ||| self.how_to_activate is LongPress && (hotkey is Left || hotkey is Power || hotkey is Right
            || hotkey is Utility)
        ||| self.unarmed_handling is LongPress && (hotkey is Left || hotkey is Power || hotkey is Right)
    }

    /// Whether pressing this key starts a long-press timer.
    pub fn should_start_long_press_timer(&self, hotkey: &Hotkey) -> (r: bool)
        ensures
            r == self.spec_should_start_long_press_timer(*hotkey),
    {
        let is_hand_cycle = matches!(hotkey, Hotkey::Left | Hotkey::Right);
        let can_be_unequipped = matches!(hotkey, Hotkey::Left | Hotkey::Power | Hotkey::Right);
        if self.long_press_matches && is_hand_cycle {
            return true;
        }
        if matches!(self.how_to_activate, ActivationMethod::LongPress) && matches!(
            hotkey,
            Hotkey::Left | Hotkey::Power | Hotkey::Right | Hotkey::Utility
        ) {
            return true;
        }
        if matches!(self.unarmed_handling, UnarmedMethod::LongPress) && can_be_unequipped {
            return true;
        }
        false
    }

    /// Whether a cycle modifier key is set.
    pub fn cycle_with_modifier(&self) -> (r: bool)
        ensures
            r == (self.cycle_modifier > 0),
    {
        self.cycle_modifier > 0
    }
}

impl KeySettings {
    /// The key settings before the settings file is read.
    pub open spec fn default_spec() -> KeySettings {
        KeySettings {
            power: 3,
            utility: 6,
            left: 5,
            right: 7,
            equipset: 9,
            activate: 4,
            activate_modifier: -1i32,
            cycle_modifier: -1i32,
            menu_modifier: -1i32,
            unequip_modifier: -1i32,
            unequip_hotkey: -1i32,
            unarmed_handling: UnarmedMethod::NoSupport,
            showhide: 2,
            refresh_layout: 8,
            how_to_cycle: ActivationMethod::Hotkey,
            how_to_activate: ActivationMethod::Hotkey,
            long_press_matches: false,
            cycle_ammo: true,
            how_to_toggle: ActivationMethod::Hotkey,
            long_press_ms: 1250,
            autofade: true,
            group_potions: false,
        }
    }
}

impl Default for KeySettings {
    fn default() -> (r: Self)
        ensures
            r == KeySettings::default_spec(),
    {
        KeySettings {
            power: 3,
            utility: 6,
            left: 5,
            right: 7,
            equipset: 9,
            activate: 4,
            activate_modifier: -1,
            cycle_modifier: -1,
            menu_modifier: -1,
            unequip_modifier: -1,
            unequip_hotkey: -1,
            unarmed_handling: UnarmedMethod::NoSupport,
            showhide: 2,
            refresh_layout: 8,
            how_to_cycle: ActivationMethod::Hotkey,
            how_to_activate: ActivationMethod::Hotkey,
            long_press_matches: false,
            cycle_ammo: true,
            how_to_toggle: ActivationMethod::Hotkey,
            long_press_ms: 1250,
            autofade: true,
            group_potions: false,
        }
    }
}

/// Where the HUD is anchored on the screen, when the settings move it.
#[derive(Clone, Copy, Debug, PartialEq, Eq, Hash, Structural)]
pub enum NamedAnchor {
    TopLeft,
    TopRight,
    BottomLeft,
    BottomRight,
    Center,
    CenterTop,
    CenterBottom,
    LeftCenter,
    RightCenter,
    /// The layout's own anchor.
    NoAnchor,
}

/// The anchor a settings value names: an `i32` from 0 to 9, where 9 names
/// the left edge as 8 does and any other number names no anchor; text that
/// is no `i32` names nothing.
pub open spec fn spec_anchor_from_ini(value: Seq<char>) -> Option<NamedAnchor> {
    match parsed_i32(value) {
        Some(v) => Some(
            if v == 1 {
                NamedAnchor::TopLeft
            } else if v == 2 {
                NamedAnchor::TopRight
            } else if v == 3 {
                NamedAnchor::BottomLeft
            } else if v == 4 {
                NamedAnchor::BottomRight
            } else if v == 5 {
                NamedAnchor::Center
            } else if v == 6 {
                NamedAnchor::CenterTop
            } else if v == 7 {
                NamedAnchor::CenterBottom
            } else if v == 8 || v == 9 {
                NamedAnchor::LeftCenter
            } else {
                NamedAnchor::NoAnchor
            },
        ),
        None => None,
    }
}

impl NamedAnchor {
    /// The anchor a settings value names.
    pub fn from_ini(value: &str) -> (r: Option<NamedAnchor>)
        ensures
            r == spec_anchor_from_ini(value@),
    {
        match parse_i32(value) {
            Some(v) => Some(
                if v == 1 {
                    NamedAnchor::TopLeft
                } else if v == 2 {
                    NamedAnchor::TopRight
                } else if v == 3 {
                    NamedAnchor::BottomLeft
                } else if v == 4 {
                    NamedAnchor::BottomRight
                } else if v == 5 {
                    NamedAnchor::Center
                } else if v == 6 {
                    NamedAnchor::CenterTop
                } else if v == 7 {
                    NamedAnchor::CenterBottom
                } else if v == 8 || v == 9 {
                    NamedAnchor::LeftCenter
                } else {
                    NamedAnchor::NoAnchor
                },
            ),
            None => None,
        }
    }
}

/// The anchor a layout file names, once lowercased: the corners, the
/// center, the middle of each edge (each of these under two names), or
/// none; other names are no anchor.
pub open spec fn anchor_named(name: Seq<char>) -> Option<NamedAnchor> {
    if name == "top_left"@ {
        Some(NamedAnchor::TopLeft)
    } else if name == "top_right"@ {
        Some(NamedAnchor::TopRight)
    } else if name == "bottom_left"@ {
        Some(NamedAnchor::BottomLeft)
    } else if name == "bottom_right"@ {
        Some(NamedAnchor::BottomRight)
    } else if name == "center"@ {
        Some(NamedAnchor::Center)
    } else if name == "center_top"@ {
        Some(NamedAnchor::CenterTop)
    } else if name == "top_center"@ {
        Some(NamedAnchor::CenterTop)
    } else if name == "center_bottom"@ {
        Some(NamedAnchor::CenterBottom)
    } else if name == "bottom_center"@ {
        Some(NamedAnchor::CenterBottom)
    } else if name == "left_center"@ {
        Some(NamedAnchor::LeftCenter)
    } else if name == "center_left"@ {
        Some(NamedAnchor::LeftCenter)
    } else if name == "right_center"@ {
        Some(NamedAnchor::RightCenter)
    } else if name == "center_right"@ {
        Some(NamedAnchor::RightCenter)
    } else if name == "none"@ {
        Some(NamedAnchor::NoAnchor)
    } else {
        None
    }
}

/// The name a layout file gives an anchor.
pub open spec fn spec_layout_name(a: NamedAnchor) -> Seq<char> {
    match a {
            NamedAnchor::TopLeft => "top_left"@,
            NamedAnchor::TopRight => "top_right"@,
            NamedAnchor::BottomLeft => "bottom_left"@,
            NamedAnchor::BottomRight => "bottom_right"@,
            NamedAnchor::Center => "center"@,
            NamedAnchor::CenterTop => "center_top"@,
            NamedAnchor::CenterBottom => "center_bottom"@,
            NamedAnchor::LeftCenter => "left_center"@,
            NamedAnchor::RightCenter => "right_center"@,
            NamedAnchor::NoAnchor => "none"@,
    }
}

impl NamedAnchor {
    /// The anchor a layout file names, in any case; other names are refused.
    pub fn from_layout_name(name: &str) -> (r: Option<NamedAnchor>)
        ensures
            r == anchor_named(lowercase_of(name@)),
    {
        let lowered = to_lowercase(name);
        let lower = lowered.as_str();
        if same_text(lower, "top_left") {
            Some(NamedAnchor::TopLeft)
        } else if same_text(lower, "top_right") {
            Some(NamedAnchor::TopRight)
        } else if same_text(lower, "bottom_left") {
            Some(NamedAnchor::BottomLeft)
        } else if same_text(lower, "bottom_right") {
            Some(NamedAnchor::BottomRight)
        } else if same_text(lower, "center") {
            Some(NamedAnchor::Center)
        } else if same_text(lower, "center_top") {
            Some(NamedAnchor::CenterTop)
        } else if same_text(lower, "top_center") {
            Some(NamedAnchor::CenterTop)
        } else if same_text(lower, "center_bottom") {
            Some(NamedAnchor::CenterBottom)
        } else if same_text(lower, "bottom_center") {
            Some(NamedAnchor::CenterBottom)
        } else if same_text(lower, "left_center") {
            Some(NamedAnchor::LeftCenter)
        } else if same_text(lower, "center_left") {
            Some(NamedAnchor::LeftCenter)
        } else if same_text(lower, "right_center") {
            Some(NamedAnchor::RightCenter)
        } else if same_text(lower, "center_right") {
            Some(NamedAnchor::RightCenter)
        } else if same_text(lower, "none") {
            Some(NamedAnchor::NoAnchor)
        } else {
            None
        }
    }

    /// The name a layout file gives the anchor.
    pub fn layout_name(&self) -> (r: &'static str)
        ensures
            r@ == spec_layout_name(*self),
    {
        match self {
            NamedAnchor::TopLeft => "top_left",
            NamedAnchor::TopRight => "top_right",
            NamedAnchor::BottomLeft => "bottom_left",
            NamedAnchor::BottomRight => "bottom_right",
            NamedAnchor::Center => "center",
            NamedAnchor::CenterTop => "center_top",
            NamedAnchor::CenterBottom => "center_bottom",
            NamedAnchor::LeftCenter => "left_center",
            NamedAnchor::RightCenter => "right_center",
            NamedAnchor::NoAnchor => "none",
        }
    }
}

impl<'a> From<&'a str> for NamedAnchor {
    /// The anchor a layout file names; any other name means no anchor.
    fn from(name: &'a str) -> (r: NamedAnchor) {
        match NamedAnchor::from_layout_name(name) {
            Some(a) => a,
            None => NamedAnchor::NoAnchor,
        }
    }
}

impl<'a> vstd::std_specs::convert::FromSpecImpl<&'a str> for NamedAnchor {
    open spec fn obeys_from_spec() -> bool {
        true
    }

    open spec fn from_spec(name: &'a str) -> NamedAnchor {
        match anchor_named(lowercase_of(name@)) {
            Some(a) => a,
            None => NamedAnchor::NoAnchor,
        }
    }
}

/// The `u32` a text writes, read as `str::parse` reads it: an optional `+`,
/// then one or more decimal digits, and a value within range.
pub open spec fn parsed_u32(s: Seq<char>) -> Option<u32> {
    let body = if s.len() > 0 && s[0] == '+' {
        s.skip(1)
    } else {
        s
    };
    match digits_within(body, 0xffff_ffff) {
        Some(v) => Some(v as u32),
        None => None,
    }
}

/// The `u8` a text writes, read as `str::parse` reads it.
pub open spec fn parsed_u8(s: Seq<char>) -> Option<u8> {
    let body = if s.len() > 0 && s[0] == '+' {
        s.skip(1)
    } else {
        s
    };
    match digits_within(body, 0xff) {
        Some(v) => Some(v as u8),
        None => None,
    }
}

/// The flag a settings value gives: anything but `0` and `false` (in any
/// case) is set.
pub open spec fn flag_from_ini(value: Seq<char>) -> bool {
    value != "0"@ && lowercase_of(value) != "false"@
}

/// Read a `u32` settings value.
pub fn u32_from_ini(value: &str) -> (r: Option<u32>)
    ensures
        r == parsed_u32(value@),
{
    let chars = chars_of(value);
    proof {
        lemma_digits_within_range(chars@.skip(1), 0xffff_ffff);
        lemma_digits_within_range(chars@, 0xffff_ffff);
    }
    let from: usize = if chars.len() > 0 && chars[0] == '+' {
        1
    } else {
        0
    };
    proof {
        if !(chars@.len() > 0 && chars@[0] == '+') {
            assert(chars@.skip(0) =~= chars@);
        }
    }
    match digits_up_to(&chars, from, 0xffff_ffff) {
        Some(v) => Some(v as u32),
        None => None,
    }
}

/// Read a `u8` settings value.
pub fn u8_from_ini(value: &str) -> (r: Option<u8>)
    ensures
        r == parsed_u8(value@),
{
    let chars = chars_of(value);
    proof {
        lemma_digits_within_range(chars@.skip(1), 0xff);
        lemma_digits_within_range(chars@, 0xff);
    }
    let from: usize = if chars.len() > 0 && chars[0] == '+' {
        1
    } else {
        0
    };
    proof {
        if !(chars@.len() > 0 && chars@[0] == '+') {
            assert(chars@.skip(0) =~= chars@);
        }
    }
    match digits_up_to(&chars, from, 0xff) {
        Some(v) => Some(v as u8),
        None => None,
    }
}

/// Read an `i32` settings value.
pub fn i32_from_ini(value: &str) -> (r: Option<i32>)
    ensures
        r == parsed_i32(value@),
{
    parse_i32(value)
}

/// Read a flag settings value.
pub fn bool_from_ini(value: &str) -> (r: bool)
    ensures
        r == flag_from_ini(value@),
{
    if same_text(value, "0") {
        return false;
    }
    let lower = to_lowercase(value);
    !same_text(lower.as_str(), "false")
}

/// The settings file, parsed by the `ini` crate.
#[verifier::external_type_specification]
#[verifier::external_body]
pub struct ExIni(ini::Ini);

/// Why the `ini` crate could not parse a settings file.
#[verifier::external_type_specification]
#[verifier::external_body]
pub struct ExIniParseError(ini::ParseError);

/// What `Ini::load_from_str` makes of a text: nothing when it refuses the
/// text, else the first value of each key in each section.
pub uninterp spec fn ini_loaded(text: Seq<char>) -> Option<Map<(Seq<char>, Seq<char>), Seq<char>>>;

/// What a parsed settings file holds: the first value of each key in each
/// section, as `Ini::get_from` finds it.
pub uninterp spec fn ini_entries(conf: ini::Ini) -> Map<(Seq<char>, Seq<char>), Seq<char>>;

/// Calls `ini::Ini::load_from_str`. Claimed: it succeeds exactly on the
/// texts `ini_loaded` accepts, and the file it returns holds what
/// `ini_loaded` names for the text.
#[verifier::external_body]
fn load_ini(text: &str) -> (r: Result<ini::Ini, ini::ParseError>)
    ensures
        (r is Ok) == (ini_loaded(text@) is Some),
        r matches Ok(c) ==> ini_loaded(text@) == Some(ini_entries(c)),
{
    ini::Ini::load_from_str(text)
}

/// Calls `ini::Ini::get_from` for a key in a named section; the value is
/// the one the file holds for them, if any.
#[verifier::external_body]
fn ini_get(conf: &ini::Ini, section: &str, key: &str) -> (r: Option<String>)
    ensures
        r.deep_view() == lookup(ini_entries(*conf), section@, key@),
{
    conf.get_from(Some(section), key).map(|v| v.to_string())
}

/// The value of a key in a section, if the file has one.
pub open spec fn lookup(m: Map<(Seq<char>, Seq<char>), Seq<char>>, section: Seq<char>, key: Seq<char>) -> Option<Seq<char>> {
    if m.contains_key((section, key)) {
        Some(m[(section, key)])
    } else {
        None
    }
}

/// A `u32` setting: the file's value when it reads as one, else the default.
pub open spec fn ini_u32(m: Map<(Seq<char>, Seq<char>), Seq<char>>, section: Seq<char>, key: Seq<char>, default: u32) -> u32 {
    match lookup(m, section, key) {
        Some(v) => match parsed_u32(v) {
            Some(n) => n,
            None => default,
        },
        None => default,
    }
}

/// An `i32` setting: the file's value when it reads as one, else the default.
pub open spec fn ini_i32(m: Map<(Seq<char>, Seq<char>), Seq<char>>, section: Seq<char>, key: Seq<char>, default: i32) -> i32 {
    match lookup(m, section, key) {
        Some(v) => match parsed_i32(v) {
            Some(n) => n,
            None => default,
        },
        None => default,
    }
}

/// A flag setting: the file's value when there is one, else the default.
pub open spec fn ini_flag(m: Map<(Seq<char>, Seq<char>), Seq<char>>, section: Seq<char>, key: Seq<char>, default: bool) -> bool {
    match lookup(m, section, key) {
        Some(v) => flag_from_ini(v),
        None => default,
    }
}

/// A text setting: the file's value when there is one, else the default.
pub open spec fn ini_text(m: Map<(Seq<char>, Seq<char>), Seq<char>>, section: Seq<char>, key: Seq<char>, default: Seq<char>) -> Seq<char> {
    match lookup(m, section, key) {
        Some(v) => v,
        None => default,
    }
}

/// A method setting: the file's value when it names one, else the default.
pub open spec fn ini_method(
    m: Map<(Seq<char>, Seq<char>), Seq<char>>,
    section: Seq<char>,
    key: Seq<char>,
    default: ActivationMethod,
) -> ActivationMethod {
    match lookup(m, section, key) {
        Some(v) => match ActivationMethod::spec_from_ini(v) {
            Some(x) => x,
            None => default,
        },
        None => default,
    }
}

/// The unarmed setting: the file's value when it names one, else the default.
pub open spec fn ini_unarmed(
    m: Map<(Seq<char>, Seq<char>), Seq<char>>,
    section: Seq<char>,
    key: Seq<char>,
    default: UnarmedMethod,
) -> UnarmedMethod {
    match lookup(m, section, key) {
        Some(v) => match UnarmedMethod::spec_from_ini(v) {
            Some(x) => x,
            None => default,
        },
        None => default,
    }
}

/// The anchor setting: the file's value when it names one, else the default.
pub open spec fn ini_anchor(
    m: Map<(Seq<char>, Seq<char>), Seq<char>>,
    section: Seq<char>,
    key: Seq<char>,
    default: NamedAnchor,
) -> NamedAnchor {
    match lookup(m, section, key) {
        Some(v) => match spec_anchor_from_ini(v) {
            Some(x) => x,
            None => default,
        },
        None => default,
    }
}

/// A `u32` setting from the file.
fn read_u32(conf: &ini::Ini, section: &str, key: &str, default: u32) -> (r: u32)
    ensures
        r == ini_u32(ini_entries(*conf), section@, key@, default),
{
    match ini_get(conf, section, key) {
        Some(v) => match u32_from_ini(v.as_str()) {
            Some(n) => n,
            None => default,
        },
        None => default,
    }
}

/// An `i32` setting from the file.
fn read_i32(conf: &ini::Ini, section: &str, key: &str, default: i32) -> (r: i32)
    ensures
        r == ini_i32(ini_entries(*conf), section@, key@, default),
{
    match ini_get(conf, section, key) {
        Some(v) => match i32_from_ini(v.as_str()) {
            Some(n) => n,
            None => default,
        },
        None => default,
    }
}

/// A flag setting from the file.
fn read_flag(conf: &ini::Ini, section: &str, key: &str, default: bool) -> (r: bool)
    ensures
        r == ini_flag(ini_entries(*conf), section@, key@, default),
{
    match ini_get(conf, section, key) {
        Some(v) => bool_from_ini(v.as_str()),
        None => default,
    }
}

/// A method setting from the file.
fn read_method(conf: &ini::Ini, section: &str, key: &str, default: ActivationMethod) -> (r: ActivationMethod)
    ensures
        r == ini_method(ini_entries(*conf), section@, key@, default),
{
    match ini_get(conf, section, key) {
        Some(v) => match ActivationMethod::from_ini(v.as_str()) {
            Some(m) => m,
            None => default,
        },
        None => default,
    }
}

/// The unarmed setting from the file.
fn read_unarmed(conf: &ini::Ini, section: &str, key: &str, default: UnarmedMethod) -> (r: UnarmedMethod)
    ensures
        r == ini_unarmed(ini_entries(*conf), section@, key@, default),
{
    match ini_get(conf, section, key) {
        Some(v) => match UnarmedMethod::from_ini(v.as_str()) {
            Some(m) => m,
            None => default,
        },
        None => default,
    }
}

/// The anchor setting from the file.
fn read_anchor(conf: &ini::Ini, section: &str, key: &str, default: NamedAnchor) -> (r: NamedAnchor)
    ensures
        r == ini_anchor(ini_entries(*conf), section@, key@, default),
{
    match ini_get(conf, section, key) {
        Some(v) => match NamedAnchor::from_ini(v.as_str()) {
            Some(m) => m,
            None => default,
        },
        None => default,
    }
}

/// The user settings that the HUD logic reads: the key settings, and the
/// rest of the settings file but for the log level and the fractional
/// values (HUD scale, transparency, time factor), which the host reads.
#[derive(Clone, Debug)]
pub struct UserSettings {
    pub keys: KeySettings,
    pub debug_mode: bool,
    pub link_to_favorites: bool,
    pub anchor_loc: NamedAnchor,
    pub equip_delay_ms: u32,
    pub fade_time: u32,
    pub controller_kind: u32,
    pub cycling_slows_time: bool,
    pub slow_time_percent: u32,
    pub colorize_icons: bool,
    pub equip_sets_unequip: bool,
    pub skse_identifier: String,
}

impl Default for UserSettings {
    fn default() -> (r: Self)
        ensures
            r.keys == KeySettings::default_spec(),
            !r.debug_mode,
            !r.link_to_favorites,
            r.anchor_loc == NamedAnchor::NoAnchor,
            r.equip_delay_ms == 750,
            r.fade_time == 2000,
            r.controller_kind == 0,
            !r.cycling_slows_time,
            r.slow_time_percent == 25,
            r.colorize_icons,
            r.equip_sets_unequip,
            r.skse_identifier@ == "SOLS"@,
    {
        UserSettings {
            keys: KeySettings::default(),
            debug_mode: false,
            link_to_favorites: false,
            anchor_loc: NamedAnchor::NoAnchor,
            equip_delay_ms: 750,
            fade_time: 2000,
            controller_kind: 0,
            cycling_slows_time: false,
            slow_time_percent: 25,
            colorize_icons: true,
            equip_sets_unequip: true,
            skse_identifier: String::from_str("SOLS"),
        }
    }
}

/// A text setting from the file.
fn read_text(conf: &ini::Ini, section: &str, key: &str, default: &String) -> (r: String)
    ensures
        r@ == ini_text(ini_entries(*conf), section@, key@, default@),
{
    match ini_get(conf, section, key) {
        Some(v) => v,
        None => default.clone(),
    }
}

/// A number held to at most `max`.
pub open spec fn at_most(v: u32, max: u32) -> u32 {
    if v > max {
        max
    } else {
        v
    }
}

/// Whether `r` holds the settings that the file's entries `m` give, with
/// `c` the settings before: each setting the file gives a readable value
/// for takes it, the others keep theirs. The equip delay and the fade time
/// are held to at most 2500 ms and the controller kind to at most 1; the
/// long-press time falls back to the equip delay and is raised to the delay
/// plus 100 ms when shorter; the debug flag and the time factor have fixed
/// defaults.
pub open spec fn settled_by(m: Map<(Seq<char>, Seq<char>), Seq<char>>, c: UserSettings, r: UserSettings) -> bool {
    let opt = "Options"@;
    let delay = at_most(ini_u32(m, opt, "uEquipDelay"@, c.equip_delay_ms), 2500);
    &&& keys_settled(m, c.keys, delay, r.keys)
    &&& r.debug_mode == ini_flag(m, opt, "bDebugMode"@, false)
    &&& r.link_to_favorites == ini_flag(m, opt, "bLinkToFavorites"@, c.link_to_favorites)
    &&& r.anchor_loc == ini_anchor(m, opt, "uAnchorLocation"@, c.anchor_loc)
    &&& r.equip_delay_ms == delay
    &&& r.fade_time == at_most(ini_u32(m, opt, "uFadeTime"@, c.fade_time), 2500)
    &&& r.controller_kind == at_most(ini_u32(m, opt, "uControllerKind"@, c.controller_kind), 1)
    &&& r.cycling_slows_time == ini_flag(m, opt, "bCyclingSlowsTime"@, c.cycling_slows_time)
    &&& r.slow_time_percent == ini_u32(m, opt, "uSlowTimeFactor"@, 25)
    &&& r.colorize_icons == ini_flag(m, opt, "bColorizeIcons"@, c.colorize_icons)
    &&& r.equip_sets_unequip == ini_flag(m, opt, "bEquipSetsUnequip"@, c.equip_sets_unequip)
    &&& r.skse_identifier@ == ini_text(m, opt, "sSKSEIdentifier"@, c.skse_identifier@)
}

/// Whether `r` holds the key settings that the file's entries `m` give,
/// with `c` the key settings before and `delay` the equip delay now in force.
pub open spec fn keys_settled(m: Map<(Seq<char>, Seq<char>), Seq<char>>, c: KeySettings, delay: u32, r: KeySettings) -> bool {
    let ctl = "Controls"@;
    let opt = "Options"@;
    let lp = ini_u32(m, opt, "uLongPressMillis"@, delay);
    &&& r.left == ini_u32(m, ctl, "uLeftCycleKey"@, c.left)
    &&& r.right == ini_u32(m, ctl, "uRightCycleKey"@, c.right)
    &&& r.power == ini_u32(m, ctl, "uPowerCycleKey"@, c.power)
    &&& r.utility == ini_u32(m, ctl, "uUtilityCycleKey"@, c.utility)
    &&& r.how_to_cycle == ini_method(m, ctl, "uHowToCycle"@, c.how_to_cycle)
    &&& r.cycle_modifier == ini_i32(m, ctl, "iCycleModifierKey"@, c.cycle_modifier)
    &&& r.long_press_matches == ini_flag(m, ctl, "bLongPressMatches"@, c.long_press_matches)
    &&& r.how_to_toggle == ini_method(m, ctl, "uHowToggleInMenus"@, c.how_to_toggle)
    &&& r.menu_modifier == ini_i32(m, ctl, "iMenuModifierKey"@, c.menu_modifier)
    &&& r.how_to_activate == ini_method(m, ctl, "uHowToActivate"@, c.how_to_activate)
    &&& r.activate == ini_u32(m, ctl, "uUtilityActivateKey"@, c.activate)
    &&& r.activate_modifier == ini_i32(m, ctl, "iUtilityActivateModifier"@, c.activate_modifier)
    &&& r.showhide == ini_u32(m, ctl, "uShowHideKey"@, c.showhide)
    &&& r.refresh_layout == ini_u32(m, ctl, "uRefreshKey"@, c.refresh_layout)
    &&& r.unarmed_handling == ini_unarmed(m, ctl, "uHowToUnequip"@, c.unarmed_handling)
    &&& r.unequip_modifier == ini_i32(m, ctl, "iUnequipModifierKey"@, c.unequip_modifier)
    &&& r.unequip_hotkey == ini_i32(m, ctl, "iUnequipHotkey"@, c.unequip_hotkey)
    &&& r.equipset == ini_i32(m, ctl, "iEquipSetCycleKey"@, c.equipset)
    &&& r.group_potions == ini_flag(m, opt, "bGroupPotions"@, c.group_potions)
    &&& r.autofade == ini_flag(m, opt, "bAutoFade"@, c.autofade)
    &&& r.cycle_ammo == ini_flag(m, opt, "bCycleAmmo"@, c.cycle_ammo)
    &&& r.long_press_ms == if lp < delay {
        (delay + 100) as u32
    } else {
        lp
    }
}

/// The key settings that a parsed settings file gives, with `c` the key
/// settings before and `delay` the equip delay now in force.
fn keys_from_ini(conf: &ini::Ini, c: &KeySettings, delay: u32) -> (r: KeySettings)
    requires
        delay <= 2500,
    ensures
        keys_settled(ini_entries(*conf), *c, delay, r),
{
    let ctl = "Controls";
    let opt = "Options";
    let lp = read_u32(conf, opt, "uLongPressMillis", delay);
    let long_press_ms = if lp < delay {
        delay + 100
    } else {
        lp
    };
    KeySettings {
        power: read_u32(conf, ctl, "uPowerCycleKey", c.power),
        utility: read_u32(conf, ctl, "uUtilityCycleKey", c.utility),
        left: read_u32(conf, ctl, "uLeftCycleKey", c.left),
        right: read_u32(conf, ctl, "uRightCycleKey", c.right),
        equipset: read_i32(conf, ctl, "iEquipSetCycleKey", c.equipset),
        activate: read_u32(conf, ctl, "uUtilityActivateKey", c.activate),
        activate_modifier: read_i32(conf, ctl, "iUtilityActivateModifier", c.activate_modifier),
        cycle_modifier: read_i32(conf, ctl, "iCycleModifierKey", c.cycle_modifier),
        menu_modifier: read_i32(conf, ctl, "iMenuModifierKey", c.menu_modifier),
        unequip_modifier: read_i32(conf, ctl, "iUnequipModifierKey", c.unequip_modifier),
        unequip_hotkey: read_i32(conf, ctl, "iUnequipHotkey", c.unequip_hotkey),
        unarmed_handling: read_unarmed(conf, ctl, "uHowToUnequip", c.unarmed_handling),
        showhide: read_u32(conf, ctl, "uShowHideKey", c.showhide),
        refresh_layout: read_u32(conf, ctl, "uRefreshKey", c.refresh_layout),
        how_to_cycle: read_method(conf, ctl, "uHowToCycle", c.how_to_cycle),
        how_to_activate: read_method(conf, ctl, "uHowToActivate", c.how_to_activate),
        long_press_matches: read_flag(conf, ctl, "bLongPressMatches", c.long_press_matches),
        cycle_ammo: read_flag(conf, opt, "bCycleAmmo", c.cycle_ammo),
        how_to_toggle: read_method(conf, ctl, "uHowToggleInMenus", c.how_to_toggle),
        long_press_ms,
        autofade: read_flag(conf, opt, "bAutoFade", c.autofade),
        group_potions: read_flag(conf, opt, "bGroupPotions", c.group_potions),
    }
}

impl UserSettings {
    /// The settings that a parsed settings file gives, with `current` as
    /// the settings before (see `settled_by`).
    pub fn from_ini_file(conf: &ini::Ini, current: &UserSettings) -> (r: UserSettings)
        ensures
            settled_by(ini_entries(*conf), *current, r),
    {
        let opt = "Options";
        let delay_read = read_u32(conf, opt, "uEquipDelay", current.equip_delay_ms);
        let delay = if delay_read > 2500 {
            2500
        } else {
            delay_read
        };
        let fade = read_u32(conf, opt, "uFadeTime", current.fade_time);
        let kind = read_u32(conf, opt, "uControllerKind", current.controller_kind);
        let keys = keys_from_ini(conf, &current.keys, delay);
        UserSettings {
            keys,
            debug_mode: read_flag(conf, opt, "bDebugMode", false),
            link_to_favorites: read_flag(conf, opt, "bLinkToFavorites", current.link_to_favorites),
            anchor_loc: read_anchor(conf, opt, "uAnchorLocation", current.anchor_loc),
            equip_delay_ms: delay,
            fade_time: if fade > 2500 {
                2500
            } else {
                fade
            },
            controller_kind: if kind > 1 {
                1
            } else {
                kind
            },
            cycling_slows_time: read_flag(conf, opt, "bCyclingSlowsTime", current.cycling_slows_time),
            slow_time_percent: read_u32(conf, opt, "uSlowTimeFactor", 25),
            colorize_icons: read_flag(conf, opt, "bColorizeIcons", current.colorize_icons),
            equip_sets_unequip: read_flag(conf, opt, "bEquipSetsUnequip", current.equip_sets_unequip),
            skse_identifier: read_text(conf, opt, "sSKSEIdentifier", &current.skse_identifier),
        }
    }

    /// Read the settings file's text: when the `ini` crate can parse it,
    /// the settings become what it gives (see `settled_by`); otherwise they
    /// stay as they are. Says whether the text was read.
    pub fn read_from_text(&mut self, text: &str) -> (r: bool)
        ensures
            r == (ini_loaded(text@) is Some),
            !r ==> *final(self) == *old(self),
            r ==> settled_by(ini_loaded(text@)->0, *old(self), *final(self)),
    {
        match load_ini(text) {
            Ok(conf) => {
                let next = UserSettings::from_ini_file(&conf, self);
                *self = next;
                true
            },
            Err(_) => false,
        }
    }
}

impl KeySettings {
    /// The key bound to a HUD slot: the ammunition slot goes with the left
    /// hand, and slots without keys report the refresh key.
    pub open spec fn spec_hotkey_for(self, element: HudElement) -> u32 {
        match element {
            HudElement::Power => self.power,
            HudElement::Utility => self.utility,
            HudElement::Left => self.left,
            HudElement::Right => self.right,
            HudElement::Ammo => self.left,
            HudElement::EquipSet => self.equipset as u32,
            _ => self.refresh_layout,
        }
    }

    /// The key bound to a HUD slot.
    pub fn hotkey_for(&self, element: HudElement) -> (r: u32)
        ensures
            r == self.spec_hotkey_for(element),
    {
        match element {
            HudElement::Power => self.power,
            HudElement::Utility => self.utility,
            HudElement::Left => self.left,
            HudElement::Right => self.right,
            HudElement::Ammo => self.left,
            HudElement::EquipSet => self.equipset as u32,
            _ => self.refresh_layout,
        }
    }
}

/// The byte of the identifier at position `i`, padded with spaces to four.
pub open spec fn id_byte(id: Seq<char>, i: int) -> int {
    if i < id.len() {
        (id[i] as u32) as int
    } else {
        32
    }
}

/// The identifier as a little-endian 32-bit word of its four bytes.
pub open spec fn id_word(id: Seq<char>) -> int {
    id_byte(id, 0) + id_byte(id, 1) * 0x100 + id_byte(id, 2) * 0x1_0000 + id_byte(id, 3) * 0x100_0000
}

impl UserSettings {
    /// The identifier of the mod's data in the game's save files: the
    /// identifier text, padded with spaces to four characters, read as a
    /// little-endian 32-bit word. It takes at most four ASCII characters.
    pub fn skse_identifier(&self) -> (r: u32)
        requires
            self.skse_identifier@.len() <= 4,
            forall|i: int| 0 <= i < self.skse_identifier@.len() ==> (self.skse_identifier@[i] as u32) < 128,
        ensures
            r as int == id_word(self.skse_identifier@),
    {
        let chars = chars_of(self.skse_identifier.as_str());
        let b0 = padded_byte(&chars, 0);
        let b1 = padded_byte(&chars, 1);
        let b2 = padded_byte(&chars, 2);
        let b3 = padded_byte(&chars, 3);
        b0 + b1 * 0x100 + b2 * 0x1_0000 + b3 * 0x100_0000
    }
}

/// The byte at position `i` of an ASCII identifier, padded with spaces.
fn padded_byte(chars: &Vec<char>, i: usize) -> (r: u32)
    requires
        forall|k: int| 0 <= k < chars@.len() ==> (chars@[k] as u32) < 128,
    ensures
        r as int == id_byte(chars@, i as int),
        r < 128,
{
    if i < chars.len() {
        let c = chars[i];
        let v = c as u32;
        v
    } else {
        32
    }
}


impl UserSettings {
    /// How unarmed combat is reached.
    pub fn unequip_method(&self) -> (r: &UnarmedMethod)
        ensures
            r == &self.keys.unarmed_handling,
    {
        &self.keys.unarmed_handling
    }

    /// The unequip modifier key.
    pub fn unequip_modifier(&self) -> (r: i32)
        ensures
            r == self.keys.unequip_modifier,
    {
        self.keys.unequip_modifier
    }

    /// How items are toggled in cycles from menus.
    pub fn how_to_toggle(&self) -> (r: &ActivationMethod)
        ensures
            r == &self.keys.how_to_toggle,
    {
        &self.keys.how_to_toggle
    }

    /// The menu modifier key.
    pub fn menu_modifier(&self) -> (r: i32)
        ensures
            r == self.keys.menu_modifier,
    {
        self.keys.menu_modifier
    }

    /// How cycles advance.
    pub fn cycle_advance_method(&self) -> (r: &ActivationMethod)
        ensures
            r == &self.keys.how_to_cycle,
    {
        &self.keys.how_to_cycle
    }

    /// The cycle modifier key.
    pub fn cycle_modifier(&self) -> (r: i32)
        ensures
            r == self.keys.cycle_modifier,
    {
        self.keys.cycle_modifier
    }

    /// Whether a long press of a hand key matches the hands.
    pub fn long_press_to_dual_wield(&self) -> (r: bool)
        ensures
            r == self.keys.long_press_matches,
    {
        self.keys.long_press_matches
    }

    /// The left-hand cycle key.
    pub fn left(&self) -> (r: u32)
        ensures
            r == self.keys.left,
    {
        self.keys.left
    }

    /// The right-hand cycle key.
    pub fn right(&self) -> (r: u32)
        ensures
            r == self.keys.right,
    {
        self.keys.right
    }

    /// The powers cycle key.
    pub fn power(&self) -> (r: u32)
        ensures
            r == self.keys.power,
    {
        self.keys.power
    }

    /// The utility cycle key.
    pub fn utility(&self) -> (r: u32)
        ensures
            r == self.keys.utility,
    {
        self.keys.utility
    }

    /// The equipment set cycle key, or -1.
    pub fn equipset(&self) -> (r: i32)
        ensures
            r == self.keys.equipset,
    {
        self.keys.equipset
    }

    /// How the utility item is used.
    pub fn utility_activation_method(&self) -> (r: &ActivationMethod)
        ensures
            r == &self.keys.how_to_activate,
    {
        &self.keys.how_to_activate
    }

    /// The activation modifier key.
    pub fn activate_modifier(&self) -> (r: i32)
        ensures
            r == self.keys.activate_modifier,
    {
        self.keys.activate_modifier
    }

    /// The utility activation key.
    pub fn activate(&self) -> (r: u32)
        ensures
            r == self.keys.activate,
    {
        self.keys.activate
    }

    /// Whether potions are grouped behind the stand-ins.
    pub fn group_potions(&self) -> (r: bool)
        ensures
            r == self.keys.group_potions,
    {
        self.keys.group_potions
    }

    /// The show/hide key.
    pub fn showhide(&self) -> (r: u32)
        ensures
            r == self.keys.showhide,
    {
        self.keys.showhide
    }

    /// The layout refresh key.
    pub fn refresh_layout(&self) -> (r: u32)
        ensures
            r == self.keys.refresh_layout,
    {
        self.keys.refresh_layout
    }

    /// Whether favoriting an item puts it in a cycle.
    pub fn link_to_favorites(&self) -> (r: bool)
        ensures
            r == self.link_to_favorites,
    {
        self.link_to_favorites
    }

    /// Where the player anchors the HUD.
    pub fn anchor_loc(&self) -> (r: &NamedAnchor)
        ensures
            r == &self.anchor_loc,
    {
        &self.anchor_loc
    }

    /// How long a cycled item waits before it is equipped, in milliseconds.
    pub fn equip_delay_ms(&self) -> (r: u32)
        ensures
            r == self.equip_delay_ms,
    {
        self.equip_delay_ms
    }

    /// How long fading in or out takes, in milliseconds.
    pub fn fade_time(&self) -> (r: u32)
        ensures
            r == self.fade_time,
    {
        self.fade_time
    }

    /// Whether cycling slows time.
    pub fn cycling_slows_time(&self) -> (r: bool)
        ensures
            r == self.cycling_slows_time,
    {
        self.cycling_slows_time
    }

    /// Whether icons are drawn in color.
    pub fn colorize_icons(&self) -> (r: bool)
        ensures
            r == self.colorize_icons,
    {
        self.colorize_icons
    }

    /// Whether equipping a set empties its empty slots.
    pub fn equip_sets_unequip(&self) -> (r: bool)
        ensures
            r == self.equip_sets_unequip,
    {
        self.equip_sets_unequip
    }

    /// The controller whose shortcuts are drawn: the setting, at most 2.
    pub fn controller_kind(&self) -> (r: u32)
        ensures
            r == if self.controller_kind > 2 { 2 } else { self.controller_kind },
    {
        if self.controller_kind > 2 {
            2
        } else {
            self.controller_kind
        }
    }

    /// The unequip hotkey, or -1 when unarmed combat does not use a hotkey.
    pub fn unequip_hotkey(&self) -> (r: i32)
        ensures
            r == self.keys.spec_unequip_hotkey(),
    {
        self.keys.unequip_hotkey()
    }

    /// Whether a cycle modifier key is set.
    pub fn cycle_with_modifier(&self) -> (r: bool)
        ensures
            r == (self.keys.cycle_modifier > 0),
    {
        self.keys.cycle_with_modifier()
    }

    /// Whether pressing key `key` starts a long-press timer.
    pub fn should_start_long_press_timer(&self, key: u32) -> (r: bool)
        ensures
            r == self.keys.spec_should_start_long_press_timer(super::keys::hotkey_for_key(key, self.keys)),
    {
        let hotkey = Hotkey::from_key(key, &self.keys);
        self.keys.should_start_long_press_timer(&hotkey)
    }

    /// The most entries a cycle takes.
    pub fn maxlen(&self) -> (r: u32)
        ensures
            r == 20,
    {
        20
    }

    /// How long a press lasts before it is long, in milliseconds.
    pub fn long_press_ms(&self) -> (r: u32)
        ensures
            r == self.keys.long_press_ms,
    {
        self.keys.long_press_ms
    }

    /// Whether the HUD fades in and out by itself.
    pub fn autofade(&self) -> (r: bool)
        ensures
            r == self.keys.autofade,
    {
        self.keys.autofade
    }

    /// Whether the left key cycles ammunition while a ranged weapon is out.
    pub fn cycle_ammo(&self) -> (r: bool)
        ensures
            r == self.keys.cycle_ammo,
    {
        self.keys.cycle_ammo
    }
}

/// The settings values for unarmed handling: `0` no support, `1` long
/// press, `2` modifier, `3` added to the cycles, `4` hotkey; any other
/// value names no method, and no two values name the same method.
pub proof fn lemma_unarmed_values(a: Seq<char>, b: Seq<char>)
    ensures
        UnarmedMethod::spec_from_ini("0"@) == Some(UnarmedMethod::NoSupport),
        UnarmedMethod::spec_from_ini("1"@) == Some(UnarmedMethod::LongPress),
        UnarmedMethod::spec_from_ini("2"@) == Some(UnarmedMethod::Modifier),
        UnarmedMethod::spec_from_ini("3"@) == Some(UnarmedMethod::AddToCycles),
        UnarmedMethod::spec_from_ini("4"@) == Some(UnarmedMethod::Hotkey),
        a != "0"@ && a != "1"@ && a != "2"@ && a != "3"@ && a != "4"@ ==> UnarmedMethod::spec_from_ini(a) is None,
        UnarmedMethod::spec_from_ini(a) is Some && UnarmedMethod::spec_from_ini(a) == UnarmedMethod::spec_from_ini(b)
            ==> a == b,
{
    reveal_strlit("0");
    reveal_strlit("1");
    reveal_strlit("2");
    reveal_strlit("3");
    reveal_strlit("4");
    assert("0"@[0] != "1"@[0] && "0"@[0] != "2"@[0] && "0"@[0] != "3"@[0] && "0"@[0] != "4"@[0]);
    assert("1"@[0] != "2"@[0] && "1"@[0] != "3"@[0] && "1"@[0] != "4"@[0]);
    assert("2"@[0] != "3"@[0] && "2"@[0] != "4"@[0] && "3"@[0] != "4"@[0]);
}

/// The settings values for activation and cycling: `0` hotkey, `1` long
/// press, `2` modifier; any other value names no method, and no two values
/// name the same method.
pub proof fn lemma_activation_values(a: Seq<char>, b: Seq<char>)
    ensures
        ActivationMethod::spec_from_ini("0"@) == Some(ActivationMethod::Hotkey),
        ActivationMethod::spec_from_ini("1"@) == Some(ActivationMethod::LongPress),
        ActivationMethod::spec_from_ini("2"@) == Some(ActivationMethod::Modifier),
        a != "0"@ && a != "1"@ && a != "2"@ ==> ActivationMethod::spec_from_ini(a) is None,
        ActivationMethod::spec_from_ini(a) is Some && ActivationMethod::spec_from_ini(a)
            == ActivationMethod::spec_from_ini(b) ==> a == b,
{
    reveal_strlit("0");
    reveal_strlit("1");
    reveal_strlit("2");
    assert("0"@[0] != "1"@[0] && "0"@[0] != "2"@[0] && "1"@[0] != "2"@[0]);
}

/// Which key presses start a long-press timer. The hand keys do when long
/// presses match the hands, activate, or unequip; the power key when long
/// presses activate or unequip; the utility key when long presses activate;
/// no other key ever does.
pub proof fn lemma_long_press_timers(s: KeySettings, h: Hotkey)
    ensures
        (h is Left || h is Right) ==> (s.spec_should_start_long_press_timer(h) <==> (s.long_press_matches
            || s.how_to_activate is LongPress || s.unarmed_handling is LongPress)),
        h is Power ==> (s.spec_should_start_long_press_timer(h) <==> (s.how_to_activate is LongPress
            || s.unarmed_handling is LongPress)),
        h is Utility ==> (s.spec_should_start_long_press_timer(h) <==> s.how_to_activate is LongPress),
        !(h is Left || h is Right || h is Power || h is Utility) ==> !s.spec_should_start_long_press_timer(h),
{
}

} // verus!
