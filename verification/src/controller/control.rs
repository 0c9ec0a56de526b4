//! Responses the controller hands back to the game side.

use vstd::prelude::*;

use super::hud::{CycleLabel, FavoriteChange};
use crate::plugin::{Action, KeyEventResponse};

verus! {

/// What happened when the player pressed a cycle key in a menu.
#[derive(Clone, Copy, Debug, PartialEq, Eq, Hash, Structural)]
pub enum MenuEventResponse {
    Okay,
    Unhandled,
    Error,
    ItemAdded,
    ItemRemoved,
    ItemInappropriate,
    TooManyItems,
}

impl Default for MenuEventResponse {
    fn default() -> (r: Self)
        ensures
            r == MenuEventResponse::Unhandled,
    {
        MenuEventResponse::Unhandled
    }
}

/// Possible actions requested when a user presses a cycle key. The action
/// is determined using the key pressed, the presence of modifiers, and
/// various user settings.
#[derive(Clone, Copy, Debug, PartialEq, Eq, Hash, Structural)]
pub enum RequestedAction {
    Advance,
    AdvanceAmmo,
    Consume,
    Match,
    Unequip,
    NoAction,
}

impl Default for KeyEventResponse {
    fn default() -> (r: Self)
        ensures
            r == (KeyEventResponse {
                handled: false,
                start_timer: Action::NoAction,
                stop_timer: Action::NoAction,
            }),
    {
        KeyEventResponse { handled: false, start_timer: Action::NoAction, stop_timer: Action::NoAction }
    }
}

impl KeyEventResponse {
    /// A response saying the key was handled, with no timer to start or stop.
    pub fn handled() -> (r: Self)
        ensures
            r == (KeyEventResponse {
                handled: true,
                start_timer: Action::NoAction,
                stop_timer: Action::NoAction,
            }),
    {
        KeyEventResponse { handled: true, start_timer: Action::NoAction, stop_timer: Action::NoAction }
    }
}

/// Translation key of the message for an item added to a cycle.
pub const FMT_ITEM_ADDED: &'static str = "$SoulsyHUD_fmt_ItemAdded";

/// Translation key of the message for an item removed from a cycle.
pub const FMT_ITEM_REMOVED: &'static str = "$SoulsyHUD_fmt_ItemRemoved";

/// Translation key of the message for an item a cycle refused.
pub const FMT_ITEM_REJECTED: &'static str = "$SoulsyHUD_fmt_ItemRejected";

/// Translation key of the message for a full cycle.
pub const FMT_ITEM_TOOMANY: &'static str = "$SoulsyHUD_fmt_TooMany";

/// Translation key of the message for a toggle that changed nothing.
pub const FMT_ITEM_NOCHANGE: &'static str = "$SoulsyHUD_fmt_NoChange";

/// Translation key of the name of the powers cycle.
pub const FMT_ITEM_POWERS_CYCLE: &'static str = "$SoulsyHUD_fmt_PowersCycle";

/// Translation key of the name of the utilities cycle.
pub const FMT_ITEM_UTILITIES_CYCLE: &'static str = "$SoulsyHUD_fmt_UtilitiesCycle";

/// Translation key of the name of the left-hand cycle.
pub const FMT_ITEM_LEFT_CYCLE: &'static str = "$SoulsyHUD_fmt_LeftHandCycle";

/// Translation key of the name of the right-hand cycle.
pub const FMT_ITEM_RIGHT_CYCLE: &'static str = "$SoulsyHUD_fmt_RightHandCycle";

/// Translation key of the name of both hand cycles.
pub const FMT_ITEM_BOTH_HANDS: &'static str = "$SoulsyHUD_fmt_BothHands";

/// The translation key of the message for what a toggle did.
pub open spec fn spec_toggle_format_key(r: MenuEventResponse) -> Seq<char> {
    match r {
        MenuEventResponse::ItemAdded => FMT_ITEM_ADDED@,
        MenuEventResponse::ItemRemoved => FMT_ITEM_REMOVED@,
        MenuEventResponse::ItemInappropriate => FMT_ITEM_REJECTED@,
        MenuEventResponse::TooManyItems => FMT_ITEM_TOOMANY@,
        _ => FMT_ITEM_NOCHANGE@,
    }
}

/// The translation key of the message for what a toggle did.
pub fn toggle_format_key(r: MenuEventResponse) -> (k: &'static str)
    ensures
        k@ == spec_toggle_format_key(r),
{
    match r {
        MenuEventResponse::ItemAdded => FMT_ITEM_ADDED,
        MenuEventResponse::ItemRemoved => FMT_ITEM_REMOVED,
        MenuEventResponse::ItemInappropriate => FMT_ITEM_REJECTED,
        MenuEventResponse::TooManyItems => FMT_ITEM_TOOMANY,
        _ => FMT_ITEM_NOCHANGE,
    }
}

/// The translation key of the name of a cycle label.
pub open spec fn spec_label_format_key(l: CycleLabel) -> Seq<char> {
    match l {
        CycleLabel::Powers => FMT_ITEM_POWERS_CYCLE@,
        CycleLabel::Utilities => FMT_ITEM_UTILITIES_CYCLE@,
        CycleLabel::LeftHand => FMT_ITEM_LEFT_CYCLE@,
        CycleLabel::RightHand => FMT_ITEM_RIGHT_CYCLE@,
        CycleLabel::BothHands => FMT_ITEM_BOTH_HANDS@,
    }
}

/// The translation key of the name of a cycle label.
pub fn label_format_key(l: CycleLabel) -> (k: &'static str)
    ensures
        k@ == spec_label_format_key(l),
{
    match l {
        CycleLabel::Powers => FMT_ITEM_POWERS_CYCLE,
        CycleLabel::Utilities => FMT_ITEM_UTILITIES_CYCLE,
        CycleLabel::LeftHand => FMT_ITEM_LEFT_CYCLE,
        CycleLabel::RightHand => FMT_ITEM_RIGHT_CYCLE,
        CycleLabel::BothHands => FMT_ITEM_BOTH_HANDS,
    }
}

/// The translation keys of the message and the cycle name for a favorite
/// that changed a cycle.
pub fn favorite_format_keys(change: FavoriteChange) -> (k: (&'static str, &'static str))
    ensures
        k.0@ == match change {
            FavoriteChange::Added(_) => FMT_ITEM_ADDED@,
            FavoriteChange::Removed(_) => FMT_ITEM_REMOVED@,
        },
        k.1@ == match change {
            FavoriteChange::Added(l) => spec_label_format_key(l),
            FavoriteChange::Removed(l) => spec_label_format_key(l),
        },
{
    match change {
        FavoriteChange::Added(l) => (FMT_ITEM_ADDED, label_format_key(l)),
        FavoriteChange::Removed(l) => (FMT_ITEM_REMOVED, label_format_key(l)),
    }
}

/// What `strfmt::strfmt` makes of a template with the variables `item` and
/// `cycle` set to the given texts; none when it reports an error.
pub uninterp spec fn filled_template(template: Seq<char>, item: Seq<char>, cycle: Seq<char>) -> Option<Seq<char>>;

/// Calls `strfmt::strfmt` on the template with a map that holds the
/// variables `item` and `cycle`; the text it returns, or its failure, is
/// what `filled_template` names. Nothing is claimed about the template
/// language itself.
#[verifier::external_body]
fn fill_template(template: &str, item: &str, cycle: &str) -> (r: Option<String>)
    ensures
        r.deep_view() == filled_template(template@, item@, cycle@),
{
    let mut vars = std::collections::HashMap::new();
    vars.insert("item".to_string(), item.to_string());
    vars.insert("cycle".to_string(), cycle.to_string());
    strfmt::strfmt(template, &vars).ok()
}

/// The message for the player after an item went into or out of a cycle:
/// the translated template with the item's name and the cycle's name
/// filled in; none when the template cannot be filled, in which case the
/// player is not told and the item's keyword is left alone.
pub fn cycle_notice(template: &str, item_name: &str, cycle_name: &str) -> (r: Option<String>)
    ensures
        r.deep_view() == filled_template(template@, item_name@, cycle_name@),
{
    fill_template(template, item_name, cycle_name)
}

} // verus!

