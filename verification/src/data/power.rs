//! Powers: the generic power icon, drawn in the color of their first color
//! keyword.

use vstd::prelude::*;

use super::color::{first_keyword_color, keyword_color_of, InvColor};
use super::HasIcon;
use crate::images::icons::Icon;
use crate::plugin::Color;

verus! {

/// A classified power.
#[derive(Clone, Copy, Debug, PartialEq, Eq, Hash, Structural)]
pub struct PowerType {
    pub icon: Icon,
    pub color: InvColor,
}

impl Default for PowerType {
    fn default() -> (r: Self)
        ensures
            r == (PowerType { icon: Icon::IconDefault, color: InvColor::White }),
    {
        PowerType { icon: Icon::IconDefault, color: InvColor::White }
    }
}

impl PowerType {
    /// The power type for these keywords: the power icon, in the color of
    /// the first color keyword, white when there is none.
    pub open spec fn spec_new(tags: Seq<Seq<char>>) -> PowerType {
        PowerType {
            icon: Icon::Power,
            color: match first_keyword_color(tags) {
                Some(c) => c,
                None => InvColor::White,
            },
        }
    }

    /// Classify a power from its name and keyword tags.
    pub fn new(name: &str, tags: Vec<String>) -> (r: Self)
        ensures
            r == PowerType::spec_new(tags@.map_values(|t: String| t@)),
    {
        let color = match keyword_color_of(tags.as_slice()) {
            Some(c) => c,
            None => InvColor::White,
        };
        PowerType { icon: Icon::Power, color }
    }
}

impl HasIcon for PowerType {
    fn color(&self) -> (r: Color)
        ensures
            r == self.color.spec_color(),
    {
        self.color.color()
    }

    fn icon(&self) -> (r: &Icon)
        ensures
            *r == self.icon,
    {
        &self.icon
    }
}

} // verus!
