//! OCF color keywords associated with specific colors.

use vstd::prelude::*;

use crate::plugin::{white, Color};
use crate::text::{chars_of, lowercase_of, remove_all, removed_all, string_from_chars, to_lowercase};

verus! {

impl Color {
    /// An opaque color from red, green and blue.
    pub fn rgb(r: u8, g: u8, b: u8) -> (c: Color)
        ensures
            c == (Color { r, g, b, a: 255 }),
    {
        Color { r, g, b, a: 255 }
    }
}

/// A color named by an OCF inventory color keyword.
#[derive(Clone, Copy, Debug, PartialEq, Eq, Hash, Structural)]
pub enum InvColor {
    Aedric,
    Ash,
    Black,
    Blood,
    Blue,
    Bound,
    Brown,
    Copper,
    Daedric,
    Druid,
    Dwarven,
    Eldritch,
    Fire,
    FireVolcanic,
    Frost,
    Gold,
    Gray,
    Green,
    Holy,
    Legendary,
    Lunar,
    Magenta,
    Necrotic,
    Orange,
    Pink,
    Poison,
    Purple,
    Red,
    Shadow,
    Shock,
    ShockArc,
    Silver,
    Sun,
    Water,
    White,
    Yellow,
}

impl Default for InvColor {
    fn default() -> (r: Self)
        ensures
            r == InvColor::White,
    {
        InvColor::White
    }
}

/// The color whose lower-case name is `name`.
pub open spec fn color_named(name: Seq<char>) -> Option<InvColor> {
    if name == "aedric"@ {
        Some(InvColor::Aedric)
    }
    else if name == "ash"@ {
        Some(InvColor::Ash)
    }
    else if name == "black"@ {
        Some(InvColor::Black)
    }
    else if name == "blood"@ {
        Some(InvColor::Blood)
    }
    else if name == "blue"@ {
        Some(InvColor::Blue)
    }
    else if name == "bound"@ {
        Some(InvColor::Bound)
    }
    else if name == "brown"@ {
        Some(InvColor::Brown)
    }
    else if name == "copper"@ {
        Some(InvColor::Copper)
    }
    else if name == "daedric"@ {
        Some(InvColor::Daedric)
    }
    else if name == "druid"@ {
        Some(InvColor::Druid)
    }
    else if name == "dwarven"@ {
        Some(InvColor::Dwarven)
    }
    else if name == "eldritch"@ {
        Some(InvColor::Eldritch)
    }
    else if name == "fire"@ {
        Some(InvColor::Fire)
    }
    else if name == "firevolcanic"@ {
        Some(InvColor::FireVolcanic)
    }
    else if name == "frost"@ {
        Some(InvColor::Frost)
    }
    else if name == "gold"@ {
        Some(InvColor::Gold)
    }
    else if name == "gray"@ {
        Some(InvColor::Gray)
    }
    else if name == "green"@ {
        Some(InvColor::Green)
    }
    else if name == "holy"@ {
        Some(InvColor::Holy)
    }
    else if name == "legendary"@ {
        Some(InvColor::Legendary)
    }
    else if name == "lunar"@ {
        Some(InvColor::Lunar)
    }
    else if name == "magenta"@ {
        Some(InvColor::Magenta)
    }
    else if name == "necrotic"@ {
        Some(InvColor::Necrotic)
    }
    else if name == "orange"@ {
        Some(InvColor::Orange)
    }
    else if name == "pink"@ {
        Some(InvColor::Pink)
    }
    else if name == "poison"@ {
        Some(InvColor::Poison)
    }
    else if name == "purple"@ {
        Some(InvColor::Purple)
    }
    else if name == "red"@ {
        Some(InvColor::Red)
    }
    else if name == "shadow"@ {
        Some(InvColor::Shadow)
    }
    else if name == "shock"@ {
        Some(InvColor::Shock)
    }
    else if name == "shockarc"@ {
        Some(InvColor::ShockArc)
    }
    else if name == "silver"@ {
        Some(InvColor::Silver)
    }
    else if name == "sun"@ {
        Some(InvColor::Sun)
    }
    else if name == "water"@ {
        Some(InvColor::Water)
    }
    else if name == "white"@ {
        Some(InvColor::White)
    }
    else if name == "yellow"@ {
        Some(InvColor::Yellow)
    }
    else {
        None
    }
}

/// The color a keyword names: both OCF color prefixes are removed wherever
/// they occur, the rest is lower-cased and compared with the color names.
pub open spec fn keyword_color(keyword: Seq<char>) -> Option<InvColor> {
    color_named(lowercase_of(removed_all(removed_all(keyword, "OCF_InvColor"@), "OCF_IconColor"@)))
}

/// The color whose lower-case name is `name`.
pub fn color_by_name(name: &String) -> (r: Option<InvColor>)
    ensures
        r == color_named(name@),
{
    if *name == String::from_str("aedric") {
        Some(InvColor::Aedric)
    }
    else if *name == String::from_str("ash") {
        Some(InvColor::Ash)
    }
    else if *name == String::from_str("black") {
        Some(InvColor::Black)
    }
    else if *name == String::from_str("blood") {
        Some(InvColor::Blood)
    }
    else if *name == String::from_str("blue") {
        Some(InvColor::Blue)
    }
    else if *name == String::from_str("bound") {
        Some(InvColor::Bound)
    }
    else if *name == String::from_str("brown") {
        Some(InvColor::Brown)
    }
    else if *name == String::from_str("copper") {
        Some(InvColor::Copper)
    }
    else if *name == String::from_str("daedric") {
        Some(InvColor::Daedric)
    }
    else if *name == String::from_str("druid") {
        Some(InvColor::Druid)
    }
    else if *name == String::from_str("dwarven") {
        Some(InvColor::Dwarven)
    }
    else if *name == String::from_str("eldritch") {
        Some(InvColor::Eldritch)
    }
    else if *name == String::from_str("fire") {
        Some(InvColor::Fire)
    }
    else if *name == String::from_str("firevolcanic") {
        Some(InvColor::FireVolcanic)
    }
    else if *name == String::from_str("frost") {
        Some(InvColor::Frost)
    }
    else if *name == String::from_str("gold") {
        Some(InvColor::Gold)
    }
    else if *name == String::from_str("gray") {
        Some(InvColor::Gray)
    }
    else if *name == String::from_str("green") {
        Some(InvColor::Green)
    }
    else if *name == String::from_str("holy") {
        Some(InvColor::Holy)
    }
    else if *name == String::from_str("legendary") {
        Some(InvColor::Legendary)
    }
    else if *name == String::from_str("lunar") {
        Some(InvColor::Lunar)
    }
    else if *name == String::from_str("magenta") {
        Some(InvColor::Magenta)
    }
    else if *name == String::from_str("necrotic") {
        Some(InvColor::Necrotic)
    }
    else if *name == String::from_str("orange") {
        Some(InvColor::Orange)
    }
    else if *name == String::from_str("pink") {
        Some(InvColor::Pink)
    }
    else if *name == String::from_str("poison") {
        Some(InvColor::Poison)
    }
    else if *name == String::from_str("purple") {
        Some(InvColor::Purple)
    }
    else if *name == String::from_str("red") {
        Some(InvColor::Red)
    }
    else if *name == String::from_str("shadow") {
        Some(InvColor::Shadow)
    }
    else if *name == String::from_str("shock") {
        Some(InvColor::Shock)
    }
    else if *name == String::from_str("shockarc") {
        Some(InvColor::ShockArc)
    }
    else if *name == String::from_str("silver") {
        Some(InvColor::Silver)
    }
    else if *name == String::from_str("sun") {
        Some(InvColor::Sun)
    }
    else if *name == String::from_str("water") {
        Some(InvColor::Water)
    }
    else if *name == String::from_str("white") {
        Some(InvColor::White)
    }
    else if *name == String::from_str("yellow") {
        Some(InvColor::Yellow)
    }
    else {
        None
    }
}

/// The error for a keyword that names no color.
#[derive(Clone, Copy, Debug, PartialEq, Eq, Hash, Structural)]
pub struct NotAColor;

impl InvColor {
    /// The color a keyword names, if any.
    pub fn from_keyword(value: &str) -> (r: Option<InvColor>)
        ensures
            r == keyword_color(value@),
    {
        let chars = chars_of(value);
        let once = remove_all(&chars, "OCF_InvColor");
        let twice = remove_all(&once, "OCF_IconColor");
        let stripped = string_from_chars(&twice);
        let lower = to_lowercase(stripped.as_str());
        color_by_name(&lower)
    }
}

impl<'a> vstd::std_specs::convert::TryFromSpecImpl<&'a str> for InvColor {
    open spec fn obeys_try_from_spec() -> bool {
        true
    }

    open spec fn try_from_spec(v: &'a str) -> Result<InvColor, NotAColor> {
        match keyword_color(v@) {
            Some(c) => Ok(c),
            None => Err(NotAColor),
        }
    }
}

impl<'a> TryFrom<&'a str> for InvColor {
    type Error = NotAColor;

    fn try_from(value: &'a str) -> (r: Result<InvColor, NotAColor>) {
        match InvColor::from_keyword(value) {
            Some(c) => Ok(c),
            None => Err(NotAColor),
        }
    }
}

/// The color named by the first keyword that names one.
pub open spec fn first_keyword_color(keywords: Seq<Seq<char>>) -> Option<InvColor>
    decreases keywords.len(),
{
    if keywords.len() == 0 {
        None
    } else {
        match keyword_color(keywords[0]) {
            Some(c) => Some(c),
            None => first_keyword_color(keywords.skip(1)),
        }
    }
}

/// The color named by the first keyword that names one, if any.
pub fn keyword_color_of(keywords: &[String]) -> (r: Option<InvColor>)
    ensures
        r == first_keyword_color(keywords@.map_values(|k: String| k@)),
{
    let ghost ks = keywords@.map_values(|k: String| k@);
    let mut i: usize = 0;
    assert(ks.skip(0) =~= ks);
    while i < keywords.len()
        invariant
            i <= keywords@.len(),
            ks == keywords@.map_values(|k: String| k@),
            first_keyword_color(ks) == first_keyword_color(ks.skip(i as int)),
        decreases keywords.len() - i,
    {
        assert(ks.skip(i as int).skip(1) =~= ks.skip(i + 1));
        assert(ks.skip(i as int)[0] == keywords@[i as int]@);
        let found = InvColor::from_keyword(keywords[i].as_str());
        if found.is_some() {
            return found;
        }
        i += 1;
    }
    assert(ks.skip(i as int).len() == 0);
    None
}

/// The color named by the first color keyword, or white when there is none.
pub fn color_from_keywords(keywords: &[String]) -> (r: InvColor)
    ensures
        r == match first_keyword_color(keywords@.map_values(|k: String| k@)) {
            Some(c) => c,
            None => InvColor::White,
        },
{
    match keyword_color_of(keywords) {
        Some(c) => c,
        None => InvColor::White,
    }
}

impl InvColor {
    /// The RGBA value each color is drawn with.
    pub open spec fn spec_color(self) -> Color {
        match self {
            InvColor::Aedric => white(),
            InvColor::Ash => Color { r: 64, g: 64, b: 64, a: 255 },
            InvColor::Black => Color { r: 0, g: 0, b: 0, a: 255 },
            InvColor::Blood => Color { r: 138, g: 3, b: 3, a: 255 },
            InvColor::Blue => Color { r: 59, g: 106, b: 249, a: 255 },
            InvColor::Bound => Color { r: 150, g: 200, b: 244, a: 255 },
            InvColor::Brown => Color { r: 165, g: 42, b: 42, a: 255 },
            InvColor::Copper => Color { r: 184, g: 115, b: 51, a: 255 },
            InvColor::Daedric => Color { r: 171, g: 35, b: 0, a: 255 },
            InvColor::Druid => Color { r: 118, g: 160, b: 113, a: 255 },
            InvColor::Dwarven => Color { r: 255, g: 175, b: 0, a: 255 },
            InvColor::Eldritch => Color { r: 150, g: 244, b: 200, a: 255 },
            InvColor::Fire => Color { r: 255, g: 40, b: 0, a: 255 },
            InvColor::FireVolcanic => Color { r: 255, g: 40, b: 0, a: 255 },
            InvColor::Frost => Color { r: 0, g: 237, b: 255, a: 255 },
            InvColor::Gold => Color { r: 218, g: 165, b: 32, a: 255 },
            InvColor::Gray => Color { r: 128, g: 128, b: 128, a: 255 },
            InvColor::Green => Color { r: 32, g: 223, b: 32, a: 255 },
            InvColor::Holy => Color { r: 223, g: 188, b: 32, a: 255 },
            InvColor::Legendary => Color { r: 255, g: 175, b: 0, a: 255 },
            InvColor::Lunar => Color { r: 130, g: 185, b: 230, a: 255 },
            InvColor::Magenta => Color { r: 255, g: 0, b: 255, a: 255 },
            InvColor::Necrotic => Color { r: 46, g: 252, b: 183, a: 255 },
            InvColor::Orange => Color { r: 255, g: 76, b: 0, a: 255 },
            InvColor::Pink => Color { r: 219, g: 46, b: 114, a: 255 },
            InvColor::Poison => Color { r: 160, g: 240, b: 2, a: 255 },
            InvColor::Purple => Color { r: 192, g: 128, b: 255, a: 255 },
            InvColor::Red => Color { r: 255, g: 0, b: 0, a: 255 },
            InvColor::Shadow => Color { r: 80, g: 0, b: 145, a: 255 },
            InvColor::Shock => Color { r: 255, g: 213, b: 0, a: 255 },
            InvColor::ShockArc => Color { r: 255, g: 76, b: 0, a: 255 },
            InvColor::Silver => Color { r: 192, g: 192, b: 192, a: 255 },
            InvColor::Sun => Color { r: 223, g: 188, b: 32, a: 255 },
            InvColor::Water => Color { r: 152, g: 233, b: 255, a: 255 },
            InvColor::White => white(),
            InvColor::Yellow => Color { r: 255, g: 213, b: 0, a: 255 },
        }
    }

    /// The RGBA value to draw this color with.
    pub fn color(&self) -> (r: Color)
        ensures
            r == self.spec_color(),
    {
        match self {
            InvColor::Aedric => Color::default(),
            InvColor::Ash => Color::rgb(64, 64, 64),
            InvColor::Black => Color::rgb(0, 0, 0),
            InvColor::Blood => Color::rgb(138, 3, 3),
            InvColor::Blue => Color::rgb(59, 106, 249),
            InvColor::Bound => Color::rgb(150, 200, 244),
            InvColor::Brown => Color::rgb(165, 42, 42),
            InvColor::Copper => Color::rgb(184, 115, 51),
            InvColor::Daedric => Color::rgb(171, 35, 0),
            InvColor::Druid => Color::rgb(118, 160, 113),
            InvColor::Dwarven => Color::rgb(255, 175, 0),
            InvColor::Eldritch => Color::rgb(150, 244, 200),
            InvColor::Fire => Color::rgb(255, 40, 0),
            InvColor::FireVolcanic => Color::rgb(255, 40, 0),
            InvColor::Frost => Color::rgb(0, 237, 255),
            InvColor::Gold => Color::rgb(218, 165, 32),
            InvColor::Gray => Color::rgb(128, 128, 128),
            InvColor::Green => Color::rgb(32, 223, 32),
            InvColor::Holy => Color::rgb(223, 188, 32),
            InvColor::Legendary => Color::rgb(255, 175, 0),
            InvColor::Lunar => Color::rgb(130, 185, 230),
            InvColor::Magenta => Color::rgb(255, 0, 255),
            InvColor::Necrotic => Color::rgb(46, 252, 183),
            InvColor::Orange => Color::rgb(255, 76, 0),
            InvColor::Pink => Color::rgb(219, 46, 114),
            InvColor::Poison => Color::rgb(160, 240, 2),
            InvColor::Purple => Color::rgb(192, 128, 255),
            InvColor::Red => Color::rgb(255, 0, 0),
            InvColor::Shadow => Color::rgb(80, 0, 145),
            InvColor::Shock => Color::rgb(255, 213, 0),
            InvColor::ShockArc => Color::rgb(255, 76, 0),
            InvColor::Silver => Color::rgb(192, 192, 192),
            InvColor::Sun => Color::rgb(223, 188, 32),
            InvColor::Water => Color::rgb(152, 233, 255),
            InvColor::White => Color::default(),
            InvColor::Yellow => Color::rgb(255, 213, 0),
        }
    }
}

/// Every inventory color is drawn fully opaque.
pub proof fn lemma_colors_are_opaque(c: InvColor)
    ensures
        c.spec_color().a == 255,
{
}

} // verus!
