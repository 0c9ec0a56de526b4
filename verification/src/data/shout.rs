//! Shouts: each known shout keyword picks a shout variant and its icon,
//! and the variant picks the color and the translation.

use vstd::prelude::*;

use super::color::InvColor;
use super::keywords::{parsed_keywords, strings_to_keywords, SpellKeywords};
use super::HasIcon;
use crate::images::icons::Icon;
use crate::plugin::Color;

verus! {

/// The shouts we know about.
#[derive(Clone, Copy, Debug, PartialEq, Eq, Hash, Structural)]
pub enum ShoutVariant {
    AnimalAllegiance,
    AuraWhisper,
    BattleFury,
    BecomeEthereal,
    BendWill,
    CallDragon,
    CallOfValor,
    ClearSkies,
    Cyclone,
    Disarm,
    Dismay,
    DragonAspect,
    Dragonrend,
    DrainVitality,
    ElementalFury,
    FireBreath,
    FrostBreath,
    IceForm,
    KynesPeace,
    MarkedForDeath,
    PhantomForm,
    Slowtime,
    SoulTear,
    Stormcall,
    SummonDurnehviir,
    ThrowVoice,
    UnrelentingForce,
    WhirlwindSprint,
    SoulCairnSummon,
    LightningBreath,
    PoisonBreath,
    AlessiasLove,
    Annihilate,
    ArcaneHelix,
    Armageddon,
    Curse,
    DanceOfTheDead,
    Earthquake,
    EssenceRip,
    Evocation,
    Geomagnetism,
    Iceborn,
    JonesShadow,
    Kingsbane,
    Lifestream,
    LightningShield,
    Oblivion,
    PhantomDecoy,
    Riftwalk,
    Shattersphere,
    ShorsWrath,
    ShroudOfSnowfall,
    SpeakUntoTheStars,
    SplinterTwins,
    Stormblast,
    TheConqueror,
    Trueshot,
    WailOfTheBanshee,
    Wanderlust,
    Warcry,
    Unclassified,
}

impl Default for ShoutVariant {
    fn default() -> (r: Self)
        ensures
            r == ShoutVariant::Unclassified,
    {
        ShoutVariant::Unclassified
    }
}

/// A classified shout: its icon, its color and which shout it is.
#[derive(Clone, Copy, Debug, PartialEq, Eq, Hash, Structural)]
pub struct ShoutType {
    pub icon: Icon,
    pub color: InvColor,
    pub variant: ShoutVariant,
}

impl Default for ShoutType {
    fn default() -> (r: Self)
        ensures
            r == (ShoutType { icon: Icon::Shout, color: InvColor::White, variant: ShoutVariant::Unclassified }),
    {
        ShoutType { icon: Icon::Shout, color: InvColor::White, variant: ShoutVariant::Unclassified }
    }
}

impl HasIcon for ShoutType {
    fn color(&self) -> (r: Color)
        ensures
            r == self.color.spec_color(),
    {
        self.color.color()
    }

    fn icon(&self) -> (r: &Icon)
        ensures
            *r == self.icon,
    {
        &self.icon
    }
}

/// The variant and icon for a shout with these keywords: the first shout
/// keyword of the table, in table order, that the keywords hold; an
/// unclassified shout with the generic icon when there is none.
pub open spec fn shout_for_keywords(kws: Seq<SpellKeywords>) -> (ShoutVariant, Icon) {
    if kws.contains(SpellKeywords::Shout_Curse) {
        (ShoutVariant::Curse, Icon::ShoutCurse)
    }
    else if kws.contains(SpellKeywords::Shout_Warcry) {
        (ShoutVariant::Warcry, Icon::ShoutWarcry)
    }
    else if kws.contains(SpellKeywords::Shout_AnimalAllegiance) {
        (ShoutVariant::AnimalAllegiance, Icon::ShoutAnimalAllegiance)
    }
    else if kws.contains(SpellKeywords::Shout_AuraWhisper) {
        (ShoutVariant::AuraWhisper, Icon::ShoutAuraWhisper)
    }
    else if kws.contains(SpellKeywords::Shout_BattleFury) {
        (ShoutVariant::BattleFury, Icon::ShoutBattleFury)
    }
    else if kws.contains(SpellKeywords::Shout_BecomeEthereal) {
        (ShoutVariant::BecomeEthereal, Icon::Shout)
    }
    else if kws.contains(SpellKeywords::Shout_BendWill) {
        (ShoutVariant::BendWill, Icon::ShoutBendWill)
    }
    else if kws.contains(SpellKeywords::Shout_CallDragon) {
        (ShoutVariant::CallDragon, Icon::ShoutCallDragon)
    }
    else if kws.contains(SpellKeywords::Shout_CallOfValor) {
        (ShoutVariant::CallOfValor, Icon::ShoutCallOfValor)
    }
    else if kws.contains(SpellKeywords::Shout_ClearSkies) {
        (ShoutVariant::ClearSkies, Icon::ShoutClearSkies)
    }
    else if kws.contains(SpellKeywords::Shout_Disarm) {
        (ShoutVariant::Disarm, Icon::ShoutDisarm)
    }
    else if kws.contains(SpellKeywords::Shout_Dismay) {
        (ShoutVariant::Dismay, Icon::ShoutDismay)
    }
    else if kws.contains(SpellKeywords::Shout_DragonAspect) {
        (ShoutVariant::DragonAspect, Icon::ShoutDragonAspect)
    }
    else if kws.contains(SpellKeywords::Shout_Dragonrend) {
        (ShoutVariant::Dragonrend, Icon::ShoutDragonrend)
    }
    else if kws.contains(SpellKeywords::Shout_DrainVitality) {
        (ShoutVariant::DrainVitality, Icon::ShoutDrainVitality)
    }
    else if kws.contains(SpellKeywords::Shout_ElementalFury) {
        (ShoutVariant::ElementalFury, Icon::ShoutElementalFury)
    }
    else if kws.contains(SpellKeywords::Shout_FireBreath) {
        (ShoutVariant::FireBreath, Icon::ShoutBreathAttack)
    }
    else if kws.contains(SpellKeywords::Shout_FrostBreath) {
        (ShoutVariant::FrostBreath, Icon::ShoutBreathAttack)
    }
    else if kws.contains(SpellKeywords::Shout_IceForm) {
        (ShoutVariant::IceForm, Icon::ShoutIceForm)
    }
    else if kws.contains(SpellKeywords::Shout_KynesPeace) {
        (ShoutVariant::KynesPeace, Icon::ShoutKynesPeace)
    }
    else if kws.contains(SpellKeywords::Shout_MarkedForDeath) {
        (ShoutVariant::MarkedForDeath, Icon::ShoutMarkedForDeath)
    }
    else if kws.contains(SpellKeywords::Shout_Slowtime) {
        (ShoutVariant::Slowtime, Icon::ShoutSlowtime)
    }
    else if kws.contains(SpellKeywords::Shout_SoulTear) {
        (ShoutVariant::SoulTear, Icon::ShoutSoulTear)
    }
    else if kws.contains(SpellKeywords::Shout_Stormcall) {
        (ShoutVariant::Stormcall, Icon::ShoutStormcall)
    }
    else if kws.contains(SpellKeywords::Shout_SummonDurnehviir) {
        (ShoutVariant::SummonDurnehviir, Icon::ShoutSummonDurnehviir)
    }
    else if kws.contains(SpellKeywords::Shout_ThrowVoice) {
        (ShoutVariant::ThrowVoice, Icon::ShoutThrowVoice)
    }
    else if kws.contains(SpellKeywords::Shout_UnrelentingForce) {
        (ShoutVariant::UnrelentingForce, Icon::ShoutUnrelentingForce)
    }
    else if kws.contains(SpellKeywords::Shout_WhirlwindSprint) {
        (ShoutVariant::WhirlwindSprint, Icon::ShoutWhirlwindSprint)
    }
    else if kws.contains(SpellKeywords::Shout_PhantomForm) {
        (ShoutVariant::PhantomForm, Icon::ShoutPhantomForm)
    }
    else if kws.contains(SpellKeywords::Shout_AlessiasLove) {
        (ShoutVariant::AlessiasLove, Icon::ShoutAlessiasLove)
    }
    else if kws.contains(SpellKeywords::Shout_Annihilate) {
        (ShoutVariant::Annihilate, Icon::ShoutAnnihilate)
    }
    else if kws.contains(SpellKeywords::Shout_ArcaneHelix) {
        (ShoutVariant::ArcaneHelix, Icon::ShoutArcaneHelix)
    }
    else if kws.contains(SpellKeywords::Shout_Armageddon) {
        (ShoutVariant::Armageddon, Icon::ShoutArmageddon)
    }
    else if kws.contains(SpellKeywords::Shout_DanceOfTheDead) {
        (ShoutVariant::DanceOfTheDead, Icon::ShoutDanceOfTheDead)
    }
    else if kws.contains(SpellKeywords::Shout_Earthquake) {
        (ShoutVariant::Earthquake, Icon::ShoutEarthquake)
    }
    else if kws.contains(SpellKeywords::Shout_EssenceRip) {
        (ShoutVariant::EssenceRip, Icon::ShoutEssenceRip)
    }
    else if kws.contains(SpellKeywords::Shout_Evocation) {
        (ShoutVariant::Evocation, Icon::ShoutEvocation)
    }
    else if kws.contains(SpellKeywords::Shout_Geomagnetism) {
        (ShoutVariant::Geomagnetism, Icon::ShoutGeomagnetism)
    }
    else if kws.contains(SpellKeywords::Shout_Iceborn) {
        (ShoutVariant::Iceborn, Icon::ShoutIceborn)
    }
    else if kws.contains(SpellKeywords::Shout_JonesShadow) {
        (ShoutVariant::JonesShadow, Icon::ShoutJonesShadow)
    }
    else if kws.contains(SpellKeywords::Shout_Kingsbane) {
        (ShoutVariant::Kingsbane, Icon::ShoutKingsbane)
    }
    else if kws.contains(SpellKeywords::Shout_Lifestream) {
        (ShoutVariant::Lifestream, Icon::ShoutLifestream)
    }
    else if kws.contains(SpellKeywords::Shout_LightningShield) {
        (ShoutVariant::LightningShield, Icon::ShoutLightningShield)
    }
    else if kws.contains(SpellKeywords::Shout_Oblivion) {
        (ShoutVariant::Oblivion, Icon::ShoutOblivion)
    }
    else if kws.contains(SpellKeywords::Shout_PhantomDecoy) {
        (ShoutVariant::PhantomDecoy, Icon::ShoutPhantomDecoy)
    }
    else if kws.contains(SpellKeywords::Shout_Riftwalk) {
        (ShoutVariant::Riftwalk, Icon::ShoutRiftwalk)
    }
    else if kws.contains(SpellKeywords::Shout_Shattersphere) {
        (ShoutVariant::Shattersphere, Icon::ShoutShattersphere)
    }
    else if kws.contains(SpellKeywords::Shout_ShorsWrath) {
        (ShoutVariant::ShorsWrath, Icon::ShoutShorsWrath)
    }
    else if kws.contains(SpellKeywords::Shout_ShroudOfSnowfall) {
        (ShoutVariant::ShroudOfSnowfall, Icon::ShoutShroudOfSnowfall)
    }
    else if kws.contains(SpellKeywords::Shout_SpeakUntoTheStars) {
        (ShoutVariant::SpeakUntoTheStars, Icon::ShoutSpeakUntoTheStars)
    }
    else if kws.contains(SpellKeywords::Shout_SplinterTwins) {
        (ShoutVariant::SplinterTwins, Icon::ShoutSplinterTwins)
    }
    else if kws.contains(SpellKeywords::Shout_Stormblast) {
        (ShoutVariant::Stormblast, Icon::ShoutStormblast)
    }
    else if kws.contains(SpellKeywords::Shout_TheConqueror) {
        (ShoutVariant::TheConqueror, Icon::ShoutTheConqueror)
    }
    else if kws.contains(SpellKeywords::Shout_Trueshot) {
        (ShoutVariant::Trueshot, Icon::ShoutTrueshot)
    }
    else if kws.contains(SpellKeywords::Shout_WailOfTheBanshee) {
        (ShoutVariant::WailOfTheBanshee, Icon::ShoutWailOfTheBanshee)
    }
    else if kws.contains(SpellKeywords::Shout_Wanderlust) {
        (ShoutVariant::Wanderlust, Icon::ShoutWanderlust)
    }
    else if kws.contains(SpellKeywords::Shout_LightningBreath) {
        (ShoutVariant::LightningBreath, Icon::ShoutLightningBreath)
    }
    else if kws.contains(SpellKeywords::Shout_PoisonBreath) {
        (ShoutVariant::PoisonBreath, Icon::ShoutPoisonBreath)
    }
    else if kws.contains(SpellKeywords::Shout_SoulCairnSummon) {
        (ShoutVariant::SoulCairnSummon, Icon::Shout)
    }
    else {
        (ShoutVariant::Unclassified, Icon::Shout)
    }
}

/// The color each shout is drawn with.
pub open spec fn shout_color(v: ShoutVariant) -> InvColor {
    match v {
        ShoutVariant::AnimalAllegiance => InvColor::Green,
        ShoutVariant::AuraWhisper => InvColor::Eldritch,
        ShoutVariant::BecomeEthereal => InvColor::Eldritch,
        ShoutVariant::ClearSkies => InvColor::Blue,
        ShoutVariant::Cyclone => InvColor::Gray,
        ShoutVariant::FireBreath => InvColor::Fire,
        ShoutVariant::FrostBreath => InvColor::Frost,
        ShoutVariant::IceForm => InvColor::Frost,
        ShoutVariant::KynesPeace => InvColor::Green,
        ShoutVariant::MarkedForDeath => InvColor::Poison,
        ShoutVariant::Stormcall => InvColor::Shock,
        _ => InvColor::White,
    }
}

/// What each shout says, in the dragon tongue.
pub open spec fn shout_translation(v: ShoutVariant) -> Seq<char> {
    match v {
        ShoutVariant::AnimalAllegiance => "Raan-mir-tah!"@,
        ShoutVariant::AuraWhisper => "Laas-ya-nir."@,
        ShoutVariant::BattleFury => "Mid-vur-shaan!"@,
        ShoutVariant::BecomeEthereal => "Feim-zii-gron!"@,
        ShoutVariant::BendWill => "Gol-hah-dov!"@,
        ShoutVariant::CallDragon => "Oh-ah-viing!"@,
        ShoutVariant::CallOfValor => "Hun-kaal-zoor!"@,
        ShoutVariant::ClearSkies => "Lok-vah-koor!"@,
        ShoutVariant::Cyclone => "Ven-gaar-nos!"@,
        ShoutVariant::Disarm => "Zun-haal-viik!"@,
        ShoutVariant::Dismay => "Faas-ru-maar!"@,
        ShoutVariant::DragonAspect => "Mul-qah-diiv!"@,
        ShoutVariant::Dragonrend => "Joor-zah-frul!"@,
        ShoutVariant::DrainVitality => "Gaan-lah-haas!"@,
        ShoutVariant::ElementalFury => "Su-grah-dun!"@,
        ShoutVariant::FireBreath => "Yol-toor-shul!"@,
        ShoutVariant::FrostBreath => "Fo-krah-diin!!"@,
        ShoutVariant::IceForm => "Iiz-slen-nus!"@,
        ShoutVariant::KynesPeace => "Kaan-drem-ov!"@,
        ShoutVariant::MarkedForDeath => "Krii-lun-aus!"@,
        ShoutVariant::PhantomForm => "Fiik-lo-sah!"@,
        ShoutVariant::Slowtime => "Tiid-klo-ui!"@,
        ShoutVariant::SoulTear => "Rii-vaaz-zol!"@,
        ShoutVariant::Stormcall => "Strun-bah-qo!"@,
        ShoutVariant::SummonDurnehviir => "Dur-neh-viir!"@,
        ShoutVariant::ThrowVoice => "Zul-mey-gut!"@,
        ShoutVariant::UnrelentingForce => "Fus-ro-dah!"@,
        ShoutVariant::WhirlwindSprint => "Wuld-nah-kest!"@,
        ShoutVariant::SoulCairnSummon => "Diil-qoth-zaam!"@,
        ShoutVariant::LightningBreath => "Strun-gaar-kest"@,
        ShoutVariant::PoisonBreath => "Laas-slen-aus"@,
        ShoutVariant::AlessiasLove => "Juoor-drem-ov"@,
        ShoutVariant::Annihilate => "Fii-gaar-nos"@,
        ShoutVariant::ArcaneHelix => "Vol-nah-kest"@,
        ShoutVariant::Armageddon => "Wuld-toor-shul"@,
        ShoutVariant::Curse => "Fiik-zii-gron!"@,
        ShoutVariant::DanceOfTheDead => "Raan-vaaz-sol"@,
        ShoutVariant::Earthquake => "Fus-klo-ul"@,
        ShoutVariant::EssenceRip => "Laaz-ro-dah"@,
        ShoutVariant::Evocation => "Ven-lah-haas"@,
        ShoutVariant::Geomagnetism => "Gol-yah-nir"@,
        ShoutVariant::Iceborn => "Iiz-ah-viing"@,
        ShoutVariant::JonesShadow => "Zul-lun-aus"@,
        ShoutVariant::Kingsbane => "Mul-neh-viir"@,
        ShoutVariant::Lifestream => "Gaan-vur-shaan"@,
        ShoutVariant::LightningShield => "Strun-slen-nus"@,
        ShoutVariant::Oblivion => "Dur-hah-dov"@,
        ShoutVariant::PhantomDecoy => "Fiik-lo-sah"@,
        ShoutVariant::Riftwalk => "Su-ru-maar"@,
        ShoutVariant::Shattersphere => "Fo-mey-gut"@,
        ShoutVariant::ShorsWrath => "Hun-haal-viik"@,
        ShoutVariant::ShroudOfSnowfall => "Feim-krah-diin"@,
        ShoutVariant::SpeakUntoTheStars => "Tiid-mir-tah"@,
        ShoutVariant::SplinterTwins => "Frii-lo-sah"@,
        ShoutVariant::Stormblast => "Lok-bah-qo"@,
        ShoutVariant::TheConqueror => "Mid-quah-diiv"@,
        ShoutVariant::Trueshot => "Kaan-grah-dun"@,
        ShoutVariant::WailOfTheBanshee => "Faaz-zah-frul"@,
        ShoutVariant::Wanderlust => "Od-vah-koor"@,
        ShoutVariant::Warcry => "Zun-kaal-zoor"@,
        ShoutVariant::Unclassified => "This shout is new to me!"@,
    }
}

/// Whether the keywords hold `k`.
fn has_keyword(kws: &Vec<SpellKeywords>, k: SpellKeywords) -> (r: bool)
    ensures
        r == kws@.contains(k),
{
    let mut i: usize = 0;
    while i < kws.len()
        invariant
            i <= kws@.len(),
            forall|j: int| 0 <= j < i ==> kws@[j] != k,
        decreases kws.len() - i,
    {
        if kws[i] == k {
            assert(kws@[i as int] == k);
            return true;
        }
        i += 1;
    }
    false
}

fn shout_lookup(kws: &Vec<SpellKeywords>) -> (r: (ShoutVariant, Icon))
    ensures
        r == shout_for_keywords(kws@),
{
    if has_keyword(kws, SpellKeywords::Shout_Curse) {
        (ShoutVariant::Curse, Icon::ShoutCurse)
    }
    else if has_keyword(kws, SpellKeywords::Shout_Warcry) {
        (ShoutVariant::Warcry, Icon::ShoutWarcry)
    }
    else if has_keyword(kws, SpellKeywords::Shout_AnimalAllegiance) {
        (ShoutVariant::AnimalAllegiance, Icon::ShoutAnimalAllegiance)
    }
    else if has_keyword(kws, SpellKeywords::Shout_AuraWhisper) {
        (ShoutVariant::AuraWhisper, Icon::ShoutAuraWhisper)
    }
    else if has_keyword(kws, SpellKeywords::Shout_BattleFury) {
        (ShoutVariant::BattleFury, Icon::ShoutBattleFury)
    }
    else if has_keyword(kws, SpellKeywords::Shout_BecomeEthereal) {
        (ShoutVariant::BecomeEthereal, Icon::Shout)
    }
    else if has_keyword(kws, SpellKeywords::Shout_BendWill) {
        (ShoutVariant::BendWill, Icon::ShoutBendWill)
    }
    else if has_keyword(kws, SpellKeywords::Shout_CallDragon) {
        (ShoutVariant::CallDragon, Icon::ShoutCallDragon)
    }
    else if has_keyword(kws, SpellKeywords::Shout_CallOfValor) {
        (ShoutVariant::CallOfValor, Icon::ShoutCallOfValor)
    }
    else if has_keyword(kws, SpellKeywords::Shout_ClearSkies) {
        (ShoutVariant::ClearSkies, Icon::ShoutClearSkies)
    }
    else if has_keyword(kws, SpellKeywords::Shout_Disarm) {
        (ShoutVariant::Disarm, Icon::ShoutDisarm)
    }
    else if has_keyword(kws, SpellKeywords::Shout_Dismay) {
        (ShoutVariant::Dismay, Icon::ShoutDismay)
    }
    else if has_keyword(kws, SpellKeywords::Shout_DragonAspect) {
        (ShoutVariant::DragonAspect, Icon::ShoutDragonAspect)
    }
    else if has_keyword(kws, SpellKeywords::Shout_Dragonrend) {
        (ShoutVariant::Dragonrend, Icon::ShoutDragonrend)
    }
    else if has_keyword(kws, SpellKeywords::Shout_DrainVitality) {
        (ShoutVariant::DrainVitality, Icon::ShoutDrainVitality)
    }
    else if has_keyword(kws, SpellKeywords::Shout_ElementalFury) {
        (ShoutVariant::ElementalFury, Icon::ShoutElementalFury)
    }
    else if has_keyword(kws, SpellKeywords::Shout_FireBreath) {
        (ShoutVariant::FireBreath, Icon::ShoutBreathAttack)
    }
    else if has_keyword(kws, SpellKeywords::Shout_FrostBreath) {
        (ShoutVariant::FrostBreath, Icon::ShoutBreathAttack)
    }
    else if has_keyword(kws, SpellKeywords::Shout_IceForm) {
        (ShoutVariant::IceForm, Icon::ShoutIceForm)
    }
    else if has_keyword(kws, SpellKeywords::Shout_KynesPeace) {
        (ShoutVariant::KynesPeace, Icon::ShoutKynesPeace)
    }
    else if has_keyword(kws, SpellKeywords::Shout_MarkedForDeath) {
        (ShoutVariant::MarkedForDeath, Icon::ShoutMarkedForDeath)
    }
    else if has_keyword(kws, SpellKeywords::Shout_Slowtime) {
        (ShoutVariant::Slowtime, Icon::ShoutSlowtime)
    }
    else if has_keyword(kws, SpellKeywords::Shout_SoulTear) {
        (ShoutVariant::SoulTear, Icon::ShoutSoulTear)
    }
    else if has_keyword(kws, SpellKeywords::Shout_Stormcall) {
        (ShoutVariant::Stormcall, Icon::ShoutStormcall)
    }
    else if has_keyword(kws, SpellKeywords::Shout_SummonDurnehviir) {
        (ShoutVariant::SummonDurnehviir, Icon::ShoutSummonDurnehviir)
    }
    else if has_keyword(kws, SpellKeywords::Shout_ThrowVoice) {
        (ShoutVariant::ThrowVoice, Icon::ShoutThrowVoice)
    }
    else if has_keyword(kws, SpellKeywords::Shout_UnrelentingForce) {
        (ShoutVariant::UnrelentingForce, Icon::ShoutUnrelentingForce)
    }
    else if has_keyword(kws, SpellKeywords::Shout_WhirlwindSprint) {
        (ShoutVariant::WhirlwindSprint, Icon::ShoutWhirlwindSprint)
    }
    else if has_keyword(kws, SpellKeywords::Shout_PhantomForm) {
        (ShoutVariant::PhantomForm, Icon::ShoutPhantomForm)
    }
    else if has_keyword(kws, SpellKeywords::Shout_AlessiasLove) {
        (ShoutVariant::AlessiasLove, Icon::ShoutAlessiasLove)
    }
    else if has_keyword(kws, SpellKeywords::Shout_Annihilate) {
        (ShoutVariant::Annihilate, Icon::ShoutAnnihilate)
    }
    else if has_keyword(kws, SpellKeywords::Shout_ArcaneHelix) {
        (ShoutVariant::ArcaneHelix, Icon::ShoutArcaneHelix)
    }
    else if has_keyword(kws, SpellKeywords::Shout_Armageddon) {
        (ShoutVariant::Armageddon, Icon::ShoutArmageddon)
    }
    else if has_keyword(kws, SpellKeywords::Shout_DanceOfTheDead) {
        (ShoutVariant::DanceOfTheDead, Icon::ShoutDanceOfTheDead)
    }
    else if has_keyword(kws, SpellKeywords::Shout_Earthquake) {
        (ShoutVariant::Earthquake, Icon::ShoutEarthquake)
    }
    else if has_keyword(kws, SpellKeywords::Shout_EssenceRip) {
        (ShoutVariant::EssenceRip, Icon::ShoutEssenceRip)
    }
    else if has_keyword(kws, SpellKeywords::Shout_Evocation) {
        (ShoutVariant::Evocation, Icon::ShoutEvocation)
    }
    else if has_keyword(kws, SpellKeywords::Shout_Geomagnetism) {
        (ShoutVariant::Geomagnetism, Icon::ShoutGeomagnetism)
    }
    else if has_keyword(kws, SpellKeywords::Shout_Iceborn) {
        (ShoutVariant::Iceborn, Icon::ShoutIceborn)
    }
    else if has_keyword(kws, SpellKeywords::Shout_JonesShadow) {
        (ShoutVariant::JonesShadow, Icon::ShoutJonesShadow)
    }
    else if has_keyword(kws, SpellKeywords::Shout_Kingsbane) {
        (ShoutVariant::Kingsbane, Icon::ShoutKingsbane)
    }
    else if has_keyword(kws, SpellKeywords::Shout_Lifestream) {
        (ShoutVariant::Lifestream, Icon::ShoutLifestream)
    }
    else if has_keyword(kws, SpellKeywords::Shout_LightningShield) {
        (ShoutVariant::LightningShield, Icon::ShoutLightningShield)
    }
    else if has_keyword(kws, SpellKeywords::Shout_Oblivion) {
        (ShoutVariant::Oblivion, Icon::ShoutOblivion)
    }
    else if has_keyword(kws, SpellKeywords::Shout_PhantomDecoy) {
        (ShoutVariant::PhantomDecoy, Icon::ShoutPhantomDecoy)
    }
    else if has_keyword(kws, SpellKeywords::Shout_Riftwalk) {
        (ShoutVariant::Riftwalk, Icon::ShoutRiftwalk)
    }
    else if has_keyword(kws, SpellKeywords::Shout_Shattersphere) {
        (ShoutVariant::Shattersphere, Icon::ShoutShattersphere)
    }
    else if has_keyword(kws, SpellKeywords::Shout_ShorsWrath) {
        (ShoutVariant::ShorsWrath, Icon::ShoutShorsWrath)
    }
    else if has_keyword(kws, SpellKeywords::Shout_ShroudOfSnowfall) {
        (ShoutVariant::ShroudOfSnowfall, Icon::ShoutShroudOfSnowfall)
    }
    else if has_keyword(kws, SpellKeywords::Shout_SpeakUntoTheStars) {
        (ShoutVariant::SpeakUntoTheStars, Icon::ShoutSpeakUntoTheStars)
    }
    else if has_keyword(kws, SpellKeywords::Shout_SplinterTwins) {
        (ShoutVariant::SplinterTwins, Icon::ShoutSplinterTwins)
    }
    else if has_keyword(kws, SpellKeywords::Shout_Stormblast) {
        (ShoutVariant::Stormblast, Icon::ShoutStormblast)
    }
    else if has_keyword(kws, SpellKeywords::Shout_TheConqueror) {
        (ShoutVariant::TheConqueror, Icon::ShoutTheConqueror)
    }
    else if has_keyword(kws, SpellKeywords::Shout_Trueshot) {
        (ShoutVariant::Trueshot, Icon::ShoutTrueshot)
    }
    else if has_keyword(kws, SpellKeywords::Shout_WailOfTheBanshee) {
        (ShoutVariant::WailOfTheBanshee, Icon::ShoutWailOfTheBanshee)
    }
    else if has_keyword(kws, SpellKeywords::Shout_Wanderlust) {
        (ShoutVariant::Wanderlust, Icon::ShoutWanderlust)
    }
    else if has_keyword(kws, SpellKeywords::Shout_LightningBreath) {
        (ShoutVariant::LightningBreath, Icon::ShoutLightningBreath)
    }
    else if has_keyword(kws, SpellKeywords::Shout_PoisonBreath) {
        (ShoutVariant::PoisonBreath, Icon::ShoutPoisonBreath)
    }
    else if has_keyword(kws, SpellKeywords::Shout_SoulCairnSummon) {
        (ShoutVariant::SoulCairnSummon, Icon::Shout)
    }
    else {
        (ShoutVariant::Unclassified, Icon::Shout)
    }
}

impl ShoutType {
    /// The shout type for keywords already read from the tags.
    pub open spec fn spec_from_keywords(kws: Seq<SpellKeywords>) -> ShoutType {
        let (variant, icon) = shout_for_keywords(kws);
        ShoutType { icon, color: shout_color(variant), variant }
    }

    /// Classify a shout from the spell keywords it carries.
    pub fn from_keywords(kws: &Vec<SpellKeywords>) -> (r: ShoutType)
        ensures
            r == ShoutType::spec_from_keywords(kws@),
    {
        let (variant, icon) = shout_lookup(kws);
        let color = match variant {
            ShoutVariant::AnimalAllegiance => InvColor::Green,
            ShoutVariant::AuraWhisper => InvColor::Eldritch,
            ShoutVariant::BecomeEthereal => InvColor::Eldritch,
            ShoutVariant::ClearSkies => InvColor::Blue,
            ShoutVariant::Cyclone => InvColor::Gray,
            ShoutVariant::FireBreath => InvColor::Fire,
            ShoutVariant::FrostBreath => InvColor::Frost,
            ShoutVariant::IceForm => InvColor::Frost,
            ShoutVariant::KynesPeace => InvColor::Green,
            ShoutVariant::MarkedForDeath => InvColor::Poison,
            ShoutVariant::Stormcall => InvColor::Shock,
            _ => InvColor::White,
        };
        ShoutType { icon, color, variant }
    }

    /// Classify a shout from its keyword tags.
    pub fn new(tags: Vec<String>) -> (r: ShoutType)
        ensures
            r == ShoutType::spec_from_keywords(parsed_keywords(tags@.map_values(|t: String| t@))),
    {
        let kws = strings_to_keywords(tags.as_slice());
        ShoutType::from_keywords(&kws)
    }

    /// A shout type from its parts.
    pub fn construct(icon: Icon, color: InvColor, variant: ShoutVariant) -> (r: ShoutType)
        ensures
            r == (ShoutType { icon, color, variant }),
    {
        ShoutType { icon, color, variant }
    }

    /// Which shout this is.
    pub fn variant(&self) -> (r: &ShoutVariant)
        ensures
            *r == self.variant,
    {
        &self.variant
    }

    /// What this shout says, in the dragon tongue.
    pub fn translation(&self) -> (r: &'static str)
        ensures
            r@ == shout_translation(self.variant),
    {
        match self.variant {
            ShoutVariant::AnimalAllegiance => "Raan-mir-tah!",
            ShoutVariant::AuraWhisper => "Laas-ya-nir.",
            ShoutVariant::BattleFury => "Mid-vur-shaan!",
            ShoutVariant::BecomeEthereal => "Feim-zii-gron!",
            ShoutVariant::BendWill => "Gol-hah-dov!",
            ShoutVariant::CallDragon => "Oh-ah-viing!",
            ShoutVariant::CallOfValor => "Hun-kaal-zoor!",
            ShoutVariant::ClearSkies => "Lok-vah-koor!",
            ShoutVariant::Cyclone => "Ven-gaar-nos!",
            ShoutVariant::Disarm => "Zun-haal-viik!",
            ShoutVariant::Dismay => "Faas-ru-maar!",
            ShoutVariant::DragonAspect => "Mul-qah-diiv!",
            ShoutVariant::Dragonrend => "Joor-zah-frul!",
            ShoutVariant::DrainVitality => "Gaan-lah-haas!",
            ShoutVariant::ElementalFury => "Su-grah-dun!",
            ShoutVariant::FireBreath => "Yol-toor-shul!",
            ShoutVariant::FrostBreath => "Fo-krah-diin!!",
            ShoutVariant::IceForm => "Iiz-slen-nus!",
            ShoutVariant::KynesPeace => "Kaan-drem-ov!",
            ShoutVariant::MarkedForDeath => "Krii-lun-aus!",
            ShoutVariant::PhantomForm => "Fiik-lo-sah!",
            ShoutVariant::Slowtime => "Tiid-klo-ui!",
            ShoutVariant::SoulTear => "Rii-vaaz-zol!",
            ShoutVariant::Stormcall => "Strun-bah-qo!",
            ShoutVariant::SummonDurnehviir => "Dur-neh-viir!",
            ShoutVariant::ThrowVoice => "Zul-mey-gut!",
            ShoutVariant::UnrelentingForce => "Fus-ro-dah!",
            ShoutVariant::WhirlwindSprint => "Wuld-nah-kest!",
            ShoutVariant::SoulCairnSummon => "Diil-qoth-zaam!",
            ShoutVariant::LightningBreath => "Strun-gaar-kest",
            ShoutVariant::PoisonBreath => "Laas-slen-aus",
            ShoutVariant::AlessiasLove => "Juoor-drem-ov",
            ShoutVariant::Annihilate => "Fii-gaar-nos",
            ShoutVariant::ArcaneHelix => "Vol-nah-kest",
            ShoutVariant::Armageddon => "Wuld-toor-shul",
            ShoutVariant::Curse => "Fiik-zii-gron!",
            ShoutVariant::DanceOfTheDead => "Raan-vaaz-sol",
            ShoutVariant::Earthquake => "Fus-klo-ul",
            ShoutVariant::EssenceRip => "Laaz-ro-dah",
            ShoutVariant::Evocation => "Ven-lah-haas",
            ShoutVariant::Geomagnetism => "Gol-yah-nir",
            ShoutVariant::Iceborn => "Iiz-ah-viing",
            ShoutVariant::JonesShadow => "Zul-lun-aus",
            ShoutVariant::Kingsbane => "Mul-neh-viir",
            ShoutVariant::Lifestream => "Gaan-vur-shaan",
            ShoutVariant::LightningShield => "Strun-slen-nus",
            ShoutVariant::Oblivion => "Dur-hah-dov",
            ShoutVariant::PhantomDecoy => "Fiik-lo-sah",
            ShoutVariant::Riftwalk => "Su-ru-maar",
            ShoutVariant::Shattersphere => "Fo-mey-gut",
            ShoutVariant::ShorsWrath => "Hun-haal-viik",
            ShoutVariant::ShroudOfSnowfall => "Feim-krah-diin",
            ShoutVariant::SpeakUntoTheStars => "Tiid-mir-tah",
            ShoutVariant::SplinterTwins => "Frii-lo-sah",
            ShoutVariant::Stormblast => "Lok-bah-qo",
            ShoutVariant::TheConqueror => "Mid-quah-diiv",
            ShoutVariant::Trueshot => "Kaan-grah-dun",
            ShoutVariant::WailOfTheBanshee => "Faaz-zah-frul",
            ShoutVariant::Wanderlust => "Od-vah-koor",
            ShoutVariant::Warcry => "Zun-kaal-zoor",
            ShoutVariant::Unclassified => "This shout is new to me!",
        }
    }
}


/// A shout keyword of the base game, of its add-ons, or of the Stormcrown,
/// Thunderchild and Forceful Tongue additions.
pub open spec fn known_shout_keyword(k: SpellKeywords) -> bool {
        ||| k == SpellKeywords::Shout_AnimalAllegiance
        ||| k == SpellKeywords::Shout_AuraWhisper
        ||| k == SpellKeywords::Shout_BattleFury
        ||| k == SpellKeywords::Shout_BecomeEthereal
        ||| k == SpellKeywords::Shout_BendWill
        ||| k == SpellKeywords::Shout_CallDragon
        ||| k == SpellKeywords::Shout_CallOfValor
        ||| k == SpellKeywords::Shout_ClearSkies
        ||| k == SpellKeywords::Shout_Disarm
        ||| k == SpellKeywords::Shout_Dismay
        ||| k == SpellKeywords::Shout_DragonAspect
        ||| k == SpellKeywords::Shout_Dragonrend
        ||| k == SpellKeywords::Shout_DrainVitality
        ||| k == SpellKeywords::Shout_ElementalFury
        ||| k == SpellKeywords::Shout_FireBreath
        ||| k == SpellKeywords::Shout_FrostBreath
        ||| k == SpellKeywords::Shout_IceForm
        ||| k == SpellKeywords::Shout_KynesPeace
        ||| k == SpellKeywords::Shout_MarkedForDeath
        ||| k == SpellKeywords::Shout_Slowtime
        ||| k == SpellKeywords::Shout_SoulTear
        ||| k == SpellKeywords::Shout_Stormcall
        ||| k == SpellKeywords::Shout_SummonDurnehviir
        ||| k == SpellKeywords::Shout_ThrowVoice
        ||| k == SpellKeywords::Shout_UnrelentingForce
        ||| k == SpellKeywords::Shout_WhirlwindSprint
        ||| k == SpellKeywords::Shout_SoulCairnSummon
        ||| k == SpellKeywords::Shout_PhantomForm
        ||| k == SpellKeywords::Shout_LightningBreath
        ||| k == SpellKeywords::Shout_PoisonBreath
        ||| k == SpellKeywords::Shout_AlessiasLove
        ||| k == SpellKeywords::Shout_Annihilate
        ||| k == SpellKeywords::Shout_ArcaneHelix
        ||| k == SpellKeywords::Shout_Armageddon
        ||| k == SpellKeywords::Shout_Curse
        ||| k == SpellKeywords::Shout_DanceOfTheDead
        ||| k == SpellKeywords::Shout_Earthquake
        ||| k == SpellKeywords::Shout_EssenceRip
        ||| k == SpellKeywords::Shout_Evocation
        ||| k == SpellKeywords::Shout_Geomagnetism
        ||| k == SpellKeywords::Shout_Iceborn
        ||| k == SpellKeywords::Shout_JonesShadow
        ||| k == SpellKeywords::Shout_Kingsbane
        ||| k == SpellKeywords::Shout_Lifestream
        ||| k == SpellKeywords::Shout_LightningShield
        ||| k == SpellKeywords::Shout_Oblivion
        ||| k == SpellKeywords::Shout_PhantomDecoy
        ||| k == SpellKeywords::Shout_Riftwalk
        ||| k == SpellKeywords::Shout_Shattersphere
        ||| k == SpellKeywords::Shout_ShorsWrath
        ||| k == SpellKeywords::Shout_ShroudOfSnowfall
        ||| k == SpellKeywords::Shout_SpeakUntoTheStars
        ||| k == SpellKeywords::Shout_SplinterTwins
        ||| k == SpellKeywords::Shout_Stormblast
        ||| k == SpellKeywords::Shout_TheConqueror
        ||| k == SpellKeywords::Shout_Trueshot
        ||| k == SpellKeywords::Shout_WailOfTheBanshee
        ||| k == SpellKeywords::Shout_Wanderlust
        ||| k == SpellKeywords::Shout_Warcry
}

/// A shout carrying just one known shout keyword is classified: its variant
/// is not the unclassified one.
pub proof fn lemma_known_shout_keywords_classify(k: SpellKeywords)
    requires
        known_shout_keyword(k),
    ensures
        shout_for_keywords(seq![k]).0 != ShoutVariant::Unclassified,
        ShoutType::spec_from_keywords(seq![k]).variant != ShoutVariant::Unclassified,
{
    assert forall|x: SpellKeywords| #[trigger] seq![k].contains(x) <==> x == k by {
        if x == k {
            assert(seq![k][0] == k);
        }
    }
}

} // verus!
