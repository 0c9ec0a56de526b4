//! Magic effect keywords from OCF, the base game and some spell packs,
//! read by their lower-case names.

use vstd::prelude::*;

use crate::text::{chars_of, lowercase_of, remove_all, removed_all, string_from_chars, to_lowercase};

verus! {

/// Magic effect keywords that spells, powers and shouts carry.
#[allow(non_camel_case_types)]
#[derive(Clone, Copy, Debug, PartialEq, Eq, Hash, Structural)]
pub enum SpellKeywords {
    Archetype_CarryWeight,
    Archetype_Cure,
    Archetype_Detect,
    Archetype_Guide,
    Archetype_Light,
    Archetype_NightEye,
    Archetype_Protect,
    Archetype_Reflect,
    Archetype_Resist,
    Archetype_Root,
    Archetype_Silence,
    Archetype_Teleport,
    Archetype_Waterbreathing,
    Archetype_Waterwalking,
    Archetype_WeaponBuff,
    BoundWarAxe,
    BoundBattleAxe,
    BoundBow,
    BoundDagger,
    BoundHammer,
    BoundMace,
    BoundShield,
    BoundSword,
    BoundGreatsword,
    MagicArmorSpell,
    MagicCloak,
    MagicDamageFire,
    MagicDamageFrost,
    MagicDamageResist,
    MagicDamageShock,
    MagicInfluence,
    MagicInfluenceCharm,
    MagicInfluenceFear,
    MagicInfluenceFrenzy,
    MagicInvisibility,
    MagicNightEye,
    MagicParalysis,
    MagicRestoreHealth,
    MagicRune,
    MagicSlow,
    MagicSummonFamiliar,
    MagicSummonFire,
    MagicSummonFrost,
    MagicSummonShock,
    MagicSummonUndead,
    MagicTelekinesis,
    MagicTurnUndead,
    MagicWard,
    MagicWeaponSpeed,
    MAG_MagicDamageSun,
    IconWind,
    IconMagicWind,
    IconWater,
    IconMagicWater,
    DAR_SummonAstralWyrm,
    Shout_AnimalAllegiance,
    Shout_AuraWhisper,
    Shout_BattleFury,
    Shout_BecomeEthereal,
    Shout_BendWill,
    Shout_CallDragon,
    Shout_CallOfValor,
    Shout_ClearSkies,
    Shout_Disarm,
    Shout_Dismay,
    Shout_DragonAspect,
    Shout_Dragonrend,
    Shout_DrainVitality,
    Shout_ElementalFury,
    Shout_FireBreath,
    Shout_FrostBreath,
    Shout_IceForm,
    Shout_KynesPeace,
    Shout_MarkedForDeath,
    Shout_Slowtime,
    Shout_SoulTear,
    Shout_Stormcall,
    Shout_SummonDurnehviir,
    Shout_ThrowVoice,
    Shout_UnrelentingForce,
    Shout_WhirlwindSprint,
    Shout_SoulCairnSummon,
    Shout_PhantomForm,
    Shout_LightningBreath,
    Shout_PoisonBreath,
    Shout_AlessiasLove,
    Shout_Annihilate,
    Shout_ArcaneHelix,
    Shout_Armageddon,
    Shout_Curse,
    Shout_DanceOfTheDead,
    Shout_Earthquake,
    Shout_EssenceRip,
    Shout_Evocation,
    Shout_Geomagnetism,
    Shout_Iceborn,
    Shout_JonesShadow,
    Shout_Kingsbane,
    Shout_Lifestream,
    Shout_LightningShield,
    Shout_Oblivion,
    Shout_PhantomDecoy,
    Shout_Riftwalk,
    Shout_Shattersphere,
    Shout_ShorsWrath,
    Shout_ShroudOfSnowfall,
    Shout_SpeakUntoTheStars,
    Shout_SplinterTwins,
    Shout_Stormblast,
    Shout_TheConqueror,
    Shout_Trueshot,
    Shout_WailOfTheBanshee,
    Shout_Wanderlust,
    Shout_Warcry,
    ClassArcane,
    ClassArtificer,
    ClassAsh,
    ClassAstral,
    ClassBard,
    ClassBlood,
    ClassDruid,
    ClassDunmer,
    ClassEarth,
    ClassEldritch,
    ClassFire,
    ClassFrost,
    ClassHoly,
    ClassMind,
    ClassNecromancy,
    ClassPoison,
    ClassRace_Altmer,
    ClassRace_Argonian,
    ClassRace_Bosmer,
    ClassRace_Breton,
    ClassRace_Dunmer,
    ClassRace_Imperial,
    ClassRace_Khajiit,
    ClassRace_Nord,
    ClassRace_Orsimer,
    ClassRace_Other,
    ClassRace_Redguard,
    ClassRace_Vampire,
    ClassRace_Werebeast,
    ClassShadow,
    ClassShock,
    ClassSurvival_Needs,
    ClassSurvival_Wilderness,
    ClassSurvival,
    ClassUtility,
    ClassVampire,
    ClassWater,
    ClassWind,
    ClassWitcher,
    DeliverTouch,
    PowerAction_Bag,
    PowerAction_Bard,
    PowerAction_Bathe,
    PowerAction_Bless,
    PowerAction_BuryCorpse,
    PowerAction_Campfire,
    PowerAction_Coin,
    PowerAction_CommandFollower,
    PowerAction_Craft,
    PowerAction_FillWater,
    PowerAction_Goggles,
    PowerAction_GogglesSight,
    PowerAction_HarvestCorpse,
    PowerAction_HarvestGather,
    PowerAction_HarvestWood,
    PowerAction_Horse,
    PowerAction_Influence,
    PowerAction_InfluenceEngage,
    PowerAction_Instincts,
    PowerAction_Lantern,
    PowerAction_PeekKeyhole,
    PowerAction_PitchTent,
    PowerAction_Potion,
    PowerAction_Pray,
    PowerAction_Relax,
    PowerAction_Speech,
    PowerAction_StatusFrostfall,
    PowerAction_StatusSunhelm,
    PowerAction_TameAnimal,
    PowerAction_Train,
    PowerAction_WeaponGrip,
    PowerAction,
    PowerAlteration,
    PowerCheat,
    PowerConfig,
    PowerConfigWeatherChanger,
    PowerGrand,
    Spell_Enchant,
    SpellAbsorb_Magicka,
    SpellAbsorb_MagickaCircle,
    SpellAbsorb_MagickaCloak,
    SpellAbsorb_Stamina,
    SpellAbsorb_StaminaCircle,
    SpellAbsorb_StaminaCloak,
    SpellAssist_DamageDruid,
    SpellAssist_MovementSpeedDruid,
    SpellAssist,
    SpellBound_Ammo,
    SpellBound_Armor,
    SpellBound_MiscItem,
    SpellBound_Weapon,
    SpellControl,
    SpellCounter_Astral,
    SpellCounter_BloodDruid,
    SpellCounter_Druid,
    SpellCounter_DruidHeal,
    SpellCounter_Fire,
    SpellCure,
    SpellCurse_Deconstruct,
    SpellCurse_DruidRoot,
    SpellCurse_Shadow,
    SpellCurse,
    SpellDamage_Arcane,
    SpellDamage_ArcaneCloak,
    SpellDamage_ArcaneFire,
    SpellDamage_ArcaneFireCloak,
    SpellDamage_Ash,
    SpellDamage_AshCloak,
    SpellDamage_AshFire,
    SpellDamage_AshFireCloak,
    SpellDamage_Astral,
    SpellDamage_AstralCloak,
    SpellDamage_Blood,
    SpellDamage_BloodCloak,
    SpellDamage_BloodShock,
    SpellDamage_BloodShockCloak,
    SpellDamage_Construct,
    SpellDamage_Deconstruct,
    SpellDamage_DeconstructCloak,
    SpellDamage_Disease,
    SpellDamage_DiseaseCloak,
    SpellDamage_Earth,
    SpellDamage_EarthCloak,
    SpellDamage_Fire,
    SpellDamage_FireArcane,
    SpellDamage_FireArcaneCloak,
    SpellDamage_FireCloak,
    SpellDamage_FireCloakDunmer,
    SpellDamage_FireCold,
    SpellDamage_FireColdCloak,
    SpellDamage_FireShock,
    SpellDamage_FireShockCloak,
    SpellDamage_FireShockFrost,
    SpellDamage_FireShockFrostCloak,
    SpellDamage_Force,
    SpellDamage_ForceCloak,
    SpellDamage_Frost,
    SpellDamage_FrostCloak,
    SpellDamage_FrostFire,
    SpellDamage_FrostFireCloak,
    SpellDamage_Holy,
    SpellDamage_HolyAstral,
    SpellDamage_HolyAstralCloak,
    SpellDamage_HolyCloak,
    SpellDamage_HolyLunar,
    SpellDamage_HolyLunarCloak,
    SpellDamage_Light,
    SpellDamage_LightCloak,
    SpellDamage_Necrotic,
    SpellDamage_NecroticCloak,
    SpellDamage_NecroticFire,
    SpellDamage_NecroticFireCloak,
    SpellDamage_Poison,
    SpellDamage_PoisonBug,
    SpellDamage_PoisonBugCloak,
    SpellDamage_PoisonCloak,
    SpellDamage_PoisonDoomstone,
    SpellDamage_PoisonEldritch,
    SpellDamage_PoisonEldritchCloak,
    SpellDamage_Shadow,
    SpellDamage_ShadowCloak,
    SpellDamage_Shock,
    SpellDamage_ShockArc,
    SpellDamage_ShockArcCloak,
    SpellDamage_ShockCloak,
    SpellDamage_ShockStorm,
    SpellDamage_ShockStormCloak,
    SpellDamage_Sonic,
    SpellDamage_SonicCloak,
    SpellDamage_Steam,
    SpellDamage_SteamCloak,
    SpellDamage_Water,
    SpellDamage_WaterCloak,
    SpellDamage_Wind,
    SpellDamage_WindCloak,
    SpellDispel,
    SpellDivination,
    SpellEnchant,
    SpellEnhance_Attack,
    SpellEnhance_Blood,
    SpellEnhance_CarryWeight,
    SpellEnhance_Casting,
    SpellEnhance_CastingDruid,
    SpellEnhance_CastingEldritch,
    SpellEnhance_CritShadowInvis,
    SpellEnhance_Damage,
    SpellEnhance_DamageArcane,
    SpellEnhance_DamageAshFire,
    SpellEnhance_DamageBlood,
    SpellEnhance_DamageBloodDruid,
    SpellEnhance_DamageDruidHunter,
    SpellEnhance_DamageFire,
    SpellEnhance_DamageFrost,
    SpellEnhance_DamageHolyAstral,
    SpellEnhance_DamageHolyLunar,
    SpellEnhance_DamagePoison,
    SpellEnhance_DamagePoisonEldritch,
    SpellEnhance_DamageShadow,
    SpellEnhance_DamageShock,
    SpellEnhance_DamageShockArc,
    SpellEnhance_Dodge,
    SpellEnhance_Eldritch,
    SpellEnhance_EldritchTome,
    SpellEnhance_Evasion,
    SpellEnhance_EvasionDruid,
    SpellEnhance_Fall,
    SpellEnhance_Flight,
    SpellEnhance_Health,
    SpellEnhance_Jump,
    SpellEnhance_MovementSpeed,
    SpellEnhance_MovementSpeedDruid,
    SpellEnhance_Regen,
    SpellEnhance_RegenShadowInvis,
    SpellEnhance_Sight,
    SpellEnhance_SightKhajiit,
    SpellEnhance_SightVampireBlood,
    SpellEnhance_SightVampireShadow,
    SpellEnhance_SightWerebeast,
    SpellEnhance_SpellCost,
    SpellEnhance_StaminaDruid,
    SpellEnhance_Swim,
    SpellEnhance_WaterBreath,
    SpellEnhance_WaterWalk,
    SpellEthereal,
    SpellForce,
    SpellHarvest,
    SpellHeal_Construct,
    SpellHeal_Daedra,
    SpellHeal_Living,
    SpellHeal_LivingCircle,
    SpellHeal_LivingWater,
    SpellHeal_Self,
    SpellHeal_SelfCloak,
    SpellHeal_Undead,
    SpellLight,
    SpellMind_Charm,
    SpellMind_CharmImperial,
    SpellMind_Control,
    SpellMind_ControlBosmer,
    SpellMind_ControlVampire,
    SpellMind_Courage,
    SpellMind_Fear,
    SpellMind_FearNord,
    SpellMind_FearVampire,
    SpellMind_Frenzy,
    SpellMind_FrenzyShadow,
    SpellMind_Paralysis,
    SpellMind_Rally,
    SpellParalysis_Ash,
    SpellParalysis_AshCloak,
    SpellParalysis_Druid,
    SpellParalysis,
    SpellProject,
    SpellProtect_Damage,
    SpellProtect_ElementFire,
    SpellProtect_ElementFrost,
    SpellProtect_ElementPoison,
    SpellProtect_ElementShock,
    SpellProtect_Magic,
    SpellProtect_Warmth,
    SpellReanimate,
    SpellReanimateDoomstone,
    SpellReflect_Druid,
    SpellRestore_Exposure,
    SpellRestore_Magicka,
    SpellRestore_MagickaCircle,
    SpellRestore_MagickaWater,
    SpellRestore_Stamina,
    SpellRestore_StaminaCircle,
    SpellRestore_StaminaDruid,
    SpellRestore_Warmth,
    SpellSacrifice_Blood,
    SpellSacrifice,
    SpellShapechange_Vampire,
    SpellShapechange_Werebeast,
    SpellShapechange,
    SpellShield_Druid,
    SpellShield_Warmth,
    SpellSilence,
    SpellSoulTrap,
    SpellSoulTrapCloak,
    SpellSpace_Banish,
    SpellSpace_Teleport,
    SpellSpace,
    SpellStealth_Invisibility,
    SpellStealth_InvisibilityDoomstone,
    SpellStealth_InvisibilityDruid,
    SpellStealth_InvisibilityVampire,
    SpellStealth,
    SpellSummon_Construct,
    SpellSummon_Creature,
    SpellSummon_Daedra,
    SpellSummon_Object,
    SpellSummon_Spirit,
    SpellSummon_Undead,
    SpellTeleport,
    SpellTime,
    SpellTransmute,
    SpellTurnUndeadCircle,
    SpellUnlock,
    SpellWard,
}

/// How many spell keywords there are.
pub const SPELL_KEYWORD_COUNT: usize = 415;

/// The lower-case name of a keyword.
pub open spec fn keyword_name(k: SpellKeywords) -> Seq<char> {
    match k {
        SpellKeywords::Archetype_CarryWeight => "archetype_carryweight"@,
        SpellKeywords::Archetype_Cure => "archetype_cure"@,
        SpellKeywords::Archetype_Detect => "archetype_detect"@,
        SpellKeywords::Archetype_Guide => "archetype_guide"@,
        SpellKeywords::Archetype_Light => "archetype_light"@,
        SpellKeywords::Archetype_NightEye => "archetype_nighteye"@,
        SpellKeywords::Archetype_Protect => "archetype_protect"@,
        SpellKeywords::Archetype_Reflect => "archetype_reflect"@,
        SpellKeywords::Archetype_Resist => "archetype_resist"@,
        SpellKeywords::Archetype_Root => "archetype_root"@,
        SpellKeywords::Archetype_Silence => "archetype_silence"@,
        SpellKeywords::Archetype_Teleport => "archetype_teleport"@,
        SpellKeywords::Archetype_Waterbreathing => "archetype_waterbreathing"@,
        SpellKeywords::Archetype_Waterwalking => "archetype_waterwalking"@,
        SpellKeywords::Archetype_WeaponBuff => "archetype_weaponbuff"@,
        SpellKeywords::BoundWarAxe => "boundwaraxe"@,
        SpellKeywords::BoundBattleAxe => "boundbattleaxe"@,
        SpellKeywords::BoundBow => "boundbow"@,
        SpellKeywords::BoundDagger => "bounddagger"@,
        SpellKeywords::BoundHammer => "boundhammer"@,
        SpellKeywords::BoundMace => "boundmace"@,
        SpellKeywords::BoundShield => "boundshield"@,
        SpellKeywords::BoundSword => "boundsword"@,
        SpellKeywords::BoundGreatsword => "boundgreatsword"@,
        SpellKeywords::MagicArmorSpell => "magicarmorspell"@,
        SpellKeywords::MagicCloak => "magiccloak"@,
        SpellKeywords::MagicDamageFire => "magicdamagefire"@,
        SpellKeywords::MagicDamageFrost => "magicdamagefrost"@,
        SpellKeywords::MagicDamageResist => "magicdamageresist"@,
        SpellKeywords::MagicDamageShock => "magicdamageshock"@,
        SpellKeywords::MagicInfluence => "magicinfluence"@,
        SpellKeywords::MagicInfluenceCharm => "magicinfluencecharm"@,
        SpellKeywords::MagicInfluenceFear => "magicinfluencefear"@,
        SpellKeywords::MagicInfluenceFrenzy => "magicinfluencefrenzy"@,
        SpellKeywords::MagicInvisibility => "magicinvisibility"@,
        SpellKeywords::MagicNightEye => "magicnighteye"@,
        SpellKeywords::MagicParalysis => "magicparalysis"@,
        SpellKeywords::MagicRestoreHealth => "magicrestorehealth"@,
        SpellKeywords::MagicRune => "magicrune"@,
        SpellKeywords::MagicSlow => "magicslow"@,
        SpellKeywords::MagicSummonFamiliar => "magicsummonfamiliar"@,
        SpellKeywords::MagicSummonFire => "magicsummonfire"@,
        SpellKeywords::MagicSummonFrost => "magicsummonfrost"@,
        SpellKeywords::MagicSummonShock => "magicsummonshock"@,
        SpellKeywords::MagicSummonUndead => "magicsummonundead"@,
        SpellKeywords::MagicTelekinesis => "magictelekinesis"@,
        SpellKeywords::MagicTurnUndead => "magicturnundead"@,
        SpellKeywords::MagicWard => "magicward"@,
        SpellKeywords::MagicWeaponSpeed => "magicweaponspeed"@,
        SpellKeywords::MAG_MagicDamageSun => "mag_magicdamagesun"@,
        SpellKeywords::IconWind => "iconwind"@,
        SpellKeywords::IconMagicWind => "iconmagicwind"@,
        SpellKeywords::IconWater => "iconwater"@,
        SpellKeywords::IconMagicWater => "iconmagicwater"@,
        SpellKeywords::DAR_SummonAstralWyrm => "dar_summonastralwyrm"@,
        SpellKeywords::Shout_AnimalAllegiance => "shout_animalallegiance"@,
        SpellKeywords::Shout_AuraWhisper => "shout_aurawhisper"@,
        SpellKeywords::Shout_BattleFury => "shout_battlefury"@,
        SpellKeywords::Shout_BecomeEthereal => "shout_becomeethereal"@,
        SpellKeywords::Shout_BendWill => "shout_bendwill"@,
        SpellKeywords::Shout_CallDragon => "shout_calldragon"@,
        SpellKeywords::Shout_CallOfValor => "shout_callofvalor"@,
        SpellKeywords::Shout_ClearSkies => "shout_clearskies"@,
        SpellKeywords::Shout_Disarm => "shout_disarm"@,
        SpellKeywords::Shout_Dismay => "shout_dismay"@,
        SpellKeywords::Shout_DragonAspect => "shout_dragonaspect"@,
        SpellKeywords::Shout_Dragonrend => "shout_dragonrend"@,
        SpellKeywords::Shout_DrainVitality => "shout_drainvitality"@,
        SpellKeywords::Shout_ElementalFury => "shout_elementalfury"@,
        SpellKeywords::Shout_FireBreath => "shout_firebreath"@,
        SpellKeywords::Shout_FrostBreath => "shout_frostbreath"@,
        SpellKeywords::Shout_IceForm => "shout_iceform"@,
        SpellKeywords::Shout_KynesPeace => "shout_kynespeace"@,
        SpellKeywords::Shout_MarkedForDeath => "shout_markedfordeath"@,
        SpellKeywords::Shout_Slowtime => "shout_slowtime"@,
        SpellKeywords::Shout_SoulTear => "shout_soultear"@,
        SpellKeywords::Shout_Stormcall => "shout_stormcall"@,
        SpellKeywords::Shout_SummonDurnehviir => "shout_summondurnehviir"@,
        SpellKeywords::Shout_ThrowVoice => "shout_throwvoice"@,
        SpellKeywords::Shout_UnrelentingForce => "shout_unrelentingforce"@,
        SpellKeywords::Shout_WhirlwindSprint => "shout_whirlwindsprint"@,
        SpellKeywords::Shout_SoulCairnSummon => "shout_soulcairnsummon"@,
        SpellKeywords::Shout_PhantomForm => "shout_phantomform"@,
        SpellKeywords::Shout_LightningBreath => "shout_lightningbreath"@,
        SpellKeywords::Shout_PoisonBreath => "shout_poisonbreath"@,
        SpellKeywords::Shout_AlessiasLove => "shout_alessiaslove"@,
        SpellKeywords::Shout_Annihilate => "shout_annihilate"@,
        SpellKeywords::Shout_ArcaneHelix => "shout_arcanehelix"@,
        SpellKeywords::Shout_Armageddon => "shout_armageddon"@,
        SpellKeywords::Shout_Curse => "shout_curse"@,
        SpellKeywords::Shout_DanceOfTheDead => "shout_danceofthedead"@,
        SpellKeywords::Shout_Earthquake => "shout_earthquake"@,
        SpellKeywords::Shout_EssenceRip => "shout_essencerip"@,
        SpellKeywords::Shout_Evocation => "shout_evocation"@,
        SpellKeywords::Shout_Geomagnetism => "shout_geomagnetism"@,
        SpellKeywords::Shout_Iceborn => "shout_iceborn"@,
        SpellKeywords::Shout_JonesShadow => "shout_jonesshadow"@,
        SpellKeywords::Shout_Kingsbane => "shout_kingsbane"@,
        SpellKeywords::Shout_Lifestream => "shout_lifestream"@,
        SpellKeywords::Shout_LightningShield => "shout_lightningshield"@,
        SpellKeywords::Shout_Oblivion => "shout_oblivion"@,
        SpellKeywords::Shout_PhantomDecoy => "shout_phantomdecoy"@,
        SpellKeywords::Shout_Riftwalk => "shout_riftwalk"@,
        SpellKeywords::Shout_Shattersphere => "shout_shattersphere"@,
        SpellKeywords::Shout_ShorsWrath => "shout_shorswrath"@,
        SpellKeywords::Shout_ShroudOfSnowfall => "shout_shroudofsnowfall"@,
        SpellKeywords::Shout_SpeakUntoTheStars => "shout_speakuntothestars"@,
        SpellKeywords::Shout_SplinterTwins => "shout_splintertwins"@,
        SpellKeywords::Shout_Stormblast => "shout_stormblast"@,
        SpellKeywords::Shout_TheConqueror => "shout_theconqueror"@,
        SpellKeywords::Shout_Trueshot => "shout_trueshot"@,
        SpellKeywords::Shout_WailOfTheBanshee => "shout_wailofthebanshee"@,
        SpellKeywords::Shout_Wanderlust => "shout_wanderlust"@,
        SpellKeywords::Shout_Warcry => "shout_warcry"@,
        SpellKeywords::ClassArcane => "classarcane"@,
        SpellKeywords::ClassArtificer => "classartificer"@,
        SpellKeywords::ClassAsh => "classash"@,
        SpellKeywords::ClassAstral => "classastral"@,
        SpellKeywords::ClassBard => "classbard"@,
        SpellKeywords::ClassBlood => "classblood"@,
        SpellKeywords::ClassDruid => "classdruid"@,
        SpellKeywords::ClassDunmer => "classdunmer"@,
        SpellKeywords::ClassEarth => "classearth"@,
        SpellKeywords::ClassEldritch => "classeldritch"@,
        SpellKeywords::ClassFire => "classfire"@,
        SpellKeywords::ClassFrost => "classfrost"@,
        SpellKeywords::ClassHoly => "classholy"@,
        SpellKeywords::ClassMind => "classmind"@,
        SpellKeywords::ClassNecromancy => "classnecromancy"@,
        SpellKeywords::ClassPoison => "classpoison"@,
        SpellKeywords::ClassRace_Altmer => "classrace_altmer"@,
        SpellKeywords::ClassRace_Argonian => "classrace_argonian"@,
        SpellKeywords::ClassRace_Bosmer => "classrace_bosmer"@,
        SpellKeywords::ClassRace_Breton => "classrace_breton"@,
        SpellKeywords::ClassRace_Dunmer => "classrace_dunmer"@,
        SpellKeywords::ClassRace_Imperial => "classrace_imperial"@,
        SpellKeywords::ClassRace_Khajiit => "classrace_khajiit"@,
        SpellKeywords::ClassRace_Nord => "classrace_nord"@,
        SpellKeywords::ClassRace_Orsimer => "classrace_orsimer"@,
        SpellKeywords::ClassRace_Other => "classrace_other"@,
        SpellKeywords::ClassRace_Redguard => "classrace_redguard"@,
        SpellKeywords::ClassRace_Vampire => "classrace_vampire"@,
        SpellKeywords::ClassRace_Werebeast => "classrace_werebeast"@,
        SpellKeywords::ClassShadow => "classshadow"@,
        SpellKeywords::ClassShock => "classshock"@,
        SpellKeywords::ClassSurvival_Needs => "classsurvival_needs"@,
        SpellKeywords::ClassSurvival_Wilderness => "classsurvival_wilderness"@,
        SpellKeywords::ClassSurvival => "classsurvival"@,
        SpellKeywords::ClassUtility => "classutility"@,
        SpellKeywords::ClassVampire => "classvampire"@,
        SpellKeywords::ClassWater => "classwater"@,
        SpellKeywords::ClassWind => "classwind"@,
        SpellKeywords::ClassWitcher => "classwitcher"@,
        SpellKeywords::DeliverTouch => "delivertouch"@,
        SpellKeywords::PowerAction_Bag => "poweraction_bag"@,
        SpellKeywords::PowerAction_Bard => "poweraction_bard"@,
        SpellKeywords::PowerAction_Bathe => "poweraction_bathe"@,
        SpellKeywords::PowerAction_Bless => "poweraction_bless"@,
        SpellKeywords::PowerAction_BuryCorpse => "poweraction_burycorpse"@,
        SpellKeywords::PowerAction_Campfire => "poweraction_campfire"@,
        SpellKeywords::PowerAction_Coin => "poweraction_coin"@,
        SpellKeywords::PowerAction_CommandFollower => "poweraction_commandfollower"@,
        SpellKeywords::PowerAction_Craft => "poweraction_craft"@,
        SpellKeywords::PowerAction_FillWater => "poweraction_fillwater"@,
        SpellKeywords::PowerAction_Goggles => "poweraction_goggles"@,
        SpellKeywords::PowerAction_GogglesSight => "poweraction_gogglessight"@,
        SpellKeywords::PowerAction_HarvestCorpse => "poweraction_harvestcorpse"@,
        SpellKeywords::PowerAction_HarvestGather => "poweraction_harvestgather"@,
        SpellKeywords::PowerAction_HarvestWood => "poweraction_harvestwood"@,
        SpellKeywords::PowerAction_Horse => "poweraction_horse"@,
        SpellKeywords::PowerAction_Influence => "poweraction_influence"@,
        SpellKeywords::PowerAction_InfluenceEngage => "poweraction_influenceengage"@,
        SpellKeywords::PowerAction_Instincts => "poweraction_instincts"@,
        SpellKeywords::PowerAction_Lantern => "poweraction_lantern"@,
        SpellKeywords::PowerAction_PeekKeyhole => "poweraction_peekkeyhole"@,
        SpellKeywords::PowerAction_PitchTent => "poweraction_pitchtent"@,
        SpellKeywords::PowerAction_Potion => "poweraction_potion"@,
        SpellKeywords::PowerAction_Pray => "poweraction_pray"@,
        SpellKeywords::PowerAction_Relax => "poweraction_relax"@,
        SpellKeywords::PowerAction_Speech => "poweraction_speech"@,
        SpellKeywords::PowerAction_StatusFrostfall => "poweraction_statusfrostfall"@,
        SpellKeywords::PowerAction_StatusSunhelm => "poweraction_statussunhelm"@,
        SpellKeywords::PowerAction_TameAnimal => "poweraction_tameanimal"@,
        SpellKeywords::PowerAction_Train => "poweraction_train"@,
        SpellKeywords::PowerAction_WeaponGrip => "poweraction_weapongrip"@,
        SpellKeywords::PowerAction => "poweraction"@,
        SpellKeywords::PowerAlteration => "poweralteration"@,
        SpellKeywords::PowerCheat => "powercheat"@,
        SpellKeywords::PowerConfig => "powerconfig"@,
        SpellKeywords::PowerConfigWeatherChanger => "powerconfigweatherchanger"@,
        SpellKeywords::PowerGrand => "powergrand"@,
        SpellKeywords::Spell_Enchant => "spell_enchant"@,
        SpellKeywords::SpellAbsorb_Magicka => "spellabsorb_magicka"@,
        SpellKeywords::SpellAbsorb_MagickaCircle => "spellabsorb_magickacircle"@,
        SpellKeywords::SpellAbsorb_MagickaCloak => "spellabsorb_magickacloak"@,
        SpellKeywords::SpellAbsorb_Stamina => "spellabsorb_stamina"@,
        SpellKeywords::SpellAbsorb_StaminaCircle => "spellabsorb_staminacircle"@,
        SpellKeywords::SpellAbsorb_StaminaCloak => "spellabsorb_staminacloak"@,
        SpellKeywords::SpellAssist_DamageDruid => "spellassist_damagedruid"@,
        SpellKeywords::SpellAssist_MovementSpeedDruid => "spellassist_movementspeeddruid"@,
        SpellKeywords::SpellAssist => "spellassist"@,
        SpellKeywords::SpellBound_Ammo => "spellbound_ammo"@,
        SpellKeywords::SpellBound_Armor => "spellbound_armor"@,
        SpellKeywords::SpellBound_MiscItem => "spellbound_miscitem"@,
        SpellKeywords::SpellBound_Weapon => "spellbound_weapon"@,
        SpellKeywords::SpellControl => "spellcontrol"@,
        SpellKeywords::SpellCounter_Astral => "spellcounter_astral"@,
        SpellKeywords::SpellCounter_BloodDruid => "spellcounter_blooddruid"@,
        SpellKeywords::SpellCounter_Druid => "spellcounter_druid"@,
        SpellKeywords::SpellCounter_DruidHeal => "spellcounter_druidheal"@,
        SpellKeywords::SpellCounter_Fire => "spellcounter_fire"@,
        SpellKeywords::SpellCure => "spellcure"@,
        SpellKeywords::SpellCurse_Deconstruct => "spellcurse_deconstruct"@,
        SpellKeywords::SpellCurse_DruidRoot => "spellcurse_druidroot"@,
        SpellKeywords::SpellCurse_Shadow => "spellcurse_shadow"@,
        SpellKeywords::SpellCurse => "spellcurse"@,
        SpellKeywords::SpellDamage_Arcane => "spelldamage_arcane"@,
        SpellKeywords::SpellDamage_ArcaneCloak => "spelldamage_arcanecloak"@,
        SpellKeywords::SpellDamage_ArcaneFire => "spelldamage_arcanefire"@,
        SpellKeywords::SpellDamage_ArcaneFireCloak => "spelldamage_arcanefirecloak"@,
        SpellKeywords::SpellDamage_Ash => "spelldamage_ash"@,
        SpellKeywords::SpellDamage_AshCloak => "spelldamage_ashcloak"@,
        SpellKeywords::SpellDamage_AshFire => "spelldamage_ashfire"@,
        SpellKeywords::SpellDamage_AshFireCloak => "spelldamage_ashfirecloak"@,
        SpellKeywords::SpellDamage_Astral => "spelldamage_astral"@,
        SpellKeywords::SpellDamage_AstralCloak => "spelldamage_astralcloak"@,
        SpellKeywords::SpellDamage_Blood => "spelldamage_blood"@,
        SpellKeywords::SpellDamage_BloodCloak => "spelldamage_bloodcloak"@,
        SpellKeywords::SpellDamage_BloodShock => "spelldamage_bloodshock"@,
        SpellKeywords::SpellDamage_BloodShockCloak => "spelldamage_bloodshockcloak"@,
        SpellKeywords::SpellDamage_Construct => "spelldamage_construct"@,
        SpellKeywords::SpellDamage_Deconstruct => "spelldamage_deconstruct"@,
        SpellKeywords::SpellDamage_DeconstructCloak => "spelldamage_deconstructcloak"@,
        SpellKeywords::SpellDamage_Disease => "spelldamage_disease"@,
        SpellKeywords::SpellDamage_DiseaseCloak => "spelldamage_diseasecloak"@,
        SpellKeywords::SpellDamage_Earth => "spelldamage_earth"@,
        SpellKeywords::SpellDamage_EarthCloak => "spelldamage_earthcloak"@,
        SpellKeywords::SpellDamage_Fire => "spelldamage_fire"@,
        SpellKeywords::SpellDamage_FireArcane => "spelldamage_firearcane"@,
        SpellKeywords::SpellDamage_FireArcaneCloak => "spelldamage_firearcanecloak"@,
        SpellKeywords::SpellDamage_FireCloak => "spelldamage_firecloak"@,
        SpellKeywords::SpellDamage_FireCloakDunmer => "spelldamage_firecloakdunmer"@,
        SpellKeywords::SpellDamage_FireCold => "spelldamage_firecold"@,
        SpellKeywords::SpellDamage_FireColdCloak => "spelldamage_firecoldcloak"@,
        SpellKeywords::SpellDamage_FireShock => "spelldamage_fireshock"@,
        SpellKeywords::SpellDamage_FireShockCloak => "spelldamage_fireshockcloak"@,
        SpellKeywords::SpellDamage_FireShockFrost => "spelldamage_fireshockfrost"@,
        SpellKeywords::SpellDamage_FireShockFrostCloak => "spelldamage_fireshockfrostcloak"@,
        SpellKeywords::SpellDamage_Force => "spelldamage_force"@,
        SpellKeywords::SpellDamage_ForceCloak => "spelldamage_forcecloak"@,
        SpellKeywords::SpellDamage_Frost => "spelldamage_frost"@,
        SpellKeywords::SpellDamage_FrostCloak => "spelldamage_frostcloak"@,
        SpellKeywords::SpellDamage_FrostFire => "spelldamage_frostfire"@,
        SpellKeywords::SpellDamage_FrostFireCloak => "spelldamage_frostfirecloak"@,
        SpellKeywords::SpellDamage_Holy => "spelldamage_holy"@,
        SpellKeywords::SpellDamage_HolyAstral => "spelldamage_holyastral"@,
        SpellKeywords::SpellDamage_HolyAstralCloak => "spelldamage_holyastralcloak"@,
        SpellKeywords::SpellDamage_HolyCloak => "spelldamage_holycloak"@,
        SpellKeywords::SpellDamage_HolyLunar => "spelldamage_holylunar"@,
        SpellKeywords::SpellDamage_HolyLunarCloak => "spelldamage_holylunarcloak"@,
        SpellKeywords::SpellDamage_Light => "spelldamage_light"@,
        SpellKeywords::SpellDamage_LightCloak => "spelldamage_lightcloak"@,
        SpellKeywords::SpellDamage_Necrotic => "spelldamage_necrotic"@,
        SpellKeywords::SpellDamage_NecroticCloak => "spelldamage_necroticcloak"@,
        SpellKeywords::SpellDamage_NecroticFire => "spelldamage_necroticfire"@,
        SpellKeywords::SpellDamage_NecroticFireCloak => "spelldamage_necroticfirecloak"@,
        SpellKeywords::SpellDamage_Poison => "spelldamage_poison"@,
        SpellKeywords::SpellDamage_PoisonBug => "spelldamage_poisonbug"@,
        SpellKeywords::SpellDamage_PoisonBugCloak => "spelldamage_poisonbugcloak"@,
        SpellKeywords::SpellDamage_PoisonCloak => "spelldamage_poisoncloak"@,
        SpellKeywords::SpellDamage_PoisonDoomstone => "spelldamage_poisondoomstone"@,
        SpellKeywords::SpellDamage_PoisonEldritch => "spelldamage_poisoneldritch"@,
        SpellKeywords::SpellDamage_PoisonEldritchCloak => "spelldamage_poisoneldritchcloak"@,
        SpellKeywords::SpellDamage_Shadow => "spelldamage_shadow"@,
        SpellKeywords::SpellDamage_ShadowCloak => "spelldamage_shadowcloak"@,
        SpellKeywords::SpellDamage_Shock => "spelldamage_shock"@,
        SpellKeywords::SpellDamage_ShockArc => "spelldamage_shockarc"@,
        SpellKeywords::SpellDamage_ShockArcCloak => "spelldamage_shockarccloak"@,
        SpellKeywords::SpellDamage_ShockCloak => "spelldamage_shockcloak"@,
        SpellKeywords::SpellDamage_ShockStorm => "spelldamage_shockstorm"@,
        SpellKeywords::SpellDamage_ShockStormCloak => "spelldamage_shockstormcloak"@,
        SpellKeywords::SpellDamage_Sonic => "spelldamage_sonic"@,
        SpellKeywords::SpellDamage_SonicCloak => "spelldamage_soniccloak"@,
        SpellKeywords::SpellDamage_Steam => "spelldamage_steam"@,
        SpellKeywords::SpellDamage_SteamCloak => "spelldamage_steamcloak"@,
        SpellKeywords::SpellDamage_Water => "spelldamage_water"@,
        SpellKeywords::SpellDamage_WaterCloak => "spelldamage_watercloak"@,
        SpellKeywords::SpellDamage_Wind => "spelldamage_wind"@,
        SpellKeywords::SpellDamage_WindCloak => "spelldamage_windcloak"@,
        SpellKeywords::SpellDispel => "spelldispel"@,
        SpellKeywords::SpellDivination => "spelldivination"@,
        SpellKeywords::SpellEnchant => "spellenchant"@,
        SpellKeywords::SpellEnhance_Attack => "spellenhance_attack"@,
        SpellKeywords::SpellEnhance_Blood => "spellenhance_blood"@,
        SpellKeywords::SpellEnhance_CarryWeight => "spellenhance_carryweight"@,
        SpellKeywords::SpellEnhance_Casting => "spellenhance_casting"@,
        SpellKeywords::SpellEnhance_CastingDruid => "spellenhance_castingdruid"@,
        SpellKeywords::SpellEnhance_CastingEldritch => "spellenhance_castingeldritch"@,
        SpellKeywords::SpellEnhance_CritShadowInvis => "spellenhance_critshadowinvis"@,
        SpellKeywords::SpellEnhance_Damage => "spellenhance_damage"@,
        SpellKeywords::SpellEnhance_DamageArcane => "spellenhance_damagearcane"@,
        SpellKeywords::SpellEnhance_DamageAshFire => "spellenhance_damageashfire"@,
        SpellKeywords::SpellEnhance_DamageBlood => "spellenhance_damageblood"@,
        SpellKeywords::SpellEnhance_DamageBloodDruid => "spellenhance_damageblooddruid"@,
        SpellKeywords::SpellEnhance_DamageDruidHunter => "spellenhance_damagedruidhunter"@,
        SpellKeywords::SpellEnhance_DamageFire => "spellenhance_damagefire"@,
        SpellKeywords::SpellEnhance_DamageFrost => "spellenhance_damagefrost"@,
        SpellKeywords::SpellEnhance_DamageHolyAstral => "spellenhance_damageholyastral"@,
        SpellKeywords::SpellEnhance_DamageHolyLunar => "spellenhance_damageholylunar"@,
        SpellKeywords::SpellEnhance_DamagePoison => "spellenhance_damagepoison"@,
        SpellKeywords::SpellEnhance_DamagePoisonEldritch => "spellenhance_damagepoisoneldritch"@,
        SpellKeywords::SpellEnhance_DamageShadow => "spellenhance_damageshadow"@,
        SpellKeywords::SpellEnhance_DamageShock => "spellenhance_damageshock"@,
        SpellKeywords::SpellEnhance_DamageShockArc => "spellenhance_damageshockarc"@,
        SpellKeywords::SpellEnhance_Dodge => "spellenhance_dodge"@,
        SpellKeywords::SpellEnhance_Eldritch => "spellenhance_eldritch"@,
        SpellKeywords::SpellEnhance_EldritchTome => "spellenhance_eldritchtome"@,
        SpellKeywords::SpellEnhance_Evasion => "spellenhance_evasion"@,
        SpellKeywords::SpellEnhance_EvasionDruid => "spellenhance_evasiondruid"@,
        SpellKeywords::SpellEnhance_Fall => "spellenhance_fall"@,
        SpellKeywords::SpellEnhance_Flight => "spellenhance_flight"@,
        SpellKeywords::SpellEnhance_Health => "spellenhance_health"@,
        SpellKeywords::SpellEnhance_Jump => "spellenhance_jump"@,
        SpellKeywords::SpellEnhance_MovementSpeed => "spellenhance_movementspeed"@,
        SpellKeywords::SpellEnhance_MovementSpeedDruid => "spellenhance_movementspeeddruid"@,
        SpellKeywords::SpellEnhance_Regen => "spellenhance_regen"@,
        SpellKeywords::SpellEnhance_RegenShadowInvis => "spellenhance_regenshadowinvis"@,
        SpellKeywords::SpellEnhance_Sight => "spellenhance_sight"@,
        SpellKeywords::SpellEnhance_SightKhajiit => "spellenhance_sightkhajiit"@,
        SpellKeywords::SpellEnhance_SightVampireBlood => "spellenhance_sightvampireblood"@,
        SpellKeywords::SpellEnhance_SightVampireShadow => "spellenhance_sightvampireshadow"@,
        SpellKeywords::SpellEnhance_SightWerebeast => "spellenhance_sightwerebeast"@,
        SpellKeywords::SpellEnhance_SpellCost => "spellenhance_spellcost"@,
        SpellKeywords::SpellEnhance_StaminaDruid => "spellenhance_staminadruid"@,
        SpellKeywords::SpellEnhance_Swim => "spellenhance_swim"@,
        SpellKeywords::SpellEnhance_WaterBreath => "spellenhance_waterbreath"@,
        SpellKeywords::SpellEnhance_WaterWalk => "spellenhance_waterwalk"@,
        SpellKeywords::SpellEthereal => "spellethereal"@,
        SpellKeywords::SpellForce => "spellforce"@,
        SpellKeywords::SpellHarvest => "spellharvest"@,
        SpellKeywords::SpellHeal_Construct => "spellheal_construct"@,
        SpellKeywords::SpellHeal_Daedra => "spellheal_daedra"@,
        SpellKeywords::SpellHeal_Living => "spellheal_living"@,
        SpellKeywords::SpellHeal_LivingCircle => "spellheal_livingcircle"@,
        SpellKeywords::SpellHeal_LivingWater => "spellheal_livingwater"@,
        SpellKeywords::SpellHeal_Self => "spellheal_self"@,
        SpellKeywords::SpellHeal_SelfCloak => "spellheal_selfcloak"@,
        SpellKeywords::SpellHeal_Undead => "spellheal_undead"@,
        SpellKeywords::SpellLight => "spelllight"@,
        SpellKeywords::SpellMind_Charm => "spellmind_charm"@,
        SpellKeywords::SpellMind_CharmImperial => "spellmind_charmimperial"@,
        SpellKeywords::SpellMind_Control => "spellmind_control"@,
        SpellKeywords::SpellMind_ControlBosmer => "spellmind_controlbosmer"@,
        SpellKeywords::SpellMind_ControlVampire => "spellmind_controlvampire"@,
        SpellKeywords::SpellMind_Courage => "spellmind_courage"@,
        SpellKeywords::SpellMind_Fear => "spellmind_fear"@,
        SpellKeywords::SpellMind_FearNord => "spellmind_fearnord"@,
        SpellKeywords::SpellMind_FearVampire => "spellmind_fearvampire"@,
        SpellKeywords::SpellMind_Frenzy => "spellmind_frenzy"@,
        SpellKeywords::SpellMind_FrenzyShadow => "spellmind_frenzyshadow"@,
        SpellKeywords::SpellMind_Paralysis => "spellmind_paralysis"@,
        SpellKeywords::SpellMind_Rally => "spellmind_rally"@,
        SpellKeywords::SpellParalysis_Ash => "spellparalysis_ash"@,
        SpellKeywords::SpellParalysis_AshCloak => "spellparalysis_ashcloak"@,
        SpellKeywords::SpellParalysis_Druid => "spellparalysis_druid"@,
        SpellKeywords::SpellParalysis => "spellparalysis"@,
        SpellKeywords::SpellProject => "spellproject"@,
        SpellKeywords::SpellProtect_Damage => "spellprotect_damage"@,
        SpellKeywords::SpellProtect_ElementFire => "spellprotect_elementfire"@,
        SpellKeywords::SpellProtect_ElementFrost => "spellprotect_elementfrost"@,
        SpellKeywords::SpellProtect_ElementPoison => "spellprotect_elementpoison"@,
        SpellKeywords::SpellProtect_ElementShock => "spellprotect_elementshock"@,
        SpellKeywords::SpellProtect_Magic => "spellprotect_magic"@,
        SpellKeywords::SpellProtect_Warmth => "spellprotect_warmth"@,
        SpellKeywords::SpellReanimate => "spellreanimate"@,
        SpellKeywords::SpellReanimateDoomstone => "spellreanimatedoomstone"@,
        SpellKeywords::SpellReflect_Druid => "spellreflect_druid"@,
        SpellKeywords::SpellRestore_Exposure => "spellrestore_exposure"@,
        SpellKeywords::SpellRestore_Magicka => "spellrestore_magicka"@,
        SpellKeywords::SpellRestore_MagickaCircle => "spellrestore_magickacircle"@,
        SpellKeywords::SpellRestore_MagickaWater => "spellrestore_magickawater"@,
        SpellKeywords::SpellRestore_Stamina => "spellrestore_stamina"@,
        SpellKeywords::SpellRestore_StaminaCircle => "spellrestore_staminacircle"@,
        SpellKeywords::SpellRestore_StaminaDruid => "spellrestore_staminadruid"@,
        SpellKeywords::SpellRestore_Warmth => "spellrestore_warmth"@,
        SpellKeywords::SpellSacrifice_Blood => "spellsacrifice_blood"@,
        SpellKeywords::SpellSacrifice => "spellsacrifice"@,
        SpellKeywords::SpellShapechange_Vampire => "spellshapechange_vampire"@,
        SpellKeywords::SpellShapechange_Werebeast => "spellshapechange_werebeast"@,
        SpellKeywords::SpellShapechange => "spellshapechange"@,
        SpellKeywords::SpellShield_Druid => "spellshield_druid"@,
        SpellKeywords::SpellShield_Warmth => "spellshield_warmth"@,
        SpellKeywords::SpellSilence => "spellsilence"@,
        SpellKeywords::SpellSoulTrap => "spellsoultrap"@,
        SpellKeywords::SpellSoulTrapCloak => "spellsoultrapcloak"@,
        SpellKeywords::SpellSpace_Banish => "spellspace_banish"@,
        SpellKeywords::SpellSpace_Teleport => "spellspace_teleport"@,
        SpellKeywords::SpellSpace => "spellspace"@,
        SpellKeywords::SpellStealth_Invisibility => "spellstealth_invisibility"@,
        SpellKeywords::SpellStealth_InvisibilityDoomstone => "spellstealth_invisibilitydoomstone"@,
        SpellKeywords::SpellStealth_InvisibilityDruid => "spellstealth_invisibilitydruid"@,
        SpellKeywords::SpellStealth_InvisibilityVampire => "spellstealth_invisibilityvampire"@,
        SpellKeywords::SpellStealth => "spellstealth"@,
        SpellKeywords::SpellSummon_Construct => "spellsummon_construct"@,
        SpellKeywords::SpellSummon_Creature => "spellsummon_creature"@,
        SpellKeywords::SpellSummon_Daedra => "spellsummon_daedra"@,
        SpellKeywords::SpellSummon_Object => "spellsummon_object"@,
        SpellKeywords::SpellSummon_Spirit => "spellsummon_spirit"@,
        SpellKeywords::SpellSummon_Undead => "spellsummon_undead"@,
        SpellKeywords::SpellTeleport => "spellteleport"@,
        SpellKeywords::SpellTime => "spelltime"@,
        SpellKeywords::SpellTransmute => "spelltransmute"@,
        SpellKeywords::SpellTurnUndeadCircle => "spellturnundeadcircle"@,
        SpellKeywords::SpellUnlock => "spellunlock"@,
        SpellKeywords::SpellWard => "spellward"@,
    }
}

/// The keyword at position `i` of the declaration order.
pub open spec fn keyword_at(i: int) -> Option<SpellKeywords> {
    if i < 0 || i >= 415 {
        None
    } else {
        if i < 207 {
            if i < 103 {
                if i < 51 {
                    if i < 25 {
                        if i < 12 {
                            if i < 6 {
                                if i < 3 {
                                    if i < 1 {
                                        Some(SpellKeywords::Archetype_CarryWeight)
                                    } else {
                                        if i < 2 {
                                            Some(SpellKeywords::Archetype_Cure)
                                        } else {
                                            Some(SpellKeywords::Archetype_Detect)
                                        }
                                    }
                                } else {
                                    if i < 4 {
                                        Some(SpellKeywords::Archetype_Guide)
                                    } else {
                                        if i < 5 {
                                            Some(SpellKeywords::Archetype_Light)
                                        } else {
                                            Some(SpellKeywords::Archetype_NightEye)
                                        }
                                    }
                                }
                            } else {
                                if i < 9 {
                                    if i < 7 {
                                        Some(SpellKeywords::Archetype_Protect)
                                    } else {
                                        if i < 8 {
                                            Some(SpellKeywords::Archetype_Reflect)
                                        } else {
                                            Some(SpellKeywords::Archetype_Resist)
                                        }
                                    }
                                } else {
                                    if i < 10 {
                                        Some(SpellKeywords::Archetype_Root)
                                    } else {
                                        if i < 11 {
                                            Some(SpellKeywords::Archetype_Silence)
                                        } else {
                                            Some(SpellKeywords::Archetype_Teleport)
                                        }
                                    }
                                }
                            }
                        } else {
                            if i < 18 {
                                if i < 15 {
                                    if i < 13 {
                                        Some(SpellKeywords::Archetype_Waterbreathing)
                                    } else {
                                        if i < 14 {
                                            Some(SpellKeywords::Archetype_Waterwalking)
                                        } else {
                                            Some(SpellKeywords::Archetype_WeaponBuff)
                                        }
                                    }
                                } else {
                                    if i < 16 {
                                        Some(SpellKeywords::BoundWarAxe)
                                    } else {
                                        if i < 17 {
                                            Some(SpellKeywords::BoundBattleAxe)
                                        } else {
                                            Some(SpellKeywords::BoundBow)
                                        }
                                    }
                                }
                            } else {
                                if i < 21 {
                                    if i < 19 {
                                        Some(SpellKeywords::BoundDagger)
                                    } else {
                                        if i < 20 {
                                            Some(SpellKeywords::BoundHammer)
                                        } else {
                                            Some(SpellKeywords::BoundMace)
                                        }
                                    }
                                } else {
                                    if i < 23 {
                                        if i < 22 {
                                            Some(SpellKeywords::BoundShield)
                                        } else {
                                            Some(SpellKeywords::BoundSword)
                                        }
                                    } else {
                                        if i < 24 {
                                            Some(SpellKeywords::BoundGreatsword)
                                        } else {
                                            Some(SpellKeywords::MagicArmorSpell)
                                        }
                                    }
                                }
                            }
                        }
                    } else {
                        if i < 38 {
                            if i < 31 {
                                if i < 28 {
                                    if i < 26 {
                                        Some(SpellKeywords::MagicCloak)
                                    } else {
                                        if i < 27 {
                                            Some(SpellKeywords::MagicDamageFire)
                                        } else {
                                            Some(SpellKeywords::MagicDamageFrost)
                                        }
                                    }
                                } else {
                                    if i < 29 {
                                        Some(SpellKeywords::MagicDamageResist)
                                    } else {
                                        if i < 30 {
                                            Some(SpellKeywords::MagicDamageShock)
                                        } else {
                                            Some(SpellKeywords::MagicInfluence)
                                        }
                                    }
                                }
                            } else {
                                if i < 34 {
                                    if i < 32 {
                                        Some(SpellKeywords::MagicInfluenceCharm)
                                    } else {
                                        if i < 33 {
                                            Some(SpellKeywords::MagicInfluenceFear)
                                        } else {
                                            Some(SpellKeywords::MagicInfluenceFrenzy)
                                        }
                                    }
                                } else {
                                    if i < 36 {
                                        if i < 35 {
                                            Some(SpellKeywords::MagicInvisibility)
                                        } else {
                                            Some(SpellKeywords::MagicNightEye)
                                        }
                                    } else {
                                        if i < 37 {
                                            Some(SpellKeywords::MagicParalysis)
                                        } else {
                                            Some(SpellKeywords::MagicRestoreHealth)
                                        }
                                    }
                                }
                            }
                        } else {
                            if i < 44 {
                                if i < 41 {
                                    if i < 39 {
                                        Some(SpellKeywords::MagicRune)
                                    } else {
                                        if i < 40 {
                                            Some(SpellKeywords::MagicSlow)
                                        } else {
                                            Some(SpellKeywords::MagicSummonFamiliar)
                                        }
                                    }
                                } else {
                                    if i < 42 {
                                        Some(SpellKeywords::MagicSummonFire)
                                    } else {
                                        if i < 43 {
                                            Some(SpellKeywords::MagicSummonFrost)
                                        } else {
                                            Some(SpellKeywords::MagicSummonShock)
                                        }
                                    }
                                }
                            } else {
                                if i < 47 {
                                    if i < 45 {
                                        Some(SpellKeywords::MagicSummonUndead)
                                    } else {
                                        if i < 46 {
                                            Some(SpellKeywords::MagicTelekinesis)
                                        } else {
                                            Some(SpellKeywords::MagicTurnUndead)
                                        }
                                    }
                                } else {
                                    if i < 49 {
                                        if i < 48 {
                                            Some(SpellKeywords::MagicWard)
                                        } else {
                                            Some(SpellKeywords::MagicWeaponSpeed)
                                        }
                                    } else {
                                        if i < 50 {
                                            Some(SpellKeywords::MAG_MagicDamageSun)
                                        } else {
                                            Some(SpellKeywords::IconWind)
                                        }
                                    }
                                }
                            }
                        }
                    }
                } else {
                    if i < 77 {
                        if i < 64 {
                            if i < 57 {
                                if i < 54 {
                                    if i < 52 {
                                        Some(SpellKeywords::IconMagicWind)
                                    } else {
                                        if i < 53 {
                                            Some(SpellKeywords::IconWater)
                                        } else {
                                            Some(SpellKeywords::IconMagicWater)
                                        }
                                    }
                                } else {
                                    if i < 55 {
                                        Some(SpellKeywords::DAR_SummonAstralWyrm)
                                    } else {
                                        if i < 56 {
                                            Some(SpellKeywords::Shout_AnimalAllegiance)
                                        } else {
                                            Some(SpellKeywords::Shout_AuraWhisper)
                                        }
                                    }
                                }
                            } else {
                                if i < 60 {
                                    if i < 58 {
                                        Some(SpellKeywords::Shout_BattleFury)
                                    } else {
                                        if i < 59 {
                                            Some(SpellKeywords::Shout_BecomeEthereal)
                                        } else {
                                            Some(SpellKeywords::Shout_BendWill)
                                        }
                                    }
                                } else {
                                    if i < 62 {
                                        if i < 61 {
                                            Some(SpellKeywords::Shout_CallDragon)
                                        } else {
                                            Some(SpellKeywords::Shout_CallOfValor)
                                        }
                                    } else {
                                        if i < 63 {
                                            Some(SpellKeywords::Shout_ClearSkies)
                                        } else {
                                            Some(SpellKeywords::Shout_Disarm)
                                        }
                                    }
                                }
                            }
                        } else {
                            if i < 70 {
                                if i < 67 {
                                    if i < 65 {
                                        Some(SpellKeywords::Shout_Dismay)
                                    } else {
                                        if i < 66 {
                                            Some(SpellKeywords::Shout_DragonAspect)
                                        } else {
                                            Some(SpellKeywords::Shout_Dragonrend)
                                        }
                                    }
                                } else {
                                    if i < 68 {
                                        Some(SpellKeywords::Shout_DrainVitality)
                                    } else {
                                        if i < 69 {
                                            Some(SpellKeywords::Shout_ElementalFury)
                                        } else {
                                            Some(SpellKeywords::Shout_FireBreath)
                                        }
                                    }
                                }
                            } else {
                                if i < 73 {
                                    if i < 71 {
                                        Some(SpellKeywords::Shout_FrostBreath)
                                    } else {
                                        if i < 72 {
                                            Some(SpellKeywords::Shout_IceForm)
                                        } else {
                                            Some(SpellKeywords::Shout_KynesPeace)
                                        }
                                    }
                                } else {
                                    if i < 75 {
                                        if i < 74 {
                                            Some(SpellKeywords::Shout_MarkedForDeath)
                                        } else {
                                            Some(SpellKeywords::Shout_Slowtime)
                                        }
                                    } else {
                                        if i < 76 {
                                            Some(SpellKeywords::Shout_SoulTear)
                                        } else {
                                            Some(SpellKeywords::Shout_Stormcall)
                                        }
                                    }
                                }
                            }
                        }
                    } else {
                        if i < 90 {
                            if i < 83 {
                                if i < 80 {
                                    if i < 78 {
                                        Some(SpellKeywords::Shout_SummonDurnehviir)
                                    } else {
                                        if i < 79 {
                                            Some(SpellKeywords::Shout_ThrowVoice)
                                        } else {
                                            Some(SpellKeywords::Shout_UnrelentingForce)
                                        }
                                    }
                                } else {
                                    if i < 81 {
                                        Some(SpellKeywords::Shout_WhirlwindSprint)
                                    } else {
                                        if i < 82 {
                                            Some(SpellKeywords::Shout_SoulCairnSummon)
                                        } else {
                                            Some(SpellKeywords::Shout_PhantomForm)
                                        }
                                    }
                                }
                            } else {
                                if i < 86 {
                                    if i < 84 {
                                        Some(SpellKeywords::Shout_LightningBreath)
                                    } else {
                                        if i < 85 {
                                            Some(SpellKeywords::Shout_PoisonBreath)
                                        } else {
                                            Some(SpellKeywords::Shout_AlessiasLove)
                                        }
                                    }
                                } else {
                                    if i < 88 {
                                        if i < 87 {
                                            Some(SpellKeywords::Shout_Annihilate)
                                        } else {
                                            Some(SpellKeywords::Shout_ArcaneHelix)
                                        }
                                    } else {
                                        if i < 89 {
                                            Some(SpellKeywords::Shout_Armageddon)
                                        } else {
                                            Some(SpellKeywords::Shout_Curse)
                                        }
                                    }
                                }
                            }
                        } else {
                            if i < 96 {
                                if i < 93 {
                                    if i < 91 {
                                        Some(SpellKeywords::Shout_DanceOfTheDead)
                                    } else {
                                        if i < 92 {
                                            Some(SpellKeywords::Shout_Earthquake)
                                        } else {
                                            Some(SpellKeywords::Shout_EssenceRip)
                                        }
                                    }
                                } else {
                                    if i < 94 {
                                        Some(SpellKeywords::Shout_Evocation)
                                    } else {
                                        if i < 95 {
                                            Some(SpellKeywords::Shout_Geomagnetism)
                                        } else {
                                            Some(SpellKeywords::Shout_Iceborn)
                                        }
                                    }
                                }
                            } else {
                                if i < 99 {
                                    if i < 97 {
                                        Some(SpellKeywords::Shout_JonesShadow)
                                    } else {
                                        if i < 98 {
                                            Some(SpellKeywords::Shout_Kingsbane)
                                        } else {
                                            Some(SpellKeywords::Shout_Lifestream)
                                        }
                                    }
                                } else {
                                    if i < 101 {
                                        if i < 100 {
                                            Some(SpellKeywords::Shout_LightningShield)
                                        } else {
                                            Some(SpellKeywords::Shout_Oblivion)
                                        }
                                    } else {
                                        if i < 102 {
                                            Some(SpellKeywords::Shout_PhantomDecoy)
                                        } else {
                                            Some(SpellKeywords::Shout_Riftwalk)
                                        }
                                    }
                                }
                            }
                        }
                    }
                }
            } else {
                if i < 155 {
                    if i < 129 {
                        if i < 116 {
                            if i < 109 {
                                if i < 106 {
                                    if i < 104 {
                                        Some(SpellKeywords::Shout_Shattersphere)
                                    } else {
                                        if i < 105 {
                                            Some(SpellKeywords::Shout_ShorsWrath)
                                        } else {
                                            Some(SpellKeywords::Shout_ShroudOfSnowfall)
                                        }
                                    }
                                } else {
                                    if i < 107 {
                                        Some(SpellKeywords::Shout_SpeakUntoTheStars)
                                    } else {
                                        if i < 108 {
                                            Some(SpellKeywords::Shout_SplinterTwins)
                                        } else {
                                            Some(SpellKeywords::Shout_Stormblast)
                                        }
                                    }
                                }
                            } else {
                                if i < 112 {
                                    if i < 110 {
                                        Some(SpellKeywords::Shout_TheConqueror)
                                    } else {
                                        if i < 111 {
                                            Some(SpellKeywords::Shout_Trueshot)
                                        } else {
                                            Some(SpellKeywords::Shout_WailOfTheBanshee)
                                        }
                                    }
                                } else {
                                    if i < 114 {
                                        if i < 113 {
                                            Some(SpellKeywords::Shout_Wanderlust)
                                        } else {
                                            Some(SpellKeywords::Shout_Warcry)
                                        }
                                    } else {
                                        if i < 115 {
                                            Some(SpellKeywords::ClassArcane)
                                        } else {
                                            Some(SpellKeywords::ClassArtificer)
                                        }
                                    }
                                }
                            }
                        } else {
                            if i < 122 {
                                if i < 119 {
                                    if i < 117 {
                                        Some(SpellKeywords::ClassAsh)
                                    } else {
                                        if i < 118 {
                                            Some(SpellKeywords::ClassAstral)
                                        } else {
                                            Some(SpellKeywords::ClassBard)
                                        }
                                    }
                                } else {
                                    if i < 120 {
                                        Some(SpellKeywords::ClassBlood)
                                    } else {
                                        if i < 121 {
                                            Some(SpellKeywords::ClassDruid)
                                        } else {
                                            Some(SpellKeywords::ClassDunmer)
                                        }
                                    }
                                }
                            } else {
                                if i < 125 {
                                    if i < 123 {
                                        Some(SpellKeywords::ClassEarth)
                                    } else {
                                        if i < 124 {
                                            Some(SpellKeywords::ClassEldritch)
                                        } else {
                                            Some(SpellKeywords::ClassFire)
                                        }
                                    }
                                } else {
                                    if i < 127 {
                                        if i < 126 {
                                            Some(SpellKeywords::ClassFrost)
                                        } else {
                                            Some(SpellKeywords::ClassHoly)
                                        }
                                    } else {
                                        if i < 128 {
                                            Some(SpellKeywords::ClassMind)
                                        } else {
                                            Some(SpellKeywords::ClassNecromancy)
                                        }
                                    }
                                }
                            }
                        }
                    } else {
                        if i < 142 {
                            if i < 135 {
                                if i < 132 {
                                    if i < 130 {
                                        Some(SpellKeywords::ClassPoison)
                                    } else {
                                        if i < 131 {
                                            Some(SpellKeywords::ClassRace_Altmer)
                                        } else {
                                            Some(SpellKeywords::ClassRace_Argonian)
                                        }
                                    }
                                } else {
                                    if i < 133 {
                                        Some(SpellKeywords::ClassRace_Bosmer)
                                    } else {
                                        if i < 134 {
                                            Some(SpellKeywords::ClassRace_Breton)
                                        } else {
                                            Some(SpellKeywords::ClassRace_Dunmer)
                                        }
                                    }
                                }
                            } else {
                                if i < 138 {
                                    if i < 136 {
                                        Some(SpellKeywords::ClassRace_Imperial)
                                    } else {
                                        if i < 137 {
                                            Some(SpellKeywords::ClassRace_Khajiit)
                                        } else {
                                            Some(SpellKeywords::ClassRace_Nord)
                                        }
                                    }
                                } else {
                                    if i < 140 {
                                        if i < 139 {
                                            Some(SpellKeywords::ClassRace_Orsimer)
                                        } else {
                                            Some(SpellKeywords::ClassRace_Other)
                                        }
                                    } else {
                                        if i < 141 {
                                            Some(SpellKeywords::ClassRace_Redguard)
                                        } else {
                                            Some(SpellKeywords::ClassRace_Vampire)
                                        }
                                    }
                                }
                            }
                        } else {
                            if i < 148 {
                                if i < 145 {
                                    if i < 143 {
                                        Some(SpellKeywords::ClassRace_Werebeast)
                                    } else {
                                        if i < 144 {
                                            Some(SpellKeywords::ClassShadow)
                                        } else {
                                            Some(SpellKeywords::ClassShock)
                                        }
                                    }
                                } else {
                                    if i < 146 {
                                        Some(SpellKeywords::ClassSurvival_Needs)
                                    } else {
                                        if i < 147 {
                                            Some(SpellKeywords::ClassSurvival_Wilderness)
                                        } else {
                                            Some(SpellKeywords::ClassSurvival)
                                        }
                                    }
                                }
                            } else {
                                if i < 151 {
                                    if i < 149 {
                                        Some(SpellKeywords::ClassUtility)
                                    } else {
                                        if i < 150 {
                                            Some(SpellKeywords::ClassVampire)
                                        } else {
                                            Some(SpellKeywords::ClassWater)
                                        }
                                    }
                                } else {
                                    if i < 153 {
                                        if i < 152 {
                                            Some(SpellKeywords::ClassWind)
                                        } else {
                                            Some(SpellKeywords::ClassWitcher)
                                        }
                                    } else {
                                        if i < 154 {
                                            Some(SpellKeywords::DeliverTouch)
                                        } else {
                                            Some(SpellKeywords::PowerAction_Bag)
                                        }
                                    }
                                }
                            }
                        }
                    }
                } else {
                    if i < 181 {
                        if i < 168 {
                            if i < 161 {
                                if i < 158 {
                                    if i < 156 {
                                        Some(SpellKeywords::PowerAction_Bard)
                                    } else {
                                        if i < 157 {
                                            Some(SpellKeywords::PowerAction_Bathe)
                                        } else {
                                            Some(SpellKeywords::PowerAction_Bless)
                                        }
                                    }
                                } else {
                                    if i < 159 {
                                        Some(SpellKeywords::PowerAction_BuryCorpse)
                                    } else {
                                        if i < 160 {
                                            Some(SpellKeywords::PowerAction_Campfire)
                                        } else {
                                            Some(SpellKeywords::PowerAction_Coin)
                                        }
                                    }
                                }
                            } else {
                                if i < 164 {
                                    if i < 162 {
                                        Some(SpellKeywords::PowerAction_CommandFollower)
                                    } else {
                                        if i < 163 {
                                            Some(SpellKeywords::PowerAction_Craft)
                                        } else {
                                            Some(SpellKeywords::PowerAction_FillWater)
                                        }
                                    }
                                } else {
                                    if i < 166 {
                                        if i < 165 {
                                            Some(SpellKeywords::PowerAction_Goggles)
                                        } else {
                                            Some(SpellKeywords::PowerAction_GogglesSight)
                                        }
                                    } else {
                                        if i < 167 {
                                            Some(SpellKeywords::PowerAction_HarvestCorpse)
                                        } else {
                                            Some(SpellKeywords::PowerAction_HarvestGather)
                                        }
                                    }
                                }
                            }
                        } else {
                            if i < 174 {
                                if i < 171 {
                                    if i < 169 {
                                        Some(SpellKeywords::PowerAction_HarvestWood)
                                    } else {
                                        if i < 170 {
                                            Some(SpellKeywords::PowerAction_Horse)
                                        } else {
                                            Some(SpellKeywords::PowerAction_Influence)
                                        }
                                    }
                                } else {
                                    if i < 172 {
                                        Some(SpellKeywords::PowerAction_InfluenceEngage)
                                    } else {
                                        if i < 173 {
                                            Some(SpellKeywords::PowerAction_Instincts)
                                        } else {
                                            Some(SpellKeywords::PowerAction_Lantern)
                                        }
                                    }
                                }
                            } else {
                                if i < 177 {
                                    if i < 175 {
                                        Some(SpellKeywords::PowerAction_PeekKeyhole)
                                    } else {
                                        if i < 176 {
                                            Some(SpellKeywords::PowerAction_PitchTent)
                                        } else {
                                            Some(SpellKeywords::PowerAction_Potion)
                                        }
                                    }
                                } else {
                                    if i < 179 {
                                        if i < 178 {
                                            Some(SpellKeywords::PowerAction_Pray)
                                        } else {
                                            Some(SpellKeywords::PowerAction_Relax)
                                        }
                                    } else {
                                        if i < 180 {
                                            Some(SpellKeywords::PowerAction_Speech)
                                        } else {
                                            Some(SpellKeywords::PowerAction_StatusFrostfall)
                                        }
                                    }
                                }
                            }
                        }
                    } else {
                        if i < 194 {
                            if i < 187 {
                                if i < 184 {
                                    if i < 182 {
                                        Some(SpellKeywords::PowerAction_StatusSunhelm)
                                    } else {
                                        if i < 183 {
                                            Some(SpellKeywords::PowerAction_TameAnimal)
                                        } else {
                                            Some(SpellKeywords::PowerAction_Train)
                                        }
                                    }
                                } else {
                                    if i < 185 {
                                        Some(SpellKeywords::PowerAction_WeaponGrip)
                                    } else {
                                        if i < 186 {
                                            Some(SpellKeywords::PowerAction)
                                        } else {
                                            Some(SpellKeywords::PowerAlteration)
                                        }
                                    }
                                }
                            } else {
                                if i < 190 {
                                    if i < 188 {
                                        Some(SpellKeywords::PowerCheat)
                                    } else {
                                        if i < 189 {
                                            Some(SpellKeywords::PowerConfig)
                                        } else {
                                            Some(SpellKeywords::PowerConfigWeatherChanger)
                                        }
                                    }
                                } else {
                                    if i < 192 {
                                        if i < 191 {
                                            Some(SpellKeywords::PowerGrand)
                                        } else {
                                            Some(SpellKeywords::Spell_Enchant)
                                        }
                                    } else {
                                        if i < 193 {
                                            Some(SpellKeywords::SpellAbsorb_Magicka)
                                        } else {
                                            Some(SpellKeywords::SpellAbsorb_MagickaCircle)
                                        }
                                    }
                                }
                            }
                        } else {
                            if i < 200 {
                                if i < 197 {
                                    if i < 195 {
                                        Some(SpellKeywords::SpellAbsorb_MagickaCloak)
                                    } else {
                                        if i < 196 {
                                            Some(SpellKeywords::SpellAbsorb_Stamina)
                                        } else {
                                            Some(SpellKeywords::SpellAbsorb_StaminaCircle)
                                        }
                                    }
                                } else {
                                    if i < 198 {
                                        Some(SpellKeywords::SpellAbsorb_StaminaCloak)
                                    } else {
                                        if i < 199 {
                                            Some(SpellKeywords::SpellAssist_DamageDruid)
                                        } else {
                                            Some(SpellKeywords::SpellAssist_MovementSpeedDruid)
                                        }
                                    }
                                }
                            } else {
                                if i < 203 {
                                    if i < 201 {
                                        Some(SpellKeywords::SpellAssist)
                                    } else {
                                        if i < 202 {
                                            Some(SpellKeywords::SpellBound_Ammo)
                                        } else {
                                            Some(SpellKeywords::SpellBound_Armor)
                                        }
                                    }
                                } else {
                                    if i < 205 {
                                        if i < 204 {
                                            Some(SpellKeywords::SpellBound_MiscItem)
                                        } else {
                                            Some(SpellKeywords::SpellBound_Weapon)
                                        }
                                    } else {
                                        if i < 206 {
                                            Some(SpellKeywords::SpellControl)
                                        } else {
                                            Some(SpellKeywords::SpellCounter_Astral)
                                        }
                                    }
                                }
                            }
                        }
                    }
                }
            }
        } else {
            if i < 311 {
                if i < 259 {
                    if i < 233 {
                        if i < 220 {
                            if i < 213 {
                                if i < 210 {
                                    if i < 208 {
                                        Some(SpellKeywords::SpellCounter_BloodDruid)
                                    } else {
                                        if i < 209 {
                                            Some(SpellKeywords::SpellCounter_Druid)
                                        } else {
                                            Some(SpellKeywords::SpellCounter_DruidHeal)
                                        }
                                    }
                                } else {
                                    if i < 211 {
                                        Some(SpellKeywords::SpellCounter_Fire)
                                    } else {
                                        if i < 212 {
                                            Some(SpellKeywords::SpellCure)
                                        } else {
                                            Some(SpellKeywords::SpellCurse_Deconstruct)
                                        }
                                    }
                                }
                            } else {
                                if i < 216 {
                                    if i < 214 {
                                        Some(SpellKeywords::SpellCurse_DruidRoot)
                                    } else {
                                        if i < 215 {
                                            Some(SpellKeywords::SpellCurse_Shadow)
                                        } else {
                                            Some(SpellKeywords::SpellCurse)
                                        }
                                    }
                                } else {
                                    if i < 218 {
                                        if i < 217 {
                                            Some(SpellKeywords::SpellDamage_Arcane)
                                        } else {
                                            Some(SpellKeywords::SpellDamage_ArcaneCloak)
                                        }
                                    } else {
                                        if i < 219 {
                                            Some(SpellKeywords::SpellDamage_ArcaneFire)
                                        } else {
                                            Some(SpellKeywords::SpellDamage_ArcaneFireCloak)
                                        }
                                    }
                                }
                            }
                        } else {
                            if i < 226 {
                                if i < 223 {
                                    if i < 221 {
                                        Some(SpellKeywords::SpellDamage_Ash)
                                    } else {
                                        if i < 222 {
                                            Some(SpellKeywords::SpellDamage_AshCloak)
                                        } else {
                                            Some(SpellKeywords::SpellDamage_AshFire)
                                        }
                                    }
                                } else {
                                    if i < 224 {
                                        Some(SpellKeywords::SpellDamage_AshFireCloak)
                                    } else {
                                        if i < 225 {
                                            Some(SpellKeywords::SpellDamage_Astral)
                                        } else {
                                            Some(SpellKeywords::SpellDamage_AstralCloak)
                                        }
                                    }
                                }
                            } else {
                                if i < 229 {
                                    if i < 227 {
                                        Some(SpellKeywords::SpellDamage_Blood)
                                    } else {
                                        if i < 228 {
                                            Some(SpellKeywords::SpellDamage_BloodCloak)
                                        } else {
                                            Some(SpellKeywords::SpellDamage_BloodShock)
                                        }
                                    }
                                } else {
                                    if i < 231 {
                                        if i < 230 {
                                            Some(SpellKeywords::SpellDamage_BloodShockCloak)
                                        } else {
                                            Some(SpellKeywords::SpellDamage_Construct)
                                        }
                                    } else {
                                        if i < 232 {
                                            Some(SpellKeywords::SpellDamage_Deconstruct)
                                        } else {
                                            Some(SpellKeywords::SpellDamage_DeconstructCloak)
                                        }
                                    }
                                }
                            }
                        }
                    } else {
                        if i < 246 {
                            if i < 239 {
                                if i < 236 {
                                    if i < 234 {
                                        Some(SpellKeywords::SpellDamage_Disease)
                                    } else {
                                        if i < 235 {
                                            Some(SpellKeywords::SpellDamage_DiseaseCloak)
                                        } else {
                                            Some(SpellKeywords::SpellDamage_Earth)
                                        }
                                    }
                                } else {
                                    if i < 237 {
                                        Some(SpellKeywords::SpellDamage_EarthCloak)
                                    } else {
                                        if i < 238 {
                                            Some(SpellKeywords::SpellDamage_Fire)
                                        } else {
                                            Some(SpellKeywords::SpellDamage_FireArcane)
                                        }
                                    }
                                }
                            } else {
                                if i < 242 {
                                    if i < 240 {
                                        Some(SpellKeywords::SpellDamage_FireArcaneCloak)
                                    } else {
                                        if i < 241 {
                                            Some(SpellKeywords::SpellDamage_FireCloak)
                                        } else {
                                            Some(SpellKeywords::SpellDamage_FireCloakDunmer)
                                        }
                                    }
                                } else {
                                    if i < 244 {
                                        if i < 243 {
                                            Some(SpellKeywords::SpellDamage_FireCold)
                                        } else {
                                            Some(SpellKeywords::SpellDamage_FireColdCloak)
                                        }
                                    } else {
                                        if i < 245 {
                                            Some(SpellKeywords::SpellDamage_FireShock)
                                        } else {
                                            Some(SpellKeywords::SpellDamage_FireShockCloak)
                                        }
                                    }
                                }
                            }
                        } else {
                            if i < 252 {
                                if i < 249 {
                                    if i < 247 {
                                        Some(SpellKeywords::SpellDamage_FireShockFrost)
                                    } else {
                                        if i < 248 {
                                            Some(SpellKeywords::SpellDamage_FireShockFrostCloak)
                                        } else {
                                            Some(SpellKeywords::SpellDamage_Force)
                                        }
                                    }
                                } else {
                                    if i < 250 {
                                        Some(SpellKeywords::SpellDamage_ForceCloak)
                                    } else {
                                        if i < 251 {
                                            Some(SpellKeywords::SpellDamage_Frost)
                                        } else {
                                            Some(SpellKeywords::SpellDamage_FrostCloak)
                                        }
                                    }
                                }
                            } else {
                                if i < 255 {
                                    if i < 253 {
                                        Some(SpellKeywords::SpellDamage_FrostFire)
                                    } else {
                                        if i < 254 {
                                            Some(SpellKeywords::SpellDamage_FrostFireCloak)
                                        } else {
                                            Some(SpellKeywords::SpellDamage_Holy)
                                        }
                                    }
                                } else {
                                    if i < 257 {
                                        if i < 256 {
                                            Some(SpellKeywords::SpellDamage_HolyAstral)
                                        } else {
                                            Some(SpellKeywords::SpellDamage_HolyAstralCloak)
                                        }
                                    } else {
                                        if i < 258 {
                                            Some(SpellKeywords::SpellDamage_HolyCloak)
                                        } else {
                                            Some(SpellKeywords::SpellDamage_HolyLunar)
                                        }
                                    }
                                }
                            }
                        }
                    }
                } else {
                    if i < 285 {
                        if i < 272 {
                            if i < 265 {
                                if i < 262 {
                                    if i < 260 {
                                        Some(SpellKeywords::SpellDamage_HolyLunarCloak)
                                    } else {
                                        if i < 261 {
                                            Some(SpellKeywords::SpellDamage_Light)
                                        } else {
                                            Some(SpellKeywords::SpellDamage_LightCloak)
                                        }
                                    }
                                } else {
                                    if i < 263 {
                                        Some(SpellKeywords::SpellDamage_Necrotic)
                                    } else {
                                        if i < 264 {
                                            Some(SpellKeywords::SpellDamage_NecroticCloak)
                                        } else {
                                            Some(SpellKeywords::SpellDamage_NecroticFire)
                                        }
                                    }
                                }
                            } else {
                                if i < 268 {
                                    if i < 266 {
                                        Some(SpellKeywords::SpellDamage_NecroticFireCloak)
                                    } else {
                                        if i < 267 {
                                            Some(SpellKeywords::SpellDamage_Poison)
                                        } else {
                                            Some(SpellKeywords::SpellDamage_PoisonBug)
                                        }
                                    }
                                } else {
                                    if i < 270 {
                                        if i < 269 {
                                            Some(SpellKeywords::SpellDamage_PoisonBugCloak)
                                        } else {
                                            Some(SpellKeywords::SpellDamage_PoisonCloak)
                                        }
                                    } else {
                                        if i < 271 {
                                            Some(SpellKeywords::SpellDamage_PoisonDoomstone)
                                        } else {
                                            Some(SpellKeywords::SpellDamage_PoisonEldritch)
                                        }
                                    }
                                }
                            }
                        } else {
                            if i < 278 {
                                if i < 275 {
                                    if i < 273 {
                                        Some(SpellKeywords::SpellDamage_PoisonEldritchCloak)
                                    } else {
                                        if i < 274 {
                                            Some(SpellKeywords::SpellDamage_Shadow)
                                        } else {
                                            Some(SpellKeywords::SpellDamage_ShadowCloak)
                                        }
                                    }
                                } else {
                                    if i < 276 {
                                        Some(SpellKeywords::SpellDamage_Shock)
                                    } else {
                                        if i < 277 {
                                            Some(SpellKeywords::SpellDamage_ShockArc)
                                        } else {
                                            Some(SpellKeywords::SpellDamage_ShockArcCloak)
                                        }
                                    }
                                }
                            } else {
                                if i < 281 {
                                    if i < 279 {
                                        Some(SpellKeywords::SpellDamage_ShockCloak)
                                    } else {
                                        if i < 280 {
                                            Some(SpellKeywords::SpellDamage_ShockStorm)
                                        } else {
                                            Some(SpellKeywords::SpellDamage_ShockStormCloak)
                                        }
                                    }
                                } else {
                                    if i < 283 {
                                        if i < 282 {
                                            Some(SpellKeywords::SpellDamage_Sonic)
                                        } else {
                                            Some(SpellKeywords::SpellDamage_SonicCloak)
                                        }
                                    } else {
                                        if i < 284 {
                                            Some(SpellKeywords::SpellDamage_Steam)
                                        } else {
                                            Some(SpellKeywords::SpellDamage_SteamCloak)
                                        }
                                    }
                                }
                            }
                        }
                    } else {
                        if i < 298 {
                            if i < 291 {
                                if i < 288 {
                                    if i < 286 {
                                        Some(SpellKeywords::SpellDamage_Water)
                                    } else {
                                        if i < 287 {
                                            Some(SpellKeywords::SpellDamage_WaterCloak)
                                        } else {
                                            Some(SpellKeywords::SpellDamage_Wind)
                                        }
                                    }
                                } else {
                                    if i < 289 {
                                        Some(SpellKeywords::SpellDamage_WindCloak)
                                    } else {
                                        if i < 290 {
                                            Some(SpellKeywords::SpellDispel)
                                        } else {
                                            Some(SpellKeywords::SpellDivination)
                                        }
                                    }
                                }
                            } else {
                                if i < 294 {
                                    if i < 292 {
                                        Some(SpellKeywords::SpellEnchant)
                                    } else {
                                        if i < 293 {
                                            Some(SpellKeywords::SpellEnhance_Attack)
                                        } else {
                                            Some(SpellKeywords::SpellEnhance_Blood)
                                        }
                                    }
                                } else {
                                    if i < 296 {
                                        if i < 295 {
                                            Some(SpellKeywords::SpellEnhance_CarryWeight)
                                        } else {
                                            Some(SpellKeywords::SpellEnhance_Casting)
                                        }
                                    } else {
                                        if i < 297 {
                                            Some(SpellKeywords::SpellEnhance_CastingDruid)
                                        } else {
                                            Some(SpellKeywords::SpellEnhance_CastingEldritch)
                                        }
                                    }
                                }
                            }
                        } else {
                            if i < 304 {
                                if i < 301 {
                                    if i < 299 {
                                        Some(SpellKeywords::SpellEnhance_CritShadowInvis)
                                    } else {
                                        if i < 300 {
                                            Some(SpellKeywords::SpellEnhance_Damage)
                                        } else {
                                            Some(SpellKeywords::SpellEnhance_DamageArcane)
                                        }
                                    }
                                } else {
                                    if i < 302 {
                                        Some(SpellKeywords::SpellEnhance_DamageAshFire)
                                    } else {
                                        if i < 303 {
                                            Some(SpellKeywords::SpellEnhance_DamageBlood)
                                        } else {
                                            Some(SpellKeywords::SpellEnhance_DamageBloodDruid)
                                        }
                                    }
                                }
                            } else {
                                if i < 307 {
                                    if i < 305 {
                                        Some(SpellKeywords::SpellEnhance_DamageDruidHunter)
                                    } else {
                                        if i < 306 {
                                            Some(SpellKeywords::SpellEnhance_DamageFire)
                                        } else {
                                            Some(SpellKeywords::SpellEnhance_DamageFrost)
                                        }
                                    }
                                } else {
                                    if i < 309 {
                                        if i < 308 {
                                            Some(SpellKeywords::SpellEnhance_DamageHolyAstral)
                                        } else {
                                            Some(SpellKeywords::SpellEnhance_DamageHolyLunar)
                                        }
                                    } else {
                                        if i < 310 {
                                            Some(SpellKeywords::SpellEnhance_DamagePoison)
                                        } else {
                                            Some(SpellKeywords::SpellEnhance_DamagePoisonEldritch)
                                        }
                                    }
                                }
                            }
                        }
                    }
                }
            } else {
                if i < 363 {
                    if i < 337 {
                        if i < 324 {
                            if i < 317 {
                                if i < 314 {
                                    if i < 312 {
                                        Some(SpellKeywords::SpellEnhance_DamageShadow)
                                    } else {
                                        if i < 313 {
                                            Some(SpellKeywords::SpellEnhance_DamageShock)
                                        } else {
                                            Some(SpellKeywords::SpellEnhance_DamageShockArc)
                                        }
                                    }
                                } else {
                                    if i < 315 {
                                        Some(SpellKeywords::SpellEnhance_Dodge)
                                    } else {
                                        if i < 316 {
                                            Some(SpellKeywords::SpellEnhance_Eldritch)
                                        } else {
                                            Some(SpellKeywords::SpellEnhance_EldritchTome)
                                        }
                                    }
                                }
                            } else {
                                if i < 320 {
                                    if i < 318 {
                                        Some(SpellKeywords::SpellEnhance_Evasion)
                                    } else {
                                        if i < 319 {
                                            Some(SpellKeywords::SpellEnhance_EvasionDruid)
                                        } else {
                                            Some(SpellKeywords::SpellEnhance_Fall)
                                        }
                                    }
                                } else {
                                    if i < 322 {
                                        if i < 321 {
                                            Some(SpellKeywords::SpellEnhance_Flight)
                                        } else {
                                            Some(SpellKeywords::SpellEnhance_Health)
                                        }
                                    } else {
                                        if i < 323 {
                                            Some(SpellKeywords::SpellEnhance_Jump)
                                        } else {
                                            Some(SpellKeywords::SpellEnhance_MovementSpeed)
                                        }
                                    }
                                }
                            }
                        } else {
                            if i < 330 {
                                if i < 327 {
                                    if i < 325 {
                                        Some(SpellKeywords::SpellEnhance_MovementSpeedDruid)
                                    } else {
                                        if i < 326 {
                                            Some(SpellKeywords::SpellEnhance_Regen)
                                        } else {
                                            Some(SpellKeywords::SpellEnhance_RegenShadowInvis)
                                        }
                                    }
                                } else {
                                    if i < 328 {
                                        Some(SpellKeywords::SpellEnhance_Sight)
                                    } else {
                                        if i < 329 {
                                            Some(SpellKeywords::SpellEnhance_SightKhajiit)
                                        } else {
                                            Some(SpellKeywords::SpellEnhance_SightVampireBlood)
                                        }
                                    }
                                }
                            } else {
                                if i < 333 {
                                    if i < 331 {
                                        Some(SpellKeywords::SpellEnhance_SightVampireShadow)
                                    } else {
                                        if i < 332 {
                                            Some(SpellKeywords::SpellEnhance_SightWerebeast)
                                        } else {
                                            Some(SpellKeywords::SpellEnhance_SpellCost)
                                        }
                                    }
                                } else {
                                    if i < 335 {
                                        if i < 334 {
                                            Some(SpellKeywords::SpellEnhance_StaminaDruid)
                                        } else {
                                            Some(SpellKeywords::SpellEnhance_Swim)
                                        }
                                    } else {
                                        if i < 336 {
                                            Some(SpellKeywords::SpellEnhance_WaterBreath)
                                        } else {
                                            Some(SpellKeywords::SpellEnhance_WaterWalk)
                                        }
                                    }
                                }
                            }
                        }
                    } else {
                        if i < 350 {
                            if i < 343 {
                                if i < 340 {
                                    if i < 338 {
                                        Some(SpellKeywords::SpellEthereal)
                                    } else {
                                        if i < 339 {
                                            Some(SpellKeywords::SpellForce)
                                        } else {
                                            Some(SpellKeywords::SpellHarvest)
                                        }
                                    }
                                } else {
                                    if i < 341 {
                                        Some(SpellKeywords::SpellHeal_Construct)
                                    } else {
                                        if i < 342 {
                                            Some(SpellKeywords::SpellHeal_Daedra)
                                        } else {
                                            Some(SpellKeywords::SpellHeal_Living)
                                        }
                                    }
                                }
                            } else {
                                if i < 346 {
                                    if i < 344 {
                                        Some(SpellKeywords::SpellHeal_LivingCircle)
                                    } else {
                                        if i < 345 {
                                            Some(SpellKeywords::SpellHeal_LivingWater)
                                        } else {
                                            Some(SpellKeywords::SpellHeal_Self)
                                        }
                                    }
                                } else {
                                    if i < 348 {
                                        if i < 347 {
                                            Some(SpellKeywords::SpellHeal_SelfCloak)
                                        } else {
                                            Some(SpellKeywords::SpellHeal_Undead)
                                        }
                                    } else {
                                        if i < 349 {
                                            Some(SpellKeywords::SpellLight)
                                        } else {
                                            Some(SpellKeywords::SpellMind_Charm)
                                        }
                                    }
                                }
                            }
                        } else {
                            if i < 356 {
                                if i < 353 {
                                    if i < 351 {
                                        Some(SpellKeywords::SpellMind_CharmImperial)
                                    } else {
                                        if i < 352 {
                                            Some(SpellKeywords::SpellMind_Control)
                                        } else {
                                            Some(SpellKeywords::SpellMind_ControlBosmer)
                                        }
                                    }
                                } else {
                                    if i < 354 {
                                        Some(SpellKeywords::SpellMind_ControlVampire)
                                    } else {
                                        if i < 355 {
                                            Some(SpellKeywords::SpellMind_Courage)
                                        } else {
                                            Some(SpellKeywords::SpellMind_Fear)
                                        }
                                    }
                                }
                            } else {
                                if i < 359 {
                                    if i < 357 {
                                        Some(SpellKeywords::SpellMind_FearNord)
                                    } else {
                                        if i < 358 {
                                            Some(SpellKeywords::SpellMind_FearVampire)
                                        } else {
                                            Some(SpellKeywords::SpellMind_Frenzy)
                                        }
                                    }
                                } else {
                                    if i < 361 {
                                        if i < 360 {
                                            Some(SpellKeywords::SpellMind_FrenzyShadow)
                                        } else {
                                            Some(SpellKeywords::SpellMind_Paralysis)
                                        }
                                    } else {
                                        if i < 362 {
                                            Some(SpellKeywords::SpellMind_Rally)
                                        } else {
                                            Some(SpellKeywords::SpellParalysis_Ash)
                                        }
                                    }
                                }
                            }
                        }
                    }
                } else {
                    if i < 389 {
                        if i < 376 {
                            if i < 369 {
                                if i < 366 {
                                    if i < 364 {
                                        Some(SpellKeywords::SpellParalysis_AshCloak)
                                    } else {
                                        if i < 365 {
                                            Some(SpellKeywords::SpellParalysis_Druid)
                                        } else {
                                            Some(SpellKeywords::SpellParalysis)
                                        }
                                    }
                                } else {
                                    if i < 367 {
                                        Some(SpellKeywords::SpellProject)
                                    } else {
                                        if i < 368 {
                                            Some(SpellKeywords::SpellProtect_Damage)
                                        } else {
                                            Some(SpellKeywords::SpellProtect_ElementFire)
                                        }
                                    }
                                }
                            } else {
                                if i < 372 {
                                    if i < 370 {
                                        Some(SpellKeywords::SpellProtect_ElementFrost)
                                    } else {
                                        if i < 371 {
                                            Some(SpellKeywords::SpellProtect_ElementPoison)
                                        } else {
                                            Some(SpellKeywords::SpellProtect_ElementShock)
                                        }
                                    }
                                } else {
                                    if i < 374 {
                                        if i < 373 {
                                            Some(SpellKeywords::SpellProtect_Magic)
                                        } else {
                                            Some(SpellKeywords::SpellProtect_Warmth)
                                        }
                                    } else {
                                        if i < 375 {
                                            Some(SpellKeywords::SpellReanimate)
                                        } else {
                                            Some(SpellKeywords::SpellReanimateDoomstone)
                                        }
                                    }
                                }
                            }
                        } else {
                            if i < 382 {
                                if i < 379 {
                                    if i < 377 {
                                        Some(SpellKeywords::SpellReflect_Druid)
                                    } else {
                                        if i < 378 {
                                            Some(SpellKeywords::SpellRestore_Exposure)
                                        } else {
                                            Some(SpellKeywords::SpellRestore_Magicka)
                                        }
                                    }
                                } else {
                                    if i < 380 {
                                        Some(SpellKeywords::SpellRestore_MagickaCircle)
                                    } else {
                                        if i < 381 {
                                            Some(SpellKeywords::SpellRestore_MagickaWater)
                                        } else {
                                            Some(SpellKeywords::SpellRestore_Stamina)
                                        }
                                    }
                                }
                            } else {
                                if i < 385 {
                                    if i < 383 {
                                        Some(SpellKeywords::SpellRestore_StaminaCircle)
                                    } else {
                                        if i < 384 {
                                            Some(SpellKeywords::SpellRestore_StaminaDruid)
                                        } else {
                                            Some(SpellKeywords::SpellRestore_Warmth)
                                        }
                                    }
                                } else {
                                    if i < 387 {
                                        if i < 386 {
                                            Some(SpellKeywords::SpellSacrifice_Blood)
                                        } else {
                                            Some(SpellKeywords::SpellSacrifice)
                                        }
                                    } else {
                                        if i < 388 {
                                            Some(SpellKeywords::SpellShapechange_Vampire)
                                        } else {
                                            Some(SpellKeywords::SpellShapechange_Werebeast)
                                        }
                                    }
                                }
                            }
                        }
                    } else {
                        if i < 402 {
                            if i < 395 {
                                if i < 392 {
                                    if i < 390 {
                                        Some(SpellKeywords::SpellShapechange)
                                    } else {
                                        if i < 391 {
                                            Some(SpellKeywords::SpellShield_Druid)
                                        } else {
                                            Some(SpellKeywords::SpellShield_Warmth)
                                        }
                                    }
                                } else {
                                    if i < 393 {
                                        Some(SpellKeywords::SpellSilence)
                                    } else {
                                        if i < 394 {
                                            Some(SpellKeywords::SpellSoulTrap)
                                        } else {
                                            Some(SpellKeywords::SpellSoulTrapCloak)
                                        }
                                    }
                                }
                            } else {
                                if i < 398 {
                                    if i < 396 {
                                        Some(SpellKeywords::SpellSpace_Banish)
                                    } else {
                                        if i < 397 {
                                            Some(SpellKeywords::SpellSpace_Teleport)
                                        } else {
                                            Some(SpellKeywords::SpellSpace)
                                        }
                                    }
                                } else {
                                    if i < 400 {
                                        if i < 399 {
                                            Some(SpellKeywords::SpellStealth_Invisibility)
                                        } else {
                                            Some(SpellKeywords::SpellStealth_InvisibilityDoomstone)
                                        }
                                    } else {
                                        if i < 401 {
                                            Some(SpellKeywords::SpellStealth_InvisibilityDruid)
                                        } else {
                                            Some(SpellKeywords::SpellStealth_InvisibilityVampire)
                                        }
                                    }
                                }
                            }
                        } else {
                            if i < 408 {
                                if i < 405 {
                                    if i < 403 {
                                        Some(SpellKeywords::SpellStealth)
                                    } else {
                                        if i < 404 {
                                            Some(SpellKeywords::SpellSummon_Construct)
                                        } else {
                                            Some(SpellKeywords::SpellSummon_Creature)
                                        }
                                    }
                                } else {
                                    if i < 406 {
                                        Some(SpellKeywords::SpellSummon_Daedra)
                                    } else {
                                        if i < 407 {
                                            Some(SpellKeywords::SpellSummon_Object)
                                        } else {
                                            Some(SpellKeywords::SpellSummon_Spirit)
                                        }
                                    }
                                }
                            } else {
                                if i < 411 {
                                    if i < 409 {
                                        Some(SpellKeywords::SpellSummon_Undead)
                                    } else {
                                        if i < 410 {
                                            Some(SpellKeywords::SpellTeleport)
                                        } else {
                                            Some(SpellKeywords::SpellTime)
                                        }
                                    }
                                } else {
                                    if i < 413 {
                                        if i < 412 {
                                            Some(SpellKeywords::SpellTransmute)
                                        } else {
                                            Some(SpellKeywords::SpellTurnUndeadCircle)
                                        }
                                    } else {
                                        if i < 414 {
                                            Some(SpellKeywords::SpellUnlock)
                                        } else {
                                            Some(SpellKeywords::SpellWard)
                                        }
                                    }
                                }
                            }
                        }
                    }
                }
            }
        }
    }
}

/// The first keyword, from position `i` on in the declaration order, whose
/// lower-case name is `name`.
pub open spec fn keyword_named_from(name: Seq<char>, i: nat) -> Option<SpellKeywords>
    decreases SPELL_KEYWORD_COUNT - i,
{
    if i >= SPELL_KEYWORD_COUNT {
        None
    } else {
        match keyword_at(i as int) {
            Some(k) => if keyword_name(k) == name {
                Some(k)
            } else {
                keyword_named_from(name, i + 1)
            },
            None => None,
        }
    }
}

/// The keyword whose lower-case name is `name`, if any.
pub open spec fn keyword_named(name: Seq<char>) -> Option<SpellKeywords> {
    keyword_named_from(name, 0)
}

/// The keyword a text names: the text is lower-cased, then every
/// `soulsy_` and every `ocf_mgef` is removed, and the rest is looked up.
pub open spec fn spell_keyword_for(text: Seq<char>) -> Option<SpellKeywords> {
    keyword_named(removed_all(removed_all(lowercase_of(text), "soulsy_"@), "ocf_mgef"@))
}

/// The keyword at position `i` of the declaration order.
fn keyword_at_index(i: usize) -> (r: Option<SpellKeywords>)
    ensures
        r == keyword_at(i as int),
{
    if i >= 415 {
        None
    } else {
        if i < 207 {
            if i < 103 {
                if i < 51 {
                    if i < 25 {
                        if i < 12 {
                            if i < 6 {
                                if i < 3 {
                                    if i < 1 {
                                        Some(SpellKeywords::Archetype_CarryWeight)
                                    } else {
                                        if i < 2 {
                                            Some(SpellKeywords::Archetype_Cure)
                                        } else {
                                            Some(SpellKeywords::Archetype_Detect)
                                        }
                                    }
                                } else {
                                    if i < 4 {
                                        Some(SpellKeywords::Archetype_Guide)
                                    } else {
                                        if i < 5 {
                                            Some(SpellKeywords::Archetype_Light)
                                        } else {
                                            Some(SpellKeywords::Archetype_NightEye)
                                        }
                                    }
                                }
                            } else {
                                if i < 9 {
                                    if i < 7 {
                                        Some(SpellKeywords::Archetype_Protect)
                                    } else {
                                        if i < 8 {
                                            Some(SpellKeywords::Archetype_Reflect)
                                        } else {
                                            Some(SpellKeywords::Archetype_Resist)
                                        }
                                    }
                                } else {
                                    if i < 10 {
                                        Some(SpellKeywords::Archetype_Root)
                                    } else {
                                        if i < 11 {
                                            Some(SpellKeywords::Archetype_Silence)
                                        } else {
                                            Some(SpellKeywords::Archetype_Teleport)
                                        }
                                    }
                                }
                            }
                        } else {
                            if i < 18 {
                                if i < 15 {
                                    if i < 13 {
                                        Some(SpellKeywords::Archetype_Waterbreathing)
                                    } else {
                                        if i < 14 {
                                            Some(SpellKeywords::Archetype_Waterwalking)
                                        } else {
                                            Some(SpellKeywords::Archetype_WeaponBuff)
                                        }
                                    }
                                } else {
                                    if i < 16 {
                                        Some(SpellKeywords::BoundWarAxe)
                                    } else {
                                        if i < 17 {
                                            Some(SpellKeywords::BoundBattleAxe)
                                        } else {
                                            Some(SpellKeywords::BoundBow)
                                        }
                                    }
                                }
                            } else {
                                if i < 21 {
                                    if i < 19 {
                                        Some(SpellKeywords::BoundDagger)
                                    } else {
                                        if i < 20 {
                                            Some(SpellKeywords::BoundHammer)
                                        } else {
                                            Some(SpellKeywords::BoundMace)
                                        }
                                    }
                                } else {
                                    if i < 23 {
                                        if i < 22 {
                                            Some(SpellKeywords::BoundShield)
                                        } else {
                                            Some(SpellKeywords::BoundSword)
                                        }
                                    } else {
                                        if i < 24 {
                                            Some(SpellKeywords::BoundGreatsword)
                                        } else {
                                            Some(SpellKeywords::MagicArmorSpell)
                                        }
                                    }
                                }
                            }
                        }
                    } else {
                        if i < 38 {
                            if i < 31 {
                                if i < 28 {
                                    if i < 26 {
                                        Some(SpellKeywords::MagicCloak)
                                    } else {
                                        if i < 27 {
                                            Some(SpellKeywords::MagicDamageFire)
                                        } else {
                                            Some(SpellKeywords::MagicDamageFrost)
                                        }
                                    }
                                } else {
                                    if i < 29 {
                                        Some(SpellKeywords::MagicDamageResist)
                                    } else {
                                        if i < 30 {
                                            Some(SpellKeywords::MagicDamageShock)
                                        } else {
                                            Some(SpellKeywords::MagicInfluence)
                                        }
                                    }
                                }
                            } else {
                                if i < 34 {
                                    if i < 32 {
                                        Some(SpellKeywords::MagicInfluenceCharm)
                                    } else {
                                        if i < 33 {
                                            Some(SpellKeywords::MagicInfluenceFear)
                                        } else {
                                            Some(SpellKeywords::MagicInfluenceFrenzy)
                                        }
                                    }
                                } else {
                                    if i < 36 {
                                        if i < 35 {
                                            Some(SpellKeywords::MagicInvisibility)
                                        } else {
                                            Some(SpellKeywords::MagicNightEye)
                                        }
                                    } else {
                                        if i < 37 {
                                            Some(SpellKeywords::MagicParalysis)
                                        } else {
                                            Some(SpellKeywords::MagicRestoreHealth)
                                        }
                                    }
                                }
                            }
                        } else {
                            if i < 44 {
                                if i < 41 {
                                    if i < 39 {
                                        Some(SpellKeywords::MagicRune)
                                    } else {
                                        if i < 40 {
                                            Some(SpellKeywords::MagicSlow)
                                        } else {
                                            Some(SpellKeywords::MagicSummonFamiliar)
                                        }
                                    }
                                } else {
                                    if i < 42 {
                                        Some(SpellKeywords::MagicSummonFire)
                                    } else {
                                        if i < 43 {
                                            Some(SpellKeywords::MagicSummonFrost)
                                        } else {
                                            Some(SpellKeywords::MagicSummonShock)
                                        }
                                    }
                                }
                            } else {
                                if i < 47 {
                                    if i < 45 {
                                        Some(SpellKeywords::MagicSummonUndead)
                                    } else {
                                        if i < 46 {
                                            Some(SpellKeywords::MagicTelekinesis)
                                        } else {
                                            Some(SpellKeywords::MagicTurnUndead)
                                        }
                                    }
                                } else {
                                    if i < 49 {
                                        if i < 48 {
                                            Some(SpellKeywords::MagicWard)
                                        } else {
                                            Some(SpellKeywords::MagicWeaponSpeed)
                                        }
                                    } else {
                                        if i < 50 {
                                            Some(SpellKeywords::MAG_MagicDamageSun)
                                        } else {
                                            Some(SpellKeywords::IconWind)
                                        }
                                    }
                                }
                            }
                        }
                    }
                } else {
                    if i < 77 {
                        if i < 64 {
                            if i < 57 {
                                if i < 54 {
                                    if i < 52 {
                                        Some(SpellKeywords::IconMagicWind)
                                    } else {
                                        if i < 53 {
                                            Some(SpellKeywords::IconWater)
                                        } else {
                                            Some(SpellKeywords::IconMagicWater)
                                        }
                                    }
                                } else {
                                    if i < 55 {
                                        Some(SpellKeywords::DAR_SummonAstralWyrm)
                                    } else {
                                        if i < 56 {
                                            Some(SpellKeywords::Shout_AnimalAllegiance)
                                        } else {
                                            Some(SpellKeywords::Shout_AuraWhisper)
                                        }
                                    }
                                }
                            } else {
                                if i < 60 {
                                    if i < 58 {
                                        Some(SpellKeywords::Shout_BattleFury)
                                    } else {
                                        if i < 59 {
                                            Some(SpellKeywords::Shout_BecomeEthereal)
                                        } else {
                                            Some(SpellKeywords::Shout_BendWill)
                                        }
                                    }
                                } else {
                                    if i < 62 {
                                        if i < 61 {
                                            Some(SpellKeywords::Shout_CallDragon)
                                        } else {
                                            Some(SpellKeywords::Shout_CallOfValor)
                                        }
                                    } else {
                                        if i < 63 {
                                            Some(SpellKeywords::Shout_ClearSkies)
                                        } else {
                                            Some(SpellKeywords::Shout_Disarm)
                                        }
                                    }
                                }
                            }
                        } else {
                            if i < 70 {
                                if i < 67 {
                                    if i < 65 {
                                        Some(SpellKeywords::Shout_Dismay)
                                    } else {
                                        if i < 66 {
                                            Some(SpellKeywords::Shout_DragonAspect)
                                        } else {
                                            Some(SpellKeywords::Shout_Dragonrend)
                                        }
                                    }
                                } else {
                                    if i < 68 {
                                        Some(SpellKeywords::Shout_DrainVitality)
                                    } else {
                                        if i < 69 {
                                            Some(SpellKeywords::Shout_ElementalFury)
                                        } else {
                                            Some(SpellKeywords::Shout_FireBreath)
                                        }
                                    }
                                }
                            } else {
                                if i < 73 {
                                    if i < 71 {
                                        Some(SpellKeywords::Shout_FrostBreath)
                                    } else {
                                        if i < 72 {
                                            Some(SpellKeywords::Shout_IceForm)
                                        } else {
                                            Some(SpellKeywords::Shout_KynesPeace)
                                        }
                                    }
                                } else {
                                    if i < 75 {
                                        if i < 74 {
                                            Some(SpellKeywords::Shout_MarkedForDeath)
                                        } else {
                                            Some(SpellKeywords::Shout_Slowtime)
                                        }
                                    } else {
                                        if i < 76 {
                                            Some(SpellKeywords::Shout_SoulTear)
                                        } else {
                                            Some(SpellKeywords::Shout_Stormcall)
                                        }
                                    }
                                }
                            }
                        }
                    } else {
                        if i < 90 {
                            if i < 83 {
                                if i < 80 {
                                    if i < 78 {
                                        Some(SpellKeywords::Shout_SummonDurnehviir)
                                    } else {
                                        if i < 79 {
                                            Some(SpellKeywords::Shout_ThrowVoice)
                                        } else {
                                            Some(SpellKeywords::Shout_UnrelentingForce)
                                        }
                                    }
                                } else {
                                    if i < 81 {
                                        Some(SpellKeywords::Shout_WhirlwindSprint)
                                    } else {
                                        if i < 82 {
                                            Some(SpellKeywords::Shout_SoulCairnSummon)
                                        } else {
                                            Some(SpellKeywords::Shout_PhantomForm)
                                        }
                                    }
                                }
                            } else {
                                if i < 86 {
                                    if i < 84 {
                                        Some(SpellKeywords::Shout_LightningBreath)
                                    } else {
                                        if i < 85 {
                                            Some(SpellKeywords::Shout_PoisonBreath)
                                        } else {
                                            Some(SpellKeywords::Shout_AlessiasLove)
                                        }
                                    }
                                } else {
                                    if i < 88 {
                                        if i < 87 {
                                            Some(SpellKeywords::Shout_Annihilate)
                                        } else {
                                            Some(SpellKeywords::Shout_ArcaneHelix)
                                        }
                                    } else {
                                        if i < 89 {
                                            Some(SpellKeywords::Shout_Armageddon)
                                        } else {
                                            Some(SpellKeywords::Shout_Curse)
                                        }
                                    }
                                }
                            }
                        } else {
                            if i < 96 {
                                if i < 93 {
                                    if i < 91 {
                                        Some(SpellKeywords::Shout_DanceOfTheDead)
                                    } else {
                                        if i < 92 {
                                            Some(SpellKeywords::Shout_Earthquake)
                                        } else {
                                            Some(SpellKeywords::Shout_EssenceRip)
                                        }
                                    }
                                } else {
                                    if i < 94 {
                                        Some(SpellKeywords::Shout_Evocation)
                                    } else {
                                        if i < 95 {
                                            Some(SpellKeywords::Shout_Geomagnetism)
                                        } else {
                                            Some(SpellKeywords::Shout_Iceborn)
                                        }
                                    }
                                }
                            } else {
                                if i < 99 {
                                    if i < 97 {
                                        Some(SpellKeywords::Shout_JonesShadow)
                                    } else {
                                        if i < 98 {
                                            Some(SpellKeywords::Shout_Kingsbane)
                                        } else {
                                            Some(SpellKeywords::Shout_Lifestream)
                                        }
                                    }
                                } else {
                                    if i < 101 {
                                        if i < 100 {
                                            Some(SpellKeywords::Shout_LightningShield)
                                        } else {
                                            Some(SpellKeywords::Shout_Oblivion)
                                        }
                                    } else {
                                        if i < 102 {
                                            Some(SpellKeywords::Shout_PhantomDecoy)
                                        } else {
                                            Some(SpellKeywords::Shout_Riftwalk)
                                        }
                                    }
                                }
                            }
                        }
                    }
                }
            } else {
                if i < 155 {
                    if i < 129 {
                        if i < 116 {
                            if i < 109 {
                                if i < 106 {
                                    if i < 104 {
                                        Some(SpellKeywords::Shout_Shattersphere)
                                    } else {
                                        if i < 105 {
                                            Some(SpellKeywords::Shout_ShorsWrath)
                                        } else {
                                            Some(SpellKeywords::Shout_ShroudOfSnowfall)
                                        }
                                    }
                                } else {
                                    if i < 107 {
                                        Some(SpellKeywords::Shout_SpeakUntoTheStars)
                                    } else {
                                        if i < 108 {
                                            Some(SpellKeywords::Shout_SplinterTwins)
                                        } else {
                                            Some(SpellKeywords::Shout_Stormblast)
                                        }
                                    }
                                }
                            } else {
                                if i < 112 {
                                    if i < 110 {
                                        Some(SpellKeywords::Shout_TheConqueror)
                                    } else {
                                        if i < 111 {
                                            Some(SpellKeywords::Shout_Trueshot)
                                        } else {
                                            Some(SpellKeywords::Shout_WailOfTheBanshee)
                                        }
                                    }
                                } else {
                                    if i < 114 {
                                        if i < 113 {
                                            Some(SpellKeywords::Shout_Wanderlust)
                                        } else {
                                            Some(SpellKeywords::Shout_Warcry)
                                        }
                                    } else {
                                        if i < 115 {
                                            Some(SpellKeywords::ClassArcane)
                                        } else {
                                            Some(SpellKeywords::ClassArtificer)
                                        }
                                    }
                                }
                            }
                        } else {
                            if i < 122 {
                                if i < 119 {
                                    if i < 117 {
                                        Some(SpellKeywords::ClassAsh)
                                    } else {
                                        if i < 118 {
                                            Some(SpellKeywords::ClassAstral)
                                        } else {
                                            Some(SpellKeywords::ClassBard)
                                        }
                                    }
                                } else {
                                    if i < 120 {
                                        Some(SpellKeywords::ClassBlood)
                                    } else {
                                        if i < 121 {
                                            Some(SpellKeywords::ClassDruid)
                                        } else {
                                            Some(SpellKeywords::ClassDunmer)
                                        }
                                    }
                                }
                            } else {
                                if i < 125 {
                                    if i < 123 {
                                        Some(SpellKeywords::ClassEarth)
                                    } else {
                                        if i < 124 {
                                            Some(SpellKeywords::ClassEldritch)
                                        } else {
                                            Some(SpellKeywords::ClassFire)
                                        }
                                    }
                                } else {
                                    if i < 127 {
                                        if i < 126 {
                                            Some(SpellKeywords::ClassFrost)
                                        } else {
                                            Some(SpellKeywords::ClassHoly)
                                        }
                                    } else {
                                        if i < 128 {
                                            Some(SpellKeywords::ClassMind)
                                        } else {
                                            Some(SpellKeywords::ClassNecromancy)
                                        }
                                    }
                                }
                            }
                        }
                    } else {
                        if i < 142 {
                            if i < 135 {
                                if i < 132 {
                                    if i < 130 {
                                        Some(SpellKeywords::ClassPoison)
                                    } else {
                                        if i < 131 {
                                            Some(SpellKeywords::ClassRace_Altmer)
                                        } else {
                                            Some(SpellKeywords::ClassRace_Argonian)
                                        }
                                    }
                                } else {
                                    if i < 133 {
                                        Some(SpellKeywords::ClassRace_Bosmer)
                                    } else {
                                        if i < 134 {
                                            Some(SpellKeywords::ClassRace_Breton)
                                        } else {
                                            Some(SpellKeywords::ClassRace_Dunmer)
                                        }
                                    }
                                }
                            } else {
                                if i < 138 {
                                    if i < 136 {
                                        Some(SpellKeywords::ClassRace_Imperial)
                                    } else {
                                        if i < 137 {
                                            Some(SpellKeywords::ClassRace_Khajiit)
                                        } else {
                                            Some(SpellKeywords::ClassRace_Nord)
                                        }
                                    }
                                } else {
                                    if i < 140 {
                                        if i < 139 {
                                            Some(SpellKeywords::ClassRace_Orsimer)
                                        } else {
                                            Some(SpellKeywords::ClassRace_Other)
                                        }
                                    } else {
                                        if i < 141 {
                                            Some(SpellKeywords::ClassRace_Redguard)
                                        } else {
                                            Some(SpellKeywords::ClassRace_Vampire)
                                        }
                                    }
                                }
                            }
                        } else {
                            if i < 148 {
                                if i < 145 {
                                    if i < 143 {
                                        Some(SpellKeywords::ClassRace_Werebeast)
                                    } else {
                                        if i < 144 {
                                            Some(SpellKeywords::ClassShadow)
                                        } else {
                                            Some(SpellKeywords::ClassShock)
                                        }
                                    }
                                } else {
                                    if i < 146 {
                                        Some(SpellKeywords::ClassSurvival_Needs)
                                    } else {
                                        if i < 147 {
                                            Some(SpellKeywords::ClassSurvival_Wilderness)
                                        } else {
                                            Some(SpellKeywords::ClassSurvival)
                                        }
                                    }
                                }
                            } else {
                                if i < 151 {
                                    if i < 149 {
                                        Some(SpellKeywords::ClassUtility)
                                    } else {
                                        if i < 150 {
                                            Some(SpellKeywords::ClassVampire)
                                        } else {
                                            Some(SpellKeywords::ClassWater)
                                        }
                                    }
                                } else {
                                    if i < 153 {
                                        if i < 152 {
                                            Some(SpellKeywords::ClassWind)
                                        } else {
                                            Some(SpellKeywords::ClassWitcher)
                                        }
                                    } else {
                                        if i < 154 {
                                            Some(SpellKeywords::DeliverTouch)
                                        } else {
                                            Some(SpellKeywords::PowerAction_Bag)
                                        }
                                    }
                                }
                            }
                        }
                    }
                } else {
                    if i < 181 {
                        if i < 168 {
                            if i < 161 {
                                if i < 158 {
                                    if i < 156 {
                                        Some(SpellKeywords::PowerAction_Bard)
                                    } else {
                                        if i < 157 {
                                            Some(SpellKeywords::PowerAction_Bathe)
                                        } else {
                                            Some(SpellKeywords::PowerAction_Bless)
                                        }
                                    }
                                } else {
                                    if i < 159 {
                                        Some(SpellKeywords::PowerAction_BuryCorpse)
                                    } else {
                                        if i < 160 {
                                            Some(SpellKeywords::PowerAction_Campfire)
                                        } else {
                                            Some(SpellKeywords::PowerAction_Coin)
                                        }
                                    }
                                }
                            } else {
                                if i < 164 {
                                    if i < 162 {
                                        Some(SpellKeywords::PowerAction_CommandFollower)
                                    } else {
                                        if i < 163 {
                                            Some(SpellKeywords::PowerAction_Craft)
                                        } else {
                                            Some(SpellKeywords::PowerAction_FillWater)
                                        }
                                    }
                                } else {
                                    if i < 166 {
                                        if i < 165 {
                                            Some(SpellKeywords::PowerAction_Goggles)
                                        } else {
                                            Some(SpellKeywords::PowerAction_GogglesSight)
                                        }
                                    } else {
                                        if i < 167 {
                                            Some(SpellKeywords::PowerAction_HarvestCorpse)
                                        } else {
                                            Some(SpellKeywords::PowerAction_HarvestGather)
                                        }
                                    }
                                }
                            }
                        } else {
                            if i < 174 {
                                if i < 171 {
                                    if i < 169 {
                                        Some(SpellKeywords::PowerAction_HarvestWood)
                                    } else {
                                        if i < 170 {
                                            Some(SpellKeywords::PowerAction_Horse)
                                        } else {
                                            Some(SpellKeywords::PowerAction_Influence)
                                        }
                                    }
                                } else {
                                    if i < 172 {
                                        Some(SpellKeywords::PowerAction_InfluenceEngage)
                                    } else {
                                        if i < 173 {
                                            Some(SpellKeywords::PowerAction_Instincts)
                                        } else {
                                            Some(SpellKeywords::PowerAction_Lantern)
                                        }
                                    }
                                }
                            } else {
                                if i < 177 {
                                    if i < 175 {
                                        Some(SpellKeywords::PowerAction_PeekKeyhole)
                                    } else {
                                        if i < 176 {
                                            Some(SpellKeywords::PowerAction_PitchTent)
                                        } else {
                                            Some(SpellKeywords::PowerAction_Potion)
                                        }
                                    }
                                } else {
                                    if i < 179 {
                                        if i < 178 {
                                            Some(SpellKeywords::PowerAction_Pray)
                                        } else {
                                            Some(SpellKeywords::PowerAction_Relax)
                                        }
                                    } else {
                                        if i < 180 {
                                            Some(SpellKeywords::PowerAction_Speech)
                                        } else {
                                            Some(SpellKeywords::PowerAction_StatusFrostfall)
                                        }
                                    }
                                }
                            }
                        }
                    } else {
                        if i < 194 {
                            if i < 187 {
                                if i < 184 {
                                    if i < 182 {
                                        Some(SpellKeywords::PowerAction_StatusSunhelm)
                                    } else {
                                        if i < 183 {
                                            Some(SpellKeywords::PowerAction_TameAnimal)
                                        } else {
                                            Some(SpellKeywords::PowerAction_Train)
                                        }
                                    }
                                } else {
                                    if i < 185 {
                                        Some(SpellKeywords::PowerAction_WeaponGrip)
                                    } else {
                                        if i < 186 {
                                            Some(SpellKeywords::PowerAction)
                                        } else {
                                            Some(SpellKeywords::PowerAlteration)
                                        }
                                    }
                                }
                            } else {
                                if i < 190 {
                                    if i < 188 {
                                        Some(SpellKeywords::PowerCheat)
                                    } else {
                                        if i < 189 {
                                            Some(SpellKeywords::PowerConfig)
                                        } else {
                                            Some(SpellKeywords::PowerConfigWeatherChanger)
                                        }
                                    }
                                } else {
                                    if i < 192 {
                                        if i < 191 {
                                            Some(SpellKeywords::PowerGrand)
                                        } else {
                                            Some(SpellKeywords::Spell_Enchant)
                                        }
                                    } else {
                                        if i < 193 {
                                            Some(SpellKeywords::SpellAbsorb_Magicka)
                                        } else {
                                            Some(SpellKeywords::SpellAbsorb_MagickaCircle)
                                        }
                                    }
                                }
                            }
                        } else {
                            if i < 200 {
                                if i < 197 {
                                    if i < 195 {
                                        Some(SpellKeywords::SpellAbsorb_MagickaCloak)
                                    } else {
                                        if i < 196 {
                                            Some(SpellKeywords::SpellAbsorb_Stamina)
                                        } else {
                                            Some(SpellKeywords::SpellAbsorb_StaminaCircle)
                                        }
                                    }
                                } else {
                                    if i < 198 {
                                        Some(SpellKeywords::SpellAbsorb_StaminaCloak)
                                    } else {
                                        if i < 199 {
                                            Some(SpellKeywords::SpellAssist_DamageDruid)
                                        } else {
                                            Some(SpellKeywords::SpellAssist_MovementSpeedDruid)
                                        }
                                    }
                                }
                            } else {
                                if i < 203 {
                                    if i < 201 {
                                        Some(SpellKeywords::SpellAssist)
                                    } else {
                                        if i < 202 {
                                            Some(SpellKeywords::SpellBound_Ammo)
                                        } else {
                                            Some(SpellKeywords::SpellBound_Armor)
                                        }
                                    }
                                } else {
                                    if i < 205 {
                                        if i < 204 {
                                            Some(SpellKeywords::SpellBound_MiscItem)
                                        } else {
                                            Some(SpellKeywords::SpellBound_Weapon)
                                        }
                                    } else {
                                        if i < 206 {
                                            Some(SpellKeywords::SpellControl)
                                        } else {
                                            Some(SpellKeywords::SpellCounter_Astral)
                                        }
                                    }
                                }
                            }
                        }
                    }
                }
            }
        } else {
            if i < 311 {
                if i < 259 {
                    if i < 233 {
                        if i < 220 {
                            if i < 213 {
                                if i < 210 {
                                    if i < 208 {
                                        Some(SpellKeywords::SpellCounter_BloodDruid)
                                    } else {
                                        if i < 209 {
                                            Some(SpellKeywords::SpellCounter_Druid)
                                        } else {
                                            Some(SpellKeywords::SpellCounter_DruidHeal)
                                        }
                                    }
                                } else {
                                    if i < 211 {
                                        Some(SpellKeywords::SpellCounter_Fire)
                                    } else {
                                        if i < 212 {
                                            Some(SpellKeywords::SpellCure)
                                        } else {
                                            Some(SpellKeywords::SpellCurse_Deconstruct)
                                        }
                                    }
                                }
                            } else {
                                if i < 216 {
                                    if i < 214 {
                                        Some(SpellKeywords::SpellCurse_DruidRoot)
                                    } else {
                                        if i < 215 {
                                            Some(SpellKeywords::SpellCurse_Shadow)
                                        } else {
                                            Some(SpellKeywords::SpellCurse)
                                        }
                                    }
                                } else {
                                    if i < 218 {
                                        if i < 217 {
                                            Some(SpellKeywords::SpellDamage_Arcane)
                                        } else {
                                            Some(SpellKeywords::SpellDamage_ArcaneCloak)
                                        }
                                    } else {
                                        if i < 219 {
                                            Some(SpellKeywords::SpellDamage_ArcaneFire)
                                        } else {
                                            Some(SpellKeywords::SpellDamage_ArcaneFireCloak)
                                        }
                                    }
                                }
                            }
                        } else {
                            if i < 226 {
                                if i < 223 {
                                    if i < 221 {
                                        Some(SpellKeywords::SpellDamage_Ash)
                                    } else {
                                        if i < 222 {
                                            Some(SpellKeywords::SpellDamage_AshCloak)
                                        } else {
                                            Some(SpellKeywords::SpellDamage_AshFire)
                                        }
                                    }
                                } else {
                                    if i < 224 {
                                        Some(SpellKeywords::SpellDamage_AshFireCloak)
                                    } else {
                                        if i < 225 {
                                            Some(SpellKeywords::SpellDamage_Astral)
                                        } else {
                                            Some(SpellKeywords::SpellDamage_AstralCloak)
                                        }
                                    }
                                }
                            } else {
                                if i < 229 {
                                    if i < 227 {
                                        Some(SpellKeywords::SpellDamage_Blood)
                                    } else {
                                        if i < 228 {
                                            Some(SpellKeywords::SpellDamage_BloodCloak)
                                        } else {
                                            Some(SpellKeywords::SpellDamage_BloodShock)
                                        }
                                    }
                                } else {
                                    if i < 231 {
                                        if i < 230 {
                                            Some(SpellKeywords::SpellDamage_BloodShockCloak)
                                        } else {
                                            Some(SpellKeywords::SpellDamage_Construct)
                                        }
                                    } else {
                                        if i < 232 {
                                            Some(SpellKeywords::SpellDamage_Deconstruct)
                                        } else {
                                            Some(SpellKeywords::SpellDamage_DeconstructCloak)
                                        }
                                    }
                                }
                            }
                        }
                    } else {
                        if i < 246 {
                            if i < 239 {
                                if i < 236 {
                                    if i < 234 {
                                        Some(SpellKeywords::SpellDamage_Disease)
                                    } else {
                                        if i < 235 {
                                            Some(SpellKeywords::SpellDamage_DiseaseCloak)
                                        } else {
                                            Some(SpellKeywords::SpellDamage_Earth)
                                        }
                                    }
                                } else {
                                    if i < 237 {
                                        Some(SpellKeywords::SpellDamage_EarthCloak)
                                    } else {
                                        if i < 238 {
                                            Some(SpellKeywords::SpellDamage_Fire)
                                        } else {
                                            Some(SpellKeywords::SpellDamage_FireArcane)
                                        }
                                    }
                                }
                            } else {
                                if i < 242 {
                                    if i < 240 {
                                        Some(SpellKeywords::SpellDamage_FireArcaneCloak)
                                    } else {
                                        if i < 241 {
                                            Some(SpellKeywords::SpellDamage_FireCloak)
                                        } else {
                                            Some(SpellKeywords::SpellDamage_FireCloakDunmer)
                                        }
                                    }
                                } else {
                                    if i < 244 {
                                        if i < 243 {
                                            Some(SpellKeywords::SpellDamage_FireCold)
                                        } else {
                                            Some(SpellKeywords::SpellDamage_FireColdCloak)
                                        }
                                    } else {
                                        if i < 245 {
                                            Some(SpellKeywords::SpellDamage_FireShock)
                                        } else {
                                            Some(SpellKeywords::SpellDamage_FireShockCloak)
                                        }
                                    }
                                }
                            }
                        } else {
                            if i < 252 {
                                if i < 249 {
                                    if i < 247 {
                                        Some(SpellKeywords::SpellDamage_FireShockFrost)
                                    } else {
                                        if i < 248 {
                                            Some(SpellKeywords::SpellDamage_FireShockFrostCloak)
                                        } else {
                                            Some(SpellKeywords::SpellDamage_Force)
                                        }
                                    }
                                } else {
                                    if i < 250 {
                                        Some(SpellKeywords::SpellDamage_ForceCloak)
                                    } else {
                                        if i < 251 {
                                            Some(SpellKeywords::SpellDamage_Frost)
                                        } else {
                                            Some(SpellKeywords::SpellDamage_FrostCloak)
                                        }
                                    }
                                }
                            } else {
                                if i < 255 {
                                    if i < 253 {
                                        Some(SpellKeywords::SpellDamage_FrostFire)
                                    } else {
                                        if i < 254 {
                                            Some(SpellKeywords::SpellDamage_FrostFireCloak)
                                        } else {
                                            Some(SpellKeywords::SpellDamage_Holy)
                                        }
                                    }
                                } else {
                                    if i < 257 {
                                        if i < 256 {
                                            Some(SpellKeywords::SpellDamage_HolyAstral)
                                        } else {
                                            Some(SpellKeywords::SpellDamage_HolyAstralCloak)
                                        }
                                    } else {
                                        if i < 258 {
                                            Some(SpellKeywords::SpellDamage_HolyCloak)
                                        } else {
                                            Some(SpellKeywords::SpellDamage_HolyLunar)
                                        }
                                    }
                                }
                            }
                        }
                    }
                } else {
                    if i < 285 {
                        if i < 272 {
                            if i < 265 {
                                if i < 262 {
                                    if i < 260 {
                                        Some(SpellKeywords::SpellDamage_HolyLunarCloak)
                                    } else {
                                        if i < 261 {
                                            Some(SpellKeywords::SpellDamage_Light)
                                        } else {
                                            Some(SpellKeywords::SpellDamage_LightCloak)
                                        }
                                    }
                                } else {
                                    if i < 263 {
                                        Some(SpellKeywords::SpellDamage_Necrotic)
                                    } else {
                                        if i < 264 {
                                            Some(SpellKeywords::SpellDamage_NecroticCloak)
                                        } else {
                                            Some(SpellKeywords::SpellDamage_NecroticFire)
                                        }
                                    }
                                }
                            } else {
                                if i < 268 {
                                    if i < 266 {
                                        Some(SpellKeywords::SpellDamage_NecroticFireCloak)
                                    } else {
                                        if i < 267 {
                                            Some(SpellKeywords::SpellDamage_Poison)
                                        } else {
                                            Some(SpellKeywords::SpellDamage_PoisonBug)
                                        }
                                    }
                                } else {
                                    if i < 270 {
                                        if i < 269 {
                                            Some(SpellKeywords::SpellDamage_PoisonBugCloak)
                                        } else {
                                            Some(SpellKeywords::SpellDamage_PoisonCloak)
                                        }
                                    } else {
                                        if i < 271 {
                                            Some(SpellKeywords::SpellDamage_PoisonDoomstone)
                                        } else {
                                            Some(SpellKeywords::SpellDamage_PoisonEldritch)
                                        }
                                    }
                                }
                            }
                        } else {
                            if i < 278 {
                                if i < 275 {
                                    if i < 273 {
                                        Some(SpellKeywords::SpellDamage_PoisonEldritchCloak)
                                    } else {
                                        if i < 274 {
                                            Some(SpellKeywords::SpellDamage_Shadow)
                                        } else {
                                            Some(SpellKeywords::SpellDamage_ShadowCloak)
                                        }
                                    }
                                } else {
                                    if i < 276 {
                                        Some(SpellKeywords::SpellDamage_Shock)
                                    } else {
                                        if i < 277 {
                                            Some(SpellKeywords::SpellDamage_ShockArc)
                                        } else {
                                            Some(SpellKeywords::SpellDamage_ShockArcCloak)
                                        }
                                    }
                                }
                            } else {
                                if i < 281 {
                                    if i < 279 {
                                        Some(SpellKeywords::SpellDamage_ShockCloak)
                                    } else {
                                        if i < 280 {
                                            Some(SpellKeywords::SpellDamage_ShockStorm)
                                        } else {
                                            Some(SpellKeywords::SpellDamage_ShockStormCloak)
                                        }
                                    }
                                } else {
                                    if i < 283 {
                                        if i < 282 {
                                            Some(SpellKeywords::SpellDamage_Sonic)
                                        } else {
                                            Some(SpellKeywords::SpellDamage_SonicCloak)
                                        }
                                    } else {
                                        if i < 284 {
                                            Some(SpellKeywords::SpellDamage_Steam)
                                        } else {
                                            Some(SpellKeywords::SpellDamage_SteamCloak)
                                        }
                                    }
                                }
                            }
                        }
                    } else {
                        if i < 298 {
                            if i < 291 {
                                if i < 288 {
                                    if i < 286 {
                                        Some(SpellKeywords::SpellDamage_Water)
                                    } else {
                                        if i < 287 {
                                            Some(SpellKeywords::SpellDamage_WaterCloak)
                                        } else {
                                            Some(SpellKeywords::SpellDamage_Wind)
                                        }
                                    }
                                } else {
                                    if i < 289 {
                                        Some(SpellKeywords::SpellDamage_WindCloak)
                                    } else {
                                        if i < 290 {
                                            Some(SpellKeywords::SpellDispel)
                                        } else {
                                            Some(SpellKeywords::SpellDivination)
                                        }
                                    }
                                }
                            } else {
                                if i < 294 {
                                    if i < 292 {
                                        Some(SpellKeywords::SpellEnchant)
                                    } else {
                                        if i < 293 {
                                            Some(SpellKeywords::SpellEnhance_Attack)
                                        } else {
                                            Some(SpellKeywords::SpellEnhance_Blood)
                                        }
                                    }
                                } else {
                                    if i < 296 {
                                        if i < 295 {
                                            Some(SpellKeywords::SpellEnhance_CarryWeight)
                                        } else {
                                            Some(SpellKeywords::SpellEnhance_Casting)
                                        }
                                    } else {
                                        if i < 297 {
                                            Some(SpellKeywords::SpellEnhance_CastingDruid)
                                        } else {
                                            Some(SpellKeywords::SpellEnhance_CastingEldritch)
                                        }
                                    }
                                }
                            }
                        } else {
                            if i < 304 {
                                if i < 301 {
                                    if i < 299 {
                                        Some(SpellKeywords::SpellEnhance_CritShadowInvis)
                                    } else {
                                        if i < 300 {
                                            Some(SpellKeywords::SpellEnhance_Damage)
                                        } else {
                                            Some(SpellKeywords::SpellEnhance_DamageArcane)
                                        }
                                    }
                                } else {
                                    if i < 302 {
                                        Some(SpellKeywords::SpellEnhance_DamageAshFire)
                                    } else {
                                        if i < 303 {
                                            Some(SpellKeywords::SpellEnhance_DamageBlood)
                                        } else {
                                            Some(SpellKeywords::SpellEnhance_DamageBloodDruid)
                                        }
                                    }
                                }
                            } else {
                                if i < 307 {
                                    if i < 305 {
                                        Some(SpellKeywords::SpellEnhance_DamageDruidHunter)
                                    } else {
                                        if i < 306 {
                                            Some(SpellKeywords::SpellEnhance_DamageFire)
                                        } else {
                                            Some(SpellKeywords::SpellEnhance_DamageFrost)
                                        }
                                    }
                                } else {
                                    if i < 309 {
                                        if i < 308 {
                                            Some(SpellKeywords::SpellEnhance_DamageHolyAstral)
                                        } else {
                                            Some(SpellKeywords::SpellEnhance_DamageHolyLunar)
                                        }
                                    } else {
                                        if i < 310 {
                                            Some(SpellKeywords::SpellEnhance_DamagePoison)
                                        } else {
                                            Some(SpellKeywords::SpellEnhance_DamagePoisonEldritch)
                                        }
                                    }
                                }
                            }
                        }
                    }
                }
            } else {
                if i < 363 {
                    if i < 337 {
                        if i < 324 {
                            if i < 317 {
                                if i < 314 {
                                    if i < 312 {
                                        Some(SpellKeywords::SpellEnhance_DamageShadow)
                                    } else {
                                        if i < 313 {
                                            Some(SpellKeywords::SpellEnhance_DamageShock)
                                        } else {
                                            Some(SpellKeywords::SpellEnhance_DamageShockArc)
                                        }
                                    }
                                } else {
                                    if i < 315 {
                                        Some(SpellKeywords::SpellEnhance_Dodge)
                                    } else {
                                        if i < 316 {
                                            Some(SpellKeywords::SpellEnhance_Eldritch)
                                        } else {
                                            Some(SpellKeywords::SpellEnhance_EldritchTome)
                                        }
                                    }
                                }
                            } else {
                                if i < 320 {
                                    if i < 318 {
                                        Some(SpellKeywords::SpellEnhance_Evasion)
                                    } else {
                                        if i < 319 {
                                            Some(SpellKeywords::SpellEnhance_EvasionDruid)
                                        } else {
                                            Some(SpellKeywords::SpellEnhance_Fall)
                                        }
                                    }
                                } else {
                                    if i < 322 {
                                        if i < 321 {
                                            Some(SpellKeywords::SpellEnhance_Flight)
                                        } else {
                                            Some(SpellKeywords::SpellEnhance_Health)
                                        }
                                    } else {
                                        if i < 323 {
                                            Some(SpellKeywords::SpellEnhance_Jump)
                                        } else {
                                            Some(SpellKeywords::SpellEnhance_MovementSpeed)
                                        }
                                    }
                                }
                            }
                        } else {
                            if i < 330 {
                                if i < 327 {
                                    if i < 325 {
                                        Some(SpellKeywords::SpellEnhance_MovementSpeedDruid)
                                    } else {
                                        if i < 326 {
                                            Some(SpellKeywords::SpellEnhance_Regen)
                                        } else {
                                            Some(SpellKeywords::SpellEnhance_RegenShadowInvis)
                                        }
                                    }
                                } else {
                                    if i < 328 {
                                        Some(SpellKeywords::SpellEnhance_Sight)
                                    } else {
                                        if i < 329 {
                                            Some(SpellKeywords::SpellEnhance_SightKhajiit)
                                        } else {
                                            Some(SpellKeywords::SpellEnhance_SightVampireBlood)
                                        }
                                    }
                                }
                            } else {
                                if i < 333 {
                                    if i < 331 {
                                        Some(SpellKeywords::SpellEnhance_SightVampireShadow)
                                    } else {
                                        if i < 332 {
                                            Some(SpellKeywords::SpellEnhance_SightWerebeast)
                                        } else {
                                            Some(SpellKeywords::SpellEnhance_SpellCost)
                                        }
                                    }
                                } else {
                                    if i < 335 {
                                        if i < 334 {
                                            Some(SpellKeywords::SpellEnhance_StaminaDruid)
                                        } else {
                                            Some(SpellKeywords::SpellEnhance_Swim)
                                        }
                                    } else {
                                        if i < 336 {
                                            Some(SpellKeywords::SpellEnhance_WaterBreath)
                                        } else {
                                            Some(SpellKeywords::SpellEnhance_WaterWalk)
                                        }
                                    }
                                }
                            }
                        }
                    } else {
                        if i < 350 {
                            if i < 343 {
                                if i < 340 {
                                    if i < 338 {
                                        Some(SpellKeywords::SpellEthereal)
                                    } else {
                                        if i < 339 {
                                            Some(SpellKeywords::SpellForce)
                                        } else {
                                            Some(SpellKeywords::SpellHarvest)
                                        }
                                    }
                                } else {
                                    if i < 341 {
                                        Some(SpellKeywords::SpellHeal_Construct)
                                    } else {
                                        if i < 342 {
                                            Some(SpellKeywords::SpellHeal_Daedra)
                                        } else {
                                            Some(SpellKeywords::SpellHeal_Living)
                                        }
                                    }
                                }
                            } else {
                                if i < 346 {
                                    if i < 344 {
                                        Some(SpellKeywords::SpellHeal_LivingCircle)
                                    } else {
                                        if i < 345 {
                                            Some(SpellKeywords::SpellHeal_LivingWater)
                                        } else {
                                            Some(SpellKeywords::SpellHeal_Self)
                                        }
                                    }
                                } else {
                                    if i < 348 {
                                        if i < 347 {
                                            Some(SpellKeywords::SpellHeal_SelfCloak)
                                        } else {
                                            Some(SpellKeywords::SpellHeal_Undead)
                                        }
                                    } else {
                                        if i < 349 {
                                            Some(SpellKeywords::SpellLight)
                                        } else {
                                            Some(SpellKeywords::SpellMind_Charm)
                                        }
                                    }
                                }
                            }
                        } else {
                            if i < 356 {
                                if i < 353 {
                                    if i < 351 {
                                        Some(SpellKeywords::SpellMind_CharmImperial)
                                    } else {
                                        if i < 352 {
                                            Some(SpellKeywords::SpellMind_Control)
                                        } else {
                                            Some(SpellKeywords::SpellMind_ControlBosmer)
                                        }
                                    }
                                } else {
                                    if i < 354 {
                                        Some(SpellKeywords::SpellMind_ControlVampire)
                                    } else {
                                        if i < 355 {
                                            Some(SpellKeywords::SpellMind_Courage)
                                        } else {
                                            Some(SpellKeywords::SpellMind_Fear)
                                        }
                                    }
                                }
                            } else {
                                if i < 359 {
                                    if i < 357 {
                                        Some(SpellKeywords::SpellMind_FearNord)
                                    } else {
                                        if i < 358 {
                                            Some(SpellKeywords::SpellMind_FearVampire)
                                        } else {
                                            Some(SpellKeywords::SpellMind_Frenzy)
                                        }
                                    }
                                } else {
                                    if i < 361 {
                                        if i < 360 {
                                            Some(SpellKeywords::SpellMind_FrenzyShadow)
                                        } else {
                                            Some(SpellKeywords::SpellMind_Paralysis)
                                        }
                                    } else {
                                        if i < 362 {
                                            Some(SpellKeywords::SpellMind_Rally)
                                        } else {
                                            Some(SpellKeywords::SpellParalysis_Ash)
                                        }
                                    }
                                }
                            }
                        }
                    }
                } else {
                    if i < 389 {
                        if i < 376 {
                            if i < 369 {
                                if i < 366 {
                                    if i < 364 {
                                        Some(SpellKeywords::SpellParalysis_AshCloak)
                                    } else {
                                        if i < 365 {
                                            Some(SpellKeywords::SpellParalysis_Druid)
                                        } else {
                                            Some(SpellKeywords::SpellParalysis)
                                        }
                                    }
                                } else {
                                    if i < 367 {
                                        Some(SpellKeywords::SpellProject)
                                    } else {
                                        if i < 368 {
                                            Some(SpellKeywords::SpellProtect_Damage)
                                        } else {
                                            Some(SpellKeywords::SpellProtect_ElementFire)
                                        }
                                    }
                                }
                            } else {
                                if i < 372 {
                                    if i < 370 {
                                        Some(SpellKeywords::SpellProtect_ElementFrost)
                                    } else {
                                        if i < 371 {
                                            Some(SpellKeywords::SpellProtect_ElementPoison)
                                        } else {
                                            Some(SpellKeywords::SpellProtect_ElementShock)
                                        }
                                    }
                                } else {
                                    if i < 374 {
                                        if i < 373 {
                                            Some(SpellKeywords::SpellProtect_Magic)
                                        } else {
                                            Some(SpellKeywords::SpellProtect_Warmth)
                                        }
                                    } else {
                                        if i < 375 {
                                            Some(SpellKeywords::SpellReanimate)
                                        } else {
                                            Some(SpellKeywords::SpellReanimateDoomstone)
                                        }
                                    }
                                }
                            }
                        } else {
                            if i < 382 {
                                if i < 379 {
                                    if i < 377 {
                                        Some(SpellKeywords::SpellReflect_Druid)
                                    } else {
                                        if i < 378 {
                                            Some(SpellKeywords::SpellRestore_Exposure)
                                        } else {
                                            Some(SpellKeywords::SpellRestore_Magicka)
                                        }
                                    }
                                } else {
                                    if i < 380 {
                                        Some(SpellKeywords::SpellRestore_MagickaCircle)
                                    } else {
                                        if i < 381 {
                                            Some(SpellKeywords::SpellRestore_MagickaWater)
                                        } else {
                                            Some(SpellKeywords::SpellRestore_Stamina)
                                        }
                                    }
                                }
                            } else {
                                if i < 385 {
                                    if i < 383 {
                                        Some(SpellKeywords::SpellRestore_StaminaCircle)
                                    } else {
                                        if i < 384 {
                                            Some(SpellKeywords::SpellRestore_StaminaDruid)
                                        } else {
                                            Some(SpellKeywords::SpellRestore_Warmth)
                                        }
                                    }
                                } else {
                                    if i < 387 {
                                        if i < 386 {
                                            Some(SpellKeywords::SpellSacrifice_Blood)
                                        } else {
                                            Some(SpellKeywords::SpellSacrifice)
                                        }
                                    } else {
                                        if i < 388 {
                                            Some(SpellKeywords::SpellShapechange_Vampire)
                                        } else {
                                            Some(SpellKeywords::SpellShapechange_Werebeast)
                                        }
                                    }
                                }
                            }
                        }
                    } else {
                        if i < 402 {
                            if i < 395 {
                                if i < 392 {
                                    if i < 390 {
                                        Some(SpellKeywords::SpellShapechange)
                                    } else {
                                        if i < 391 {
                                            Some(SpellKeywords::SpellShield_Druid)
                                        } else {
                                            Some(SpellKeywords::SpellShield_Warmth)
                                        }
                                    }
                                } else {
                                    if i < 393 {
                                        Some(SpellKeywords::SpellSilence)
                                    } else {
                                        if i < 394 {
                                            Some(SpellKeywords::SpellSoulTrap)
                                        } else {
                                            Some(SpellKeywords::SpellSoulTrapCloak)
                                        }
                                    }
                                }
                            } else {
                                if i < 398 {
                                    if i < 396 {
                                        Some(SpellKeywords::SpellSpace_Banish)
                                    } else {
                                        if i < 397 {
                                            Some(SpellKeywords::SpellSpace_Teleport)
                                        } else {
                                            Some(SpellKeywords::SpellSpace)
                                        }
                                    }
                                } else {
                                    if i < 400 {
                                        if i < 399 {
                                            Some(SpellKeywords::SpellStealth_Invisibility)
                                        } else {
                                            Some(SpellKeywords::SpellStealth_InvisibilityDoomstone)
                                        }
                                    } else {
                                        if i < 401 {
                                            Some(SpellKeywords::SpellStealth_InvisibilityDruid)
                                        } else {
                                            Some(SpellKeywords::SpellStealth_InvisibilityVampire)
                                        }
                                    }
                                }
                            }
                        } else {
                            if i < 408 {
                                if i < 405 {
                                    if i < 403 {
                                        Some(SpellKeywords::SpellStealth)
                                    } else {
                                        if i < 404 {
                                            Some(SpellKeywords::SpellSummon_Construct)
                                        } else {
                                            Some(SpellKeywords::SpellSummon_Creature)
                                        }
                                    }
                                } else {
                                    if i < 406 {
                                        Some(SpellKeywords::SpellSummon_Daedra)
                                    } else {
                                        if i < 407 {
                                            Some(SpellKeywords::SpellSummon_Object)
                                        } else {
                                            Some(SpellKeywords::SpellSummon_Spirit)
                                        }
                                    }
                                }
                            } else {
                                if i < 411 {
                                    if i < 409 {
                                        Some(SpellKeywords::SpellSummon_Undead)
                                    } else {
                                        if i < 410 {
                                            Some(SpellKeywords::SpellTeleport)
                                        } else {
                                            Some(SpellKeywords::SpellTime)
                                        }
                                    }
                                } else {
                                    if i < 413 {
                                        if i < 412 {
                                            Some(SpellKeywords::SpellTransmute)
                                        } else {
                                            Some(SpellKeywords::SpellTurnUndeadCircle)
                                        }
                                    } else {
                                        if i < 414 {
                                            Some(SpellKeywords::SpellUnlock)
                                        } else {
                                            Some(SpellKeywords::SpellWard)
                                        }
                                    }
                                }
                            }
                        }
                    }
                }
            }
        }
    }
}

impl SpellKeywords {
    /// The lower-case name of this keyword.
    pub fn name_str(&self) -> (r: &'static str)
        ensures
            r@ == keyword_name(*self),
    {
        match self {
            SpellKeywords::Archetype_CarryWeight => "archetype_carryweight",
            SpellKeywords::Archetype_Cure => "archetype_cure",
            SpellKeywords::Archetype_Detect => "archetype_detect",
            SpellKeywords::Archetype_Guide => "archetype_guide",
            SpellKeywords::Archetype_Light => "archetype_light",
            SpellKeywords::Archetype_NightEye => "archetype_nighteye",
            SpellKeywords::Archetype_Protect => "archetype_protect",
            SpellKeywords::Archetype_Reflect => "archetype_reflect",
            SpellKeywords::Archetype_Resist => "archetype_resist",
            SpellKeywords::Archetype_Root => "archetype_root",
            SpellKeywords::Archetype_Silence => "archetype_silence",
            SpellKeywords::Archetype_Teleport => "archetype_teleport",
            SpellKeywords::Archetype_Waterbreathing => "archetype_waterbreathing",
            SpellKeywords::Archetype_Waterwalking => "archetype_waterwalking",
            SpellKeywords::Archetype_WeaponBuff => "archetype_weaponbuff",
            SpellKeywords::BoundWarAxe => "boundwaraxe",
            SpellKeywords::BoundBattleAxe => "boundbattleaxe",
            SpellKeywords::BoundBow => "boundbow",
            SpellKeywords::BoundDagger => "bounddagger",
            SpellKeywords::BoundHammer => "boundhammer",
            SpellKeywords::BoundMace => "boundmace",
            SpellKeywords::BoundShield => "boundshield",
            SpellKeywords::BoundSword => "boundsword",
            SpellKeywords::BoundGreatsword => "boundgreatsword",
            SpellKeywords::MagicArmorSpell => "magicarmorspell",
            SpellKeywords::MagicCloak => "magiccloak",
            SpellKeywords::MagicDamageFire => "magicdamagefire",
            SpellKeywords::MagicDamageFrost => "magicdamagefrost",
            SpellKeywords::MagicDamageResist => "magicdamageresist",
            SpellKeywords::MagicDamageShock => "magicdamageshock",
            SpellKeywords::MagicInfluence => "magicinfluence",
            SpellKeywords::MagicInfluenceCharm => "magicinfluencecharm",
            SpellKeywords::MagicInfluenceFear => "magicinfluencefear",
            SpellKeywords::MagicInfluenceFrenzy => "magicinfluencefrenzy",
            SpellKeywords::MagicInvisibility => "magicinvisibility",
            SpellKeywords::MagicNightEye => "magicnighteye",
            SpellKeywords::MagicParalysis => "magicparalysis",
            SpellKeywords::MagicRestoreHealth => "magicrestorehealth",
            SpellKeywords::MagicRune => "magicrune",
            SpellKeywords::MagicSlow => "magicslow",
            SpellKeywords::MagicSummonFamiliar => "magicsummonfamiliar",
            SpellKeywords::MagicSummonFire => "magicsummonfire",
            SpellKeywords::MagicSummonFrost => "magicsummonfrost",
            SpellKeywords::MagicSummonShock => "magicsummonshock",
            SpellKeywords::MagicSummonUndead => "magicsummonundead",
            SpellKeywords::MagicTelekinesis => "magictelekinesis",
            SpellKeywords::MagicTurnUndead => "magicturnundead",
            SpellKeywords::MagicWard => "magicward",
            SpellKeywords::MagicWeaponSpeed => "magicweaponspeed",
            SpellKeywords::MAG_MagicDamageSun => "mag_magicdamagesun",
            SpellKeywords::IconWind => "iconwind",
            SpellKeywords::IconMagicWind => "iconmagicwind",
            SpellKeywords::IconWater => "iconwater",
            SpellKeywords::IconMagicWater => "iconmagicwater",
            SpellKeywords::DAR_SummonAstralWyrm => "dar_summonastralwyrm",
            SpellKeywords::Shout_AnimalAllegiance => "shout_animalallegiance",
            SpellKeywords::Shout_AuraWhisper => "shout_aurawhisper",
            SpellKeywords::Shout_BattleFury => "shout_battlefury",
            SpellKeywords::Shout_BecomeEthereal => "shout_becomeethereal",
            SpellKeywords::Shout_BendWill => "shout_bendwill",
            SpellKeywords::Shout_CallDragon => "shout_calldragon",
            SpellKeywords::Shout_CallOfValor => "shout_callofvalor",
            SpellKeywords::Shout_ClearSkies => "shout_clearskies",
            SpellKeywords::Shout_Disarm => "shout_disarm",
            SpellKeywords::Shout_Dismay => "shout_dismay",
            SpellKeywords::Shout_DragonAspect => "shout_dragonaspect",
            SpellKeywords::Shout_Dragonrend => "shout_dragonrend",
            SpellKeywords::Shout_DrainVitality => "shout_drainvitality",
            SpellKeywords::Shout_ElementalFury => "shout_elementalfury",
            SpellKeywords::Shout_FireBreath => "shout_firebreath",
            SpellKeywords::Shout_FrostBreath => "shout_frostbreath",
            SpellKeywords::Shout_IceForm => "shout_iceform",
            SpellKeywords::Shout_KynesPeace => "shout_kynespeace",
            SpellKeywords::Shout_MarkedForDeath => "shout_markedfordeath",
            SpellKeywords::Shout_Slowtime => "shout_slowtime",
            SpellKeywords::Shout_SoulTear => "shout_soultear",
            SpellKeywords::Shout_Stormcall => "shout_stormcall",
            SpellKeywords::Shout_SummonDurnehviir => "shout_summondurnehviir",
            SpellKeywords::Shout_ThrowVoice => "shout_throwvoice",
            SpellKeywords::Shout_UnrelentingForce => "shout_unrelentingforce",
            SpellKeywords::Shout_WhirlwindSprint => "shout_whirlwindsprint",
            SpellKeywords::Shout_SoulCairnSummon => "shout_soulcairnsummon",
            SpellKeywords::Shout_PhantomForm => "shout_phantomform",
            SpellKeywords::Shout_LightningBreath => "shout_lightningbreath",
            SpellKeywords::Shout_PoisonBreath => "shout_poisonbreath",
            SpellKeywords::Shout_AlessiasLove => "shout_alessiaslove",
            SpellKeywords::Shout_Annihilate => "shout_annihilate",
            SpellKeywords::Shout_ArcaneHelix => "shout_arcanehelix",
            SpellKeywords::Shout_Armageddon => "shout_armageddon",
            SpellKeywords::Shout_Curse => "shout_curse",
            SpellKeywords::Shout_DanceOfTheDead => "shout_danceofthedead",
            SpellKeywords::Shout_Earthquake => "shout_earthquake",
            SpellKeywords::Shout_EssenceRip => "shout_essencerip",
            SpellKeywords::Shout_Evocation => "shout_evocation",
            SpellKeywords::Shout_Geomagnetism => "shout_geomagnetism",
            SpellKeywords::Shout_Iceborn => "shout_iceborn",
            SpellKeywords::Shout_JonesShadow => "shout_jonesshadow",
            SpellKeywords::Shout_Kingsbane => "shout_kingsbane",
            SpellKeywords::Shout_Lifestream => "shout_lifestream",
            SpellKeywords::Shout_LightningShield => "shout_lightningshield",
            SpellKeywords::Shout_Oblivion => "shout_oblivion",
            SpellKeywords::Shout_PhantomDecoy => "shout_phantomdecoy",
            SpellKeywords::Shout_Riftwalk => "shout_riftwalk",
            SpellKeywords::Shout_Shattersphere => "shout_shattersphere",
            SpellKeywords::Shout_ShorsWrath => "shout_shorswrath",
            SpellKeywords::Shout_ShroudOfSnowfall => "shout_shroudofsnowfall",
            SpellKeywords::Shout_SpeakUntoTheStars => "shout_speakuntothestars",
            SpellKeywords::Shout_SplinterTwins => "shout_splintertwins",
            SpellKeywords::Shout_Stormblast => "shout_stormblast",
            SpellKeywords::Shout_TheConqueror => "shout_theconqueror",
            SpellKeywords::Shout_Trueshot => "shout_trueshot",
            SpellKeywords::Shout_WailOfTheBanshee => "shout_wailofthebanshee",
            SpellKeywords::Shout_Wanderlust => "shout_wanderlust",
            SpellKeywords::Shout_Warcry => "shout_warcry",
            SpellKeywords::ClassArcane => "classarcane",
            SpellKeywords::ClassArtificer => "classartificer",
            SpellKeywords::ClassAsh => "classash",
            SpellKeywords::ClassAstral => "classastral",
            SpellKeywords::ClassBard => "classbard",
            SpellKeywords::ClassBlood => "classblood",
            SpellKeywords::ClassDruid => "classdruid",
            SpellKeywords::ClassDunmer => "classdunmer",
            SpellKeywords::ClassEarth => "classearth",
            SpellKeywords::ClassEldritch => "classeldritch",
            SpellKeywords::ClassFire => "classfire",
            SpellKeywords::ClassFrost => "classfrost",
            SpellKeywords::ClassHoly => "classholy",
            SpellKeywords::ClassMind => "classmind",
            SpellKeywords::ClassNecromancy => "classnecromancy",
            SpellKeywords::ClassPoison => "classpoison",
            SpellKeywords::ClassRace_Altmer => "classrace_altmer",
            SpellKeywords::ClassRace_Argonian => "classrace_argonian",
            SpellKeywords::ClassRace_Bosmer => "classrace_bosmer",
            SpellKeywords::ClassRace_Breton => "classrace_breton",
            SpellKeywords::ClassRace_Dunmer => "classrace_dunmer",
            SpellKeywords::ClassRace_Imperial => "classrace_imperial",
            SpellKeywords::ClassRace_Khajiit => "classrace_khajiit",
            SpellKeywords::ClassRace_Nord => "classrace_nord",
            SpellKeywords::ClassRace_Orsimer => "classrace_orsimer",
            SpellKeywords::ClassRace_Other => "classrace_other",
            SpellKeywords::ClassRace_Redguard => "classrace_redguard",
            SpellKeywords::ClassRace_Vampire => "classrace_vampire",
            SpellKeywords::ClassRace_Werebeast => "classrace_werebeast",
            SpellKeywords::ClassShadow => "classshadow",
            SpellKeywords::ClassShock => "classshock",
            SpellKeywords::ClassSurvival_Needs => "classsurvival_needs",
            SpellKeywords::ClassSurvival_Wilderness => "classsurvival_wilderness",
            SpellKeywords::ClassSurvival => "classsurvival",
            SpellKeywords::ClassUtility => "classutility",
            SpellKeywords::ClassVampire => "classvampire",
            SpellKeywords::ClassWater => "classwater",
            SpellKeywords::ClassWind => "classwind",
            SpellKeywords::ClassWitcher => "classwitcher",
            SpellKeywords::DeliverTouch => "delivertouch",
            SpellKeywords::PowerAction_Bag => "poweraction_bag",
            SpellKeywords::PowerAction_Bard => "poweraction_bard",
            SpellKeywords::PowerAction_Bathe => "poweraction_bathe",
            SpellKeywords::PowerAction_Bless => "poweraction_bless",
            SpellKeywords::PowerAction_BuryCorpse => "poweraction_burycorpse",
            SpellKeywords::PowerAction_Campfire => "poweraction_campfire",
            SpellKeywords::PowerAction_Coin => "poweraction_coin",
            SpellKeywords::PowerAction_CommandFollower => "poweraction_commandfollower",
            SpellKeywords::PowerAction_Craft => "poweraction_craft",
            SpellKeywords::PowerAction_FillWater => "poweraction_fillwater",
            SpellKeywords::PowerAction_Goggles => "poweraction_goggles",
            SpellKeywords::PowerAction_GogglesSight => "poweraction_gogglessight",
            SpellKeywords::PowerAction_HarvestCorpse => "poweraction_harvestcorpse",
            SpellKeywords::PowerAction_HarvestGather => "poweraction_harvestgather",
            SpellKeywords::PowerAction_HarvestWood => "poweraction_harvestwood",
            SpellKeywords::PowerAction_Horse => "poweraction_horse",
            SpellKeywords::PowerAction_Influence => "poweraction_influence",
            SpellKeywords::PowerAction_InfluenceEngage => "poweraction_influenceengage",
            SpellKeywords::PowerAction_Instincts => "poweraction_instincts",
            SpellKeywords::PowerAction_Lantern => "poweraction_lantern",
            SpellKeywords::PowerAction_PeekKeyhole => "poweraction_peekkeyhole",
            SpellKeywords::PowerAction_PitchTent => "poweraction_pitchtent",
            SpellKeywords::PowerAction_Potion => "poweraction_potion",
            SpellKeywords::PowerAction_Pray => "poweraction_pray",
            SpellKeywords::PowerAction_Relax => "poweraction_relax",
            SpellKeywords::PowerAction_Speech => "poweraction_speech",
            SpellKeywords::PowerAction_StatusFrostfall => "poweraction_statusfrostfall",
            SpellKeywords::PowerAction_StatusSunhelm => "poweraction_statussunhelm",
            SpellKeywords::PowerAction_TameAnimal => "poweraction_tameanimal",
            SpellKeywords::PowerAction_Train => "poweraction_train",
            SpellKeywords::PowerAction_WeaponGrip => "poweraction_weapongrip",
            SpellKeywords::PowerAction => "poweraction",
            SpellKeywords::PowerAlteration => "poweralteration",
            SpellKeywords::PowerCheat => "powercheat",
            SpellKeywords::PowerConfig => "powerconfig",
            SpellKeywords::PowerConfigWeatherChanger => "powerconfigweatherchanger",
            SpellKeywords::PowerGrand => "powergrand",
            SpellKeywords::Spell_Enchant => "spell_enchant",
            SpellKeywords::SpellAbsorb_Magicka => "spellabsorb_magicka",
            SpellKeywords::SpellAbsorb_MagickaCircle => "spellabsorb_magickacircle",
            SpellKeywords::SpellAbsorb_MagickaCloak => "spellabsorb_magickacloak",
            SpellKeywords::SpellAbsorb_Stamina => "spellabsorb_stamina",
            SpellKeywords::SpellAbsorb_StaminaCircle => "spellabsorb_staminacircle",
            SpellKeywords::SpellAbsorb_StaminaCloak => "spellabsorb_staminacloak",
            SpellKeywords::SpellAssist_DamageDruid => "spellassist_damagedruid",
            SpellKeywords::SpellAssist_MovementSpeedDruid => "spellassist_movementspeeddruid",
            SpellKeywords::SpellAssist => "spellassist",
            SpellKeywords::SpellBound_Ammo => "spellbound_ammo",
            SpellKeywords::SpellBound_Armor => "spellbound_armor",
            SpellKeywords::SpellBound_MiscItem => "spellbound_miscitem",
            SpellKeywords::SpellBound_Weapon => "spellbound_weapon",
            SpellKeywords::SpellControl => "spellcontrol",
            SpellKeywords::SpellCounter_Astral => "spellcounter_astral",
            SpellKeywords::SpellCounter_BloodDruid => "spellcounter_blooddruid",
            SpellKeywords::SpellCounter_Druid => "spellcounter_druid",
            SpellKeywords::SpellCounter_DruidHeal => "spellcounter_druidheal",
            SpellKeywords::SpellCounter_Fire => "spellcounter_fire",
            SpellKeywords::SpellCure => "spellcure",
            SpellKeywords::SpellCurse_Deconstruct => "spellcurse_deconstruct",
            SpellKeywords::SpellCurse_DruidRoot => "spellcurse_druidroot",
            SpellKeywords::SpellCurse_Shadow => "spellcurse_shadow",
            SpellKeywords::SpellCurse => "spellcurse",
            SpellKeywords::SpellDamage_Arcane => "spelldamage_arcane",
            SpellKeywords::SpellDamage_ArcaneCloak => "spelldamage_arcanecloak",
            SpellKeywords::SpellDamage_ArcaneFire => "spelldamage_arcanefire",
            SpellKeywords::SpellDamage_ArcaneFireCloak => "spelldamage_arcanefirecloak",
            SpellKeywords::SpellDamage_Ash => "spelldamage_ash",
            SpellKeywords::SpellDamage_AshCloak => "spelldamage_ashcloak",
            SpellKeywords::SpellDamage_AshFire => "spelldamage_ashfire",
            SpellKeywords::SpellDamage_AshFireCloak => "spelldamage_ashfirecloak",
            SpellKeywords::SpellDamage_Astral => "spelldamage_astral",
            SpellKeywords::SpellDamage_AstralCloak => "spelldamage_astralcloak",
            SpellKeywords::SpellDamage_Blood => "spelldamage_blood",
            SpellKeywords::SpellDamage_BloodCloak => "spelldamage_bloodcloak",
            SpellKeywords::SpellDamage_BloodShock => "spelldamage_bloodshock",
            SpellKeywords::SpellDamage_BloodShockCloak => "spelldamage_bloodshockcloak",
            SpellKeywords::SpellDamage_Construct => "spelldamage_construct",
            SpellKeywords::SpellDamage_Deconstruct => "spelldamage_deconstruct",
            SpellKeywords::SpellDamage_DeconstructCloak => "spelldamage_deconstructcloak",
            SpellKeywords::SpellDamage_Disease => "spelldamage_disease",
            SpellKeywords::SpellDamage_DiseaseCloak => "spelldamage_diseasecloak",
            SpellKeywords::SpellDamage_Earth => "spelldamage_earth",
            SpellKeywords::SpellDamage_EarthCloak => "spelldamage_earthcloak",
            SpellKeywords::SpellDamage_Fire => "spelldamage_fire",
            SpellKeywords::SpellDamage_FireArcane => "spelldamage_firearcane",
            SpellKeywords::SpellDamage_FireArcaneCloak => "spelldamage_firearcanecloak",
            SpellKeywords::SpellDamage_FireCloak => "spelldamage_firecloak",
            SpellKeywords::SpellDamage_FireCloakDunmer => "spelldamage_firecloakdunmer",
            SpellKeywords::SpellDamage_FireCold => "spelldamage_firecold",
            SpellKeywords::SpellDamage_FireColdCloak => "spelldamage_firecoldcloak",
            SpellKeywords::SpellDamage_FireShock => "spelldamage_fireshock",
            SpellKeywords::SpellDamage_FireShockCloak => "spelldamage_fireshockcloak",
            SpellKeywords::SpellDamage_FireShockFrost => "spelldamage_fireshockfrost",
            SpellKeywords::SpellDamage_FireShockFrostCloak => "spelldamage_fireshockfrostcloak",
            SpellKeywords::SpellDamage_Force => "spelldamage_force",
            SpellKeywords::SpellDamage_ForceCloak => "spelldamage_forcecloak",
            SpellKeywords::SpellDamage_Frost => "spelldamage_frost",
            SpellKeywords::SpellDamage_FrostCloak => "spelldamage_frostcloak",
            SpellKeywords::SpellDamage_FrostFire => "spelldamage_frostfire",
            SpellKeywords::SpellDamage_FrostFireCloak => "spelldamage_frostfirecloak",
            SpellKeywords::SpellDamage_Holy => "spelldamage_holy",
            SpellKeywords::SpellDamage_HolyAstral => "spelldamage_holyastral",
            SpellKeywords::SpellDamage_HolyAstralCloak => "spelldamage_holyastralcloak",
            SpellKeywords::SpellDamage_HolyCloak => "spelldamage_holycloak",
            SpellKeywords::SpellDamage_HolyLunar => "spelldamage_holylunar",
            SpellKeywords::SpellDamage_HolyLunarCloak => "spelldamage_holylunarcloak",
            SpellKeywords::SpellDamage_Light => "spelldamage_light",
            SpellKeywords::SpellDamage_LightCloak => "spelldamage_lightcloak",
            SpellKeywords::SpellDamage_Necrotic => "spelldamage_necrotic",
            SpellKeywords::SpellDamage_NecroticCloak => "spelldamage_necroticcloak",
            SpellKeywords::SpellDamage_NecroticFire => "spelldamage_necroticfire",
            SpellKeywords::SpellDamage_NecroticFireCloak => "spelldamage_necroticfirecloak",
            SpellKeywords::SpellDamage_Poison => "spelldamage_poison",
            SpellKeywords::SpellDamage_PoisonBug => "spelldamage_poisonbug",
            SpellKeywords::SpellDamage_PoisonBugCloak => "spelldamage_poisonbugcloak",
            SpellKeywords::SpellDamage_PoisonCloak => "spelldamage_poisoncloak",
            SpellKeywords::SpellDamage_PoisonDoomstone => "spelldamage_poisondoomstone",
            SpellKeywords::SpellDamage_PoisonEldritch => "spelldamage_poisoneldritch",
            SpellKeywords::SpellDamage_PoisonEldritchCloak => "spelldamage_poisoneldritchcloak",
            SpellKeywords::SpellDamage_Shadow => "spelldamage_shadow",
            SpellKeywords::SpellDamage_ShadowCloak => "spelldamage_shadowcloak",
            SpellKeywords::SpellDamage_Shock => "spelldamage_shock",
            SpellKeywords::SpellDamage_ShockArc => "spelldamage_shockarc",
            SpellKeywords::SpellDamage_ShockArcCloak => "spelldamage_shockarccloak",
            SpellKeywords::SpellDamage_ShockCloak => "spelldamage_shockcloak",
            SpellKeywords::SpellDamage_ShockStorm => "spelldamage_shockstorm",
            SpellKeywords::SpellDamage_ShockStormCloak => "spelldamage_shockstormcloak",
            SpellKeywords::SpellDamage_Sonic => "spelldamage_sonic",
            SpellKeywords::SpellDamage_SonicCloak => "spelldamage_soniccloak",
            SpellKeywords::SpellDamage_Steam => "spelldamage_steam",
            SpellKeywords::SpellDamage_SteamCloak => "spelldamage_steamcloak",
            SpellKeywords::SpellDamage_Water => "spelldamage_water",
            SpellKeywords::SpellDamage_WaterCloak => "spelldamage_watercloak",
            SpellKeywords::SpellDamage_Wind => "spelldamage_wind",
            SpellKeywords::SpellDamage_WindCloak => "spelldamage_windcloak",
            SpellKeywords::SpellDispel => "spelldispel",
            SpellKeywords::SpellDivination => "spelldivination",
            SpellKeywords::SpellEnchant => "spellenchant",
            SpellKeywords::SpellEnhance_Attack => "spellenhance_attack",
            SpellKeywords::SpellEnhance_Blood => "spellenhance_blood",
            SpellKeywords::SpellEnhance_CarryWeight => "spellenhance_carryweight",
            SpellKeywords::SpellEnhance_Casting => "spellenhance_casting",
            SpellKeywords::SpellEnhance_CastingDruid => "spellenhance_castingdruid",
            SpellKeywords::SpellEnhance_CastingEldritch => "spellenhance_castingeldritch",
            SpellKeywords::SpellEnhance_CritShadowInvis => "spellenhance_critshadowinvis",
            SpellKeywords::SpellEnhance_Damage => "spellenhance_damage",
            SpellKeywords::SpellEnhance_DamageArcane => "spellenhance_damagearcane",
            SpellKeywords::SpellEnhance_DamageAshFire => "spellenhance_damageashfire",
            SpellKeywords::SpellEnhance_DamageBlood => "spellenhance_damageblood",
            SpellKeywords::SpellEnhance_DamageBloodDruid => "spellenhance_damageblooddruid",
            SpellKeywords::SpellEnhance_DamageDruidHunter => "spellenhance_damagedruidhunter",
            SpellKeywords::SpellEnhance_DamageFire => "spellenhance_damagefire",
            SpellKeywords::SpellEnhance_DamageFrost => "spellenhance_damagefrost",
            SpellKeywords::SpellEnhance_DamageHolyAstral => "spellenhance_damageholyastral",
            SpellKeywords::SpellEnhance_DamageHolyLunar => "spellenhance_damageholylunar",
            SpellKeywords::SpellEnhance_DamagePoison => "spellenhance_damagepoison",
            SpellKeywords::SpellEnhance_DamagePoisonEldritch => "spellenhance_damagepoisoneldritch",
            SpellKeywords::SpellEnhance_DamageShadow => "spellenhance_damageshadow",
            SpellKeywords::SpellEnhance_DamageShock => "spellenhance_damageshock",
            SpellKeywords::SpellEnhance_DamageShockArc => "spellenhance_damageshockarc",
            SpellKeywords::SpellEnhance_Dodge => "spellenhance_dodge",
            SpellKeywords::SpellEnhance_Eldritch => "spellenhance_eldritch",
            SpellKeywords::SpellEnhance_EldritchTome => "spellenhance_eldritchtome",
            SpellKeywords::SpellEnhance_Evasion => "spellenhance_evasion",
            SpellKeywords::SpellEnhance_EvasionDruid => "spellenhance_evasiondruid",
            SpellKeywords::SpellEnhance_Fall => "spellenhance_fall",
            SpellKeywords::SpellEnhance_Flight => "spellenhance_flight",
            SpellKeywords::SpellEnhance_Health => "spellenhance_health",
            SpellKeywords::SpellEnhance_Jump => "spellenhance_jump",
            SpellKeywords::SpellEnhance_MovementSpeed => "spellenhance_movementspeed",
            SpellKeywords::SpellEnhance_MovementSpeedDruid => "spellenhance_movementspeeddruid",
            SpellKeywords::SpellEnhance_Regen => "spellenhance_regen",
            SpellKeywords::SpellEnhance_RegenShadowInvis => "spellenhance_regenshadowinvis",
            SpellKeywords::SpellEnhance_Sight => "spellenhance_sight",
            SpellKeywords::SpellEnhance_SightKhajiit => "spellenhance_sightkhajiit",
            SpellKeywords::SpellEnhance_SightVampireBlood => "spellenhance_sightvampireblood",
            SpellKeywords::SpellEnhance_SightVampireShadow => "spellenhance_sightvampireshadow",
            SpellKeywords::SpellEnhance_SightWerebeast => "spellenhance_sightwerebeast",
            SpellKeywords::SpellEnhance_SpellCost => "spellenhance_spellcost",
            SpellKeywords::SpellEnhance_StaminaDruid => "spellenhance_staminadruid",
            SpellKeywords::SpellEnhance_Swim => "spellenhance_swim",
            SpellKeywords::SpellEnhance_WaterBreath => "spellenhance_waterbreath",
            SpellKeywords::SpellEnhance_WaterWalk => "spellenhance_waterwalk",
            SpellKeywords::SpellEthereal => "spellethereal",
            SpellKeywords::SpellForce => "spellforce",
            SpellKeywords::SpellHarvest => "spellharvest",
            SpellKeywords::SpellHeal_Construct => "spellheal_construct",
            SpellKeywords::SpellHeal_Daedra => "spellheal_daedra",
            SpellKeywords::SpellHeal_Living => "spellheal_living",
            SpellKeywords::SpellHeal_LivingCircle => "spellheal_livingcircle",
            SpellKeywords::SpellHeal_LivingWater => "spellheal_livingwater",
            SpellKeywords::SpellHeal_Self => "spellheal_self",
            SpellKeywords::SpellHeal_SelfCloak => "spellheal_selfcloak",
            SpellKeywords::SpellHeal_Undead => "spellheal_undead",
            SpellKeywords::SpellLight => "spelllight",
            SpellKeywords::SpellMind_Charm => "spellmind_charm",
            SpellKeywords::SpellMind_CharmImperial => "spellmind_charmimperial",
            SpellKeywords::SpellMind_Control => "spellmind_control",
            SpellKeywords::SpellMind_ControlBosmer => "spellmind_controlbosmer",
            SpellKeywords::SpellMind_ControlVampire => "spellmind_controlvampire",
            SpellKeywords::SpellMind_Courage => "spellmind_courage",
            SpellKeywords::SpellMind_Fear => "spellmind_fear",
            SpellKeywords::SpellMind_FearNord => "spellmind_fearnord",
            SpellKeywords::SpellMind_FearVampire => "spellmind_fearvampire",
            SpellKeywords::SpellMind_Frenzy => "spellmind_frenzy",
            SpellKeywords::SpellMind_FrenzyShadow => "spellmind_frenzyshadow",
            SpellKeywords::SpellMind_Paralysis => "spellmind_paralysis",
            SpellKeywords::SpellMind_Rally => "spellmind_rally",
            SpellKeywords::SpellParalysis_Ash => "spellparalysis_ash",
            SpellKeywords::SpellParalysis_AshCloak => "spellparalysis_ashcloak",
            SpellKeywords::SpellParalysis_Druid => "spellparalysis_druid",
            SpellKeywords::SpellParalysis => "spellparalysis",
            SpellKeywords::SpellProject => "spellproject",
            SpellKeywords::SpellProtect_Damage => "spellprotect_damage",
            SpellKeywords::SpellProtect_ElementFire => "spellprotect_elementfire",
            SpellKeywords::SpellProtect_ElementFrost => "spellprotect_elementfrost",
            SpellKeywords::SpellProtect_ElementPoison => "spellprotect_elementpoison",
            SpellKeywords::SpellProtect_ElementShock => "spellprotect_elementshock",
            SpellKeywords::SpellProtect_Magic => "spellprotect_magic",
            SpellKeywords::SpellProtect_Warmth => "spellprotect_warmth",
            SpellKeywords::SpellReanimate => "spellreanimate",
            SpellKeywords::SpellReanimateDoomstone => "spellreanimatedoomstone",
            SpellKeywords::SpellReflect_Druid => "spellreflect_druid",
            SpellKeywords::SpellRestore_Exposure => "spellrestore_exposure",
            SpellKeywords::SpellRestore_Magicka => "spellrestore_magicka",
            SpellKeywords::SpellRestore_MagickaCircle => "spellrestore_magickacircle",
            SpellKeywords::SpellRestore_MagickaWater => "spellrestore_magickawater",
            SpellKeywords::SpellRestore_Stamina => "spellrestore_stamina",
            SpellKeywords::SpellRestore_StaminaCircle => "spellrestore_staminacircle",
            SpellKeywords::SpellRestore_StaminaDruid => "spellrestore_staminadruid",
            SpellKeywords::SpellRestore_Warmth => "spellrestore_warmth",
            SpellKeywords::SpellSacrifice_Blood => "spellsacrifice_blood",
            SpellKeywords::SpellSacrifice => "spellsacrifice",
            SpellKeywords::SpellShapechange_Vampire => "spellshapechange_vampire",
            SpellKeywords::SpellShapechange_Werebeast => "spellshapechange_werebeast",
            SpellKeywords::SpellShapechange => "spellshapechange",
            SpellKeywords::SpellShield_Druid => "spellshield_druid",
            SpellKeywords::SpellShield_Warmth => "spellshield_warmth",
            SpellKeywords::SpellSilence => "spellsilence",
            SpellKeywords::SpellSoulTrap => "spellsoultrap",
            SpellKeywords::SpellSoulTrapCloak => "spellsoultrapcloak",
            SpellKeywords::SpellSpace_Banish => "spellspace_banish",
            SpellKeywords::SpellSpace_Teleport => "spellspace_teleport",
            SpellKeywords::SpellSpace => "spellspace",
            SpellKeywords::SpellStealth_Invisibility => "spellstealth_invisibility",
            SpellKeywords::SpellStealth_InvisibilityDoomstone => "spellstealth_invisibilitydoomstone",
            SpellKeywords::SpellStealth_InvisibilityDruid => "spellstealth_invisibilitydruid",
            SpellKeywords::SpellStealth_InvisibilityVampire => "spellstealth_invisibilityvampire",
            SpellKeywords::SpellStealth => "spellstealth",
            SpellKeywords::SpellSummon_Construct => "spellsummon_construct",
            SpellKeywords::SpellSummon_Creature => "spellsummon_creature",
            SpellKeywords::SpellSummon_Daedra => "spellsummon_daedra",
            SpellKeywords::SpellSummon_Object => "spellsummon_object",
            SpellKeywords::SpellSummon_Spirit => "spellsummon_spirit",
            SpellKeywords::SpellSummon_Undead => "spellsummon_undead",
            SpellKeywords::SpellTeleport => "spellteleport",
            SpellKeywords::SpellTime => "spelltime",
            SpellKeywords::SpellTransmute => "spelltransmute",
            SpellKeywords::SpellTurnUndeadCircle => "spellturnundeadcircle",
            SpellKeywords::SpellUnlock => "spellunlock",
            SpellKeywords::SpellWard => "spellward",
        }
    }

    /// The lower-case name of this keyword, as an owned string.
    pub fn to_string(&self) -> (r: String)
        ensures
            r@ == keyword_name(*self),
    {
        String::from_str(self.name_str())
    }
}

/// The keyword whose lower-case name is `name`; the first in declaration
/// order when several share it.
pub fn keyword_for_name(name: &str) -> (r: Option<SpellKeywords>)
    ensures
        r == keyword_named(name@),
{
    let target = String::from_str(name);
    let mut i: usize = 0;
    while i < SPELL_KEYWORD_COUNT
        invariant
            i <= SPELL_KEYWORD_COUNT,
            target@ == name@,
            keyword_named(name@) == keyword_named_from(name@, i as nat),
        decreases SPELL_KEYWORD_COUNT - i,
    {
        match keyword_at_index(i) {
            Some(k) => {
                if k.to_string() == target {
                    return Some(k);
                }
            },
            None => {
                return None;
            },
        }
        i += 1;
    }
    None
}

/// The keyword named by a text that is already lower-cased: every
/// `soulsy_` and every `ocf_mgef` is removed, and the rest is looked up.
pub fn keyword_for_lowercase(lower: &str) -> (r: Option<SpellKeywords>)
    ensures
        r == keyword_named(removed_all(removed_all(lower@, "soulsy_"@), "ocf_mgef"@)),
{
    let chars = chars_of(lower);
    let once = remove_all(&chars, "soulsy_");
    let twice = remove_all(&once, "ocf_mgef");
    let stripped = string_from_chars(&twice);
    keyword_for_name(stripped.as_str())
}

/// The error for a text that names no spell keyword.
#[derive(Clone, Copy, Debug, PartialEq, Eq, Hash, Structural)]
pub struct NotASpellKeyword;

impl<'a> vstd::std_specs::convert::TryFromSpecImpl<&'a str> for SpellKeywords {
    open spec fn obeys_try_from_spec() -> bool {
        true
    }

    open spec fn try_from_spec(v: &'a str) -> Result<SpellKeywords, NotASpellKeyword> {
        match spell_keyword_for(v@) {
            Some(k) => Ok(k),
            None => Err(NotASpellKeyword),
        }
    }
}

impl<'a> TryFrom<&'a str> for SpellKeywords {
    type Error = NotASpellKeyword;

    fn try_from(value: &'a str) -> (r: Result<SpellKeywords, NotASpellKeyword>) {
        let lower = to_lowercase(value);
        match keyword_for_lowercase(lower.as_str()) {
            Some(k) => Ok(k),
            None => Err(NotASpellKeyword),
        }
    }
}

/// The keywords the texts name, in order, skipping texts that name none.
pub open spec fn parsed_keywords(tags: Seq<Seq<char>>) -> Seq<SpellKeywords>
    decreases tags.len(),
{
    if tags.len() == 0 {
        Seq::empty()
    } else {
        let rest = parsed_keywords(tags.drop_last());
        match spell_keyword_for(tags.last()) {
            Some(k) => rest.push(k),
            None => rest,
        }
    }
}

/// The spell keywords among the tags, in order; tags that name no keyword are skipped.
pub fn strings_to_keywords(tags: &[String]) -> (r: Vec<SpellKeywords>)
    ensures
        r@ == parsed_keywords(tags@.map_values(|t: String| t@)),
{
    let ghost ts = tags@.map_values(|t: String| t@);
    let mut out: Vec<SpellKeywords> = Vec::new();
    let mut i: usize = 0;
    while i < tags.len()
        invariant
            i <= tags@.len(),
            ts == tags@.map_values(|t: String| t@),
            out@ == parsed_keywords(ts.take(i as int)),
        decreases tags.len() - i,
    {
        assert(ts.take(i + 1).drop_last() =~= ts.take(i as int));
        assert(ts.take(i + 1).last() == tags@[i as int]@);
        match SpellKeywords::try_from(tags[i].as_str()) {
            Ok(k) => {
                out.push(k);
            },
            Err(_) => {},
        }
        i += 1;
    }
    assert(ts.take(tags.len() as int) =~= ts);
    out
}

} // verus!
