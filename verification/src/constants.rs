//! Protocol numbers and rule constants.

use vstd::prelude::*;

verus! {

// Packet opcodes.
pub const WIZ_MOVE: u8 = 0x06;
pub const WIZ_NPC_MOVE: u8 = 0x0B;
pub const WIZ_DEAD: u8 = 0x11;
pub const WIZ_REGENE: u8 = 0x12;
pub const WIZ_WARP: u8 = 0x1E;
pub const WIZ_STATE_CHANGE: u8 = 0x29;
pub const WIZ_USERLOOK_CHANGE: u8 = 0x2D;
pub const WIZ_MAGIC_PROCESS: u8 = 0x31;
pub const WIZ_ZONEABILITY: u8 = 0x5E;
pub const WIZ_STEALTH: u8 = 0x60;
pub const WIZ_MERCHANT: u8 = 0x68;
pub const WIZ_SHOPPING_MALL: u8 = 0x6A;
pub const WIZ_REBIRTH: u8 = 0xD3;

// Magic sub-opcodes.
pub const MAGIC_CASTING: u8 = 1;
pub const MAGIC_FLYING: u8 = 2;
pub const MAGIC_EFFECTING: u8 = 3;
pub const MAGIC_FAIL: u8 = 4;
pub const MAGIC_DURATION_EXPIRED: u8 = 5;
pub const MAGIC_CANCEL: u8 = 6;
pub const MAGIC_CANCEL_TRANSFORMATION: u8 = 7;
pub const MAGIC_TYPE4_EXTEND: u8 = 8;
pub const MAGIC_TRANSFORM_LIST: u8 = 9;
pub const MAGIC_CANCEL2: u8 = 13;

// Whom a skill may be aimed at.
pub const MORAL_SELF: i16 = 1;
pub const MORAL_FRIEND_WITHME: i16 = 2;
pub const MORAL_FRIEND_EXCEPTME: i16 = 3;
pub const MORAL_PARTY: i16 = 4;
pub const MORAL_PARTY_ALL: i16 = 6;
pub const MORAL_ENEMY: i16 = 7;
pub const MORAL_ALL: i16 = 8;
pub const MORAL_AREA_ENEMY: i16 = 10;
pub const MORAL_AREA_FRIEND: i16 = 11;
pub const MORAL_AREA_ALL: i16 = 12;
pub const MORAL_SELF_AREA: i16 = 13;
pub const MORAL_EXTEND_DURATION: i16 = 240;

// Result codes written to the fourth data word of a skill packet.
pub const SKILLMAGIC_FAIL_CASTING: i32 = -100;
pub const SKILLMAGIC_FAIL_NOFUNCTION: i32 = -102;
pub const SKILLMAGIC_FAIL_NOEFFECT: i32 = -103;
pub const SKILLMAGIC_FAIL_ATTACKZERO: i32 = -104;

// Postures of a character.
pub const USER_STANDING: u8 = 1;
pub const USER_SITDOWN: u8 = 2;
pub const USER_DEAD: u8 = 3;

pub const NATION_KARUS: u8 = 1;
pub const NATION_ELMORAD: u8 = 2;

/// The authority value of a game master.
pub const AUTHORITY_GM: u8 = 0;

/// Entity ids from here on belong to NPCs; lower ids are player sessions.
pub const NPC_BAND: u32 = 10000;

/// NPC type number of an event partner.
pub const NPC_PARTNER_TYPE: u8 = 213;

/// The only skill that works while the Snow Battle runs.
pub const SNOW_EVENT_SKILL: u32 = 490077;

/// Damage that a game master's direct skill deals.
pub const GM_FIXED_DAMAGE: i16 = 30000;

/// Damage that a skill deals in the Chaos Dungeon.
pub const CHAOS_SKILL_DAMAGE: i16 = 100;

/// Damage of the Chaos Dungeon's strong skill.
pub const CHAOS_STRONG_SKILL_DAMAGE: i16 = 1000;

/// The Chaos Dungeon's strong skill.
pub const CHAOS_STRONG_SKILL: u32 = 490226;

/// The summon skill that brings out the caster's pet.
pub const PET_SUMMON_SKILL: u32 = 500117;

/// Arrows that an infinity quiver replaces.
pub const ITEM_ARROW: u32 = 391010000;

/// The infinity quiver.
pub const ITEM_INFINITYARC: u32 = 800606000;

// Zones.
pub const ZONE_KARUS: u16 = 1;
pub const ZONE_ELMORAD: u16 = 2;
pub const ZONE_KARUS2: u16 = 5;
pub const ZONE_KARUS3: u16 = 6;
pub const ZONE_ELMORAD2: u16 = 7;
pub const ZONE_ELMORAD3: u16 = 8;
pub const ZONE_KARUS_ESLANT: u16 = 11;
pub const ZONE_ELMORAD_ESLANT: u16 = 12;
pub const ZONE_KARUS_ESLANT2: u16 = 13;
pub const ZONE_KARUS_ESLANT3: u16 = 14;
pub const ZONE_ELMORAD_ESLANT2: u16 = 15;
pub const ZONE_ELMORAD_ESLANT3: u16 = 16;
pub const ZONE_MORADON: u16 = 21;
pub const ZONE_MORADON2: u16 = 22;
pub const ZONE_MORADON3: u16 = 23;
pub const ZONE_MORADON4: u16 = 24;
pub const ZONE_MORADON5: u16 = 25;
pub const ZONE_DELOS: u16 = 30;
pub const ZONE_DESPERATION_ABYSS: u16 = 32;
pub const ZONE_HELL_ABYSS: u16 = 33;
pub const ZONE_FORGOTTEN_TEMPLE: u16 = 55;
pub const ZONE_BATTLE2: u16 = 62;
pub const ZONE_BATTLE3: u16 = 63;
pub const ZONE_SNOW_BATTLE: u16 = 69;
pub const ZONE_RONARK_LAND: u16 = 71;
pub const ZONE_ARDREAM: u16 = 72;
pub const ZONE_RONARK_LAND_BASE: u16 = 73;
pub const ZONE_KNIGHT_ROYALE: u16 = 76;
pub const ZONE_CLAN_WAR_ARDREAM: u16 = 77;
pub const ZONE_CLAN_WAR_RONARK: u16 = 78;
pub const ZONE_BDW: u16 = 84;
pub const ZONE_CHAOS_DUNGEON: u16 = 85;
pub const ZONE_UNDER_CASTLE: u16 = 86;
pub const ZONE_JURAID: u16 = 87;
pub const ZONE_DUNGEON_DEFENCE: u16 = 89;

/// The Knight Royale zone id that the resurrection rules look for.
pub const ZONE_KNIGHT_ROYALE_RES: u16 = 100;

// State change kinds.
pub const STATE_CHANGE_ABNORMAL: u8 = 3;
pub const STATE_CHANGE_VISIBLE: u8 = 5;
pub const STATE_CHANGE_INVISIBILITY: u8 = 7;
pub const STATE_CHANGE_WEAPONS_DISABLED: u8 = 12;
pub const STATE_CHANGE_TRANSFORMATION: u8 = 0x13;

// Looks that a state change sets.
pub const ABNORMAL_INVISIBLE: u32 = 0;
pub const ABNORMAL_NORMAL: u32 = 1;
pub const ABNORMAL_GIANT: u32 = 2;
pub const ABNORMAL_DWARF: u32 = 3;
pub const ABNORMAL_BLINKING: u32 = 4;
pub const ABNORMAL_GIANT_TARGET: u32 = 6;
pub const ABNORMAL_SPECIAL: u32 = 9;

// Kinds of transformation.
pub const TRANSFORMATION_MONSTER: u8 = 1;
pub const TRANSFORMATION_NPC: u8 = 2;
pub const TRANSFORMATION_SIEGE: u8 = 3;

// Ailments shown on the status bar.
pub const USER_STATUS_DOT: u8 = 1;
pub const USER_STATUS_POISON: u8 = 2;

// What happens to an ailment on the status bar.
pub const USER_STATUS_CURE: u8 = 0;
pub const USER_STATUS_INFLICT: u8 = 1;

// Equipment slots.
pub const RIGHTHAND: u8 = 6;
pub const LEFTHAND: u8 = 8;

/// Item kind of a shield.
pub const WEAPON_SHIELD: i32 = 60;

// Buff type numbers that the rules compare with.
pub const BUFF_TYPE_MAGE_ARMOR: i32 = 25;
pub const BUFF_TYPE_KAUL_TRANSFORMATION: i32 = 35;
pub const BUFF_TYPE_INVISIBILITY: i32 = 100;

// Elements of a mage armor.
pub const FIRE_DAMAGE: u8 = 5;
pub const ICE_DAMAGE: u8 = 6;
pub const LIGHTNING_DAMAGE: u8 = 7;

/// The magic attribute that neither weapon damage nor damage over time goes with.
pub const ATTRIBUTE_MAGIC_R: u8 = 4;

/// The magic attribute of poison.
pub const ATTRIBUTE_POISON: u8 = 6;

// Inventory layout.
pub const SLOT_MAX: usize = 14;
pub const HAVE_MAX: usize = 28;
pub const INVENTORY_TOTAL: usize = 96;

/// Item bonus type that throws damage back at the attacker.
pub const ITEM_TYPE_MIRROR_DAMAGE: u8 = 0x08;

} // verus!
