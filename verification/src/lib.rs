//! Verified rules of a game server's magic, movement, rebirth and shop handlers.

pub mod arith;
pub mod buff;
pub mod buff_cast;
pub mod buff_run;
pub mod cast;
pub mod constants;
pub mod consume;
pub mod control;
pub mod cooldown;
pub mod hit;
pub mod instance;
pub mod mana;
pub mod movement;
pub mod notices;
pub mod npc_damage;
pub mod packet;
pub mod physical;
pub mod random;
pub mod range;
pub mod rebirth;
pub mod revive;
pub mod route;
pub mod shopping_mall;
pub mod skills;
pub mod spell;
pub mod spell_area;
pub mod spell_cast;
pub mod spell_run;
pub mod strike;
pub mod tables;
pub mod transform;
pub mod victim;
pub mod warp;
