//! Condensed views of records, as handed to a chat model for context.

use vstd::prelude::*;
use vstd::std_specs::convert::FromSpecImpl;
use crate::data::champion::Champion;
use crate::data::item::{Item, ItemStat};

verus! {

#[derive(Debug, Clone, PartialEq, Eq)]
pub struct ChampionContext {
    pub name: String,
    pub title: String,
    pub lore_snippet: String,
    pub roles: Vec<String>,
    pub resource_type: String,
    pub role_info: RoleInfo,
    pub stats: ChampionStatsContext,
}

#[derive(Debug, Clone, Copy, PartialEq, Eq)]
pub struct RoleInfo {
    pub attack: u8,
    pub defense: u8,
    pub magic: u8,
    pub difficulty: u8,
}

/// A champion's base statistics, each as the IEEE-754 bit pattern of the
/// published double.
#[derive(Debug, Clone, Copy, PartialEq, Eq)]
pub struct ChampionStatsContext {
    pub hp: u64,
    pub hp_per_level: u64,
    pub mp: u64,
    pub mp_per_level: u64,
    pub move_speed: u64,
    pub armor: u64,
    pub armor_per_level: u64,
    pub spell_block: u64,
    pub spell_block_per_level: u64,
    pub attack_range: u64,
    pub hp_regen: u64,
    pub hp_regen_per_level: u64,
    pub mp_regen: u64,
    pub mp_regen_per_level: u64,
    pub crit: u64,
    pub crit_per_level: u64,
    pub attack_damage: u64,
    pub attack_damage_per_level: u64,
    pub attack_speed: u64,
    pub attack_speed_per_level: u64,
}

impl From<Champion> for ChampionContext {
    fn from(c: Champion) -> (r: Self) {
        ChampionContext {
            name: c.name,
            title: c.title,
            lore_snippet: c.blurb,
            roles: c.tags,
            resource_type: c.partype,
            role_info: RoleInfo {
                attack: c.info.attack,
                defense: c.info.defense,
                magic: c.info.magic,
                difficulty: c.info.difficulty,
            },
            stats: ChampionStatsContext {
                hp: c.stats.hp,
                hp_per_level: c.stats.hp_per_level,
                mp: c.stats.mp,
                mp_per_level: c.stats.mp_per_level,
                move_speed: c.stats.move_speed,
                armor: c.stats.armor,
                armor_per_level: c.stats.armor_per_level,
                spell_block: c.stats.spell_block,
                spell_block_per_level: c.stats.spell_block_per_level,
                attack_range: c.stats.attack_range,
                hp_regen: c.stats.hp_regen,
                hp_regen_per_level: c.stats.hp_regen_per_level,
                mp_regen: c.stats.mp_regen,
                mp_regen_per_level: c.stats.mp_regen_per_level,
                crit: c.stats.crit,
                crit_per_level: c.stats.crit_per_level,
                attack_damage: c.stats.attack_damage,
                attack_damage_per_level: c.stats.attack_damage_per_level,
                attack_speed: c.stats.attack_speed,
                attack_speed_per_level: c.stats.attack_speed_per_level,
            },
        }
    }
}

impl FromSpecImpl<Champion> for ChampionContext {
    open spec fn obeys_from_spec() -> bool {
        true
    }

    /// The context keeps the champion's name, title, lore, roles, resource
    /// and ratings, and every statistic under the same name.
    open spec fn from_spec(c: Champion) -> Self {
        ChampionContext {
            name: c.name,
            title: c.title,
            lore_snippet: c.blurb,
            roles: c.tags,
            resource_type: c.partype,
            role_info: RoleInfo {
                attack: c.info.attack,
                defense: c.info.defense,
                magic: c.info.magic,
                difficulty: c.info.difficulty,
            },
            stats: ChampionStatsContext {
                hp: c.stats.hp,
                hp_per_level: c.stats.hp_per_level,
                mp: c.stats.mp,
                mp_per_level: c.stats.mp_per_level,
                move_speed: c.stats.move_speed,
                armor: c.stats.armor,
                armor_per_level: c.stats.armor_per_level,
                spell_block: c.stats.spell_block,
                spell_block_per_level: c.stats.spell_block_per_level,
                attack_range: c.stats.attack_range,
                hp_regen: c.stats.hp_regen,
                hp_regen_per_level: c.stats.hp_regen_per_level,
                mp_regen: c.stats.mp_regen,
                mp_regen_per_level: c.stats.mp_regen_per_level,
                crit: c.stats.crit,
                crit_per_level: c.stats.crit_per_level,
                attack_damage: c.stats.attack_damage,
                attack_damage_per_level: c.stats.attack_damage_per_level,
                attack_speed: c.stats.attack_speed,
                attack_speed_per_level: c.stats.attack_speed_per_level,
            },
        }
    }
}

#[derive(Debug, Clone, PartialEq, Eq)]
pub struct ItemContext {
    pub name: String,
    pub description: String,
    pub gold_cost: u32,
    pub stats: Vec<ItemStat>,
    pub tags: Vec<String>,
    pub builds_from: Vec<String>,
    pub builds_into: Vec<String>,
    pub required_champion: Option<String>,
}

impl From<Item> for ItemContext {
    fn from(i: Item) -> (r: Self) {
        let description = if !i.description.as_str().is_empty() {
            i.description
        } else {
            i.plaintext
        };
        ItemContext {
            name: i.name,
            description,
            gold_cost: i.gold.total,
            stats: i.stats,
            tags: i.tags,
            builds_from: i.from,
            builds_into: i.into,
            required_champion: i.required_champion,
        }
    }
}

impl FromSpecImpl<Item> for ItemContext {
    open spec fn obeys_from_spec() -> bool {
        true
    }

    /// The context describes the item by its description, which holds the
    /// details, and by its plain text only where the description is empty.
    open spec fn from_spec(i: Item) -> Self {
        ItemContext {
            name: i.name,
            description: if i.description@.len() > 0 {
                i.description
            } else {
                i.plaintext
            },
            gold_cost: i.gold.total,
            stats: i.stats,
            tags: i.tags,
            builds_from: i.from,
            builds_into: i.into,
            required_champion: i.required_champion,
        }
    }
}

} // verus!
