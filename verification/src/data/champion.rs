//! Champion records as published in one dataset release.

use vstd::prelude::*;
use crate::data::keys::{all_distinct, key_texts};
use crate::data::Image;

verus! {

/// One release's champion record set.
#[derive(Debug, Clone, PartialEq, Eq)]
pub struct ChampionData {
    pub data_type: String,
    pub format: String,
    pub version: String,
    /// The records, in no significant order; each record's `id` is its key.
    pub data: Vec<Champion>,
}

impl ChampionData {
    /// The keys of the records, in the order of the records.
    pub open spec fn keys(self) -> Seq<Seq<char>> {
        self.data@.map_values(|c: Champion| c.id@)
    }

    /// Whether no key occurs twice in the set.
    pub open spec fn keys_unique(self) -> bool {
        self.keys().no_duplicates()
    }

    /// Decides whether no key occurs twice in the set.
    pub fn has_unique_keys(&self) -> (r: bool)
        ensures
            r == self.keys_unique(),
    {
        let mut keys: Vec<&String> = Vec::new();
        let mut n: usize = 0;
        while n < self.data.len()
            invariant
                n <= self.data@.len(),
                keys@.len() == n,
                forall|k: int| 0 <= k < n ==> keys@[k]@ == self.data@[k].id@,
            decreases self.data@.len() - n,
        {
            keys.push(&self.data[n].id);
            n += 1;
        }
        assert(key_texts(keys@) =~= self.keys());
        all_distinct(&keys)
    }
}

/// One champion.
#[derive(Debug, Clone, PartialEq, Eq)]
pub struct Champion {
    pub id: String,
    pub key: String,
    pub name: String,
    pub title: String,
    pub version: String,
    pub blurb: String,
    pub info: ChampionInfo,
    pub image: Image,
    pub tags: Vec<String>,
    pub partype: String,
    pub stats: ChampionStats,
}

/// Coarse ratings of a champion, each on the publisher's 0 to 10 scale.
#[derive(Debug, Clone, Copy, PartialEq, Eq)]
pub struct ChampionInfo {
    pub attack: u8,
    pub defense: u8,
    pub magic: u8,
    pub difficulty: u8,
}

/// Where a champion's portrait sits inside its sprite sheet.
#[derive(Debug, Clone, PartialEq, Eq)]
pub struct ChampionImage {
    pub full: String,
    pub sprite: String,
    pub group: String,
    pub x: i32,
    pub y: i32,
    pub w: i32,
    pub h: i32,
}

/// Base statistics of a champion. Each field carries the IEEE-754 bit pattern
/// of the published double: the cache stores and returns the numbers and never
/// computes with them.
#[derive(Debug, Clone, Copy, PartialEq, Eq)]
pub struct ChampionStats {
    pub hp: u64,
    pub hp_per_level: u64,
    pub mp: u64,
    pub mp_per_level: u64,
    pub move_speed: u64,
    pub armor: u64,
    pub armor_per_level: u64,
    pub spell_block: u64,
    pub spell_block_per_level: u64,
    pub attack_range: u64,
    pub hp_regen: u64,
    pub hp_regen_per_level: u64,
    pub mp_regen: u64,
    pub mp_regen_per_level: u64,
    pub crit: u64,
    pub crit_per_level: u64,
    pub attack_damage: u64,
    pub attack_damage_per_level: u64,
    pub attack_speed_per_level: u64,
    pub attack_speed: u64,
}

} // verus!
