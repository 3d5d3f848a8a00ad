//! Item records as published in one dataset release.

use vstd::prelude::*;
use crate::data::keys::{all_distinct, key_texts};
use crate::data::Image;

verus! {

/// One release's item record set.
#[derive(Debug, Clone, PartialEq, Eq)]
pub struct ItemData {
    pub data_type: String,
    pub version: String,
    pub basic: Item,
    /// The records, each with the key it is published under, in no significant order.
    pub data: Vec<KeyedItem>,
    pub groups: Vec<ItemGroup>,
    pub tree: Vec<ItemTree>,
}

impl ItemData {
    /// The keys of the records, in the order of the records.
    pub open spec fn keys(self) -> Seq<Seq<char>> {
        self.data@.map_values(|k: KeyedItem| k.key@)
    }

    /// Whether no key occurs twice in the set.
    pub open spec fn keys_unique(self) -> bool {
        self.keys().no_duplicates()
    }

    /// Decides whether no key occurs twice in the set.
    pub fn has_unique_keys(&self) -> (r: bool)
        ensures
            r == self.keys_unique(),
    {
        let mut keys: Vec<&String> = Vec::new();
        let mut n: usize = 0;
        while n < self.data.len()
            invariant
                n <= self.data@.len(),
                keys@.len() == n,
                forall|k: int| 0 <= k < n ==> keys@[k]@ == self.data@[k].key@,
            decreases self.data@.len() - n,
        {
            keys.push(&self.data[n].key);
            n += 1;
        }
        assert(key_texts(keys@) =~= self.keys());
        all_distinct(&keys)
    }
}

/// An item together with its key in the record set.
#[derive(Debug, Clone, PartialEq, Eq)]
pub struct KeyedItem {
    pub key: String,
    pub item: Item,
}

#[derive(Debug, Clone, PartialEq, Eq)]
pub struct ItemGroup {
    pub id: String,
    pub max_group_ownable: Option<String>,
}

#[derive(Debug, Clone, PartialEq, Eq)]
pub struct ItemTree {
    pub header: String,
    pub tags: Vec<String>,
}

/// A named statistic of an item; `bits` is the IEEE-754 bit pattern of the
/// published double.
#[derive(Debug, Clone, PartialEq, Eq)]
pub struct ItemStat {
    pub name: String,
    pub bits: u64,
}

/// Whether an item is available on the map with the given id.
#[derive(Debug, Clone, PartialEq, Eq)]
pub struct ItemMap {
    pub map: String,
    pub enabled: bool,
}

/// A named effect amount of an item, as published.
#[derive(Debug, Clone, PartialEq, Eq)]
pub struct ItemEffect {
    pub name: String,
    pub amount: String,
}

/// One item.
#[derive(Debug, Clone, PartialEq, Eq)]
pub struct Item {
    pub name: String,
    pub description: String,
    pub colloq: String,
    pub plaintext: String,
    pub into: Vec<String>,
    pub from: Vec<String>,
    pub image: Option<Image>,
    pub gold: ItemGold,
    pub tags: Vec<String>,
    pub maps: Vec<ItemMap>,
    pub stats: Vec<ItemStat>,
    pub effect: Option<Vec<ItemEffect>>,
    pub depth: Option<u32>,
    pub consumed: bool,
    pub stacks: u32,
    pub consume_on_full: bool,
    pub special_recipe: Option<u32>,
    pub in_store: Option<bool>,
    pub hide_from_all: bool,
    pub required_champion: Option<String>,
    pub required_ally: Option<String>,
    pub rune: Option<ItemRune>,
}

/// What an item costs and sells for.
#[derive(Debug, Clone, Copy, PartialEq, Eq)]
pub struct ItemGold {
    pub base: u32,
    pub total: u32,
    pub sell: u32,
    pub purchasable: bool,
}

impl Default for ItemGold {
    fn default() -> (r: Self)
        ensures
            r == (ItemGold { base: 0, total: 0, sell: 0, purchasable: false }),
    {
        ItemGold { base: 0, total: 0, sell: 0, purchasable: false }
    }
}

#[derive(Debug, Clone, PartialEq, Eq)]
pub struct ItemRune {
    pub isrune: bool,
    pub tier: u32,
    pub rune_type: Option<String>,
}

} // verus!
