//! The cached reference data: record types, the persisted layout, version
//! resolution and the in-memory snapshot holder.

use vstd::prelude::*;
use vstd::seq_lib::{to_multiset_build, to_multiset_remove};
use vstd::string::StringExecFns;
use crate::data::champion::{Champion, ChampionData};
use crate::data::error::SyncError;
use crate::data::item::ItemData;
use crate::data::order::{name_le, name_precedes, lemma_name_le_total, lemma_name_le_transitive};

pub mod champion;
pub mod error;
pub mod item;
pub mod json;
pub mod keys;
pub mod manager;
pub mod order;
pub mod refresh;
pub mod store;

verus! {

/// Where a picture sits inside its sprite sheet.
#[derive(Debug, Clone, PartialEq, Eq)]
pub struct Image {
    pub full: String,
    pub sprite: String,
    pub group: String,
    pub x: i32,
    pub y: i32,
    pub w: i32,
    pub h: i32,
}

/// The records that a list of borrowed records points at, in the same order.
pub open spec fn records_of(refs: Seq<&Champion>) -> Seq<Champion> {
    refs.map_values(|c: &Champion| *c)
}

/// Each record's name is at most the name of every record after it.
pub open spec fn names_ascending(records: Seq<Champion>) -> bool {
    forall|i: int, j: int|
        #![trigger records[i], records[j]]
        0 <= i <= j < records.len() ==> name_le(records[i].name@, records[j].name@)
}

/// The position of the first record among the first `upto` of `records` whose
/// name is at most every name among them.
pub open spec fn first_least(records: Seq<Champion>, upto: int) -> int
    decreases upto,
{
    if upto <= 1 {
        0
    } else {
        let m = first_least(records, upto - 1);
        if name_le(records[m].name@, records[upto - 1].name@) {
            m
        } else {
            upto - 1
        }
    }
}

/// The records in name order, with ties settled by position: the first
/// record of least name comes first, then the rest in the same manner.
pub open spec fn in_name_order(records: Seq<Champion>) -> Seq<Champion>
    decreases records.len(),
{
    if records.len() == 0 {
        Seq::empty()
    } else {
        let m = first_least(records, records.len() as int);
        if 0 <= m < records.len() {
            seq![records[m]] + in_name_order(records.remove(m))
        } else {
            Seq::empty()
        }
    }
}

/// What reading a version's blobs back and parsing them came to.
#[derive(Debug, PartialEq, Eq)]
pub enum Reloaded {
    /// Both blobs parsed into complete record sets.
    Parsed(ChampionData, ItemData),
    /// A blob of the version is not in storage.
    Missing,
    /// Storage could not be read.
    Unreadable,
    /// A blob did not parse; carries the parser's explanation.
    Malformed(String),
}

/// The explanation given for parsed sets in which a record key occurs twice.
pub const DUPLICATE_KEY: &'static str = "A record key occurs twice";

impl Reloaded {
    /// Whether the reload holds record sets that can be installed: both
    /// parsed, and no key twice in either.
    pub open spec fn sound(self) -> bool {
        self matches Reloaded::Parsed(champions, items) && champions.keys_unique()
            && items.keys_unique()
    }

    /// Whether `error` is the failure that a reload stands for: `NotFound`
    /// for a missing blob, `IoFailure` for unreadable storage, `Malformed`
    /// with the parser's explanation for a blob that did not parse, and
    /// `Malformed` for parsed sets in which a key occurs twice.
    pub open spec fn fails_as(self, error: SyncError) -> bool {
        match self {
            Reloaded::Parsed(_, _) => !self.sound() && error is Malformed
                && error->Malformed_0@ == DUPLICATE_KEY@,
            Reloaded::Missing => error == SyncError::NotFound,
            Reloaded::Unreadable => error == SyncError::IoFailure,
            Reloaded::Malformed(cause) => error == SyncError::Malformed(cause),
        }
    }
}

/// The snapshot currently resident in memory: both record sets of one
/// release, or nothing before the first load. The two sets are only ever
/// replaced together.
pub struct LeagueDataState {
    pub champions: Option<ChampionData>,
    pub items: Option<ItemData>,
}

impl Default for LeagueDataState {
    fn default() -> (r: Self)
        ensures
            r.champions is None,
            r.items is None,
    {
        LeagueDataState { champions: None, items: None }
    }
}

impl LeagueDataState {
    /// The state before anything has been loaded.
    pub fn new() -> (r: Self)
        ensures
            r.champions is None,
            r.items is None,
            !r.is_loaded(),
    {
        LeagueDataState { champions: None, items: None }
    }

    /// Whether a snapshot has been installed.
    pub open spec fn is_loaded(&self) -> bool {
        self.champions is Some && self.items is Some
    }

    /// Both record sets are present, or neither is.
    pub open spec fn coherent(&self) -> bool {
        self.champions is Some <==> self.items is Some
    }

    /// No key occurs twice in a resident record set.
    pub open spec fn keys_unique(&self) -> bool {
        &&& self.champions matches Some(set) ==> set.keys_unique()
        &&& self.items matches Some(set) ==> set.keys_unique()
    }

    /// Installs a new snapshot in one step, discarding the previous one whole.
    pub fn replace(&mut self, champions: ChampionData, items: ItemData)
        ensures
            final(self).champions == Some(champions),
            final(self).items == Some(items),
            final(self).is_loaded(),
            final(self).coherent(),
            champions.keys_unique() && items.keys_unique() ==> final(self).keys_unique(),
    {
        *self = LeagueDataState { champions: Some(champions), items: Some(items) };
    }

    /// Takes the outcome of reading a version back. Parsed record sets in
    /// which no key occurs twice are installed whole. Anything else is
    /// reported as the failure that the outcome stands for, and leaves the
    /// resident snapshot as it was.
    pub fn install(&mut self, reloaded: Reloaded) -> (r: Result<(), SyncError>)
        ensures
            match r {
                Ok(_) => reloaded.sound() && final(self).champions == Some(reloaded->Parsed_0)
                    && final(self).items == Some(reloaded->Parsed_1),
                Err(error) => !reloaded.sound() && reloaded.fails_as(error) && *final(self)
                    == *old(self),
            },
            old(self).coherent() ==> final(self).coherent(),
            old(self).keys_unique() ==> final(self).keys_unique(),
    {
        match reloaded {
            Reloaded::Parsed(champions, items) => {
                if champions.has_unique_keys() && items.has_unique_keys() {
                    self.replace(champions, items);
                    Ok(())
                } else {
                    Err(SyncError::Malformed(String::from_str(DUPLICATE_KEY)))
                }
            },
            Reloaded::Missing => Err(SyncError::NotFound),
            Reloaded::Unreadable => Err(SyncError::IoFailure),
            Reloaded::Malformed(cause) => Err(SyncError::Malformed(cause)),
        }
    }

    /// The resident snapshot, both record sets together. Fails with
    /// `NotLoaded` exactly when no snapshot has been installed.
    pub fn snapshot(&self) -> (r: Result<(&ChampionData, &ItemData), SyncError>)
        ensures
            match r {
                Ok(sets) => self.is_loaded() && *sets.0 == self.champions->Some_0 && *sets.1
                    == self.items->Some_0,
                Err(e) => !self.is_loaded() && e == SyncError::NotLoaded,
            },
    {
        match &self.champions {
            Some(champions) => match &self.items {
                Some(items) => Ok((champions, items)),
                None => Err(SyncError::NotLoaded),
            },
            None => Err(SyncError::NotLoaded),
        }
    }
}

/// All champions of the resident snapshot, ascending by name in byte order:
/// a rearrangement of the champion set that keeps every record, the same on
/// every call. Fails with `NotLoaded` exactly when no champion set is
/// resident.
pub fn get_champions(state: &LeagueDataState) -> (r: Result<Vec<&Champion>, SyncError>)
    ensures
        match r {
            Ok(out) => state.champions is Some && names_ascending(records_of(out@))
                && records_of(out@).to_multiset()
                == state.champions->Some_0.data@.to_multiset() && records_of(out@)
                == in_name_order(state.champions->Some_0.data@),
            Err(e) => state.champions is None && e == SyncError::NotLoaded,
        },
{
    match &state.champions {
        Some(set) => Ok(sort_by_name(&set.data)),
        None => Err(SyncError::NotLoaded),
    }
}

/// The records of `records`, ascending by name in byte order: a rearrangement
/// that keeps every record, as often as it occurs. Which of several records of
/// one name comes first is settled as [`in_name_order`] says, so the result is
/// the same on every call.
pub fn sort_by_name(records: &Vec<Champion>) -> (out: Vec<&Champion>)
    ensures
        names_ascending(records_of(out@)),
        records_of(out@).to_multiset() == records@.to_multiset(),
        out@.len() == records@.len(),
        records_of(out@) == in_name_order(records@),
{
    let mut rest: Vec<&Champion> = Vec::new();
    let mut n: usize = 0;
    while n < records.len()
        invariant
            n <= records@.len(),
            rest@.len() == n,
            forall|k: int| 0 <= k < n ==> *rest@[k] == records@[k],
        decreases records@.len() - n,
    {
        rest.push(&records[n]);
        n += 1;
    }
    assert(records_of(rest@) =~= records@);
    let mut out: Vec<&Champion> = Vec::new();
    assert(records_of(out@) =~= Seq::<Champion>::empty());
    assert(records_of(out@).to_multiset().add(records_of(rest@).to_multiset())
        =~= records@.to_multiset()) by {
        broadcast use vstd::seq_lib::group_to_multiset_ensures;
    }
    assert(records_of(out@) + in_name_order(records_of(rest@)) =~= in_name_order(records@));
    while rest.len() > 0
        invariant
            records_of(out@).to_multiset().add(records_of(rest@).to_multiset())
                == records@.to_multiset(),
            records_of(out@) + in_name_order(records_of(rest@)) == in_name_order(records@),
            out@.len() + rest@.len() == records@.len(),
            names_ascending(records_of(out@)),
            forall|i: int, j: int|
                #![trigger out@[i], rest@[j]]
                0 <= i < out@.len() && 0 <= j < rest@.len() ==> name_le(
                    out@[i].name@,
                    rest@[j].name@,
                ),
        decreases rest@.len(),
    {
        let m = least_by_name(&rest);
        let ghost before_rest = rest@;
        let ghost before_out = out@;
        let least = rest.remove(m);
        out.push(least);
        proof {
            let r0 = records_of(before_rest);
            let o0 = records_of(before_out);
            assert(records_of(rest@) =~= r0.remove(m as int));
            assert(records_of(out@) =~= o0.push(*least));
            assert(r0[m as int] == *least);
            assert(o0.push(*least) + in_name_order(r0.remove(m as int)) =~= o0 + (seq![*least]
                + in_name_order(r0.remove(m as int))));
            to_multiset_remove(r0, m as int);
            to_multiset_build(o0, *least);
            assert(r0.to_multiset().count(*least) > 0) by {
                broadcast use vstd::seq_lib::group_to_multiset_ensures;
                assert(r0.contains(*least));
            }
            assert(records_of(out@).to_multiset().add(records_of(rest@).to_multiset())
                =~= o0.to_multiset().add(r0.to_multiset()));
            assert forall|i: int, j: int|
                #![trigger out@[i], rest@[j]]
                0 <= i < out@.len() && 0 <= j < rest@.len() implies name_le(
                out@[i].name@,
                rest@[j].name@,
            ) by {
                let j0 = if j < m { j } else { j + 1 };
                assert(rest@[j] == before_rest[j0]);
                if i < before_out.len() {
                    assert(out@[i] == before_out[i]);
                } else {
                    assert(out@[i] == before_rest[m as int]);
                }
            }
            assert forall|i: int, j: int|
                #![trigger records_of(out@)[i], records_of(out@)[j]]
                0 <= i <= j < out@.len() implies name_le(
                records_of(out@)[i].name@,
                records_of(out@)[j].name@,
            ) by {
                if j < before_out.len() {
                    assert(records_of(out@)[i] == o0[i]);
                    assert(records_of(out@)[j] == o0[j]);
                } else if i < before_out.len() {
                    assert(out@[i] == before_out[i]);
                    assert(out@[j] == before_rest[m as int]);
                } else {
                    crate::data::order::lemma_name_le_reflexive(least.name@);
                }
            }
        }
    }
    proof {
        let drained = records_of(rest@);
        assert(records_of(out@) + in_name_order(drained) =~= records_of(out@));
        drained.to_multiset_ensures();
        assert forall|c: Champion| drained.to_multiset().count(c) == 0 by {
            assert(!drained.contains(c));
        }
        assert(records_of(out@).to_multiset().add(drained.to_multiset()) =~= records_of(
            out@,
        ).to_multiset());
    }
    out
}

/// The first position of a record whose name is at most every other name in
/// `records`.
fn least_by_name(records: &Vec<&Champion>) -> (m: usize)
    requires
        records@.len() > 0,
    ensures
        m < records@.len(),
        m == first_least(records_of(records@), records@.len() as int),
        forall|j: int|
            0 <= j < records@.len() ==> name_le(records@[m as int].name@, #[trigger] records@[j].name@),
{
    let ghost all = records_of(records@);
    let mut m: usize = 0;
    let mut k: usize = 1;
    proof {
        crate::data::order::lemma_name_le_reflexive(records@[0].name@);
    }
    while k < records.len()
        invariant
            all == records_of(records@),
            m < k <= records@.len(),
            m == first_least(all, k as int),
            forall|j: int|
                0 <= j < k ==> name_le(records@[m as int].name@, #[trigger] records@[j].name@),
        decreases records@.len() - k,
    {
        proof {
            assert(all[m as int] == *records@[m as int]);
            assert(all[k as int] == *records@[k as int]);
        }
        if !name_precedes(records[m].name.as_str(), records[k].name.as_str()) {
            proof {
                lemma_name_le_total(records@[m as int].name@, records@[k as int].name@);
                assert forall|j: int| 0 <= j < k + 1 implies name_le(
                    records@[k as int].name@,
                    #[trigger] records@[j].name@,
                ) by {
                    if j < k {
                        lemma_name_le_transitive(
                            records@[k as int].name@,
                            records@[m as int].name@,
                            records@[j].name@,
                        );
                    } else {
                        crate::data::order::lemma_name_le_reflexive(records@[k as int].name@);
                    }
                }
            }
            m = k;
        }
        k += 1;
    }
    m
}

} // verus!
