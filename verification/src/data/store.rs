//! The persisted layout: one blob per version and record kind, and the single
//! marker that names the current version.

use vstd::prelude::*;
use crate::data::error::SyncError;
use crate::data::json::{
    json_member_document, json_string_member, read_string_member, slice_text_of, text_of,
    write_member_document,
};

verus! {

/// The kinds of record set that every version holds.
#[derive(Debug, Clone, Copy, PartialEq, Eq, Structural)]
pub enum RecordKind {
    Champion,
    Item,
}

impl RecordKind {
    /// The name of a kind's blob, both at the remote source and in a
    /// version's directory.
    pub open spec fn file_name_text(self) -> Seq<char> {
        match self {
            RecordKind::Champion => "champion.json"@,
            RecordKind::Item => "item.json"@,
        }
    }

    /// The name of a kind's blob.
    pub fn file_name(self) -> (r: &'static str)
        ensures
            r@ == self.file_name_text(),
    {
        match self {
            RecordKind::Champion => "champion.json",
            RecordKind::Item => "item.json",
        }
    }
}

/// The member of the marker document that holds the current version.
pub const MARKER_KEY: &'static str = "version";

/// One blob as written: the raw bytes of one record kind of one version.
#[derive(Debug, Clone, PartialEq, Eq)]
pub struct StoredBlob {
    pub version: String,
    pub kind: RecordKind,
    pub bytes: String,
}

/// One write to the persisted layout.
#[derive(Debug, Clone, PartialEq, Eq)]
pub enum StoreWrite {
    /// Store a blob, superseding an earlier one of the same version and kind.
    Entry(StoredBlob),
    /// Replace the marker document by this text.
    Marker(String),
}

/// What the store holds, as mathematics.
pub struct StoreView {
    /// The text of the marker document, if one was ever written.
    pub marker_text: Option<Seq<char>>,
    /// The bytes stored for each version and kind.
    pub blobs: Map<(Seq<char>, RecordKind), Seq<char>>,
}

impl StoreView {
    /// The version that the marker names; `None` where there is no marker
    /// document or it does not name one.
    pub open spec fn marker(self) -> Option<Seq<char>> {
        marker_named(self.marker_text)
    }

    /// Whether every kind of `version` is stored.
    pub open spec fn entry_exists(self, version: Seq<char>) -> bool {
        self.blobs.contains_key((version, RecordKind::Champion)) && self.blobs.contains_key(
            (version, RecordKind::Item),
        )
    }

    /// The marker invariant: the version that the marker names is fully stored.
    pub open spec fn marker_backed(self) -> bool {
        self.marker() is Some ==> self.entry_exists(self.marker()->Some_0)
    }

    /// The state after storing one blob.
    pub open spec fn with_entry(self, version: Seq<char>, kind: RecordKind, bytes: Seq<char>)
        -> StoreView {
        StoreView { marker_text: self.marker_text, blobs: self.blobs.insert((version, kind), bytes) }
    }

    /// The state after replacing the marker document.
    pub open spec fn with_marker_text(self, text: Seq<char>) -> StoreView {
        StoreView { marker_text: Some(text), blobs: self.blobs }
    }

    /// The state after one write.
    pub open spec fn after(self, write: StoreWrite) -> StoreView {
        match write {
            StoreWrite::Entry(blob) => self.with_entry(blob.version@, blob.kind, blob.bytes@),
            StoreWrite::Marker(text) => self.with_marker_text(text@),
        }
    }

    /// The state after a sequence of writes, applied in order.
    pub open spec fn after_all(self, writes: Seq<StoreWrite>) -> StoreView
        decreases writes.len(),
    {
        if writes.len() == 0 {
            self
        } else {
            self.after_all(writes.drop_last()).after(writes.last())
        }
    }
}

/// The version that a marker document names; `None` stands for a document
/// that is absent or unreadable, and gives `None`.
pub open spec fn marker_named(text: Option<Seq<char>>) -> Option<Seq<char>> {
    match text {
        Some(document) => json_string_member(document, MARKER_KEY@),
        None => None,
    }
}

/// Reads the current version out of the marker document, if there is one
/// and it names a version.
pub fn marker_version(text: Option<&str>) -> (r: Option<String>)
    ensures
        text_of(r) == marker_named(slice_text_of(text)),
{
    match text {
        Some(document) => read_string_member(document, MARKER_KEY),
        None => None,
    }
}

/// The bytes that a log of blobs holds for a version and kind: those of the
/// latest matching blob.
pub open spec fn latest_blob(log: Seq<StoredBlob>, version: Seq<char>, kind: RecordKind) -> Option<
    Seq<char>,
>
    decreases log.len(),
{
    if log.len() == 0 {
        None
    } else if log.last().version@ == version && log.last().kind == kind {
        Some(log.last().bytes@)
    } else {
        latest_blob(log.drop_last(), version, kind)
    }
}

/// The cache store: the marker document and every blob written so far.
pub struct CacheStore {
    marker_text: Option<String>,
    log: Vec<StoredBlob>,
}

impl View for CacheStore {
    type V = StoreView;

    closed spec fn view(&self) -> StoreView {
        StoreView {
            marker_text: match self.marker_text {
                Some(text) => Some(text@),
                None => None,
            },
            blobs: Map::new(
                |k: (Seq<char>, RecordKind)| latest_blob(self.log@, k.0, k.1) is Some,
                |k: (Seq<char>, RecordKind)| latest_blob(self.log@, k.0, k.1)->Some_0,
            ),
        }
    }
}

impl CacheStore {
    /// A store in which nothing was ever cached.
    pub fn new() -> (r: Self)
        ensures
            r@.marker_text is None,
            r@.blobs == Map::<(Seq<char>, RecordKind), Seq<char>>::empty(),
            r@.marker() is None,
            r@.marker_backed(),
    {
        let r = CacheStore { marker_text: None, log: Vec::new() };
        assert(r@.blobs =~= Map::<(Seq<char>, RecordKind), Seq<char>>::empty());
        r
    }

    /// The version that the marker names, if any.
    pub fn read_marker(&self) -> (r: Option<String>)
        ensures
            text_of(r) == self@.marker(),
    {
        match &self.marker_text {
            Some(text) => marker_version(Some(text.as_str())),
            None => None,
        }
    }

    /// The bytes stored for `version` and `kind`; `NotFound` exactly when
    /// there are none.
    pub fn read_entry(&self, version: &String, kind: RecordKind) -> (r: Result<String, SyncError>)
        ensures
            match r {
                Ok(bytes) => self@.blobs.contains_key((version@, kind)) && self@.blobs[(
                    version@,
                    kind,
                )] == bytes@,
                Err(e) => !self@.blobs.contains_key((version@, kind)) && e == SyncError::NotFound,
            },
    {
        let mut i: usize = self.log.len();
        assert(self.log@.take(i as int) =~= self.log@);
        while i > 0
            invariant
                i <= self.log@.len(),
                latest_blob(self.log@, version@, kind) == latest_blob(
                    self.log@.take(i as int),
                    version@,
                    kind,
                ),
            decreases i,
        {
            let blob = &self.log[i - 1];
            if blob.kind == kind && blob.version == *version {
                return Ok(blob.bytes.clone());
            }
            assert(self.log@.take(i as int).drop_last() =~= self.log@.take(i - 1));
            i -= 1;
        }
        Err(SyncError::NotFound)
    }

    /// Whether every kind of `version` is stored.
    pub fn entry_exists(&self, version: &String) -> (r: bool)
        ensures
            r == self@.entry_exists(version@),
    {
        self.read_entry(version, RecordKind::Champion).is_ok() && self.read_entry(
            version,
            RecordKind::Item,
        ).is_ok()
    }

    /// Stores `bytes` as the blob of `version` and `kind`. The marker is not
    /// touched, and neither is any other blob.
    pub fn write_entry(&mut self, version: String, kind: RecordKind, bytes: String)
        ensures
            final(self)@ == old(self)@.with_entry(version@, kind, bytes@),
            final(self)@.marker() == old(self)@.marker(),
    {
        let ghost before = self.log@;
        let blob = StoredBlob { version, kind, bytes };
        self.log.push(blob);
        proof {
            assert(self.log@.drop_last() =~= before);
            assert(self@.blobs =~= old(self)@.blobs.insert((version@, kind), bytes@));
        }
    }

    /// Replaces the marker document by `text`.
    pub fn write_marker_text(&mut self, text: String)
        ensures
            final(self)@ == old(self)@.with_marker_text(text@),
    {
        self.marker_text = Some(text);
    }

    /// Makes `version` the current version. No blob is touched. The marker
    /// invariant holds afterwards where `version` is fully stored.
    pub fn write_marker(&mut self, version: &str)
        ensures
            final(self)@ == old(self)@.with_marker_text(
                json_member_document(MARKER_KEY@, version@),
            ),
            final(self)@.marker() == Some(version@),
            old(self)@.entry_exists(version@) ==> final(self)@.marker_backed(),
    {
        let text = write_member_document(MARKER_KEY, version);
        self.write_marker_text(text);
    }

    /// Makes `version` the current version. An entry is written once: where
    /// the marker already names `version`, nothing is written and the store
    /// stays as it is. Otherwise both blobs are stored and then the marker is
    /// advanced, in that order; afterwards the blobs of `version` read back as
    /// given and the marker invariant holds. Either way the marker names
    /// `version` afterwards, and the blobs of the version that it named before
    /// are as they were.
    pub fn commit(&mut self, version: &String, champions: String, items: String)
        ensures
            final(self)@ == refreshed(old(self)@, version@, champions@, items@),
            final(self)@.marker() == Some(version@),
            old(self)@.marker() != Some(version@) ==> final(self)@.entry_exists(version@)
                && final(self)@.marker_backed(),
            old(self)@.marker_backed() ==> final(self)@.marker_backed(),
            old(self)@.marker() is Some ==> same_entry(
                final(self)@,
                old(self)@,
                old(self)@.marker()->Some_0,
            ),
    {
        if self.names(version) {
            return ;
        }
        let plan = update_plan(version, champions, items);
        proof {
            lemma_update_commits(self@, plan@, version@, champions@, items@);
            lemma_update_spares_other_versions(self@, plan@, version@, champions@, items@, 3);
            assert(plan@.take(3) =~= plan@);
        }
        self.apply_all(plan);
    }

    /// Whether the marker names `version`.
    pub fn names(&self, version: &String) -> (r: bool)
        ensures
            r == (self@.marker() == Some(version@)),
    {
        match self.read_marker() {
            Some(current) => current == *version,
            None => false,
        }
    }

    /// Performs one write.
    pub fn apply(&mut self, write: StoreWrite)
        ensures
            final(self)@ == old(self)@.after(write),
    {
        match write {
            StoreWrite::Entry(blob) => self.write_entry(blob.version, blob.kind, blob.bytes),
            StoreWrite::Marker(text) => self.write_marker_text(text),
        }
    }

    /// Performs the writes of `plan`, first to last.
    pub fn apply_all(&mut self, plan: Vec<StoreWrite>)
        ensures
            final(self)@ == old(self)@.after_all(plan@),
    {
        let mut plan = plan;
        let ghost all = plan@;
        let ghost start = self@;
        let mut reversed: Vec<StoreWrite> = Vec::new();
        while plan.len() > 0
            invariant
                plan@.len() + reversed@.len() == all.len(),
                forall|k: int| 0 <= k < plan@.len() ==> plan@[k] == all[k],
                forall|k: int|
                    0 <= k < reversed@.len() ==> reversed@[k] == all[all.len() - 1 - k],
            decreases plan@.len(),
        {
            let last = plan.pop();
            match last {
                Some(write) => reversed.push(write),
                None => {},
            }
        }
        let ghost n = all.len();
        while reversed.len() > 0
            invariant
                n == all.len(),
                reversed@.len() <= n,
                forall|k: int| 0 <= k < reversed@.len() ==> reversed@[k] == all[n - 1 - k],
                self@ == start.after_all(all.take(n - reversed@.len())),
            decreases reversed@.len(),
        {
            let ghost done = n - reversed@.len();
            let next = reversed.pop();
            match next {
                Some(write) => {
                    assert(write == all[done]);
                    assert(all.take(done + 1).drop_last() =~= all.take(done));
                    self.apply(write);
                },
                None => {},
            }
        }
        assert(all.take(n as int) =~= all);
    }
}

/// Whether `plan` is the write sequence of an update to `version`: the
/// champion blob, the item blob, and only then the marker document naming it.
pub open spec fn is_update_plan(
    plan: Seq<StoreWrite>,
    version: Seq<char>,
    champions: Seq<char>,
    items: Seq<char>,
) -> bool {
    &&& plan.len() == 3
    &&& plan[0] matches StoreWrite::Entry(blob) && blob.version@ == version && blob.kind
        == RecordKind::Champion && blob.bytes@ == champions
    &&& plan[1] matches StoreWrite::Entry(blob) && blob.version@ == version && blob.kind
        == RecordKind::Item && blob.bytes@ == items
    &&& plan[2] matches StoreWrite::Marker(text) && text@ == json_member_document(
        MARKER_KEY@,
        version,
    ) && json_string_member(text@, MARKER_KEY@) == Some(version)
}

/// The store after a complete update to `version`.
pub open spec fn committed(
    before: StoreView,
    version: Seq<char>,
    champions: Seq<char>,
    items: Seq<char>,
) -> StoreView {
    before.with_entry(version, RecordKind::Champion, champions).with_entry(
        version,
        RecordKind::Item,
        items,
    ).with_marker_text(json_member_document(MARKER_KEY@, version))
}

/// The store after a refresh to `version`: as it was where the marker
/// already names `version`, since an entry is written once, and else after
/// the complete update.
pub open spec fn refreshed(
    before: StoreView,
    version: Seq<char>,
    champions: Seq<char>,
    items: Seq<char>,
) -> StoreView {
    if before.marker() == Some(version) {
        before
    } else {
        committed(before, version, champions, items)
    }
}

/// The writes of an update to `version`, a version that the marker does not
/// name yet, in the order in which they must reach storage: every blob first,
/// the marker last.
pub fn update_plan(version: &String, champions: String, items: String) -> (plan: Vec<StoreWrite>)
    ensures
        is_update_plan(plan@, version@, champions@, items@),
{
    let marker = write_member_document(MARKER_KEY, version.as_str());
    let mut plan: Vec<StoreWrite> = Vec::new();
    plan.push(
        StoreWrite::Entry(
            StoredBlob { version: version.clone(), kind: RecordKind::Champion, bytes: champions },
        ),
    );
    plan.push(
        StoreWrite::Entry(
            StoredBlob { version: version.clone(), kind: RecordKind::Item, bytes: items },
        ),
    );
    plan.push(StoreWrite::Marker(marker));
    plan
}

/// Whether the blobs of `version` are the same in both stores.
pub open spec fn same_entry(a: StoreView, b: StoreView, version: Seq<char>) -> bool {
    forall|kind: RecordKind|
        a.blobs.contains_key((version, kind)) == b.blobs.contains_key((version, kind)) && (
        a.blobs.contains_key((version, kind)) ==> #[trigger] a.blobs[(version, kind)]
            == b.blobs[(version, kind)])
}

/// The writes of an update touch no version but their own: after any
/// prefix of an update plan, the whole plan included, the blobs of every
/// other version are as they were.
pub proof fn lemma_update_spares_other_versions(
    before: StoreView,
    plan: Seq<StoreWrite>,
    version: Seq<char>,
    champions: Seq<char>,
    items: Seq<char>,
    done: int,
)
    requires
        is_update_plan(plan, version, champions, items),
        0 <= done <= plan.len(),
    ensures
        forall|other: Seq<char>|
            other != version ==> #[trigger] same_entry(
                before.after_all(plan.take(done)),
                before,
                other,
            ),
{
    let none = plan.take(0);
    let one = plan.take(1);
    let two = plan.take(2);
    let all = plan.take(3);
    assert(one.drop_last() =~= none);
    assert(two.drop_last() =~= one);
    assert(all.drop_last() =~= two);
    assert(before.after_all(none) == before);
    assert(before.after_all(one) == before.after(plan[0]));
    assert(before.after_all(two) == before.after(plan[0]).after(plan[1]));
    assert(before.after_all(all) == before.after(plan[0]).after(plan[1]).after(plan[2]));
}

/// An update that stops before its last write leaves the committed state as
/// it was. An update is planned only for a version that the marker does not
/// name; after any proper prefix of its plan the marker document, and so the
/// version it names, are those from before the update, the blobs of the
/// version that the marker names are as they were, and the marker invariant
/// still holds.
pub proof fn lemma_interrupted_update_keeps_marker(
    before: StoreView,
    plan: Seq<StoreWrite>,
    version: Seq<char>,
    champions: Seq<char>,
    items: Seq<char>,
    done: int,
)
    requires
        is_update_plan(plan, version, champions, items),
        before.marker() != Some(version),
        0 <= done < plan.len(),
    ensures
        before.after_all(plan.take(done)).marker_text == before.marker_text,
        before.after_all(plan.take(done)).marker() == before.marker(),
        before.marker() is Some ==> same_entry(
            before.after_all(plan.take(done)),
            before,
            before.marker()->Some_0,
        ),
        before.marker_backed() ==> before.after_all(plan.take(done)).marker_backed(),
{
    lemma_update_spares_other_versions(before, plan, version, champions, items, done);
    let none = plan.take(0);
    let one = plan.take(1);
    let two = plan.take(2);
    assert(one.drop_last() =~= none);
    assert(two.drop_last() =~= one);
    assert(before.after_all(none) == before);
    assert(before.after_all(one) == before.after(plan[0]));
    assert(before.after_all(two) == before.after(plan[0]).after(plan[1]));
}

/// A completed update commits its version: after the whole plan the marker
/// names `version`, both blobs of `version` read back as written, and the
/// marker invariant holds, whatever the store held before.
pub proof fn lemma_update_commits(
    before: StoreView,
    plan: Seq<StoreWrite>,
    version: Seq<char>,
    champions: Seq<char>,
    items: Seq<char>,
)
    requires
        is_update_plan(plan, version, champions, items),
    ensures
        before.after_all(plan) == committed(before, version, champions, items),
        before.after_all(plan).marker() == Some(version),
        before.after_all(plan).blobs[(version, RecordKind::Champion)] == champions,
        before.after_all(plan).blobs[(version, RecordKind::Item)] == items,
        before.after_all(plan).entry_exists(version),
        before.after_all(plan).marker_backed(),
{
    let none = plan.take(0);
    let one = plan.take(1);
    let two = plan.take(2);
    assert(one.drop_last() =~= none);
    assert(two.drop_last() =~= one);
    assert(plan.drop_last() =~= two);
    assert(before.after_all(none) == before);
    assert(before.after_all(one) == before.after(plan[0]));
    assert(before.after_all(two) == before.after(plan[0]).after(plan[1]));
    assert(before.after_all(plan) == before.after(plan[0]).after(plan[1]).after(plan[2]));
}

/// Whether `plan` holds the writes of a refresh to `version` on the store
/// `before`: none where the marker already names `version`, and else the
/// update plan.
pub open spec fn is_refresh_plan(
    plan: Seq<StoreWrite>,
    before: StoreView,
    version: Seq<char>,
    champions: Seq<char>,
    items: Seq<char>,
) -> bool {
    if before.marker() == Some(version) {
        plan.len() == 0
    } else {
        is_update_plan(plan, version, champions, items)
    }
}

/// The store after a run of refreshes, the writes of each applied whole,
/// first to last.
pub open spec fn after_updates(before: StoreView, plans: Seq<Seq<StoreWrite>>) -> StoreView
    decreases plans.len(),
{
    if plans.len() == 0 {
        before
    } else {
        after_updates(before, plans.drop_last()).after_all(plans.last())
    }
}

/// After any run of completed refreshes the marker names the version of the
/// last one, that version is fully stored, and the marker invariant holds: no
/// earlier version of the run shows.
pub proof fn lemma_marker_follows_last_update(
    before: StoreView,
    plans: Seq<Seq<StoreWrite>>,
    versions: Seq<Seq<char>>,
    champions: Seq<Seq<char>>,
    items: Seq<Seq<char>>,
)
    requires
        before.marker_backed(),
        plans.len() > 0,
        versions.len() == plans.len(),
        champions.len() == plans.len(),
        items.len() == plans.len(),
        forall|k: int|
            0 <= k < plans.len() ==> is_refresh_plan(
                #[trigger] plans[k],
                after_updates(before, plans.take(k)),
                versions[k],
                champions[k],
                items[k],
            ),
    ensures
        after_updates(before, plans).marker() == Some(versions.last()),
        after_updates(before, plans).entry_exists(versions.last()),
        after_updates(before, plans).marker_backed(),
    decreases plans.len(),
{
    let last = plans.len() - 1;
    let earlier = plans.drop_last();
    assert(plans.take(last) =~= earlier);
    if earlier.len() > 0 {
        assert forall|k: int| 0 <= k < earlier.len() implies is_refresh_plan(
            #[trigger] earlier[k],
            after_updates(before, earlier.take(k)),
            versions.drop_last()[k],
            champions.drop_last()[k],
            items.drop_last()[k],
        ) by {
            assert(earlier.take(k) =~= plans.take(k));
            assert(earlier[k] == plans[k]);
        }
        lemma_marker_follows_last_update(
            before,
            earlier,
            versions.drop_last(),
            champions.drop_last(),
            items.drop_last(),
        );
    }
    let reached = after_updates(before, earlier);
    assert(reached.marker_backed());
    assert(is_refresh_plan(plans[last], reached, versions[last], champions[last], items[last]));
    if reached.marker() == Some(versions[last]) {
        assert(reached.after_all(plans[last]) == reached);
    } else {
        lemma_update_commits(reached, plans[last], versions[last], champions[last], items[last]);
    }
}

/// The bytes of the last write in `writes` that stores a blob for `version`
/// and `kind`, if there is one.
pub open spec fn last_entry_write(writes: Seq<StoreWrite>, version: Seq<char>, kind: RecordKind)
    -> Option<Seq<char>>
    decreases writes.len(),
{
    if writes.len() == 0 {
        None
    } else {
        match writes.last() {
            StoreWrite::Entry(blob) => if blob.version@ == version && blob.kind == kind {
                Some(blob.bytes@)
            } else {
                last_entry_write(writes.drop_last(), version, kind)
            },
            StoreWrite::Marker(_) => last_entry_write(writes.drop_last(), version, kind),
        }
    }
}

/// A stored blob is always one whole write. After any sequence of writes, in
/// whatever order the writes of several updates arrive, the bytes held for a
/// version and kind are exactly those of the last write for them, never a
/// mixture of two; where the sequence holds no such write, the blob is what
/// it was before.
pub proof fn lemma_blob_is_last_whole_write(
    before: StoreView,
    writes: Seq<StoreWrite>,
    version: Seq<char>,
    kind: RecordKind,
)
    ensures
        match last_entry_write(writes, version, kind) {
            Some(bytes) => before.after_all(writes).blobs.contains_key((version, kind))
                && before.after_all(writes).blobs[(version, kind)] == bytes,
            None => before.after_all(writes).blobs.contains_key((version, kind))
                == before.blobs.contains_key((version, kind)) && (before.blobs.contains_key(
                (version, kind),
            ) ==> before.after_all(writes).blobs[(version, kind)] == before.blobs[(
                version,
                kind,
            )]),
        },
    decreases writes.len(),
{
    if writes.len() > 0 {
        lemma_blob_is_last_whole_write(before, writes.drop_last(), version, kind);
    }
}

} // verus!
