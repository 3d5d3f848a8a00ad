//! Version resolution and cache synchronisation: which version is newest,
//! which one is current locally, and how a refresh is written so that the
//! marker never names a version that is not fully stored.

use vstd::prelude::*;
use vstd::string::StringExecFns;
use crate::data::error::SyncError;
use crate::data::json::{json_string_list, parse_string_list, slice_text_of, text_of, texts};
use crate::data::store::{
    committed, is_update_plan, lemma_update_commits, same_entry, CacheStore, RecordKind,
    StoreView, StoreWrite,
};

verus! {

/// Where the remote source lists its versions, newest first.
pub const VERSIONS_URL: &'static str = "https://ddragon.leagueoflegends.com/api/versions.json";

/// The root under which the remote source publishes each version's data.
pub const BASE_CDN_URL: &'static str = "https://ddragon.leagueoflegends.com/cdn";

/// The language in which records are fetched.
pub const LANG_CODE: &'static str = "en_US";

/// How the local cache stands against the remote source.
#[derive(Debug, Clone, PartialEq, Eq)]
pub struct DataStatus {
    pub current_version: Option<String>,
    pub latest_version: String,
    pub is_up_to_date: bool,
}

/// The raw bytes of the current version, as read back from the store.
#[derive(Debug, Clone, PartialEq, Eq)]
pub struct RawSnapshot {
    pub version: String,
    pub champions: String,
    pub items: String,
}

/// A version or an error, with the version as characters.
pub open spec fn outcome_of(r: Result<String, SyncError>) -> Result<Seq<char>, SyncError> {
    match r {
        Ok(v) => Ok(v@),
        Err(e) => Err(e),
    }
}

/// The newest version of a parsed version list: its first element.
/// A list that did not parse is `Unavailable`, one without elements `Empty`.
pub open spec fn newest_of(list: Option<Seq<Seq<char>>>) -> Result<Seq<char>, SyncError> {
    match list {
        None => Err(SyncError::Unavailable),
        Some(versions) => if versions.len() == 0 {
            Err(SyncError::Empty)
        } else {
            Ok(versions[0])
        },
    }
}

/// The newest version according to the remote source's answer; `None`
/// stands for a request that failed.
pub open spec fn resolve_latest(body: Option<Seq<char>>) -> Result<Seq<char>, SyncError> {
    match body {
        None => Err(SyncError::Unavailable),
        Some(text) => newest_of(json_string_list(text)),
    }
}

/// The parsed list as character sequences.
pub open spec fn list_texts(list: Option<Vec<String>>) -> Option<Seq<Seq<char>>> {
    match list {
        Some(versions) => Some(texts(versions@)),
        None => None,
    }
}

/// Picks the newest version from a parsed version list.
pub fn latest_of(list: Option<Vec<String>>) -> (r: Result<String, SyncError>)
    ensures
        outcome_of(r) == newest_of(list_texts(list)),
{
    match list {
        None => Err(SyncError::Unavailable),
        Some(versions) => {
            if versions.len() == 0 {
                Err(SyncError::Empty)
            } else {
                Ok(versions[0].clone())
            }
        },
    }
}

/// Resolves the newest version from the remote source's answer to a request
/// for its version list; `None` stands for a request that failed.
pub fn latest_from_body(body: Option<&str>) -> (r: Result<String, SyncError>)
    ensures
        outcome_of(r) == resolve_latest(slice_text_of(body)),
{
    match body {
        None => Err(SyncError::Unavailable),
        Some(text) => latest_of(parse_string_list(text)),
    }
}

/// The status that a local marker and the newest remote version amount to:
/// current exactly when the marker names that version.
pub fn status_of(current: Option<String>, latest: String) -> (r: DataStatus)
    ensures
        r.current_version == current,
        r.latest_version == latest,
        r.is_up_to_date == (text_of(current) == Some(latest@)),
{
    let is_up_to_date = match &current {
        Some(version) => *version == latest,
        None => false,
    };
    DataStatus { current_version: current, latest_version: latest, is_up_to_date }
}

/// The address of one kind's blob of one version at the remote source.
pub open spec fn entry_url_text(version: Seq<char>, kind: RecordKind) -> Seq<char> {
    BASE_CDN_URL@ + "/"@ + version + "/data/"@ + LANG_CODE@ + "/"@ + kind.file_name_text()
}

/// Builds the address of one kind's blob of one version.
pub fn entry_url(version: &str, kind: RecordKind) -> (r: String)
    ensures
        r@ == entry_url_text(version@, kind),
{
    let mut url = String::from_str(BASE_CDN_URL);
    url.append("/");
    url.append(version);
    url.append("/data/");
    url.append(LANG_CODE);
    url.append("/");
    url.append(kind.file_name());
    url
}

/// What reading the current version back from a store yields: the version
/// that the marker names with its two blobs, `NoLocalData` where the marker
/// names none, `NotFound` where a blob of the named version is missing.
pub open spec fn load_outcome(store: StoreView) -> Result<
    (Seq<char>, Seq<char>, Seq<char>),
    SyncError,
> {
    match store.marker() {
        None => Err(SyncError::NoLocalData),
        Some(version) => if store.entry_exists(version) {
            Ok(
                (
                    version,
                    store.blobs[(version, RecordKind::Champion)],
                    store.blobs[(version, RecordKind::Item)],
                ),
            )
        } else {
            Err(SyncError::NotFound)
        },
    }
}

/// A read-back snapshot or an error, with the snapshot as characters.
pub open spec fn raw_outcome_of(r: Result<RawSnapshot, SyncError>) -> Result<
    (Seq<char>, Seq<char>, Seq<char>),
    SyncError,
> {
    match r {
        Ok(raw) => Ok((raw.version@, raw.champions@, raw.items@)),
        Err(e) => Err(e),
    }
}

/// What an update to `version` comes to: the outcome and the store
/// afterwards, for the store before and what was downloaded.
pub open spec fn updates(
    before: StoreView,
    version: Seq<char>,
    champions: Option<String>,
    items: Option<String>,
    outcome: Result<(), SyncError>,
    after: StoreView,
) -> bool {
    if before.marker() == Some(version) {
        outcome is Ok && after == before
    } else {
        match (champions, items) {
            (Some(c), Some(i)) => outcome is Ok && after == committed(before, version, c@, i@),
            (Some(c), None) => outcome == Err::<(), SyncError>(SyncError::Unavailable) && after
                == before.with_entry(version, RecordKind::Champion, c@),
            (None, _) => outcome == Err::<(), SyncError>(SyncError::Unavailable) && after
                == before,
        }
    }
}

/// The coordinator of one installation's cache.
pub struct DataManager {
    pub store: CacheStore,
}

impl DataManager {
    /// A coordinator over `store`.
    pub fn new(store: CacheStore) -> (r: Self)
        ensures
            r.store == store,
    {
        DataManager { store }
    }

    /// The newest version according to the remote source's answer to a
    /// request for its version list; `None` stands for a request that failed.
    pub fn fetch_latest_version(&self, body: Option<&str>) -> (r: Result<String, SyncError>)
        ensures
            outcome_of(r) == resolve_latest(slice_text_of(body)),
    {
        latest_from_body(body)
    }

    /// The version that the local marker names, if any.
    pub fn get_local_version(&self) -> (r: Option<String>)
        ensures
            text_of(r) == self.store@.marker(),
    {
        self.store.read_marker()
    }

    /// Compares the local marker with the newest remote version. Fails only
    /// as the resolution of the newest version fails; changes nothing.
    pub fn check_status(&self, body: Option<&str>) -> (r: Result<DataStatus, SyncError>)
        ensures
            match resolve_latest(slice_text_of(body)) {
                Ok(latest) => r is Ok && r->Ok_0.latest_version@ == latest && text_of(
                    r->Ok_0.current_version,
                ) == self.store@.marker() && r->Ok_0.is_up_to_date == (self.store@.marker()
                    == Some(latest)),
                Err(e) => r == Err::<DataStatus, SyncError>(e),
            },
    {
        match self.fetch_latest_version(body) {
            Ok(latest) => Ok(status_of(self.get_local_version(), latest)),
            Err(e) => Err(e),
        }
    }

    /// Makes `version` the current version from its downloaded blobs; `None`
    /// stands for a download that failed.
    ///
    /// An entry is written once. Where the marker already names `version`,
    /// nothing is written and the call succeeds. Otherwise, with both blobs at
    /// hand the update commits; without the champion blob nothing is written;
    /// with the champion blob alone it is stored as an orphan of `version`.
    /// Either failure is `Unavailable`. Whatever the outcome, the blobs of
    /// the version that the marker named before the call are as they were,
    /// and a failure leaves the marker where it was.
    pub fn update_data(
        &mut self,
        version: String,
        champions: Option<String>,
        items: Option<String>,
    ) -> (r: Result<(), SyncError>)
        ensures
            updates(old(self).store@, version@, champions, items, r, final(self).store@),
            r is Ok ==> final(self).store@.marker() == Some(version@),
            r is Err ==> final(self).store@.marker() == old(self).store@.marker(),
            old(self).store@.marker() is Some ==> same_entry(
                final(self).store@,
                old(self).store@,
                old(self).store@.marker()->Some_0,
            ),
            old(self).store@.marker_backed() ==> final(self).store@.marker_backed(),
    {
        if self.store.names(&version) {
            return Ok(());
        }
        match champions {
            None => Err(SyncError::Unavailable),
            Some(c) => match items {
                None => {
                    self.store.write_entry(version, RecordKind::Champion, c);
                    Err(SyncError::Unavailable)
                },
                Some(i) => {
                    self.store.commit(&version, c, i);
                    Ok(())
                },
            },
        }
    }

    /// Reads the current version's blobs back from the store. Fails with
    /// `NoLocalData` exactly when the marker names no version, and with
    /// `NotFound` exactly when it names one of which a blob is missing.
    pub fn load_data(&self) -> (r: Result<RawSnapshot, SyncError>)
        ensures
            raw_outcome_of(r) == load_outcome(self.store@),
    {
        match self.store.read_marker() {
            None => Err(SyncError::NoLocalData),
            Some(version) => {
                match self.store.read_entry(&version, RecordKind::Champion) {
                    Err(e) => Err(e),
                    Ok(champions) => match self.store.read_entry(&version, RecordKind::Item) {
                        Err(e) => Err(e),
                        Ok(items) => Ok(RawSnapshot { version, champions, items }),
                    },
                }
            },
        }
    }
}

/// Reading back after a completed update returns what the update wrote: the
/// committed version with exactly the downloaded bytes of each kind, whatever
/// the store held before. A snapshot parsed from the store therefore equals
/// one parsed from the download.
pub proof fn lemma_load_returns_committed(
    before: StoreView,
    plan: Seq<StoreWrite>,
    version: Seq<char>,
    champions: Seq<char>,
    items: Seq<char>,
)
    requires
        is_update_plan(plan, version, champions, items),
    ensures
        load_outcome(before.after_all(plan)) == Ok::<(Seq<char>, Seq<char>, Seq<char>), SyncError>(
            (version, champions, items),
        ),
{
    lemma_update_commits(before, plan, version, champions, items);
}

} // verus!
