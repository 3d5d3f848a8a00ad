//! One run of the coordinator, a refresh or a load, as a sequence of
//! decisions. Fetching, writing to storage and parsing happen outside; each of
//! their results comes in as an event, and the answer is the next phase and
//! the one thing to do next.

use vstd::prelude::*;
use vstd::string::StringExecFns;
use crate::data::error::SyncError;
use crate::data::json::{
    json_member_document, json_string_member, text_of, write_member_document,
};
use crate::data::manager::{
    entry_url, entry_url_text, latest_from_body, load_outcome, resolve_latest, VERSIONS_URL,
};
use crate::data::store::{
    is_update_plan, lemma_update_commits, lemma_update_spares_other_versions, same_entry,
    RecordKind, StoreView, StoreWrite, StoredBlob, MARKER_KEY,
};
use crate::data::{LeagueDataState, Reloaded};

verus! {

/// What a refresh is writing.
#[derive(Debug, Clone, Copy, PartialEq, Eq, Structural)]
pub enum PersistStep {
    /// The blob of one kind.
    Blob(RecordKind),
    /// The marker, after every blob.
    Marker,
}

/// What a run is for.
#[derive(Debug, PartialEq, Eq)]
pub enum RefreshGoal {
    /// Make the newest remote version current and resident; `local` is the
    /// version that the marker named when the run began. Where that is the
    /// newest version already, nothing is downloaded or written.
    Refresh { local: Option<String> },
    /// Bring the current local version into memory without asking the remote
    /// source; `local` is the version that the marker named when the run
    /// began.
    Load { local: Option<String> },
}

/// Where a run stands.
#[derive(Debug, PartialEq, Eq)]
pub enum RefreshPhase {
    /// Nothing is in progress.
    Idle,
    /// The version list has been requested; `local` is the version that the
    /// marker named when the run began.
    CheckingRemote { local: Option<String> },
    /// The marker already names `version`, the newest one: nothing is written,
    /// and its blobs are being read back and parsed.
    UpToDate { version: String },
    /// The blob of `kind` of `version` has been requested.
    Downloading { version: String, kind: RecordKind },
    /// A write for `version` has been handed to storage.
    Persisting { version: String, step: PersistStep },
    /// The marker names `version`, by this run's write or for a load; its
    /// blobs are being read back and parsed.
    Reloading { version: String },
    /// `version` is current on disk and resident in memory.
    Committed { version: String },
    /// The run stopped with `error`.
    Failed { error: SyncError },
}

/// What happened outside since the last decision.
#[derive(Debug, PartialEq, Eq)]
pub enum RefreshEvent {
    /// A run is asked for.
    Begin(RefreshGoal),
    /// The answer to the last request; `None` where the request failed.
    Fetched(Option<String>),
    /// Whether the last write reached storage.
    Stored(bool),
    /// What reading the version back and parsing it came to.
    Reloaded(Reloaded),
    /// Whoever performed the last action gave up on it, and no answer will
    /// come.
    Abandoned,
}

/// What to do next.
#[derive(Debug, PartialEq, Eq)]
pub enum RefreshAction {
    /// Request this address and report the answer as `Fetched`.
    Fetch(String),
    /// Perform this write and report as `Stored`.
    Store(StoreWrite),
    /// Read the blobs of this version back, parse them, report as `Reloaded`.
    Reload(String),
    /// The run is over, with the committed version or the failure.
    Finish(Result<String, SyncError>),
    /// The event does not belong to this phase; nothing changes.
    Ignore,
}

impl RefreshPhase {
    /// Whether a new run can begin in this phase.
    pub open spec fn at_rest(self) -> bool {
        self is Idle || self is Committed || self is Failed
    }
}

/// Whether `action` stops the refresh with `error`, leaving `next` failed.
pub open spec fn fails_with(next: RefreshPhase, action: RefreshAction, error: SyncError) -> bool {
    next == (RefreshPhase::Failed { error }) && action == RefreshAction::Finish(
        Err::<String, SyncError>(error),
    )
}

/// Whether `action` requests the address `url`.
pub open spec fn fetches(action: RefreshAction, url: Seq<char>) -> bool {
    action matches RefreshAction::Fetch(address) && address@ == url
}

/// Whether `text` is the marker document that names `version`.
pub open spec fn names_version(text: Seq<char>, version: Seq<char>) -> bool {
    text == json_member_document(MARKER_KEY@, version) && json_string_member(text, MARKER_KEY@)
        == Some(version)
}

/// The decision to begin a run from rest. A load goes straight to reading
/// the marker's version back, and fails with `NoLocalData` where the marker
/// names none. A refresh starts by requesting the version list.
pub open spec fn decides_to_begin(goal: RefreshGoal, next: RefreshPhase, action: RefreshAction)
    -> bool {
    match goal {
        RefreshGoal::Load { local: None } => fails_with(next, action, SyncError::NoLocalData),
        RefreshGoal::Load { local: Some(current) } => {
            &&& next matches RefreshPhase::Reloading { version }
            &&& version@ == current@
            &&& action matches RefreshAction::Reload(wanted)
            &&& wanted@ == current@
        },
        RefreshGoal::Refresh { local } => next == (RefreshPhase::CheckingRemote { local })
            && fetches(action, VERSIONS_URL@),
    }
}

/// The decision once the newest version is known. An entry is written once:
/// where the marker already names the newest version, the run downloads and
/// writes nothing and has that version read back. Otherwise it requests the
/// champion blob.
pub open spec fn decides_on_latest(
    local: Option<String>,
    latest: Seq<char>,
    next: RefreshPhase,
    action: RefreshAction,
) -> bool {
    if text_of(local) == Some(latest) {
        &&& next matches RefreshPhase::UpToDate { version }
        &&& version@ == latest
        &&& action matches RefreshAction::Reload(wanted)
        &&& wanted@ == latest
    } else {
        &&& next matches RefreshPhase::Downloading { version, kind }
        &&& version@ == latest
        &&& kind == RecordKind::Champion
        &&& fetches(action, entry_url_text(latest, RecordKind::Champion))
    }
}

/// The decision on the outcome of a reload of `version`: the run commits
/// with that version where the sets were parsed and hold no key twice, and
/// else fails with the failure that the outcome stands for.
pub open spec fn decides_on_reload(
    version: String,
    reloaded: Reloaded,
    next: RefreshPhase,
    action: RefreshAction,
) -> bool {
    if reloaded.sound() {
        &&& next matches RefreshPhase::Committed { version: target }
        &&& target@ == version@
        &&& action matches RefreshAction::Finish(Ok(committed))
        &&& committed@ == version@
    } else {
        &&& next matches RefreshPhase::Failed { error }
        &&& reloaded.fails_as(error)
        &&& fails_with(next, action, error)
    }
}

/// The failure that a run ends with when the outside work it waits for is
/// given up: `Unavailable` while it waits for the remote source, `IoFailure`
/// while it waits for storage.
pub open spec fn failure_when_abandoned(phase: RefreshPhase) -> SyncError {
    match phase {
        RefreshPhase::CheckingRemote { .. } | RefreshPhase::Downloading { .. } => {
            SyncError::Unavailable
        },
        _ => SyncError::IoFailure,
    }
}

/// The decision rule. A run begins from rest. A refresh requests the version
/// list and resolves the newest version from the answer; a load goes straight
/// to the reload. Where the marker does not name the newest version yet, a
/// refresh then, for the champion blob and after it the item blob, requests
/// the blob and stores it, and only after both writes were acknowledged
/// writes the marker. Every run ends by having the current version read back
/// and parsed, and installs the parsed snapshot. A failed request ends the
/// run as `Unavailable`, a failed write as `IoFailure`, a failed reload as the
/// failure it stands for, and work given up as a failure of that work. An
/// event out of turn is ignored.
pub open spec fn decides(
    phase: RefreshPhase,
    event: RefreshEvent,
    next: RefreshPhase,
    action: RefreshAction,
) -> bool {
    match (phase, event) {
        (RefreshPhase::CheckingRemote { local }, RefreshEvent::Fetched(body)) => {
            match resolve_latest(text_of(body)) {
                Ok(latest) => decides_on_latest(local, latest, next, action),
                Err(error) => fails_with(next, action, error),
            }
        },
        (RefreshPhase::Downloading { version, kind }, RefreshEvent::Fetched(Some(bytes))) => {
            &&& next matches RefreshPhase::Persisting { version: target, step }
            &&& target@ == version@
            &&& step == PersistStep::Blob(kind)
            &&& action matches RefreshAction::Store(StoreWrite::Entry(blob))
            &&& blob.version@ == version@
            &&& blob.kind == kind
            &&& blob.bytes@ == bytes@
        },
        (RefreshPhase::Downloading { .. }, RefreshEvent::Fetched(None)) => {
            fails_with(next, action, SyncError::Unavailable)
        },
        (RefreshPhase::Persisting { .. }, RefreshEvent::Stored(false)) => {
            fails_with(next, action, SyncError::IoFailure)
        },
        (
            RefreshPhase::Persisting { version, step: PersistStep::Blob(RecordKind::Champion) },
            RefreshEvent::Stored(true),
        ) => {
            &&& next matches RefreshPhase::Downloading { version: target, kind }
            &&& target@ == version@
            &&& kind == RecordKind::Item
            &&& fetches(action, entry_url_text(version@, RecordKind::Item))
        },
        (
            RefreshPhase::Persisting { version, step: PersistStep::Blob(RecordKind::Item) },
            RefreshEvent::Stored(true),
        ) => {
            &&& next matches RefreshPhase::Persisting { version: target, step }
            &&& target@ == version@
            &&& step == PersistStep::Marker
            &&& action matches RefreshAction::Store(StoreWrite::Marker(text))
            &&& names_version(text@, version@)
        },
        (
            RefreshPhase::Persisting { version, step: PersistStep::Marker },
            RefreshEvent::Stored(true),
        ) => {
            &&& next matches RefreshPhase::Reloading { version: target }
            &&& target@ == version@
            &&& action matches RefreshAction::Reload(wanted)
            &&& wanted@ == version@
        },
        (RefreshPhase::Reloading { version }, RefreshEvent::Reloaded(reloaded)) => {
            decides_on_reload(version, reloaded, next, action)
        },
        (RefreshPhase::UpToDate { version }, RefreshEvent::Reloaded(reloaded)) => {
            decides_on_reload(version, reloaded, next, action)
        },
        (_, RefreshEvent::Abandoned) => {
            if phase.at_rest() {
                next == phase && action is Ignore
            } else {
                fails_with(next, action, failure_when_abandoned(phase))
            }
        },
        (_, RefreshEvent::Begin(goal)) => {
            if phase.at_rest() {
                decides_to_begin(goal, next, action)
            } else {
                next == phase && action is Ignore
            }
        },
        _ => next == phase && action is Ignore,
    }
}

/// What the decision does to the resident snapshot: the parsed sets replace
/// it whole when a reload is sound, and nothing else ever touches it.
pub open spec fn installs(
    phase: RefreshPhase,
    event: RefreshEvent,
    before: LeagueDataState,
    after: LeagueDataState,
) -> bool {
    if (phase is Reloading || phase is UpToDate) && event is Reloaded
        && event->Reloaded_0.sound() {
        after.champions == Some(event->Reloaded_0->Parsed_0) && after.items == Some(
            event->Reloaded_0->Parsed_1,
        )
    } else {
        after == before
    }
}

/// The marker is written last: a marker write is decided on one event only,
/// the acknowledgement of the item blob's write.
pub proof fn lemma_marker_write_follows_blobs(
    phase: RefreshPhase,
    event: RefreshEvent,
    next: RefreshPhase,
    action: RefreshAction,
)
    requires
        decides(phase, event, next, action),
        action matches RefreshAction::Store(StoreWrite::Marker(_)),
    ensures
        phase matches RefreshPhase::Persisting { step: PersistStep::Blob(RecordKind::Item), .. },
        event == RefreshEvent::Stored(true),
        next matches RefreshPhase::Persisting { step: PersistStep::Marker, .. },
{
}

/// The writes of a refresh are the update plan: from the request for the
/// champion blob on, with every request answered and every write
/// acknowledged, the three writes decided are, in this order, the champion
/// blob as received, the item blob as received, and the marker document
/// naming the version; the run then waits for that version to be read back.
pub proof fn lemma_refresh_writes_the_update_plan(
    version: String,
    champions: String,
    items: String,
    phases: Seq<RefreshPhase>,
    actions: Seq<RefreshAction>,
)
    requires
        phases.len() == 6,
        actions.len() == 5,
        phases[0] == (RefreshPhase::Downloading { version, kind: RecordKind::Champion }),
        decides(phases[0], RefreshEvent::Fetched(Some(champions)), phases[1], actions[0]),
        decides(phases[1], RefreshEvent::Stored(true), phases[2], actions[1]),
        decides(phases[2], RefreshEvent::Fetched(Some(items)), phases[3], actions[2]),
        decides(phases[3], RefreshEvent::Stored(true), phases[4], actions[3]),
        decides(phases[4], RefreshEvent::Stored(true), phases[5], actions[4]),
    ensures
        actions[0] matches RefreshAction::Store(first) && actions[2] matches RefreshAction::Store(
            second,
        ) && actions[3] matches RefreshAction::Store(third) && is_update_plan(
            seq![first, second, third],
            version@,
            champions@,
            items@,
        ),
        fetches(actions[1], entry_url_text(version@, RecordKind::Item)),
        actions[4] matches RefreshAction::Reload(wanted) && wanted@ == version@,
        phases[5] matches RefreshPhase::Reloading { version: target } && target@ == version@,
{
}

/// An entry is written once: on learning the newest version a run decides no
/// write, and it goes on to download, and so to write blobs, only for a
/// version that the marker did not name when the run began. The run for a
/// version that the marker names goes straight to the read-back.
pub proof fn lemma_current_version_is_not_rewritten(
    local: Option<String>,
    body: Option<String>,
    next: RefreshPhase,
    action: RefreshAction,
)
    requires
        decides(RefreshPhase::CheckingRemote { local }, RefreshEvent::Fetched(body), next, action),
    ensures
        !(action is Store),
        next matches RefreshPhase::Downloading { version, .. } ==> text_of(local) != Some(
            version@,
        ),
        resolve_latest(text_of(body)) is Ok && text_of(local) == Some(
            resolve_latest(text_of(body))->Ok_0,
        ) ==> next is UpToDate && action is Reload,
{
}

/// Blobs are written only for the version that is being downloaded: a blob
/// write is decided on one event only, the arrival of a blob of the version
/// in download, and it is a write for that version and kind.
pub proof fn lemma_blob_write_is_for_the_download(
    phase: RefreshPhase,
    event: RefreshEvent,
    next: RefreshPhase,
    action: RefreshAction,
)
    requires
        decides(phase, event, next, action),
        action matches RefreshAction::Store(StoreWrite::Entry(_)),
    ensures
        phase matches RefreshPhase::Downloading { version, kind } && action
            matches RefreshAction::Store(StoreWrite::Entry(blob)) && blob.version@ == version@
            && blob.kind == kind,
{
}

/// A refresh to a version that the marker does not name yet, begun at rest
/// and with all outside work succeeding, advances marker, entry and snapshot
/// together. It requests the version list and then both blobs of the newest
/// version; its three writes are the update plan of that version with the
/// blobs as downloaded; performed on the store they leave the marker naming
/// that version with both blobs as downloaded, the marker invariant holding
/// and the blobs of the version named before untouched; the run then has
/// that version read back, installs the parsed sets whole and ends committed
/// with that version.
pub proof fn lemma_refresh_run_commits(
    local: Option<String>,
    body: Option<String>,
    latest: Seq<char>,
    champions: String,
    items: String,
    reloaded: Reloaded,
    phases: Seq<RefreshPhase>,
    actions: Seq<RefreshAction>,
    store: StoreView,
    before: LeagueDataState,
    after: LeagueDataState,
)
    requires
        phases.len() == 9,
        actions.len() == 8,
        phases[0].at_rest(),
        store.marker() == text_of(local),
        resolve_latest(text_of(body)) == Ok::<Seq<char>, SyncError>(latest),
        text_of(local) != Some(latest),
        reloaded.sound(),
        decides(phases[0], RefreshEvent::Begin(RefreshGoal::Refresh { local }), phases[1], actions[0]),
        decides(phases[1], RefreshEvent::Fetched(body), phases[2], actions[1]),
        decides(phases[2], RefreshEvent::Fetched(Some(champions)), phases[3], actions[2]),
        decides(phases[3], RefreshEvent::Stored(true), phases[4], actions[3]),
        decides(phases[4], RefreshEvent::Fetched(Some(items)), phases[5], actions[4]),
        decides(phases[5], RefreshEvent::Stored(true), phases[6], actions[5]),
        decides(phases[6], RefreshEvent::Stored(true), phases[7], actions[6]),
        decides(phases[7], RefreshEvent::Reloaded(reloaded), phases[8], actions[7]),
        installs(phases[7], RefreshEvent::Reloaded(reloaded), before, after),
    ensures
        fetches(actions[0], VERSIONS_URL@),
        fetches(actions[1], entry_url_text(latest, RecordKind::Champion)),
        fetches(actions[3], entry_url_text(latest, RecordKind::Item)),
        actions[2] is Store && actions[4] is Store && actions[5] is Store,
        is_update_plan(
            seq![actions[2]->Store_0, actions[4]->Store_0, actions[5]->Store_0],
            latest,
            champions@,
            items@,
        ),
        store.after_all(
            seq![actions[2]->Store_0, actions[4]->Store_0, actions[5]->Store_0],
        ).marker() == Some(latest),
        load_outcome(
            store.after_all(seq![actions[2]->Store_0, actions[4]->Store_0, actions[5]->Store_0]),
        ) == Ok::<(Seq<char>, Seq<char>, Seq<char>), SyncError>((latest, champions@, items@)),
        store.marker_backed() ==> store.after_all(
            seq![actions[2]->Store_0, actions[4]->Store_0, actions[5]->Store_0],
        ).marker_backed(),
        store.marker() is Some ==> same_entry(
            store.after_all(seq![actions[2]->Store_0, actions[4]->Store_0, actions[5]->Store_0]),
            store,
            store.marker()->Some_0,
        ),
        actions[6] is Reload && actions[6]->Reload_0@ == latest,
        phases[8] is Committed && phases[8]->Committed_version@ == latest,
        actions[7] is Finish && actions[7]->Finish_0 is Ok && actions[7]->Finish_0->Ok_0@
            == latest,
        after.champions == Some(reloaded->Parsed_0),
        after.items == Some(reloaded->Parsed_1),
{
    let plan = seq![actions[2]->Store_0, actions[4]->Store_0, actions[5]->Store_0];
    lemma_update_commits(store, plan, latest, champions@, items@);
    lemma_update_spares_other_versions(store, plan, latest, champions@, items@, 3);
    assert(plan.take(3) =~= plan);
}

/// A refresh to the version that the marker already names, begun at rest,
/// writes nothing: on learning the newest version it has that version read
/// back, installs the parsed sets whole and ends committed with it.
pub proof fn lemma_refresh_run_when_current(
    local: Option<String>,
    body: Option<String>,
    latest: Seq<char>,
    reloaded: Reloaded,
    phases: Seq<RefreshPhase>,
    actions: Seq<RefreshAction>,
    before: LeagueDataState,
    after: LeagueDataState,
)
    requires
        phases.len() == 4,
        actions.len() == 3,
        phases[0].at_rest(),
        resolve_latest(text_of(body)) == Ok::<Seq<char>, SyncError>(latest),
        text_of(local) == Some(latest),
        reloaded.sound(),
        decides(phases[0], RefreshEvent::Begin(RefreshGoal::Refresh { local }), phases[1], actions[0]),
        decides(phases[1], RefreshEvent::Fetched(body), phases[2], actions[1]),
        decides(phases[2], RefreshEvent::Reloaded(reloaded), phases[3], actions[2]),
        installs(phases[2], RefreshEvent::Reloaded(reloaded), before, after),
    ensures
        fetches(actions[0], VERSIONS_URL@),
        actions[1] is Reload && actions[1]->Reload_0@ == latest,
        phases[3] is Committed && phases[3]->Committed_version@ == latest,
        actions[2] is Finish && actions[2]->Finish_0 is Ok && actions[2]->Finish_0->Ok_0@
            == latest,
        after.champions == Some(reloaded->Parsed_0),
        after.items == Some(reloaded->Parsed_1),
{
}

/// A load begun at rest brings the marker's version into memory without a
/// request or a write: it has that version read back, installs the parsed
/// sets whole and ends committed with it. The sets are those parsed from the
/// stored blobs, which after a refresh are the blobs as downloaded.
pub proof fn lemma_load_run_commits(
    current: String,
    reloaded: Reloaded,
    phases: Seq<RefreshPhase>,
    actions: Seq<RefreshAction>,
    before: LeagueDataState,
    after: LeagueDataState,
)
    requires
        phases.len() == 3,
        actions.len() == 2,
        phases[0].at_rest(),
        reloaded.sound(),
        decides(
            phases[0],
            RefreshEvent::Begin(RefreshGoal::Load { local: Some(current) }),
            phases[1],
            actions[0],
        ),
        decides(phases[1], RefreshEvent::Reloaded(reloaded), phases[2], actions[1]),
        installs(phases[1], RefreshEvent::Reloaded(reloaded), before, after),
    ensures
        actions[0] is Reload && actions[0]->Reload_0@ == current@,
        phases[2] is Committed && phases[2]->Committed_version@ == current@,
        actions[1] is Finish && actions[1]->Finish_0 is Ok && actions[1]->Finish_0->Ok_0@
            == current@,
        after.champions == Some(reloaded->Parsed_0),
        after.items == Some(reloaded->Parsed_1),
{
}

/// One run at a time: while a run is in flight, a request to begin
/// another changes nothing and asks for nothing, so the writes of two
/// refreshes cannot interleave through one phase value.
pub proof fn lemma_begin_in_flight_is_ignored(
    phase: RefreshPhase,
    goal: RefreshGoal,
    next: RefreshPhase,
    action: RefreshAction,
)
    requires
        !phase.at_rest(),
        decides(phase, RefreshEvent::Begin(goal), next, action),
    ensures
        next == phase,
        action is Ignore,
{
}

/// A run that does not commit leaves the resident snapshot as it was: a
/// decision that changes the snapshot is taken while reloading, commits, and
/// leaves a snapshot resident.
pub proof fn lemma_snapshot_moves_only_on_commit(
    phase: RefreshPhase,
    event: RefreshEvent,
    next: RefreshPhase,
    action: RefreshAction,
    before: LeagueDataState,
    after: LeagueDataState,
)
    requires
        decides(phase, event, next, action),
        installs(phase, event, before, after),
        after != before,
    ensures
        phase is Reloading || phase is UpToDate,
        next is Committed,
        after.is_loaded(),
{
}

/// Takes one event in `phase` and decides: the next phase and what to do.
pub fn advance(phase: RefreshPhase, event: RefreshEvent, state: &mut LeagueDataState) -> (r: (
    RefreshPhase,
    RefreshAction,
))
    ensures
        decides(phase, event, r.0, r.1),
        installs(phase, event, *old(state), *final(state)),
        old(state).coherent() ==> final(state).coherent(),
        old(state).keys_unique() ==> final(state).keys_unique(),
{
    match phase {
        RefreshPhase::Idle => begin(RefreshPhase::Idle, event),
        RefreshPhase::Committed { version } => begin(RefreshPhase::Committed { version }, event),
        RefreshPhase::Failed { error } => begin(RefreshPhase::Failed { error }, event),
        RefreshPhase::CheckingRemote { local } => {
            match event {
                RefreshEvent::Fetched(body) => {
                    let answer: Option<&str> = match &body {
                        Some(text) => Some(text.as_str()),
                        None => None,
                    };
                    match latest_from_body(answer) {
                        Ok(version) => {
                            let current = match &local {
                                Some(named) => *named == version,
                                None => false,
                            };
                            if current {
                                let wanted = version.clone();
                                (RefreshPhase::UpToDate { version }, RefreshAction::Reload(wanted))
                            } else {
                                let url = entry_url(version.as_str(), RecordKind::Champion);
                                (
                                    RefreshPhase::Downloading {
                                        version,
                                        kind: RecordKind::Champion,
                                    },
                                    RefreshAction::Fetch(url),
                                )
                            }
                        },
                        Err(error) => fail(error),
                    }
                },
                RefreshEvent::Abandoned => fail(SyncError::Unavailable),
                _ => (RefreshPhase::CheckingRemote { local }, RefreshAction::Ignore),
            }
        },
        RefreshPhase::Downloading { version, kind } => {
            match event {
                RefreshEvent::Fetched(Some(bytes)) => {
                    let blob = StoredBlob { version: version.clone(), kind, bytes };
                    (
                        RefreshPhase::Persisting { version, step: PersistStep::Blob(kind) },
                        RefreshAction::Store(StoreWrite::Entry(blob)),
                    )
                },
                RefreshEvent::Fetched(None) => fail(SyncError::Unavailable),
                RefreshEvent::Abandoned => fail(SyncError::Unavailable),
                _ => (RefreshPhase::Downloading { version, kind }, RefreshAction::Ignore),
            }
        },
        RefreshPhase::Persisting { version, step } => {
            match event {
                RefreshEvent::Stored(false) => fail(SyncError::IoFailure),
                RefreshEvent::Stored(true) => {
                    match step {
                        PersistStep::Blob(RecordKind::Champion) => {
                            let url = entry_url(version.as_str(), RecordKind::Item);
                            (
                                RefreshPhase::Downloading { version, kind: RecordKind::Item },
                                RefreshAction::Fetch(url),
                            )
                        },
                        PersistStep::Blob(RecordKind::Item) => {
                            let text = write_member_document(MARKER_KEY, version.as_str());
                            (
                                RefreshPhase::Persisting { version, step: PersistStep::Marker },
                                RefreshAction::Store(StoreWrite::Marker(text)),
                            )
                        },
                        PersistStep::Marker => {
                            let wanted = version.clone();
                            (RefreshPhase::Reloading { version }, RefreshAction::Reload(wanted))
                        },
                    }
                },
                RefreshEvent::Abandoned => fail(SyncError::IoFailure),
                _ => (RefreshPhase::Persisting { version, step }, RefreshAction::Ignore),
            }
        },
        RefreshPhase::Reloading { version } => {
            match event {
                RefreshEvent::Reloaded(reloaded) => finish(version, reloaded, state),
                RefreshEvent::Abandoned => fail(SyncError::IoFailure),
                _ => (RefreshPhase::Reloading { version }, RefreshAction::Ignore),
            }
        },
        RefreshPhase::UpToDate { version } => {
            match event {
                RefreshEvent::Reloaded(reloaded) => finish(version, reloaded, state),
                RefreshEvent::Abandoned => fail(SyncError::IoFailure),
                _ => (RefreshPhase::UpToDate { version }, RefreshAction::Ignore),
            }
        },
    }
}

/// The decision on the outcome of a reload: installs what was parsed and
/// commits, or fails with the failure that the outcome stands for.
fn finish(version: String, reloaded: Reloaded, state: &mut LeagueDataState) -> (r: (
    RefreshPhase,
    RefreshAction,
))
    ensures
        decides_on_reload(version, reloaded, r.0, r.1),
        if reloaded.sound() {
            final(state).champions == Some(reloaded->Parsed_0) && final(state).items == Some(
                reloaded->Parsed_1,
            )
        } else {
            *final(state) == *old(state)
        },
        old(state).coherent() ==> final(state).coherent(),
        old(state).keys_unique() ==> final(state).keys_unique(),
{
    match state.install(reloaded) {
        Ok(_) => {
            let committed = version.clone();
            (RefreshPhase::Committed { version }, RefreshAction::Finish(Ok(committed)))
        },
        Err(error) => fail(error),
    }
}

/// The decision on an event that arrives at rest: a request to begin starts
/// a run, anything else is ignored.
fn begin(phase: RefreshPhase, event: RefreshEvent) -> (r: (RefreshPhase, RefreshAction))
    requires
        phase.at_rest(),
    ensures
        decides(phase, event, r.0, r.1),
{
    match event {
        RefreshEvent::Begin(RefreshGoal::Load { local }) => match local {
            Some(version) => {
                let wanted = version.clone();
                (RefreshPhase::Reloading { version }, RefreshAction::Reload(wanted))
            },
            None => fail(SyncError::NoLocalData),
        },
        RefreshEvent::Begin(RefreshGoal::Refresh { local }) => (
            RefreshPhase::CheckingRemote { local },
            RefreshAction::Fetch(String::from_str(VERSIONS_URL)),
        ),
        _ => (phase, RefreshAction::Ignore),
    }
}

/// The decision that ends a run with `error`.
fn fail(error: SyncError) -> (r: (RefreshPhase, RefreshAction))
    ensures
        r.0 == (RefreshPhase::Failed { error }),
        r.1 == RefreshAction::Finish(Err::<String, SyncError>(error)),
{
    // The error is kept in the phase and reported in the action.
    let reported = duplicate(&error);
    (RefreshPhase::Failed { error }, RefreshAction::Finish(Err(reported)))
}

/// A copy of an error.
fn duplicate(error: &SyncError) -> (r: SyncError)
    ensures
        r == *error,
{
    match error {
        SyncError::Unavailable => SyncError::Unavailable,
        SyncError::Empty => SyncError::Empty,
        SyncError::NotFound => SyncError::NotFound,
        SyncError::NoLocalData => SyncError::NoLocalData,
        SyncError::Malformed(cause) => SyncError::Malformed(cause.clone()),
        SyncError::IoFailure => SyncError::IoFailure,
        SyncError::NotLoaded => SyncError::NotLoaded,
    }
}

} // verus!
