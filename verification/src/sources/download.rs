use vstd::prelude::*;

use crate::errors::{with_context, ErrorKind, SourceError, SourceErrorView};
use crate::model::checksum::Checksum;
use crate::model::package_id::PackageIdView;
use crate::registry::cache::{integrity_message, ArchiveHandle, CacheView};
use crate::registry::package_source_store::StoreView;

verus! {

/// How far one package has come on its way from the registry to a loaded
/// package, or how an attempt to get it there has ended.
#[derive(Clone, Copy, Debug, PartialEq, Eq, Structural)]
pub enum DownloadState {
    /// Nobody has the archive and nobody is fetching it.
    NotFetched,
    /// A caller is fetching the archive.
    Fetching,
    /// The archive is here and its content hash is the advertised checksum.
    Verified,
    /// A caller holds the lock of the slot and is unpacking the archive.
    Extracting,
    /// The slot holds the extracted package.
    Extracted,
    /// The manifest was loaded and the package handed out.
    Loaded,
    /// The attempt has failed. It is over; a later one starts afresh.
    Failed(ErrorKind),
}

/// What a caller reports while it brings a package in.
#[derive(Debug, PartialEq, Eq)]
pub enum DownloadEvent {
    /// The caller asks for the package.
    Requested,
    /// The caller has fetched the archive: here are the archive, the content
    /// hash of its bytes and the checksum that the index advertises.
    Fetched { archive: ArchiveHandle, computed: Checksum, advertised: Checksum },
    /// The fetch has failed, or the caller has given it up.
    FetchFailed { error: SourceError },
    /// The caller holds the lock of the slot and has looked whether the slot
    /// exists.
    SlotLocked { present: bool },
    /// The operating system has refused the lock of the slot.
    LockFailed { error: SourceError },
    /// The caller has unpacked the archive and renamed the result to the slot.
    Unpacked,
    /// Unpacking or renaming has failed, or the caller has given it up.
    UnpackFailed { error: SourceError },
    /// The extracted directory holds no valid manifest.
    LoadFailed { error: SourceError },
}

/// An event as a mathematical value.
pub enum DownloadEventView {
    Requested,
    Fetched { archive: Seq<char>, computed: Seq<char>, advertised: Seq<char> },
    FetchFailed { error: SourceErrorView },
    SlotLocked { present: bool },
    LockFailed { error: SourceErrorView },
    Unpacked,
    UnpackFailed { error: SourceErrorView },
    LoadFailed { error: SourceErrorView },
}

impl View for DownloadEvent {
    type V = DownloadEventView;

    open spec fn view(&self) -> DownloadEventView {
        match self {
            DownloadEvent::Requested => DownloadEventView::Requested,
            DownloadEvent::Fetched { archive, computed, advertised } => DownloadEventView::Fetched {
                archive: archive@,
                computed: computed@,
                advertised: advertised@,
            },
            DownloadEvent::FetchFailed { error } => DownloadEventView::FetchFailed { error: error@ },
            DownloadEvent::SlotLocked { present } => DownloadEventView::SlotLocked {
                present: *present,
            },
            DownloadEvent::LockFailed { error } => DownloadEventView::LockFailed { error: error@ },
            DownloadEvent::Unpacked => DownloadEventView::Unpacked,
            DownloadEvent::UnpackFailed { error } => DownloadEventView::UnpackFailed {
                error: error@,
            },
            DownloadEvent::LoadFailed { error } => DownloadEventView::LoadFailed { error: error@ },
        }
    }
}

/// The locks that a caller gives back once the slot is filled: that of the
/// slot, and that of the archive, which it has held since the fetch.
#[derive(Debug, PartialEq, Eq)]
pub struct Locks {
    pub slot_lock: String,
    pub archive: ArchiveHandle,
}

/// Locks as a mathematical value.
pub struct LocksView {
    pub slot_lock: Seq<char>,
    pub archive: Seq<char>,
}

impl View for Locks {
    type V = LocksView;

    open spec fn view(&self) -> LocksView {
        LocksView { slot_lock: self.slot_lock@, archive: self.archive@ }
    }
}

/// What a caller is told to do next.
#[derive(Debug, PartialEq, Eq)]
pub enum DownloadAction {
    /// Fetch the archive through the registry client, hash its bytes, and
    /// report `Fetched` or `FetchFailed`.
    Fetch,
    /// Another caller is at work on this package: wait until it has reported,
    /// then ask again with `Requested`.
    Wait,
    /// Take the exclusive lock on `lock`, waiting for it if need be, look
    /// whether `slot` exists, and report `SlotLocked` or `LockFailed`.
    LockSlot { lock: String, slot: String },
    /// Unpack `archive` into `staging`, rename `staging` to `slot`, and report
    /// `Unpacked` or `UnpackFailed`.
    Unpack { archive: ArchiveHandle, staging: String, slot: String },
    /// Give back the locks in `release`, then load the manifest in `directory`.
    Load { directory: String, release: Option<Locks> },
    /// Give back the lock on the file `unlock`, delete the file of the archive
    /// `discard`, then fail with `error`.
    Fail { error: SourceError, unlock: Option<String>, discard: Option<ArchiveHandle> },
    /// The event does not fit the state of the package: nothing was changed and
    /// nothing is to be done.
    Ignore,
}

/// An action as a mathematical value.
pub enum DownloadActionView {
    Fetch,
    Wait,
    LockSlot { lock: Seq<char>, slot: Seq<char> },
    Unpack { archive: Seq<char>, staging: Seq<char>, slot: Seq<char> },
    Load { directory: Seq<char>, release: Option<LocksView> },
    Fail { error: SourceErrorView, unlock: Option<Seq<char>>, discard: Option<Seq<char>> },
    Ignore,
}

impl View for DownloadAction {
    type V = DownloadActionView;

    open spec fn view(&self) -> DownloadActionView {
        match self {
            DownloadAction::Fetch => DownloadActionView::Fetch,
            DownloadAction::Wait => DownloadActionView::Wait,
            DownloadAction::LockSlot { lock, slot } => DownloadActionView::LockSlot {
                lock: lock@,
                slot: slot@,
            },
            DownloadAction::Unpack { archive, staging, slot } => DownloadActionView::Unpack {
                archive: archive@,
                staging: staging@,
                slot: slot@,
            },
            DownloadAction::Load { directory, release } => DownloadActionView::Load {
                directory: directory@,
                release: match release {
                    Some(locks) => Some(locks@),
                    None => None,
                },
            },
            DownloadAction::Fail { error, unlock, discard } => DownloadActionView::Fail {
                error: error@,
                unlock: unlock.deep_view(),
                discard: match discard {
                    Some(archive) => Some(archive@),
                    None => None,
                },
            },
            DownloadAction::Ignore => DownloadActionView::Ignore,
        }
    }
}

/// What one event leads to: the state that the attempt is in afterwards, and
/// what the caller is to do next.
#[derive(Debug, PartialEq, Eq)]
pub struct DownloadStep {
    pub state: DownloadState,
    pub action: DownloadAction,
}

/// Cache and store of a source, as far as the way of a package depends on them.
pub struct Progress {
    pub cache: CacheView,
    pub store: StoreView,
}

/// What one event leads to, as a mathematical value.
pub struct Outcome {
    pub progress: Progress,
    pub state: DownloadState,
    pub action: DownloadActionView,
}

/// The message of a failure to fetch or verify the archive of `id`.
pub open spec fn download_context(id: PackageIdView) -> Seq<char> {
    "failed to download package: "@ + id.text()
}

/// The message of a failure to extract the archive of `id`.
pub open spec fn extract_context(id: PackageIdView) -> Seq<char> {
    "failed to extract: "@ + id.text()
}

/// The message of a failure to load the manifest of `id`.
pub open spec fn load_context(id: PackageIdView) -> Seq<char> {
    "failed to load package: "@ + id.text()
}

/// `error` with `context` in front of its message.
pub open spec fn in_context(context: Seq<char>, error: SourceErrorView) -> SourceErrorView {
    SourceErrorView { kind: error.kind, message: with_context(context, error.message) }
}

impl Progress {
    /// How far `id` has come.
    pub open spec fn state(self, id: PackageIdView) -> DownloadState {
        if self.cache.has_verified(id) {
            if self.store.is_extracted(id) {
                DownloadState::Extracted
            } else if self.store.is_extracting(id) {
                DownloadState::Extracting
            } else {
                DownloadState::Verified
            }
        } else if self.cache.in_flight(id) {
            DownloadState::Fetching
        } else {
            DownloadState::NotFetched
        }
    }

    /// The verified archive of `id`.
    pub open spec fn archive(self, id: PackageIdView) -> Seq<char> {
        self.cache.downloads[id]->Verified_archive
    }

    /// The verified checksum of `id`.
    pub open spec fn checksum(self, id: PackageIdView) -> Seq<char> {
        self.cache.downloads[id]->Verified_checksum
    }

    /// The locks that a caller gives back once the slot of `id` is filled.
    pub open spec fn locks(self, id: PackageIdView) -> LocksView {
        LocksView { slot_lock: self.store.lock_path(id), archive: self.archive(id) }
    }

    /// Nothing changes and nothing is to be done.
    pub open spec fn ignore(self, id: PackageIdView) -> Outcome {
        Outcome { progress: self, state: self.state(id), action: DownloadActionView::Ignore }
    }

    /// The attempt ends in `error`, after the lock on `unlock` was given back
    /// and the archive `discard` deleted.
    pub open spec fn fail(
        self,
        error: SourceErrorView,
        unlock: Option<Seq<char>>,
        discard: Option<Seq<char>>,
    ) -> Outcome {
        Outcome {
            progress: self,
            state: DownloadState::Failed(error.kind),
            action: DownloadActionView::Fail { error, unlock, discard },
        }
    }

    /// The caller is to take the lock of the slot of `id`.
    pub open spec fn lock_slot(self, id: PackageIdView) -> Outcome {
        Outcome {
            progress: self,
            state: DownloadState::Verified,
            action: DownloadActionView::LockSlot {
                lock: self.store.lock_path(id),
                slot: self.store.slot_path(id),
            },
        }
    }

    /// The caller is to load the manifest from the slot of `id`.
    pub open spec fn load(self, id: PackageIdView, release: Option<LocksView>) -> Outcome {
        Outcome {
            progress: self,
            state: DownloadState::Extracted,
            action: DownloadActionView::Load { directory: self.store.slot_path(id), release },
        }
    }

    /// What a caller who asks for `id` is told.
    pub open spec fn on_requested(self, id: PackageIdView) -> Outcome {
        match self.state(id) {
            DownloadState::NotFetched => Outcome {
                progress: Progress { cache: self.cache.asked(id), ..self },
                state: DownloadState::Fetching,
                action: DownloadActionView::Fetch,
            },
            DownloadState::Verified => self.lock_slot(id),
            DownloadState::Extracted => self.load(id, None),
            _ => Outcome { progress: self, state: self.state(id), action: DownloadActionView::Wait },
        }
    }

    /// What the report of a fetched archive leads to.
    pub open spec fn on_fetched(
        self,
        id: PackageIdView,
        archive: Seq<char>,
        computed: Seq<char>,
        advertised: Seq<char>,
    ) -> Outcome {
        if self.state(id) != DownloadState::Fetching {
            self.ignore(id)
        } else {
            let next = Progress {
                cache: self.cache.reported(id, archive, computed, advertised),
                ..self
            };
            if computed == advertised {
                next.lock_slot(id)
            } else {
                next.fail(
                    SourceErrorView {
                        kind: ErrorKind::Integrity,
                        message: with_context(download_context(id), integrity_message()),
                    },
                    None,
                    Some(archive),
                )
            }
        }
    }

    /// What the report of a failed fetch leads to.
    pub open spec fn on_fetch_failed(self, id: PackageIdView, error: SourceErrorView) -> Outcome {
        if self.state(id) != DownloadState::Fetching {
            self.ignore(id)
        } else {
            Progress { cache: self.cache.abandoned(id), ..self }.fail(
                in_context(download_context(id), error),
                None,
                None,
            )
        }
    }

    /// What the report of a caller who holds the lock of the slot leads to.
    pub open spec fn on_slot_locked(self, id: PackageIdView, present: bool) -> Outcome {
        match self.state(id) {
            DownloadState::Verified => {
                let next = Progress { store: self.store.asked(id, present), ..self };
                if present {
                    next.load(id, Some(self.locks(id)))
                } else {
                    Outcome {
                        progress: next,
                        state: DownloadState::Extracting,
                        action: DownloadActionView::Unpack {
                            archive: self.archive(id),
                            staging: self.store.staging_path(id),
                            slot: self.store.slot_path(id),
                        },
                    }
                }
            },
            DownloadState::Extracted => self.load(id, Some(self.locks(id))),
            _ => self.ignore(id),
        }
    }

    /// What the report of a filled slot leads to.
    pub open spec fn on_unpacked(self, id: PackageIdView) -> Outcome {
        if self.state(id) != DownloadState::Extracting {
            self.ignore(id)
        } else {
            Progress { store: self.store.finished(id), ..self }.load(id, Some(self.locks(id)))
        }
    }

    /// What the report of a failed extraction leads to.
    pub open spec fn on_unpack_failed(self, id: PackageIdView, error: SourceErrorView) -> Outcome {
        if self.state(id) != DownloadState::Extracting {
            self.ignore(id)
        } else {
            Progress { store: self.store.abandoned(id), ..self }.fail(
                in_context(extract_context(id), error),
                Some(self.store.lock_path(id)),
                None,
            )
        }
    }

    /// What `event`, reported for `id`, leads to.
    pub open spec fn step(self, id: PackageIdView, event: DownloadEventView) -> Outcome {
        match event {
            DownloadEventView::Requested => self.on_requested(id),
            DownloadEventView::Fetched { archive, computed, advertised } => self.on_fetched(
                id,
                archive,
                computed,
                advertised,
            ),
            DownloadEventView::FetchFailed { error } => self.on_fetch_failed(id, error),
            DownloadEventView::SlotLocked { present } => self.on_slot_locked(id, present),
            DownloadEventView::LockFailed { error } => self.fail(
                in_context(extract_context(id), error),
                None,
                None,
            ),
            DownloadEventView::Unpacked => self.on_unpacked(id),
            DownloadEventView::UnpackFailed { error } => self.on_unpack_failed(id, error),
            DownloadEventView::LoadFailed { error } => self.fail(
                in_context(load_context(id), error),
                None,
                None,
            ),
        }
    }
}

/// Whether `event` sets a package back: a fetch or an extraction has failed, or
/// the content hash of the fetched archive is not the advertised checksum.
pub open spec fn is_setback(event: DownloadEventView) -> bool {
    match event {
        DownloadEventView::FetchFailed { .. } => true,
        DownloadEventView::UnpackFailed { .. } => true,
        DownloadEventView::Fetched { computed, advertised, .. } => computed != advertised,
        _ => false,
    }
}

/// What a caller reports: the package that it is bringing in, and what happened.
pub type Report = (PackageIdView, DownloadEventView);

/// What a caller is told: the package, and what to do for it next.
pub type Answer = (PackageIdView, DownloadActionView);

/// The answers that tell a caller to fetch `id`.
pub open spec fn tells_to_fetch(id: PackageIdView) -> spec_fn(Answer) -> bool {
    |answer: Answer| answer.0 == id && answer.1 is Fetch
}

/// The answers that tell a caller to unpack `id`.
pub open spec fn tells_to_unpack(id: PackageIdView) -> spec_fn(Answer) -> bool {
    |answer: Answer| answer.0 == id && answer.1 is Unpack
}

impl Progress {
    /// Nothing is in the store that the cache has not verified.
    pub open spec fn consistent(self) -> bool {
        forall|id: PackageIdView| #[trigger]
            self.store.slots.contains_key(id) ==> self.cache.has_verified(id)
    }

    /// Cache and store once `reports` have come in, one after the other, from
    /// whichever callers and for whichever packages.
    pub open spec fn after(self, reports: Seq<Report>) -> Progress
        decreases reports.len(),
    {
        if reports.len() == 0 {
            self
        } else {
            self.after(reports.drop_last()).step(reports.last().0, reports.last().1).progress
        }
    }

    /// What the callers were told, one answer for each of `reports`.
    pub open spec fn answers(self, reports: Seq<Report>) -> Seq<Answer>
        decreases reports.len(),
    {
        if reports.len() == 0 {
            Seq::empty()
        } else {
            self.answers(reports.drop_last()).push(
                (
                    reports.last().0,
                    self.after(reports.drop_last()).step(reports.last().0, reports.last().1).action,
                ),
            )
        }
    }
}

/// How many more times a caller may be told to fetch a package in this state.
spec fn fetches_left(state: DownloadState) -> nat {
    if state == DownloadState::NotFetched {
        1
    } else {
        0
    }
}

/// How many more times a caller may be told to unpack a package in this state.
spec fn unpacks_left(state: DownloadState) -> nat {
    match state {
        DownloadState::NotFetched | DownloadState::Fetching | DownloadState::Verified => 1,
        _ => 0,
    }
}

/// One where `holds`, zero where not.
spec fn one_if(holds: bool) -> nat {
    if holds {
        1
    } else {
        0
    }
}

/// What is reported for one package leaves every other package where it was:
/// its state, its archive and its checksum.
pub proof fn lemma_packages_are_independent(
    start: Progress,
    id: PackageIdView,
    event: DownloadEventView,
    other: PackageIdView,
)
    requires
        other != id,
    ensures
        start.step(id, event).progress.state(other) == start.state(other),
        start.step(id, event).progress.archive(other) == start.archive(other),
        start.step(id, event).progress.checksum(other) == start.checksum(other),
        start.step(id, event).progress.store.slot_path(other) == start.store.slot_path(other),
{
}

/// A step that is no setback for `id` uses up what it tells the caller to do
/// for `id`.
proof fn lemma_step_spends(
    start: Progress,
    id: PackageIdView,
    who: PackageIdView,
    event: DownloadEventView,
)
    requires
        who == id ==> !is_setback(event),
    ensures
        ({
            let outcome = start.step(who, event);
            &&& one_if(tells_to_fetch(id)((who, outcome.action))) + fetches_left(
                outcome.progress.state(id),
            ) <= fetches_left(start.state(id))
            &&& one_if(tells_to_unpack(id)((who, outcome.action))) + unpacks_left(
                outcome.progress.state(id),
            ) <= unpacks_left(start.state(id))
        }),
{
    if who != id {
        lemma_packages_are_independent(start, who, event, id);
    }
}

/// Reports without a setback for `id` use up what they tell the callers to do
/// for `id`.
proof fn lemma_reports_spend(start: Progress, id: PackageIdView, reports: Seq<Report>)
    requires
        forall|k: int|
            0 <= k < reports.len() && (#[trigger] reports[k]).0 == id ==> !is_setback(reports[k].1),
    ensures
        start.answers(reports).filter(tells_to_fetch(id)).len() + fetches_left(
            start.after(reports).state(id),
        ) <= fetches_left(start.state(id)),
        start.answers(reports).filter(tells_to_unpack(id)).len() + unpacks_left(
            start.after(reports).state(id),
        ) <= unpacks_left(start.state(id)),
    decreases reports.len(),
{
    if reports.len() == 0 {
        reveal(Seq::filter);
    } else {
        let before = reports.drop_last();
        assert forall|k: int| 0 <= k < before.len() && (#[trigger] before[k]).0 == id implies
            !is_setback(before[k].1) by {
            assert(before[k] == reports[k]);
        }
        lemma_reports_spend(start, id, before);
        let middle = start.after(before);
        let (who, event) = reports.last();
        let answer = (who, middle.step(who, event).action);
        lemma_step_spends(middle, id, who, event);
        start.answers(before).lemma_filter_push(answer, tells_to_fetch(id));
        start.answers(before).lemma_filter_push(answer, tells_to_unpack(id));
    }
}

/// However many callers ask for one package, in whatever order their reports
/// arrive, and whatever happens to other packages meanwhile: as long as no
/// fetch and no extraction of the package fails and its archive is not
/// corrupt, the callers are told to fetch it at most once and to unpack it at
/// most once.
pub proof fn lemma_download_works_once(start: Progress, id: PackageIdView, reports: Seq<Report>)
    requires
        forall|k: int|
            0 <= k < reports.len() && (#[trigger] reports[k]).0 == id ==> !is_setback(reports[k].1),
    ensures
        start.answers(reports).filter(tells_to_fetch(id)).len() <= 1,
        start.answers(reports).filter(tells_to_unpack(id)).len() <= 1,
{
    lemma_reports_spend(start, id, reports);
}

/// Whatever is reported, every caller gets one answer for each report, and
/// every caller who is told to load a package is sent to the same directory:
/// the slot of the package, which never moves.
pub proof fn lemma_download_yields_one_directory(start: Progress, reports: Seq<Report>)
    ensures
        start.after(reports).store.root == start.store.root,
        start.answers(reports).len() == reports.len(),
        forall|k: int|
            0 <= k < reports.len() ==> (#[trigger] start.answers(reports)[k]).0 == reports[k].0,
        forall|k: int|
            0 <= k < reports.len() && (#[trigger] start.answers(reports)[k]).1 is Load
                ==> start.answers(reports)[k].1->directory == start.store.slot_path(
                start.answers(reports)[k].0,
            ),
    decreases reports.len(),
{
    if reports.len() > 0 {
        lemma_download_yields_one_directory(start, reports.drop_last());
    }
}

/// A verified archive stays what it is: whatever is reported afterwards, the
/// cache holds the same archive with the same checksum, so every caller is
/// handed the same content.
pub proof fn lemma_verified_archive_stays(start: Progress, id: PackageIdView, reports: Seq<Report>)
    requires
        start.cache.has_verified(id),
    ensures
        start.after(reports).cache.has_verified(id),
        start.after(reports).archive(id) == start.archive(id),
        start.after(reports).checksum(id) == start.checksum(id),
    decreases reports.len(),
{
    if reports.len() > 0 {
        lemma_verified_archive_stays(start, id, reports.drop_last());
    }
}

/// The checksum of a verified archive is the checksum that the index
/// advertises, which is the one that a summary of the package carries.
pub proof fn lemma_verified_checksum_is_advertised(
    start: Progress,
    id: PackageIdView,
    archive: Seq<char>,
    computed: Seq<char>,
    advertised: Seq<char>,
)
    requires
        start.state(id) == DownloadState::Fetching,
        computed == advertised,
    ensures
        ({
            let outcome = start.step(
                id,
                DownloadEventView::Fetched { archive, computed, advertised },
            );
            &&& outcome.progress.cache.has_verified(id)
            &&& outcome.progress.checksum(id) == advertised
            &&& outcome.progress.archive(id) == archive
        }),
{
}

/// An archive whose content hash is not the advertised checksum fails the
/// download with an integrity error. Nothing of it stays: the caller is told to
/// delete the archive, the cache forgets the attempt, so that a later one
/// starts afresh, the store is what it was, and the slot of the package holds
/// nothing.
pub proof fn lemma_corrupt_archive_leaves_nothing(
    start: Progress,
    id: PackageIdView,
    archive: Seq<char>,
    computed: Seq<char>,
    advertised: Seq<char>,
)
    requires
        start.consistent(),
        start.state(id) == DownloadState::Fetching,
        computed != advertised,
    ensures
        ({
            let outcome = start.step(
                id,
                DownloadEventView::Fetched { archive, computed, advertised },
            );
            &&& outcome.state == DownloadState::Failed(ErrorKind::Integrity)
            &&& outcome.action is Fail
            &&& outcome.action->error.kind == ErrorKind::Integrity
            &&& outcome.action->discard == Some(archive)
            &&& outcome.progress.state(id) == DownloadState::NotFetched
            &&& !outcome.progress.cache.downloads.contains_key(id)
            &&& outcome.progress.store == start.store
            &&& !outcome.progress.store.slots.contains_key(id)
        }),
{
}

/// A download that nothing disturbs brings the package into its slot: the one
/// caller is told to fetch, then to take the lock of the slot, then to unpack,
/// then to give the locks back and load from the slot, and the cache keeps the
/// advertised checksum for the manifest of the package.
pub proof fn lemma_undisturbed_download_fills_the_slot(
    start: Progress,
    id: PackageIdView,
    archive: Seq<char>,
    checksum: Seq<char>,
)
    requires
        start.consistent(),
        start.state(id) == DownloadState::NotFetched,
    ensures
        ({
            let reports = seq![
                (id, DownloadEventView::Requested),
                (id, DownloadEventView::Fetched { archive, computed: checksum, advertised: checksum }),
                (id, DownloadEventView::SlotLocked { present: false }),
                (id, DownloadEventView::Unpacked),
            ];
            let lock = start.store.lock_path(id);
            let slot = start.store.slot_path(id);
            let staging = start.store.staging_path(id);
            &&& start.answers(reports) == seq![
                (id, DownloadActionView::Fetch),
                (id, DownloadActionView::LockSlot { lock, slot }),
                (id, DownloadActionView::Unpack { archive, staging, slot }),
                (
                    id,
                    DownloadActionView::Load {
                        directory: slot,
                        release: Some(LocksView { slot_lock: lock, archive }),
                    },
                ),
            ]
            &&& start.after(reports).state(id) == DownloadState::Extracted
            &&& start.after(reports).checksum(id) == checksum
        }),
{
    let requested = (id, DownloadEventView::Requested);
    let fetched = (
        id,
        DownloadEventView::Fetched { archive, computed: checksum, advertised: checksum },
    );
    let locked = (id, DownloadEventView::SlotLocked { present: false });
    let unpacked = (id, DownloadEventView::Unpacked);
    let none = Seq::<Report>::empty();
    let one = seq![requested];
    let two = seq![requested, fetched];
    let three = seq![requested, fetched, locked];
    let four = seq![requested, fetched, locked, unpacked];
    assert(one.drop_last() =~= none);
    assert(two.drop_last() =~= one);
    assert(three.drop_last() =~= two);
    assert(four.drop_last() =~= three);
    assert(start.after(none) == start);
    assert(start.answers(none) =~= Seq::<Answer>::empty());
    let first = start.step(id, requested.1);
    assert(start.after(one) == first.progress);
    assert(start.answers(one) =~= seq![(id, first.action)]);
    let second = first.progress.step(id, fetched.1);
    assert(start.after(two) == second.progress);
    assert(start.answers(two) =~= seq![(id, first.action), (id, second.action)]);
    assert(!second.progress.store.slots.contains_key(id));
    let third = second.progress.step(id, locked.1);
    assert(start.after(three) == third.progress);
    assert(start.answers(three) =~= seq![
        (id, first.action),
        (id, second.action),
        (id, third.action),
    ]);
    let fourth = third.progress.step(id, unpacked.1);
    assert(start.after(four) == fourth.progress);
    assert(start.answers(four) =~= seq![
        (id, first.action),
        (id, second.action),
        (id, third.action),
        (id, fourth.action),
    ]);
}

/// The slot lock is given back on every way out of an extraction: by the
/// caller who finds the slot filled, by the caller who has filled it, and by the
/// caller whose extraction has failed.
pub proof fn lemma_slot_lock_is_given_back(
    start: Progress,
    id: PackageIdView,
    event: DownloadEventView,
)
    ensures
        ({
            let outcome = start.step(id, event);
            let lock = start.store.lock_path(id);
            &&& event is SlotLocked && outcome.action is Load ==> outcome.action->release == Some(
                start.locks(id),
            )
            &&& start.state(id) == DownloadState::Extracting && event is Unpacked
                ==> outcome.action is Load && outcome.action->release == Some(start.locks(id))
            &&& start.state(id) == DownloadState::Extracting && event is UnpackFailed
                ==> outcome.action is Fail && outcome.action->unlock == Some(lock)
            &&& start.locks(id).slot_lock == lock
        }),
{
}

/// Every step keeps cache and store consistent: nothing comes into the store
/// that the cache has not verified.
pub proof fn lemma_step_keeps_consistent(
    start: Progress,
    id: PackageIdView,
    event: DownloadEventView,
)
    requires
        start.consistent(),
    ensures
        start.step(id, event).progress.consistent(),
{
    let next = start.step(id, event).progress;
    assert forall|other: PackageIdView| #[trigger]
        next.store.slots.contains_key(other) implies next.cache.has_verified(other) by {
        if other != id {
            assert(start.store.slots.contains_key(other));
        }
    }
}

} // verus!
