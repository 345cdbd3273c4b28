use vstd::prelude::*;
use vstd::string::StringExecFns;

use crate::collections::vec_map::VecMap;
use crate::model::package_id::{PackageId, PackageIdView};
use crate::model::source_id::{SourceId, SourceIdView};
use crate::registry::fingerprint::{fingerprint, fingerprint_of};

verus! {

/// How far the extraction of one package has come in this process.
#[derive(Clone, Copy, Debug, PartialEq, Eq, Structural)]
pub enum SlotState {
    /// A caller holds the lock of the slot and is unpacking the archive.
    Extracting,
    /// The slot holds the extracted package.
    Extracted,
}

/// What a caller who holds the lock of a slot is told to do.
#[derive(Debug, PartialEq, Eq)]
pub enum ExtractDecision {
    /// The slot holds the package: its path is all that is needed.
    Ready { path: String },
    /// The slot is empty: unpack the archive into `staging`, then rename
    /// `staging` to `slot`, so that nobody ever sees a slot half filled.
    Unpack { staging: String, slot: String },
    /// Another caller in this process is unpacking into the slot.
    Wait,
}

/// A decision as a mathematical value.
pub enum ExtractDecisionView {
    Ready { path: Seq<char> },
    Unpack { staging: Seq<char>, slot: Seq<char> },
    Wait,
}

impl View for ExtractDecision {
    type V = ExtractDecisionView;

    open spec fn view(&self) -> ExtractDecisionView {
        match self {
            ExtractDecision::Ready { path } => ExtractDecisionView::Ready { path: path@ },
            ExtractDecision::Unpack { staging, slot } => ExtractDecisionView::Unpack {
                staging: staging@,
                slot: slot@,
            },
            ExtractDecision::Wait => ExtractDecisionView::Wait,
        }
    }
}

/// The directory under the cache root in which a source keeps its packages.
pub open spec fn source_root(cache_root: Seq<char>, source: SourceIdView) -> Seq<char> {
    cache_root + "/registry/src/"@ + fingerprint_of(source)
}

/// The name of the slot of a package: name, hyphen, version.
pub open spec fn slot_name(id: PackageIdView) -> Seq<char> {
    id.name + "-"@ + id.version
}

/// The contents of a store: its directory, and how far each package has come.
pub struct StoreView {
    pub root: Seq<char>,
    pub slots: Map<PackageIdView, SlotState>,
}

impl StoreView {
    /// The slot of `id`: the one directory that holds the extracted package.
    pub open spec fn slot_path(self, id: PackageIdView) -> Seq<char> {
        self.root + "/"@ + slot_name(id)
    }

    /// The file whose lock guards the slot of `id`.
    pub open spec fn lock_path(self, id: PackageIdView) -> Seq<char> {
        self.root + "/.locks/"@ + slot_name(id)
    }

    /// The directory into which the archive of `id` is unpacked before it is
    /// renamed to the slot.
    pub open spec fn staging_path(self, id: PackageIdView) -> Seq<char> {
        self.root + "/.tmp/"@ + slot_name(id)
    }

    /// Whether the store knows that the slot of `id` holds the package.
    pub open spec fn is_extracted(self, id: PackageIdView) -> bool {
        self.slots.contains_key(id) && self.slots[id] == SlotState::Extracted
    }

    /// Whether a caller in this process is unpacking into the slot of `id`.
    pub open spec fn is_extracting(self, id: PackageIdView) -> bool {
        self.slots.contains_key(id) && self.slots[id] == SlotState::Extracting
    }

    /// What the caller who holds the lock of the slot of `id` is told, where
    /// `present` says whether the slot exists on disk.
    pub open spec fn decision(self, id: PackageIdView, present: bool) -> ExtractDecisionView {
        if self.is_extracted(id) {
            ExtractDecisionView::Ready { path: self.slot_path(id) }
        } else if self.is_extracting(id) {
            ExtractDecisionView::Wait
        } else if present {
            ExtractDecisionView::Ready { path: self.slot_path(id) }
        } else {
            ExtractDecisionView::Unpack { staging: self.staging_path(id), slot: self.slot_path(id) }
        }
    }

    /// The store once a caller has asked to extract `id`.
    pub open spec fn asked(self, id: PackageIdView, present: bool) -> StoreView {
        if self.slots.contains_key(id) {
            self
        } else if present {
            StoreView { slots: self.slots.insert(id, SlotState::Extracted), ..self }
        } else {
            StoreView { slots: self.slots.insert(id, SlotState::Extracting), ..self }
        }
    }

    /// The store once the archive of `id` was unpacked and renamed to its slot.
    pub open spec fn finished(self, id: PackageIdView) -> StoreView {
        StoreView { slots: self.slots.insert(id, SlotState::Extracted), ..self }
    }

    /// The store once the caller who was unpacking `id` gave up.
    pub open spec fn abandoned(self, id: PackageIdView) -> StoreView {
        if self.is_extracting(id) {
            StoreView { slots: self.slots.remove(id), ..self }
        } else {
            self
        }
    }
}

/// The place where the packages of one source are extracted: one directory per
/// package, the slot, and beside the slots a directory of the files that are
/// locked while a slot is filled and one of the directories in which archives
/// are unpacked first.
#[derive(Debug)]
pub struct PackageSourceStore {
    root: String,
    slots: VecMap<PackageId, SlotState>,
}

impl View for PackageSourceStore {
    type V = StoreView;

    closed spec fn view(&self) -> StoreView {
        StoreView { root: self.root@, slots: self.slots@ }
    }
}

impl PackageSourceStore {
    /// The store of `source_id` under the cache root, with nothing extracted.
    pub fn new(source_id: &SourceId, cache_root: &str) -> (store: Self)
        ensures
            store@ == (StoreView {
                root: source_root(cache_root@, source_id@),
                slots: Map::empty(),
            }),
    {
        let mut root = String::from_str(cache_root);
        root.append("/registry/src/");
        let name = fingerprint(source_id);
        root.append(name.as_str());
        PackageSourceStore { root, slots: VecMap::new() }
    }

    /// The slot of `id`.
    pub fn slot_path(&self, id: &PackageId) -> (path: String)
        ensures
            path@ == self@.slot_path(id@),
    {
        self.path_in("/", id)
    }

    /// The path of the slot of `id`, or of one of the files beside it, below
    /// the directory `within` of the store.
    fn path_in(&self, within: &str, id: &PackageId) -> (path: String)
        ensures
            path@ == self@.root + within@ + slot_name(id@),
    {
        let mut path = self.root.clone();
        path.append(within);
        path.append(id.name.as_str());
        path.append("-");
        path.append(id.version.as_str());
        assert(path@ =~= self@.root + within@ + slot_name(id@));
        path
    }

    /// The file whose lock guards the slot of `id`.
    pub fn lock_path(&self, id: &PackageId) -> (path: String)
        ensures
            path@ == self@.lock_path(id@),
    {
        self.path_in("/.locks/", id)
    }

    /// The directory into which the archive of `id` is unpacked first.
    pub fn staging_path(&self, id: &PackageId) -> (path: String)
        ensures
            path@ == self@.staging_path(id@),
    {
        self.path_in("/.tmp/", id)
    }

    /// How far the extraction of `id` has come, if it has begun.
    pub fn slot_state(&self, id: &PackageId) -> (state: Option<SlotState>)
        ensures
            (state == if self@.slots.contains_key(id@) {
                Some(self@.slots[id@])
            } else {
                None
            }),
    {
        match self.slots.get(id) {
            Some(state) => Some(*state),
            None => None,
        }
    }

    /// Answers the caller who holds the lock of the slot of `id` and has
    /// looked whether the slot exists. A slot that exists is never filled again;
    /// an empty one is filled by this caller alone.
    pub fn extract(&mut self, id: &PackageId, present: bool) -> (decision: ExtractDecision)
        ensures
            decision@ == old(self)@.decision(id@, present),
            final(self)@ == old(self)@.asked(id@, present),
    {
        match self.slot_state(id) {
            Some(SlotState::Extracted) => ExtractDecision::Ready { path: self.slot_path(id) },
            Some(SlotState::Extracting) => ExtractDecision::Wait,
            None => {
                if present {
                    self.slots.insert(id.clone(), SlotState::Extracted);
                    ExtractDecision::Ready { path: self.slot_path(id) }
                } else {
                    self.slots.insert(id.clone(), SlotState::Extracting);
                    ExtractDecision::Unpack {
                        staging: self.staging_path(id),
                        slot: self.slot_path(id),
                    }
                }
            },
        }
    }

    /// Notes that the archive of `id` was unpacked and renamed to its slot, and
    /// hands out the slot.
    pub fn finish_extract(&mut self, id: &PackageId) -> (path: String)
        ensures
            path@ == old(self)@.slot_path(id@),
            final(self)@ == old(self)@.finished(id@),
    {
        self.slots.insert(id.clone(), SlotState::Extracted);
        self.slot_path(id)
    }

    /// Forgets that a caller was unpacking `id`, after the extraction has
    /// failed. A slot that holds the package stays as it is.
    pub fn abandon_extract(&mut self, id: &PackageId)
        ensures
            final(self)@ == old(self)@.abandoned(id@),
    {
        match self.slot_state(id) {
            Some(SlotState::Extracting) => {
                self.slots.remove(id);
            },
            _ => {},
        }
    }
}

/// Extracting a package twice yields the same path both times and unpacks only
/// once: after a caller was handed the slot of `id`, or has filled it, every
/// caller who asks again is handed that slot, whatever the disk is said to hold,
/// and the store stays as it is.
pub proof fn lemma_extract_is_idempotent(
    store: StoreView,
    id: PackageIdView,
    present: bool,
    again: bool,
)
    ensures
        (store.decision(id, present) is Ready ==> {
            &&& store.asked(id, present).decision(id, again) == store.decision(id, present)
            &&& store.asked(id, present).asked(id, again) == store.asked(id, present)
        }),
        (store.decision(id, present) is Unpack ==> {
            let filled = store.asked(id, present).finished(id);
            &&& filled.decision(id, again) == (ExtractDecisionView::Ready {
                path: store.decision(id, present)->Unpack_slot,
            })
            &&& filled.asked(id, again) == filled
        }),
{
}

/// While a caller is unpacking a package, nobody else is told to unpack it.
pub proof fn lemma_extract_is_exclusive(store: StoreView, id: PackageIdView, present: bool, again: bool)
    requires
        store.decision(id, present) is Unpack,
    ensures
        store.asked(id, present).decision(id, again) is Wait,
{
}

/// Whether `name` can be part of a file name in the store: it holds neither a
/// hyphen, which parts name from version, nor a slash.
pub open spec fn is_plain(name: Seq<char>) -> bool {
    forall|i: int| 0 <= i < name.len() ==> name[i] != '-' && name[i] != '/'
}

/// A text that starts with a part without hyphen, followed by a hyphen, starts
/// with one such part only.
proof fn lemma_split_at_first_hyphen(
    head: Seq<char>,
    tail: Seq<char>,
    other_head: Seq<char>,
    other_tail: Seq<char>,
)
    requires
        forall|i: int| 0 <= i < head.len() ==> head[i] != '-',
        forall|i: int| 0 <= i < other_head.len() ==> other_head[i] != '-',
        head + seq!['-'] + tail == other_head + seq!['-'] + other_tail,
    ensures
        head == other_head,
        tail == other_tail,
{
    let text = head + seq!['-'] + tail;
    let other = other_head + seq!['-'] + other_tail;
    assert(text[head.len() as int] == '-');
    assert(other[other_head.len() as int] == '-');
    if head.len() < other_head.len() {
        assert(other[head.len() as int] == other_head[head.len() as int]);
    }
    if other_head.len() < head.len() {
        assert(text[other_head.len() as int] == head[other_head.len() as int]);
    }
    assert(head.len() == other_head.len());
    assert forall|i: int| 0 <= i < head.len() implies head[i] == other_head[i] by {
        assert(text[i] == head[i]);
        assert(other[i] == other_head[i]);
    }
    assert(head =~= other_head);
    assert(text.len() == other.len());
    assert forall|i: int| 0 <= i < tail.len() implies tail[i] == other_tail[i] by {
        assert(text[head.len() + 1 + i] == tail[i]);
        assert(other[head.len() + 1 + i] == other_tail[i]);
    }
    assert(tail =~= other_tail);
}

/// Texts that agree after the same beginning are the same text.
proof fn lemma_same_beginning(start: Seq<char>, rest: Seq<char>, other: Seq<char>)
    requires
        start + rest == start + other,
    ensures
        rest == other,
{
    assert((start + rest).len() == start.len() + rest.len());
    assert((start + other).len() == start.len() + other.len());
    assert(rest.len() == other.len());
    assert forall|i: int| 0 <= i < rest.len() implies rest[i] == other[i] by {
        assert((start + rest)[start.len() + i] == rest[i]);
        assert((start + other)[start.len() + i] == other[i]);
    }
    assert(rest =~= other);
}

/// No two packages of a store share a slot, a lock or a staging directory, and
/// none of these is another's: different packages never wait for each other's
/// lock and never write to each other's files. This holds of packages whose
/// names hold neither hyphen nor slash.
pub proof fn lemma_packages_share_no_path(store: StoreView, a: PackageIdView, b: PackageIdView)
    requires
        is_plain(a.name),
        is_plain(b.name),
    ensures
        (a.name != b.name || a.version != b.version ==> {
            &&& store.slot_path(a) != store.slot_path(b)
            &&& store.lock_path(a) != store.lock_path(b)
            &&& store.staging_path(a) != store.staging_path(b)
        }),
        store.slot_path(a) != store.lock_path(b),
        store.slot_path(a) != store.staging_path(b),
        store.lock_path(a) != store.staging_path(b),
{
    reveal_strlit("-");
    reveal_strlit("/");
    reveal_strlit("/.locks/");
    reveal_strlit("/.tmp/");
    let hyphen = seq!['-'];
    let locks = seq!['.', 'l', 'o', 'c', 'k', 's', '/'];
    let tmp = seq!['.', 't', 'm', 'p', '/'];
    let slash = store.root + seq!['/'];
    assert("-"@ =~= hyphen);
    assert("/"@ =~= seq!['/']);
    assert("/.locks/"@ =~= seq!['/'] + locks);
    assert("/.tmp/"@ =~= seq!['/'] + tmp);
    let name_a = a.name + hyphen + a.version;
    let name_b = b.name + hyphen + b.version;
    assert(slot_name(a) == name_a);
    assert(slot_name(b) == name_b);
    assert(store.slot_path(a) =~= slash + name_a);
    assert(store.slot_path(b) =~= slash + name_b);
    assert(store.lock_path(a) =~= slash + (locks + name_a));
    assert(store.lock_path(b) =~= slash + (locks + name_b));
    assert(store.staging_path(a) =~= slash + (tmp + name_a));
    assert(store.staging_path(b) =~= slash + (tmp + name_b));
    if store.slot_path(a) == store.slot_path(b) {
        lemma_same_beginning(slash, name_a, name_b);
        lemma_split_at_first_hyphen(a.name, a.version, b.name, b.version);
    }
    if store.lock_path(a) == store.lock_path(b) {
        lemma_same_beginning(slash, locks + name_a, locks + name_b);
        lemma_same_beginning(locks, name_a, name_b);
        lemma_split_at_first_hyphen(a.name, a.version, b.name, b.version);
    }
    if store.staging_path(a) == store.staging_path(b) {
        lemma_same_beginning(slash, tmp + name_a, tmp + name_b);
        lemma_same_beginning(tmp, name_a, name_b);
        lemma_split_at_first_hyphen(a.name, a.version, b.name, b.version);
    }
    if store.slot_path(a) == store.lock_path(b) {
        lemma_same_beginning(slash, name_a, locks + name_b);
        assert(locks + name_b =~= (locks + b.name) + hyphen + b.version);
        assert forall|i: int| 0 <= i < (locks + b.name).len() implies (locks + b.name)[i]
            != '-' by {
            if i >= 7 {
                assert((locks + b.name)[i] == b.name[i - 7]);
            }
        }
        lemma_split_at_first_hyphen(a.name, a.version, locks + b.name, b.version);
        assert(a.name[6] == (locks + b.name)[6]);
    }
    if store.slot_path(a) == store.staging_path(b) {
        lemma_same_beginning(slash, name_a, tmp + name_b);
        assert(tmp + name_b =~= (tmp + b.name) + hyphen + b.version);
        assert forall|i: int| 0 <= i < (tmp + b.name).len() implies (tmp + b.name)[i] != '-' by {
            if i >= 5 {
                assert((tmp + b.name)[i] == b.name[i - 5]);
            }
        }
        lemma_split_at_first_hyphen(a.name, a.version, tmp + b.name, b.version);
        assert(a.name[4] == (tmp + b.name)[4]);
    }
    if store.lock_path(a) == store.staging_path(b) {
        lemma_same_beginning(slash, locks + name_a, tmp + name_b);
        assert((locks + name_a)[1] == 'l');
        assert((tmp + name_b)[1] == 't');
    }
}

} // verus!
