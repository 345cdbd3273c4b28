use vstd::prelude::*;

use crate::collections::vec_map::VecMap;
use crate::errors::{ErrorKind, SourceError, SourceErrorView};
use crate::model::checksum::Checksum;
use crate::model::dependency::ManifestDependency;
use crate::model::index::{IndexRecord, IndexRecordView};
use crate::model::package_id::{PackageId, PackageIdView};

verus! {

/// The archive of one version of a package, named by the file that holds its
/// bytes. Whoever fetched the archive holds the lock on that file.
#[derive(Debug, PartialEq, Eq, Hash)]
pub struct ArchiveHandle {
    pub path: String,
}

impl View for ArchiveHandle {
    type V = Seq<char>;

    open spec fn view(&self) -> Seq<char> {
        self.path@
    }
}

impl Clone for ArchiveHandle {
    fn clone(&self) -> (copy: Self)
        ensures
            copy@ == self@,
    {
        ArchiveHandle { path: self.path.clone() }
    }
}

impl ArchiveHandle {
    /// The archive in the file at `path`.
    pub fn new(path: String) -> (archive: Self)
        ensures
            archive@ == path@,
    {
        ArchiveHandle { path }
    }
}

/// What the cache knows of the archive of one package.
#[derive(Debug, PartialEq, Eq)]
pub enum DownloadEntry {
    /// A caller was told to fetch the archive and has not reported back.
    InFlight,
    /// The archive was fetched, and its content hash is the advertised checksum.
    Verified { archive: ArchiveHandle, checksum: Checksum },
}

/// A cache entry as a mathematical value.
pub enum DownloadEntryView {
    InFlight,
    Verified { archive: Seq<char>, checksum: Seq<char> },
}

impl View for DownloadEntry {
    type V = DownloadEntryView;

    open spec fn view(&self) -> DownloadEntryView {
        match self {
            DownloadEntry::InFlight => DownloadEntryView::InFlight,
            DownloadEntry::Verified { archive, checksum } => DownloadEntryView::Verified {
                archive: archive@,
                checksum: checksum@,
            },
        }
    }
}

/// What a caller who asks for an archive is told to do.
#[derive(Debug, PartialEq, Eq)]
pub enum DownloadDecision {
    /// The archive is here and verified.
    Hit { archive: ArchiveHandle, checksum: Checksum },
    /// Another caller is fetching the archive: wait for it and ask again.
    Wait,
    /// Nobody has the archive: fetch it, hash it and report back.
    Fetch,
}

/// A decision as a mathematical value.
pub enum DownloadDecisionView {
    Hit { archive: Seq<char>, checksum: Seq<char> },
    Wait,
    Fetch,
}

impl View for DownloadDecision {
    type V = DownloadDecisionView;

    open spec fn view(&self) -> DownloadDecisionView {
        match self {
            DownloadDecision::Hit { archive, checksum } => DownloadDecisionView::Hit {
                archive: archive@,
                checksum: checksum@,
            },
            DownloadDecision::Wait => DownloadDecisionView::Wait,
            DownloadDecision::Fetch => DownloadDecisionView::Fetch,
        }
    }
}

/// The contents of a cache: the records that were looked up, by package name,
/// and the state of each archive that was asked for.
pub struct CacheView {
    pub records: Map<Seq<char>, Seq<IndexRecordView>>,
    pub downloads: Map<PackageIdView, DownloadEntryView>,
}

/// The message of the failure that a wrong content hash ends in.
pub open spec fn integrity_message() -> Seq<char> {
    "failed to verify the checksum of downloaded archive"@
}

impl CacheView {
    /// A cache that has seen nothing.
    pub open spec fn empty() -> CacheView {
        CacheView { records: Map::empty(), downloads: Map::empty() }
    }

    /// The cache once `records` were offered for `name`: the list that came
    /// first stays.
    pub open spec fn with_records(self, name: Seq<char>, records: Seq<IndexRecordView>) -> CacheView {
        if self.records.contains_key(name) {
            self
        } else {
            CacheView { records: self.records.insert(name, records), ..self }
        }
    }

    /// What a caller who asks for the archive of `id` is told.
    pub open spec fn decision(self, id: PackageIdView) -> DownloadDecisionView {
        if self.downloads.contains_key(id) {
            match self.downloads[id] {
                DownloadEntryView::InFlight => DownloadDecisionView::Wait,
                DownloadEntryView::Verified { archive, checksum } => DownloadDecisionView::Hit {
                    archive,
                    checksum,
                },
            }
        } else {
            DownloadDecisionView::Fetch
        }
    }

    /// The cache once a caller has asked for the archive of `id`: where nobody
    /// had it, the archive is now in flight.
    pub open spec fn asked(self, id: PackageIdView) -> CacheView {
        if self.downloads.contains_key(id) {
            self
        } else {
            CacheView { downloads: self.downloads.insert(id, DownloadEntryView::InFlight), ..self }
        }
    }

    /// Whether the archive of `id` is here and verified.
    pub open spec fn has_verified(self, id: PackageIdView) -> bool {
        self.downloads.contains_key(id) && self.downloads[id] is Verified
    }

    /// Whether a caller is fetching the archive of `id`.
    pub open spec fn in_flight(self, id: PackageIdView) -> bool {
        self.downloads.contains_key(id) && self.downloads[id] is InFlight
    }

    /// The cache once an archive was reported for `id`. A verified archive that
    /// is already here stays; else the reported one is kept if its content hash
    /// is the advertised checksum, and every trace of the attempt goes if not.
    pub open spec fn reported(
        self,
        id: PackageIdView,
        archive: Seq<char>,
        computed: Seq<char>,
        advertised: Seq<char>,
    ) -> CacheView {
        if self.has_verified(id) {
            self
        } else if computed == advertised {
            CacheView {
                downloads: self.downloads.insert(
                    id,
                    DownloadEntryView::Verified { archive, checksum: advertised },
                ),
                ..self
            }
        } else {
            CacheView { downloads: self.downloads.remove(id), ..self }
        }
    }

    /// What the caller who reported an archive for `id` gets back: the verified
    /// archive with its checksum, or an integrity error.
    pub open spec fn verdict(
        self,
        id: PackageIdView,
        archive: Seq<char>,
        computed: Seq<char>,
        advertised: Seq<char>,
    ) -> Result<(Seq<char>, Seq<char>), SourceErrorView> {
        if self.has_verified(id) {
            Ok((self.downloads[id]->Verified_archive, self.downloads[id]->Verified_checksum))
        } else if computed == advertised {
            Ok((archive, advertised))
        } else {
            Err(SourceErrorView { kind: ErrorKind::Integrity, message: integrity_message() })
        }
    }

    /// The cache once the caller who was fetching the archive of `id` gave up.
    pub open spec fn abandoned(self, id: PackageIdView) -> CacheView {
        if self.in_flight(id) {
            CacheView { downloads: self.downloads.remove(id), ..self }
        } else {
            self
        }
    }
}

/// What a verification ends in, as a mathematical value.
pub open spec fn verdict_view(verdict: Result<(ArchiveHandle, Checksum), SourceError>) -> Result<
    (Seq<char>, Seq<char>),
    SourceErrorView,
> {
    match verdict {
        Ok((archive, checksum)) => Ok((archive@, checksum@)),
        Err(error) => Err(error@),
    }
}

/// The memory of one registry client: the records that it looked up and the
/// archives that it fetched, so that within one process no name is looked up
/// twice and no archive is fetched and verified twice.
#[derive(Debug)]
pub struct RegistryClientCache {
    records: VecMap<String, Vec<IndexRecord>>,
    downloads: VecMap<PackageId, DownloadEntry>,
}

impl View for RegistryClientCache {
    type V = CacheView;

    closed spec fn view(&self) -> CacheView {
        CacheView {
            records: self.records@.map_values(|records: Vec<IndexRecord>| records.deep_view()),
            downloads: self.downloads@.map_values(|entry: DownloadEntry| entry@),
        }
    }
}

impl RegistryClientCache {
    /// A cache that has seen nothing.
    pub fn new() -> (cache: Self)
        ensures
            cache@ == CacheView::empty(),
    {
        let cache = RegistryClientCache { records: VecMap::new(), downloads: VecMap::new() };
        assert(cache@.records =~= Map::empty());
        assert(cache@.downloads =~= Map::empty());
        cache
    }

    /// The records that were looked up for the package that `dependency`
    /// names, if it was looked up before.
    pub fn get_records_with_cache(&self, dependency: &ManifestDependency) -> (cached: Option<
        &Vec<IndexRecord>,
    >)
        ensures
            (match cached {
                Some(records) => self@.records.contains_key(dependency@.name)
                    && records.deep_view() == self@.records[dependency@.name],
                None => !self@.records.contains_key(dependency@.name),
            }),
    {
        self.records.get(&dependency.name)
    }

    /// Keeps the records that a lookup of `name` brought, unless records for
    /// that name are here already: the first list stays.
    pub fn store_records(&mut self, name: String, records: Vec<IndexRecord>)
        ensures
            final(self)@ == old(self)@.with_records(name@, records.deep_view()),
    {
        if !self.records.contains_key(&name) {
            self.records.insert(name, records);
            assert(self@.records =~= old(self)@.records.insert(name@, records.deep_view()));
        }
    }

    /// Answers a caller who asks for the archive of `id`, and notes that the
    /// archive is in flight where the caller is told to fetch it.
    pub fn download_and_verify_with_cache(&mut self, id: &PackageId) -> (decision: DownloadDecision)
        ensures
            decision@ == old(self)@.decision(id@),
            final(self)@ == old(self)@.asked(id@),
    {
        match self.downloads.get(id) {
            Some(DownloadEntry::InFlight) => DownloadDecision::Wait,
            Some(DownloadEntry::Verified { archive, checksum }) => DownloadDecision::Hit {
                archive: archive.clone(),
                checksum: checksum.clone(),
            },
            None => {
                self.downloads.insert(id.clone(), DownloadEntry::InFlight);
                assert(self@.downloads =~= old(self)@.downloads.insert(
                    id@,
                    DownloadEntryView::InFlight,
                ));
                DownloadDecision::Fetch
            },
        }
    }

    /// The verified archive of `id` with its checksum, if it is here.
    pub fn verified(&self, id: &PackageId) -> (found: Option<(ArchiveHandle, Checksum)>)
        ensures
            (match found {
                Some((archive, checksum)) => self@.downloads.contains_key(id@)
                    && self@.downloads[id@] == (DownloadEntryView::Verified {
                    archive: archive@,
                    checksum: checksum@,
                }),
                None => !self@.has_verified(id@),
            }),
    {
        match self.downloads.get(id) {
            Some(DownloadEntry::Verified { archive, checksum }) => Some(
                (archive.clone(), checksum.clone()),
            ),
            _ => None,
        }
    }

    /// Whether a caller is fetching the archive of `id`.
    pub fn is_in_flight(&self, id: &PackageId) -> (yes: bool)
        ensures
            yes == self@.in_flight(id@),
    {
        match self.downloads.get(id) {
            Some(DownloadEntry::InFlight) => true,
            _ => false,
        }
    }

    /// Takes in the archive that was fetched for `id`, with the content hash
    /// that was computed over its bytes and the checksum that the index
    /// advertises. The archive is kept if the two agree; if not, the attempt
    /// leaves no trace and the caller gets an integrity error.
    pub fn verify_download(
        &mut self,
        id: &PackageId,
        archive: ArchiveHandle,
        computed: &Checksum,
        advertised: Checksum,
    ) -> (verdict: Result<(ArchiveHandle, Checksum), SourceError>)
        ensures
            verdict_view(verdict) == old(self)@.verdict(id@, archive@, computed@, advertised@),
            final(self)@ == old(self)@.reported(id@, archive@, computed@, advertised@),
    {
        match self.verified(id) {
            Some(found) => Ok(found),
            None => {
                if computed.same(&advertised) {
                    let kept = (archive.clone(), advertised.clone());
                    self.downloads.insert(
                        id.clone(),
                        DownloadEntry::Verified { archive, checksum: advertised },
                    );
                    assert(self@.downloads =~= old(self)@.downloads.insert(
                        id@,
                        DownloadEntryView::Verified { archive: archive@, checksum: advertised@ },
                    ));
                    Ok(kept)
                } else {
                    self.downloads.remove(id);
                    assert(self@.downloads =~= old(self)@.downloads.remove(id@));
                    Err(
                        SourceError::new(
                            ErrorKind::Integrity,
                            "failed to verify the checksum of downloaded archive".to_owned(),
                        ),
                    )
                }
            },
        }
    }

    /// Forgets that a caller was fetching the archive of `id`, after the fetch
    /// has failed. A verified archive stays.
    pub fn abandon_download(&mut self, id: &PackageId)
        ensures
            final(self)@ == old(self)@.abandoned(id@),
    {
        if self.is_in_flight(id) {
            self.downloads.remove(id);
            assert(self@.downloads =~= old(self)@.downloads.remove(id@));
        }
    }
}

} // verus!
