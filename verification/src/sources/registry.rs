use vstd::prelude::*;
use vstd::string::StringExecFns;

use crate::collections::id_set::PackageIdSet;
use crate::errors::{with_context, SourceError, SourceErrorView};
use crate::model::dependency::{ManifestDependency, ManifestDependencyView};
use crate::model::index::{IndexDependency, IndexDependencyView, IndexRecord, IndexRecordView};
use crate::model::package_id::{PackageId, PackageIdView};
use crate::model::source_id::{SourceId, SourceIdView, SourceKind};
use crate::model::summary::{Summary, SummaryView};
use crate::model::version_req::{DependencyVersionReq, DependencyVersionReqView};
use crate::package::manifest::Manifest;
use crate::package::package::{Package, PackageView};
use crate::registry::cache::{ArchiveHandle, CacheView, RegistryClientCache};
use crate::registry::client::{
    choice_view, choose_client, client_for, url_scheme, RegistryClientKind, RegistryClientKindView,
};
use crate::registry::package_source_store::{
    source_root, ExtractDecision, PackageSourceStore, SlotState, StoreView,
};
use crate::sources::download::{
    download_context, extract_context, lemma_step_keeps_consistent, load_context, DownloadAction,
    DownloadActionView, DownloadEvent, DownloadEventView, DownloadState, DownloadStep, Locks,
    Progress,
};

verus! {

/// The id that a record gets when it answers `dependency` at `source`.
pub open spec fn package_id_for(
    source: SourceIdView,
    dependency: ManifestDependencyView,
    record: IndexRecordView,
) -> PackageIdView {
    PackageIdView { name: dependency.name, version: record.version, source_id: source }
}

/// The requirement that stands in a summary for one dependency of a record: the
/// same name and versions, bound to `source`.
pub open spec fn dependency_for(
    source: SourceIdView,
    dep: IndexDependencyView,
) -> ManifestDependencyView {
    ManifestDependencyView {
        name: dep.name,
        version_req: DependencyVersionReqView::Req(dep.req),
        source_id: source,
    }
}

/// The summary that is built from a record that answers `dependency`.
pub open spec fn summary_for(
    source: SourceIdView,
    dependency: ManifestDependencyView,
    record: IndexRecordView,
) -> SummaryView {
    SummaryView {
        package_id: package_id_for(source, dependency, record),
        dependencies: record.dependencies.map_values(
            |dep: IndexDependencyView| dependency_for(source, dep),
        ),
        checksum: Some(record.checksum),
        no_core: record.no_core,
    }
}

/// Whether a yanked record may still be handed out: only when its id is on the
/// whitelist.
pub open spec fn admitted(
    source: SourceIdView,
    whitelist: Set<PackageIdView>,
    dependency: ManifestDependencyView,
    record: IndexRecordView,
) -> bool {
    record.yanked ==> whitelist.contains(package_id_for(source, dependency, record))
}

/// Whether `record` answers `dependency`: its version is one that the
/// requirement accepts, and it is not yanked unless its id is on the whitelist.
pub open spec fn answers(
    source: SourceIdView,
    whitelist: Set<PackageIdView>,
    dependency: ManifestDependencyView,
    record: IndexRecordView,
) -> bool {
    dependency.version_req.matches(record.version) && admitted(
        source,
        whitelist,
        dependency,
        record,
    )
}

/// [`answers`] as a predicate on records.
pub open spec fn answering(
    source: SourceIdView,
    whitelist: Set<PackageIdView>,
    dependency: ManifestDependencyView,
) -> spec_fn(IndexRecordView) -> bool {
    |record: IndexRecordView| answers(source, whitelist, dependency, record)
}

/// [`summary_for`] as a function on records.
pub open spec fn summarizing(
    source: SourceIdView,
    dependency: ManifestDependencyView,
) -> spec_fn(IndexRecordView) -> SummaryView {
    |record: IndexRecordView| summary_for(source, dependency, record)
}

/// The answer to a query: the summaries of the records that answer
/// `dependency`, in the order of the records.
pub open spec fn summaries_for(
    source: SourceIdView,
    whitelist: Set<PackageIdView>,
    dependency: ManifestDependencyView,
    records: Seq<IndexRecordView>,
) -> Seq<SummaryView> {
    records.filter(answering(source, whitelist, dependency)).map_values(
        summarizing(source, dependency),
    )
}

/// What a caller who puts a query is told.
#[derive(Debug, PartialEq, Eq)]
pub enum QueryStep {
    /// The records of the package were looked up before: here is the answer.
    Done { summaries: Vec<Summary> },
    /// The package was not looked up yet: fetch the records of `name` through
    /// the registry client and hand them to
    /// [`RegistrySource::query_with_records`].
    Lookup { name: String },
}

/// A step of a query as a mathematical value.
pub enum QueryStepView {
    Done { summaries: Seq<SummaryView> },
    Lookup { name: Seq<char> },
}

impl View for QueryStep {
    type V = QueryStepView;

    open spec fn view(&self) -> QueryStepView {
        match self {
            QueryStep::Done { summaries } => QueryStepView::Done {
                summaries: summaries.deep_view(),
            },
            QueryStep::Lookup { name } => QueryStepView::Lookup { name: name@ },
        }
    }
}

/// A source that answers queries from the index of a registry and hands out the
/// packages that the registry publishes.
#[derive(Debug)]
pub struct RegistrySource {
    source_id: SourceId,
    client_kind: RegistryClientKind,
    client: RegistryClientCache,
    package_sources: PackageSourceStore,
    yanked_whitelist: PackageIdSet,
}

/// A registry source as a mathematical value.
pub struct RegistrySourceView {
    pub source_id: SourceIdView,
    /// The client that talks to the registry.
    pub client_kind: RegistryClientKindView,
    /// What the client has fetched.
    pub cache: CacheView,
    /// What was extracted.
    pub store: StoreView,
    /// The ids of the yanked versions that queries may still hand out.
    pub whitelist: Set<PackageIdView>,
}

impl View for RegistrySource {
    type V = RegistrySourceView;

    closed spec fn view(&self) -> RegistrySourceView {
        RegistrySourceView {
            source_id: self.source_id@,
            client_kind: self.client_kind@,
            cache: self.client@,
            store: self.package_sources@,
            whitelist: self.yanked_whitelist@,
        }
    }
}

impl RegistrySourceView {
    /// A source that has fetched and extracted nothing.
    pub open spec fn fresh(
        source_id: SourceIdView,
        client_kind: RegistryClientKindView,
        cache_root: Seq<char>,
        whitelist: Set<PackageIdView>,
    ) -> RegistrySourceView {
        RegistrySourceView {
            source_id,
            client_kind,
            cache: CacheView::empty(),
            store: StoreView { root: source_root(cache_root, source_id), slots: Map::empty() },
            whitelist,
        }
    }

    /// Cache and store of the source.
    pub open spec fn progress(self) -> Progress {
        Progress { cache: self.cache, store: self.store }
    }

    /// The source with cache and store as in `progress`.
    pub open spec fn at(self, progress: Progress) -> RegistrySourceView {
        RegistrySourceView { cache: progress.cache, store: progress.store, ..self }
    }

    /// The answer to a query for `dependency` from the records in `records`.
    pub open spec fn answer(
        self,
        dependency: ManifestDependencyView,
        records: Seq<IndexRecordView>,
    ) -> Seq<SummaryView> {
        summaries_for(self.source_id, self.whitelist, dependency, records)
    }

    /// What a caller who puts a query for `dependency` is told.
    pub open spec fn query(self, dependency: ManifestDependencyView) -> QueryStepView {
        if self.cache.records.contains_key(dependency.name) {
            QueryStepView::Done {
                summaries: self.answer(dependency, self.cache.records[dependency.name]),
            }
        } else {
            QueryStepView::Lookup { name: dependency.name }
        }
    }
}

/// The message of a failure to look `dependency` up at `source`.
pub open spec fn lookup_context(
    dependency: ManifestDependencyView,
    source: SourceIdView,
) -> Seq<char> {
    "failed to lookup for `"@ + dependency.text() + "` in registry: "@ + source.text()
}

/// What the making of a source ends in, as a mathematical value.
pub open spec fn made_view(made: Result<RegistrySource, SourceError>) -> Result<
    RegistrySourceView,
    SourceErrorView,
> {
    match made {
        Ok(source) => Ok(source@),
        Err(error) => Err(error@),
    }
}

/// What the making of a source for `source_id` ends in, given what the choice
/// of its client ended in.
pub open spec fn made_from(
    choice: Result<RegistryClientKindView, SourceErrorView>,
    source_id: SourceIdView,
    cache_root: Seq<char>,
    whitelist: Set<PackageIdView>,
) -> Result<RegistrySourceView, SourceErrorView> {
    match choice {
        Ok(kind) => Ok(RegistrySourceView::fresh(source_id, kind, cache_root, whitelist)),
        Err(error) => Err(error),
    }
}

impl RegistrySource {
    /// The source `source_id`, which keeps what it extracts under `cache_root`
    /// and hands out the yanked versions in `yanked_whitelist`. It has fetched
    /// and extracted nothing. The scheme of the URL selects the client; a URL
    /// for which there is none is a configuration error, and nothing was
    /// touched.
    pub fn new(source_id: SourceId, cache_root: &str, yanked_whitelist: &PackageIdSet) -> (made:
        Result<Self, SourceError>)
        requires
            source_id.kind == SourceKind::Registry,
        ensures
            exists|file_path: Option<Seq<char>>|
                made_view(made) == made_from(
                    #[trigger] client_for(source_id@, url_scheme(source_id.url@), file_path),
                    source_id@,
                    cache_root@,
                    yanked_whitelist@,
                ),
            url_scheme(source_id.url@) != Some("file"@) ==> made_view(made) == made_from(
                client_for(source_id@, url_scheme(source_id.url@), None),
                source_id@,
                cache_root@,
                yanked_whitelist@,
            ),
            made matches Ok(source) ==> source@.progress().consistent(),
    {
        match Self::create_client(&source_id) {
            Ok(client_kind) => {
                let client = RegistryClientCache::new();
                let package_sources = PackageSourceStore::new(&source_id, cache_root);
                Ok(
                    RegistrySource {
                        source_id,
                        client_kind,
                        client,
                        package_sources,
                        yanked_whitelist: yanked_whitelist.clone(),
                    },
                )
            },
            Err(error) => Err(error),
        }
    }

    /// The client that talks to the registry of `source_id`: the local one for a
    /// `file` URL, the networked one for `http` and `https`, and a configuration
    /// error for every other scheme.
    pub fn create_client(source_id: &SourceId) -> (choice: Result<RegistryClientKind, SourceError>)
        requires
            source_id.kind == SourceKind::Registry,
        ensures
            exists|file_path: Option<Seq<char>>|
                choice_view(choice) == #[trigger] client_for(
                    source_id@,
                    url_scheme(source_id.url@),
                    file_path,
                ),
            url_scheme(source_id.url@) != Some("file"@) ==> choice_view(choice) == client_for(
                source_id@,
                url_scheme(source_id.url@),
                None,
            ),
    {
        choose_client(source_id)
    }

    /// The id of the source.
    pub fn source_id(&self) -> (id: &SourceId)
        ensures
            id@ == self@.source_id,
    {
        &self.source_id
    }

    /// The client that talks to the registry.
    pub fn client_kind(&self) -> (kind: &RegistryClientKind)
        ensures
            kind@ == self@.client_kind,
    {
        &self.client_kind
    }

    /// The requirements of a summary, from the dependencies of a record.
    fn bind_dependencies(&self, deps: &Vec<IndexDependency>) -> (bound: Vec<ManifestDependency>)
        ensures
            bound.deep_view() == deps.deep_view().map_values(
                |dep: IndexDependencyView| dependency_for(self@.source_id, dep),
            ),
    {
        let mut bound: Vec<ManifestDependency> = Vec::new();
        let mut i: usize = 0;
        while i < deps.len()
            invariant
                i <= deps.len(),
                bound.len() == i,
                forall|k: int|
                    0 <= k < i ==> bound[k]@ == dependency_for(self@.source_id, deps[k]@),
            decreases deps.len() - i,
        {
            let dep = &deps[i];
            bound.push(
                ManifestDependency::new(
                    dep.name.clone(),
                    DependencyVersionReq::from(dep.req.clone()),
                    self.source_id.clone(),
                ),
            );
            i += 1;
        }
        assert(bound.deep_view() =~= deps.deep_view().map_values(
            |dep: IndexDependencyView| dependency_for(self@.source_id, dep),
        ));
        bound
    }

    /// The summary of `record` as an answer to `dependency`, unless the record
    /// is yanked and its id is not on the whitelist.
    pub fn build_summary(&self, dependency: &ManifestDependency, record: &IndexRecord) -> (summary:
        Option<Summary>)
        ensures
            (summary.deep_view() == if admitted(
                self@.source_id,
                self@.whitelist,
                dependency@,
                record@,
            ) {
                Some(summary_for(self@.source_id, dependency@, record@))
            } else {
                None
            }),
    {
        let package_id = PackageId::new(
            dependency.name.clone(),
            record.version.clone(),
            self.source_id.clone(),
        );
        if record.yanked && !self.yanked_whitelist.contains(&package_id) {
            return None;
        }
        let dependencies = self.bind_dependencies(&record.dependencies);
        Some(Summary::new(package_id, dependencies, Some(record.checksum.clone()), record.no_core))
    }

    /// The summaries of the records that answer `dependency`, in the order of
    /// the records. No record answering is no failure: the list is then empty.
    pub fn summaries(&self, dependency: &ManifestDependency, records: &Vec<IndexRecord>) -> (found:
        Vec<Summary>)
        ensures
            found.deep_view() == self@.answer(dependency@, records.deep_view()),
    {
        let ghost picks = answering(self@.source_id, self@.whitelist, dependency@);
        let ghost builds = summarizing(self@.source_id, dependency@);
        let ghost all = records.deep_view();
        let mut found: Vec<Summary> = Vec::new();
        let mut i: usize = 0;
        proof {
            assert(all.take(0) =~= Seq::<IndexRecordView>::empty());
            reveal(Seq::filter);
            assert(all.take(0).filter(picks).map_values(builds) =~= found.deep_view());
        }
        while i < records.len()
            invariant
                i <= records.len(),
                all == records.deep_view(),
                picks == answering(self@.source_id, self@.whitelist, dependency@),
                builds == summarizing(self@.source_id, dependency@),
                found.deep_view() == all.take(i as int).filter(picks).map_values(builds),
            decreases records.len() - i,
        {
            let record = &records[i];
            let ghost before = found.deep_view();
            proof {
                all.lemma_take_succ_push(i as int);
                all.take(i as int).lemma_filter_push(all[i as int], picks);
                all.take(i as int).filter(picks).lemma_push_map_commute(builds, all[i as int]);
                assert(all[i as int] == record@);
            }
            if dependency.version_req.matches(record.version.as_str()) {
                if let Some(summary) = self.build_summary(dependency, record) {
                    found.push(summary);
                    assert(found.deep_view() =~= before.push(builds(record@)));
                }
            }
            i += 1;
        }
        proof {
            assert(all.take(records.len() as int) =~= all);
        }
        found
    }

    /// Answers a query for `dependency` from the records that were looked up
    /// for its name, or says that they have to be looked up first.
    pub fn query(&self, dependency: &ManifestDependency) -> (step: QueryStep)
        ensures
            step@ == self@.query(dependency@),
    {
        match self.client.get_records_with_cache(dependency) {
            Some(records) => QueryStep::Done { summaries: self.summaries(dependency, records) },
            None => QueryStep::Lookup { name: dependency.name.clone() },
        }
    }

    /// Takes in the records that a lookup of the name of `dependency` brought,
    /// and answers the query from the records that the cache now holds for that
    /// name: those that came first.
    pub fn query_with_records(
        &mut self,
        dependency: &ManifestDependency,
        records: Vec<IndexRecord>,
    ) -> (found: Vec<Summary>)
        ensures
            final(self)@ == (RegistrySourceView {
                cache: old(self)@.cache.with_records(dependency@.name, records.deep_view()),
                ..old(self)@
            }),
            final(self)@.query(dependency@) == (QueryStepView::Done {
                summaries: found.deep_view(),
            }),
    {
        self.client.store_records(dependency.name.clone(), records);
        match self.client.get_records_with_cache(dependency) {
            Some(cached) => self.summaries(dependency, cached),
            None => Vec::new(),
        }
    }

    /// How far `id` has come on its way from the registry to a loaded package.
    pub fn state_of(&self, id: &PackageId) -> (state: DownloadState)
        ensures
            state == self@.progress().state(id@),
    {
        match self.client.verified(id) {
            Some(_) => match self.package_sources.slot_state(id) {
                Some(SlotState::Extracted) => DownloadState::Extracted,
                Some(SlotState::Extracting) => DownloadState::Extracting,
                None => DownloadState::Verified,
            },
            None => if self.client.is_in_flight(id) {
                DownloadState::Fetching
            } else {
                DownloadState::NotFetched
            },
        }
    }

    /// The step that tells the caller to take the lock of the slot of `id`.
    fn lock_slot(&self, id: &PackageId) -> (step: DownloadStep)
        ensures
            step.state == self@.progress().lock_slot(id@).state,
            step.action@ == self@.progress().lock_slot(id@).action,
    {
        DownloadStep {
            state: DownloadState::Verified,
            action: DownloadAction::LockSlot {
                lock: self.package_sources.lock_path(id),
                slot: self.package_sources.slot_path(id),
            },
        }
    }

    /// The locks that a caller gives back once the slot of `id` is filled.
    fn locks(&self, id: &PackageId) -> (locks: Option<Locks>)
        requires
            self@.cache.has_verified(id@),
        ensures
            locks matches Some(held) && held@ == self@.progress().locks(id@),
    {
        match self.client.verified(id) {
            Some((archive, _)) => Some(
                Locks { slot_lock: self.package_sources.lock_path(id), archive },
            ),
            None => None,
        }
    }

    /// The step that tells the caller to load the manifest from the slot of
    /// `id`.
    fn load(&self, id: &PackageId, release: Option<Locks>) -> (step: DownloadStep)
        ensures
            step.state == DownloadState::Extracted,
            step.action@ == (DownloadActionView::Load {
                directory: self@.store.slot_path(id@),
                release: match release {
                    Some(locks) => Some(locks@),
                    None => None,
                },
            }),
    {
        DownloadStep {
            state: DownloadState::Extracted,
            action: DownloadAction::Load {
                directory: self.package_sources.slot_path(id),
                release,
            },
        }
    }

    /// The step in which nothing changes and nothing is to be done.
    fn ignore(&self, id: &PackageId) -> (step: DownloadStep)
        ensures
            step.state == self@.progress().state(id@),
            step.action@ == DownloadActionView::Ignore,
    {
        DownloadStep { state: self.state_of(id), action: DownloadAction::Ignore }
    }

    /// The step that ends the attempt in `error`.
    fn fail(error: SourceError, unlock: Option<String>, discard: Option<ArchiveHandle>) -> (step:
        DownloadStep)
        ensures
            step.state == DownloadState::Failed(error.kind),
            step.action@ == (DownloadActionView::Fail {
                error: error@,
                unlock: unlock.deep_view(),
                discard: match discard {
                    Some(archive) => Some(archive@),
                    None => None,
                },
            }),
    {
        DownloadStep {
            state: DownloadState::Failed(error.kind),
            action: DownloadAction::Fail { error, unlock, discard },
        }
    }

    /// The message of a failure to fetch or verify the archive of `id`.
    fn download_context(id: &PackageId) -> (context: String)
        ensures
            context@ == download_context(id@),
    {
        let mut context = String::from_str("failed to download package: ");
        let id = id.to_string();
        context.append(id.as_str());
        context
    }

    /// The message of a failure to load the manifest of `id`.
    fn load_context(id: &PackageId) -> (context: String)
        ensures
            context@ == load_context(id@),
    {
        let mut context = String::from_str("failed to load package: ");
        let id = id.to_string();
        context.append(id.as_str());
        context
    }

    /// The message of a failure to extract the archive of `id`.
    fn extract_context(id: &PackageId) -> (context: String)
        ensures
            context@ == extract_context(id@),
    {
        let mut context = String::from_str("failed to extract: ");
        let id = id.to_string();
        context.append(id.as_str());
        context
    }

    /// Takes one step on the way of `id` from the registry to an extracted
    /// package: takes in what the caller reports, and tells it what to do next.
    ///
    /// Whoever asks first is told to fetch the archive; whoever asks while
    /// another caller works is told to wait; whoever asks afterwards gets what
    /// the first one brought. An archive is kept only if its content hash is the
    /// advertised checksum, and a slot is filled by one caller alone, under its
    /// lock. An event that does not fit the state of the package changes
    /// nothing.
    pub fn download(&mut self, id: &PackageId, event: DownloadEvent) -> (step: DownloadStep)
        ensures
            final(self)@ == old(self)@.at(old(self)@.progress().step(id@, event@).progress),
            step.state == old(self)@.progress().step(id@, event@).state,
            step.action@ == old(self)@.progress().step(id@, event@).action,
            old(self)@.progress().consistent() ==> final(self)@.progress().consistent(),
    {
        proof {
            if self@.progress().consistent() {
                lemma_step_keeps_consistent(self@.progress(), id@, event@);
            }
        }
        let state = self.state_of(id);
        match event {
            DownloadEvent::Requested => match state {
                DownloadState::NotFetched => {
                    let _ = self.client.download_and_verify_with_cache(id);
                    DownloadStep { state: DownloadState::Fetching, action: DownloadAction::Fetch }
                },
                DownloadState::Verified => self.lock_slot(id),
                DownloadState::Extracted => self.load(id, None),
                _ => DownloadStep { state, action: DownloadAction::Wait },
            },
            DownloadEvent::Fetched { archive, computed, advertised } => {
                if state != DownloadState::Fetching {
                    self.ignore(id)
                } else {
                    let discard = archive.clone();
                    match self.client.verify_download(id, archive, &computed, advertised) {
                        Ok(_) => self.lock_slot(id),
                        Err(error) => {
                            let context = Self::download_context(id);
                            Self::fail(error.context(context.as_str()), None, Some(discard))
                        },
                    }
                }
            },
            DownloadEvent::FetchFailed { error } => {
                if state != DownloadState::Fetching {
                    self.ignore(id)
                } else {
                    self.client.abandon_download(id);
                    let context = Self::download_context(id);
                    Self::fail(error.context(context.as_str()), None, None)
                }
            },
            DownloadEvent::SlotLocked { present } => match state {
                DownloadState::Verified => {
                    let locks = self.locks(id);
                    match (self.package_sources.extract(id, present), locks) {
                        (
                            ExtractDecision::Unpack { staging, slot },
                            Some(Locks { slot_lock: _, archive }),
                        ) => DownloadStep {
                            state: DownloadState::Extracting,
                            action: DownloadAction::Unpack { archive, staging, slot },
                        },
                        (_, locks) => self.load(id, locks),
                    }
                },
                DownloadState::Extracted => {
                    let locks = self.locks(id);
                    self.load(id, locks)
                },
                _ => self.ignore(id),
            },
            DownloadEvent::LockFailed { error } => {
                let context = Self::extract_context(id);
                Self::fail(error.context(context.as_str()), None, None)
            },
            DownloadEvent::Unpacked => {
                if state != DownloadState::Extracting {
                    self.ignore(id)
                } else {
                    let locks = self.locks(id);
                    let _ = self.package_sources.finish_extract(id);
                    self.load(id, locks)
                }
            },
            DownloadEvent::UnpackFailed { error } => {
                if state != DownloadState::Extracting {
                    self.ignore(id)
                } else {
                    let unlock = self.package_sources.lock_path(id);
                    self.package_sources.abandon_extract(id);
                    let context = Self::extract_context(id);
                    Self::fail(error.context(context.as_str()), Some(unlock), None)
                }
            },
            DownloadEvent::LoadFailed { error } => {
                let context = Self::load_context(id);
                Self::fail(error.context(context.as_str()), None, None)
            },
        }
    }

    /// Makes the package `id` of the manifest that was loaded from its slot:
    /// writes the verified checksum of the archive into the manifest and hands
    /// out the package, which is final from then on. There is no package where
    /// the slot of `id` was not filled; the state of `id` is then all that is
    /// handed out.
    pub fn load_package(&self, id: &PackageId, manifest_path: String, manifest: Manifest) -> (loaded:
        (DownloadState, Option<Package>))
        ensures
            (match loaded.1 {
                Some(package) => {
                    &&& self@.progress().state(id@) == DownloadState::Extracted
                    &&& loaded.0 == DownloadState::Loaded
                    &&& package@ == (PackageView {
                        id: id@,
                        manifest: manifest@.stamped(self@.progress().checksum(id@)),
                        manifest_path: manifest_path@,
                        root: package@.root,
                    })
                },
                None => {
                    &&& self@.progress().state(id@) != DownloadState::Extracted
                    &&& loaded.0 == self@.progress().state(id@)
                },
            }),
    {
        let state = self.state_of(id);
        if state != DownloadState::Extracted {
            return (state, None);
        }
        match self.client.verified(id) {
            Some((_, checksum)) => {
                let mut manifest = manifest;
                manifest.set_checksum(checksum);
                (
                    DownloadState::Loaded,
                    Some(Package::new(id.clone(), manifest_path, Box::new(manifest))),
                )
            },
            None => (state, None),
        }
    }

    /// The failure of a query whose lookup has failed: `error`, with the
    /// dependency and the source in front of its message.
    pub fn lookup_failed(&self, dependency: &ManifestDependency, error: SourceError) -> (failure:
        SourceError)
        ensures
            failure@ == (SourceErrorView {
                kind: error.kind,
                message: with_context(
                    lookup_context(dependency@, self@.source_id),
                    error.message@,
                ),
            }),
    {
        let mut context = String::from_str("failed to lookup for `");
        let dependency = dependency.to_string();
        context.append(dependency.as_str());
        context.append("` in registry: ");
        let source = self.source_id.to_string();
        context.append(source.as_str());
        error.context(context.as_str())
    }
}

/// A record that answers a dependency is in the answer to the query: if the
/// requirement accepts the version of `records[i]`, and the record is not yanked
/// or its id is on the whitelist, then the answer holds its summary, whose id is
/// the name of the dependency, the version of the record and the source.
pub proof fn lemma_query_finds_every_answer(
    source: SourceIdView,
    whitelist: Set<PackageIdView>,
    dependency: ManifestDependencyView,
    records: Seq<IndexRecordView>,
    i: int,
)
    requires
        0 <= i < records.len(),
        dependency.version_req.matches(records[i].version),
        !records[i].yanked || whitelist.contains(package_id_for(source, dependency, records[i])),
    ensures
        summaries_for(source, whitelist, dependency, records).contains(
            summary_for(source, dependency, records[i]),
        ),
        exists|j: int|
            0 <= j < summaries_for(source, whitelist, dependency, records).len() && (
            #[trigger] summaries_for(source, whitelist, dependency, records)[j]).package_id == (
            PackageIdView { name: dependency.name, version: records[i].version, source_id: source }),
{
    let picks = answering(source, whitelist, dependency);
    let builds = summarizing(source, dependency);
    let picked = records.filter(picks);
    assert(picks(records[i]));
    records.lemma_filter_contains(picks, i);
    let k = choose|k: int| 0 <= k < picked.len() && picked[k] == records[i];
    let found = summaries_for(source, whitelist, dependency, records);
    assert(found[k] == summary_for(source, dependency, records[i]));
}

/// Nothing is in the answer to a query but summaries of records that answer it:
/// each summary stems from a record whose version the requirement accepts and
/// which is not yanked, unless its id is on the whitelist. So no summary stands
/// for a yanked record that the whitelist does not name.
pub proof fn lemma_query_holds_only_answers(
    source: SourceIdView,
    whitelist: Set<PackageIdView>,
    dependency: ManifestDependencyView,
    records: Seq<IndexRecordView>,
    j: int,
)
    requires
        0 <= j < summaries_for(source, whitelist, dependency, records).len(),
    ensures
        exists|i: int|
            0 <= i < records.len() && summaries_for(source, whitelist, dependency, records)[j]
                == summary_for(source, dependency, #[trigger] records[i])
                && dependency.version_req.matches(records[i].version) && (!records[i].yanked
                || whitelist.contains(package_id_for(source, dependency, records[i]))),
        summaries_for(source, whitelist, dependency, records)[j].package_id.source_id == source,
        summaries_for(source, whitelist, dependency, records)[j].package_id.name == dependency.name,
{
    let picks = answering(source, whitelist, dependency);
    let picked = records.filter(picks);
    records.lemma_filter_pred(picks, j);
    records.lemma_filter_contains_rev(picks, picked[j]);
    assert(picked.contains(picked[j]));
    let i = choose|i: int| 0 <= i < records.len() && records[i] == picked[j];
    assert(records[i] == picked[j]);
}

/// The checksum in a summary is the checksum of the package that a download
/// hands out later: where the archive of a package is verified against the
/// checksum of the record that its summary was built from, the cache keeps that
/// checksum, with which the manifest of the loaded package is stamped.
pub proof fn lemma_summary_checksum_is_download_checksum(
    start: Progress,
    source: SourceIdView,
    dependency: ManifestDependencyView,
    record: IndexRecordView,
    archive: Seq<char>,
)
    requires
        start.state(package_id_for(source, dependency, record)) == DownloadState::Fetching,
    ensures
        ({
            let id = package_id_for(source, dependency, record);
            let verified = start.step(
                id,
                DownloadEventView::Fetched {
                    archive,
                    computed: record.checksum,
                    advertised: record.checksum,
                },
            ).progress;
            &&& verified.cache.has_verified(id)
            &&& summary_for(source, dependency, record).package_id == id
            &&& summary_for(source, dependency, record).checksum == Some(verified.checksum(id))
        }),
{
}

} // verus!
