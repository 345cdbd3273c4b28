use scarb_registry::collections::id_set::PackageIdSet;
use scarb_registry::errors::{ErrorKind, SourceError};
use scarb_registry::model::checksum::Checksum;
use scarb_registry::model::package_id::PackageId;
use scarb_registry::model::source_id::SourceId;
use scarb_registry::model::summary::Summary;
use scarb_registry::package::manifest::{Manifest, Target, TargetKind};
use scarb_registry::registry::cache::ArchiveHandle;
use scarb_registry::sources::download::{
    DownloadAction, DownloadEvent, DownloadState, DownloadStep, Locks,
};
use scarb_registry::sources::registry::RegistrySource;

const SLOT: &str = "/cache/registry/src/4eb14d9da99c35c1/alpha-1.2.0";
const LOCK: &str = "/cache/registry/src/4eb14d9da99c35c1/.locks/alpha-1.2.0";
const STAGING: &str = "/cache/registry/src/4eb14d9da99c35c1/.tmp/alpha-1.2.0";

fn registry() -> SourceId {
    SourceId::for_registry("https://registry.example.com/".to_string())
}

fn alpha() -> PackageId {
    PackageId::new("alpha".to_string(), "1.2.0".to_string(), registry())
}

fn source() -> RegistrySource {
    RegistrySource::new(registry(), "/cache", &PackageIdSet::new()).unwrap()
}

fn archive() -> ArchiveHandle {
    ArchiveHandle::new("/dl/alpha-1.2.0.tar.zst".to_string())
}

fn fetched(computed: &str, advertised: &str) -> DownloadEvent {
    DownloadEvent::Fetched {
        archive: archive(),
        computed: Checksum::new(computed.to_string()),
        advertised: Checksum::new(advertised.to_string()),
    }
}

fn lock_slot() -> DownloadStep {
    DownloadStep {
        state: DownloadState::Verified,
        action: DownloadAction::LockSlot { lock: LOCK.to_string(), slot: SLOT.to_string() },
    }
}

fn load(release: bool) -> DownloadStep {
    DownloadStep {
        state: DownloadState::Extracted,
        action: DownloadAction::Load {
            directory: SLOT.to_string(),
            release: if release {
                Some(Locks { slot_lock: LOCK.to_string(), archive: archive() })
            } else {
                None
            },
        },
    }
}

fn manifest() -> Manifest {
    Manifest::new(
        Summary::new(alpha(), vec![], None, false),
        vec![Target::new(TargetKind::lib(), "alpha".to_string())],
    )
}

fn failure(kind: ErrorKind, message: &str) -> SourceError {
    SourceError::new(kind, message.to_string())
}

/// Brings alpha as far as `state`.
fn source_at(state: DownloadState) -> RegistrySource {
    let mut source = source();
    let id = alpha();
    let events = [
        DownloadEvent::Requested,
        fetched("abc123", "abc123"),
        DownloadEvent::SlotLocked { present: false },
        DownloadEvent::Unpacked,
    ];
    for event in events {
        if source.state_of(&id) == state {
            break;
        }
        source.download(&id, event);
    }
    assert_eq!(source.state_of(&id), state);
    source
}

#[test]
fn download_fetches_verifies_extracts_and_loads() {
    let mut source = source();
    let id = alpha();
    assert_eq!(source.state_of(&id), DownloadState::NotFetched);
    assert_eq!(
        source.download(&id, DownloadEvent::Requested),
        DownloadStep { state: DownloadState::Fetching, action: DownloadAction::Fetch }
    );
    assert_eq!(source.state_of(&id), DownloadState::Fetching);
    assert_eq!(source.download(&id, fetched("abc123", "abc123")), lock_slot());
    assert_eq!(source.state_of(&id), DownloadState::Verified);
    assert_eq!(
        source.download(&id, DownloadEvent::SlotLocked { present: false }),
        DownloadStep {
            state: DownloadState::Extracting,
            action: DownloadAction::Unpack {
                archive: archive(),
                staging: STAGING.to_string(),
                slot: SLOT.to_string(),
            },
        }
    );
    assert_eq!(source.state_of(&id), DownloadState::Extracting);
    assert_eq!(source.download(&id, DownloadEvent::Unpacked), load(true));
    assert_eq!(source.state_of(&id), DownloadState::Extracted);
    let (state, package) = source.load_package(&id, format!("{SLOT}/Scarb.toml"), manifest());
    assert_eq!(state, DownloadState::Loaded);
    let package = package.unwrap();
    assert_eq!(package.id, id);
    assert_eq!(package.manifest.summary.checksum, Some(Checksum::new("abc123".to_string())));
    assert_eq!(package.manifest_path(), format!("{SLOT}/Scarb.toml"));
    assert_eq!(package.to_string(), "alpha@1.2.0");
}

#[test]
fn many_callers_fetch_once_and_unpack_once() {
    let mut source = source();
    let id = alpha();
    let mut actions = Vec::new();
    let events = vec![
        DownloadEvent::Requested,
        DownloadEvent::Requested,
        DownloadEvent::Requested,
        fetched("abc123", "abc123"),
        DownloadEvent::Requested,
        DownloadEvent::Requested,
        DownloadEvent::SlotLocked { present: false },
        DownloadEvent::Requested,
        DownloadEvent::SlotLocked { present: false },
        DownloadEvent::Unpacked,
        DownloadEvent::SlotLocked { present: true },
        DownloadEvent::SlotLocked { present: false },
        DownloadEvent::Requested,
        DownloadEvent::Requested,
    ];
    for event in events {
        actions.push(source.download(&id, event).action);
    }
    let fetches = actions.iter().filter(|action| matches!(action, DownloadAction::Fetch)).count();
    let unpacks =
        actions.iter().filter(|action| matches!(action, DownloadAction::Unpack { .. })).count();
    assert_eq!(fetches, 1);
    assert_eq!(unpacks, 1);
    let directories: Vec<&String> = actions
        .iter()
        .filter_map(|action| match action {
            DownloadAction::Load { directory, .. } => Some(directory),
            _ => None,
        })
        .collect();
    assert_eq!(directories.len(), 5);
    assert!(directories.iter().all(|directory| *directory == SLOT));
    assert_eq!(actions[1], DownloadAction::Wait);
    assert_eq!(actions[2], DownloadAction::Wait);
    assert_eq!(actions[4], lock_slot().action);
    assert_eq!(actions[7], DownloadAction::Wait);
    assert_eq!(actions[8], DownloadAction::Ignore);
    assert_eq!(actions[10], load(true).action);
    assert_eq!(actions[12], load(false).action);
    for _ in 0..3 {
        let (state, package) = source.load_package(&id, format!("{SLOT}/Scarb.toml"), manifest());
        assert_eq!(state, DownloadState::Loaded);
        assert_eq!(
            package.unwrap().manifest.summary.checksum,
            Some(Checksum::new("abc123".to_string()))
        );
    }
}

#[test]
fn corrupt_archive_is_an_integrity_error_and_fills_no_slot() {
    let mut source = source_at(DownloadState::Fetching);
    let id = alpha();
    let step = source.download(&id, fetched("000000", "abc123"));
    assert_eq!(step.state, DownloadState::Failed(ErrorKind::Integrity));
    assert_eq!(
        step.action,
        DownloadAction::Fail {
            error: failure(
                ErrorKind::Integrity,
                "failed to download package: alpha@1.2.0: \
                 failed to verify the checksum of downloaded archive",
            ),
            unlock: None,
            discard: Some(archive()),
        }
    );
    assert_eq!(source.state_of(&id), DownloadState::NotFetched);
    assert_eq!(source.load_package(&id, "p".to_string(), manifest()).0, DownloadState::NotFetched);
    assert_eq!(
        source.download(&id, DownloadEvent::SlotLocked { present: false }).action,
        DownloadAction::Ignore
    );
    assert_eq!(source.download(&id, DownloadEvent::Unpacked).action, DownloadAction::Ignore);
    // A later attempt starts afresh.
    assert_eq!(source.download(&id, DownloadEvent::Requested).action, DownloadAction::Fetch);
    assert_eq!(source.download(&id, fetched("abc123", "abc123")), lock_slot());
}

#[test]
fn failed_fetch_ends_the_attempt_and_may_be_tried_again() {
    let mut source = source_at(DownloadState::Fetching);
    let id = alpha();
    let step = source.download(
        &id,
        DownloadEvent::FetchFailed { error: failure(ErrorKind::Network, "connection reset") },
    );
    assert_eq!(
        step,
        DownloadStep {
            state: DownloadState::Failed(ErrorKind::Network),
            action: DownloadAction::Fail {
                error: failure(
                    ErrorKind::Network,
                    "failed to download package: alpha@1.2.0: connection reset",
                ),
                unlock: None,
                discard: None,
            },
        }
    );
    assert_eq!(source.state_of(&id), DownloadState::NotFetched);
    assert_eq!(source.download(&id, DownloadEvent::Requested).action, DownloadAction::Fetch);
}

#[test]
fn failed_extraction_gives_the_lock_back_and_keeps_the_archive() {
    let mut source = source_at(DownloadState::Extracting);
    let id = alpha();
    let step = source.download(
        &id,
        DownloadEvent::UnpackFailed { error: failure(ErrorKind::Io, "disk full") },
    );
    assert_eq!(
        step,
        DownloadStep {
            state: DownloadState::Failed(ErrorKind::Io),
            action: DownloadAction::Fail {
                error: failure(ErrorKind::Io, "failed to extract: alpha@1.2.0: disk full"),
                unlock: Some(LOCK.to_string()),
                discard: None,
            },
        }
    );
    assert_eq!(source.state_of(&id), DownloadState::Verified);
    assert_eq!(source.download(&id, DownloadEvent::Requested), lock_slot());
    assert!(matches!(
        source.download(&id, DownloadEvent::SlotLocked { present: false }).action,
        DownloadAction::Unpack { .. }
    ));
}

#[test]
fn refused_lock_ends_the_attempt_and_changes_nothing() {
    let mut source = source_at(DownloadState::Verified);
    let id = alpha();
    let step = source.download(
        &id,
        DownloadEvent::LockFailed { error: failure(ErrorKind::Lock, "too many open files") },
    );
    assert_eq!(
        step,
        DownloadStep {
            state: DownloadState::Failed(ErrorKind::Lock),
            action: DownloadAction::Fail {
                error: failure(
                    ErrorKind::Lock,
                    "failed to extract: alpha@1.2.0: too many open files",
                ),
                unlock: None,
                discard: None,
            },
        }
    );
    assert_eq!(source.state_of(&id), DownloadState::Verified);
}

#[test]
fn missing_manifest_ends_the_attempt_and_keeps_the_slot() {
    let mut source = source_at(DownloadState::Extracted);
    let id = alpha();
    let step = source.download(
        &id,
        DownloadEvent::LoadFailed { error: failure(ErrorKind::Manifest, "no manifest found") },
    );
    assert_eq!(step.state, DownloadState::Failed(ErrorKind::Manifest));
    assert_eq!(
        step.action,
        DownloadAction::Fail {
            error: failure(
                ErrorKind::Manifest,
                "failed to load package: alpha@1.2.0: no manifest found",
            ),
            unlock: None,
            discard: None,
        }
    );
    assert_eq!(source.state_of(&id), DownloadState::Extracted);
    assert_eq!(source.download(&id, DownloadEvent::Requested), load(false));
}

#[test]
fn slot_that_exists_is_loaded_without_unpacking() {
    let mut source = source_at(DownloadState::Verified);
    let id = alpha();
    assert_eq!(source.download(&id, DownloadEvent::SlotLocked { present: true }), load(true));
    assert_eq!(source.state_of(&id), DownloadState::Extracted);
    assert_eq!(source.download(&id, DownloadEvent::SlotLocked { present: false }), load(true));
    assert_eq!(source.download(&id, DownloadEvent::Requested), load(false));
}

#[test]
fn events_that_do_not_fit_change_nothing() {
    let id = alpha();
    let states = [
        DownloadState::NotFetched,
        DownloadState::Fetching,
        DownloadState::Verified,
        DownloadState::Extracting,
        DownloadState::Extracted,
    ];
    for state in states {
        let events = vec![
            (fetched("abc123", "abc123"), DownloadState::Fetching),
            (fetched("000000", "abc123"), DownloadState::Fetching),
            (
                DownloadEvent::FetchFailed { error: failure(ErrorKind::Io, "x") },
                DownloadState::Fetching,
            ),
            (DownloadEvent::Unpacked, DownloadState::Extracting),
            (
                DownloadEvent::UnpackFailed { error: failure(ErrorKind::Io, "x") },
                DownloadState::Extracting,
            ),
        ];
        for (event, fits) in events {
            if fits == state {
                continue;
            }
            let mut source = source_at(state);
            let step = source.download(&id, event);
            assert_eq!(step, DownloadStep { state, action: DownloadAction::Ignore });
            assert_eq!(source.state_of(&id), state);
        }
    }
    for state in [DownloadState::NotFetched, DownloadState::Fetching, DownloadState::Extracting] {
        let mut source = source_at(state);
        let step = source.download(&id, DownloadEvent::SlotLocked { present: true });
        assert_eq!(step, DownloadStep { state, action: DownloadAction::Ignore });
        assert_eq!(source.state_of(&id), state);
    }
}

#[test]
fn waiting_callers_change_nothing() {
    for state in [DownloadState::Fetching, DownloadState::Extracting] {
        let mut source = source_at(state);
        let step = source.download(&alpha(), DownloadEvent::Requested);
        assert_eq!(step, DownloadStep { state, action: DownloadAction::Wait });
        assert_eq!(source.state_of(&alpha()), state);
    }
}

#[test]
fn package_is_not_loaded_before_its_slot_is_filled() {
    let states = [
        DownloadState::NotFetched,
        DownloadState::Fetching,
        DownloadState::Verified,
        DownloadState::Extracting,
    ];
    for state in states {
        let source = source_at(state);
        let (reached, package) = source.load_package(&alpha(), "p".to_string(), manifest());
        assert_eq!(reached, state);
        assert!(package.is_none());
    }
}

#[test]
fn packages_do_not_hold_each_other_up() {
    let mut source = source_at(DownloadState::Extracting);
    let beta = PackageId::new("beta".to_string(), "0.1.0".to_string(), registry());
    assert_eq!(source.state_of(&beta), DownloadState::NotFetched);
    assert_eq!(source.download(&beta, DownloadEvent::Requested).action, DownloadAction::Fetch);
    assert_eq!(source.state_of(&alpha()), DownloadState::Extracting);
    let newer = PackageId::new("alpha".to_string(), "1.3.0".to_string(), registry());
    assert_eq!(source.download(&newer, DownloadEvent::Requested).action, DownloadAction::Fetch);
    source.download(
        &beta,
        DownloadEvent::FetchFailed { error: failure(ErrorKind::Network, "timeout") },
    );
    assert_eq!(source.state_of(&alpha()), DownloadState::Extracting);
    assert_eq!(source.state_of(&newer), DownloadState::Fetching);
    assert_eq!(source.download(&alpha(), DownloadEvent::Unpacked), load(true));
}

#[test]
fn stamping_keeps_the_rest_of_the_manifest() {
    let source = source_at(DownloadState::Extracted);
    let mut loaded = manifest();
    loaded.publish = false;
    loaded.summary.no_core = true;
    loaded.summary.checksum = Some(Checksum::new("stale".to_string()));
    let (_, package) = source.load_package(&alpha(), "/x/Scarb.toml".to_string(), loaded);
    let package = package.unwrap();
    assert_eq!(package.manifest.summary.checksum, Some(Checksum::new("abc123".to_string())));
    assert!(package.manifest.summary.no_core);
    assert!(!package.is_publishable());
    assert_eq!(package.manifest.targets, vec![Target::new(TargetKind::lib(), "alpha".to_string())]);
}
