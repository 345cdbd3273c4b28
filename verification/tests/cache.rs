use scarb_registry::errors::ErrorKind;
use scarb_registry::model::checksum::Checksum;
use scarb_registry::model::dependency::ManifestDependency;
use scarb_registry::model::index::IndexRecord;
use scarb_registry::model::package_id::PackageId;
use scarb_registry::model::source_id::SourceId;
use scarb_registry::model::version_req::DependencyVersionReq;
use scarb_registry::registry::cache::{ArchiveHandle, DownloadDecision, RegistryClientCache};

fn id(name: &str, version: &str) -> PackageId {
    PackageId::new(
        name.to_string(),
        version.to_string(),
        SourceId::for_registry("https://registry.example.com/".to_string()),
    )
}

fn dependency(name: &str, req: &str) -> ManifestDependency {
    ManifestDependency::new(
        name.to_string(),
        DependencyVersionReq::from(req.to_string()),
        SourceId::for_registry("https://registry.example.com/".to_string()),
    )
}

fn checksum(text: &str) -> Checksum {
    Checksum::new(text.to_string())
}

fn archive(path: &str) -> ArchiveHandle {
    ArchiveHandle::new(path.to_string())
}

#[test]
fn first_caller_fetches_and_the_others_wait() {
    let mut cache = RegistryClientCache::new();
    let alpha = id("alpha", "1.2.0");
    assert!(!cache.is_in_flight(&alpha));
    assert_eq!(cache.download_and_verify_with_cache(&alpha), DownloadDecision::Fetch);
    assert!(cache.is_in_flight(&alpha));
    assert_eq!(cache.download_and_verify_with_cache(&alpha), DownloadDecision::Wait);
    assert_eq!(cache.download_and_verify_with_cache(&alpha), DownloadDecision::Wait);
    assert_eq!(cache.verified(&alpha), None);
}

#[test]
fn packages_do_not_wait_for_each_other() {
    let mut cache = RegistryClientCache::new();
    assert_eq!(cache.download_and_verify_with_cache(&id("alpha", "1.2.0")), DownloadDecision::Fetch);
    assert_eq!(cache.download_and_verify_with_cache(&id("alpha", "1.3.0")), DownloadDecision::Fetch);
    assert_eq!(cache.download_and_verify_with_cache(&id("beta", "1.2.0")), DownloadDecision::Fetch);
}

#[test]
fn verified_archive_is_handed_to_every_later_caller() {
    let mut cache = RegistryClientCache::new();
    let alpha = id("alpha", "1.2.0");
    cache.download_and_verify_with_cache(&alpha);
    let verdict = cache.verify_download(
        &alpha,
        archive("/dl/alpha-1.2.0.tar.zst"),
        &checksum("abc123"),
        checksum("abc123"),
    );
    assert_eq!(verdict, Ok((archive("/dl/alpha-1.2.0.tar.zst"), checksum("abc123"))));
    assert!(!cache.is_in_flight(&alpha));
    for _ in 0..3 {
        assert_eq!(
            cache.download_and_verify_with_cache(&alpha),
            DownloadDecision::Hit {
                archive: archive("/dl/alpha-1.2.0.tar.zst"),
                checksum: checksum("abc123")
            }
        );
    }
    assert_eq!(
        cache.verified(&alpha),
        Some((archive("/dl/alpha-1.2.0.tar.zst"), checksum("abc123")))
    );
}

#[test]
fn wrong_hash_is_an_integrity_error_and_leaves_no_trace() {
    let mut cache = RegistryClientCache::new();
    let alpha = id("alpha", "1.2.0");
    cache.download_and_verify_with_cache(&alpha);
    let error = cache
        .verify_download(
            &alpha,
            archive("/dl/alpha-1.2.0.tar.zst"),
            &checksum("000000"),
            checksum("abc123"),
        )
        .unwrap_err();
    assert_eq!(error.kind, ErrorKind::Integrity);
    assert_eq!(error.message, "failed to verify the checksum of downloaded archive");
    assert_eq!(cache.verified(&alpha), None);
    assert!(!cache.is_in_flight(&alpha));
    assert_eq!(cache.download_and_verify_with_cache(&alpha), DownloadDecision::Fetch);
}

#[test]
fn late_archive_does_not_replace_a_verified_one() {
    let mut cache = RegistryClientCache::new();
    let alpha = id("alpha", "1.2.0");
    cache.download_and_verify_with_cache(&alpha);
    cache
        .verify_download(&alpha, archive("/dl/first"), &checksum("abc123"), checksum("abc123"))
        .unwrap();
    let verdict =
        cache.verify_download(&alpha, archive("/dl/second"), &checksum("000000"), checksum("fff"));
    assert_eq!(verdict, Ok((archive("/dl/first"), checksum("abc123"))));
    assert_eq!(cache.verified(&alpha), Some((archive("/dl/first"), checksum("abc123"))));
}

#[test]
fn abandoned_fetch_may_be_tried_again() {
    let mut cache = RegistryClientCache::new();
    let alpha = id("alpha", "1.2.0");
    cache.download_and_verify_with_cache(&alpha);
    cache.abandon_download(&alpha);
    assert!(!cache.is_in_flight(&alpha));
    assert_eq!(cache.download_and_verify_with_cache(&alpha), DownloadDecision::Fetch);
}

#[test]
fn abandon_keeps_a_verified_archive() {
    let mut cache = RegistryClientCache::new();
    let alpha = id("alpha", "1.2.0");
    cache.download_and_verify_with_cache(&alpha);
    cache
        .verify_download(&alpha, archive("/dl/first"), &checksum("abc123"), checksum("abc123"))
        .unwrap();
    cache.abandon_download(&alpha);
    assert_eq!(cache.verified(&alpha), Some((archive("/dl/first"), checksum("abc123"))));
    cache.abandon_download(&id("beta", "1.0.0"));
}

#[test]
fn records_are_cached_by_name_and_the_first_list_stays() {
    let mut cache = RegistryClientCache::new();
    let alpha = dependency("alpha", "^1.0.0");
    assert_eq!(cache.get_records_with_cache(&alpha), None);
    let first = vec![IndexRecord::new("1.0.0".to_string(), vec![], checksum("a"))];
    let second = vec![IndexRecord::new("2.0.0".to_string(), vec![], checksum("b"))];
    cache.store_records("alpha".to_string(), first.clone());
    assert_eq!(cache.get_records_with_cache(&alpha), Some(&first));
    cache.store_records("alpha".to_string(), second.clone());
    assert_eq!(cache.get_records_with_cache(&alpha), Some(&first));
    assert_eq!(cache.get_records_with_cache(&dependency("alpha", "^2.0.0")), Some(&first));
    assert_eq!(cache.get_records_with_cache(&dependency("beta", "^1.0.0")), None);
    cache.store_records("beta".to_string(), second.clone());
    assert_eq!(cache.get_records_with_cache(&dependency("beta", "^1.0.0")), Some(&second));
    cache.store_records("gamma".to_string(), vec![]);
    assert_eq!(cache.get_records_with_cache(&dependency("gamma", "*")), Some(&vec![]));
}
