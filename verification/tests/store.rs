use scarb_registry::model::package_id::PackageId;
use scarb_registry::model::source_id::SourceId;
use scarb_registry::registry::fingerprint::{fingerprint, hash_bytes, hex};
use scarb_registry::registry::package_source_store::{ExtractDecision, PackageSourceStore, SlotState};

const ROOT: &str = "/cache/registry/src/4eb14d9da99c35c1";

fn registry() -> SourceId {
    SourceId::for_registry("https://registry.example.com/".to_string())
}

fn id(name: &str, version: &str) -> PackageId {
    PackageId::new(name.to_string(), version.to_string(), registry())
}

fn store() -> PackageSourceStore {
    PackageSourceStore::new(&registry(), "/cache")
}

#[test]
fn hash_is_fnv1a() {
    assert_eq!(hash_bytes(b""), 0xcbf29ce484222325);
    assert_eq!(hash_bytes(b"a"), 0xaf63dc4c8601ec8c);
    assert_eq!(hash_bytes(b"foobar"), 0x85944171f73967e8);
}

#[test]
fn hex_has_sixteen_digits() {
    assert_eq!(hex(0), "0000000000000000");
    assert_eq!(hex(0xcbf29ce484222325), "cbf29ce484222325");
    assert_eq!(hex(u64::MAX), "ffffffffffffffff");
    assert_eq!(hex(0x0123456789abcdef), "0123456789abcdef");
    assert_eq!(hex(0xf), "000000000000000f");
}

#[test]
fn fingerprint_is_the_hash_of_the_source_text() {
    assert_eq!(fingerprint(&registry()), "4eb14d9da99c35c1");
    assert_eq!(
        fingerprint(&SourceId::for_registry("file:///srv/registry".to_string())),
        "e1331ade31df640d"
    );
    assert_ne!(
        fingerprint(&SourceId::for_path("https://registry.example.com/".to_string())),
        fingerprint(&registry())
    );
}

#[test]
fn slot_is_namespaced_by_source_name_and_version() {
    let store = store();
    assert_eq!(store.slot_path(&id("alpha", "1.2.0")), format!("{ROOT}/alpha-1.2.0"));
    assert_eq!(store.lock_path(&id("alpha", "1.2.0")), format!("{ROOT}/.locks/alpha-1.2.0"));
    assert_eq!(store.staging_path(&id("alpha", "1.2.0")), format!("{ROOT}/.tmp/alpha-1.2.0"));
    assert_eq!(store.slot_path(&id("beta", "0.1.0-rc.1")), format!("{ROOT}/beta-0.1.0-rc.1"));
    let other = PackageSourceStore::new(
        &SourceId::for_registry("file:///srv/registry".to_string()),
        "/var/cache",
    );
    assert_eq!(
        other.slot_path(&id("alpha", "1.2.0")),
        "/var/cache/registry/src/e1331ade31df640d/alpha-1.2.0"
    );
}

#[test]
fn empty_slot_is_unpacked_by_one_caller() {
    let mut store = store();
    let alpha = id("alpha", "1.2.0");
    assert_eq!(store.slot_state(&alpha), None);
    assert_eq!(
        store.extract(&alpha, false),
        ExtractDecision::Unpack {
            staging: format!("{ROOT}/.tmp/alpha-1.2.0"),
            slot: format!("{ROOT}/alpha-1.2.0"),
        }
    );
    assert_eq!(store.slot_state(&alpha), Some(SlotState::Extracting));
    assert_eq!(store.extract(&alpha, false), ExtractDecision::Wait);
    assert_eq!(store.extract(&alpha, true), ExtractDecision::Wait);
    assert_eq!(store.finish_extract(&alpha), format!("{ROOT}/alpha-1.2.0"));
    assert_eq!(store.slot_state(&alpha), Some(SlotState::Extracted));
}

#[test]
fn extracting_twice_unpacks_once_and_yields_one_path() {
    let mut store = store();
    let alpha = id("alpha", "1.2.0");
    let first = match store.extract(&alpha, false) {
        ExtractDecision::Unpack { slot, .. } => slot,
        other => panic!("an empty slot is unpacked, not {other:?}"),
    };
    store.finish_extract(&alpha);
    for present in [false, true] {
        assert_eq!(store.extract(&alpha, present), ExtractDecision::Ready { path: first.clone() });
    }
    assert_eq!(first, format!("{ROOT}/alpha-1.2.0"));
}

#[test]
fn slot_that_exists_is_not_filled_again() {
    let mut store = store();
    let alpha = id("alpha", "1.2.0");
    assert_eq!(
        store.extract(&alpha, true),
        ExtractDecision::Ready { path: format!("{ROOT}/alpha-1.2.0") }
    );
    assert_eq!(store.slot_state(&alpha), Some(SlotState::Extracted));
    assert_eq!(
        store.extract(&alpha, false),
        ExtractDecision::Ready { path: format!("{ROOT}/alpha-1.2.0") }
    );
}

#[test]
fn failed_extraction_may_be_tried_again() {
    let mut store = store();
    let alpha = id("alpha", "1.2.0");
    store.extract(&alpha, false);
    store.abandon_extract(&alpha);
    assert_eq!(store.slot_state(&alpha), None);
    assert!(matches!(store.extract(&alpha, false), ExtractDecision::Unpack { .. }));
}

#[test]
fn abandon_keeps_an_extracted_slot() {
    let mut store = store();
    let alpha = id("alpha", "1.2.0");
    store.extract(&alpha, true);
    store.abandon_extract(&alpha);
    assert_eq!(store.slot_state(&alpha), Some(SlotState::Extracted));
    store.abandon_extract(&id("beta", "1.0.0"));
    assert_eq!(store.slot_state(&id("beta", "1.0.0")), None);
}

#[test]
fn packages_share_no_path() {
    let store = store();
    let ids = [id("alpha", "1.2.0"), id("alpha", "1.2.1"), id("beta", "1.2.0"), id("locks", "1")];
    let mut paths = Vec::new();
    for id in &ids {
        paths.push(store.slot_path(id));
        paths.push(store.lock_path(id));
        paths.push(store.staging_path(id));
    }
    for (i, a) in paths.iter().enumerate() {
        for (j, b) in paths.iter().enumerate() {
            assert_eq!(a == b, i == j);
        }
    }
}

#[test]
fn slots_of_different_packages_are_independent() {
    let mut store = store();
    assert!(matches!(store.extract(&id("alpha", "1.2.0"), false), ExtractDecision::Unpack { .. }));
    assert!(matches!(store.extract(&id("alpha", "1.3.0"), false), ExtractDecision::Unpack { .. }));
    assert!(matches!(store.extract(&id("beta", "1.2.0"), true), ExtractDecision::Ready { .. }));
}
