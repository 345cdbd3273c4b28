use scarb_registry::collections::id_set::PackageIdSet;
use scarb_registry::collections::vec_map::VecMap;
use scarb_registry::errors::{ErrorKind, SourceError};
use scarb_registry::model::checksum::Checksum;
use scarb_registry::model::dependency::ManifestDependency;
use scarb_registry::model::package_id::PackageId;
use scarb_registry::model::source_id::{SourceId, SourceKind};
use scarb_registry::model::summary::Summary;
use scarb_registry::model::version_req::DependencyVersionReq;

fn registry() -> SourceId {
    SourceId::for_registry("https://registry.example.com/".to_string())
}

fn id(name: &str, version: &str) -> PackageId {
    PackageId::new(name.to_string(), version.to_string(), registry())
}

#[test]
fn source_ids_are_equal_by_kind_and_url() {
    let a = registry();
    assert!(a.same(&registry()));
    assert!(a.is_registry());
    assert_eq!(a.kind, SourceKind::Registry);
    let path = SourceId::for_path("https://registry.example.com/".to_string());
    assert!(!a.same(&path));
    assert!(!path.is_registry());
    assert!(!a.same(&SourceId::for_registry("https://registry.example.com".to_string())));
    assert_eq!(a.clone(), a);
}

#[test]
fn source_id_text_is_kind_plus_url() {
    assert_eq!(registry().to_string(), "registry+https://registry.example.com/");
    assert_eq!(SourceId::for_path("file:///work".to_string()).to_string(), "path+file:///work");
    assert_eq!(SourceKind::Git.name(), "git");
}

#[test]
fn package_ids_are_equal_by_name_version_and_source() {
    let a = id("alpha", "1.2.0");
    assert!(a.same(&id("alpha", "1.2.0")));
    assert!(!a.same(&id("alpha", "1.2.1")));
    assert!(!a.same(&id("beta", "1.2.0")));
    let elsewhere = PackageId::new(
        "alpha".to_string(),
        "1.2.0".to_string(),
        SourceId::for_registry("https://other.example.com/".to_string()),
    );
    assert!(!a.same(&elsewhere));
    assert_eq!(a.clone(), a);
    assert_eq!(a.to_string(), "alpha@1.2.0");
}

#[test]
fn checksums_compare_as_text() {
    let a = Checksum::new("abc123".to_string());
    assert!(a.same(&Checksum::new("abc123".to_string())));
    assert!(!a.same(&Checksum::new("ABC123".to_string())));
    assert_eq!(a.to_string(), "abc123");
    assert_eq!(a.clone(), a);
}

#[test]
fn context_goes_in_front_of_the_message() {
    let error = SourceError::new(ErrorKind::Io, "disk full".to_string());
    let outer = error.clone().context("failed to extract: alpha@1.2.0");
    assert_eq!(outer.kind, ErrorKind::Io);
    assert_eq!(outer.message, "failed to extract: alpha@1.2.0: disk full");
    let outermost = outer.context("failed to build");
    assert_eq!(outermost.to_string(), "failed to build: failed to extract: alpha@1.2.0: disk full");
    assert_eq!(error.context("").message, ": disk full");
}

#[test]
fn every_error_kind_can_be_told_apart() {
    let kinds = [
        ErrorKind::Configuration,
        ErrorKind::Network,
        ErrorKind::Io,
        ErrorKind::Integrity,
        ErrorKind::NotFound,
        ErrorKind::Manifest,
        ErrorKind::Lock,
    ];
    for (i, a) in kinds.iter().enumerate() {
        for (j, b) in kinds.iter().enumerate() {
            assert_eq!(a == b, i == j);
        }
    }
}

#[test]
fn requirement_text() {
    assert_eq!(DependencyVersionReq::Any.to_string(), "*");
    assert_eq!(DependencyVersionReq::from("^1.0.0".to_string()).to_string(), "^1.0.0");
    let dependency = ManifestDependency::new(
        "alpha".to_string(),
        DependencyVersionReq::from("~1.2".to_string()),
        registry(),
    );
    assert_eq!(dependency.to_string(), "alpha ~1.2");
    assert!(dependency.version_req.matches("1.2.7"));
    assert!(!dependency.version_req.matches("1.3.0"));
    assert_eq!(dependency.clone(), dependency);
    let any = ManifestDependency::new("alpha".to_string(), DependencyVersionReq::Any, registry());
    assert_eq!(any.to_string(), "alpha *");
}

#[test]
fn summary_checksum_can_be_set() {
    let mut summary = Summary::new(id("alpha", "1.2.0"), vec![], None, true);
    summary.set_checksum(Checksum::new("abc123".to_string()));
    assert_eq!(
        summary,
        Summary::new(
            id("alpha", "1.2.0"),
            vec![],
            Some(Checksum::new("abc123".to_string())),
            true
        )
    );
    assert_eq!(summary.clone(), summary);
}

#[test]
fn id_set_holds_each_id_once() {
    let mut set = PackageIdSet::new();
    assert!(!set.contains(&id("alpha", "1.2.0")));
    assert!(set.insert(id("alpha", "1.2.0")));
    assert!(!set.insert(id("alpha", "1.2.0")));
    assert!(set.insert(id("alpha", "1.3.0")));
    assert!(set.contains(&id("alpha", "1.2.0")));
    assert!(set.contains(&id("alpha", "1.3.0")));
    assert!(!set.contains(&id("beta", "1.2.0")));
    let copy = set.clone();
    set.remove(&id("alpha", "1.2.0"));
    assert!(!set.contains(&id("alpha", "1.2.0")));
    assert!(set.contains(&id("alpha", "1.3.0")));
    assert!(copy.contains(&id("alpha", "1.2.0")));
    set.remove(&id("gamma", "0.0.1"));
    assert!(set.contains(&id("alpha", "1.3.0")));
}

#[test]
fn vec_map_is_a_map() {
    let mut map: VecMap<String, u32> = VecMap::new();
    assert_eq!(map.get(&"a".to_string()), None);
    map.insert("a".to_string(), 1);
    map.insert("b".to_string(), 2);
    map.insert("c".to_string(), 3);
    map.insert("b".to_string(), 20);
    assert_eq!(map.get(&"a".to_string()), Some(&1));
    assert_eq!(map.get(&"b".to_string()), Some(&20));
    assert_eq!(map.get(&"c".to_string()), Some(&3));
    assert!(map.contains_key(&"c".to_string()));
    map.remove(&"a".to_string());
    assert_eq!(map.get(&"a".to_string()), None);
    assert_eq!(map.get(&"b".to_string()), Some(&20));
    assert_eq!(map.get(&"c".to_string()), Some(&3));
    map.remove(&"zzz".to_string());
    map.remove(&"c".to_string());
    assert!(!map.contains_key(&"c".to_string()));
    assert_eq!(map.get(&"b".to_string()), Some(&20));
}
