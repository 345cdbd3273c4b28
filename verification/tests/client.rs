use scarb_registry::collections::id_set::PackageIdSet;
use scarb_registry::errors::ErrorKind;
use scarb_registry::model::source_id::SourceId;
use scarb_registry::registry::client::{choose_client, select_client, RegistryClientKind};
use scarb_registry::sources::registry::RegistrySource;

fn registry(url: &str) -> SourceId {
    SourceId::for_registry(url.to_string())
}

#[test]
fn file_url_selects_the_local_client() {
    let choice = RegistrySource::create_client(&registry("file:///srv/registry"));
    assert_eq!(choice, Ok(RegistryClientKind::Local { path: "/srv/registry".to_string() }));
}

#[test]
fn file_url_path_is_percent_decoded() {
    let choice = RegistrySource::create_client(&registry("file:///srv/my%20registry"));
    assert_eq!(choice, Ok(RegistryClientKind::Local { path: "/srv/my registry".to_string() }));
}

#[test]
fn http_and_https_select_the_networked_client() {
    assert_eq!(
        RegistrySource::create_client(&registry("http://registry.example.com/")),
        Ok(RegistryClientKind::Http { url: "http://registry.example.com/".to_string() })
    );
    assert_eq!(
        RegistrySource::create_client(&registry("https://registry.example.com/index")),
        Ok(RegistryClientKind::Http { url: "https://registry.example.com/index".to_string() })
    );
}

#[test]
fn scheme_is_read_as_the_url_crate_reads_it() {
    // The scheme of a URL is lower-cased, and it is the scheme, not the URL,
    // that is compared.
    assert_eq!(
        choose_client(&registry("HTTPS://registry.example.com/")),
        Ok(RegistryClientKind::Http { url: "HTTPS://registry.example.com/".to_string() })
    );
}

#[test]
fn ftp_is_a_configuration_error() {
    let error = RegistrySource::create_client(&registry("ftp://registry.example.com/")).unwrap_err();
    assert_eq!(error.kind, ErrorKind::Configuration);
    assert_eq!(
        error.message,
        "unsupported registry protocol: registry+ftp://registry.example.com/"
    );
}

#[test]
fn source_with_ftp_url_is_not_made() {
    let made = RegistrySource::new(
        registry("ftp://registry.example.com/"),
        "/cache",
        &PackageIdSet::new(),
    );
    let error = made.err().unwrap();
    assert_eq!(error.kind, ErrorKind::Configuration);
    assert_eq!(
        error.to_string(),
        "unsupported registry protocol: registry+ftp://registry.example.com/"
    );
}

#[test]
fn other_schemes_are_configuration_errors() {
    for url in ["ssh://git@example.com/repo", "data:text/plain,hello", "ws://example.com/"] {
        let error = RegistrySource::create_client(&registry(url)).unwrap_err();
        assert_eq!(error.kind, ErrorKind::Configuration);
        assert_eq!(error.message, format!("unsupported registry protocol: registry+{url}"));
    }
}

#[test]
fn text_that_is_no_url_is_a_configuration_error() {
    let error = RegistrySource::create_client(&registry("not a url")).unwrap_err();
    assert_eq!(error.kind, ErrorKind::Configuration);
    assert_eq!(error.message, "url is not valid: not a url");
}

#[test]
fn file_url_of_another_host_names_no_path() {
    let error = RegistrySource::create_client(&registry("file://remote.example.com/srv")).unwrap_err();
    assert_eq!(error.kind, ErrorKind::Configuration);
    assert_eq!(error.message, "url is not a valid path: file://remote.example.com/srv");
}

#[test]
fn select_client_goes_by_scheme_and_path() {
    let id = registry("file:///srv/registry");
    assert_eq!(
        select_client(&id, Some("file".to_string()), Some("/elsewhere".to_string())),
        Ok(RegistryClientKind::Local { path: "/elsewhere".to_string() })
    );
    let error = select_client(&id, Some("file".to_string()), None).unwrap_err();
    assert_eq!(error.kind, ErrorKind::Configuration);
    assert_eq!(error.message, "url is not a valid path: file:///srv/registry");
    assert_eq!(
        select_client(&id, Some("https".to_string()), Some("/ignored".to_string())),
        Ok(RegistryClientKind::Http { url: "file:///srv/registry".to_string() })
    );
    let error = select_client(&id, Some("FILE".to_string()), Some("/srv".to_string())).unwrap_err();
    assert_eq!(error.message, "unsupported registry protocol: registry+file:///srv/registry");
    let error = select_client(&id, None, Some("/srv".to_string())).unwrap_err();
    assert_eq!(error.message, "url is not valid: file:///srv/registry");
}

#[test]
fn source_remembers_its_client() {
    let source = RegistrySource::new(
        registry("file:///srv/registry"),
        "/cache",
        &PackageIdSet::new(),
    )
    .unwrap();
    assert_eq!(
        source.client_kind(),
        &RegistryClientKind::Local { path: "/srv/registry".to_string() }
    );
    assert_eq!(source.source_id(), &registry("file:///srv/registry"));
}
