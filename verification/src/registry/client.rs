use vstd::prelude::*;
use vstd::string::StringExecFns;

use crate::errors::{ErrorKind, SourceError, SourceErrorView};
use crate::model::source_id::{SourceId, SourceIdView};

verus! {

/// The scheme that the `url` crate reads in a URL, lower-cased and without the
/// colon, or nothing where it does not read the text as a URL.
pub uninterp spec fn url_scheme(url: Seq<char>) -> Option<Seq<char>>;

/// The scheme of a URL.
///
/// `url::Url::parse` reads the text and `url::Url::scheme` hands out the scheme
/// of what it read. Both look at the text only, so the result is a function of
/// the text; that is all the contract claims. Neither panics.
#[verifier::external_body]
fn scheme_of(url: &str) -> (scheme: Option<String>)
    ensures
        scheme.deep_view() == url_scheme(url@),
{
    match url::Url::parse(url) {
        Ok(parsed) => Some(parsed.scheme().to_string()),
        Err(_) => None,
    }
}

/// The path on this machine that a `file` URL names.
///
/// `url::Url::to_file_path` decides it, and decides differently from one
/// operating system to the next, so nothing is claimed of the result. There is
/// none where the text is no URL, where the URL names another host, or where the
/// path is not UTF-8.
#[verifier::external_body]
fn file_path_of(url: &str) -> (path: Option<String>) {
    let path = url::Url::parse(url).ok()?.to_file_path().ok()?;
    Some(path.to_str()?.to_string())
}

/// The client that talks to a registry.
#[derive(Debug, PartialEq, Eq)]
pub enum RegistryClientKind {
    /// The registry is a directory on this machine; the index is read from disk.
    Local { path: String },
    /// The registry is a server; records and archives come over the network.
    Http { url: String },
}

/// A client kind as a mathematical value.
pub enum RegistryClientKindView {
    Local { path: Seq<char> },
    Http { url: Seq<char> },
}

impl View for RegistryClientKind {
    type V = RegistryClientKindView;

    open spec fn view(&self) -> RegistryClientKindView {
        match self {
            RegistryClientKind::Local { path } => RegistryClientKindView::Local { path: path@ },
            RegistryClientKind::Http { url } => RegistryClientKindView::Http { url: url@ },
        }
    }
}

impl Clone for RegistryClientKind {
    fn clone(&self) -> (copy: Self)
        ensures
            copy@ == self@,
    {
        match self {
            RegistryClientKind::Local { path } => RegistryClientKind::Local { path: path.clone() },
            RegistryClientKind::Http { url } => RegistryClientKind::Http { url: url.clone() },
        }
    }
}

/// A choice of client, or the failure to make one, as a mathematical value.
pub open spec fn choice_view(choice: Result<RegistryClientKind, SourceError>) -> Result<
    RegistryClientKindView,
    SourceErrorView,
> {
    match choice {
        Ok(kind) => Ok(kind@),
        Err(error) => Err(error@),
    }
}

/// The failure that a URL without a usable scheme or path ends in.
pub open spec fn configuration_error(what: Seq<char>, subject: Seq<char>) -> SourceErrorView {
    SourceErrorView { kind: ErrorKind::Configuration, message: what + subject }
}

/// The client that the scheme of a source URL selects: `file` the local one, at
/// the path that the URL names; `http` and `https` the networked one; every
/// other scheme, and a text that is no URL, a configuration error.
pub open spec fn client_for(
    source: SourceIdView,
    scheme: Option<Seq<char>>,
    file_path: Option<Seq<char>>,
) -> Result<RegistryClientKindView, SourceErrorView> {
    match scheme {
        None => Err(configuration_error("url is not valid: "@, source.url)),
        Some(scheme) => if scheme == "file"@ {
            match file_path {
                Some(path) => Ok(RegistryClientKindView::Local { path }),
                None => Err(configuration_error("url is not a valid path: "@, source.url)),
            }
        } else if scheme == "http"@ || scheme == "https"@ {
            Ok(RegistryClientKindView::Http { url: source.url })
        } else {
            Err(configuration_error("unsupported registry protocol: "@, source.text()))
        },
    }
}

/// A source whose URL has a scheme other than `file`, `http` and `https` gets
/// no client but a configuration error, whatever else the URL says.
pub proof fn lemma_other_schemes_are_refused(
    source: SourceIdView,
    scheme: Seq<char>,
    file_path: Option<Seq<char>>,
)
    requires
        scheme != "file"@,
        scheme != "http"@,
        scheme != "https"@,
    ensures
        client_for(source, Some(scheme), file_path) is Err,
        client_for(source, Some(scheme), file_path)->Err_0.kind == ErrorKind::Configuration,
{
}

/// A configuration error whose message is `what` followed by `subject`.
fn misconfigured(what: &str, subject: &str) -> (error: SourceError)
    ensures
        error@ == configuration_error(what@, subject@),
{
    let mut message = String::from_str(what);
    message.append(subject);
    SourceError::new(ErrorKind::Configuration, message)
}

/// Chooses the client for `source_id` from the scheme of its URL and, for a
/// `file` URL, the path that it names.
pub fn select_client(
    source_id: &SourceId,
    scheme: Option<String>,
    file_path: Option<String>,
) -> (choice: Result<RegistryClientKind, SourceError>)
    ensures
        choice_view(choice) == client_for(source_id@, scheme.deep_view(), file_path.deep_view()),
{
    match scheme {
        None => Err(misconfigured("url is not valid: ", source_id.url.as_str())),
        Some(scheme) => {
            if scheme == String::from_str("file") {
                match file_path {
                    Some(path) => Ok(RegistryClientKind::Local { path }),
                    None => Err(
                        misconfigured("url is not a valid path: ", source_id.url.as_str()),
                    ),
                }
            } else if scheme == String::from_str("http") || scheme == String::from_str("https") {
                Ok(RegistryClientKind::Http { url: source_id.url.clone() })
            } else {
                let subject = source_id.to_string();
                Err(misconfigured("unsupported registry protocol: ", subject.as_str()))
            }
        },
    }
}

/// Chooses the client for `source_id`. The scheme of the URL decides; only for a
/// `file` URL the path is asked for, and whether the URL names one is for the
/// `url` crate to say.
pub fn choose_client(source_id: &SourceId) -> (choice: Result<RegistryClientKind, SourceError>)
    ensures
        exists|file_path: Option<Seq<char>>|
            choice_view(choice) == #[trigger] client_for(
                source_id@,
                url_scheme(source_id.url@),
                file_path,
            ),
        url_scheme(source_id.url@) != Some("file"@) ==> choice_view(choice) == client_for(
            source_id@,
            url_scheme(source_id.url@),
            None,
        ),
{
    let scheme = scheme_of(source_id.url.as_str());
    let is_file = match &scheme {
        Some(scheme) => *scheme == String::from_str("file"),
        None => false,
    };
    let file_path = if is_file {
        file_path_of(source_id.url.as_str())
    } else {
        None
    };
    select_client(source_id, scheme, file_path)
}

} // verus!
