use vstd::prelude::*;

verus! {

/// The path without its last component, if it has one to lose.
///
/// `camino::Utf8Path::parent` decides it. What counts as a component is for
/// the operating system to say, so nothing is claimed of the result.
#[verifier::external_body]
pub(crate) fn path_parent(path: &str) -> (parent: Option<String>) {
    match camino::Utf8Path::new(path).parent() {
        Some(parent) => Some(parent.as_str().to_string()),
        None => None,
    }
}

/// `base` with `path` joined to it.
///
/// `camino::Utf8Path::join` decides it: an absolute `path` replaces `base`, and
/// what is absolute and which separator joins the two is for the operating
/// system to say, so nothing is claimed of the result.
#[verifier::external_body]
pub(crate) fn path_join(base: &str, path: &str) -> (joined: String) {
    camino::Utf8Path::new(base).join(path).into_string()
}

} // verus!
