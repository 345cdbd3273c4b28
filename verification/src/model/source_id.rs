use vstd::prelude::*;
use vstd::string::StringExecFns;

verus! {

/// Where packages of a source come from.
#[derive(Clone, Copy, Debug, PartialEq, Eq, Structural, Hash)]
pub enum SourceKind {
    /// A registry of published versions, reached through its index.
    Registry,
    /// A directory on the local file system.
    Path,
    /// A git repository.
    Git,
}

impl SourceKind {
    /// The word that stands for the kind in the text of a source id.
    pub open spec fn word(self) -> Seq<char> {
        match self {
            SourceKind::Registry => "registry"@,
            SourceKind::Path => "path"@,
            SourceKind::Git => "git"@,
        }
    }

    /// The word that stands for the kind in the text of a source id.
    pub fn name(&self) -> (word: &'static str)
        ensures
            word@ == self.word(),
    {
        match self {
            SourceKind::Registry => "registry",
            SourceKind::Path => "path",
            SourceKind::Git => "git",
        }
    }
}

/// The origin of packages: a source kind and the URL of the source.
///
/// Two source ids are the same source exactly when kind and URL agree.
#[derive(Debug, PartialEq, Eq, Hash)]
pub struct SourceId {
    pub kind: SourceKind,
    pub url: String,
}

/// A source id as a mathematical value.
pub struct SourceIdView {
    pub kind: SourceKind,
    pub url: Seq<char>,
}

impl View for SourceId {
    type V = SourceIdView;

    open spec fn view(&self) -> SourceIdView {
        SourceIdView { kind: self.kind, url: self.url@ }
    }
}

impl DeepView for SourceId {
    type V = SourceIdView;

    open spec fn deep_view(&self) -> SourceIdView {
        self@
    }
}

impl Clone for SourceId {
    fn clone(&self) -> (copy: Self)
        ensures
            copy@ == self@,
    {
        SourceId { kind: self.kind, url: self.url.clone() }
    }
}

impl SourceIdView {
    /// The source as it is shown to people: kind, `+`, URL.
    pub open spec fn text(self) -> Seq<char> {
        self.kind.word() + "+"@ + self.url
    }
}

impl SourceId {
    /// The source as it is shown to people, such as
    /// `registry+https://example.com/`.
    pub fn to_string(&self) -> (text: String)
        ensures
            text@ == self@.text(),
    {
        let mut text = String::from_str(self.kind.name());
        text.append("+");
        text.append(self.url.as_str());
        text
    }

    /// A registry source at `url`.
    pub fn for_registry(url: String) -> (id: Self)
        ensures
            id@ == (SourceIdView { kind: SourceKind::Registry, url: url@ }),
    {
        SourceId { kind: SourceKind::Registry, url }
    }

    /// A path source at `url`.
    pub fn for_path(url: String) -> (id: Self)
        ensures
            id@ == (SourceIdView { kind: SourceKind::Path, url: url@ }),
    {
        SourceId { kind: SourceKind::Path, url }
    }

    /// Whether packages of this source come from a registry.
    pub fn is_registry(&self) -> (yes: bool)
        ensures
            yes == (self.kind == SourceKind::Registry),
    {
        self.kind == SourceKind::Registry
    }

    /// Whether `self` and `other` name the same source.
    pub fn same(&self, other: &SourceId) -> (yes: bool)
        ensures
            yes == (self@ == other@),
    {
        self.kind == other.kind && self.url == other.url
    }
}

} // verus!
