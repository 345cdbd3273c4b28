use std::sync::Arc;
use vstd::prelude::*;
use vstd::string::StringExecFns;

use crate::errors::{ErrorKind, SourceError, SourceErrorView};
use crate::model::package_id::{PackageId, PackageIdView};
use crate::package::manifest::{
    cairo_plugin_kind, lib_kind, Manifest, ManifestView, Target, TargetKind,
};
use crate::package::paths::{path_join, path_parent};

verus! {

/// What a package is, going by its targets.
#[derive(Copy, Clone, Debug, Eq, PartialEq, Structural, Ord, PartialOrd, Hash)]
pub enum PackageClass {
    Library,
    CairoPlugin,
    Other,
}

/// What a [`Package`] holds.
#[derive(Debug)]
#[non_exhaustive]
pub struct PackageInner {
    pub id: PackageId,
    pub manifest: Box<Manifest>,
    manifest_path: String,
    root: Option<String>,
}

/// A loaded package: its id, its manifest, the place of the manifest on disk,
/// and the directory that holds the package. The handle is shared: a copy of it
/// is the same package, and the package lives as long as its last holder.
#[derive(Debug)]
pub struct Package(Arc<PackageInner>);

/// A package as a mathematical value.
pub struct PackageView {
    pub id: PackageIdView,
    pub manifest: ManifestView,
    pub manifest_path: Seq<char>,
    /// The directory that holds the package, if the path of the manifest has a
    /// parent.
    pub root: Option<Seq<char>>,
}

impl View for PackageInner {
    type V = PackageView;

    closed spec fn view(&self) -> PackageView {
        PackageView {
            id: self.id@,
            manifest: self.manifest@,
            manifest_path: self.manifest_path@,
            root: self.root.deep_view(),
        }
    }
}

impl View for Package {
    type V = PackageView;

    closed spec fn view(&self) -> PackageView {
        self.0@
    }
}

/// A second handle on the package behind `handle`.
///
/// `Arc::clone` makes another pointer to the same allocation, so the copy holds
/// the value that the handle holds.
#[verifier::external_body]
fn share(handle: &Arc<PackageInner>) -> (copy: Arc<PackageInner>)
    ensures
        copy == *handle,
{
    Arc::clone(handle)
}

impl std::ops::Deref for Package {
    type Target = PackageInner;

    fn deref(&self) -> (inner: &PackageInner)
        ensures
            inner@ == self@,
    {
        &self.0
    }
}

impl Clone for Package {
    fn clone(&self) -> (copy: Self)
        ensures
            copy == *self,
    {
        Package(share(&self.0))
    }
}

impl ManifestView {
    /// Whether the manifest has a target of kind `kind`.
    pub open spec fn has_target(self, kind: Seq<char>) -> bool {
        exists|i: int| 0 <= i < self.targets.len() && (#[trigger] self.targets[i]).kind == kind
    }

    /// Whether `i` is the place of the first target of kind `kind`.
    pub open spec fn first_target_at(self, kind: Seq<char>, i: int) -> bool {
        &&& 0 <= i < self.targets.len()
        &&& self.targets[i].kind == kind
        &&& forall|j: int| 0 <= j < i ==> (#[trigger] self.targets[j]).kind != kind
    }

    /// What a package with this manifest is: a compiler plugin if it has such a
    /// target, else a library if it has a library target, else neither.
    pub open spec fn class(self) -> PackageClass {
        if self.has_target(cairo_plugin_kind()) {
            PackageClass::CairoPlugin
        } else if self.has_target(lib_kind()) {
            PackageClass::Library
        } else {
            PackageClass::Other
        }
    }

    /// Whether the manifest has a section of the tool `name`.
    pub open spec fn has_tool(self, name: Seq<char>) -> bool {
        self.tool_metadata matches Some(tools) && tools.contains_key(name)
    }

    /// How many files the manifest asks to pack beside the sources.
    pub open spec fn included_len(self) -> nat {
        match self.included {
            Some(paths) => paths.len(),
            None => 0,
        }
    }
}

impl PackageView {
    /// The message of the failure to find a target of kind `kind`.
    pub open spec fn no_target(self, kind: Seq<char>) -> Seq<char> {
        "package `"@ + self.id.text() + "` has no target `"@ + kind + "`"@
    }

    /// The message of the failure to find the section of the tool `name`.
    pub open spec fn no_tool(self, name: Seq<char>) -> Seq<char> {
        "package manifest `"@ + self.id.text() + "` has no [tool."@ + name + "] section"@
    }
}

impl Package {
    /// The package `id` with the manifest `manifest`, which was read from the
    /// file at `manifest_path`. Its root is the parent of that path, as the
    /// operating system reads paths.
    pub fn new(id: PackageId, manifest_path: String, manifest: Box<Manifest>) -> (package: Self)
        ensures
            package@ == (PackageView {
                id: id@,
                manifest: manifest@,
                manifest_path: manifest_path@,
                root: package@.root,
            }),
    {
        let root = path_parent(manifest_path.as_str());
        Package(Arc::new(PackageInner { id, manifest_path, manifest, root }))
    }

    /// The id of the package.
    pub fn id(&self) -> (id: &PackageId)
        ensures
            id@ == self@.id,
    {
        &self.0.id
    }

    /// The manifest of the package.
    pub fn manifest(&self) -> (manifest: &Manifest)
        ensures
            manifest@ == self@.manifest,
    {
        &self.0.manifest
    }

    /// The directory that holds the package: the one that holds its manifest.
    /// There is none where the path of the manifest has no parent.
    pub fn root(&self) -> (root: Option<&str>)
        ensures
            root.deep_view() == self@.root,
    {
        match &self.0.root {
            Some(root) => Some(root.as_str()),
            None => None,
        }
    }

    /// The path of the manifest of the package.
    pub fn manifest_path(&self) -> (path: &str)
        ensures
            path@ == self@.manifest_path,
    {
        self.0.manifest_path.as_str()
    }

    /// Whether the package has a target of kind `kind`.
    fn has_target(&self, kind: &TargetKind) -> (yes: bool)
        ensures
            yes == self@.manifest.has_target(kind@),
    {
        self.target(kind).is_some()
    }

    /// Whether the package has a library target.
    pub fn is_lib(&self) -> (yes: bool)
        ensures
            yes == self@.manifest.has_target(lib_kind()),
    {
        self.has_target(&TargetKind::lib())
    }

    /// Whether the package has a compiler plugin target.
    pub fn is_cairo_plugin(&self) -> (yes: bool)
        ensures
            yes == self@.manifest.has_target(cairo_plugin_kind()),
    {
        self.has_target(&TargetKind::cairo_plugin())
    }

    /// Whether the package may be published.
    pub fn is_publishable(&self) -> (yes: bool)
        ensures
            yes == self@.manifest.publish,
    {
        self.0.manifest.publish
    }

    /// What the package is, going by its targets.
    pub fn classify(&self) -> (class: PackageClass)
        ensures
            class == self@.manifest.class(),
    {
        if self.is_cairo_plugin() {
            PackageClass::CairoPlugin
        } else if self.is_lib() {
            PackageClass::Library
        } else {
            PackageClass::Other
        }
    }

    /// The first target of kind `kind`, if the package has one.
    pub fn target(&self, kind: &TargetKind) -> (found: Option<&Target>)
        ensures
            (match found {
                Some(target) => exists|i: int|
                    self@.manifest.first_target_at(kind@, i) && target@
                        == #[trigger] self@.manifest.targets[i],
                None => !self@.manifest.has_target(kind@),
            }),
    {
        let targets = &self.0.manifest.targets;
        let mut i: usize = 0;
        while i < targets.len()
            invariant
                i <= targets.len(),
                targets.deep_view() == self@.manifest.targets,
                forall|j: int| 0 <= j < i ==> (#[trigger] self@.manifest.targets[j]).kind != kind@,
            decreases targets.len() - i,
        {
            if targets[i].kind.same(kind) {
                assert(self@.manifest.first_target_at(kind@, i as int));
                assert(targets[i as int]@ == self@.manifest.targets[i as int]);
                return Some(&targets[i]);
            }
            i += 1;
        }
        None
    }

    /// The first target of kind `kind`, or the failure to find one.
    pub fn fetch_target(&self, kind: &TargetKind) -> (found: Result<&Target, SourceError>)
        ensures
            (match found {
                Ok(target) => exists|i: int|
                    self@.manifest.first_target_at(kind@, i) && target@
                        == #[trigger] self@.manifest.targets[i],
                Err(error) => !self@.manifest.has_target(kind@) && error@ == (SourceErrorView {
                    kind: ErrorKind::NotFound,
                    message: self@.no_target(kind@),
                }),
            }),
    {
        match self.target(kind) {
            Some(target) => Ok(target),
            None => {
                let mut message = String::from_str("package `");
                let id = self.0.id.to_string();
                message.append(id.as_str());
                message.append("` has no target `");
                message.append(kind.name.as_str());
                message.append("`");
                Err(SourceError::new(ErrorKind::NotFound, message))
            },
        }
    }

    /// Whether the manifest has a section of the tool `tool_name`.
    pub fn has_tool_metadata(&self, tool_name: &str) -> (yes: bool)
        ensures
            yes == self@.manifest.has_tool(tool_name@),
    {
        self.tool_metadata(tool_name).is_some()
    }

    /// The section of the tool `tool_name` in the manifest, if there is one.
    pub fn tool_metadata(&self, tool_name: &str) -> (found: Option<&toml::Value>)
        ensures
            (match found {
                Some(value) => self@.manifest.has_tool(tool_name@) && *value
                    == self@.manifest.tool_metadata->0[tool_name@],
                None => !self@.manifest.has_tool(tool_name@),
            }),
    {
        match &self.0.manifest.metadata.tool_metadata {
            Some(tools) => {
                let name = String::from_str(tool_name);
                tools.get(&name)
            },
            None => None,
        }
    }

    /// The section of the tool `tool_name` in the manifest, or the failure to
    /// find it.
    pub fn fetch_tool_metadata(&self, tool_name: &str) -> (found: Result<&toml::Value, SourceError>)
        ensures
            (match found {
                Ok(value) => self@.manifest.has_tool(tool_name@) && *value
                    == self@.manifest.tool_metadata->0[tool_name@],
                Err(error) => !self@.manifest.has_tool(tool_name@) && error@ == (SourceErrorView {
                    kind: ErrorKind::NotFound,
                    message: self@.no_tool(tool_name@),
                }),
            }),
    {
        match self.tool_metadata(tool_name) {
            Some(value) => Ok(value),
            None => {
                let mut message = String::from_str("package manifest `");
                let id = self.0.id.to_string();
                message.append(id.as_str());
                message.append("` has no [tool.");
                message.append(tool_name);
                message.append("] section");
                Err(SourceError::new(ErrorKind::NotFound, message))
            },
        }
    }

    /// The files that the manifest asks to pack beside the sources, each joined
    /// to the root of the package, in the order of the manifest. The list is
    /// empty where the manifest names none, and there is no list where files are
    /// named but the package has no root.
    pub fn included_paths(&self) -> (paths: Option<Vec<String>>)
        ensures
            paths is None <==> self@.root is None && self@.manifest.included_len() > 0,
            paths matches Some(joined) ==> joined.len() == self@.manifest.included_len(),
    {
        let mut joined: Vec<String> = Vec::new();
        match &self.0.manifest.metadata.included {
            None => Some(joined),
            Some(names) => {
                if names.len() == 0 {
                    return Some(joined);
                }
                match self.root() {
                    None => None,
                    Some(root) => {
                        let mut i: usize = 0;
                        while i < names.len()
                            invariant
                                i <= names.len(),
                                joined.len() == i,
                            decreases names.len() - i,
                        {
                            joined.push(path_join(root, names[i].as_str()));
                            i += 1;
                        }
                        Some(joined)
                    },
                }
            },
        }
    }

    /// The package as it is shown to people: its id.
    pub fn to_string(&self) -> (text: String)
        ensures
            text@ == self@.id.text(),
    {
        self.0.id.to_string()
    }
}

} // verus!
