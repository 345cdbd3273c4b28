use vstd::prelude::*;
use vstd::string::StringExecFns;

use crate::collections::vec_map::VecMap;
use crate::model::checksum::Checksum;
use crate::model::summary::{Summary, SummaryView};

verus! {

/// A TOML value, as the `toml` crate holds it. The library hands such values
/// on and never looks inside.
#[verifier::external_type_specification]
#[verifier::external_body]
pub struct ExTomlValue(toml::Value);

/// What a target is built into, by its name in the manifest.
#[derive(Debug, PartialEq, Eq, Hash)]
pub struct TargetKind {
    pub name: String,
}

impl View for TargetKind {
    type V = Seq<char>;

    open spec fn view(&self) -> Seq<char> {
        self.name@
    }
}

impl DeepView for TargetKind {
    type V = Seq<char>;

    open spec fn deep_view(&self) -> Seq<char> {
        self.name@
    }
}

impl Clone for TargetKind {
    fn clone(&self) -> (copy: Self)
        ensures
            copy@ == self@,
    {
        TargetKind { name: self.name.clone() }
    }
}

/// The name of the kind of a library target.
pub open spec fn lib_kind() -> Seq<char> {
    "lib"@
}

/// The name of the kind of a compiler plugin target.
pub open spec fn cairo_plugin_kind() -> Seq<char> {
    "cairo-plugin"@
}

impl TargetKind {
    /// The kind that `name` names.
    pub fn new(name: String) -> (kind: Self)
        ensures
            kind@ == name@,
    {
        TargetKind { name }
    }

    /// The kind of a library target.
    pub fn lib() -> (kind: Self)
        ensures
            kind@ == lib_kind(),
    {
        TargetKind { name: String::from_str("lib") }
    }

    /// The kind of a compiler plugin target.
    pub fn cairo_plugin() -> (kind: Self)
        ensures
            kind@ == cairo_plugin_kind(),
    {
        TargetKind { name: String::from_str("cairo-plugin") }
    }

    /// Whether `self` and `other` are the same kind.
    pub fn same(&self, other: &TargetKind) -> (yes: bool)
        ensures
            yes == (self@ == other@),
    {
        self.name == other.name
    }

    /// The name of the kind.
    pub fn to_string(&self) -> (text: String)
        ensures
            text@ == self@,
    {
        self.name.clone()
    }
}

/// Something that a package is built into.
#[derive(Debug, PartialEq, Eq, Hash)]
pub struct Target {
    pub kind: TargetKind,
    pub name: String,
}

/// A target as a mathematical value.
pub struct TargetView {
    pub kind: Seq<char>,
    pub name: Seq<char>,
}

impl View for Target {
    type V = TargetView;

    open spec fn view(&self) -> TargetView {
        TargetView { kind: self.kind@, name: self.name@ }
    }
}

impl DeepView for Target {
    type V = TargetView;

    open spec fn deep_view(&self) -> TargetView {
        self@
    }
}

impl Target {
    /// The target `name` of kind `kind`.
    pub fn new(kind: TargetKind, name: String) -> (target: Self)
        ensures
            target@ == (TargetView { kind: kind@, name: name@ }),
    {
        Target { kind, name }
    }

    /// Whether the target is a library.
    pub fn is_lib(&self) -> (yes: bool)
        ensures
            yes == (self@.kind == lib_kind()),
    {
        self.kind.same(&TargetKind::lib())
    }

    /// Whether the target is a compiler plugin.
    pub fn is_cairo_plugin(&self) -> (yes: bool)
        ensures
            yes == (self@.kind == cairo_plugin_kind()),
    {
        self.kind.same(&TargetKind::cairo_plugin())
    }
}

/// What a manifest says beside summary and targets.
#[derive(Debug)]
pub struct ManifestMetadata {
    /// The files that are packed with the package beside its sources, as paths
    /// relative to the root of the package.
    pub included: Option<Vec<String>>,
    /// The sections that tools keep in the manifest, by the name of the tool.
    pub tool_metadata: Option<VecMap<String, toml::Value>>,
}

/// The structured description of a package that its manifest holds.
#[derive(Debug)]
pub struct Manifest {
    pub summary: Summary,
    pub targets: Vec<Target>,
    /// Whether the package may be published.
    pub publish: bool,
    pub metadata: ManifestMetadata,
}

/// A manifest as a mathematical value.
pub struct ManifestView {
    pub summary: SummaryView,
    pub targets: Seq<TargetView>,
    pub publish: bool,
    pub included: Option<Seq<Seq<char>>>,
    pub tool_metadata: Option<Map<Seq<char>, toml::Value>>,
}

impl View for Manifest {
    type V = ManifestView;

    open spec fn view(&self) -> ManifestView {
        ManifestView {
            summary: self.summary@,
            targets: self.targets.deep_view(),
            publish: self.publish,
            included: self.metadata.included.deep_view(),
            tool_metadata: match self.metadata.tool_metadata {
                Some(tools) => Some(tools@),
                None => None,
            },
        }
    }
}

impl ManifestView {
    /// The manifest with `checksum` written into its summary.
    pub open spec fn stamped(self, checksum: Seq<char>) -> ManifestView {
        ManifestView {
            summary: SummaryView { checksum: Some(checksum), ..self.summary },
            ..self
        }
    }
}

impl ManifestMetadata {
    /// Metadata that say nothing.
    pub fn new() -> (metadata: Self)
        ensures
            metadata.included is None,
            metadata.tool_metadata is None,
    {
        ManifestMetadata { included: None, tool_metadata: None }
    }
}

impl Manifest {
    /// The manifest with the given summary and targets, which may be
    /// published and says nothing more.
    pub fn new(summary: Summary, targets: Vec<Target>) -> (manifest: Self)
        ensures
            manifest@ == (ManifestView {
                summary: summary@,
                targets: targets.deep_view(),
                publish: true,
                included: None,
                tool_metadata: None,
            }),
    {
        Manifest { summary, targets, publish: true, metadata: ManifestMetadata::new() }
    }

    /// Writes `checksum` into the summary of the manifest and leaves the rest
    /// as it is.
    pub fn set_checksum(&mut self, checksum: Checksum)
        ensures
            final(self)@ == old(self)@.stamped(checksum@),
    {
        self.summary.set_checksum(checksum);
    }
}

} // verus!
