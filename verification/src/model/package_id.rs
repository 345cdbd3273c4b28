use vstd::prelude::*;
use vstd::string::StringExecFns;

use crate::model::source_id::{SourceId, SourceIdView};

verus! {

/// The identity of a resolvable package: name, version and source.
///
/// Two packages with the same id hold the same content.
#[derive(Debug, PartialEq, Eq, Hash)]
pub struct PackageId {
    pub name: String,
    pub version: String,
    pub source_id: SourceId,
}

/// A package id as a mathematical value.
pub struct PackageIdView {
    pub name: Seq<char>,
    pub version: Seq<char>,
    pub source_id: SourceIdView,
}

impl View for PackageId {
    type V = PackageIdView;

    open spec fn view(&self) -> PackageIdView {
        PackageIdView { name: self.name@, version: self.version@, source_id: self.source_id@ }
    }
}

impl DeepView for PackageId {
    type V = PackageIdView;

    open spec fn deep_view(&self) -> PackageIdView {
        self@
    }
}

impl Clone for PackageId {
    fn clone(&self) -> (copy: Self)
        ensures
            copy@ == self@,
    {
        PackageId {
            name: self.name.clone(),
            version: self.version.clone(),
            source_id: self.source_id.clone(),
        }
    }
}

impl PackageIdView {
    /// The id as it is shown to people: name, `@`, version.
    pub open spec fn text(self) -> Seq<char> {
        self.name + "@"@ + self.version
    }
}

impl PackageId {
    /// The id of version `version` of package `name` in `source_id`.
    pub fn new(name: String, version: String, source_id: SourceId) -> (id: Self)
        ensures
            id@ == (PackageIdView { name: name@, version: version@, source_id: source_id@ }),
    {
        PackageId { name, version, source_id }
    }

    /// Whether `self` and `other` identify the same package.
    pub fn same(&self, other: &PackageId) -> (yes: bool)
        ensures
            yes == (self@ == other@),
    {
        self.name == other.name && self.version == other.version && self.source_id.same(
            &other.source_id,
        )
    }

    /// The id as it is shown to people, such as `alpha@1.2.0`.
    pub fn to_string(&self) -> (text: String)
        ensures
            text@ == self@.text(),
    {
        let mut text = self.name.clone();
        text.append("@");
        text.append(self.version.as_str());
        text
    }
}

} // verus!
