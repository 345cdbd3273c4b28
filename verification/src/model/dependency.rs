use vstd::prelude::*;
use vstd::string::StringExecFns;

use crate::model::source_id::{SourceId, SourceIdView};
use crate::model::version_req::{DependencyVersionReq, DependencyVersionReqView};

verus! {

/// A requirement that a manifest declares: a package name, the versions that
/// will do, and the source that they must come from.
#[derive(Debug, PartialEq, Eq, Hash)]
pub struct ManifestDependency {
    pub name: String,
    pub version_req: DependencyVersionReq,
    pub source_id: SourceId,
}

/// A requirement as a mathematical value.
pub struct ManifestDependencyView {
    pub name: Seq<char>,
    pub version_req: DependencyVersionReqView,
    pub source_id: SourceIdView,
}

impl View for ManifestDependency {
    type V = ManifestDependencyView;

    open spec fn view(&self) -> ManifestDependencyView {
        ManifestDependencyView {
            name: self.name@,
            version_req: self.version_req@,
            source_id: self.source_id@,
        }
    }
}

impl DeepView for ManifestDependency {
    type V = ManifestDependencyView;

    open spec fn deep_view(&self) -> ManifestDependencyView {
        self@
    }
}

impl Clone for ManifestDependency {
    fn clone(&self) -> (copy: Self)
        ensures
            copy@ == self@,
    {
        ManifestDependency {
            name: self.name.clone(),
            version_req: self.version_req.clone(),
            source_id: self.source_id.clone(),
        }
    }
}

impl ManifestDependencyView {
    /// The requirement as it is shown to people: name, blank, versions.
    pub open spec fn text(self) -> Seq<char> {
        self.name + " "@ + match self.version_req {
            DependencyVersionReqView::Any => "*"@,
            DependencyVersionReqView::Req(req) => req,
        }
    }
}

impl ManifestDependency {
    /// The requirement as it is shown to people, such as `alpha ^1.0.0`.
    pub fn to_string(&self) -> (text: String)
        ensures
            text@ == self@.text(),
    {
        let mut text = self.name.clone();
        text.append(" ");
        let versions = self.version_req.to_string();
        text.append(versions.as_str());
        text
    }

    /// The requirement for `name` at `version_req` from `source_id`.
    pub fn new(name: String, version_req: DependencyVersionReq, source_id: SourceId) -> (dep: Self)
        ensures
            dep@ == (ManifestDependencyView {
                name: name@,
                version_req: version_req@,
                source_id: source_id@,
            }),
    {
        ManifestDependency { name, version_req, source_id }
    }
}

} // verus!
