use vstd::prelude::*;

use crate::model::checksum::Checksum;
use crate::model::dependency::{ManifestDependency, ManifestDependencyView};
use crate::model::package_id::{PackageId, PackageIdView};

verus! {

/// What dependency resolution needs to know of one version of a package,
/// before any manifest is loaded.
#[derive(Debug, PartialEq, Eq, Hash)]
pub struct Summary {
    pub package_id: PackageId,
    pub dependencies: Vec<ManifestDependency>,
    pub checksum: Option<Checksum>,
    /// The version does not need the standard runtime.
    pub no_core: bool,
}

/// A summary as a mathematical value.
pub struct SummaryView {
    pub package_id: PackageIdView,
    pub dependencies: Seq<ManifestDependencyView>,
    pub checksum: Option<Seq<char>>,
    pub no_core: bool,
}

impl View for Summary {
    type V = SummaryView;

    open spec fn view(&self) -> SummaryView {
        SummaryView {
            package_id: self.package_id@,
            dependencies: self.dependencies.deep_view(),
            checksum: self.checksum.deep_view(),
            no_core: self.no_core,
        }
    }
}

impl DeepView for Summary {
    type V = SummaryView;

    open spec fn deep_view(&self) -> SummaryView {
        self@
    }
}

/// A copy of `deps`.
fn clone_dependencies(deps: &Vec<ManifestDependency>) -> (copy: Vec<ManifestDependency>)
    ensures
        copy.deep_view() == deps.deep_view(),
{
    let mut copy: Vec<ManifestDependency> = Vec::new();
    let mut i: usize = 0;
    while i < deps.len()
        invariant
            i <= deps.len(),
            copy.len() == i,
            forall|k: int| 0 <= k < i ==> copy[k]@ == deps[k]@,
        decreases deps.len() - i,
    {
        copy.push(deps[i].clone());
        i += 1;
    }
    assert(copy.deep_view() =~= deps.deep_view());
    copy
}

impl Clone for Summary {
    fn clone(&self) -> (copy: Self)
        ensures
            copy@ == self@,
    {
        let checksum = match &self.checksum {
            Some(checksum) => Some(checksum.clone()),
            None => None,
        };
        Summary {
            package_id: self.package_id.clone(),
            dependencies: clone_dependencies(&self.dependencies),
            checksum,
            no_core: self.no_core,
        }
    }
}

impl Summary {
    /// The summary of `package_id` with the given dependencies, checksum and
    /// capability flag.
    pub fn new(
        package_id: PackageId,
        dependencies: Vec<ManifestDependency>,
        checksum: Option<Checksum>,
        no_core: bool,
    ) -> (summary: Self)
        ensures
            summary@ == (SummaryView {
                package_id: package_id@,
                dependencies: dependencies.deep_view(),
                checksum: checksum.deep_view(),
                no_core,
            }),
    {
        Summary { package_id, dependencies, checksum, no_core }
    }

    /// Writes `checksum` into the summary and leaves the rest as it is.
    pub fn set_checksum(&mut self, checksum: Checksum)
        ensures
            final(self)@ == (SummaryView { checksum: Some(checksum@), ..old(self)@ }),
    {
        self.checksum = Some(checksum);
    }
}

} // verus!
