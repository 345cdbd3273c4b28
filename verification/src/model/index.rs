use vstd::prelude::*;

use crate::model::checksum::Checksum;

verus! {

/// One dependency of a published version, as the index writes it.
#[derive(Debug, PartialEq, Eq, Hash)]
pub struct IndexDependency {
    pub name: String,
    /// The versions that will do, as a requirement such as `^1.0.0`.
    pub req: String,
}

/// An index dependency as a mathematical value.
pub struct IndexDependencyView {
    pub name: Seq<char>,
    pub req: Seq<char>,
}

impl View for IndexDependency {
    type V = IndexDependencyView;

    open spec fn view(&self) -> IndexDependencyView {
        IndexDependencyView { name: self.name@, req: self.req@ }
    }
}

impl DeepView for IndexDependency {
    type V = IndexDependencyView;

    open spec fn deep_view(&self) -> IndexDependencyView {
        self@
    }
}

impl Clone for IndexDependency {
    fn clone(&self) -> (copy: Self)
        ensures
            copy@ == self@,
    {
        IndexDependency { name: self.name.clone(), req: self.req.clone() }
    }
}

impl IndexDependency {
    /// The dependency on `name` at `req`.
    pub fn new(name: String, req: String) -> (dep: Self)
        ensures
            dep@ == (IndexDependencyView { name: name@, req: req@ }),
    {
        IndexDependency { name, req }
    }
}

/// The entry of a registry's index for one version of one package.
#[derive(Debug, PartialEq, Eq, Hash)]
pub struct IndexRecord {
    pub version: String,
    pub dependencies: Vec<IndexDependency>,
    pub checksum: Checksum,
    /// The version does not need the standard runtime.
    pub no_core: bool,
    /// The version was withdrawn after it was published.
    pub yanked: bool,
}

/// An index record as a mathematical value.
pub struct IndexRecordView {
    pub version: Seq<char>,
    pub dependencies: Seq<IndexDependencyView>,
    pub checksum: Seq<char>,
    pub no_core: bool,
    pub yanked: bool,
}

impl View for IndexRecord {
    type V = IndexRecordView;

    open spec fn view(&self) -> IndexRecordView {
        IndexRecordView {
            version: self.version@,
            dependencies: self.dependencies.deep_view(),
            checksum: self.checksum@,
            no_core: self.no_core,
            yanked: self.yanked,
        }
    }
}

impl DeepView for IndexRecord {
    type V = IndexRecordView;

    open spec fn deep_view(&self) -> IndexRecordView {
        self@
    }
}

/// A copy of `deps`.
fn clone_index_dependencies(deps: &Vec<IndexDependency>) -> (copy: Vec<IndexDependency>)
    ensures
        copy.deep_view() == deps.deep_view(),
{
    let mut copy: Vec<IndexDependency> = Vec::new();
    let mut i: usize = 0;
    while i < deps.len()
        invariant
            i <= deps.len(),
            copy.len() == i,
            forall|k: int| 0 <= k < i ==> copy[k]@ == deps[k]@,
        decreases deps.len() - i,
    {
        copy.push(deps[i].clone());
        i += 1;
    }
    assert(copy.deep_view() =~= deps.deep_view());
    copy
}

impl Clone for IndexRecord {
    fn clone(&self) -> (copy: Self)
        ensures
            copy@ == self@,
    {
        IndexRecord {
            version: self.version.clone(),
            dependencies: clone_index_dependencies(&self.dependencies),
            checksum: self.checksum.clone(),
            no_core: self.no_core,
            yanked: self.yanked,
        }
    }
}

impl IndexRecord {
    /// The record of `version` with the given dependencies and checksum,
    /// neither yanked nor free of the standard runtime.
    pub fn new(version: String, dependencies: Vec<IndexDependency>, checksum: Checksum) -> (record:
        Self)
        ensures
            record@ == (IndexRecordView {
                version: version@,
                dependencies: dependencies.deep_view(),
                checksum: checksum@,
                no_core: false,
                yanked: false,
            }),
    {
        IndexRecord { version, dependencies, checksum, no_core: false, yanked: false }
    }
}

} // verus!
