use vstd::prelude::*;

use crate::collections::vec_map::VecMap;
use crate::model::package_id::{PackageId, PackageIdView};

verus! {

/// A set of package ids.
#[derive(Debug)]
pub struct PackageIdSet {
    ids: VecMap<PackageId, ()>,
}

impl View for PackageIdSet {
    type V = Set<PackageIdView>;

    closed spec fn view(&self) -> Set<PackageIdView> {
        self.ids@.dom()
    }
}

impl Clone for PackageIdSet {
    fn clone(&self) -> (copy: Self)
        ensures
            copy@ == self@,
    {
        PackageIdSet { ids: self.ids.duplicate() }
    }
}

impl PackageIdSet {
    /// The empty set.
    pub fn new() -> (set: Self)
        ensures
            set@ == Set::<PackageIdView>::empty(),
    {
        let set = PackageIdSet { ids: VecMap::new() };
        assert(set@ =~= Set::<PackageIdView>::empty());
        set
    }

    /// Whether `id` is in the set.
    pub fn contains(&self, id: &PackageId) -> (yes: bool)
        ensures
            yes == self@.contains(id@),
    {
        self.ids.contains_key(id)
    }

    /// Puts `id` into the set and says whether it was new.
    pub fn insert(&mut self, id: PackageId) -> (new: bool)
        ensures
            final(self)@ == old(self)@.insert(id@),
            new == !old(self)@.contains(id@),
    {
        let new = !self.ids.contains_key(&id);
        self.ids.insert(id, ());
        assert(self.ids@.dom() =~= old(self).ids@.dom().insert(id@));
        new
    }

    /// Takes `id` out of the set.
    pub fn remove(&mut self, id: &PackageId)
        ensures
            final(self)@ == old(self)@.remove(id@),
    {
        self.ids.remove(id);
        assert(self.ids@.dom() =~= old(self).ids@.dom().remove(id@));
    }
}

} // verus!
