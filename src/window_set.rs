use std::collections::HashSet;
use vstd::prelude::*;

use crate::platform::WindowId;

verus! {

broadcast use vstd::std_specs::hash::group_hash_axioms;

/// The ids of the windows that a loop has created and not yet seen destroyed.
pub struct LiveWindows {
    ids: HashSet<u64>,
}

impl LiveWindows {
    /// The raw ids in the set.
    pub closed spec fn ids(&self) -> Set<u64> {
        self.ids@
    }

    pub fn new() -> (r: Self)
        ensures
            r.ids() == Set::<u64>::empty(),
    {
        LiveWindows { ids: HashSet::new() }
    }

    /// Records a new window; false if the id was already live.
    pub fn register(&mut self, id: WindowId) -> (r: bool)
        ensures
            final(self).ids() == old(self).ids().insert(id.0),
            r == !old(self).ids().contains(id.0),
    {
        self.ids.insert(id.0)
    }

    /// Forgets a destroyed window; false if the id was not live.
    pub fn forget(&mut self, id: WindowId) -> (r: bool)
        ensures
            final(self).ids() == old(self).ids().remove(id.0),
            r == old(self).ids().contains(id.0),
    {
        self.ids.remove(&id.0)
    }

    pub fn contains(&self, id: WindowId) -> (r: bool)
        ensures
            r == self.ids().contains(id.0),
    {
        self.ids.contains(&id.0)
    }

    pub fn len(&self) -> (r: usize)
        ensures
            r == self.ids().len(),
    {
        self.ids.len()
    }
}

} // verus!
