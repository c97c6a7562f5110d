//! The store: every project of the process, each under its identifier.

use vstd::prelude::*;
use vstd::hash_map::StringHashMap;
use crate::model::{Project, ProjectView};

verus! {

/// The store as contracts see it: a map from identifier to record.
pub type Records = Map<Seq<char>, ProjectView>;

/// All projects, each filed under the identifier it was created with.
///
/// A shared borrow is enough to read and any number of them may coexist; to
/// write takes the exclusive borrow. Whoever shares a store between tasks puts
/// it behind a readers-writer lock and gets the same discipline at run time.
pub struct Store {
    records: StringHashMap<Project>,
}

impl View for Store {
    type V = Records;

    closed spec fn view(&self) -> Records {
        Map::new(
            |id: Seq<char>| self.records@.contains_key(id),
            |id: Seq<char>| self.records@[id]@,
        )
    }
}

impl Store {
    /// A store that holds nothing.
    pub fn new() -> (store: Store)
        ensures
            store@ == Records::empty(),
    {
        let store = Store { records: StringHashMap::new() };
        assert(store@ =~= Records::empty());
        store
    }

    /// Files `project` under `id`, in place of whatever stood there.
    pub fn insert(&mut self, id: String, project: Project)
        ensures
            final(self)@ == old(self)@.insert(id@, project@),
    {
        self.records.insert(id, project);
        assert(self@ =~= old(self)@.insert(id@, project@));
    }

    /// A copy of the record under `id`, if there is one. The store keeps its own.
    pub fn get(&self, id: &str) -> (found: Option<Project>)
        ensures
            self@.contains_key(id@) ==> found.is_some() && found.unwrap()@ == self@[id@],
            !self@.contains_key(id@) ==> found.is_none(),
    {
        match self.records.get(id) {
            Some(project) => Some(project.clone()),
            None => None,
        }
    }

    /// Whether a record stands under `id`.
    pub fn contains(&self, id: &str) -> (present: bool)
        ensures
            present == self@.contains_key(id@),
    {
        self.records.contains_key(id)
    }
}

} // verus!
