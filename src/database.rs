//! The catalog of spaces.
use vstd::prelude::*;

use crate::config::SpaceTreeId;
use crate::entries::NamedEntries;
use crate::DsError;

verus! {

/// A development space: a working directory and the name of the tree that
/// lays it out.
#[derive(Debug)]
pub struct Space {
    /// The working directory of the space.
    pub wdir: String,
    /// The tree of the space, how to launch it.
    pub tree: SpaceTreeId,
}

impl Clone for Space {
    fn clone(&self) -> (r: Self)
        ensures
            r == *self,
    {
        Space { wdir: self.wdir.clone(), tree: self.tree.clone() }
    }
}

impl Space {
    pub fn new(wdir: String, tree: SpaceTreeId) -> (r: Space)
        ensures
            r.wdir == wdir,
            r.tree == tree,
    {
        Space { wdir, tree }
    }
}

/// The spaces, keyed by name.
#[derive(Debug)]
pub struct DataBase {
    entries: NamedEntries<Space>,
}

impl View for DataBase {
    type V = Map<Seq<char>, Space>;

    closed spec fn view(&self) -> Map<Seq<char>, Space> {
        self.entries@
    }
}

impl Default for DataBase {
    /// A database without spaces.
    fn default() -> (r: DataBase)
        ensures
            r.wf(),
            r@ == Map::<Seq<char>, Space>::empty(),
    {
        DataBase { entries: NamedEntries::new() }
    }
}

impl DataBase {
    pub closed spec fn wf(&self) -> bool {
        self.entries.wf()
    }

    /// Retrieves the space from its name.
    pub fn get_space(&self, space: &str) -> (r: Result<&Space, DsError>)
        requires
            self.wf(),
        ensures
            match r {
                Ok(s) => self@.contains_key(space@) && *s == self@[space@],
                Err(e) => {
                    &&& !self@.contains_key(space@)
                    &&& e matches DsError::SpaceNotFound(n) && n@ == space@
                },
            },
    {
        match self.entries.get(space) {
            Some(s) => Ok(s),
            None => Err(DsError::SpaceNotFound(String::from_str(space))),
        }
    }

    /// Inserts a space under the given name; a space of the same name is
    /// replaced.
    pub fn insert(&mut self, key: String, space: Space)
        requires
            old(self).wf(),
        ensures
            final(self).wf(),
            final(self)@ == old(self)@.insert(key@, space),
    {
        self.entries.insert(key, space)
    }

    /// The spaces of `entries` keyed by their names; where a name occurs
    /// twice the later space is kept.
    pub fn from_entries(entries: Vec<(String, Space)>) -> (r: DataBase)
        ensures
            r.wf(),
            r@ == crate::entries::map_of(entries@),
    {
        DataBase { entries: NamedEntries::from_items(entries) }
    }

    /// The spaces with their names, each name once, in no particular order.
    pub fn spaces_iter(&self) -> (r: &Vec<(String, Space)>)
        requires
            self.wf(),
        ensures
            crate::entries::unique_names(r@),
            crate::entries::map_of(r@) == self@,
    {
        self.entries.entries()
    }

    /// Whether no space is stored.
    pub fn is_empty(&self) -> (r: bool)
        requires
            self.wf(),
        ensures
            self@.dom().finite(),
            r == (self@ == Map::<Seq<char>, Space>::empty()),
            r == (self@.dom().len() == 0),
    {
        self.entries.is_empty()
    }

    /// Removes the space with the given name; does nothing where there is
    /// none.
    pub fn remove(&mut self, key: &str)
        requires
            old(self).wf(),
        ensures
            final(self).wf(),
            final(self)@ == old(self)@.remove(key@),
    {
        self.entries.remove(key)
    }
}

/// Removing a name that no space has leaves the spaces as they were: with
/// `after` what `remove` makes of `before`, the two hold the same spaces.
pub proof fn lemma_remove_absent_space(before: DataBase, after: DataBase, key: Seq<char>)
    requires
        !before@.contains_key(key),
        after@ == before@.remove(key),
    ensures
        after@ == before@,
{
    assert(after@ =~= before@);
}

/// Taking the entries of a database apart and building a database from them
/// again gives the same spaces: with `entries` what `spaces_iter` returns for
/// `db` and `back` what `from_entries` builds of them.
pub proof fn lemma_entries_round_trip(db: DataBase, entries: Seq<(String, Space)>, back: DataBase)
    requires
        crate::entries::map_of(entries) == db@,
        back@ == crate::entries::map_of(entries),
    ensures
        back@ == db@,
{
}

/// Inserting twice under one name leaves one entry of that name, holding the
/// second value, and the other names as they were: with `mid` and `after`
/// what the two calls of `insert` make.
pub proof fn lemma_insert_twice(
    before: DataBase,
    mid: DataBase,
    after: DataBase,
    key: Seq<char>,
    first: Space,
    second: Space,
)
    requires
        mid@ == before@.insert(key, first),
        after@ == mid@.insert(key, second),
    ensures
        after@ == before@.insert(key, second),
        after@[key] == second,
        after@.dom() == before@.dom().insert(key),
        forall|k: Seq<char>| k != key && before@.contains_key(k) ==> after@[k] == before@[k],
{
    assert(after@ =~= before@.insert(key, second));
    assert(after@.dom() =~= before@.dom().insert(key));
}

} // verus!
