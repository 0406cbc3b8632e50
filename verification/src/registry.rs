//! Named, ordered collections of scene objects.
//!
//! The engine holds an ordered list of models and a name lookup over them;
//! a model holds its meshes the same way. This registry captures that
//! bookkeeping: items keep their insertion order, and a name lookup finds
//! the most recently added item under that name — exactly what a name map
//! that is rewritten on every insertion would return. Removing an item
//! shifts the positions of everything added after it.

use vstd::prelude::*;

verus! {

/// An ordered list of items, each filed under a name.
pub struct Registry<T> {
    names: Vec<String>,
    items: Vec<T>,
}

impl<T> Registry<T> {
    /// The names, in insertion order.
    pub closed spec fn spec_names(&self) -> Seq<Seq<char>> {
        self.names@.map_values(|s: String| s@)
    }

    /// The items, in insertion order.
    pub closed spec fn spec_items(&self) -> Seq<T> {
        self.items@
    }

    /// Every item has a name.
    pub open spec fn wf(&self) -> bool {
        self.spec_names().len() == self.spec_items().len()
    }

    /// Position `i` holds the most recently added item named `name`.
    pub open spec fn is_last_named(&self, name: Seq<char>, i: int) -> bool {
        &&& 0 <= i < self.spec_names().len()
        &&& self.spec_names()[i] == name
        &&& forall|j: int|
            i < j < self.spec_names().len() ==> self.spec_names()[j] != name
    }

    /// An empty registry.
    pub fn new() -> (r: Registry<T>)
        ensures
            r.wf(),
            r.spec_items().len() == 0,
    {
        Registry { names: Vec::new(), items: Vec::new() }
    }

    /// Number of items.
    pub fn len(&self) -> (n: usize)
        requires
            self.wf(),
        ensures
            n == self.spec_items().len(),
    {
        self.items.len()
    }

    /// Append `item` under `name`; returns its position. An existing item
    /// of the same name stays in place but loses its name lookup.
    pub fn add(&mut self, name: String, item: T) -> (idx: usize)
        requires
            old(self).wf(),
        ensures
            final(self).wf(),
            final(self).spec_names() == old(self).spec_names().push(name@),
            final(self).spec_items() == old(self).spec_items().push(item),
            idx == old(self).spec_items().len(),
    {
        let idx = self.items.len();
        let ghost old_names = self.names@;
        self.names.push(name);
        self.items.push(item);
        proof {
            assert(self.names@.map_values(|s: String| s@) =~= old_names.map_values(
                |s: String| s@,
            ).push(name@));
        }
        idx
    }

    /// Position of the most recently added item named `name`, or `None`
    /// when no item carries that name.
    pub fn index_of(&self, name: &String) -> (r: Option<usize>)
        requires
            self.wf(),
        ensures
            match r {
                Some(i) => self.is_last_named(name@, i as int),
                None => forall|j: int|
                    0 <= j < self.spec_names().len() ==> self.spec_names()[j] != name@,
            },
    {
        let mut i = self.names.len();
        while i > 0
            invariant
                self.wf(),
                i <= self.spec_names().len(),
                forall|j: int| i <= j < self.spec_names().len() ==> self.spec_names()[j] != name@,
            decreases i,
        {
            i = i - 1;
            if self.names[i] == *name {
                return Some(i);
            }
        }
        None
    }

    /// The item at position `i`.
    pub fn get_index(&self, i: usize) -> (t: &T)
        requires
            self.wf(),
            i < self.spec_items().len(),
        ensures
            *t == self.spec_items()[i as int],
    {
        &self.items[i]
    }

    /// Mutable access to the item at position `i`; names and the other
    /// items stay as they are.
    pub fn get_index_mut(&mut self, i: usize) -> (t: &mut T)
        requires
            old(self).wf(),
            i < old(self).spec_items().len(),
        ensures
            *t == old(self).spec_items()[i as int],
            final(self).spec_items() == old(self).spec_items().update(i as int, *final(t)),
            final(self).spec_names() == old(self).spec_names(),
            final(self).wf(),
    {
        &mut self.items[i]
    }

    /// The name at position `i`.
    pub fn name_at(&self, i: usize) -> (n: &String)
        requires
            self.wf(),
            i < self.spec_names().len(),
        ensures
            n@ == self.spec_names()[i as int],
    {
        &self.names[i]
    }

    /// The most recently added item named `name`, or `None` when no item
    /// carries that name.
    pub fn get(&self, name: &String) -> (r: Option<&T>)
        requires
            self.wf(),
        ensures
            match r {
                Some(t) => exists|i: int|
                    self.is_last_named(name@, i) && *t == self.spec_items()[i],
                None => forall|j: int|
                    0 <= j < self.spec_names().len() ==> self.spec_names()[j] != name@,
            },
    {
        match self.index_of(name) {
            Some(i) => Some(&self.items[i]),
            None => None,
        }
    }

    /// Remove the most recently added item named `name` and return it;
    /// items added after it shift one position down, and their name
    /// lookups follow. Returns `None`, changing nothing, when no item
    /// carries the name.
    pub fn remove(&mut self, name: &String) -> (r: Option<T>)
        requires
            old(self).wf(),
        ensures
            final(self).wf(),
            match r {
                Some(t) => exists|i: int|
                    {
                        &&& old(self).is_last_named(name@, i)
                        &&& t == old(self).spec_items()[i]
                        &&& final(self).spec_names() == old(self).spec_names().remove(i)
                        &&& final(self).spec_items() == old(self).spec_items().remove(i)
                    },
                None => {
                    &&& final(self).spec_names() == old(self).spec_names()
                    &&& final(self).spec_items() == old(self).spec_items()
                    &&& forall|j: int|
                        0 <= j < old(self).spec_names().len() ==> old(self).spec_names()[j]
                            != name@
                },
            },
    {
        match self.index_of(name) {
            Some(i) => {
                let ghost old_names = self.names@;
                self.names.remove(i);
                let t = self.items.remove(i);
                proof {
                    assert(self.names@.map_values(|s: String| s@) =~= old_names.map_values(
                        |s: String| s@,
                    ).remove(i as int));
                }
                Some(t)
            },
            None => None,
        }
    }
}

} // verus!
