//! The data table: the ordered visible set of entities and the selected
//! record's identity.
//!
//! Selection is positional (a cursor index into the visible set) but is
//! preserved across set replacements by identity: the table remembers the
//! canonical id of the most recently selected record, and a replacement
//! re-selects the first entity carrying that id, or clears the cursor when
//! none does — it never jumps the cursor to another row. The remembered id
//! survives a replacement that clears the cursor, so a later replacement
//! (for instance, cancelling a filter) can restore the selection.

use vstd::prelude::*;
use crate::entity::{Instance, InstanceV, views};
use crate::text::str_eq;

verus! {

/// The visible set, the cursor, and the remembered selection identity.
pub struct Table {
    pub items: Vec<Instance>,
    pub selected: Option<usize>,
    pub memory: Option<String>,
}

/// Position of the first entity at or after `i` whose id is `id`.
pub open spec fn index_of_id_from(items: Seq<InstanceV>, id: Seq<char>, i: int) -> Option<int>
    decreases items.len() - i,
{
    if i < 0 || i >= items.len() {
        None
    } else if items[i].instance_id == id {
        Some(i)
    } else {
        index_of_id_from(items, id, i + 1)
    }
}

/// Position of the first entity whose id is `id`.
pub open spec fn index_of_id(items: Seq<InstanceV>, id: Seq<char>) -> Option<int> {
    index_of_id_from(items, id, 0)
}

/// The cursor that a visible set `items` gives to a remembered identity
/// `m`: the position of the first entity with that id, if any.
pub open spec fn reselected_cursor(items: Seq<InstanceV>, m: Option<String>) -> Option<int> {
    match m {
        Some(id) => index_of_id(items, id@),
        None => None,
    }
}

/// Whether an exec cursor denotes the same position as a spec one.
pub open spec fn cursor_is(sel: Option<usize>, c: Option<int>) -> bool {
    match sel {
        Some(i) => c == Some(i as int),
        None => c is None,
    }
}

impl Table {
    /// Well-formedness: the cursor stays inside the visible set and always
    /// points at the remembered identity.
    pub open spec fn wf(self) -> bool {
        match self.selected {
            Some(i) => i < self.items.len() && (self.memory matches Some(m) && m@
                == self.items@[i as int]@.instance_id),
            None => true,
        }
    }

    /// An empty, unselected table.
    pub fn new() -> (r: Table)
        ensures
            r.wf(),
            r.items@.len() == 0,
            r.selected is None,
            r.memory is None,
    {
        Table { items: Vec::new(), selected: None, memory: None }
    }

    /// The position of the first entity whose id equals `id`, if any.
    fn find_index_of_id(&self, id: &str) -> (r: Option<usize>)
        ensures
            cursor_is(r, index_of_id(views(self.items@), id@)),
    {
        let ghost vs: Seq<InstanceV> = views(self.items@);
        let mut i: usize = 0;
        while i < self.items.len()
            invariant
                i <= self.items.len(),
                vs == views(self.items@),
                index_of_id_from(vs, id@, 0) == index_of_id_from(vs, id@, i as int),
            decreases self.items.len() - i,
        {
            if str_eq(self.items[i].instance_id.as_str(), id) {
                proof {
                    assert(vs[i as int] == self.items@[i as int]@);
                    assert(index_of_id_from(vs, id@, i as int) == Some(i as int));
                }
                return Some(i);
            }
            proof {
                assert(vs[i as int] == self.items@[i as int]@);
            }
            i += 1;
        }
        None
    }

    /// Replaces the visible set and preserves the selection by identity: if
    /// an entity with the remembered id exists in the new set, the first
    /// such entity is selected; otherwise the cursor is cleared (and the
    /// remembered id kept).
    pub fn replace(&mut self, new_items: Vec<Instance>)
        ensures
            final(self).wf(),
            final(self).items == new_items,
            final(self).memory == old(self).memory,
            cursor_is(
                final(self).selected,
                reselected_cursor(views(new_items@), old(self).memory),
            ),
    {
        self.items = new_items;
        self.selected = match &self.memory {
            Some(id) => {
                let r = self.find_index_of_id(id.as_str());
                proof {
                    if r is Some {
                        lemma_index_of_id_some(views(self.items@), id@, 0);
                    }
                }
                r
            },
            None => None,
        };
    }

    /// Re-selects by a given remembered identity: sets the memory to it and
    /// moves the cursor to the first entity carrying it, if any.
    pub fn reselect(&mut self, memory: Option<String>)
        ensures
            final(self).wf(),
            final(self).items == old(self).items,
            final(self).memory == memory,
            cursor_is(final(self).selected, reselected_cursor(views(old(self).items@), memory)),
    {
        self.selected = match &memory {
            Some(id) => {
                let r = self.find_index_of_id(id.as_str());
                proof {
                    if r is Some {
                        lemma_index_of_id_some(views(self.items@), id@, 0);
                    }
                }
                r
            },
            None => None,
        };
        self.memory = memory;
    }

    /// Selects the entity whose id equals `id` if present; otherwise leaves
    /// the table unchanged and reports failure.
    pub fn select_by_id(&mut self, id: &str) -> (r: bool)
        requires
            old(self).wf(),
        ensures
            final(self).wf(),
            final(self).items == old(self).items,
            r == (index_of_id(views(old(self).items@), id@) is Some),
            r ==> cursor_is(final(self).selected, index_of_id(views(old(self).items@), id@))
                && (final(self).memory matches Some(m) && m@ == id@),
            !r ==> *final(self) == *old(self),
    {
        match self.find_index_of_id(id) {
            Some(i) => {
                proof {
                    lemma_index_of_id_some(views(self.items@), id@, 0);
                    assert(views(self.items@)[i as int] == self.items@[i as int]@);
                }
                self.selected = Some(i);
                self.memory = Some(self.items[i].instance_id.clone());
                true
            },
            None => false,
        }
    }

    /// Selects by position; an out-of-range index is a no-op, not an error.
    pub fn select_index(&mut self, i: usize)
        requires
            old(self).wf(),
        ensures
            final(self).wf(),
            final(self).items == old(self).items,
            i < old(self).items@.len() ==> final(self).selected == Some(i)
                && (final(self).memory matches Some(m)
                && m@ == old(self).items@[i as int]@.instance_id),
            i >= old(self).items@.len() ==> *final(self) == *old(self),
    {
        if i < self.items.len() {
            self.selected = Some(i);
            self.memory = Some(self.items[i].instance_id.clone());
        }
    }

    /// The selected entity, or `None` when no row is selected.
    pub fn selected_entity(&self) -> (r: Option<Instance>)
        requires
            self.wf(),
        ensures
            match self.selected {
                Some(i) => r matches Some(e) && e@ == self.items@[i as int]@,
                None => r is None,
            },
    {
        match self.selected {
            Some(i) => Some(self.items[i].clone()),
            None => None,
        }
    }
}

/// A found position lies in range and carries the id looked for.
pub proof fn lemma_index_of_id_some(items: Seq<InstanceV>, id: Seq<char>, j: int)
    requires
        index_of_id_from(items, id, j) is Some,
    ensures
        ({
            let i = index_of_id_from(items, id, j)->Some_0;
            j <= i < items.len() && items[i].instance_id == id
        }),
    decreases items.len() - j,
{
    if 0 <= j && j < items.len() && items[j].instance_id != id {
        lemma_index_of_id_some(items, id, j + 1);
    }
}

} // verus!
