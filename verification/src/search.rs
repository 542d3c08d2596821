//! The search engine: incremental, case-insensitive substring search over
//! the visible entities' names, with wraparound find-next.
//!
//! The empty term matches everything, so searching with it selects the
//! first visible row. Find-next scans strictly after the cursor and then
//! wraps from the top, up to and including the cursor itself — a term that
//! matches only the current row re-selects it.

use vstd::prelude::*;
use crate::entity::{Instance, InstanceV, views, search_matches, entity_search_matches};
use crate::table::{Table, cursor_is};

verus! {

/// Position of the first entity at or after `i` whose name matches `term`.
pub open spec fn first_match_from(items: Seq<InstanceV>, term: Seq<char>, i: int) -> Option<int>
    decreases items.len() - i,
{
    if i < 0 || i >= items.len() {
        None
    } else if search_matches(items[i], term) {
        Some(i)
    } else {
        first_match_from(items, term, i + 1)
    }
}

/// Position of the first entity whose name matches `term`.
pub open spec fn first_match(items: Seq<InstanceV>, term: Seq<char>) -> Option<int> {
    first_match_from(items, term, 0)
}

/// A found position lies in range, at or after the scan start, and matches.
pub proof fn lemma_first_match_some(items: Seq<InstanceV>, term: Seq<char>, j: int)
    requires
        first_match_from(items, term, j) is Some,
    ensures
        ({
            let i = first_match_from(items, term, j)->Some_0;
            j <= i < items.len() && search_matches(items[i], term)
        }),
    decreases items.len() - j,
{
    if 0 <= j && j < items.len() && !search_matches(items[j], term) {
        lemma_first_match_some(items, term, j + 1);
    }
}

/// Position of the first visible entity at or after `start` whose name
/// matches the term.
fn find_first_match(items: &Vec<Instance>, term: &str, start: usize) -> (r: Option<usize>)
    ensures
        cursor_is(r, first_match_from(views(items@), term@, start as int)),
{
    let ghost vs: Seq<InstanceV> = views(items@);
    let mut i: usize = start;
    while i < items.len()
        invariant
            start <= i,
            vs == views(items@),
            first_match_from(vs, term@, start as int) == first_match_from(vs, term@, i as int),
        decreases items.len() - i,
    {
        proof {
            assert(vs[i as int] == items@[i as int]@);
        }
        if entity_search_matches(&items[i], term) {
            return Some(i);
        }
        i += 1;
    }
    None
}

/// Incremental search: selects the first entity in visible order whose name
/// matches `term`, and reports whether any matched. When nothing matches,
/// the table is left unchanged.
pub fn search(table: &mut Table, term: &str) -> (found: bool)
    requires
        old(table).wf(),
    ensures
        final(table).wf(),
        final(table).items == old(table).items,
        found == (first_match(views(old(table).items@), term@) is Some),
        found ==> cursor_is(final(table).selected, first_match(views(old(table).items@), term@)),
        !found ==> *final(table) == *old(table),
{
    match find_first_match(&table.items, term, 0) {
        Some(i) => {
            proof {
                lemma_first_match_some(views(table.items@), term@, 0);
            }
            table.select_index(i);
            true
        },
        None => false,
    }
}

/// Find-next with wraparound: selects the first match strictly after the
/// cursor, or — when none follows — the first match from the top, up to and
/// including the cursor. When nothing matches anywhere, the table is left
/// unchanged.
pub fn search_next(table: &mut Table, term: &str) -> (found: bool)
    requires
        old(table).wf(),
        old(table).selected is Some,
    ensures
        final(table).wf(),
        final(table).items == old(table).items,
        ({
            let vs = views(old(table).items@);
            let cur = old(table).selected->Some_0 as int;
            match first_match_from(vs, term@, cur + 1) {
                Some(i) => found && cursor_is(final(table).selected, Some(i)),
                None => match first_match(vs, term@) {
                    Some(j) => found && cursor_is(final(table).selected, Some(j)),
                    None => !found && *final(table) == *old(table),
                },
            }
        }),
{
    let cur: usize = match table.selected {
        Some(c) => c,
        None => 0,
    };
    match find_first_match(&table.items, term, cur + 1) {
        Some(i) => {
            proof {
                lemma_first_match_some(views(table.items@), term@, cur + 1 as int);
            }
            table.select_index(i);
            true
        },
        None => {
            match find_first_match(&table.items, term, 0) {
                Some(j) => {
                    proof {
                        lemma_first_match_some(views(table.items@), term@, 0);
                    }
                    table.select_index(j);
                    true
                },
                None => false,
            }
        },
    }
}

} // verus!
