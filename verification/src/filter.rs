//! The filter engine: a substring filter that replaces the visible set.
//!
//! Filtering is case-sensitive, mirroring literal substring semantics; the
//! search engine is deliberately the case-insensitive one. The filter keeps
//! exactly the entities whose name contains the term, in their original
//! order, and keeps every entity when the term is empty.

use vstd::prelude::*;
use crate::entity::{Instance, InstanceV, views, filter_matches, entity_filter_matches};
use crate::table::{cursor_is, index_of_id, index_of_id_from, lemma_index_of_id_some,
    reselected_cursor};

verus! {

/// The subsequence of `full` that the filter term keeps visible.
pub open spec fn filter_views(full: Seq<InstanceV>, term: Seq<char>) -> Seq<InstanceV> {
    full.filter(|e: InstanceV| filter_matches(e, term))
}

/// Filters the full set down to the entities whose name contains `term`:
/// the result is exactly the matching subsequence, in the original order.
pub fn filter_entities(full: &Vec<Instance>, term: &str) -> (r: Vec<Instance>)
    ensures
        views(r@) == filter_views(views(full@), term@),
{
    let ghost vs: Seq<InstanceV> = views(full@);
    let mut out: Vec<Instance> = Vec::new();
    let mut i: usize = 0;
    while i < full.len()
        invariant
            i <= full.len(),
            vs == views(full@),
            views(out@) == filter_views(vs.take(i as int), term@),
        decreases full.len() - i,
    {
        proof {
            assert(vs[i as int] == full@[i as int]@);
            lemma_filter_views_step(vs, term@, i as int);
        }
        if entity_filter_matches(&full[i], term) {
            out.push(full[i].clone());
            proof {
                assert(views(out@) =~= filter_views(vs.take(i as int), term@).push(vs[i as int]));
            }
        }
        i += 1;
    }
    proof {
        assert(vs.take(vs.len() as int) =~= vs);
    }
    out
}

/// One step of the filter: extending the prefix by one entity appends it to
/// the filtered prefix exactly when it matches.
proof fn lemma_filter_views_step(s: Seq<InstanceV>, term: Seq<char>, i: int)
    requires
        0 <= i < s.len(),
    ensures
        filter_views(s.take(i + 1), term) == if filter_matches(s[i], term) {
            filter_views(s.take(i), term).push(s[i])
        } else {
            filter_views(s.take(i), term)
        },
{
    reveal(Seq::filter);
    assert(s.take(i + 1).drop_last() =~= s.take(i));
    assert(s.take(i + 1).last() == s[i]);
}

/// Every entity of the filtered set is an entity of the full set.
pub proof fn lemma_filter_member_of_full(s: Seq<InstanceV>, term: Seq<char>, j: int)
    requires
        0 <= j < filter_views(s, term).len(),
    ensures
        exists|k: int| 0 <= k < s.len() && s[k] == filter_views(s, term)[j],
    decreases s.len(),
{
    reveal(Seq::filter);
    if s.len() > 0 {
        let prefix = s.drop_last();
        if filter_matches(s.last(), term) && j == filter_views(s, term).len() - 1 {
            assert(s[s.len() - 1] == filter_views(s, term)[j]);
        } else {
            lemma_filter_member_of_full(prefix, term, j);
            let k = choose|k: int|
                0 <= k < prefix.len() && prefix[k] == filter_views(prefix, term)[j];
            assert(s[k] == filter_views(s, term)[j]);
        }
    }
}

/// If some entity at position `k` carries id `id`, a scan from any point at
/// or before `k` finds an entity with that id.
pub proof fn lemma_id_present_found(items: Seq<InstanceV>, id: Seq<char>, j: int, k: int)
    requires
        0 <= j <= k < items.len(),
        items[k].instance_id == id,
    ensures
        index_of_id_from(items, id, j) is Some,
    decreases k - j,
{
    if items[j].instance_id != id {
        lemma_id_present_found(items, id, j + 1, k);
    }
}

/// Filtering preserves a matching selection: when the entity at position
/// `i` of the full set matches the term, the filtered set still holds an
/// entity with its id, so a replacement re-selects it.
pub proof fn lemma_filter_retains_id(full: Seq<InstanceV>, term: Seq<char>, i: int)
    requires
        0 <= i < full.len(),
        filter_matches(full[i], term),
    ensures
        index_of_id(filter_views(full, term), full[i].instance_id) is Some,
{
    broadcast use vstd::seq_lib::group_seq_properties;

    Seq::lemma_filter_contains(full, |e: InstanceV| filter_matches(e, term), i);
    let fs = filter_views(full, term);
    assert(fs.contains(full[i]));
    let j = choose|j: int| 0 <= j < fs.len() && fs[j] == full[i];
    lemma_id_present_found(fs, full[i].instance_id, 0, j);
}

/// Filtering drops a selection that no longer matches: when no entity of
/// the full set carrying id `id` matches the term, the filtered set holds
/// no entity with that id, so a replacement clears the cursor.
pub proof fn lemma_filter_drops_id(full: Seq<InstanceV>, term: Seq<char>, id: Seq<char>)
    requires
        forall|k: int|
            0 <= k < full.len() && full[k].instance_id == id ==> !filter_matches(full[k], term),
    ensures
        index_of_id(filter_views(full, term), id) is None,
{
    let fs = filter_views(full, term);
    if index_of_id(fs, id) is Some {
        lemma_index_of_id_some(fs, id, 0);
        let j = index_of_id_from(fs, id, 0)->Some_0;
        Seq::lemma_filter_pred(full, |e: InstanceV| filter_matches(e, term), j);
        lemma_filter_member_of_full(full, term, j);
        let k = choose|k: int| 0 <= k < full.len() && full[k] == fs[j];
        assert(full[k].instance_id == id);
        assert(filter_matches(full[k], term));
    }
}

/// Filter selection preservation. X is the selected entity, standing at
/// position `k` of the full set, and the cursor was re-derived from the
/// refiltered set as a replacement does. If X's name matches the new term,
/// an entity with X's id is selected again; if no entity carrying X's id
/// matches, the selection is cleared.
pub proof fn lemma_filter_selection_preservation(
    full: Seq<InstanceV>,
    text: Seq<char>,
    k: int,
    sel: Option<usize>,
    memory: Option<String>,
)
    requires
        0 <= k < full.len(),
        memory matches Some(m) && m@ == full[k].instance_id,
        cursor_is(sel, reselected_cursor(filter_views(full, text), memory)),
    ensures
        filter_matches(full[k], text) ==> (sel matches Some(j) && filter_views(full, text)[
            j as int
        ].instance_id == full[k].instance_id),
        (forall|i: int|
            0 <= i < full.len() && full[i].instance_id == full[k].instance_id
                ==> !filter_matches(full[i], text)) ==> sel is None,
{
    let id = full[k].instance_id;
    if filter_matches(full[k], text) {
        lemma_filter_retains_id(full, text, k);
        lemma_index_of_id_some(filter_views(full, text), id, 0);
    }
    if forall|i: int|
        0 <= i < full.len() && full[i].instance_id == full[k].instance_id ==> !filter_matches(
            full[i],
            text,
        ) {
        lemma_filter_drops_id(full, text, id);
    }
}

/// The empty term keeps every entity: filtering by it is the identity.
pub proof fn lemma_filter_empty_term(full: Seq<InstanceV>)
    ensures
        filter_views(full, Seq::<char>::empty()) == full,
    decreases full.len(),
{
    reveal(Seq::filter);
    if full.len() > 0 {
        lemma_filter_empty_term(full.drop_last());
        assert(filter_views(full, Seq::<char>::empty()) =~= full);
    } else {
        assert(filter_views(full, Seq::<char>::empty()) =~= full);
    }
}

} // verus!
