//! Stable sorting of the visible set by a column's comparison rule.
//!
//! The sort is specified functionally: the result equals the insertion
//! sort of the input, in which a later entity is placed after every
//! earlier entity that does not compare strictly greater. Equal-key
//! entities therefore keep their original relative order — the stability
//! the column model asks for — and the result is a permutation of the
//! input with no adjacent pair out of order.

use vstd::prelude::*;
use vstd::multiset::Multiset;
use crate::columns::{column_cmp, BasicColumn, CmpResult};
use crate::entity::{Instance, InstanceV, views};

verus! {

/// `e` placed into the sorted sequence `s`: before the first entity that
/// compares strictly greater than `e`, and after every other one.
pub open spec fn insert_sorted(e: InstanceV, s: Seq<InstanceV>, c: BasicColumn) -> Seq<InstanceV>
    decreases s.len(),
{
    if s.len() == 0 {
        seq![e]
    } else if column_cmp(e, s[0], c) == CmpResult::Less {
        seq![e] + s
    } else {
        seq![s[0]] + insert_sorted(e, s.drop_first(), c)
    }
}

/// The stable insertion sort of `s` under column `c`'s comparison rule.
pub open spec fn stable_sorted(s: Seq<InstanceV>, c: BasicColumn) -> Seq<InstanceV>
    decreases s.len(),
{
    if s.len() == 0 {
        Seq::<InstanceV>::empty()
    } else {
        insert_sorted(s.last(), stable_sorted(s.drop_last(), c), c)
    }
}

/// No adjacent pair of `s` is out of order under column `c`'s rule.
pub open spec fn pairwise_ordered(s: Seq<InstanceV>, c: BasicColumn) -> bool {
    forall|k1: int, k2: int|
        0 <= k1 && k2 == k1 + 1 && k2 < s.len() ==> #[trigger] column_cmp(s[k1], s[k2], c)
            != CmpResult::Greater
}

/// Inserting into a sequence adds one entity and keeps the rest.
proof fn lemma_insert_multiset(e: InstanceV, s: Seq<InstanceV>, c: BasicColumn)
    ensures
        insert_sorted(e, s, c).to_multiset() == s.to_multiset().insert(e),
        insert_sorted(e, s, c).len() == s.len() + 1,
    decreases s.len(),
{
    broadcast use vstd::seq_lib::group_to_multiset_ensures;

    if s.len() == 0 {
        assert(insert_sorted(e, s, c) =~= s.push(e));
    } else if column_cmp(e, s[0], c) == CmpResult::Less {
        assert(seq![e] + s =~= s.insert(0, e));
        vstd::seq_lib::lemma_multiset_commutative(seq![e], s);
        assert((seq![e] + s).to_multiset() == seq![e].to_multiset().add(s.to_multiset()));
        assert(seq![e].to_multiset() =~= Multiset::<InstanceV>::empty().insert(e));
        assert(seq![e].to_multiset().add(s.to_multiset()) =~= s.to_multiset().insert(e));
    } else {
        lemma_insert_multiset(e, s.drop_first(), c);
        let rest = insert_sorted(e, s.drop_first(), c);
        vstd::seq_lib::lemma_multiset_commutative(seq![s[0]], rest);
        vstd::seq_lib::lemma_multiset_commutative(seq![s[0]], s.drop_first());
        assert(s =~= seq![s[0]] + s.drop_first());
        assert((seq![s[0]] + rest).to_multiset() =~= s.to_multiset().insert(e));
    }
}

/// The stable sort is a permutation of its input.
pub proof fn lemma_stable_sorted_permutes(s: Seq<InstanceV>, c: BasicColumn)
    ensures
        stable_sorted(s, c).to_multiset() == s.to_multiset(),
        stable_sorted(s, c).len() == s.len(),
    decreases s.len(),
{
    broadcast use vstd::seq_lib::group_to_multiset_ensures;

    if s.len() > 0 {
        lemma_stable_sorted_permutes(s.drop_last(), c);
        lemma_insert_multiset(s.last(), stable_sorted(s.drop_last(), c), c);
        assert(s =~= s.drop_last().push(s.last()));
        assert(s.to_multiset() =~= s.drop_last().to_multiset().insert(s.last()));
    }
}

/// Inserting into an ordered sequence keeps it ordered.
proof fn lemma_insert_ordered(e: InstanceV, s: Seq<InstanceV>, c: BasicColumn)
    requires
        pairwise_ordered(s, c),
    ensures
        pairwise_ordered(insert_sorted(e, s, c), c),
    decreases s.len(),
{
    if s.len() == 0 {
    } else if column_cmp(e, s[0], c) == CmpResult::Less {
        crate::columns::lemma_column_cmp_consistent(e, s[0], c);
        let out = seq![e] + s;
        assert forall|k: int| 0 <= k < out.len() - 1 implies #[trigger] column_cmp(
            out[k],
            out[k + 1],
            c,
        ) != CmpResult::Greater by {
            if k == 0 {
                assert(out[0] == e);
                assert(out[1] == s[0]);
            } else {
                assert(out[k] == s[k - 1]);
                assert(out[k + 1] == s[k]);
                assert(column_cmp(s[k - 1], s[k], c) != CmpResult::Greater);
            }
        }
    } else {
        assert(pairwise_ordered(s.drop_first(), c)) by {
            assert forall|k: int| 0 <= k < s.drop_first().len() - 1 implies #[trigger] column_cmp(
                s.drop_first()[k],
                s.drop_first()[k + 1],
                c,
            ) != CmpResult::Greater by {
                assert(s.drop_first()[k] == s[k + 1]);
                assert(s.drop_first()[k + 1] == s[k + 2]);
            }
        }
        lemma_insert_ordered(e, s.drop_first(), c);
        let rest = insert_sorted(e, s.drop_first(), c);
        let out = seq![s[0]] + rest;
        lemma_insert_head(e, s, c);
        assert forall|k: int| 0 <= k < out.len() - 1 implies #[trigger] column_cmp(
            out[k],
            out[k + 1],
            c,
        ) != CmpResult::Greater by {
            if k == 0 {
                assert(out[0] == s[0]);
                assert(out[1] == rest[0]);
            } else {
                assert(out[k] == rest[k - 1]);
                assert(out[k + 1] == rest[k]);
                assert(column_cmp(rest[k - 1], rest[k], c) != CmpResult::Greater);
            }
        }
    }
}

/// The head of an insertion into a non-empty ordered tail does not exceed
/// either candidate head.
proof fn lemma_insert_head(e: InstanceV, s: Seq<InstanceV>, c: BasicColumn)
    requires
        s.len() > 0,
        pairwise_ordered(s, c),
        column_cmp(e, s[0], c) != CmpResult::Less,
    ensures
        column_cmp(s[0], insert_sorted(e, s.drop_first(), c)[0], c) != CmpResult::Greater,
{
    crate::columns::lemma_column_cmp_consistent(e, s[0], c);
    let t = s.drop_first();
    if t.len() == 0 {
        assert(insert_sorted(e, t, c)[0] == e);
    } else if column_cmp(e, t[0], c) == CmpResult::Less {
        assert(insert_sorted(e, t, c)[0] == e);
    } else {
        assert(insert_sorted(e, t, c)[0] == t[0]);
        assert(t[0] == s[1]);
    }
}

/// The stable sort leaves no adjacent pair out of order.
pub proof fn lemma_stable_sorted_ordered(s: Seq<InstanceV>, c: BasicColumn)
    ensures
        pairwise_ordered(stable_sorted(s, c), c),
    decreases s.len(),
{
    if s.len() > 0 {
        lemma_stable_sorted_ordered(s.drop_last(), c);
        lemma_insert_ordered(s.last(), stable_sorted(s.drop_last(), c), c);
    }
}

/// The position at which `e` belongs in the already-sorted `out`: after
/// every entity that does not compare strictly greater.
fn find_insert_pos(out: &Vec<Instance>, e: &Instance, column: BasicColumn) -> (p: usize)
    ensures
        p <= out@.len(),
        forall|k: int| 0 <= k < p ==> column_cmp(e@, views(out@)[k], column) != CmpResult::Less,
        p < out@.len() ==> column_cmp(e@, views(out@)[p as int], column) == CmpResult::Less,
{
    let ghost base: Seq<InstanceV> = views(out@);
    let mut p: usize = 0;
    while p < out.len()
        invariant
            p <= out.len(),
            base == views(out@),
            forall|k: int| 0 <= k < p ==> column_cmp(e@, base[k], column) != CmpResult::Less,
        decreases out.len() - p,
    {
        proof {
            assert(base[p as int] == out@[p as int]@);
        }
        if e.cmp(&out[p], column) == CmpResult::Less {
            return p;
        }
        p += 1;
    }
    p
}

/// Places `e` into the already-sorted `out`, after every entity that does
/// not compare strictly greater.
fn insert_entity(out: &mut Vec<Instance>, e: Instance, column: BasicColumn)
    ensures
        views(final(out)@) == insert_sorted(e@, views(old(out)@), column),
{
    let ghost base: Seq<InstanceV> = views(out@);
    let p: usize = find_insert_pos(out, &e, column);
    out.insert(p, e);
    proof {
        lemma_insert_at_position(e@, base, column, p as int);
        assert(views(out@) =~= base.insert(p as int, e@));
    }
}

/// Scanning to the first strictly-greater entity places the insertion
/// exactly where the specification puts it.
proof fn lemma_insert_at_position(e: InstanceV, s: Seq<InstanceV>, c: BasicColumn, p: int)
    requires
        0 <= p <= s.len(),
        forall|k: int| 0 <= k < p ==> column_cmp(e, s[k], c) != CmpResult::Less,
        p < s.len() ==> column_cmp(e, s[p], c) == CmpResult::Less,
    ensures
        insert_sorted(e, s, c) == s.insert(p, e),
    decreases s.len(),
{
    if s.len() == 0 {
        assert(insert_sorted(e, s, c) =~= s.insert(0, e));
    } else if column_cmp(e, s[0], c) == CmpResult::Less {
        assert(p == 0);
        assert(seq![e] + s =~= s.insert(0, e));
    } else {
        assert(p > 0);
        let t = s.drop_first();
        assert(forall|k: int| 0 <= k < p - 1 ==> t[k] == s[k + 1]);
        assert(p - 1 < t.len() ==> column_cmp(e, t[p - 1], c) == CmpResult::Less);
        lemma_insert_at_position(e, t, c, p - 1);
        assert(seq![s[0]] + t.insert(p - 1, e) =~= s.insert(p, e));
    }
}

/// Sorts the entities stably by `column`'s comparison rule: the result is
/// the insertion sort of the input, so equal-key entities keep their
/// original relative order.
pub fn sort_by_column(items: &Vec<Instance>, column: BasicColumn) -> (r: Vec<Instance>)
    ensures
        views(r@) == stable_sorted(views(items@), column),
{
    let ghost vs: Seq<InstanceV> = views(items@);
    let mut out: Vec<Instance> = Vec::new();
    let mut i: usize = 0;
    while i < items.len()
        invariant
            i <= items.len(),
            vs == views(items@),
            views(out@) == stable_sorted(vs.take(i as int), column),
        decreases items.len() - i,
    {
        proof {
            assert(vs[i as int] == items@[i as int]@);
            assert(vs.take(i as int + 1).drop_last() =~= vs.take(i as int));
            assert(vs.take(i as int + 1).last() == vs[i as int]);
        }
        insert_entity(&mut out, items[i].clone(), column);
        i += 1;
    }
    proof {
        assert(vs.take(vs.len() as int) =~= vs);
    }
    out
}

} // verus!
