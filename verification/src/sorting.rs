//! Depth ordering of screen-space triangles.
//!
//! Painter's-algorithm renderers draw triangles back to front; these sorts
//! order triangle records by their average depth key, furthest first. The
//! depth key is the same ordered 32-bit key the framebuffer uses, so a
//! smaller key means further away. Both sorts are proved to order their
//! input descending and to keep exactly the elements they were given.

use vstd::prelude::*;

use vstd::seq_lib::lemma_multiset_commutative;
use vstd::seq_lib::to_multiset_build;
use vstd::seq_lib::to_multiset_update;

verus! {

/// A triangle's average depth key paired with the triangle's position in
/// the render list.
#[derive(Clone, Copy, Debug, PartialEq, Eq, Structural)]
pub struct DepthEntry {
    /// Average of the triangle's three vertex depth keys.
    pub avg_depth: u32,
    /// Position of the triangle in the render list.
    pub index: usize,
}

/// Ordered by average depth, largest (nearest) first.
pub open spec fn sorted_descending(s: Seq<DepthEntry>) -> bool {
    forall|i: int, j: int| 0 <= i < j < s.len() ==> s[i].avg_depth >= s[j].avg_depth
}

/// Swapping two positions of a sequence keeps its multiset of elements.
proof fn lemma_swap_preserves_multiset(s: Seq<DepthEntry>, i: int, j: int)
    requires
        0 <= i < s.len(),
        0 <= j < s.len(),
        i != j,
    ensures
        s.update(i, s[j]).update(j, s[i]).to_multiset() == s.to_multiset(),
{
    broadcast use to_multiset_update;
    broadcast use vstd::multiset::group_multiset_axioms;
    broadcast use vstd::multiset::group_multiset_properties;
    broadcast use vstd::seq_lib::group_to_multiset_ensures;

    let s1 = s.update(i, s[j]);
    assert(s1.to_multiset() == s.to_multiset().insert(s[j]).remove(s[i]));
    assert(s1[j] == s[j]);
    assert(s.contains(s[i]));
    assert(s.to_multiset().count(s[i]) > 0);
    assert(s.to_multiset().insert(s[j]).remove(s[i]).insert(s[i]).remove(s[j])
        =~= s.to_multiset());
}

/// Bubble sort by average depth, descending (furthest drawn first means the
/// nearest key stands first). Keeps exactly the elements it was given.
pub fn bubble_sort_by_depth_descending(entries: &mut Vec<DepthEntry>)
    ensures
        sorted_descending(final(entries)@),
        final(entries)@.to_multiset() == old(entries)@.to_multiset(),
        final(entries)@.len() == old(entries)@.len(),
{
    let len = entries.len();
    let mut i: usize = 0;
    while i < len
        invariant
            len == entries@.len(),
            i <= len,
            entries@.to_multiset() == old(entries)@.to_multiset(),
            forall|k1: int, k2: int|
                len - i <= k1 < k2 < len ==> entries@[k1].avg_depth >= entries@[k2].avg_depth,
            forall|k1: int, k2: int|
                0 <= k1 < len - i && len - i <= k2 < len ==> entries@[k1].avg_depth
                    >= entries@[k2].avg_depth,
        decreases len - i,
    {
        let mut j: usize = 0;
        while j < len - i - 1
            invariant
                len == entries@.len(),
                i < len,
                j <= len - i - 1,
                entries@.to_multiset() == old(entries)@.to_multiset(),
                forall|k1: int, k2: int|
                    len - i <= k1 < k2 < len ==> entries@[k1].avg_depth >= entries@[k2].avg_depth,
                forall|k1: int, k2: int|
                    0 <= k1 < len - i && len - i <= k2 < len ==> entries@[k1].avg_depth
                        >= entries@[k2].avg_depth,
                forall|k: int| 0 <= k <= j ==> entries@[k].avg_depth >= entries@[j as int].avg_depth,
            decreases len - i - 1 - j,
        {
            let a = entries[j];
            let b = entries[j + 1];
            if a.avg_depth < b.avg_depth {
                let ghost s = entries@;
                entries.set(j, b);
                entries.set(j + 1, a);
                proof {
                    lemma_swap_preserves_multiset(s, j as int, j + 1);
                }
            }
            j += 1;
        }
        i += 1;
    }
}

/// Merge two descending runs into one descending run holding exactly the
/// elements of both.
fn merge_descending(left: Vec<DepthEntry>, right: Vec<DepthEntry>) -> (r: Vec<DepthEntry>)
    requires
        sorted_descending(left@),
        sorted_descending(right@),
    ensures
        sorted_descending(r@),
        r@.to_multiset() == left@.to_multiset().add(right@.to_multiset()),
        r@.len() == left@.len() + right@.len(),
{
    let mut out: Vec<DepthEntry> = Vec::new();
    let mut li: usize = 0;
    let mut ri: usize = 0;
    proof {
        broadcast use vstd::seq_lib::group_to_multiset_ensures;
        broadcast use vstd::multiset::group_multiset_axioms;

        assert(out@.to_multiset().len() == 0);
        assert(left@.subrange(0, 0).to_multiset().len() == 0);
        assert(right@.subrange(0, 0).to_multiset().len() == 0);
        assert(out@.to_multiset() =~= left@.subrange(0, 0).to_multiset().add(
            right@.subrange(0, 0).to_multiset(),
        ));
    }
    while li < left.len() || ri < right.len()
        invariant
            sorted_descending(left@),
            sorted_descending(right@),
            li <= left@.len(),
            ri <= right@.len(),
            out@.len() == li + ri,
            sorted_descending(out@),
            out@.to_multiset() == left@.subrange(0, li as int).to_multiset().add(
                right@.subrange(0, ri as int).to_multiset(),
            ),
            forall|k: int, m: int|
                0 <= k < out@.len() && li <= m < left@.len() ==> out@[k].avg_depth
                    >= left@[m].avg_depth,
            forall|k: int, m: int|
                0 <= k < out@.len() && ri <= m < right@.len() ==> out@[k].avg_depth
                    >= right@[m].avg_depth,
        decreases left@.len() - li + right@.len() - ri,
    {
        let take_left = if li < left.len() {
            if ri < right.len() {
                left[li].avg_depth >= right[ri].avg_depth
            } else {
                true
            }
        } else {
            false
        };
        if take_left {
            let e = left[li];
            proof {
                broadcast use to_multiset_build;
                broadcast use vstd::multiset::group_multiset_axioms;

                assert(left@.subrange(0, li + 1) =~= left@.subrange(0, li as int).push(e));
            }
            out.push(e);
            li += 1;
        } else {
            let e = right[ri];
            proof {
                broadcast use to_multiset_build;
                broadcast use vstd::multiset::group_multiset_axioms;

                assert(right@.subrange(0, ri + 1) =~= right@.subrange(0, ri as int).push(e));
            }
            out.push(e);
            ri += 1;
        }
    }
    proof {
        assert(left@.subrange(0, li as int) =~= left@);
        assert(right@.subrange(0, ri as int) =~= right@);
    }
    out
}

/// Merge sort of a whole vector, descending by average depth.
fn merge_sort_vec(v: Vec<DepthEntry>) -> (r: Vec<DepthEntry>)
    ensures
        sorted_descending(r@),
        r@.to_multiset() == v@.to_multiset(),
        r@.len() == v@.len(),
    decreases v@.len(),
{
    let len = v.len();
    if len <= 1 {
        return v;
    }
    let mid = len / 2;
    let mut left: Vec<DepthEntry> = Vec::new();
    let mut i: usize = 0;
    while i < mid
        invariant
            mid <= len,
            len == v@.len(),
            i <= mid,
            left@ == v@.subrange(0, i as int),
        decreases mid - i,
    {
        let e = v[i];
        proof {
            assert(v@.subrange(0, i + 1) =~= v@.subrange(0, i as int).push(e));
        }
        left.push(e);
        i += 1;
    }
    let mut right: Vec<DepthEntry> = Vec::new();
    let mut k: usize = mid;
    while k < len
        invariant
            mid <= len,
            len == v@.len(),
            mid <= k <= len,
            right@ == v@.subrange(mid as int, k as int),
        decreases len - k,
    {
        let e = v[k];
        proof {
            assert(v@.subrange(mid as int, k + 1) =~= v@.subrange(mid as int, k as int).push(e));
        }
        right.push(e);
        k += 1;
    }
    let ls = merge_sort_vec(left);
    let rs = merge_sort_vec(right);
    let merged = merge_descending(ls, rs);
    proof {
        lemma_multiset_commutative(v@.subrange(0, mid as int), v@.subrange(mid as int, len as int));
        assert(v@.subrange(0, mid as int) + v@.subrange(mid as int, len as int) =~= v@);
    }
    merged
}

/// Merge sort by average depth, descending. Keeps exactly the elements it
/// was given.
pub fn merge_sort_by_depth_descending(entries: &mut Vec<DepthEntry>)
    ensures
        sorted_descending(final(entries)@),
        final(entries)@.to_multiset() == old(entries)@.to_multiset(),
        final(entries)@.len() == old(entries)@.len(),
{
    let mut taken: Vec<DepthEntry> = Vec::new();
    let len = entries.len();
    let mut i: usize = 0;
    while i < len
        invariant
            len == entries@.len(),
            entries@ == old(entries)@,
            i <= len,
            taken@ == entries@.subrange(0, i as int),
        decreases len - i,
    {
        let e = entries[i];
        proof {
            assert(entries@.subrange(0, i + 1) =~= entries@.subrange(0, i as int).push(e));
        }
        taken.push(e);
        i += 1;
    }
    proof {
        assert(taken@ =~= old(entries)@);
    }
    *entries = merge_sort_vec(taken);
}

} // verus!
