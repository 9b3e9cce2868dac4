//! Selection of the best installation candidate under the three-key order:
//! candidates that already carry the matching compiler toolset come first,
//! then higher major versions, and on a full tie the more preferred product.

use vstd::prelude::*;
use vstd::pervasive::VecAdditionalExecFns;

use crate::install::VisualStudio;
use crate::install::VisualStudioView;

verus! {

/// Whether `a` sorts at or before `b`: toolset presence first, then the
/// higher major version, then the preferred product. A total preorder.
pub open spec fn inst_le(a: VisualStudioView, b: VisualStudioView) -> bool {
    if (a.msvc is Some) != (b.msvc is Some) {
        a.msvc is Some
    } else if a.version != b.version {
        a.version > b.version
    } else {
        a.product_id.rank() <= b.product_id.rank()
    }
}

/// Any two candidates are comparable.
pub proof fn lemma_inst_le_total(a: VisualStudioView, b: VisualStudioView)
    ensures
        inst_le(a, b) || inst_le(b, a),
{
}

/// The order is transitive.
pub proof fn lemma_inst_le_trans(a: VisualStudioView, b: VisualStudioView, c: VisualStudioView)
    requires
        inst_le(a, b),
        inst_le(b, c),
    ensures
        inst_le(a, c),
{
}

/// Toolset presence dominates every other key: a candidate that already has
/// the toolset sorts strictly before any candidate that lacks it, whatever
/// their versions and products.
pub proof fn lemma_toolset_presence_dominates(a: VisualStudioView, b: VisualStudioView)
    requires
        a.msvc is Some,
        b.msvc is None,
    ensures
        inst_le(a, b),
        !inst_le(b, a),
{
}

/// On equal toolset presence and equal major version, the product order
/// alone decides.
pub proof fn lemma_product_breaks_ties(a: VisualStudioView, b: VisualStudioView)
    requires
        (a.msvc is Some) == (b.msvc is Some),
        a.version == b.version,
    ensures
        inst_le(a, b) <==> a.product_id.rank() <= b.product_id.rank(),
{
}

/// Compares two candidates under the three-key order.
pub fn le_instances(a: &VisualStudio, b: &VisualStudio) -> (r: bool)
    ensures
        r == inst_le(a@, b@),
{
    let a_has = a.msvc.is_some();
    let b_has = b.msvc.is_some();
    if a_has != b_has {
        a_has
    } else if a.version != b.version {
        a.version > b.version
    } else {
        a.product_id.preference() <= b.product_id.preference()
    }
}

/// Whether a candidate sequence is sorted under the three-key order.
pub open spec fn sorted(s: Seq<VisualStudioView>) -> bool {
    forall|p: int, q: int| 0 <= p < q < s.len() ==> inst_le(#[trigger] s[p], #[trigger] s[q])
}

/// Sorts the candidates under the three-key order, keeping exactly the
/// same candidates.
pub fn sort_instances(v: &mut Vec<VisualStudio>)
    ensures
        sorted(final(v).deep_view()),
        final(v)@.to_multiset() == old(v)@.to_multiset(),
        final(v)@.len() == old(v)@.len(),
{
    broadcast use vstd::seq_lib::group_to_multiset_ensures;

    let n = v.len();
    if n <= 1 {
        return ;
    }
    let mut i: usize = 1;
    while i < n
        invariant
            n == v@.len(),
            1 <= i <= n,
            forall|p: int, q: int|
                0 <= p < q < i ==> inst_le(
                    #[trigger] v.deep_view()[p],
                    #[trigger] v.deep_view()[q],
                ),
            v@.to_multiset() == old(v)@.to_multiset(),
        decreases n - i,
    {
        let mut j: usize = i;
        while j > 0 && !le_instances(&v[j - 1], &v[j])
            invariant
                n == v@.len(),
                0 <= j <= i < n,
                forall|p: int, q: int|
                    0 <= p < q <= i as int && q != j ==> inst_le(
                        #[trigger] v.deep_view()[p],
                        #[trigger] v.deep_view()[q],
                    ),
                v@.to_multiset() == old(v)@.to_multiset(),
            decreases j,
        {
            let ghost before = v@;
            let ghost dbefore = v.deep_view();
            let a = v[j - 1].clone();
            let b = v[j].clone();
            v.set(j - 1, b);
            v.set(j, a);
            proof {
                broadcast use vstd::multiset::group_multiset_axioms;
                broadcast use vstd::seq_lib::group_to_multiset_ensures;

                assert(v@ =~= before.update(j - 1, before[j as int]).update(
                    j as int,
                    before[j - 1],
                ));
                assert(before.contains(before[j - 1]));
                assert(before.contains(before[j as int]));
                let s1 = before.update(j - 1, before[j as int]);
                assert(s1.to_multiset() == before.to_multiset().insert(before[j as int]).remove(
                    before[j - 1],
                ));
                assert(v@ =~= s1.update(j as int, before[j - 1]));
                assert(s1[j as int] == before[j as int]);
                assert(v@.to_multiset() == s1.to_multiset().insert(before[j - 1]).remove(
                    before[j as int],
                ));
                assert(before.to_multiset().count(before[j - 1]) > 0);
                assert(before.to_multiset().count(before[j as int]) > 0);
                assert(v@.to_multiset() =~= before.to_multiset());
                lemma_inst_le_total(dbefore[j - 1], dbefore[j as int]);
                assert(inst_le(dbefore[j as int], dbefore[j - 1]));
                assert forall|p: int, q: int|
                    0 <= p < q <= i as int && q != j - 1 implies inst_le(
                    #[trigger] v.deep_view()[p],
                    #[trigger] v.deep_view()[q],
                ) by {
                    let dv = v.deep_view();
                    assert(dv[j - 1] == dbefore[j as int]);
                    assert(dv[j as int] == dbefore[j - 1]);
                    if q == j as int {
                        if p == j - 1 {
                            assert(inst_le(dbefore[j as int], dbefore[j - 1]));
                        } else {
                            assert(dv[p] == dbefore[p]);
                            assert(inst_le(dbefore[p], dbefore[j - 1]));
                        }
                    } else if q > j as int {
                        assert(dv[q] == dbefore[q]);
                        if p == j - 1 {
                            assert(inst_le(dbefore[j as int], dbefore[q]));
                        } else if p == j as int {
                            assert(inst_le(dbefore[j - 1], dbefore[q]));
                        } else {
                            assert(dv[p] == dbefore[p]);
                            assert(inst_le(dbefore[p], dbefore[q]));
                        }
                    } else {
                        assert(dv[p] == dbefore[p]);
                        assert(dv[q] == dbefore[q]);
                        assert(inst_le(dbefore[p], dbefore[q]));
                    }
                }
            }
            j -= 1;
        }
        proof {
            assert forall|p: int, q: int| 0 <= p < q <= i as int implies inst_le(
                #[trigger] v.deep_view()[p],
                #[trigger] v.deep_view()[q],
            ) by {
                if q == j as int && j > 0 {
                    assert(inst_le(v.deep_view()[j - 1], v.deep_view()[j as int]));
                    if p < j - 1 {
                        lemma_inst_le_trans(
                            v.deep_view()[p],
                            v.deep_view()[j - 1],
                            v.deep_view()[j as int],
                        );
                    }
                }
            }
        }
        i += 1;
    }
}

/// The single best candidate under the three-key order, or nothing when no
/// candidate was discovered: a candidate of the list that sorts at or
/// before every candidate of the list.
pub fn select_best(list: Vec<VisualStudio>) -> (r: Option<VisualStudio>)
    ensures
        match r {
            Some(best) => {
                &&& list@.len() > 0
                &&& list@.contains(best)
                &&& forall|j: int|
                    0 <= j < list@.len() ==> inst_le(best@, (#[trigger] list@[j])@)
            },
            None => list@.len() == 0,
        },
{
    broadcast use vstd::seq_lib::group_to_multiset_ensures;

    let ghost orig = list@;
    let mut sortable = list;
    sort_instances(&mut sortable);
    if sortable.is_empty() {
        return None;
    }
    let ghost s_sorted = sortable@;
    let ghost deep = sortable.deep_view();
    let best = sortable.remove(0);
    proof {
        assert(s_sorted[0] == best);
        assert(s_sorted.contains(best));
        assert(orig.to_multiset().count(best) > 0);
        assert(orig.contains(best));
        assert forall|j: int| 0 <= j < orig.len() implies inst_le(best@, (#[trigger] orig[j])@) by {
            assert(orig[j] == orig[j]);
            assert(orig.contains(orig[j]));
            assert(s_sorted.to_multiset().count(orig[j]) > 0);
            assert(s_sorted.contains(orig[j]));
            let k = choose|k: int| 0 <= k < s_sorted.len() && s_sorted[k] == orig[j];
            if k > 0 {
                assert(inst_le(deep[0], deep[k]));
            }
        }
    }
    Some(best)
}

} // verus!
