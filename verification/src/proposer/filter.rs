//! The confidence gate: which responsibility clusters are strong enough to
//! act upon.
use crate::domain::models::{ClusterView, Confidence, ResponsibilityCluster};
use vstd::prelude::*;

verus! {

/// The clusters of `clusters` whose confidence reaches `threshold`, in their
/// original order.
pub open spec fn select(clusters: Seq<ClusterView>, threshold: nat) -> Seq<ClusterView> {
    clusters.filter(|c: ClusterView| c.confidence >= threshold)
}

/// Keeps the clusters whose confidence is at least `threshold`, in input order.
pub fn select_clusters(clusters: &Vec<ResponsibilityCluster>, threshold: Confidence) -> (r: Vec<
    ResponsibilityCluster,
>)
    ensures
        r.deep_view() == select(clusters.deep_view(), threshold@),
{
    let mut out: Vec<ResponsibilityCluster> = Vec::new();
    let mut i: usize = 0;
    proof {
        reveal(Seq::filter);
        assert(clusters.deep_view().take(0) =~= Seq::<ClusterView>::empty());
        assert(out.deep_view() =~= Seq::<ClusterView>::empty());
    }
    while i < clusters.len()
        invariant
            i <= clusters.len(),
            out.deep_view() == select(clusters.deep_view().take(i as int), threshold@),
        decreases clusters.len() - i,
    {
        let ghost before = out.deep_view();
        proof {
            reveal(Seq::filter);
            let all = clusters.deep_view();
            assert(all.take(i + 1).drop_last() == all.take(i as int));
            assert(all.take(i + 1).last() == clusters[i as int]@);
        }
        if clusters[i].confidence.at_least(threshold) {
            out.push(clusters[i].clone());
            assert(out.deep_view() =~= before.push(clusters[i as int]@));
        }
        i = i + 1;
    }
    proof {
        assert(clusters.deep_view().take(i as int) == clusters.deep_view());
    }
    out
}

/// Every selected cluster reaches the threshold and stood in the input, and
/// every input cluster that reaches the threshold is selected.
pub proof fn lemma_select_is_exact(clusters: Seq<ClusterView>, threshold: nat)
    ensures
        forall|i: int|
            0 <= i < select(clusters, threshold).len() ==> {
                &&& (#[trigger] select(clusters, threshold)[i]).confidence >= threshold
                &&& clusters.contains(select(clusters, threshold)[i])
            },
        forall|i: int|
            0 <= i < clusters.len() && clusters[i].confidence >= threshold ==> select(
                clusters,
                threshold,
            ).contains(#[trigger] clusters[i]),
        select(clusters, threshold).len() <= clusters.len(),
{
    let pred = |c: ClusterView| c.confidence >= threshold;
    let kept = select(clusters, threshold);
    clusters.lemma_filter_len(pred);
    assert forall|i: int| 0 <= i < kept.len() implies {
        &&& (#[trigger] kept[i]).confidence >= threshold
        &&& clusters.contains(kept[i])
    } by {
        clusters.lemma_filter_pred(pred, i);
        assert(kept.contains(kept[i]));
        clusters.lemma_filter_contains_rev(pred, kept[i]);
    }
    assert forall|i: int|
        0 <= i < clusters.len() && clusters[i].confidence >= threshold implies kept.contains(
        #[trigger] clusters[i],
    ) by {
        clusters.lemma_filter_contains(pred, i);
    }
}

/// Selecting keeps the input order: the selection of a concatenation is the
/// concatenation of the selections.
pub proof fn lemma_select_keeps_order(
    front: Seq<ClusterView>,
    back: Seq<ClusterView>,
    threshold: nat,
)
    ensures
        select(front + back, threshold) == select(front, threshold) + select(back, threshold),
    decreases back.len(),
{
    reveal(Seq::filter);
    if back.len() == 0 {
        assert(front + back =~= front);
        assert(select(front, threshold) + select(back, threshold) =~= select(front, threshold));
    } else {
        lemma_select_keeps_order(front, back.drop_last(), threshold);
        assert((front + back).drop_last() =~= front + back.drop_last());
        assert((front + back).last() == back.last());
        assert(select(front + back, threshold) =~= select(front, threshold) + select(
            back,
            threshold,
        ));
    }
}

/// Selecting twice with one threshold is the same as selecting once.
pub proof fn lemma_select_idempotent(clusters: Seq<ClusterView>, threshold: nat)
    ensures
        select(select(clusters, threshold), threshold) == select(clusters, threshold),
    decreases clusters.len(),
{
    reveal(Seq::filter);
    if clusters.len() == 0 {
    } else {
        let rest = clusters.drop_last();
        let last = clusters.last();
        lemma_select_idempotent(rest, threshold);
        if last.confidence >= threshold {
            let kept = select(rest, threshold);
            assert(select(clusters, threshold) == kept.push(last));
            assert(kept.push(last).drop_last() =~= kept);
            assert(kept.push(last).last() == last);
        }
    }
}

} // verus!
