//! What the recorded claims say about sub-routines that several clusters
//! share.
use crate::domain::models::{ClusterView, SubroutineView};
use crate::proposer::index::{duplicated_names, record_claim, Claims};
use crate::proposer::resolve::{find_subroutine, lemma_find_subroutine, resolve};
use crate::proposer::synthesis::{assignments, claims_after, names_of, record_all};
use vstd::prelude::*;

verus! {

/// How often `name` occurs in `names`.
pub open spec fn occurrences(names: Seq<Seq<char>>, name: Seq<char>) -> nat
    decreases names.len(),
{
    if names.len() == 0 {
        0
    } else {
        occurrences(names.drop_last(), name) + if names.last() == name {
            1nat
        } else {
            0nat
        }
    }
}

/// How many of `clusters` list `name` among their sub-routines.
pub open spec fn claim_count(clusters: Seq<ClusterView>, name: Seq<char>) -> nat
    decreases clusters.len(),
{
    if clusters.len() == 0 {
        0
    } else {
        claim_count(clusters.drop_last(), name) + if clusters.last().related_subroutines.contains(
            name,
        ) {
            1nat
        } else {
            0nat
        }
    }
}

/// How often `name` is listed by `clusters` altogether.
pub open spec fn listings(clusters: Seq<ClusterView>, name: Seq<char>) -> nat
    decreases clusters.len(),
{
    if clusters.len() == 0 {
        0
    } else {
        listings(clusters.drop_last(), name) + occurrences(
            clusters.last().related_subroutines,
            name,
        )
    }
}

/// The names of sub-routines of the model that two or more of `clusters` claim.
pub open spec fn shared_names(subroutines: Seq<SubroutineView>, clusters: Seq<ClusterView>) -> Set<
    Seq<char>,
> {
    Set::new(
        |name: Seq<char>|
            find_subroutine(subroutines, name) is Some && claim_count(clusters, name) >= 2,
    )
}

/// How many claims `claims` holds on `name`.
pub open spec fn claims_on(claims: Claims, name: Seq<char>) -> nat {
    if claims.dom().contains(name) {
        claims[name].len()
    } else {
        0
    }
}

/// A name occurs in a list exactly when its number of occurrences is not zero.
pub proof fn lemma_occurrences_contains(names: Seq<Seq<char>>, name: Seq<char>)
    ensures
        names.contains(name) <==> occurrences(names, name) > 0,
    decreases names.len(),
{
    if names.len() > 0 {
        let rest = names.drop_last();
        lemma_occurrences_contains(rest, name);
        if rest.contains(name) {
            let i = choose|i: int| 0 <= i < rest.len() && rest[i] == name;
            assert(names[i] == name);
        }
        if names.last() == name {
            assert(names[names.len() - 1] == name);
        }
        if names.contains(name) {
            let i = choose|i: int| 0 <= i < names.len() && names[i] == name;
            if i < rest.len() {
                assert(rest[i] == name);
            }
        }
    }
}

/// Recording the claims of one cluster on `names` adds to each name as many
/// claims as the name has occurrences.
proof fn lemma_record_all_counts(
    claims: Claims,
    names: Seq<Seq<char>>,
    cluster: Seq<char>,
    name: Seq<char>,
)
    ensures
        claims_on(record_all(claims, names, cluster), name) == claims_on(claims, name)
            + occurrences(names, name),
    decreases names.len(),
{
    if names.len() > 0 {
        lemma_record_all_counts(claims, names.drop_last(), cluster, name);
    }
}

/// The resolved names hold a name as often as the cluster lists it, where a
/// sub-routine bears it, and not at all where none does.
proof fn lemma_resolved_occurrences(
    subroutines: Seq<SubroutineView>,
    listed: Seq<Seq<char>>,
    name: Seq<char>,
)
    ensures
        occurrences(names_of(resolve(subroutines, listed)), name) == if find_subroutine(
            subroutines,
            name,
        ) is Some {
            occurrences(listed, name)
        } else {
            0
        },
    decreases listed.len(),
{
    let lookup = |n: Seq<char>| find_subroutine(subroutines, n);
    if listed.len() == 0 {
        assert(resolve(subroutines, listed).len() == 0);
    } else {
        let rest = listed.drop_last();
        let last = listed.last();
        lemma_resolved_occurrences(subroutines, rest, name);
        lemma_find_subroutine(subroutines, last);
        assert(resolve(subroutines, rest) == rest.filter_map(lookup));
        match find_subroutine(subroutines, last) {
            Some(found) => {
                assert(resolve(subroutines, listed) == resolve(subroutines, rest) + seq![found]);
                let names = names_of(resolve(subroutines, listed));
                assert(names.drop_last() =~= names_of(resolve(subroutines, rest)));
                assert(names.last() == last);
            },
            None => {
                assert(resolve(subroutines, listed) == resolve(subroutines, rest));
            },
        }
    }
}

/// The claims recorded on a name are as many as its listings by the
/// clusters, where a sub-routine bears the name, and none where none does.
pub proof fn lemma_claims_count_listings(
    subroutines: Seq<SubroutineView>,
    clusters: Seq<ClusterView>,
    name: Seq<char>,
)
    ensures
        claims_on(assignments(subroutines, clusters), name) == if find_subroutine(
            subroutines,
            name,
        ) is Some {
            listings(clusters, name)
        } else {
            0
        },
    decreases clusters.len(),
{
    if clusters.len() > 0 {
        let rest = clusters.drop_last();
        let last = clusters.last();
        lemma_claims_count_listings(subroutines, rest, name);
        lemma_resolved_occurrences(subroutines, last.related_subroutines, name);
        lemma_record_all_counts(
            assignments(subroutines, rest),
            names_of(resolve(subroutines, last.related_subroutines)),
            last.name,
            name,
        );
    }
}

/// A name is listed at least as often as clusters claim it.
proof fn lemma_listings_cover_claims(clusters: Seq<ClusterView>, name: Seq<char>)
    ensures
        claim_count(clusters, name) <= listings(clusters, name),
        claim_count(clusters, name) == 0 ==> listings(clusters, name) == 0,
    decreases clusters.len(),
{
    if clusters.len() > 0 {
        lemma_listings_cover_claims(clusters.drop_last(), name);
        lemma_occurrences_contains(clusters.last().related_subroutines, name);
    }
}

/// A name that is listed twice or more, but claimed by one cluster at most,
/// is listed twice by one cluster.
proof fn lemma_single_claimant_lists_twice(clusters: Seq<ClusterView>, name: Seq<char>)
    requires
        listings(clusters, name) >= 2,
        claim_count(clusters, name) <= 1,
    ensures
        exists|i: int|
            0 <= i < clusters.len() && occurrences(
                (#[trigger] clusters[i]).related_subroutines,
                name,
            ) >= 2,
    decreases clusters.len(),
{
    if clusters.len() > 0 {
        let rest = clusters.drop_last();
        let last = clusters.last();
        lemma_occurrences_contains(last.related_subroutines, name);
        lemma_listings_cover_claims(rest, name);
        if occurrences(last.related_subroutines, name) >= 2 {
            assert(clusters[clusters.len() - 1] == last);
        } else if occurrences(last.related_subroutines, name) == 0 {
            lemma_single_claimant_lists_twice(rest, name);
            let i = choose|i: int|
                0 <= i < rest.len() && occurrences((#[trigger] rest[i]).related_subroutines, name)
                    >= 2;
            assert(clusters[i] == rest[i]);
        }
    }
}

/// No cluster lists twice a sub-routine that it alone claims.
pub open spec fn sole_claims_listed_once(
    subroutines: Seq<SubroutineView>,
    clusters: Seq<ClusterView>,
) -> bool {
    forall|i: int, name: Seq<char>|
        0 <= i < clusters.len() && find_subroutine(subroutines, name) is Some && #[trigger] occurrences(
            clusters[i].related_subroutines,
            name,
        ) >= 2 ==> claim_count(clusters, name) >= 2
}

/// The sub-routines counted as duplicated are exactly those that two or
/// more of the clusters claim, so the duplicated count is their number.
/// This holds where no cluster lists twice a sub-routine that it alone
/// claims: such a listing is counted as a duplicate, although one cluster
/// made it.
pub proof fn lemma_duplicated_are_shared(
    subroutines: Seq<SubroutineView>,
    clusters: Seq<ClusterView>,
)
    requires
        sole_claims_listed_once(subroutines, clusters),
    ensures
        duplicated_names(assignments(subroutines, clusters)) == shared_names(
            subroutines,
            clusters,
        ),
        duplicated_names(assignments(subroutines, clusters)).len() == shared_names(
            subroutines,
            clusters,
        ).len(),
{
    let claims = assignments(subroutines, clusters);
    assert forall|name: Seq<char>|
        duplicated_names(claims).contains(name) <==> shared_names(subroutines, clusters).contains(
            name,
        ) by {
        lemma_claims_count_listings(subroutines, clusters, name);
        lemma_listings_cover_claims(clusters, name);
        if find_subroutine(subroutines, name) is Some && listings(clusters, name) >= 2
            && claim_count(clusters, name) <= 1 {
            lemma_single_claimant_lists_twice(clusters, name);
        }
    }
    assert(duplicated_names(claims) =~= shared_names(subroutines, clusters));
}

/// Where no cluster lists a name twice, the premise of
/// [`lemma_duplicated_are_shared`] holds.
pub proof fn lemma_distinct_listings_suffice(
    subroutines: Seq<SubroutineView>,
    clusters: Seq<ClusterView>,
)
    requires
        forall|i: int|
            0 <= i < clusters.len() ==> (#[trigger] clusters[i]).related_subroutines.no_duplicates(),
    ensures
        sole_claims_listed_once(subroutines, clusters),
{
    assert forall|i: int, name: Seq<char>|
        0 <= i < clusters.len() && find_subroutine(subroutines, name) is Some && #[trigger] occurrences(
            clusters[i].related_subroutines,
            name,
        ) >= 2 implies claim_count(clusters, name) >= 2 by {
        lemma_distinct_occurs_once(clusters[i].related_subroutines, name);
    }
}

/// In a list without duplicates every name occurs once at most.
proof fn lemma_distinct_occurs_once(names: Seq<Seq<char>>, name: Seq<char>)
    requires
        names.no_duplicates(),
    ensures
        occurrences(names, name) <= 1,
    decreases names.len(),
{
    if names.len() > 0 {
        let rest = names.drop_last();
        assert(rest.no_duplicates()) by {
            assert forall|a: int, b: int| 0 <= a < rest.len() && 0 <= b < rest.len() && a
                != b implies rest[a] != rest[b] by {
                assert(rest[a] == names[a]);
                assert(rest[b] == names[b]);
            }
        }
        lemma_distinct_occurs_once(rest, name);
        lemma_occurrences_contains(rest, name);
        if names.last() == name && rest.contains(name) {
            let i = choose|i: int| 0 <= i < rest.len() && rest[i] == name;
            assert(names[i] == names[names.len() - 1]);
        }
    }
}

} // verus!
