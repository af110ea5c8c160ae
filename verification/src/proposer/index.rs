//! The assignment index: which clusters claimed which sub-routine.
use vstd::prelude::*;

verus! {

/// The claims on sub-routines: each claimed name with the names of the
/// clusters that claimed it, in the order in which they did.
pub type Claims = Map<Seq<char>, Seq<Seq<char>>>;

/// `claims` after `cluster` has claimed `subroutine`: the claim is appended,
/// earlier claims stay.
pub open spec fn record_claim(claims: Claims, subroutine: Seq<char>, cluster: Seq<char>) -> Claims {
    if claims.dom().contains(subroutine) {
        claims.insert(subroutine, claims[subroutine].push(cluster))
    } else {
        claims.insert(subroutine, seq![cluster])
    }
}

/// The sub-routine names that more than one claim was recorded for.
pub open spec fn duplicated_names(claims: Claims) -> Set<Seq<char>> {
    Set::new(|name: Seq<char>| claims.dom().contains(name) && claims[name].len() > 1)
}

/// One sub-routine with the clusters that claimed it.
#[derive(Debug, PartialEq, Eq)]
pub struct AssignmentEntry {
    pub subroutine: String,
    pub clusters: Vec<String>,
}

/// The mathematical value of an [`AssignmentEntry`].
pub struct EntryView {
    pub subroutine: Seq<char>,
    pub clusters: Seq<Seq<char>>,
}

impl View for AssignmentEntry {
    type V = EntryView;

    open spec fn view(&self) -> EntryView {
        EntryView { subroutine: self.subroutine@, clusters: self.clusters.deep_view() }
    }
}

impl DeepView for AssignmentEntry {
    type V = EntryView;

    open spec fn deep_view(&self) -> EntryView {
        self@
    }
}

/// The claims that a list of entries stands for.
pub open spec fn claims_of(entries: Seq<EntryView>) -> Claims
    decreases entries.len(),
{
    if entries.len() == 0 {
        Map::empty()
    } else {
        claims_of(entries.drop_last()).insert(entries.last().subroutine, entries.last().clusters)
    }
}

/// No two entries are about the same sub-routine.
pub open spec fn distinct_entries(entries: Seq<EntryView>) -> bool {
    forall|i: int, j: int|
        0 <= i < j < entries.len() ==> (#[trigger] entries[i]).subroutine != (
        #[trigger] entries[j]).subroutine
}

/// With distinct entries, the claims are exactly what the entries say.
pub proof fn lemma_claims_of(entries: Seq<EntryView>)
    requires
        distinct_entries(entries),
    ensures
        claims_of(entries).dom().finite(),
        claims_of(entries).dom().len() == entries.len(),
        forall|i: int|
            0 <= i < entries.len() ==> {
                &&& claims_of(entries).dom().contains((#[trigger] entries[i]).subroutine)
                &&& claims_of(entries)[entries[i].subroutine] == entries[i].clusters
            },
        forall|name: Seq<char>|
            claims_of(entries).dom().contains(name) ==> exists|i: int|
                0 <= i < entries.len() && (#[trigger] entries[i]).subroutine == name,
    decreases entries.len(),
{
    if entries.len() > 0 {
        let rest = entries.drop_last();
        let last = entries.last();
        assert forall|i: int, j: int| 0 <= i < j < rest.len() implies (#[trigger] rest[i]).subroutine
            != (#[trigger] rest[j]).subroutine by {
            assert(rest[i] == entries[i]);
            assert(rest[j] == entries[j]);
        }
        lemma_claims_of(rest);
        assert(!claims_of(rest).dom().contains(last.subroutine)) by {
            if claims_of(rest).dom().contains(last.subroutine) {
                let i = choose|i: int|
                    0 <= i < rest.len() && (#[trigger] rest[i]).subroutine == last.subroutine;
                assert(rest[i] == entries[i]);
                assert(entries[entries.len() - 1] == last);
            }
        }
        assert forall|i: int| 0 <= i < entries.len() implies {
            &&& claims_of(entries).dom().contains((#[trigger] entries[i]).subroutine)
            &&& claims_of(entries)[entries[i].subroutine] == entries[i].clusters
        } by {
            if i < rest.len() {
                assert(rest[i] == entries[i]);
            }
        }
        assert forall|name: Seq<char>| claims_of(entries).dom().contains(name) implies exists|
            i: int,
        |
            0 <= i < entries.len() && (#[trigger] entries[i]).subroutine == name by {
            if name == last.subroutine {
                assert(entries[entries.len() - 1].subroutine == name);
            } else {
                let i = choose|i: int|
                    0 <= i < rest.len() && (#[trigger] rest[i]).subroutine == name;
                assert(entries[i] == rest[i]);
            }
        }
    }
}

/// The duplicated names of a list of distinct entries, counted one entry at
/// a time.
proof fn lemma_duplicated_step(entries: Seq<EntryView>)
    requires
        distinct_entries(entries),
        entries.len() > 0,
    ensures
        distinct_entries(entries.drop_last()),
        duplicated_names(claims_of(entries.drop_last())).finite(),
        duplicated_names(claims_of(entries)).finite(),
        duplicated_names(claims_of(entries)).len() == duplicated_names(
            claims_of(entries.drop_last()),
        ).len() + if entries.last().clusters.len() > 1 {
            1nat
        } else {
            0nat
        },
        duplicated_names(claims_of(entries)).len() <= entries.len(),
    decreases entries.len(),
{
    let rest = entries.drop_last();
    let last = entries.last();
    assert forall|i: int, j: int| 0 <= i < j < rest.len() implies (#[trigger] rest[i]).subroutine
        != (#[trigger] rest[j]).subroutine by {
        assert(rest[i] == entries[i]);
        assert(rest[j] == entries[j]);
    }
    lemma_claims_of(rest);
    lemma_claims_of(entries);
    let before = duplicated_names(claims_of(rest));
    let after = duplicated_names(claims_of(entries));
    assert(before.subset_of(claims_of(rest).dom()));
    vstd::set_lib::lemma_len_subset(before, claims_of(rest).dom());
    assert(!claims_of(rest).dom().contains(last.subroutine)) by {
        if claims_of(rest).dom().contains(last.subroutine) {
            let i = choose|i: int|
                0 <= i < rest.len() && (#[trigger] rest[i]).subroutine == last.subroutine;
            assert(rest[i] == entries[i]);
            assert(entries[entries.len() - 1] == last);
        }
    }
    if last.clusters.len() > 1 {
        assert(after =~= before.insert(last.subroutine));
    } else {
        assert(after =~= before);
    }
}

/// The transient index from sub-routine name to the clusters that claimed it.
#[derive(Debug)]
pub struct SubroutineAssignmentIndex {
    entries: Vec<AssignmentEntry>,
}

impl View for SubroutineAssignmentIndex {
    type V = Claims;

    closed spec fn view(&self) -> Claims {
        claims_of(self.entries.deep_view())
    }
}

impl SubroutineAssignmentIndex {
    #[verifier::type_invariant]
    spec fn one_entry_per_name(self) -> bool {
        distinct_entries(self.entries.deep_view())
    }

    /// An index without claims.
    pub fn new() -> (r: SubroutineAssignmentIndex)
        ensures
            r@ == Map::<Seq<char>, Seq<Seq<char>>>::empty(),
    {
        let entries: Vec<AssignmentEntry> = Vec::new();
        assert(entries.deep_view() =~= Seq::<EntryView>::empty());
        SubroutineAssignmentIndex { entries }
    }

    fn position(&self, subroutine: &String) -> (r: Option<usize>)
        ensures
            match r {
                Some(i) => i < self.entries.len() && self.entries[i as int].subroutine@
                    == subroutine@,
                None => forall|j: int|
                    0 <= j < self.entries.len() ==> self.entries[j].subroutine@ != subroutine@,
            },
    {
        let mut i: usize = 0;
        while i < self.entries.len()
            invariant
                i <= self.entries.len(),
                forall|j: int| 0 <= j < i ==> self.entries[j].subroutine@ != subroutine@,
            decreases self.entries.len() - i,
        {
            if self.entries[i].subroutine == *subroutine {
                return Some(i);
            }
            i = i + 1;
        }
        None
    }

    /// Records that `cluster` claimed `subroutine`. The claim is appended:
    /// earlier claims on the same sub-routine stay.
    pub fn record(&mut self, subroutine: &String, cluster: &String)
        ensures
            final(self)@ == record_claim(old(self)@, subroutine@, cluster@),
    {
        proof {
            use_type_invariant(&*self);
            lemma_claims_of(self.entries.deep_view());
        }
        let ghost before = self.entries.deep_view();
        let found = self.position(subroutine);
        let mut taken = SubroutineAssignmentIndex::new();
        core::mem::swap(self, &mut taken);
        let mut entries = taken.entries;
        match found {
            Some(i) => {
                let mut entry = entries.remove(i);
                entry.clusters.push(cluster.clone());
                entries.insert(i, entry);
                proof {
                    let after = entries.deep_view();
                    assert(after.len() == before.len());
                    assert(after[i as int].subroutine == subroutine@);
                    assert(after[i as int].clusters =~= before[i as int].clusters.push(cluster@));
                    assert forall|j: int| 0 <= j < after.len() && j != i implies after[j]
                        == before[j] by {}
                    assert(distinct_entries(after)) by {
                        assert forall|a: int, b: int| 0 <= a < b < after.len() implies (
                        #[trigger] after[a]).subroutine != (#[trigger] after[b]).subroutine by {
                            assert(after[a].subroutine == before[a].subroutine);
                            assert(after[b].subroutine == before[b].subroutine);
                        }
                    }
                    lemma_claims_of(after);
                    let wanted = record_claim(claims_of(before), subroutine@, cluster@);
                    assert(claims_of(before).dom().contains(before[i as int].subroutine));
                    assert forall|name: Seq<char>|
                        claims_of(after).dom().contains(name) <==> wanted.dom().contains(name) by {
                        if claims_of(after).dom().contains(name) {
                            let j = choose|j: int|
                                0 <= j < after.len() && (#[trigger] after[j]).subroutine == name;
                            assert(before[j].subroutine == name);
                        }
                        if claims_of(before).dom().contains(name) {
                            let j = choose|j: int|
                                0 <= j < before.len() && (#[trigger] before[j]).subroutine
                                    == name;
                            assert(after[j].subroutine == name);
                        }
                    }
                    assert forall|name: Seq<char>|
                        claims_of(after).dom().contains(name) implies claims_of(after)[name]
                        == wanted[name] by {
                        let j = choose|j: int|
                            0 <= j < after.len() && (#[trigger] after[j]).subroutine == name;
                        assert(before[j].subroutine == name);
                        if j != i {
                            assert(after[j] == before[j]);
                        }
                    }
                    assert(claims_of(after) =~= wanted);
                }
            },
            None => {
                let mut clusters: Vec<String> = Vec::new();
                clusters.push(cluster.clone());
                entries.push(AssignmentEntry { subroutine: subroutine.clone(), clusters });
                proof {
                    let after = entries.deep_view();
                    assert(after.drop_last() =~= before);
                    assert(after.last().subroutine == subroutine@);
                    assert(after.last().clusters =~= seq![cluster@]);
                    assert(!claims_of(before).dom().contains(subroutine@)) by {
                        if claims_of(before).dom().contains(subroutine@) {
                            let j = choose|j: int|
                                0 <= j < before.len() && (#[trigger] before[j]).subroutine
                                    == subroutine@;
                            assert(old(self).entries[j].subroutine@ == before[j].subroutine);
                        }
                    }
                    assert(distinct_entries(after)) by {
                        assert forall|a: int, b: int| 0 <= a < b < after.len() implies (
                        #[trigger] after[a]).subroutine != (#[trigger] after[b]).subroutine by {
                            assert(after[a] == before[a]);
                            if b < before.len() {
                                assert(after[b] == before[b]);
                            }
                        }
                    }
                }
            },
        }
        *self = SubroutineAssignmentIndex { entries };
    }

    /// The clusters that claimed `subroutine`, in the order of their claims;
    /// `None` where nothing claimed it.
    pub fn claims(&self, subroutine: &String) -> (r: Option<Vec<String>>)
        ensures
            r is Some <==> self@.dom().contains(subroutine@),
            r matches Some(clusters) ==> clusters.deep_view() == self@[subroutine@],
    {
        proof {
            use_type_invariant(self);
            lemma_claims_of(self.entries.deep_view());
        }
        match self.position(subroutine) {
            Some(i) => {
                let clusters = self.entries[i].clusters.clone();
                proof {
                    assert(self.entries.deep_view()[i as int].subroutine == subroutine@);
                    assert(clusters.deep_view() =~= self.entries[i as int].clusters.deep_view());
                }
                Some(clusters)
            },
            None => {
                proof {
                    if self@.dom().contains(subroutine@) {
                        let j = choose|j: int|
                            0 <= j < self.entries.len() && (
                            #[trigger] self.entries.deep_view()[j]).subroutine == subroutine@;
                        assert(self.entries[j].subroutine@ == subroutine@);
                    }
                }
                None
            },
        }
    }

    /// How many sub-routines have been claimed.
    pub fn len(&self) -> (r: usize)
        ensures
            self@.dom().finite(),
            r == self@.dom().len(),
    {
        proof {
            use_type_invariant(self);
            lemma_claims_of(self.entries.deep_view());
        }
        self.entries.len()
    }

    /// How many sub-routines were claimed more than once.
    pub fn duplicated_count(&self) -> (r: usize)
        ensures
            duplicated_names(self@).finite(),
            r == duplicated_names(self@).len(),
            r <= self@.dom().len(),
    {
        proof {
            use_type_invariant(self);
        }
        let mut count: usize = 0;
        let mut i: usize = 0;
        proof {
            assert(self.entries.deep_view().take(0) =~= Seq::<EntryView>::empty());
            assert(duplicated_names(claims_of(Seq::<EntryView>::empty())) =~= Set::<
                Seq<char>,
            >::empty());
        }
        while i < self.entries.len()
            invariant
                i <= self.entries.len(),
                distinct_entries(self.entries.deep_view()),
                duplicated_names(claims_of(self.entries.deep_view().take(i as int))).finite(),
                count == duplicated_names(
                    claims_of(self.entries.deep_view().take(i as int)),
                ).len(),
                count <= i,
            decreases self.entries.len() - i,
        {
            proof {
                let all = self.entries.deep_view();
                let next = all.take(i + 1);
                assert(next.drop_last() == all.take(i as int));
                assert(next.last() == self.entries[i as int]@);
                assert forall|a: int, b: int| 0 <= a < b < next.len() implies (
                #[trigger] next[a]).subroutine != (#[trigger] next[b]).subroutine by {
                    assert(next[a] == all[a]);
                    assert(next[b] == all[b]);
                }
                lemma_duplicated_step(next);
            }
            if self.entries[i].clusters.len() > 1 {
                count = count + 1;
            }
            i = i + 1;
        }
        proof {
            assert(self.entries.deep_view().take(i as int) == self.entries.deep_view());
            lemma_claims_of(self.entries.deep_view());
        }
        count
    }
}

} // verus!
