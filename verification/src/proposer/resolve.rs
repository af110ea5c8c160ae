//! Resolving the sub-routine names of a cluster against the original model,
//! and gathering the dependencies of what was resolved.
use crate::domain::models::{Subroutine, SubroutineView};
use crate::text::contains_text;
use vstd::prelude::*;

verus! {

/// The first sub-routine of `subroutines` that is called `name`, if any.
pub open spec fn find_subroutine(subroutines: Seq<SubroutineView>, name: Seq<char>) -> Option<
    SubroutineView,
>
    decreases subroutines.len(),
{
    if subroutines.len() == 0 {
        None
    } else {
        match find_subroutine(subroutines.drop_last(), name) {
            Some(found) => Some(found),
            None => if subroutines.last().name == name {
                Some(subroutines.last())
            } else {
                None
            },
        }
    }
}

/// The sub-routines that `names` resolve to, in the order of `names`; a name
/// that no sub-routine bears contributes nothing.
pub open spec fn resolve(subroutines: Seq<SubroutineView>, names: Seq<Seq<char>>) -> Seq<
    SubroutineView,
> {
    names.filter_map(|name: Seq<char>| find_subroutine(subroutines, name))
}

/// `known` followed by the texts of `items` that neither `known` nor an
/// earlier item holds.
pub open spec fn append_new(known: Seq<Seq<char>>, items: Seq<Seq<char>>) -> Seq<Seq<char>>
    decreases items.len(),
{
    if items.len() == 0 {
        known
    } else {
        let sofar = append_new(known, items.drop_last());
        if sofar.contains(items.last()) {
            sofar
        } else {
            sofar.push(items.last())
        }
    }
}

/// The dependencies of `subroutines`, each once, in order of first mention.
pub open spec fn union_dependencies(subroutines: Seq<SubroutineView>) -> Seq<Seq<char>>
    decreases subroutines.len(),
{
    if subroutines.len() == 0 {
        Seq::empty()
    } else {
        append_new(union_dependencies(subroutines.drop_last()), subroutines.last().dependencies)
    }
}

/// What `find_subroutine` finds is the first sub-routine of that name.
pub proof fn lemma_find_subroutine(subroutines: Seq<SubroutineView>, name: Seq<char>)
    ensures
        match find_subroutine(subroutines, name) {
            Some(found) => exists|i: int|
                {
                    &&& 0 <= i < subroutines.len()
                    &&& #[trigger] subroutines[i] == found
                    &&& found.name == name
                    &&& forall|j: int| 0 <= j < i ==> (#[trigger] subroutines[j]).name != name
                },
            None => forall|j: int|
                0 <= j < subroutines.len() ==> (#[trigger] subroutines[j]).name != name,
        },
    decreases subroutines.len(),
{
    if subroutines.len() > 0 {
        let rest = subroutines.drop_last();
        lemma_find_subroutine(rest, name);
        match find_subroutine(rest, name) {
            Some(found) => {
                let i = choose|i: int|
                    {
                        &&& 0 <= i < rest.len()
                        &&& #[trigger] rest[i] == found
                        &&& found.name == name
                        &&& forall|j: int| 0 <= j < i ==> (#[trigger] rest[j]).name != name
                    };
                assert(subroutines[i] == found);
                assert forall|j: int| 0 <= j < i implies (#[trigger] subroutines[j]).name
                    != name by {
                    assert(rest[j] == subroutines[j]);
                }
            },
            None => {
                assert forall|j: int| 0 <= j < rest.len() implies (#[trigger] subroutines[j]).name
                    != name by {
                    assert(rest[j] == subroutines[j]);
                }
                if subroutines.last().name == name {
                    let i = subroutines.len() - 1;
                    assert(subroutines[i] == subroutines.last());
                }
            },
        }
    }
}

/// Every resolved sub-routine stands, unchanged, in the original list.
pub proof fn lemma_resolved_are_original(subroutines: Seq<SubroutineView>, names: Seq<Seq<char>>)
    ensures
        forall|k: int|
            0 <= k < resolve(subroutines, names).len() ==> subroutines.contains(
                #[trigger] resolve(subroutines, names)[k],
            ),
        resolve(subroutines, names).len() <= names.len(),
    decreases names.len(),
{
    if names.len() > 0 {
        let rest = names.drop_last();
        lemma_resolved_are_original(subroutines, rest);
        lemma_find_subroutine(subroutines, names.last());
        let lookup = |name: Seq<char>| find_subroutine(subroutines, name);
        assert(resolve(subroutines, rest) == rest.filter_map(lookup));
        match find_subroutine(subroutines, names.last()) {
            Some(found) => {
                assert(resolve(subroutines, names) == resolve(subroutines, rest) + seq![found]);
                assert(subroutines.contains(found));
            },
            None => {
                assert(resolve(subroutines, names) == resolve(subroutines, rest));
            },
        }
    }
}

/// `append_new` adds nothing twice and loses nothing.
pub proof fn lemma_append_new(known: Seq<Seq<char>>, items: Seq<Seq<char>>)
    requires
        known.no_duplicates(),
    ensures
        append_new(known, items).no_duplicates(),
        forall|t: Seq<char>|
            append_new(known, items).contains(t) <==> known.contains(t) || items.contains(t),
        known.len() <= append_new(known, items).len(),
        append_new(known, items).take(known.len() as int) == known,
    decreases items.len(),
{
    if items.len() == 0 {
        assert(known.take(known.len() as int) =~= known);
    } else {
        let rest = items.drop_last();
        let last = items.last();
        lemma_append_new(known, rest);
        let sofar = append_new(known, rest);
        let all = append_new(known, items);
        assert forall|t: Seq<char>| all.contains(t) <==> known.contains(t) || items.contains(
            t,
        ) by {
            if items.contains(t) {
                let i = choose|i: int| 0 <= i < items.len() && items[i] == t;
                if i < rest.len() {
                    assert(rest[i] == t);
                    assert(rest.contains(t));
                }
            }
            if rest.contains(t) {
                let i = choose|i: int| 0 <= i < rest.len() && rest[i] == t;
                assert(items[i] == t);
            }
            assert(items[items.len() - 1] == last);
            if sofar.contains(last) {
            } else {
                if all.contains(t) {
                    let i = choose|i: int| 0 <= i < all.len() && all[i] == t;
                    if i < sofar.len() {
                        assert(sofar[i] == t);
                    }
                }
                if sofar.contains(t) {
                    let i = choose|i: int| 0 <= i < sofar.len() && sofar[i] == t;
                    assert(all[i] == t);
                }
                assert(all[all.len() - 1] == last);
            }
        }
        if !sofar.contains(last) {
            assert(all.take(known.len() as int) =~= sofar.take(known.len() as int));
        }
    }
}

/// The gathered dependencies hold nothing twice, and hold a text exactly when
/// one of the sub-routines depends on it.
pub proof fn lemma_union_dependencies(subroutines: Seq<SubroutineView>)
    ensures
        union_dependencies(subroutines).no_duplicates(),
        forall|t: Seq<char>|
            union_dependencies(subroutines).contains(t) <==> exists|i: int|
                0 <= i < subroutines.len() && (#[trigger] subroutines[i]).dependencies.contains(t),
    decreases subroutines.len(),
{
    if subroutines.len() > 0 {
        let rest = subroutines.drop_last();
        let last = subroutines.last();
        lemma_union_dependencies(rest);
        lemma_append_new(union_dependencies(rest), last.dependencies);
        assert forall|t: Seq<char>|
            union_dependencies(subroutines).contains(t) <==> exists|i: int|
                0 <= i < subroutines.len() && (#[trigger] subroutines[i]).dependencies.contains(
                    t,
                ) by {
            if union_dependencies(rest).contains(t) {
                let i = choose|i: int|
                    0 <= i < rest.len() && (#[trigger] rest[i]).dependencies.contains(t);
                assert(subroutines[i] == rest[i]);
            }
            if last.dependencies.contains(t) {
                assert(subroutines[subroutines.len() - 1] == last);
            }
            if exists|i: int|
                0 <= i < subroutines.len() && (#[trigger] subroutines[i]).dependencies.contains(
                    t,
                ) {
                let i = choose|i: int|
                    0 <= i < subroutines.len() && (
                    #[trigger] subroutines[i]).dependencies.contains(t);
                if i < rest.len() {
                    assert(rest[i] == subroutines[i]);
                }
            }
        }
    }
}

/// Looks `name` up among `subroutines`; the first of that name wins.
pub fn lookup_subroutine<'a>(subroutines: &'a Vec<Subroutine>, name: &String) -> (r: Option<
    &'a Subroutine,
>)
    ensures
        r.deep_view() == find_subroutine(subroutines.deep_view(), name@),
{
    let mut i: usize = 0;
    proof {
        assert(subroutines.deep_view().take(0).len() == 0);
    }
    while i < subroutines.len()
        invariant
            i <= subroutines.len(),
            find_subroutine(subroutines.deep_view().take(i as int), name@) is None,
        decreases subroutines.len() - i,
    {
        proof {
            let all = subroutines.deep_view();
            assert(all.take(i + 1).drop_last() == all.take(i as int));
            assert(all.take(i + 1).last() == subroutines[i as int]@);
        }
        if subroutines[i].name == *name {
            proof {
                lemma_find_prefix(subroutines.deep_view(), i + 1, name@);
            }
            return Some(&subroutines[i]);
        }
        i = i + 1;
    }
    proof {
        assert(subroutines.deep_view().take(i as int) == subroutines.deep_view());
    }
    None
}

/// A sub-routine found in a prefix of the list is the one found in the list.
proof fn lemma_find_prefix(subroutines: Seq<SubroutineView>, n: int, name: Seq<char>)
    requires
        0 <= n <= subroutines.len(),
        find_subroutine(subroutines.take(n), name) is Some,
    ensures
        find_subroutine(subroutines, name) == find_subroutine(subroutines.take(n), name),
    decreases subroutines.len() - n,
{
    if n < subroutines.len() {
        assert(subroutines.take(n + 1).drop_last() == subroutines.take(n));
        lemma_find_prefix(subroutines, n + 1, name);
    } else {
        assert(subroutines.take(n) == subroutines);
    }
}

/// Resolves `names` against `subroutines`: a copy of each sub-routine that a
/// name finds, in the order of `names`. Unknown names are skipped.
pub fn resolve_subroutines(subroutines: &Vec<Subroutine>, names: &Vec<String>) -> (r: Vec<
    Subroutine,
>)
    ensures
        r.deep_view() == resolve(subroutines.deep_view(), names.deep_view()),
{
    let mut out: Vec<Subroutine> = Vec::new();
    let mut i: usize = 0;
    proof {
        assert(names.deep_view().take(0).len() == 0);
        assert(out.deep_view() =~= Seq::<SubroutineView>::empty());
    }
    while i < names.len()
        invariant
            i <= names.len(),
            out.deep_view() == resolve(subroutines.deep_view(), names.deep_view().take(i as int)),
        decreases names.len() - i,
    {
        let ghost before = out.deep_view();
        proof {
            let all = names.deep_view();
            assert(all.take(i + 1).drop_last() == all.take(i as int));
            assert(all.take(i + 1).last() == names[i as int]@);
        }
        match lookup_subroutine(subroutines, &names[i]) {
            Some(found) => {
                out.push(found.clone());
                assert(out.deep_view() =~= before + seq![found@]);
            },
            None => {},
        }
        i = i + 1;
    }
    proof {
        assert(names.deep_view().take(i as int) == names.deep_view());
    }
    out
}

/// Adds to `known` each text of `items` that it does not hold yet.
pub fn add_new(known: &mut Vec<String>, items: &Vec<String>)
    ensures
        final(known).deep_view() == append_new(old(known).deep_view(), items.deep_view()),
{
    let mut i: usize = 0;
    proof {
        assert(items.deep_view().take(0).len() == 0);
    }
    while i < items.len()
        invariant
            i <= items.len(),
            known.deep_view() == append_new(
                old(known).deep_view(),
                items.deep_view().take(i as int),
            ),
        decreases items.len() - i,
    {
        let ghost before = known.deep_view();
        proof {
            let all = items.deep_view();
            assert(all.take(i + 1).drop_last() == all.take(i as int));
            assert(all.take(i + 1).last() == items[i as int]@);
        }
        if !contains_text(known, &items[i]) {
            known.push(items[i].clone());
            assert(known.deep_view() =~= before.push(items[i as int]@));
        }
        i = i + 1;
    }
    proof {
        assert(items.deep_view().take(i as int) == items.deep_view());
    }
}

/// Gathers the dependencies of `subroutines`, each once, in order of first
/// mention.
pub fn collect_dependencies(subroutines: &Vec<Subroutine>) -> (r: Vec<String>)
    ensures
        r.deep_view() == union_dependencies(subroutines.deep_view()),
        r.deep_view().no_duplicates(),
{
    let mut out: Vec<String> = Vec::new();
    let mut i: usize = 0;
    proof {
        assert(subroutines.deep_view().take(0).len() == 0);
        assert(out.deep_view() =~= Seq::<Seq<char>>::empty());
    }
    while i < subroutines.len()
        invariant
            i <= subroutines.len(),
            out.deep_view() == union_dependencies(subroutines.deep_view().take(i as int)),
        decreases subroutines.len() - i,
    {
        proof {
            let all = subroutines.deep_view();
            assert(all.take(i + 1).drop_last() == all.take(i as int));
            assert(all.take(i + 1).last() == subroutines[i as int]@);
        }
        add_new(&mut out, &subroutines[i].dependencies);
        i = i + 1;
    }
    proof {
        assert(subroutines.deep_view().take(i as int) == subroutines.deep_view());
        lemma_union_dependencies(subroutines.deep_view());
    }
    out
}

} // verus!
