use vstd::prelude::*;

verus! {

/// What the spawner reads of one effect: its name and, if it follows another effect,
/// that effect's name.
pub struct SpawnEntry {
    pub name: String,
    pub parent: Option<String>,
}

/// `j` is the last entry, at or before `i`, named `p`. Effects are spawned in order and
/// each one is registered under its name before its own parent is looked up, so a later
/// effect with the same name takes the place of an earlier one.
pub open spec fn is_latest_named(entries: Seq<SpawnEntry>, p: Seq<char>, i: int, j: int) -> bool {
    &&& 0 <= j <= i
    &&& entries[j].name@ == p
    &&& forall|k: int| j < k <= i ==> entries[k].name@ != p
}

/// No entry at or before `i` is named `p`.
pub open spec fn none_named(entries: Seq<SpawnEntry>, p: Seq<char>, i: int) -> bool {
    forall|k: int| 0 <= k <= i ==> entries[k].name@ != p
}

/// `r` is the parent that the effect at `i` is attached to: none when it names no parent
/// or no effect spawned so far carries that name, else the latest effect of that name.
pub open spec fn parent_resolved(entries: Seq<SpawnEntry>, i: int, r: Option<usize>) -> bool {
    match entries[i].parent {
        None => r is None,
        Some(p) => match r {
            Some(j) => is_latest_named(entries, p@, i, j as int),
            None => none_named(entries, p@, i),
        },
    }
}

/// Looks, from `i` down, for the latest entry named `p`.
fn latest_named(entries: &Vec<SpawnEntry>, p: &String, i: usize) -> (r: Option<usize>)
    requires
        i < entries.len(),
    ensures
        match r {
            Some(j) => is_latest_named(entries@, p@, i as int, j as int),
            None => none_named(entries@, p@, i as int),
        },
{
    let mut k: usize = i + 1;
    while k > 0
        invariant
            i < entries.len(),
            k <= i + 1,
            forall|m: int| k <= m <= i ==> entries@[m].name@ != p@,
        decreases k,
    {
        k = k - 1;
        if entries[k].name == *p {
            return Some(k);
        }
    }
    None
}

/// For each effect, in spawning order, the index of the effect it is attached to as a child.
pub fn resolve_parents(entries: &Vec<SpawnEntry>) -> (parents: Vec<Option<usize>>)
    ensures
        parents.len() == entries.len(),
        forall|i: int|
            0 <= i < entries.len() ==> parent_resolved(entries@, i, #[trigger] parents@[i]),
{
    let n = entries.len();
    let mut parents: Vec<Option<usize>> = Vec::new();
    let mut i: usize = 0;
    while i < n
        invariant
            n == entries.len(),
            i <= n,
            parents.len() == i,
            forall|j: int| 0 <= j < i ==> parent_resolved(entries@, j, #[trigger] parents@[j]),
        decreases n - i,
    {
        let r = match &entries[i].parent {
            None => None,
            Some(p) => latest_named(entries, p, i),
        };
        parents.push(r);
        i = i + 1;
    }
    parents
}

/// An effect is never attached to one spawned after it, and what it is attached to
/// carries the name it asks for.
pub proof fn lemma_parent_precedes(entries: Seq<SpawnEntry>, i: int, j: usize)
    requires
        0 <= i < entries.len(),
        parent_resolved(entries, i, Some(j)),
    ensures
        j <= i,
        entries[i].parent matches Some(p) && entries[j as int].name@ == p@,
{
}

/// What an effect is attached to: when it names a parent and some effect spawned so far,
/// itself included, carries that name, it is attached to the last such effect; otherwise
/// to nothing.
pub proof fn lemma_parent_meaning(entries: Seq<SpawnEntry>, i: int, r: Option<usize>)
    requires
        0 <= i < entries.len(),
        parent_resolved(entries, i, r),
    ensures
        r matches Some(j) ==> {
            &&& j <= i
            &&& entries[i].parent matches Some(p)
            &&& entries[j as int].name@ == p@
            &&& forall|k: int| j < k <= i ==> entries[k].name@ != p@
        },
        r is None ==> (entries[i].parent is None || forall|k: int|
            0 <= k <= i ==> entries[k].name@ != entries[i].parent->0@),
        (entries[i].parent matches Some(p) && exists|k: int|
            0 <= k <= i && entries[k].name@ == p@) ==> r is Some,
{
}

/// Each effect has one parent at most: two resolutions of the same effect agree.
pub proof fn lemma_parent_unique(entries: Seq<SpawnEntry>, i: int, r1: Option<usize>, r2: Option<usize>)
    requires
        0 <= i < entries.len(),
        parent_resolved(entries, i, r1),
        parent_resolved(entries, i, r2),
    ensures
        r1 == r2,
{
    if let (Some(a), Some(b)) = (r1, r2) {
        if a < b {
            assert(entries[b as int].name@ != entries[i].parent->0@);
        } else if b < a {
            assert(entries[a as int].name@ != entries[i].parent->0@);
        }
    }
}

/// Effects added after an effect do not change what that effect is attached to.
pub proof fn lemma_later_effects_do_not_matter(
    entries: Seq<SpawnEntry>,
    more: Seq<SpawnEntry>,
    i: int,
    r: Option<usize>,
)
    requires
        0 <= i < entries.len(),
        parent_resolved(entries, i, r),
    ensures
        parent_resolved(entries + more, i, r),
{
    let all = entries + more;
    assert forall|k: int| 0 <= k <= i implies #[trigger] all[k] == entries[k] by {}
}

/// The positions of the effects, among those listed by name, that an effect named `own`
/// can be made to follow: all those named otherwise, in order.
pub open spec fn parent_choice_positions(names: Seq<Seq<char>>, own: Seq<char>) -> Seq<usize>
    decreases names.len(),
{
    if names.len() == 0 {
        Seq::empty()
    } else {
        let n = (names.len() - 1) as int;
        let rest = parent_choice_positions(names.drop_last(), own);
        if names[n] != own {
            rest.push(n as usize)
        } else {
            rest
        }
    }
}

/// Lists, in order, the positions of the effects whose names differ from `own`.
pub fn parent_choices(names: &Vec<String>, own: &String) -> (choices: Vec<usize>)
    ensures
        choices@ == parent_choice_positions(names@.map_values(|s: String| s@), own@),
{
    let ghost all = names@.map_values(|s: String| s@);
    let n = names.len();
    let mut choices: Vec<usize> = Vec::new();
    let mut i: usize = 0;
    while i < n
        invariant
            n == names.len(),
            i <= n,
            all == names@.map_values(|s: String| s@),
            choices@ == parent_choice_positions(all.take(i as int), own@),
        decreases n - i,
    {
        proof {
            assert(all.take(i + 1).drop_last() =~= all.take(i as int));
            assert(all.take(i + 1)[i as int] == names@[i as int]@);
        }
        if names[i] != *own {
            choices.push(i);
        }
        i = i + 1;
    }
    assert(all.take(n as int) =~= all);
    choices
}

/// An effect is offered as a parent exactly when its name differs from the own name.
pub proof fn lemma_parent_choices_exact(names: Seq<Seq<char>>, own: Seq<char>)
    requires
        names.len() <= usize::MAX,
    ensures
        forall|k: int|
            0 <= k < parent_choice_positions(names, own).len() ==> {
                let j = #[trigger] parent_choice_positions(names, own)[k];
                j < names.len() && names[j as int] != own
            },
        forall|j: int|
            0 <= j < names.len() && names[j] != own ==> #[trigger] parent_choice_positions(
                names,
                own,
            ).contains(j as usize),
        forall|p: int, q: int|
            0 <= p < q < parent_choice_positions(names, own).len() ==> #[trigger] parent_choice_positions(
                names,
                own,
            )[p] < #[trigger] parent_choice_positions(names, own)[q],
    decreases names.len(),
{
    if names.len() > 0 {
        let n = (names.len() - 1) as int;
        let front = names.drop_last();
        lemma_parent_choices_exact(front, own);
        let rest = parent_choice_positions(front, own);
        let all = parent_choice_positions(names, own);
        assert forall|k: int| 0 <= k < all.len() implies {
            let j = #[trigger] all[k];
            j < names.len() && names[j as int] != own
        } by {
            if k < rest.len() {
                assert(all[k] == rest[k]);
                assert(names[rest[k] as int] == front[rest[k] as int]);
            }
        }
        assert forall|j: int| 0 <= j < names.len() && names[j] != own implies #[trigger] all.contains(
            j as usize,
        ) by {
            if j < n {
                assert(front[j] == names[j]);
                assert(rest.contains(j as usize));
                let k = choose|k: int| 0 <= k < rest.len() && rest[k] == j as usize;
                assert(all[k] == rest[k]);
            } else {
                assert(all[rest.len() as int] == j as usize);
            }
        }
    }
}

} // verus!
