//! Entries found by the name they were registered under.  Where a name is
//! registered twice, the later entry counts.

use vstd::prelude::*;

verus! {

/// What `entries` register, by name.
pub open spec fn named<T>(entries: Seq<(String, T)>) -> Map<Seq<char>, T>
    decreases entries.len(),
{
    if entries.len() == 0 {
        Map::empty()
    } else {
        named(entries.drop_last()).insert(entries.last().0@, entries.last().1)
    }
}

/// A name is registered by the last entry that bears it, and not at all if
/// no entry bears it.
pub proof fn lemma_named_by_last_entry<T>(entries: Seq<(String, T)>, name: Seq<char>, i: int)
    requires
        -1 <= i < entries.len(),
        forall|j: int| i < j < entries.len() ==> (#[trigger] entries[j]).0@ != name,
        i >= 0 ==> entries[i].0@ == name,
    ensures
        i >= 0 ==> named(entries).contains_key(name) && named(entries)[name] == entries[i].1,
        i < 0 ==> !named(entries).contains_key(name),
    decreases entries.len(),
{
    if entries.len() > 0 {
        if i < entries.len() - 1 {
            let before = entries.drop_last();
            assert forall|j: int| i < j < before.len() implies (#[trigger] before[j]).0@ != name by {
                assert(before[j] == entries[j]);
            }
            assert(entries[entries.len() - 1].0@ != name);
            lemma_named_by_last_entry(before, name, i);
        }
    }
}

/// The index of the entry that registers `name`: the last one that bears it.
pub fn find<T>(entries: &Vec<(String, T)>, name: &str) -> (found: Option<usize>)
    ensures
        match found {
            Some(i) => i < entries.len() && named(entries@).contains_key(name@) && named(
                entries@,
            )[name@] == entries@[i as int].1,
            None => !named(entries@).contains_key(name@),
        },
{
    let key = name.to_owned();
    let mut i = entries.len();
    while i > 0
        invariant
            i <= entries.len(),
            key@ == name@,
            forall|j: int| i <= j < entries.len() ==> (#[trigger] entries@[j]).0@ != name@,
        decreases i,
    {
        i -= 1;
        if entries[i].0 == key {
            proof {
                lemma_named_by_last_entry(entries@, name@, i as int);
            }
            return Some(i);
        }
    }
    proof {
        lemma_named_by_last_entry(entries@, name@, -1);
    }
    None
}

} // verus!
