use vstd::prelude::*;

verus! {

/// The places of the flags that are set, in rising order.
pub open spec fn set_indices(flags: Seq<bool>) -> Seq<usize>
    decreases flags.len(),
{
    if flags.len() == 0 {
        Seq::empty()
    } else if flags.last() {
        set_indices(flags.drop_last()).push((flags.len() - 1) as usize)
    } else {
        set_indices(flags.drop_last())
    }
}

/// True if every flag is set.
pub fn all_set(flags: &[bool]) -> (all: bool)
    ensures
        all == forall|i: int| 0 <= i < flags@.len() ==> flags@[i],
{
    let mut i: usize = 0;
    while i < flags.len()
        invariant
            i <= flags@.len(),
            forall|j: int| 0 <= j < i ==> flags@[j],
        decreases flags@.len() - i,
    {
        if !flags[i] {
            return false;
        }
        i = i + 1;
    }
    true
}

/// `count` flags, none set.
pub fn none_set(count: usize) -> (flags: Vec<bool>)
    ensures
        flags@ == Seq::new(count as nat, |i: int| false),
{
    let mut flags: Vec<bool> = Vec::new();
    while flags.len() < count
        invariant
            flags@.len() <= count,
            forall|j: int| 0 <= j < flags@.len() ==> !flags@[j],
        decreases count - flags@.len(),
    {
        flags.push(false);
    }
    flags
}

/// The places of the flags that are set, in rising order.
pub fn indices_of(flags: &[bool]) -> (indices: Vec<usize>)
    ensures
        indices@ == set_indices(flags@),
        forall|k: int| 0 <= k < indices@.len() ==> (#[trigger] indices@[k]) < flags@.len(),
{
    let mut indices: Vec<usize> = Vec::new();
    let mut i: usize = 0;
    while i < flags.len()
        invariant
            i <= flags@.len(),
            indices@ == set_indices(flags@.take(i as int)),
        decreases flags@.len() - i,
    {
        assert(flags@.take(i + 1).drop_last() =~= flags@.take(i as int));
        if flags[i] {
            indices.push(i);
        }
        i = i + 1;
    }
    assert(flags@.take(i as int) =~= flags@);
    proof {
        lemma_set_indices(flags@);
    }
    indices
}

/// What `set_indices` lists: every place of a set flag, no other, each once
/// and in rising order.
pub proof fn lemma_set_indices(flags: Seq<bool>)
    requires
        flags.len() <= usize::MAX,
    ensures
        forall|k: int|
            0 <= k < set_indices(flags).len() ==> (#[trigger] set_indices(flags)[k]) < flags.len()
                && flags[set_indices(flags)[k] as int],
        forall|k: int, l: int|
            0 <= k < l < set_indices(flags).len() ==> set_indices(flags)[k] < set_indices(
                flags,
            )[l],
        forall|i: int|
            0 <= i < flags.len() && flags[i] ==> exists|k: int|
                0 <= k < set_indices(flags).len() && set_indices(flags)[k] == i,
        set_indices(flags).len() <= flags.len(),
    decreases flags.len(),
{
    if flags.len() > 0 {
        let earlier = flags.drop_last();
        lemma_set_indices(earlier);
        let before = set_indices(earlier);
        let all = set_indices(flags);
        assert forall|i: int| 0 <= i < flags.len() && flags[i] implies exists|k: int|
            0 <= k < all.len() && all[k] == i by {
            if i < earlier.len() {
                assert(earlier[i]);
                let k = choose|k: int| 0 <= k < before.len() && before[k] == i;
                assert(all[k] == i);
            } else {
                assert(all[all.len() - 1] == i);
            }
        }
    }
}

} // verus!
