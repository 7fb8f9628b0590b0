//! The set of menu positions that the user ticked.

use vstd::prelude::*;

verus! {

/// The positions that occur in `reported`, as a set: how often a position was
/// reported, and where, makes no difference.
pub open spec fn positions_in(reported: Seq<usize>) -> Set<int> {
    Set::new(|p: int| exists|k: int| 0 <= k < reported.len() && reported[k] == p)
}

/// A set of zero-based positions in the list that the menu showed.
///
/// The menu reports the ticked positions as a list. The selection keeps the
/// list, and answers only whether a position is in it.
pub struct Selection {
    reported: Vec<usize>,
}

impl View for Selection {
    type V = Set<int>;

    closed spec fn view(&self) -> Set<int> {
        positions_in(self.reported@)
    }
}

impl Selection {
    /// The selection that holds the positions of `reported`.
    pub fn from_reported(reported: Vec<usize>) -> (selection: Selection)
        ensures
            selection@ == positions_in(reported@),
    {
        Selection { reported }
    }

    /// Whether nothing was ticked.
    pub fn is_empty(&self) -> (b: bool)
        ensures
            b == self@.is_empty(),
    {
        let b = self.reported.len() == 0;
        proof {
            if b {
                assert(self@ =~= Set::<int>::empty());
            } else {
                assert(self@.contains(self.reported@[0] as int));
            }
        }
        b
    }

    /// Whether `position` was ticked.
    pub fn contains(&self, position: usize) -> (b: bool)
        ensures
            b == self@.contains(position as int),
    {
        let mut k: usize = 0;
        while k < self.reported.len()
            invariant
                k <= self.reported@.len(),
                forall|j: int| 0 <= j < k ==> self.reported@[j] != position,
            decreases self.reported@.len() - k,
        {
            if self.reported[k] == position {
                return true;
            }
            k += 1;
        }
        false
    }
}

/// A list of positions with nothing in it stands for the empty set.
pub proof fn lemma_positions_in_empty(reported: Seq<usize>)
    ensures
        positions_in(reported).is_empty() <==> reported.len() == 0,
{
    if reported.len() == 0 {
        assert(positions_in(reported) =~= Set::<int>::empty());
    } else {
        assert(positions_in(reported).contains(reported[0] as int));
    }
}

/// Order and repetition do not count: two reports with the same positions
/// stand for the same selection.
pub proof fn lemma_positions_in_as_set(first: Seq<usize>, second: Seq<usize>)
    requires
        forall|p: usize| first.contains(p) <==> second.contains(p),
    ensures
        positions_in(first) == positions_in(second),
{
    assert forall|p: int| positions_in(first).contains(p) <==> positions_in(second).contains(
        p,
    ) by {
        if positions_in(first).contains(p) {
            let k = choose|k: int| 0 <= k < first.len() && first[k] == p;
            assert(first.contains(first[k]));
            let j = choose|j: int| 0 <= j < second.len() && second[j] == first[k];
            assert(second[j] == p);
        }
        if positions_in(second).contains(p) {
            let k = choose|k: int| 0 <= k < second.len() && second[k] == p;
            assert(second.contains(second[k]));
            let j = choose|j: int| 0 <= j < first.len() && first[j] == second[k];
            assert(first[j] == p);
        }
    }
    assert(positions_in(first) =~= positions_in(second));
}

} // verus!
