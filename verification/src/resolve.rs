//! From ticked positions back to branches.
//!
//! A position is all that ties a tick in the menu to a branch, so the list
//! that is picked from has to be the list that was shown. `resolve` checks
//! that before it picks.

use vstd::prelude::*;
use crate::branch::{names_of, texts, LocalBranch};
use crate::error::{BranchError, BranchErrorView};
use crate::selection::Selection;

verus! {

/// The positions below `count` that are in `chosen`, in increasing order.
pub open spec fn chosen_below(count: nat, chosen: Set<int>) -> Seq<int>
    decreases count,
{
    if count == 0 {
        Seq::empty()
    } else {
        let before = chosen_below((count - 1) as nat, chosen);
        if chosen.contains(count - 1) {
            before.push(count - 1)
        } else {
            before
        }
    }
}

/// The items of `items` whose position is in `chosen`, in the order of
/// `items`. Positions of `chosen` beyond the end of `items` pick nothing.
pub open spec fn picked<T>(items: Seq<T>, chosen: Set<int>) -> Seq<T> {
    chosen_below(items.len(), chosen).map_values(|p: int| items[p])
}

/// `chosen_below(count, chosen)` lists each chosen position below `count`
/// once, in increasing order, and nothing else.
pub proof fn lemma_chosen_below(count: nat, chosen: Set<int>)
    ensures
        forall|k: int|
            0 <= k < chosen_below(count, chosen).len() ==> {
                &&& 0 <= (#[trigger] chosen_below(count, chosen)[k]) < count
                &&& chosen.contains(chosen_below(count, chosen)[k])
            },
        forall|j: int, k: int|
            0 <= j < k < chosen_below(count, chosen).len() ==> chosen_below(count, chosen)[j]
                < chosen_below(count, chosen)[k],
        forall|p: int|
            0 <= p < count && chosen.contains(p) ==> chosen_below(count, chosen).contains(p),
        chosen_below(count, chosen).len() <= count,
    decreases count,
{
    if count > 0 {
        let before = chosen_below((count - 1) as nat, chosen);
        lemma_chosen_below((count - 1) as nat, chosen);
        let now = chosen_below(count, chosen);
        assert forall|p: int| 0 <= p < count && chosen.contains(p) implies now.contains(p) by {
            if p < count - 1 {
                let k = choose|k: int| 0 <= k < before.len() && before[k] == p;
                assert(now[k] == p);
            } else {
                assert(now[now.len() - 1] == p);
            }
        }
    }
}

/// Picks from `items` those whose position `selection` holds, keeping their
/// order.
pub fn pick_selected<T>(items: Vec<T>, selection: &Selection) -> (chosen: Vec<T>)
    ensures
        chosen@ == picked(items@, selection@),
{
    let ghost all = items@;
    let count = items.len();
    let mut chosen: Vec<T> = Vec::new();
    let mut position: usize = 0;
    for item in it: items
        invariant
            all == items@,
            all.len() == count,
            it.seq() == all,
            position == it.index(),
            chosen@ == chosen_below(position as nat, selection@).map_values(|p: int| all[p]),
    {
        assert(item == all[position as int]);
        let ghost before = chosen_below(position as nat, selection@);
        if selection.contains(position) {
            chosen.push(item);
            assert(chosen@ =~= before.push(position as int).map_values(|p: int| all[p]));
        }
        position += 1;
    }
    chosen
}

/// Whether `position` is the first place at which `shown` and `found`
/// differ. Where one is the start of the other, that is the length of the
/// shorter one. Two equal lists differ nowhere.
pub open spec fn differ_first_at(shown: Seq<Seq<char>>, found: Seq<Seq<char>>, position: int) -> bool {
    &&& 0 <= position <= shown.len()
    &&& position <= found.len()
    &&& forall|i: int| 0 <= i < position ==> shown[i] == found[i]
    &&& if position < shown.len() && position < found.len() {
        shown[position] != found[position]
    } else {
        shown.len() != found.len()
    }
}

/// Compares the names that the menu showed with the names of the branches
/// that the repository lists now, and gives the first position at which
/// they differ: `None` where the two lists are the same.
pub fn first_difference<H>(displayed: &Vec<String>, listed: &Vec<LocalBranch<H>>) -> (at: Option<usize>)
    ensures
        match at {
            None => texts(displayed@) == names_of(listed@),
            Some(position) => differ_first_at(
                texts(displayed@),
                names_of(listed@),
                position as int,
            ),
        },
{
    let mut i: usize = 0;
    while i < displayed.len() && i < listed.len()
        invariant
            i <= displayed@.len(),
            i <= listed@.len(),
            forall|j: int| 0 <= j < i ==> texts(displayed@)[j] == names_of(listed@)[j],
        decreases displayed@.len() - i,
    {
        if displayed[i] != listed[i].name {
            return Some(i);
        }
        i += 1;
    }
    if displayed.len() == listed.len() {
        assert(texts(displayed@) =~= names_of(listed@));
        None
    } else {
        Some(i)
    }
}

/// The branches that the ticks stand for.
///
/// `displayed` holds the names that the menu showed, `listed` the branches
/// as the repository lists them now. Where the two agree, name for name, the
/// result holds the branches of `listed` at the ticked positions. Where they
/// do not, nothing is picked: the ticks would point at other branches.
pub fn resolve<H>(displayed: &Vec<String>, listed: Vec<LocalBranch<H>>, selection: &Selection) -> (result:
    Result<Vec<LocalBranch<H>>, BranchError>)
    ensures
        match result {
            Ok(resolved) => {
                &&& texts(displayed@) == names_of(listed@)
                &&& resolved@ == picked(listed@, selection@)
            },
            Err(error) => {
                &&& error@ matches BranchErrorView::Consistency { position }
                &&& differ_first_at(texts(displayed@), names_of(listed@), position as int)
            },
        },
{
    match first_difference(displayed, &listed) {
        Some(position) => Err(BranchError::Consistency { position }),
        None => Ok(pick_selected(listed, selection)),
    }
}

/// Two lists differ first at one place at most, and only if they are not the
/// same list.
pub proof fn lemma_first_difference_unique(
    shown: Seq<Seq<char>>,
    found: Seq<Seq<char>>,
    p: int,
    q: int,
)
    requires
        differ_first_at(shown, found, p),
        differ_first_at(shown, found, q),
    ensures
        p == q,
        shown != found,
{
    if p < q {
        assert(shown[p] == found[p]);
    }
    if q < p {
        assert(shown[q] == found[q]);
    }
}

/// What is picked is exactly what stands at the chosen positions: each
/// picked item is the item at a chosen position of `items`, the positions
/// come in increasing order, so no item is picked twice and the order of
/// `items` is kept, and each chosen position within `items` is among them.
pub proof fn lemma_picked_exact<T>(items: Seq<T>, chosen: Set<int>)
    ensures
        picked(items, chosen).len() == chosen_below(items.len(), chosen).len(),
        picked(items, chosen).len() <= items.len(),
        forall|k: int|
            0 <= k < picked(items, chosen).len() ==> {
                let p = chosen_below(items.len(), chosen)[k];
                &&& 0 <= p < items.len()
                &&& chosen.contains(p)
                &&& (#[trigger] picked(items, chosen)[k]) == items[p]
            },
        forall|j: int, k: int|
            0 <= j < k < picked(items, chosen).len() ==> chosen_below(items.len(), chosen)[j]
                < chosen_below(items.len(), chosen)[k],
        forall|p: int|
            0 <= p < items.len() && chosen.contains(p) ==> exists|k: int|
                0 <= k < picked(items, chosen).len() && chosen_below(items.len(), chosen)[k] == p,
{
    lemma_chosen_below(items.len(), chosen);
    let at = chosen_below(items.len(), chosen);
    assert forall|p: int| 0 <= p < items.len() && chosen.contains(p) implies exists|k: int|
        0 <= k < picked(items, chosen).len() && chosen_below(items.len(), chosen)[k] == p by {
        assert(at.contains(p));
        let k = choose|k: int| 0 <= k < at.len() && at[k] == p;
        assert(0 <= k < picked(items, chosen).len() && chosen_below(items.len(), chosen)[k] == p);
    }
}

/// Where no position within `items` is chosen, nothing is picked. An empty
/// selection is the plainest case.
pub proof fn lemma_picked_none<T>(items: Seq<T>, chosen: Set<int>)
    requires
        forall|p: int| 0 <= p < items.len() ==> !chosen.contains(p),
    ensures
        picked(items, chosen) == Seq::<T>::empty(),
{
    lemma_chosen_below(items.len(), chosen);
    let at = chosen_below(items.len(), chosen);
    if at.len() > 0 {
        assert(chosen.contains(at[0]));
    }
    assert(picked(items, chosen) =~= Seq::<T>::empty());
}

/// Picking and naming can be done in either order: the names of the picked
/// branches are the names at the chosen positions.
pub proof fn lemma_picked_names<H>(branches: Seq<LocalBranch<H>>, chosen: Set<int>)
    ensures
        names_of(picked(branches, chosen)) == picked(names_of(branches), chosen),
{
    lemma_chosen_below(branches.len(), chosen);
    assert(names_of(picked(branches, chosen)) =~= picked(names_of(branches), chosen));
}

} // verus!
