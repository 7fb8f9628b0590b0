//! Branches as the repository lists them, and as the tool works on them.

use vstd::prelude::*;
use crate::error::{BranchError, BranchErrorView};

verus! {

/// A local branch: its name, and the handle by which the repository deletes
/// it. The tool never looks into the handle.
pub struct LocalBranch<H> {
    pub name: String,
    pub handle: H,
}

/// One entry of the repository's list of local branches, as it was read.
pub enum Listed<H> {
    /// A branch whose name is text.
    Named { name: String, handle: H },
    /// A branch whose name does not decode as text.
    NotText,
    /// An entry that the repository failed to read; `message` says why.
    Unreadable { message: String },
}

/// The entry that a branch comes to, given its handle and the answer to the
/// question for its name: the name, `None` for a name that is not text, or
/// the message with which the repository refused to answer.
pub open spec fn listed_as<H>(handle: H, lookup: Result<Option<String>, String>) -> Listed<H> {
    match lookup {
        Ok(Some(name)) => Listed::Named { name, handle },
        Ok(None) => Listed::NotText,
        Err(message) => Listed::Unreadable { message },
    }
}

impl<H> Listed<H> {
    /// Makes the entry of a branch from its handle and the answer to the
    /// question for its name.
    pub fn from_lookup(handle: H, lookup: Result<Option<String>, String>) -> (entry: Listed<H>)
        ensures
            entry == listed_as(handle, lookup),
    {
        match lookup {
            Ok(Some(name)) => Listed::Named { name, handle },
            Ok(None) => Listed::NotText,
            Err(message) => Listed::Unreadable { message },
        }
    }
}

/// The names of `branches`, in their order.
pub open spec fn names_of<H>(branches: Seq<LocalBranch<H>>) -> Seq<Seq<char>> {
    branches.map_values(|b: LocalBranch<H>| b.name@)
}

/// The texts of `names`, in their order.
pub open spec fn texts(names: Seq<String>) -> Seq<Seq<char>> {
    names.map_values(|s: String| s@)
}

/// Whether the first `count` entries of `listing` are all branches with a
/// text name.
pub open spec fn named_before<H>(listing: Seq<Listed<H>>, count: int) -> bool {
    forall|i: int| 0 <= i < count ==> (#[trigger] listing[i]) is Named
}

/// The error with which the entry `entry`, found at `position`, ends a
/// listing: none for a branch with a text name.
pub open spec fn refusal<H>(entry: Listed<H>, position: int) -> Option<BranchErrorView> {
    match entry {
        Listed::Named { .. } => None,
        Listed::NotText => Some(BranchErrorView::NonTextName { position: position as usize }),
        Listed::Unreadable { message } => Some(BranchErrorView::Enumeration { message: message@ }),
    }
}

/// Whether `branches` are the entries of `listing`, one for one.
pub open spec fn lists<H>(branches: Seq<LocalBranch<H>>, listing: Seq<Listed<H>>) -> bool {
    &&& branches.len() == listing.len()
    &&& forall|i: int|
        0 <= i < listing.len() ==> {
            &&& (#[trigger] listing[i]) matches Listed::Named { name, handle }
            &&& branches[i].name@ == name@
            &&& branches[i].handle == handle
        }
}

/// Whether `result` is what `reading` comes to. A repository that could not
/// be asked gives an enumeration error with its message. A listing gives its
/// branches, one for one, where every entry is a branch with a text name,
/// and else the error of the first entry that is not.
pub open spec fn collected<H>(
    reading: Result<Vec<Listed<H>>, String>,
    result: Result<Vec<LocalBranch<H>>, BranchError>,
) -> bool {
    match reading {
        Err(message) => result matches Err(error) && error@ == (BranchErrorView::Enumeration {
            message: message@,
        }),
        Ok(listing) => match result {
            Ok(branches) => lists(branches@, listing@),
            Err(error) => exists|p: int|
                0 <= p < listing@.len() && named_before(listing@, p) && refusal(
                    #[trigger] listing@[p],
                    p,
                ) == Some(error@),
        },
    }
}

/// Turns what the repository answered into the list of branches.
///
/// `reading` holds the entries in the repository's order, or the message
/// with which the repository refused to list them. The list of branches
/// keeps the order of the entries. One entry that is not a branch with a
/// text name fails the whole listing, with the error of the first such
/// entry.
pub fn collect_branches<H>(reading: Result<Vec<Listed<H>>, String>) -> (result: Result<
    Vec<LocalBranch<H>>,
    BranchError,
>)
    ensures
        collected(reading, result),
{
    let listing = match reading {
        Ok(listing) => listing,
        Err(message) => {
            return Err(BranchError::Enumeration { message });
        },
    };
    let ghost all = listing@;
    let count = listing.len();
    let mut branches: Vec<LocalBranch<H>> = Vec::new();
    let mut position: usize = 0;
    for entry in it: listing
        invariant
            reading matches Ok(entries) && entries@ == all,
            all.len() == count,
            it.seq() == all,
            position == it.index(),
            lists(branches@, all.take(position as int)),
    {
        assert(entry == all[position as int]);
        assert(named_before(all, position as int)) by {
            assert forall|i: int| 0 <= i < position implies (#[trigger] all[i]) is Named by {
                assert(all.take(position as int)[i] is Named);
            }
        }
        match entry {
            Listed::Named { name, handle } => {
                branches.push(LocalBranch { name, handle });
            },
            Listed::NotText => {
                let error = BranchError::NonTextName { position };
                assert(refusal(all[position as int], position as int) == Some(error@));
                return Err(error);
            },
            Listed::Unreadable { message } => {
                let error = BranchError::Enumeration { message };
                assert(refusal(all[position as int], position as int) == Some(error@));
                return Err(error);
            },
        }
        position += 1;
    }
    assert(all.take(position as int) =~= all);
    Ok(branches)
}

/// The names of `branches`, in their order: what the menu shows.
pub fn branch_names<H>(branches: &Vec<LocalBranch<H>>) -> (names: Vec<String>)
    ensures
        texts(names@) == names_of(branches@),
{
    let mut names: Vec<String> = Vec::new();
    let mut i: usize = 0;
    while i < branches.len()
        invariant
            i <= branches@.len(),
            names@.len() == i,
            forall|j: int| 0 <= j < i ==> (#[trigger] names@[j])@ == branches@[j].name@,
        decreases branches@.len() - i,
    {
        names.push(branches[i].name.clone());
        i += 1;
    }
    assert(texts(names@) =~= names_of(branches@));
    names
}

/// Whether two entries read the same: both a branch with the same name,
/// both a name that is not text, or both unreadable with the same message.
pub open spec fn same_entry<H>(first: Listed<H>, second: Listed<H>) -> bool {
    match first {
        Listed::Named { name, .. } => second matches Listed::Named { name: other, .. } && name@
            == other@,
        Listed::NotText => second is NotText,
        Listed::Unreadable { message } => second matches Listed::Unreadable { message: other }
            && message@ == other@,
    }
}

/// Whether two readings of a repository are the same: both refused with the
/// same message, or both hold the same entries in the same order, as they
/// do where the repository did not change in between.
pub open spec fn same_reading<H>(
    first: Result<Vec<Listed<H>>, String>,
    second: Result<Vec<Listed<H>>, String>,
) -> bool {
    match first {
        Err(message) => second matches Err(other) && message@ == other@,
        Ok(entries) => {
            &&& second matches Ok(others)
            &&& entries@.len() == others@.len()
            &&& forall|i: int|
                0 <= i < entries@.len() ==> same_entry(#[trigger] entries@[i], others@[i])
        },
    }
}

/// Listing is stable: two readings that are the same come to the same names
/// in the same order, character for character, or fail with the same error.
pub proof fn lemma_listing_stable<H>(
    first: Result<Vec<Listed<H>>, String>,
    second: Result<Vec<Listed<H>>, String>,
    first_result: Result<Vec<LocalBranch<H>>, BranchError>,
    second_result: Result<Vec<LocalBranch<H>>, BranchError>,
)
    requires
        same_reading(first, second),
        collected(first, first_result),
        collected(second, second_result),
    ensures
        match first_result {
            Ok(branches) => second_result matches Ok(again) && names_of(branches@) == names_of(
                again@,
            ),
            Err(error) => second_result matches Err(again) && error@ == again@,
        },
{
    match (first, second) {
        (Ok(first), Ok(second)) => {
            let first = first@;
            let second = second@;
            match (first_result, second_result) {
                (Ok(a), Ok(b)) => {
                    assert forall|i: int| 0 <= i < a@.len() implies names_of(a@)[i] == names_of(
                        b@,
                    )[i] by {
                        assert(same_entry(first[i], second[i]));
                    }
                    assert(names_of(a@) =~= names_of(b@));
                },
                (Ok(a), Err(e)) => {
                    let p = choose|p: int|
                        0 <= p < second.len() && named_before(second, p) && refusal(
                            #[trigger] second[p],
                            p,
                        ) == Some(e@);
                    assert(same_entry(first[p], second[p]));
                },
                (Err(e), Ok(b)) => {
                    let p = choose|p: int|
                        0 <= p < first.len() && named_before(first, p) && refusal(
                            #[trigger] first[p],
                            p,
                        ) == Some(e@);
                    assert(same_entry(first[p], second[p]));
                },
                (Err(e), Err(f)) => {
                    let p = choose|p: int|
                        0 <= p < first.len() && named_before(first, p) && refusal(
                            #[trigger] first[p],
                            p,
                        ) == Some(e@);
                    let q = choose|q: int|
                        0 <= q < second.len() && named_before(second, q) && refusal(
                            #[trigger] second[q],
                            q,
                        ) == Some(f@);
                    assert(same_entry(first[p], second[p]));
                    assert(same_entry(first[q], second[q]));
                    if p < q {
                        assert(second[p] is Named);
                    }
                    if q < p {
                        assert(first[q] is Named);
                    }
                },
            }
        },
        _ => {},
    }
}

} // verus!
