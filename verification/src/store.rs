//! The repository: listing its local branches and deleting them.
//!
//! The repository is reached through `git2`. What it answers depends on what
//! is on disk, so nothing is claimed of the answers themselves: the functions
//! here state what holds whatever the repository answered.

use vstd::prelude::*;
use crate::branch::{collect_branches, names_of, texts, LocalBranch, Listed};
use crate::error::{BranchError, BranchErrorView};
use crate::outcome::{outcome_names, DeletionOutcome};
use crate::resolve::{lemma_picked_names, lemma_picked_none, picked, resolve};
use crate::selection::Selection;

verus! {

#[verifier::external_type_specification]
#[verifier::external_body]
pub struct ExRepository(git2::Repository);

#[verifier::external_type_specification]
#[verifier::external_body]
pub struct ExBranchType(git2::BranchType);

#[verifier::external_type_specification]
#[verifier::external_body]
pub struct ExBranches<'repo>(git2::Branches<'repo>);

#[verifier::external_type_specification]
#[verifier::external_body]
pub struct ExBranch<'repo>(git2::Branch<'repo>);

#[verifier::external_type_specification]
#[verifier::external_body]
pub struct ExError(git2::Error);

/// Calls `git2::Repository::branches` with the filter for local branches.
/// Nothing is claimed of the answer.
#[verifier::external_body]
fn local_walk<'repo>(repo: &'repo git2::Repository) -> Result<git2::Branches<'repo>, git2::Error> {
    repo.branches(Some(git2::BranchType::Local))
}

/// Calls `next` on a `git2::Branches` until it is over, and keeps of each
/// item the branch or the error. Nothing is claimed of the items.
#[verifier::external_body]
fn walk_entries<'repo>(walk: git2::Branches<'repo>) -> Vec<Result<git2::Branch<'repo>, git2::Error>> {
    walk.map(|item| item.map(|(handle, _)| handle)).collect()
}

/// Calls `git2::Branch::name`: the name as a `String`, `None` where the
/// name is not UTF-8. Nothing is claimed of the answer.
#[verifier::external_body]
fn handle_name<'repo>(handle: &git2::Branch<'repo>) -> Result<Option<String>, git2::Error> {
    handle.name().map(|name| name.map(|text| String::from(text)))
}

/// Calls `git2::Branch::delete`. Nothing is claimed of the answer.
#[verifier::external_body]
fn delete_handle<'repo>(handle: &mut git2::Branch<'repo>) -> Result<(), git2::Error> {
    handle.delete()
}

/// Calls `git2::Error::message` and copies the text. Nothing is claimed of
/// the text.
#[verifier::external_body]
fn error_message(error: &git2::Error) -> String {
    String::from(error.message())
}

/// Reads one item of the repository's walk over its branches.
fn read_entry<'repo>(item: Result<git2::Branch<'repo>, git2::Error>) -> (entry: Listed<
    git2::Branch<'repo>,
>)
    ensures
        item is Err ==> entry is Unreadable,
        entry matches Listed::Named { handle, .. } ==> (item matches Ok(h) && h == handle),
{
    match item {
        Err(error) => Listed::Unreadable { message: error_message(&error) },
        Ok(handle) => {
            let lookup = match handle_name(&handle) {
                Ok(name) => Ok(name),
                Err(error) => Err(error_message(&error)),
            };
            Listed::from_lookup(handle, lookup)
        },
    }
}

/// Lists the local branches of `repo`, in the order in which the repository
/// walks them.
///
/// The listing fails as a whole where the repository cannot be asked, and
/// where one entry cannot be read or has a name that is not text.
pub fn list_local_branches<'repo>(repo: &'repo git2::Repository) -> (result: Result<
    Vec<LocalBranch<git2::Branch<'repo>>>,
    BranchError,
>)
    ensures
        result matches Err(error) ==> error@ is Enumeration || error@ is NonTextName,
{
    let reading = match local_walk(repo) {
        Err(error) => Err(error_message(&error)),
        Ok(walk) => {
            let items = walk_entries(walk);
            let mut listing: Vec<Listed<git2::Branch<'repo>>> = Vec::new();
            for item in it: items {
                listing.push(read_entry(item));
            }
            Ok(listing)
        },
    };
    collect_branches(reading)
}

/// Tries to delete each of `branches`, once, in their order, and records
/// what came of it. A deletion that fails is recorded and the next branch
/// is tried: there is one outcome for each branch, whatever the repository
/// answered.
pub fn delete_branches<'repo>(branches: Vec<LocalBranch<git2::Branch<'repo>>>) -> (outcomes: Vec<
    DeletionOutcome,
>)
    ensures
        outcome_names(outcomes@) == names_of(branches@),
{
    let ghost all = branches@;
    let mut outcomes: Vec<DeletionOutcome> = Vec::new();
    for branch in it: branches
        invariant
            all == branches@,
            it.seq() == all,
            outcomes@.len() == it.index(),
            forall|i: int|
                0 <= i < outcomes@.len() ==> (#[trigger] outcomes@[i])@.name() == all[i].name@,
    {
        let LocalBranch { name, handle } = branch;
        let mut handle = handle;
        let attempt = match delete_handle(&mut handle) {
            Ok(_) => Ok(()),
            Err(error) => Err(error_message(&error)),
        };
        outcomes.push(DeletionOutcome::record(name, attempt));
    }
    assert(outcome_names(outcomes@) =~= names_of(all));
    outcomes
}

/// The branches of `repo` that the ticks stand for.
///
/// With nothing ticked there is nothing to resolve, and the repository is
/// not asked. Else the local branches of `repo` are listed once more, and
/// those at the ticked positions are picked, provided that the repository
/// still lists the names that the menu showed, in the same order. The
/// picked branches carry the ticked names. An error that says that the
/// repository changed points at a place of the menu, or just behind its
/// end.
pub fn resolve_selected<'repo>(
    repo: &'repo git2::Repository,
    displayed: &Vec<String>,
    selection: &Selection,
) -> (result: Result<Vec<LocalBranch<git2::Branch<'repo>>>, BranchError>)
    ensures
        selection@.is_empty() ==> (result matches Ok(resolved) && resolved@.len() == 0),
        result matches Ok(resolved) ==> names_of(resolved@) == picked(
            texts(displayed@),
            selection@,
        ),
        result matches Err(error) ==> (error@ matches BranchErrorView::Consistency { position }
            ==> position <= displayed@.len()),
{
    if selection.is_empty() {
        proof {
            lemma_picked_none(texts(displayed@), selection@);
        }
        return Ok(Vec::new());
    }
    let listed = list_local_branches(repo)?;
    let ghost found = listed@;
    let resolved = resolve(displayed, listed, selection)?;
    proof {
        lemma_picked_names(found, selection@);
    }
    Ok(resolved)
}

/// Deletes the branches that the user ticked.
///
/// `displayed` holds the names that the menu showed, in its order, and
/// `selection` the ticked positions. With nothing ticked the repository is
/// left alone. Else its branches are listed once more, and only if they are
/// still the ones that the menu showed are the ticked ones deleted. The
/// result holds one outcome for each ticked name, in the menu's order. An
/// error that says that the repository changed points at a place of the
/// menu, or just behind its end.
pub fn delete_selected<'repo>(
    repo: &'repo git2::Repository,
    displayed: &Vec<String>,
    selection: &Selection,
) -> (result: Result<Vec<DeletionOutcome>, BranchError>)
    ensures
        selection@.is_empty() ==> (result matches Ok(outcomes) && outcomes@.len() == 0),
        result matches Ok(outcomes) ==> outcome_names(outcomes@) == picked(
            texts(displayed@),
            selection@,
        ),
        result matches Err(error) ==> !selection@.is_empty(),
        result matches Err(error) ==> (error@ matches BranchErrorView::Consistency { position }
            ==> position <= displayed@.len()),
{
    let resolved = resolve_selected(repo, displayed, selection)?;
    let ghost ticked = resolved@;
    let outcomes = delete_branches(resolved);
    assert(outcomes@.len() == ticked.len()) by {
        assert(outcome_names(outcomes@).len() == outcomes@.len());
        assert(names_of(ticked).len() == ticked.len());
    }
    Ok(outcomes)
}

} // verus!
