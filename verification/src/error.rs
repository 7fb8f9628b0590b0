//! The ways in which a run ends before any branch is deleted.

use vstd::prelude::*;

verus! {

/// Why the branches could not be listed, or could not be matched to the menu.
/// Each of them ends the run; none is raised once deleting has begun.
#[derive(Debug, PartialEq, Eq)]
pub enum BranchError {
    /// The repository could not be asked for its branches, or one of its
    /// entries could not be read. `message` is what the repository said.
    Enumeration { message: String },
    /// The name of the entry at `position` of the listing is not text.
    NonTextName { position: usize },
    /// The repository no longer lists what the menu showed. `position` is the
    /// first place at which the two lists differ; where one list is the start
    /// of the other, it is the length of the shorter one.
    Consistency { position: usize },
}

/// A `BranchError` with its message as a sequence of characters.
pub enum BranchErrorView {
    Enumeration { message: Seq<char> },
    NonTextName { position: usize },
    Consistency { position: usize },
}

impl View for BranchError {
    type V = BranchErrorView;

    open spec fn view(&self) -> BranchErrorView {
        match self {
            BranchError::Enumeration { message } => BranchErrorView::Enumeration {
                message: message@,
            },
            BranchError::NonTextName { position } => BranchErrorView::NonTextName {
                position: *position,
            },
            BranchError::Consistency { position } => BranchErrorView::Consistency {
                position: *position,
            },
        }
    }
}

impl BranchError {
    /// One line that says what went wrong.
    pub fn describe(&self) -> (text: String)
        ensures
            text@ == self@.text(),
    {
        match self {
            BranchError::Enumeration { message } => {
                let mut text = String::from_str("Could not list the branches: ");
                text.append(message.as_str());
                text
            },
            BranchError::NonTextName { .. } => String::from_str("A branch has a name that is not text"),
            BranchError::Consistency { .. } => String::from_str(
                "The branches changed while the menu was open",
            ),
        }
    }
}

impl BranchErrorView {
    /// One line that says what went wrong.
    pub open spec fn text(self) -> Seq<char> {
        match self {
            BranchErrorView::Enumeration { message } => "Could not list the branches: "@ + message,
            BranchErrorView::NonTextName { .. } => "A branch has a name that is not text"@,
            BranchErrorView::Consistency { .. } => "The branches changed while the menu was open"@,
        }
    }
}

} // verus!
