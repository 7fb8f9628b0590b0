//! What is recorded, and reported, for each branch whose deletion was tried.

use vstd::prelude::*;

verus! {

/// The result of trying to delete one branch.
#[derive(Debug, PartialEq, Eq)]
pub enum DeletionOutcome {
    /// The branch with this name is gone.
    Success { name: String },
    /// The branch with this name could not be deleted; `message` is what the
    /// repository said.
    Failure { name: String, message: String },
}

/// A `DeletionOutcome` with its texts as sequences of characters.
pub enum OutcomeView {
    Success { name: Seq<char> },
    Failure { name: Seq<char>, message: Seq<char> },
}

impl OutcomeView {
    /// The name of the branch that the outcome is about.
    pub open spec fn name(self) -> Seq<char> {
        match self {
            OutcomeView::Success { name } => name,
            OutcomeView::Failure { name, .. } => name,
        }
    }

    /// The word that opens the report line.
    pub open spec fn marker(self) -> Seq<char> {
        match self {
            OutcomeView::Success { .. } => "Deleted:"@,
            OutcomeView::Failure { .. } => "Error Deleting:"@,
        }
    }

    /// What follows the marker and one space on the report line: the name,
    /// and for a failure one space and the message.
    pub open spec fn detail(self) -> Seq<char> {
        match self {
            OutcomeView::Success { name } => name,
            OutcomeView::Failure { name, message } => name + " "@ + message,
        }
    }

    /// The whole report line, without colour: the marker, one space, and
    /// the detail.
    pub open spec fn line(self) -> Seq<char> {
        self.marker() + " "@ + self.detail()
    }

    /// Whether neither the name nor, for a failure, the message holds a line
    /// feed.
    pub open spec fn texts_on_one_line(self) -> bool {
        match self {
            OutcomeView::Success { name } => !name.contains('\n'),
            OutcomeView::Failure { name, message } => !name.contains('\n') && !message.contains(
                '\n',
            ),
        }
    }
}

/// What is recorded for the branch called `name` when the repository answered
/// the deletion with `attempt`.
pub open spec fn recorded(name: Seq<char>, attempt: Result<(), String>) -> OutcomeView {
    match attempt {
        Ok(_) => OutcomeView::Success { name },
        Err(message) => OutcomeView::Failure { name, message: message@ },
    }
}

/// The names of the branches that `outcomes` are about, in their order.
pub open spec fn outcome_names(outcomes: Seq<DeletionOutcome>) -> Seq<Seq<char>> {
    outcomes.map_values(|o: DeletionOutcome| o@.name())
}

impl View for DeletionOutcome {
    type V = OutcomeView;

    open spec fn view(&self) -> OutcomeView {
        match self {
            DeletionOutcome::Success { name } => OutcomeView::Success { name: name@ },
            DeletionOutcome::Failure { name, message } => OutcomeView::Failure {
                name: name@,
                message: message@,
            },
        }
    }
}

impl DeletionOutcome {
    /// Records the answer to one deletion: `Ok` becomes a success, an error
    /// becomes a failure that keeps the error's message.
    pub fn record(name: String, attempt: Result<(), String>) -> (outcome: DeletionOutcome)
        ensures
            outcome@ == recorded(name@, attempt),
    {
        match attempt {
            Ok(_) => DeletionOutcome::Success { name },
            Err(message) => DeletionOutcome::Failure { name, message },
        }
    }

    pub fn is_success(&self) -> (b: bool)
        ensures
            b == (self@ is Success),
    {
        match self {
            DeletionOutcome::Success { .. } => true,
            DeletionOutcome::Failure { .. } => false,
        }
    }

    /// The name of the branch that the outcome is about.
    pub fn name(&self) -> (name: &String)
        ensures
            name@ == self@.name(),
    {
        match self {
            DeletionOutcome::Success { name } => name,
            DeletionOutcome::Failure { name, .. } => name,
        }
    }

    /// The repository's message, for a failure.
    pub fn message(&self) -> (message: Option<&String>)
        ensures
            match self@ {
                OutcomeView::Success { .. } => message is None,
                OutcomeView::Failure { message: text, .. } => message matches Some(m) && m@ == text,
            },
    {
        match self {
            DeletionOutcome::Success { .. } => None,
            DeletionOutcome::Failure { message, .. } => Some(message),
        }
    }

    /// The word that opens the report line; the caller may colour it.
    pub fn marker(&self) -> (marker: &'static str)
        ensures
            marker@ == self@.marker(),
    {
        match self {
            DeletionOutcome::Success { .. } => "Deleted:",
            DeletionOutcome::Failure { .. } => "Error Deleting:",
        }
    }

    /// What follows the marker on the report line.
    pub fn detail(&self) -> (detail: String)
        ensures
            detail@ == self@.detail(),
    {
        match self {
            DeletionOutcome::Success { name } => name.clone(),
            DeletionOutcome::Failure { name, message } => {
                let mut detail = name.clone();
                detail.append(" ");
                detail.append(message.as_str());
                detail
            },
        }
    }

    /// The whole report line, without colour.
    pub fn line(&self) -> (line: String)
        ensures
            line@ == self@.line(),
    {
        let mut line = String::from_str(self.marker());
        line.append(" ");
        let detail = self.detail();
        line.append(detail.as_str());
        line
    }
}

/// One outcome is reported on one line: where neither the name nor the
/// message holds a line feed, the report line holds none.
pub proof fn lemma_line_is_one_line(outcome: OutcomeView)
    requires
        outcome.texts_on_one_line(),
    ensures
        !outcome.line().contains('\n'),
        !outcome.detail().contains('\n'),
{
    reveal_strlit("Deleted:");
    reveal_strlit("Error Deleting:");
    reveal_strlit(" ");
    let space = " "@;
    let marker = outcome.marker();
    let detail = outcome.detail();
    assert(!space.contains('\n')) by {
        if space.contains('\n') {
            let i = choose|i: int| 0 <= i < space.len() && space[i] == '\n';
            assert(space[0] == ' ');
        }
    }
    assert(!marker.contains('\n')) by {
        if marker.contains('\n') {
            let i = choose|i: int| 0 <= i < marker.len() && marker[i] == '\n';
            match outcome {
                OutcomeView::Success { .. } => {
                    assert(forall|j: int| 0 <= j < 8 ==> "Deleted:"@[j] != '\n');
                },
                OutcomeView::Failure { .. } => {
                    assert(forall|j: int| 0 <= j < 15 ==> "Error Deleting:"@[j] != '\n');
                },
            }
        }
    }
    assert(!detail.contains('\n')) by {
        match outcome {
            OutcomeView::Success { .. } => {},
            OutcomeView::Failure { name, message } => {
                lemma_joined_without(name, space, '\n');
                lemma_joined_without(name + space, message, '\n');
            },
        }
    }
    lemma_joined_without(marker, space, '\n');
    lemma_joined_without(marker + space, detail, '\n');
}

/// Two texts put together hold a character only if one of them holds it.
pub proof fn lemma_joined_without(first: Seq<char>, second: Seq<char>, c: char)
    requires
        !first.contains(c),
        !second.contains(c),
    ensures
        !(first + second).contains(c),
{
    let joined = first + second;
    if joined.contains(c) {
        let i = choose|i: int| 0 <= i < joined.len() && joined[i] == c;
        if i < first.len() {
            assert(first[i] == c);
            assert(first.contains(c));
        } else {
            assert(second[i - first.len()] == c);
            assert(second.contains(c));
        }
    }
}

} // verus!
