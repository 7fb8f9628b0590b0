use brd::outcome::DeletionOutcome;

#[test]
fn a_deletion_that_went_through_is_a_success() {
    let outcome = DeletionOutcome::record("old-feature".to_string(), Ok(()));
    assert_eq!(outcome, DeletionOutcome::Success { name: "old-feature".to_string() });
    assert!(outcome.is_success());
    assert_eq!(outcome.name(), "old-feature");
    assert_eq!(outcome.message(), None);
}

#[test]
fn a_deletion_that_was_refused_keeps_the_message() {
    let outcome = DeletionOutcome::record("main".to_string(), Err("protected".to_string()));
    assert_eq!(
        outcome,
        DeletionOutcome::Failure { name: "main".to_string(), message: "protected".to_string() }
    );
    assert!(!outcome.is_success());
    assert_eq!(outcome.name(), "main");
    assert_eq!(outcome.message(), Some(&"protected".to_string()));
}

#[test]
fn the_line_of_a_success_is_the_marker_and_the_name() {
    let outcome = DeletionOutcome::record("feature/a".to_string(), Ok(()));
    assert_eq!(outcome.marker(), "Deleted:");
    assert_eq!(outcome.detail(), "feature/a");
    assert_eq!(outcome.line(), "Deleted: feature/a");
}

#[test]
fn the_line_of_a_failure_is_the_marker_the_name_and_the_message() {
    let outcome = DeletionOutcome::record("main".to_string(), Err("it is checked out".to_string()));
    assert_eq!(outcome.marker(), "Error Deleting:");
    assert_eq!(outcome.detail(), "main it is checked out");
    assert_eq!(outcome.line(), "Error Deleting: main it is checked out");
}

#[test]
fn an_empty_message_still_makes_a_failure() {
    let outcome = DeletionOutcome::record("x".to_string(), Err(String::new()));
    assert!(!outcome.is_success());
    assert_eq!(outcome.message(), Some(&String::new()));
    assert_eq!(outcome.line(), "Error Deleting: x ");
}

#[test]
fn a_failure_in_the_middle_leaves_its_neighbours_alone() {
    let answers: Vec<(&str, Result<(), String>)> = vec![
        ("first", Ok(())),
        ("second", Err("protected".to_string())),
        ("third", Ok(())),
    ];
    let mut outcomes = Vec::new();
    for (name, answer) in answers {
        outcomes.push(DeletionOutcome::record(name.to_string(), answer));
    }
    assert_eq!(
        outcomes,
        vec![
            DeletionOutcome::Success { name: "first".to_string() },
            DeletionOutcome::Failure {
                name: "second".to_string(),
                message: "protected".to_string()
            },
            DeletionOutcome::Success { name: "third".to_string() },
        ]
    );
    let lines: Vec<String> = outcomes.iter().map(|outcome| outcome.line()).collect();
    assert_eq!(
        lines,
        vec![
            "Deleted: first".to_string(),
            "Error Deleting: second protected".to_string(),
            "Deleted: third".to_string(),
        ]
    );
    assert!(lines.iter().all(|line| !line.contains('\n')));
}

#[test]
fn three_outcomes_named_a_b_c_print_as_three_lines() {
    let outcomes = vec![
        DeletionOutcome::record("a".to_string(), Ok(())),
        DeletionOutcome::record("b".to_string(), Err("protected".to_string())),
        DeletionOutcome::record("c".to_string(), Ok(())),
    ];
    let mut printed = String::new();
    for outcome in &outcomes {
        printed.push_str(&format!("{} {}\n", outcome.marker(), outcome.detail()));
    }
    assert_eq!(printed, "Deleted: a\nError Deleting: b protected\nDeleted: c\n");
    assert_eq!(printed.lines().count(), 3);
}
