use brd::branch::{branch_names, collect_branches, Listed, LocalBranch};
use brd::error::BranchError;

fn named(name: &str, handle: u32) -> Listed<u32> {
    Listed::Named { name: name.to_string(), handle }
}

fn name_and_handle(branches: &Vec<LocalBranch<u32>>) -> Vec<(String, u32)> {
    branches.iter().map(|b| (b.name.clone(), b.handle)).collect()
}

#[test]
fn a_listing_of_named_branches_keeps_its_order() {
    let reading = Ok(vec![named("main", 10), named("feature/a", 20), named("feature/b", 30)]);
    let branches = collect_branches(reading).unwrap();
    assert_eq!(
        name_and_handle(&branches),
        vec![
            ("main".to_string(), 10),
            ("feature/a".to_string(), 20),
            ("feature/b".to_string(), 30),
        ]
    );
}

#[test]
fn an_empty_listing_has_no_branches() {
    let reading: Result<Vec<Listed<u32>>, String> = Ok(Vec::new());
    let branches = collect_branches(reading).unwrap();
    assert!(branches.is_empty());
}

#[test]
fn a_repository_that_cannot_be_asked_is_an_enumeration_error() {
    let reading: Result<Vec<Listed<u32>>, String> = Err("corrupted metadata".to_string());
    let error = collect_branches(reading).err().unwrap();
    assert_eq!(error, BranchError::Enumeration { message: "corrupted metadata".to_string() });
}

#[test]
fn a_name_that_is_not_text_fails_the_listing() {
    let reading = Ok(vec![named("main", 1), Listed::NotText, named("other", 3)]);
    let error = collect_branches(reading).err().unwrap();
    assert_eq!(error, BranchError::NonTextName { position: 1 });
}

#[test]
fn an_entry_that_cannot_be_read_fails_the_listing() {
    let reading = Ok(vec![
        named("main", 1),
        named("other", 2),
        Listed::Unreadable { message: "bad reference".to_string() },
    ]);
    let error = collect_branches(reading).err().unwrap();
    assert_eq!(error, BranchError::Enumeration { message: "bad reference".to_string() });
}

#[test]
fn the_first_bad_entry_decides_the_error() {
    let reading: Result<Vec<Listed<u32>>, String> = Ok(vec![
        Listed::Unreadable { message: "first".to_string() },
        Listed::NotText,
        Listed::Unreadable { message: "second".to_string() },
    ]);
    let error = collect_branches(reading).err().unwrap();
    assert_eq!(error, BranchError::Enumeration { message: "first".to_string() });

    let reading: Result<Vec<Listed<u32>>, String> = Ok(vec![
        named("a", 1),
        named("b", 2),
        Listed::NotText,
        Listed::Unreadable { message: "late".to_string() },
    ]);
    let error = collect_branches(reading).err().unwrap();
    assert_eq!(error, BranchError::NonTextName { position: 2 });
}

#[test]
fn the_names_come_in_the_order_of_the_branches() {
    let branches = vec![
        LocalBranch { name: "main".to_string(), handle: 'a' },
        LocalBranch { name: "feature/a".to_string(), handle: 'b' },
        LocalBranch { name: "feature/b".to_string(), handle: 'c' },
    ];
    assert_eq!(
        branch_names(&branches),
        vec!["main".to_string(), "feature/a".to_string(), "feature/b".to_string()]
    );
    let none: Vec<LocalBranch<char>> = Vec::new();
    assert!(branch_names(&none).is_empty());
}

#[test]
fn the_same_reading_gives_the_same_names_twice() {
    let read = || Ok(vec![named("main", 1), named("feature/a", 2), named("feature/b", 3)]);
    let first = branch_names(&collect_branches(read()).unwrap());
    let second = branch_names(&collect_branches(read()).unwrap());
    assert_eq!(first, second);
    assert_eq!(
        first,
        vec!["main".to_string(), "feature/a".to_string(), "feature/b".to_string()]
    );
}

#[test]
fn the_same_bad_reading_gives_the_same_error_twice() {
    let read = || Ok(vec![named("main", 1), Listed::NotText]);
    let first = collect_branches(read()).err().unwrap();
    let second = collect_branches(read()).err().unwrap();
    assert_eq!(first, second);
}

#[test]
fn each_error_says_what_went_wrong() {
    assert_eq!(
        BranchError::Enumeration { message: "no such directory".to_string() }.describe(),
        "Could not list the branches: no such directory"
    );
    assert_eq!(
        BranchError::NonTextName { position: 4 }.describe(),
        "A branch has a name that is not text"
    );
    assert_eq!(
        BranchError::Consistency { position: 0 }.describe(),
        "The branches changed while the menu was open"
    );
}

#[test]
fn a_name_that_was_found_makes_a_named_entry() {
    let entry = Listed::from_lookup(7u32, Ok(Some("feature/a".to_string())));
    match entry {
        Listed::Named { name, handle } => {
            assert_eq!(name, "feature/a");
            assert_eq!(handle, 7);
        }
        _ => panic!("the entry should be a named branch"),
    }
}

#[test]
fn a_name_that_is_not_text_makes_an_entry_without_a_name() {
    let entry = Listed::from_lookup(7u32, Ok(None));
    assert!(matches!(entry, Listed::NotText));
}

#[test]
fn a_refused_question_for_the_name_makes_an_unreadable_entry() {
    let entry = Listed::from_lookup(7u32, Err("not a branch".to_string()));
    match entry {
        Listed::Unreadable { message } => assert_eq!(message, "not a branch"),
        _ => panic!("the entry should be unreadable"),
    }
}
