use leptos_declarative::chain::{check_structure, select, BlockKind, Branch, IfError};

#[test]
fn accepts_a_lone_then() {
    assert_eq!(check_structure(&vec![BlockKind::If]), Ok(()));
}

#[test]
fn accepts_a_full_chain() {
    let kinds = vec![BlockKind::If, BlockKind::ElseIf, BlockKind::ElseIf, BlockKind::Else];
    assert_eq!(check_structure(&kinds), Ok(()));
}

#[test]
fn rejects_an_empty_chain() {
    assert_eq!(check_structure(&Vec::new()), Err(IfError::MissingThen));
}

#[test]
fn rejects_a_chain_that_starts_with_else_if() {
    let kinds = vec![BlockKind::ElseIf, BlockKind::Else];
    assert_eq!(check_structure(&kinds), Err(IfError::MissingThen));
}

#[test]
fn rejects_two_then_blocks() {
    let kinds = vec![BlockKind::If, BlockKind::If];
    assert_eq!(check_structure(&kinds), Err(IfError::DuplicateThen));
}

#[test]
fn rejects_an_else_that_is_not_last() {
    let kinds = vec![BlockKind::If, BlockKind::Else, BlockKind::ElseIf];
    assert_eq!(check_structure(&kinds), Err(IfError::ElseNotLast));
}

#[test]
fn rejects_two_else_blocks() {
    let kinds = vec![BlockKind::If, BlockKind::Else, BlockKind::Else];
    assert_eq!(check_structure(&kinds), Err(IfError::ElseNotLast));
}

#[test]
fn reports_a_repeated_then_before_a_misplaced_else() {
    let kinds = vec![BlockKind::If, BlockKind::Else, BlockKind::If];
    assert_eq!(check_structure(&kinds), Err(IfError::DuplicateThen));
}

#[test]
fn true_condition_selects_then() {
    let branches = vec![Branch::If, Branch::ElseIf(true), Branch::Else];
    assert_eq!(select(true, &branches), Some(0));
}

#[test]
fn first_true_else_if_is_selected() {
    let branches =
        vec![Branch::If, Branch::ElseIf(false), Branch::ElseIf(true), Branch::ElseIf(true), Branch::Else];
    assert_eq!(select(false, &branches), Some(2));
}

#[test]
fn all_false_selects_else() {
    let branches = vec![Branch::If, Branch::ElseIf(false), Branch::Else];
    assert_eq!(select(false, &branches), Some(2));
}

#[test]
fn all_false_without_else_selects_nothing() {
    let branches = vec![Branch::If, Branch::ElseIf(false)];
    assert_eq!(select(false, &branches), None);
}

#[test]
fn plain_if_else() {
    let branches = vec![Branch::If, Branch::Else];
    assert_eq!(select(true, &branches), Some(0));
    assert_eq!(select(false, &branches), Some(1));
}

#[test]
fn empty_chain_selects_nothing() {
    assert_eq!(select(true, &Vec::new()), None);
    assert_eq!(select(false, &Vec::new()), None);
}

#[test]
fn selection_is_repeatable() {
    let branches = vec![Branch::If, Branch::ElseIf(true), Branch::Else];
    assert_eq!(select(false, &branches), select(false, &branches));
}

#[test]
fn reading_that_failed_counts_as_false() {
    assert_eq!(Branch::of_reading(Some(true)), Branch::ElseIf(true));
    assert_eq!(Branch::of_reading(Some(false)), Branch::ElseIf(false));
    assert_eq!(Branch::of_reading(None), Branch::ElseIf(false));
}

#[test]
fn first_of_two_true_else_ifs_wins() {
    let branches = vec![
        Branch::If,
        Branch::ElseIf(false),
        Branch::ElseIf(true),
        Branch::ElseIf(true),
        Branch::Else,
    ];
    assert_eq!(select(false, &branches), Some(2));
    assert_eq!(select(true, &branches), Some(0));
}
