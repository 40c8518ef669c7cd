use kosatka::images::ImageTableRow;
use kosatka::table::{SelectError, TableState};

fn mk(id: &str, name: &str, size: u64) -> ImageTableRow {
    ImageTableRow { id: id.to_string(), name: name.to_string(), size }
}

fn three_rows() -> Vec<ImageTableRow> {
    vec![mk("a", "alpha", 10), mk("b", "beta", 20), mk("c", "gamma", 30)]
}

#[test]
fn repair_shrink_by_one_not_last_row() {
    let mut t = TableState::new();
    t.load(three_rows(), None);
    t.select(2).unwrap();
    assert_eq!(t.selected(), Some(2));
    // The last row (index 2) is gone; the cursor lands one above.
    t.load(vec![mk("a", "alpha", 10), mk("b", "beta", 20)], Some(2));
    assert_eq!(t.selected(), Some(1));
}

#[test]
fn repair_shrink_mid_row_deleted() {
    let mut t = TableState::new();
    t.load(three_rows(), None);
    t.select(1).unwrap();
    // Row 1 was deleted externally; index 1 still exists and stays.
    t.load(vec![mk("a", "alpha", 10), mk("c", "gamma", 30)], Some(1));
    assert_eq!(t.selected(), Some(1));
    assert_eq!(t.current_row().unwrap().id, "c");
}

#[test]
fn repair_preferred_far_out_of_range_selects_first() {
    let mut t = TableState::new();
    t.load(three_rows(), Some(7));
    assert_eq!(t.selected(), Some(0));
}

#[test]
fn repair_no_preference_selects_first() {
    let mut t = TableState::new();
    t.load(three_rows(), None);
    assert_eq!(t.selected(), Some(0));
}

#[test]
fn empty_table_has_no_selection() {
    let mut t = TableState::new();
    t.load(three_rows(), Some(1));
    t.load(vec![], Some(1));
    assert_eq!(t.selected(), None);
    assert!(t.current_row().is_none());
    assert_eq!(t.row_count(), 0);

    let mut u = TableState::new();
    u.load(vec![], None);
    assert_eq!(u.selected(), None);
    assert!(u.current_row().is_none());
}

#[test]
fn select_out_of_range_fails_and_changes_nothing() {
    let mut t = TableState::new();
    t.load(three_rows(), None);
    assert_eq!(t.select(3), Err(SelectError::OutOfRange));
    assert_eq!(t.selected(), Some(0));
    assert_eq!(t.row_count(), 3);
}

#[test]
fn select_valid_index_moves_selection() {
    let mut t = TableState::new();
    t.load(three_rows(), None);
    assert_eq!(t.select(2), Ok(()));
    assert_eq!(t.selected(), Some(2));
    assert_eq!(t.current_row().unwrap().id, "c");
}
