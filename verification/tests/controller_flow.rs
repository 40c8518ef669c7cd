use kosatka::controller::{BackendError, Controller};
use kosatka::images::ImageTableRow;
use kosatka::menu::{ImageTableRowAction, MenuState};

fn mk(id: &str, name: &str, size: u64) -> ImageTableRow {
    ImageTableRow { id: id.to_string(), name: name.to_string(), size }
}

fn loaded_controller() -> Controller {
    let mut c = Controller::new();
    assert!(c.begin_refresh());
    assert!(c.on_fetch_result(Ok(vec![
        mk("a", "alpha", 10),
        mk("b", "beta", 20),
        mk("c", "gamma", 30),
    ])));
    c
}

fn snapshot(c: &Controller) -> (Vec<(String, String, u64)>, Option<usize>) {
    let mut rows = Vec::new();
    for i in 0..c.row_count() {
        let r = c.row(i);
        rows.push((r.id.clone(), r.name.clone(), r.size));
    }
    (rows, c.selected())
}

#[test]
fn menu_lifecycle_open_cancel_submit() {
    let mut c = loaded_controller();
    assert!(c.select(1));
    let before = snapshot(&c);

    assert!(c.open_menu());
    assert_eq!(c.menu(), MenuState::Open { target_row: 1 });

    assert!(c.cancel_menu());
    assert_eq!(c.menu(), MenuState::Closed);
    assert_eq!(snapshot(&c), before);

    assert!(c.open_menu());
    let request = c.submit(ImageTableRowAction::Delete).unwrap();
    // The menu is closed before the action runs, and exactly one
    // request for the resource at row 1 was emitted.
    assert_eq!(c.menu(), MenuState::Closed);
    assert_eq!(request.resource_id, "b");
    assert_eq!(request.action_kind, ImageTableRowAction::Delete);
    assert!(c.is_busy());
}

#[test]
fn menu_open_on_empty_table_is_a_no_op() {
    let mut c = Controller::new();
    assert!(!c.open_menu());
    assert_eq!(c.menu(), MenuState::Closed);
    assert!(c.current_row().is_none());
}

#[test]
fn cancel_when_closed_is_a_no_op() {
    let mut c = loaded_controller();
    assert!(!c.cancel_menu());
    assert_eq!(c.menu(), MenuState::Closed);
}

#[test]
fn submit_when_closed_emits_nothing() {
    let mut c = loaded_controller();
    assert!(c.submit(ImageTableRowAction::Delete).is_none());
    assert!(!c.is_busy());
}

#[test]
fn failed_mutation_leaves_table_untouched() {
    let mut c = loaded_controller();
    assert!(c.select(1));
    let before = snapshot(&c);

    assert!(c.open_menu());
    c.submit(ImageTableRowAction::Delete).unwrap();
    let refresh = c.on_remove_result(Err(BackendError::InUse));
    assert!(!refresh);
    assert!(!c.is_busy());
    assert_eq!(snapshot(&c), before);
}

#[test]
fn failed_fetch_keeps_previous_rows_visible() {
    let mut c = loaded_controller();
    let before = snapshot(&c);
    assert!(c.begin_refresh());
    assert!(!c.on_fetch_result(Err(BackendError::ConnectionError)));
    assert!(!c.is_busy());
    assert_eq!(snapshot(&c), before);
}

#[test]
fn no_event_interleaves_with_an_in_flight_call() {
    let mut c = loaded_controller();
    assert!(c.select(1));
    assert!(c.open_menu());
    c.submit(ImageTableRowAction::Delete).unwrap();
    assert!(c.is_busy());
    let during = snapshot(&c);

    // While the removal is in flight, nothing is accepted.
    assert!(!c.select(0));
    assert!(!c.open_menu());
    assert!(c.submit(ImageTableRowAction::Delete).is_none());
    assert!(!c.begin_refresh());
    assert_eq!(snapshot(&c), during);
    assert_eq!(c.menu(), MenuState::Closed);

    // Still busy between the removal and the refresh fetch.
    assert!(c.on_remove_result(Ok(())));
    assert!(c.is_busy());
    assert!(!c.select(0));
    assert!(!c.open_menu());
    assert!(!c.begin_refresh());
    assert_eq!(snapshot(&c), during);

    // The fetch result ends the window and the controller is idle.
    assert!(c.on_fetch_result(Ok(vec![mk("a", "alpha", 10), mk("c", "gamma", 30)])));
    assert!(!c.is_busy());
}

#[test]
fn delete_last_row_moves_cursor_one_above() {
    let mut c = loaded_controller();
    assert!(c.select(2));
    assert!(c.open_menu());
    let request = c.submit(ImageTableRowAction::Delete).unwrap();
    assert_eq!(request.resource_id, "c");
    assert!(c.on_remove_result(Ok(())));
    assert!(c.on_fetch_result(Ok(vec![mk("a", "alpha", 10), mk("b", "beta", 20)])));
    assert_eq!(c.selected(), Some(1));
    assert_eq!(c.current_row().unwrap().id, "b");
}

#[test]
fn refresh_keeps_current_selection() {
    let mut c = loaded_controller();
    assert!(c.select(1));
    assert!(c.begin_refresh());
    assert!(c.on_fetch_result(Ok(vec![
        mk("a", "alpha", 10),
        mk("b", "beta", 20),
        mk("c", "gamma", 30),
    ])));
    assert_eq!(c.selected(), Some(1));
}

#[test]
fn spurious_results_are_ignored_when_idle() {
    let mut c = loaded_controller();
    let before = snapshot(&c);
    assert!(!c.on_remove_result(Ok(())));
    assert!(!c.on_fetch_result(Ok(vec![])));
    assert_eq!(snapshot(&c), before);
    assert!(!c.is_busy());
}

#[test]
fn select_while_menu_open_is_rejected() {
    let mut c = loaded_controller();
    assert!(c.select(1));
    assert!(c.open_menu());
    assert!(!c.select(0));
    assert_eq!(c.selected(), Some(1));
    assert_eq!(c.menu(), MenuState::Open { target_row: 1 });
}
