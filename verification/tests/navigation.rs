use sebulba::state::{Action, Command, CurrentScreen, NavError, Sebulba, Status};

fn listed(names: &[&str]) -> Sebulba {
    let mut s = Sebulba::new();
    let names: Vec<String> = names.iter().map(|n| n.to_string()).collect();
    let r = s.list_files(Some(names));
    assert!(r.is_ok());
    s
}

#[test]
fn initial_state_is_browsing_and_empty() {
    let s = Sebulba::new();
    assert_eq!(s.selected_idx, None);
    assert!(s.all_containers.is_empty());
    assert!(matches!(s.current_screen, CurrentScreen::Main));
    assert_eq!(s.info, Ok(()));
    assert_eq!(s.offset, 0);
}

#[test]
fn refresh_builds_fresh_entries_in_listing_order() {
    let s = listed(&["a.txt", "b.txt", "c.txt"]);
    assert_eq!(s.selected_idx, None);
    assert_eq!(s.all_containers.len(), 3);
    let names: Vec<&str> = s.all_containers.iter().map(|c| c.name.as_str()).collect();
    assert_eq!(names, vec!["a.txt", "b.txt", "c.txt"]);
    for c in &s.all_containers {
        assert_eq!(c.status, Status::EXITED(0));
        assert_eq!(c.logs, "");
    }
}

#[test]
fn refresh_twice_yields_identical_catalogs() {
    let mut s = listed(&["a.txt", "b.txt"]);
    let first: Vec<String> = s.all_containers.iter().map(|c| c.name.clone()).collect();
    let r = s.list_files(Some(vec!["a.txt".to_string(), "b.txt".to_string()]));
    assert!(r.is_ok());
    let second: Vec<String> = s.all_containers.iter().map(|c| c.name.clone()).collect();
    assert_eq!(first, second);
    assert_eq!(s.selected_idx, None);
}

#[test]
fn failed_refresh_keeps_catalog_and_reports() {
    let mut s = listed(&["a.txt"]);
    let r = s.list_files(None);
    assert_eq!(r, Err(NavError::DirectoryUnreadable));
    assert_eq!(s.all_containers.len(), 1);
    assert_eq!(s.info, Err("Directory couldn't be read.".to_string()));
}

#[test]
fn next_wraps_and_cycles() {
    let mut s = listed(&["a.txt", "b.txt", "c.txt"]);
    s.select_next();
    assert_eq!(s.selected_idx, Some(0));
    s.select_next();
    assert_eq!(s.selected_idx, Some(1));
    s.select_next();
    assert_eq!(s.selected_idx, Some(2));
    s.select_next();
    assert_eq!(s.selected_idx, Some(0));
    // n moves from any starting index come back to it
    for start in 0..3 {
        s.selected_idx = Some(start);
        for _ in 0..3 {
            s.select_next();
        }
        assert_eq!(s.selected_idx, Some(start));
    }
}

#[test]
fn prev_wraps_to_last_and_inverts_next() {
    let mut s = listed(&["a.txt", "b.txt", "c.txt"]);
    s.select_prev();
    assert_eq!(s.selected_idx, Some(2));
    s.select_prev();
    assert_eq!(s.selected_idx, Some(1));
    // prev undoes next from every valid index
    for start in 0..3 {
        s.selected_idx = Some(start);
        s.select_next();
        s.select_prev();
        assert_eq!(s.selected_idx, Some(start));
    }
}

#[test]
fn moves_on_empty_catalog_leave_cursor_none() {
    let mut s = listed(&[]);
    s.select_next();
    assert_eq!(s.selected_idx, None);
    s.select_prev();
    assert_eq!(s.selected_idx, None);
    let a = s.handle_command(Command::Open, 10);
    assert_eq!(a, Action::Idle);
}

#[test]
fn move_down_cycle_over_two_entries() {
    // Two files listed; the first move-down lands on index 0, and each
    // further pair of moves is a full cycle back to it.
    let mut s = listed(&["a.txt", "b.txt"]);
    let a = s.handle_command(Command::MoveDown, 10);
    assert_eq!(a, Action::Idle);
    assert_eq!(s.selected_idx, Some(0));
    s.handle_command(Command::MoveDown, 10);
    assert_eq!(s.selected_idx, Some(1));
    s.handle_command(Command::MoveDown, 10);
    assert_eq!(s.selected_idx, Some(0));
}

#[test]
fn open_requests_selected_file() {
    let mut s = listed(&["a.txt", "b.txt"]);
    s.handle_command(Command::MoveDown, 10);
    s.handle_command(Command::MoveDown, 10);
    let a = s.handle_command(Command::Open, 10);
    assert_eq!(a, Action::ReadFile("b.txt".to_string()));
}

#[test]
fn commit_success_switches_to_viewing_snapshot() {
    let mut s = listed(&["a.txt"]);
    s.select_next();
    let r = s.commit_selection(Some("first\nsecond".to_string()));
    assert!(r.is_ok());
    match &s.current_screen {
        CurrentScreen::Viewing(v) => {
            assert_eq!(v.name, "a.txt");
            assert_eq!(v.status, Status::EXITED(0));
            assert_eq!(v.logs, "first\nsecond");
        }
        CurrentScreen::Main => panic!("still browsing after a successful commit"),
    }
    assert_eq!(s.offset, 0);
}

#[test]
fn commit_failure_keeps_screen_and_sets_message() {
    // The selected entry's file vanished before it could be opened.
    let mut s = listed(&["gone.txt"]);
    s.select_next();
    let r = s.commit_selection(None);
    assert_eq!(r, Err(NavError::ContentUnreadable));
    assert!(matches!(s.current_screen, CurrentScreen::Main));
    assert_eq!(s.info, Err("File couldn't be opened.".to_string()));
}

#[test]
fn commit_without_selection_is_a_no_op() {
    let mut s = listed(&[]);
    let r = s.commit_selection(Some("text".to_string()));
    assert!(r.is_ok());
    assert!(matches!(s.current_screen, CurrentScreen::Main));
}

#[test]
fn quit_terminates_from_viewing_without_back() {
    let mut s = listed(&["a.txt"]);
    s.select_next();
    s.commit_selection(Some("text".to_string())).unwrap();
    assert!(matches!(s.current_screen, CurrentScreen::Viewing(_)));
    let a = s.handle_command(Command::Quit, 10);
    assert_eq!(a, Action::Quit);
}

#[test]
fn back_returns_to_browsing() {
    let mut s = listed(&["a.txt"]);
    s.select_next();
    s.commit_selection(Some("text".to_string())).unwrap();
    let a = s.handle_command(Command::Back, 10);
    assert_eq!(a, Action::Idle);
    assert!(matches!(s.current_screen, CurrentScreen::Main));
}

#[test]
fn status_message_clears_at_next_command() {
    let mut s = listed(&["gone.txt"]);
    s.select_next();
    let _ = s.commit_selection(None);
    assert!(s.info.is_err());
    s.handle_command(Command::MoveDown, 10);
    assert_eq!(s.info, Ok(()));
}

#[test]
fn selected_entry_follows_the_cursor() {
    let mut s = listed(&["a.txt", "b.txt"]);
    assert!(s.selected_entry().is_none());
    s.select_next();
    s.select_next();
    let entry = s.selected_entry().expect("a selection after two moves");
    assert_eq!(entry.name, "b.txt");
}

#[test]
fn refresh_command_only_acts_while_browsing() {
    let mut s = listed(&["a.txt"]);
    assert_eq!(s.handle_command(Command::Refresh, 10), Action::ListDirectory);
    s.select_next();
    s.commit_selection(Some("text".to_string())).unwrap();
    assert_eq!(s.handle_command(Command::Refresh, 10), Action::Idle);
}
