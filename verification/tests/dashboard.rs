use toodles::cursor::SelectionCursor;
use toodles::dispatch::{handle_keys, AppState};
use toodles::events::{poll_timeout_ms, tick_due, Event, Key};
use toodles::layout::{centered_rect, Rect};
use toodles::menu::{create_menu_vector, MenuItem};
use toodles::tasks::{
    add_new_test_task_to_list, remove_selected_task_from_list, selected_task, Task,
};
use toodles::LocalError;

fn task(id: usize, name: &str) -> Task {
    Task {
        id,
        name: name.to_string(),
        description: format!("description of {}", name),
        complete: false,
        priority: 1,
        created: "2023-01-02T03:04:05+00:00".to_string(),
    }
}

fn three_tasks() -> Vec<Task> {
    vec![task(1, "first"), task(2, "second"), task(3, "third")]
}

#[test]
fn next_cycles_through_all_panels_back_to_home() {
    let mut m = MenuItem::Home;
    let expected = [
        MenuItem::Todo,
        MenuItem::Done,
        MenuItem::All,
        MenuItem::Notes,
        MenuItem::Home,
    ];
    for e in expected {
        m.next();
        assert_eq!(m, e);
        assert_ne!(m, MenuItem::Quit);
    }
}

#[test]
fn previous_cycles_through_all_panels_back_to_home() {
    let mut m = MenuItem::Home;
    let expected = [
        MenuItem::Notes,
        MenuItem::All,
        MenuItem::Done,
        MenuItem::Todo,
        MenuItem::Home,
    ];
    for e in expected {
        m.previous();
        assert_eq!(m, e);
        assert_ne!(m, MenuItem::Quit);
    }
}

#[test]
fn mixed_walk_never_reaches_quit() {
    let mut m = MenuItem::Home;
    let moves = [true, false, false, true, true, false, true, true, true, false];
    for forward in moves {
        if forward {
            m.next();
        } else {
            m.previous();
        }
        assert_ne!(m, MenuItem::Quit);
    }
}

#[test]
fn next_then_previous_round_trips_from_every_panel() {
    let panels = [
        MenuItem::Home,
        MenuItem::Todo,
        MenuItem::Done,
        MenuItem::All,
        MenuItem::Notes,
    ];
    for p in panels {
        let mut m = p;
        m.next();
        m.previous();
        assert_eq!(m, p);
        let mut m = p;
        m.previous();
        m.next();
        assert_eq!(m, p);
    }
}

#[test]
fn menu_ordinals_are_stable() {
    assert_eq!(usize::from(MenuItem::Home), 0);
    assert_eq!(usize::from(MenuItem::Todo), 1);
    assert_eq!(usize::from(MenuItem::Done), 2);
    assert_eq!(usize::from(MenuItem::All), 3);
    assert_eq!(usize::from(MenuItem::Notes), 4);
    assert_eq!(usize::from(MenuItem::Quit), 5);
}

#[test]
fn menu_vector_lists_all_tabs_in_order() {
    let titles = create_menu_vector();
    assert_eq!(titles, vec!["Home", "Todo", "Done", "All", "Notes", "Quit"]);
}

#[test]
fn title_matches_panel() {
    assert_eq!(MenuItem::Notes.title(), "Notes");
}

#[test]
fn advance_full_cycle_returns_to_start() {
    let mut c = SelectionCursor::new(5);
    c.advance(5);
    c.advance(5);
    assert_eq!(c.selected(), Some(2));
    for _ in 0..5 {
        c.advance(5);
    }
    assert_eq!(c.selected(), Some(2));
}

#[test]
fn advance_wraps_at_end_and_retreat_wraps_at_start() {
    let mut c = SelectionCursor { selected: Some(2) };
    c.advance(3);
    assert_eq!(c.selected(), Some(0));
    c.retreat(3);
    assert_eq!(c.selected(), Some(2));
    c.retreat(3);
    assert_eq!(c.selected(), Some(1));
}

#[test]
fn cursor_is_none_and_inert_on_empty_list() {
    let mut c = SelectionCursor::new(0);
    assert_eq!(c.selected(), None);
    c.advance(0);
    c.retreat(0);
    assert_eq!(c.selected(), None);
    assert!(c.in_bounds(0));
    assert!(!c.in_bounds(1));
}

#[test]
fn delete_at_first_position_keeps_cursor_at_zero() {
    let mut tasks = three_tasks();
    let mut c = SelectionCursor { selected: Some(0) };
    remove_selected_task_from_list(&mut tasks, &mut c);
    assert_eq!(tasks.len(), 2);
    assert_eq!(tasks[0].id, 2);
    assert_eq!(c.selected(), Some(0));
}

#[test]
fn delete_at_last_position_moves_cursor_back() {
    let mut tasks = three_tasks();
    let mut c = SelectionCursor { selected: Some(2) };
    remove_selected_task_from_list(&mut tasks, &mut c);
    assert_eq!(tasks.len(), 2);
    assert_eq!(tasks[1].id, 2);
    assert_eq!(c.selected(), Some(1));
}

#[test]
fn delete_sole_record_empties_cursor() {
    let mut tasks = vec![task(7, "only")];
    let mut c = SelectionCursor { selected: Some(0) };
    remove_selected_task_from_list(&mut tasks, &mut c);
    assert!(tasks.is_empty());
    assert_eq!(c.selected(), None);
}

#[test]
fn modal_q_closes_popup_and_other_keys_leave_it_open() {
    let mut tasks = three_tasks();
    let mut st = AppState::new(tasks.len());
    st.active_menu_item = MenuItem::Todo;
    st.show_popup = true;

    let r = handle_keys(&mut st, &mut tasks, true, Event::Input(Key::Char('n')));
    assert_eq!(r, Ok(false));
    assert!(st.show_popup);

    let r = handle_keys(&mut st, &mut tasks, true, Event::Input(Key::Char('x')));
    assert_eq!(r, Ok(false));
    assert!(st.show_popup);

    let r = handle_keys(&mut st, &mut tasks, true, Event::Tick);
    assert_eq!(r, Ok(false));
    assert!(st.show_popup);

    let r = handle_keys(&mut st, &mut tasks, true, Event::Input(Key::Char('q')));
    assert_eq!(r, Ok(false));
    assert!(!st.show_popup);
}

#[test]
fn modal_on_panel_without_handler_is_refused() {
    let mut tasks = three_tasks();
    let mut st = AppState::new(tasks.len());
    st.show_popup = true;
    let r = handle_keys(&mut st, &mut tasks, true, Event::Input(Key::Char('q')));
    assert_eq!(r, Err(LocalError::UnsupportedModal));
    assert!(st.show_popup);
    assert_eq!(tasks.len(), 3);
}

#[test]
fn end_to_end_navigate_popup_quit() {
    let mut tasks: Vec<Task> = Vec::new();
    let mut st = AppState::new(tasks.len());
    assert_eq!(st.active_menu_item, MenuItem::Home);
    assert!(!st.show_popup);
    assert!(!st.terminated);

    let r = handle_keys(&mut st, &mut tasks, true, Event::Input(Key::Right));
    assert_eq!(r, Ok(false));
    assert_eq!(st.active_menu_item, MenuItem::Todo);

    let r = handle_keys(&mut st, &mut tasks, true, Event::Input(Key::Char('a')));
    assert_eq!(r, Ok(false));
    assert!(st.show_popup);

    let r = handle_keys(&mut st, &mut tasks, true, Event::Input(Key::Char('q')));
    assert_eq!(r, Ok(false));
    assert!(!st.show_popup);
    assert!(!st.terminated);

    let r = handle_keys(&mut st, &mut tasks, true, Event::Input(Key::Char('q')));
    assert_eq!(r, Ok(false));
    assert_eq!(st.active_menu_item, MenuItem::Todo);
    assert!(!st.show_popup);
    assert!(st.terminated);
}

#[test]
fn end_to_end_delete_then_wrap_over_two_records() {
    let mut tasks = three_tasks();
    let mut st = AppState::new(tasks.len());
    st.active_menu_item = MenuItem::Todo;
    assert_eq!(st.cursor.selected(), Some(0));

    let r = handle_keys(&mut st, &mut tasks, true, Event::Input(Key::Char('d')));
    assert_eq!(r, Ok(true));
    assert_eq!(tasks.len(), 2);
    assert_eq!(st.cursor.selected(), Some(0));

    let r = handle_keys(&mut st, &mut tasks, true, Event::Input(Key::Char('j')));
    assert_eq!(r, Ok(false));
    assert_eq!(st.cursor.selected(), Some(1));

    let r = handle_keys(&mut st, &mut tasks, true, Event::Input(Key::Char('j')));
    assert_eq!(r, Ok(false));
    assert_eq!(st.cursor.selected(), Some(0));
}

#[test]
fn arrow_keys_move_cursor_like_letters() {
    let mut tasks = three_tasks();
    let mut st = AppState::new(tasks.len());
    st.active_menu_item = MenuItem::Todo;
    handle_keys(&mut st, &mut tasks, true, Event::Input(Key::Down)).unwrap();
    assert_eq!(st.cursor.selected(), Some(1));
    handle_keys(&mut st, &mut tasks, true, Event::Input(Key::Up)).unwrap();
    handle_keys(&mut st, &mut tasks, true, Event::Input(Key::Up)).unwrap();
    assert_eq!(st.cursor.selected(), Some(2));
}

#[test]
fn delete_without_store_is_refused() {
    let mut tasks = three_tasks();
    let mut st = AppState::new(tasks.len());
    st.active_menu_item = MenuItem::Todo;
    let r = handle_keys(&mut st, &mut tasks, false, Event::Input(Key::Char('d')));
    assert_eq!(r, Err(LocalError::CannotReadFromFile));
    assert_eq!(tasks.len(), 3);
    assert_eq!(st.cursor.selected(), Some(0));
}

#[test]
fn uppercase_navigation_only_where_the_panel_accepts_it() {
    let mut tasks: Vec<Task> = Vec::new();
    let mut st = AppState::new(tasks.len());
    handle_keys(&mut st, &mut tasks, true, Event::Input(Key::Char('L'))).unwrap();
    assert_eq!(st.active_menu_item, MenuItem::Home);
    handle_keys(&mut st, &mut tasks, true, Event::Input(Key::Char('l'))).unwrap();
    assert_eq!(st.active_menu_item, MenuItem::Todo);
    handle_keys(&mut st, &mut tasks, true, Event::Input(Key::Char('l'))).unwrap();
    assert_eq!(st.active_menu_item, MenuItem::Done);
    handle_keys(&mut st, &mut tasks, true, Event::Input(Key::Char('L'))).unwrap();
    assert_eq!(st.active_menu_item, MenuItem::All);
    handle_keys(&mut st, &mut tasks, true, Event::Input(Key::Char('H'))).unwrap();
    assert_eq!(st.active_menu_item, MenuItem::Done);
}

#[test]
fn tick_mutates_nothing() {
    let mut tasks = three_tasks();
    let mut st = AppState::new(tasks.len());
    st.active_menu_item = MenuItem::Todo;
    let r = handle_keys(&mut st, &mut tasks, true, Event::Tick);
    assert_eq!(r, Ok(false));
    assert_eq!(st.active_menu_item, MenuItem::Todo);
    assert!(!st.show_popup);
    assert!(!st.terminated);
    assert_eq!(st.cursor.selected(), Some(0));
    assert_eq!(tasks.len(), 3);
}

#[test]
fn termination_is_idempotent_once_set() {
    let mut tasks: Vec<Task> = Vec::new();
    let mut st = AppState::new(tasks.len());
    handle_keys(&mut st, &mut tasks, true, Event::Input(Key::Char('Q'))).unwrap();
    assert!(st.terminated);
    handle_keys(&mut st, &mut tasks, true, Event::Input(Key::Char('q'))).unwrap();
    assert!(st.terminated);
}

#[test]
fn add_appends_one_default_entry() {
    let mut tasks = three_tasks();
    let r = add_new_test_task_to_list(&mut tasks, true);
    assert_eq!(r, Ok(()));
    assert_eq!(tasks.len(), 4);
    assert_eq!(tasks[0].id, 1);
    let added = &tasks[3];
    assert_eq!(added.name, "NEW DEFAULT NAME");
    assert!(added.id < 100);
    assert!(added.priority < 10);
    assert!(!added.complete);
    assert!(added.description.starts_with("NEW REALLY LONG"));
}

#[test]
fn add_without_store_is_refused() {
    let mut tasks = three_tasks();
    let r = add_new_test_task_to_list(&mut tasks, false);
    assert_eq!(r, Err(LocalError::CannotReadFromFile));
    assert_eq!(tasks.len(), 3);
}

#[test]
fn selected_task_picks_record_under_cursor() {
    let tasks = three_tasks();
    let fallback = Task::default();
    let c = SelectionCursor { selected: Some(1) };
    assert_eq!(selected_task(&tasks, &c, &fallback).id, 2);
}

#[test]
fn selected_task_falls_back_on_empty_list() {
    let tasks: Vec<Task> = Vec::new();
    let fallback = Task::default();
    let c = SelectionCursor::new(0);
    let t = selected_task(&tasks, &c, &fallback);
    assert_eq!(t.name, "Empty List");
    assert_eq!(t.id, 0);
    assert!(!t.complete);
}

#[test]
fn default_task_is_the_empty_placeholder() {
    let t = Task::default();
    assert_eq!(t.id, 0);
    assert_eq!(t.name, "Empty List");
    assert_eq!(t.description, "");
    assert!(!t.complete);
    assert_eq!(t.priority, 0);
    assert_eq!(t.created, "");
}

#[test]
fn poll_timeout_counts_down_to_the_tick_boundary() {
    assert_eq!(poll_timeout_ms(200, 0), 200);
    assert_eq!(poll_timeout_ms(200, 50), 150);
    assert_eq!(poll_timeout_ms(200, 200), 0);
    assert_eq!(poll_timeout_ms(200, 450), 0);
}

#[test]
fn tick_due_exactly_at_the_interval() {
    assert!(!tick_due(200, 199));
    assert!(tick_due(200, 200));
    assert!(tick_due(200, 201));
}

#[test]
fn centered_rect_cuts_symmetric_margins() {
    let screen = Rect { x: 0, y: 0, width: 100, height: 100 };
    let overlay = centered_rect(90, 80, screen);
    assert_eq!(overlay, Rect { x: 5, y: 10, width: 90, height: 80 });
}

#[test]
fn centered_rect_rounds_margins_down_on_odd_sizes() {
    let screen = Rect { x: 3, y: 2, width: 7, height: 9 };
    let overlay = centered_rect(50, 50, screen);
    assert_eq!(overlay, Rect { x: 4, y: 4, width: 5, height: 5 });
}
