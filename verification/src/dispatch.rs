//! The input dispatcher: given one event, the active panel, the modal flag
//! and the selection cursor, decide which mutation to perform — navigate,
//! toggle the popup, move or delete within the task list, or request
//! termination.

use vstd::prelude::*;
use crate::LocalError;
use crate::cursor::{advance_spec, initial_cursor_spec, retreat_spec, SelectionCursor};
use crate::events::{Event, Key};
use crate::menu::{next_spec, previous_spec, MenuItem};
use crate::tasks::{
    cursor_after_delete_spec, remove_selected_task_from_list, Task,
};

verus! {

/// Everything the render loop owns and the dispatcher mutates: the active
/// panel, the modal overlay flag, the termination flag, and the selection
/// cursor into the task list.
#[derive(Clone, Copy, Debug)]
pub struct AppState {
    pub active_menu_item: MenuItem,
    pub show_popup: bool,
    pub terminated: bool,
    pub cursor: SelectionCursor,
}

impl AppState {
    /// A well-formed state for a task list of `len` records: the active
    /// panel is never the quit sentinel, and the cursor fits the list.
    pub open spec fn wf(self, len: nat) -> bool {
        &&& self.active_menu_item.is_navigable()
        &&& self.cursor.wf(len)
    }

    /// The state the dashboard starts in: the Home panel, no popup, not
    /// terminating, and the cursor on the first of the `len` records.
    pub fn new(len: usize) -> (r: AppState)
        ensures
            r.active_menu_item == MenuItem::Home,
            !r.show_popup,
            !r.terminated,
            r.cursor == initial_cursor_spec(len as nat),
            r.wf(len as nat),
    {
        AppState {
            active_menu_item: MenuItem::Home,
            show_popup: false,
            terminated: false,
            cursor: SelectionCursor::new(len),
        }
    }
}

/// What one dispatch does while the popup is open: under the Todo panel,
/// `q` closes it and every other event is a no-op (`n` is reserved for
/// confirming a new entry); under every other panel, which defines no modal
/// handler, the interaction is refused.
pub open spec fn modal_step_spec(pre: AppState, tasks: Seq<Task>, ev: Event<Key>) -> (
    AppState,
    Seq<Task>,
    Result<bool, LocalError>,
) {
    if pre.active_menu_item == MenuItem::Todo {
        match ev {
            Event::Input(k) => if k == Key::Char('q') {
                (AppState { show_popup: false, ..pre }, tasks, Result::Ok(false))
            } else {
                (pre, tasks, Result::Ok(false))
            },
            Event::Tick => (pre, tasks, Result::Ok(false)),
        }
    } else {
        (pre, tasks, Result::Err(LocalError::UnsupportedModal))
    }
}

/// What a key does on the panels with no list: left/`h` and right/`l` step
/// through the cycle, `q`/`Q` requests termination, everything else is a
/// no-op. `uppercase_nav` says whether `H`/`L` are accepted as well, as they
/// are on the Done, All and Notes panels.
pub open spec fn basic_nav_step_spec(pre: AppState, k: Key, uppercase_nav: bool) -> (
    AppState,
    Result<bool, LocalError>,
) {
    if k == Key::Left || k == Key::Char('h') || (uppercase_nav && k == Key::Char('H')) {
        (
            AppState { active_menu_item: previous_spec(pre.active_menu_item), ..pre },
            Result::Ok(false),
        )
    } else if k == Key::Right || k == Key::Char('l') || (uppercase_nav && k == Key::Char('L')) {
        (AppState { active_menu_item: next_spec(pre.active_menu_item), ..pre }, Result::Ok(false))
    } else if k == Key::Char('q') || k == Key::Char('Q') {
        (AppState { terminated: true, ..pre }, Result::Ok(false))
    } else {
        (pre, Result::Ok(false))
    }
}

/// Deleting under the Todo panel: a no-op while the list is empty; refused
/// when the store could not be read; otherwise the record under the cursor
/// leaves the list, the cursor is re-pointed, and the caller is told to
/// write the list back.
pub open spec fn delete_step_spec(pre: AppState, tasks: Seq<Task>, store_ok: bool) -> (
    AppState,
    Seq<Task>,
    Result<bool, LocalError>,
) {
    match pre.cursor.selected {
        Option::None => (pre, tasks, Result::Ok(false)),
        Option::Some(i) => if store_ok {
            (
                AppState {
                    cursor: cursor_after_delete_spec(i as nat, (tasks.len() - 1) as nat),
                    ..pre
                },
                tasks.remove(i as int),
                Result::Ok(true),
            )
        } else {
            (pre, tasks, Result::Err(LocalError::CannotReadFromFile))
        },
    }
}

/// Moving the cursor under the Todo panel: a no-op while the list is empty;
/// refused when the store (from which the record count is fetched fresh)
/// could not be read; otherwise one wraparound step.
pub open spec fn move_step_spec(pre: AppState, tasks: Seq<Task>, store_ok: bool, forward: bool) -> (
    AppState,
    Seq<Task>,
    Result<bool, LocalError>,
) {
    match pre.cursor.selected {
        Option::None => (pre, tasks, Result::Ok(false)),
        Option::Some(_) => if store_ok {
            (
                AppState {
                    cursor: if forward {
                        advance_spec(pre.cursor, tasks.len())
                    } else {
                        retreat_spec(pre.cursor, tasks.len())
                    },
                    ..pre
                },
                tasks,
                Result::Ok(false),
            )
        } else {
            (pre, tasks, Result::Err(LocalError::CannotReadFromFile))
        },
    }
}

/// What a key does under the Todo panel: the common navigation keys, plus
/// `a`/`A` to open the popup, `d`/`D` to delete the record under the cursor,
/// and `j`/down and `k`/up to move the cursor.
pub open spec fn todo_step_spec(pre: AppState, tasks: Seq<Task>, store_ok: bool, k: Key) -> (
    AppState,
    Seq<Task>,
    Result<bool, LocalError>,
) {
    if k == Key::Left || k == Key::Char('h') {
        (
            AppState { active_menu_item: previous_spec(pre.active_menu_item), ..pre },
            tasks,
            Result::Ok(false),
        )
    } else if k == Key::Right || k == Key::Char('l') {
        (
            AppState { active_menu_item: next_spec(pre.active_menu_item), ..pre },
            tasks,
            Result::Ok(false),
        )
    } else if k == Key::Char('q') || k == Key::Char('Q') {
        (AppState { terminated: true, ..pre }, tasks, Result::Ok(false))
    } else if k == Key::Char('a') || k == Key::Char('A') {
        (AppState { show_popup: true, ..pre }, tasks, Result::Ok(false))
    } else if k == Key::Char('d') || k == Key::Char('D') {
        delete_step_spec(pre, tasks, store_ok)
    } else if k == Key::Down || k == Key::Char('j') {
        move_step_spec(pre, tasks, store_ok, true)
    } else if k == Key::Up || k == Key::Char('k') {
        move_step_spec(pre, tasks, store_ok, false)
    } else {
        (pre, tasks, Result::Ok(false))
    }
}

/// What one dispatched event does to the whole state, the task list, and
/// the result handed back to the render loop. The `bool` of an `Ok` result
/// says whether the task list changed and must be written back to the store.
pub open spec fn step_spec(pre: AppState, tasks: Seq<Task>, store_ok: bool, ev: Event<Key>) -> (
    AppState,
    Seq<Task>,
    Result<bool, LocalError>,
) {
    if pre.show_popup {
        modal_step_spec(pre, tasks, ev)
    } else {
        match ev {
            Event::Tick => (pre, tasks, Result::Ok(false)),
            Event::Input(k) => match pre.active_menu_item {
                MenuItem::Home => {
                    let (post, r) = basic_nav_step_spec(pre, k, false);
                    (post, tasks, r)
                },
                MenuItem::Todo => todo_step_spec(pre, tasks, store_ok, k),
                MenuItem::Done => {
                    let (post, r) = basic_nav_step_spec(pre, k, true);
                    (post, tasks, r)
                },
                MenuItem::All => {
                    let (post, r) = basic_nav_step_spec(pre, k, true);
                    (post, tasks, r)
                },
                MenuItem::Notes => {
                    let (post, r) = basic_nav_step_spec(pre, k, true);
                    (post, tasks, r)
                },
                MenuItem::Quit => (pre, tasks, Result::Ok(false)),
            },
        }
    }
}

/// Dispatch one event. `store_ok` says whether the caller could read the
/// task store this iteration; `tasks` is the list it read. `Ok(true)` tells
/// the caller the list changed and must be written back.
pub fn handle_keys(
    state: &mut AppState,
    tasks: &mut Vec<Task>,
    store_ok: bool,
    event: Event<Key>,
) -> (r: Result<bool, LocalError>)
    requires
        old(state).wf(old(tasks)@.len() as nat),
    ensures
        (*final(state), final(tasks)@, r) == step_spec(
            *old(state),
            old(tasks)@,
            store_ok,
            event,
        ),
        final(state).wf(final(tasks)@.len() as nat),
        old(state).terminated ==> final(state).terminated,
{
    if state.show_popup {
        match state.active_menu_item {
            MenuItem::Todo => {
                match event {
                    Event::Input(k) => match k {
                        Key::Char(c) => if c == 'q' {
                            state.show_popup = false;
                        },
                        _ => {},
                    },
                    Event::Tick => {},
                }
                Ok(false)
            },
            _ => Err(LocalError::UnsupportedModal),
        }
    } else {
        match event {
            Event::Tick => Ok(false),
            Event::Input(k) => match state.active_menu_item {
                MenuItem::Home => handle_basic_nav(state, k, false),
                MenuItem::Todo => handle_todo_key(state, tasks, store_ok, k),
                MenuItem::Done => handle_basic_nav(state, k, true),
                MenuItem::All => handle_basic_nav(state, k, true),
                MenuItem::Notes => handle_basic_nav(state, k, true),
                MenuItem::Quit => Ok(false),
            },
        }
    }
}

/// The common navigation keys on the panels with no list.
fn handle_basic_nav(state: &mut AppState, k: Key, uppercase_nav: bool) -> (r: Result<
    bool,
    LocalError,
>)
    requires
        old(state).active_menu_item.is_navigable(),
    ensures
        (*final(state), r) == basic_nav_step_spec(*old(state), k, uppercase_nav),
{
    match k {
        Key::Left => state.active_menu_item.previous(),
        Key::Right => state.active_menu_item.next(),
        Key::Char(c) => {
            if c == 'h' || (uppercase_nav && c == 'H') {
                state.active_menu_item.previous();
            } else if c == 'l' || (uppercase_nav && c == 'L') {
                state.active_menu_item.next();
            } else if c == 'q' || c == 'Q' {
                state.terminated = true;
            }
        },
        _ => {},
    }
    Ok(false)
}

/// The Todo panel's key handling: navigation plus the list operations.
fn handle_todo_key(state: &mut AppState, tasks: &mut Vec<Task>, store_ok: bool, k: Key) -> (r:
    Result<bool, LocalError>)
    requires
        old(state).active_menu_item.is_navigable(),
        old(state).cursor.wf(old(tasks)@.len() as nat),
    ensures
        (*final(state), final(tasks)@, r) == todo_step_spec(
            *old(state),
            old(tasks)@,
            store_ok,
            k,
        ),
{
    match k {
        Key::Left => {
            state.active_menu_item.previous();
            Ok(false)
        },
        Key::Right => {
            state.active_menu_item.next();
            Ok(false)
        },
        Key::Down => move_cursor(state, tasks, store_ok, true),
        Key::Up => move_cursor(state, tasks, store_ok, false),
        Key::Char(c) => {
            if c == 'h' {
                state.active_menu_item.previous();
                Ok(false)
            } else if c == 'l' {
                state.active_menu_item.next();
                Ok(false)
            } else if c == 'q' || c == 'Q' {
                state.terminated = true;
                Ok(false)
            } else if c == 'a' || c == 'A' {
                state.show_popup = true;
                Ok(false)
            } else if c == 'd' || c == 'D' {
                delete_under_cursor(state, tasks, store_ok)
            } else if c == 'j' {
                move_cursor(state, tasks, store_ok, true)
            } else if c == 'k' {
                move_cursor(state, tasks, store_ok, false)
            } else {
                Ok(false)
            }
        },
        _ => Ok(false),
    }
}

/// Delete the record under the cursor, if the list is non-empty and the
/// store could be read.
fn delete_under_cursor(state: &mut AppState, tasks: &mut Vec<Task>, store_ok: bool) -> (r: Result<
    bool,
    LocalError,
>)
    requires
        old(state).cursor.wf(old(tasks)@.len() as nat),
    ensures
        (*final(state), final(tasks)@, r) == delete_step_spec(
            *old(state),
            old(tasks)@,
            store_ok,
        ),
{
    match state.cursor.selected {
        None => Ok(false),
        Some(_) => {
            if store_ok {
                remove_selected_task_from_list(tasks, &mut state.cursor);
                Ok(true)
            } else {
                Err(LocalError::CannotReadFromFile)
            }
        },
    }
}

/// Move the cursor one wraparound step, if the list is non-empty and the
/// store (which supplies the fresh record count) could be read.
fn move_cursor(state: &mut AppState, tasks: &mut Vec<Task>, store_ok: bool, forward: bool) -> (r:
    Result<bool, LocalError>)
    requires
        old(state).cursor.wf(old(tasks)@.len() as nat),
    ensures
        (*final(state), final(tasks)@, r) == move_step_spec(
            *old(state),
            old(tasks)@,
            store_ok,
            forward,
        ),
{
    match state.cursor.selected {
        None => Ok(false),
        Some(_) => {
            if store_ok {
                let len = tasks.len();
                if forward {
                    state.cursor.advance(len);
                } else {
                    state.cursor.retreat(len);
                }
                Ok(false)
            } else {
                Err(LocalError::CannotReadFromFile)
            }
        },
    }
}

/// Under the Todo panel with the popup open, dispatching `q` closes the
/// popup, and dispatching any other key leaves it open.
pub proof fn lemma_modal_q_closes(pre: AppState, tasks: Seq<Task>, store_ok: bool, k: Key)
    requires
        pre.show_popup,
        pre.active_menu_item == MenuItem::Todo,
    ensures
        !step_spec(pre, tasks, store_ok, Event::Input(Key::Char('q'))).0.show_popup,
        k != Key::Char('q') ==> step_spec(pre, tasks, store_ok, Event::Input(k)).0.show_popup,
{
}

} // verus!
