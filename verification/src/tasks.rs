//! The task records the dashboard browses, and the list operations the
//! dispatcher performs on them: appending a fresh entry and deleting the
//! entry under the cursor.

use rand::Rng;
use vstd::prelude::*;
use vstd::string::StringExecFns;
use crate::LocalError;
use crate::cursor::SelectionCursor;

verus! {

/// One persisted to-do entry. The creation timestamp is carried as the
/// string the store serializes it to; the core never inspects it.
#[derive(Clone, Debug)]
pub struct Task {
    pub id: usize,
    pub name: String,
    pub description: String,
    pub complete: bool,
    pub priority: usize,
    pub created: String,
}

impl Default for Task {
    /// The placeholder record shown while the list is empty.
    fn default() -> (r: Self)
        ensures
            r.id == 0,
            r.name@ == "Empty List"@,
            r.description@ == ""@,
            !r.complete,
            r.priority == 0,
            r.created@ == ""@,
    {
        Self {
            id: 0,
            name: String::from_str("Empty List"),
            description: String::from_str(""),
            complete: false,
            priority: 0,
            created: String::from_str(""),
        }
    }
}

/// The name every freshly appended entry starts with.
pub open spec fn new_task_name() -> Seq<char> {
    "NEW DEFAULT NAME"@
}

/// The placeholder description every freshly appended entry starts with.
pub open spec fn new_task_description() -> Seq<char> {
    "NEW REALLY LONG HOPELLY NOT TRUNCATED DESCRIPTION THAT WILL HAVE TO BE EITHER TWEAKED OR FIXED OR SOMETHING LIKE THAT IN THE END..............   hOPEFULLY!! MAYBE WITH A FEW NEWLINES?   \n lEYTS SEE IF THIS RENDERS.... \n OR THIS MAYBE \n MAYBE HERE... "@
}

/// What a freshly appended entry looks like: a fixed name and description, a
/// small random id and priority, and not yet complete. Its creation
/// timestamp is whatever the clock said at the moment of the append.
pub open spec fn is_new_default_task(t: Task) -> bool {
    &&& t.id < 100
    &&& t.name@ == new_task_name()
    &&& t.description@ == new_task_description()
    &&& !t.complete
    &&& t.priority < 10
}

/// Relies on rand's `Rng::gen_range` over `0..bound`: the sample lies in the
/// half-open range, which is non-empty because `bound` is positive.
#[verifier::external_body]
fn random_below(bound: usize) -> (r: usize)
    requires
        1 <= bound,
    ensures
        r < bound,
{
    rand::thread_rng().gen_range(0..bound)
}

/// Relies on chrono's `Local::now` and `DateTime::to_rfc3339`: the current
/// local time rendered as a timestamp string. The value depends on the
/// clock, so nothing is assumed of it.
#[verifier::external_body]
fn current_time_string() -> String {
    chrono::Local::now().to_rfc3339()
}

/// Append a freshly created default entry to the list. `store_ok` says
/// whether the caller could read the store this entry is destined for; when
/// it could not, the list is left alone and the read failure is surfaced.
pub fn add_new_test_task_to_list(tasks: &mut Vec<Task>, store_ok: bool) -> (r: Result<
    (),
    LocalError,
>)
    ensures
        match r {
            Ok(()) => {
                &&& store_ok
                &&& final(tasks)@.len() == old(tasks)@.len() + 1
                &&& final(tasks)@.subrange(0, old(tasks)@.len() as int) == old(tasks)@
                &&& is_new_default_task(final(tasks)@.last())
            },
            Err(e) => {
                &&& !store_ok
                &&& e == LocalError::CannotReadFromFile
                &&& final(tasks)@ == old(tasks)@
            },
        },
{
    if !store_ok {
        return Err(LocalError::CannotReadFromFile);
    }
    let entry = Task {
        id: random_below(100),
        name: String::from_str("NEW DEFAULT NAME"),
        description: String::from_str(
            "NEW REALLY LONG HOPELLY NOT TRUNCATED DESCRIPTION THAT WILL HAVE TO BE EITHER TWEAKED OR FIXED OR SOMETHING LIKE THAT IN THE END..............   hOPEFULLY!! MAYBE WITH A FEW NEWLINES?   \n lEYTS SEE IF THIS RENDERS.... \n OR THIS MAYBE \n MAYBE HERE... ",
        ),
        complete: false,
        priority: random_below(10),
        created: current_time_string(),
    };
    tasks.push(entry);
    assert(tasks@.subrange(0, old(tasks)@.len() as int) =~= old(tasks)@);
    Ok(())
}

/// Where the cursor lands after the record at position `deleted` has been
/// removed from the list, leaving `new_len` records: `None` once the list is
/// empty, the first record if the first record was deleted, otherwise the
/// record that preceded the deleted one.
pub open spec fn cursor_after_delete_spec(deleted: nat, new_len: nat) -> SelectionCursor {
    if new_len == 0 {
        SelectionCursor { selected: Option::None }
    } else if deleted == 0 {
        SelectionCursor { selected: Option::Some(0usize) }
    } else {
        SelectionCursor { selected: Option::Some((deleted - 1) as usize) }
    }
}

/// Delete the record under the cursor and re-point the cursor as
/// `cursor_after_delete_spec` says; a no-op while the list is empty.
pub fn remove_selected_task_from_list(tasks: &mut Vec<Task>, cursor: &mut SelectionCursor)
    requires
        old(cursor).wf(old(tasks)@.len() as nat),
    ensures
        match old(cursor).selected {
            Option::None => {
                &&& final(tasks)@ == old(tasks)@
                &&& *final(cursor) == *old(cursor)
            },
            Option::Some(i) => {
                &&& final(tasks)@ == old(tasks)@.remove(i as int)
                &&& *final(cursor) == cursor_after_delete_spec(
                    i as nat,
                    final(tasks)@.len() as nat,
                )
            },
        },
        final(cursor).wf(final(tasks)@.len() as nat),
{
    match cursor.selected {
        None => {},
        Some(selected_item) => {
            tasks.remove(selected_item);
            if tasks.len() == 0 {
                cursor.selected = None;
            } else if selected_item == 0 {
                cursor.selected = Some(0);
            } else {
                cursor.selected = Some(selected_item - 1);
            }
        },
    }
}

/// The record the detail pane shows: the one under the cursor, or the
/// fallback placeholder while the list is empty or the cursor is out of
/// range.
pub fn selected_task<'a>(
    tasks: &'a Vec<Task>,
    cursor: &SelectionCursor,
    fallback: &'a Task,
) -> (r: &'a Task)
    ensures
        *r == match cursor.selected {
            Option::Some(i) => if (i as nat) < tasks@.len() {
                tasks@[i as int]
            } else {
                *fallback
            },
            Option::None => *fallback,
        },
{
    match cursor.selected {
        Some(i) => {
            if i < tasks.len() {
                &tasks[i]
            } else {
                fallback
            }
        },
        None => fallback,
    }
}

} // verus!
