//! The navigation state machine: which panel is active, and the cyclic
//! next/previous transitions over the five navigable panels.

use vstd::prelude::*;
use vstd::string::StringExecFns;

verus! {

/// One entry of the tab bar. The five panels Home, Todo, Done, All and Notes
/// form a cycle; `Quit` is a sentinel shown as the last tab and is never the
/// active panel.
#[derive(Clone, Copy, Debug, PartialEq, Eq, Structural)]
pub enum MenuItem {
    Home,
    Todo,
    Done,
    All,
    Notes,
    Quit,
}

/// The panel after `m` in the cyclic order Home, Todo, Done, All, Notes.
pub open spec fn next_spec(m: MenuItem) -> MenuItem {
    match m {
        MenuItem::Home => MenuItem::Todo,
        MenuItem::Todo => MenuItem::Done,
        MenuItem::Done => MenuItem::All,
        MenuItem::All => MenuItem::Notes,
        MenuItem::Notes => MenuItem::Home,
        MenuItem::Quit => MenuItem::Quit,
    }
}

/// The panel before `m` in the cyclic order Home, Todo, Done, All, Notes.
pub open spec fn previous_spec(m: MenuItem) -> MenuItem {
    match m {
        MenuItem::Home => MenuItem::Notes,
        MenuItem::Todo => MenuItem::Home,
        MenuItem::Done => MenuItem::Todo,
        MenuItem::All => MenuItem::Done,
        MenuItem::Notes => MenuItem::All,
        MenuItem::Quit => MenuItem::Quit,
    }
}

impl MenuItem {
    /// A panel is navigable when it is not the `Quit` sentinel.
    pub open spec fn is_navigable(self) -> bool {
        self != MenuItem::Quit
    }

    /// Move to the next panel in the cycle.
    pub fn next(&mut self)
        requires
            old(self).is_navigable(),
        ensures
            *final(self) == next_spec(*old(self)),
            final(self).is_navigable(),
    {
        match self {
            MenuItem::Home => *self = MenuItem::Todo,
            MenuItem::Todo => *self = MenuItem::Done,
            MenuItem::Done => *self = MenuItem::All,
            MenuItem::All => *self = MenuItem::Notes,
            MenuItem::Notes => *self = MenuItem::Home,
            MenuItem::Quit => *self = MenuItem::Home,
        }
    }

    /// Move to the previous panel in the cycle.
    pub fn previous(&mut self)
        requires
            old(self).is_navigable(),
        ensures
            *final(self) == previous_spec(*old(self)),
            final(self).is_navigable(),
    {
        match self {
            MenuItem::Home => *self = MenuItem::Notes,
            MenuItem::Todo => *self = MenuItem::Home,
            MenuItem::Done => *self = MenuItem::Todo,
            MenuItem::All => *self = MenuItem::Done,
            MenuItem::Notes => *self = MenuItem::All,
            MenuItem::Quit => *self = MenuItem::Home,
        }
    }
    /// The tab-bar label of this panel.
    pub fn title(&self) -> (r: String)
        ensures
            r@ == title_spec(*self),
    {
        match self {
            MenuItem::Home => String::from_str("Home"),
            MenuItem::Todo => String::from_str("Todo"),
            MenuItem::Done => String::from_str("Done"),
            MenuItem::All => String::from_str("All"),
            MenuItem::Notes => String::from_str("Notes"),
            MenuItem::Quit => String::from_str("Quit"),
        }
    }
}

/// The tab-bar label of each panel.
pub open spec fn title_spec(m: MenuItem) -> Seq<char> {
    match m {
        MenuItem::Home => "Home"@,
        MenuItem::Todo => "Todo"@,
        MenuItem::Done => "Done"@,
        MenuItem::All => "All"@,
        MenuItem::Notes => "Notes"@,
        MenuItem::Quit => "Quit"@,
    }
}

/// The stable ordinal of each tab, used only to highlight the active one.
pub open spec fn menu_index_spec(m: MenuItem) -> usize {
    match m {
        MenuItem::Home => 0usize,
        MenuItem::Todo => 1usize,
        MenuItem::Done => 2usize,
        MenuItem::All => 3usize,
        MenuItem::Notes => 4usize,
        MenuItem::Quit => 5usize,
    }
}

impl From<MenuItem> for usize {
    /// The ordinal of the tab, Home first and the quit sentinel last.
    fn from(input: MenuItem) -> (r: usize)
        ensures
            r == menu_index_spec(input),
    {
        match input {
            MenuItem::Home => 0,
            MenuItem::Todo => 1,
            MenuItem::Done => 2,
            MenuItem::All => 3,
            MenuItem::Notes => 4,
            MenuItem::Quit => 5,
        }
    }
}

impl vstd::std_specs::convert::FromSpecImpl<MenuItem> for usize {
    open spec fn obeys_from_spec() -> bool {
        true
    }

    open spec fn from_spec(m: MenuItem) -> usize {
        menu_index_spec(m)
    }
}

/// The labels of all tabs, in display order.
pub fn create_menu_vector() -> (r: Vec<String>)
    ensures
        r@.len() == 6,
        r@[0]@ == title_spec(MenuItem::Home),
        r@[1]@ == title_spec(MenuItem::Todo),
        r@[2]@ == title_spec(MenuItem::Done),
        r@[3]@ == title_spec(MenuItem::All),
        r@[4]@ == title_spec(MenuItem::Notes),
        r@[5]@ == title_spec(MenuItem::Quit),
{
    let mut titles: Vec<String> = Vec::new();
    titles.push(MenuItem::Home.title());
    titles.push(MenuItem::Todo.title());
    titles.push(MenuItem::Done.title());
    titles.push(MenuItem::All.title());
    titles.push(MenuItem::Notes.title());
    titles.push(MenuItem::Quit.title());
    titles
}

/// One walk over the tab cycle: `true` steps forward, `false` steps back.
pub open spec fn apply_moves(m: MenuItem, moves: Seq<bool>) -> MenuItem
    decreases moves.len(),
{
    if moves.len() == 0 {
        m
    } else if moves[0] {
        apply_moves(next_spec(m), moves.drop_first())
    } else {
        apply_moves(previous_spec(m), moves.drop_first())
    }
}

/// Every sequence of next/previous moves that starts from a navigable panel
/// ends on a navigable panel: the quit sentinel is never reached.
pub proof fn lemma_moves_stay_navigable(m: MenuItem, moves: Seq<bool>)
    requires
        m.is_navigable(),
    ensures
        apply_moves(m, moves).is_navigable(),
    decreases moves.len(),
{
    if moves.len() > 0 {
        if moves[0] {
            lemma_moves_stay_navigable(next_spec(m), moves.drop_first());
        } else {
            lemma_moves_stay_navigable(previous_spec(m), moves.drop_first());
        }
    }
}

/// Round trip: from any navigable panel, a forward step followed by a
/// backward step (and the other way round) returns to the starting panel.
pub proof fn lemma_next_previous_round_trip(m: MenuItem)
    requires
        m.is_navigable(),
    ensures
        previous_spec(next_spec(m)) == m,
        next_spec(previous_spec(m)) == m,
{
}

} // verus!
