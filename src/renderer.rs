use crate::progress::{is_terminal, EntryModel, PackageProgress};
use crate::text::{decimal_digits, decimal_text};
use crate::store::ProgressStore;
use vstd::prelude::*;
use vstd::string::{StrSliceExecFns, StringExecFns};

verus! {

/// Rows of the terminal around the package list taken by its borders.
pub const LIST_BORDER_ROWS: u16 = 2;

/// Rows one package takes on the live screen.
pub const LIVE_ROWS_PER_ITEM: u16 = 3;

/// Rows one package takes on the summary screen.
pub const SUMMARY_ROWS_PER_ITEM: u16 = 2;

/// The two screens of the terminal view.
#[derive(Debug, Clone, Copy, PartialEq, Eq, Structural)]
pub enum Screen {
    /// Per-package gauges and the overall progress bar.
    Live,
    /// Counts of completed and failed packages, after the work is done.
    Summary,
}

/// A key press, as far as the view cares.
#[derive(Debug, Clone, Copy, PartialEq, Eq, Structural)]
pub enum Key {
    /// Leave the view; honoured on the live screen only once every entry is terminal.
    Quit,
    /// Leave the view at once, abandoning the batch.
    ForceQuit,
    /// Any other key.
    Other,
}

/// What the view loop does after one tick.
#[derive(Debug, Clone, Copy, PartialEq, Eq, Structural)]
pub enum ViewAction {
    /// Keep running on this screen.
    Show(Screen),
    /// Leave the loop; `cancelled` when the user abandoned unfinished work.
    Exit(bool),
}

/// One tick of the view loop. `key` is the key read during the tick, if
/// any; `all_terminal` whether every entry is terminal; `batch_done` what
/// the orchestrator's completion check says; `show_summary` whether the
/// caller asked for the summary screen.
pub open spec fn view_step_of(
    screen: Screen,
    key: Option<Key>,
    all_terminal: bool,
    batch_done: bool,
    show_summary: bool,
) -> ViewAction {
    match screen {
        Screen::Live => {
            if key == Some(Key::ForceQuit) {
                ViewAction::Exit(true)
            } else if key == Some(Key::Quit) && all_terminal {
                ViewAction::Exit(false)
            } else if batch_done {
                if show_summary {
                    ViewAction::Show(Screen::Summary)
                } else {
                    ViewAction::Exit(false)
                }
            } else {
                ViewAction::Show(Screen::Live)
            }
        },
        Screen::Summary => {
            if key == Some(Key::Quit) || key == Some(Key::ForceQuit) {
                ViewAction::Exit(false)
            } else {
                ViewAction::Show(Screen::Summary)
            }
        },
    }
}

pub fn view_step(screen: Screen, key: Option<Key>, all_terminal: bool, batch_done: bool, show_summary: bool) -> (r:
    ViewAction)
    ensures
        r == view_step_of(screen, key, all_terminal, batch_done, show_summary),
{
    match screen {
        Screen::Live => {
            if key == Some(Key::ForceQuit) {
                ViewAction::Exit(true)
            } else if key == Some(Key::Quit) && all_terminal {
                ViewAction::Exit(false)
            } else if batch_done {
                if show_summary {
                    ViewAction::Show(Screen::Summary)
                } else {
                    ViewAction::Exit(false)
                }
            } else {
                ViewAction::Show(Screen::Live)
            }
        },
        Screen::Summary => {
            if key == Some(Key::Quit) || key == Some(Key::ForceQuit) {
                ViewAction::Exit(false)
            } else {
                ViewAction::Show(Screen::Summary)
            }
        },
    }
}

/// How many packages fit in a list of `height` rows, borders included: at
/// least one.
pub open spec fn items_per_screen_of(height: u16, rows_per_item: u16) -> nat {
    let inner: int = if height >= LIST_BORDER_ROWS {
        height - LIST_BORDER_ROWS
    } else {
        0
    };
    let n: int = inner / (rows_per_item as int);
    if n >= 1 {
        n as nat
    } else {
        1
    }
}

pub fn items_per_screen(height: u16, rows_per_item: u16) -> (r: usize)
    requires
        rows_per_item > 0,
    ensures
        r == items_per_screen_of(height, rows_per_item),
{
    let inner: u16 = if height >= LIST_BORDER_ROWS {
        height - LIST_BORDER_ROWS
    } else {
        0
    };
    let n: u16 = inner / rows_per_item;
    if n >= 1 {
        n as usize
    } else {
        1
    }
}

/// Index of the first entry at or after `i` that is not terminal, or the
/// length when there is none.
pub open spec fn first_open_from(s: Seq<EntryModel>, i: int) -> int
    decreases s.len() - i,
{
    if i < 0 || i >= s.len() {
        s.len() as int
    } else if !is_terminal(s[i].state) {
        i
    } else {
        first_open_from(s, i + 1)
    }
}

/// Where the live list starts: one row before the first unfinished entry
/// when two or more rows fit, at that entry when only one does (the top
/// when all are finished), moved up so that the window is full whenever
/// there are enough entries.
pub open spec fn window_start_of(s: Seq<EntryModel>, per_screen: nat) -> int {
    let first = first_open_from(s, 0);
    let anchor: int = if first >= s.len() {
        0
    } else if first >= 1 && per_screen >= 2 {
        first - 1
    } else if first >= 1 {
        first
    } else {
        0
    };
    let top: int = if s.len() >= per_screen {
        s.len() - per_screen
    } else {
        0
    };
    if anchor <= top {
        anchor
    } else {
        top
    }
}

/// The entries shown on the live screen: `(start, count)`, with `count` the
/// smaller of `per_screen` and what is left after `start`. When there is
/// room for a row, the first unfinished entry is among those shown.
pub fn visible_window(store: &ProgressStore, per_screen: usize) -> (r: (usize, usize))
    ensures
        r.0 == window_start_of(store@, per_screen as nat),
        r.1 == (if per_screen <= store@.len() - r.0 {
            per_screen as int
        } else {
            store@.len() - r.0
        }),
        r.0 + r.1 <= store@.len(),
        per_screen > 0 && first_open_from(store@, 0) < store@.len() ==> r.0 <= first_open_from(store@, 0) < r.0
            + r.1,
{
    let n = store.len();
    let mut i: usize = 0;
    while i < n && store.get(i).state.is_terminal()
        invariant
            n == store@.len(),
            0 <= i <= n,
            first_open_from(store@, 0) == first_open_from(store@, i as int),
        decreases n - i,
    {
        i = i + 1;
    }
    let anchor: usize = if i >= n {
        0
    } else if i >= 1 && per_screen >= 2 {
        i - 1
    } else if i >= 1 {
        i
    } else {
        0
    };
    let top: usize = if n >= per_screen {
        n - per_screen
    } else {
        0
    };
    let start = if anchor <= top {
        anchor
    } else {
        top
    };
    let count = if per_screen <= n - start {
        per_screen
    } else {
        n - start
    };
    (start, count)
}

/// Percent of the batch completed, for the overall bar; 0 for an empty batch.
pub open spec fn overall_percent_of(completed: nat, total: nat) -> nat {
    if total == 0 {
        0
    } else if completed >= total {
        100
    } else {
        completed * 100 / total
    }
}

pub fn overall_percent(completed: usize, total: usize) -> (r: u16)
    ensures
        r == overall_percent_of(completed as nat, total as nat),
        r <= 100,
{
    if total == 0 {
        0
    } else if completed >= total {
        100
    } else {
        let c = completed as u128;
        let t = total as u128;
        let p = c * 100 / t;
        assert(p < 100) by (nonlinear_arith)
            requires
                c < t,
                p == (c * 100) as int / (t as int),
                t > 0,
        ;
        p as u16
    }
}

} // verus!

verus! {

/// Text on an entry's gauge: its message, or its percent when it has none.
pub open spec fn gauge_label_of(e: EntryModel) -> Seq<char> {
    if e.message.len() == 0 {
        decimal_digits(e.percent as nat) + "%"@
    } else {
        e.message
    }
}

pub fn gauge_label(e: &PackageProgress) -> (r: String)
    ensures
        r@ == gauge_label_of(e@),
{
    if e.message.as_str().unicode_len() == 0 {
        decimal_text(e.progress as u64).concat("%")
    } else {
        e.message.clone()
    }
}

/// Text on the overall bar: `"<completed>/<total> packages"`.
pub open spec fn progress_label_of(completed: nat, total: nat) -> Seq<char> {
    decimal_digits(completed) + "/"@ + decimal_digits(total) + " packages"@
}

pub fn progress_label(completed: usize, total: usize) -> (r: String)
    ensures
        r@ == progress_label_of(completed as nat, total as nat),
{
    decimal_text(completed as u64).concat("/").concat(decimal_text(total as u64).as_str()).concat(" packages")
}

} // verus!
