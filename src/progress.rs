use vstd::prelude::*;

verus! {

/// Lifecycle state of one package operation.
#[derive(Debug, Clone, Copy, PartialEq, Eq, Structural)]
pub enum ProgressState {
    Pending,
    Downloading,
    Installing,
    Removing,
    Completed,
    Failed,
}

/// `Completed` and `Failed` end an entry's lifecycle.
pub open spec fn is_terminal(s: ProgressState) -> bool {
    s == ProgressState::Completed || s == ProgressState::Failed
}

/// The states in which an external process is working on the entry.
pub open spec fn is_active(s: ProgressState) -> bool {
    s == ProgressState::Downloading || s == ProgressState::Installing || s == ProgressState::Removing
}

/// The edges of the state graph: `Pending` to an active state or straight to
/// `Failed`, and an active state to a terminal one.
pub open spec fn is_edge(from: ProgressState, to: ProgressState) -> bool {
    ||| from == ProgressState::Pending && (is_active(to) || to == ProgressState::Failed)
    ||| is_active(from) && is_terminal(to)
}

/// Canonical lower-case label of a state.
pub open spec fn label_of(s: ProgressState) -> Seq<char> {
    match s {
        ProgressState::Pending => "pending"@,
        ProgressState::Downloading => "downloading"@,
        ProgressState::Installing => "installing"@,
        ProgressState::Removing => "removing"@,
        ProgressState::Completed => "completed"@,
        ProgressState::Failed => "failed"@,
    }
}

impl ProgressState {
    /// Whether the state is terminal.
    pub fn is_terminal(&self) -> (r: bool)
        ensures
            r == is_terminal(*self),
    {
        match self {
            ProgressState::Completed | ProgressState::Failed => true,
            _ => false,
        }
    }
}

/// What an entry holds, as plain values.
pub struct EntryModel {
    pub name: Seq<char>,
    pub state: ProgressState,
    pub percent: u16,
    pub message: Seq<char>,
}

/// Live state of one operation: name, lifecycle state, percent and a short message.
#[derive(Debug)]
pub struct PackageProgress {
    pub name: String,
    pub state: ProgressState,
    pub progress: u16,
    pub message: String,
}

impl View for PackageProgress {
    type V = EntryModel;

    open spec fn view(&self) -> EntryModel {
        EntryModel {
            name: self.name@,
            state: self.state,
            percent: self.progress,
            message: self.message@,
        }
    }
}

/// A fresh entry for a package name.
pub open spec fn pending_entry(name: Seq<char>) -> EntryModel {
    EntryModel { name, state: ProgressState::Pending, percent: 0, message: Seq::empty() }
}

impl PackageProgress {
    /// A `Pending` entry at 0 % with an empty message.
    pub fn new(name: String) -> (r: Self)
        ensures
            r@ == pending_entry(name@),
    {
        PackageProgress { name, state: ProgressState::Pending, progress: 0, message: String::new() }
    }

    /// The canonical label of the entry's state.
    pub fn state_label(&self) -> (r: &str)
        ensures
            r@ == label_of(self.state),
    {
        match self.state {
            ProgressState::Pending => "pending",
            ProgressState::Downloading => "downloading",
            ProgressState::Installing => "installing",
            ProgressState::Removing => "removing",
            ProgressState::Completed => "completed",
            ProgressState::Failed => "failed",
        }
    }
}

impl Clone for PackageProgress {
    fn clone(&self) -> (r: Self)
        ensures
            r == *self,
    {
        PackageProgress {
            name: self.name.clone(),
            state: self.state,
            progress: self.progress,
            message: self.message.clone(),
        }
    }
}

} // verus!

verus! {

/// Colour in which an entry is drawn.
#[derive(Debug, Clone, Copy, PartialEq, Eq, Structural)]
pub enum StateColor {
    Gray,
    Yellow,
    Blue,
    Magenta,
    Green,
    Red,
}

pub open spec fn color_of(s: ProgressState) -> StateColor {
    match s {
        ProgressState::Pending => StateColor::Gray,
        ProgressState::Downloading => StateColor::Yellow,
        ProgressState::Installing => StateColor::Blue,
        ProgressState::Removing => StateColor::Magenta,
        ProgressState::Completed => StateColor::Green,
        ProgressState::Failed => StateColor::Red,
    }
}

/// The character shown before a package on the summary screen.
pub open spec fn status_icon_of(s: ProgressState) -> Seq<char> {
    match s {
        ProgressState::Completed => "✓"@,
        ProgressState::Failed => "✗"@,
        _ => "•"@,
    }
}

impl PackageProgress {
    /// The colour of the entry's state.
    pub fn state_color(&self) -> (r: StateColor)
        ensures
            r == color_of(self.state),
    {
        match self.state {
            ProgressState::Pending => StateColor::Gray,
            ProgressState::Downloading => StateColor::Yellow,
            ProgressState::Installing => StateColor::Blue,
            ProgressState::Removing => StateColor::Magenta,
            ProgressState::Completed => StateColor::Green,
            ProgressState::Failed => StateColor::Red,
        }
    }

    /// The summary icon of the entry's state.
    pub fn status_icon(&self) -> (r: &str)
        ensures
            r@ == status_icon_of(self.state),
    {
        match self.state {
            ProgressState::Completed => "✓",
            ProgressState::Failed => "✗",
            _ => "•",
        }
    }
}

} // verus!
