use crate::progress::ProgressState;
use crate::store::{
    apply_all, initial_entries, lemma_apply_all_shape, percents_in_range, EntryUpdate, UpdateModel,
};
use crate::text::{chars_of, contains_exec, contains_text, digit_value, is_digit};
use vstd::prelude::*;
use vstd::string::{StrSliceExecFns, StringExecFns};

verus! {

/// Interval between two polls of a running process, in milliseconds.
pub const POLL_INTERVAL_MS: u64 = 100;

/// Polls allowed to a removal: two minutes.
pub const REMOVE_POLL_LIMIT: u32 = 1200;

/// Polls allowed to an installation: three minutes.
pub const INSTALL_POLL_LIMIT: u32 = 1800;

/// Polls allowed to a fetch-only pass: two minutes.
pub const FETCH_POLL_LIMIT: u32 = 1200;

/// A line of output becomes the entry's message only when shorter than this.
pub const MESSAGE_CAP: usize = 60;

/// What one operation asks of the package manager.
#[derive(Debug, Clone, Copy, PartialEq, Eq, Structural)]
pub enum OperationKind {
    Install,
    Remove,
}

/// One unit of work: a package name, what to do with it, and whether it is a cask.
#[derive(Debug)]
pub struct Operation {
    pub name: String,
    pub kind: OperationKind,
    pub cask: bool,
}

/// One invocation of the package manager.
#[derive(Debug, Clone, Copy, PartialEq, Eq, Structural)]
pub enum Step {
    Fetch,
    Install,
    Remove,
}

pub open spec fn step_of(kind: OperationKind) -> Step {
    match kind {
        OperationKind::Install => Step::Install,
        OperationKind::Remove => Step::Remove,
    }
}

impl Step {
    /// The step that applies an operation of `kind`.
    pub fn for_kind(kind: OperationKind) -> (r: Step)
        ensures
            r == step_of(kind),
    {
        match kind {
            OperationKind::Install => Step::Install,
            OperationKind::Remove => Step::Remove,
        }
    }
}

/// The state an entry shows while its step runs.
pub open spec fn active_state_of(step: Step) -> ProgressState {
    match step {
        Step::Fetch => ProgressState::Downloading,
        Step::Install => ProgressState::Installing,
        Step::Remove => ProgressState::Removing,
    }
}

pub open spec fn verb_of(step: Step) -> Seq<char> {
    match step {
        Step::Fetch => "fetch"@,
        Step::Install => "install"@,
        Step::Remove => "remove"@,
    }
}

/// Arguments of the package manager for one step:
/// `fetch [--cask] <name>`, `install [--cask] <name>`, `remove -f <name>`.
pub open spec fn args_of(step: Step, name: Seq<char>, cask: bool) -> Seq<Seq<char>> {
    match step {
        Step::Remove => seq!["remove"@, "-f"@, name],
        _ => if cask {
            seq![verb_of(step), "--cask"@, name]
        } else {
            seq![verb_of(step), name]
        },
    }
}

pub open spec fn string_views(v: Seq<String>) -> Seq<Seq<char>> {
    v.map_values(|s: String| s@)
}

fn verb(step: Step) -> (r: String)
    ensures
        r@ == verb_of(step),
{
    match step {
        Step::Fetch => String::from_str("fetch"),
        Step::Install => String::from_str("install"),
        Step::Remove => String::from_str("remove"),
    }
}

/// The command-line arguments for running `step` on a package.
pub fn command_args(step: Step, name: &String, cask: bool) -> (r: Vec<String>)
    ensures
        string_views(r@) == args_of(step, name@, cask),
{
    let mut args: Vec<String> = Vec::new();
    match step {
        Step::Remove => {
            args.push(String::from_str("remove"));
            args.push(String::from_str("-f"));
        },
        _ => {
            args.push(verb(step));
            if cask {
                args.push(String::from_str("--cask"));
            }
        },
    }
    args.push(name.clone());
    assert(string_views(args@) =~= args_of(step, name@, cask));
    args
}

/// The arguments of the clean-up run after removals: `autoremove`.
pub fn autoremove_args() -> (r: Vec<String>)
    ensures
        string_views(r@) == seq!["autoremove"@],
{
    let mut args: Vec<String> = Vec::new();
    args.push(String::from_str("autoremove"));
    assert(string_views(args@) =~= seq!["autoremove"@]);
    args
}

/// Polls allowed to one step before it is killed as timed out.
pub open spec fn poll_limit_of(step: Step) -> u32 {
    match step {
        Step::Fetch => FETCH_POLL_LIMIT,
        Step::Install => INSTALL_POLL_LIMIT,
        Step::Remove => REMOVE_POLL_LIMIT,
    }
}

pub fn poll_limit(step: Step) -> (r: u32)
    ensures
        r == poll_limit_of(step),
{
    match step {
        Step::Fetch => FETCH_POLL_LIMIT,
        Step::Install => INSTALL_POLL_LIMIT,
        Step::Remove => REMOVE_POLL_LIMIT,
    }
}

pub open spec fn start_message_of(step: Step) -> Seq<char> {
    match step {
        Step::Fetch => "Fetching..."@,
        Step::Install => "Installing..."@,
        Step::Remove => "Removing..."@,
    }
}

/// The write made before the process is spawned: the active state, 0 % and
/// a first message.
pub open spec fn start_update_of(step: Step) -> UpdateModel {
    UpdateModel {
        state: Some(active_state_of(step)),
        percent: Some(0),
        message: Some(start_message_of(step)),
    }
}

pub fn start_update(step: Step) -> (r: EntryUpdate)
    ensures
        r@ == start_update_of(step),
{
    let (state, message) = match step {
        Step::Fetch => (ProgressState::Downloading, String::from_str("Fetching...")),
        Step::Install => (ProgressState::Installing, String::from_str("Installing...")),
        Step::Remove => (ProgressState::Removing, String::from_str("Removing...")),
    };
    EntryUpdate { state: Some(state), percent: Some(0), message: Some(message) }
}

} // verus!

verus! {

/// A `%` at `p` with a digit just before it.
pub open spec fn percent_sign_at(s: Seq<char>, p: int) -> bool {
    0 < p < s.len() && s[p] == '%' && is_digit(s[p - 1])
}

/// Position of the first `%` at or after `i` that has a digit before it.
pub open spec fn first_percent_from(s: Seq<char>, i: int) -> Option<int>
    decreases s.len() - i,
{
    if i < 0 || i >= s.len() {
        None
    } else if percent_sign_at(s, i) {
        Some(i)
    } else {
        first_percent_from(s, i + 1)
    }
}

/// Start of the run of digits that ends just before `p`.
pub open spec fn digit_run_start(s: Seq<char>, p: int) -> int
    decreases p,
{
    if 0 < p <= s.len() && is_digit(s[p - 1]) {
        digit_run_start(s, p - 1)
    } else {
        p
    }
}

/// The number written in decimal by a run of digits.
pub open spec fn decimal_value(d: Seq<char>) -> nat
    decreases d.len(),
{
    if d.len() == 0 {
        0
    } else {
        decimal_value(d.drop_last()) * 10 + digit_value(d.last())
    }
}

pub open spec fn min_nat(a: nat, b: nat) -> nat {
    if a <= b {
        a
    } else {
        b
    }
}

/// Keyword heuristic, in priority order, ignoring ASCII case.
pub open spec fn keyword_percent(s: Seq<char>) -> u16 {
    if contains_text(s, "fetch"@, true) {
        10
    } else if contains_text(s, "download"@, true) {
        30
    } else if contains_text(s, "install"@, true) {
        60
    } else if contains_text(s, "pour"@, true) {
        80
    } else if contains_text(s, "complete"@, true) {
        100
    } else {
        50
    }
}

/// Percent guessed from one line of output: the number before the first
/// `%` that follows a digit, clamped to 100; else the keyword heuristic.
pub open spec fn percent_estimate(s: Seq<char>) -> u16 {
    match first_percent_from(s, 0) {
        Some(p) => min_nat(decimal_value(s.subrange(digit_run_start(s, p), p)), 100) as u16,
        None => keyword_percent(s),
    }
}

proof fn lemma_digit_run(s: Seq<char>, p: int)
    requires
        0 <= p <= s.len(),
    ensures
        0 <= digit_run_start(s, p) <= p,
        forall|t: int| digit_run_start(s, p) <= t < p ==> is_digit(#[trigger] s[t]),
    decreases p,
{
    if 0 < p && is_digit(s[p - 1]) {
        lemma_digit_run(s, p - 1);
    }
}

fn is_digit_exec(c: char) -> (r: bool)
    ensures
        r == is_digit(c),
{
    '0' <= c && c <= '9'
}

/// The number before position `p`, capped at 100.
fn number_before(cs: &Vec<char>, p: usize) -> (r: u16)
    requires
        p <= cs@.len(),
    ensures
        r == min_nat(decimal_value(cs@.subrange(digit_run_start(cs@, p as int), p as int)), 100),
{
    let ghost s = cs@;
    proof {
        lemma_digit_run(s, p as int);
    }
    let mut j: usize = p;
    while j > 0 && is_digit_exec(cs[j - 1])
        invariant
            0 <= j <= p <= s.len(),
            s == cs@,
            digit_run_start(s, j as int) == digit_run_start(s, p as int),
        decreases j,
    {
        j = j - 1;
    }
    let mut v: u16 = 0;
    let mut k: usize = j;
    while k < p
        invariant
            j <= k <= p <= s.len(),
            s == cs@,
            j == digit_run_start(s, p as int),
            forall|t: int| j <= t < p ==> is_digit(#[trigger] s[t]),
            v == min_nat(decimal_value(s.subrange(j as int, k as int)), 101),
        decreases p - k,
    {
        let c = cs[k];
        assert(is_digit(s[k as int]));
        let d = ((c as u32) - ('0' as u32)) as u16;
        assert(s.subrange(j as int, k + 1).drop_last() =~= s.subrange(j as int, k as int));
        let w = v * 10 + d;
        v = if w > 101 {
            101
        } else {
            w
        };
        k = k + 1;
    }
    if v > 100 {
        100
    } else {
        v
    }
}

fn keyword_percent_exec(cs: &Vec<char>) -> (r: u16)
    ensures
        r == keyword_percent(cs@),
{
    if contains_exec(cs, &chars_of("fetch"), true) {
        10
    } else if contains_exec(cs, &chars_of("download"), true) {
        30
    } else if contains_exec(cs, &chars_of("install"), true) {
        60
    } else if contains_exec(cs, &chars_of("pour"), true) {
        80
    } else if contains_exec(cs, &chars_of("complete"), true) {
        100
    } else {
        50
    }
}

/// Guesses a percent from one line of output (see [`percent_estimate`]);
/// whatever the line holds, the result lies in 0..=100.
pub fn estimate_percent(line: &str) -> (r: u16)
    ensures
        r == percent_estimate(line@),
        r <= 100,
{
    let cs = chars_of(line);
    let mut i: usize = 0;
    while i < cs.len()
        invariant
            0 <= i <= cs@.len(),
            cs@ == line@,
            first_percent_from(cs@, 0) == first_percent_from(cs@, i as int),
        decreases cs@.len() - i,
    {
        if i > 0 && cs[i] == '%' && is_digit_exec(cs[i - 1]) {
            return number_before(&cs, i);
        }
        i = i + 1;
    }
    keyword_percent_exec(&cs)
}

/// The write made for one line of output: the line becomes the message when
/// it is not empty and shorter than [`MESSAGE_CAP`]; a line of standard
/// output also sets the percent it suggests.
pub open spec fn line_update_of(line: Seq<char>, from_stdout: bool) -> UpdateModel {
    UpdateModel {
        state: None,
        percent: if from_stdout {
            Some(percent_estimate(line))
        } else {
            None
        },
        message: if 0 < line.len() < MESSAGE_CAP {
            Some(line)
        } else {
            None
        },
    }
}

pub fn line_update(line: &str, from_stdout: bool) -> (r: EntryUpdate)
    ensures
        r@ == line_update_of(line@, from_stdout),
{
    let n = line.unicode_len();
    let message = if 0 < n && n < MESSAGE_CAP {
        Some(String::from_str(line))
    } else {
        None
    };
    let percent = if from_stdout {
        Some(estimate_percent(line))
    } else {
        None
    };
    EntryUpdate { state: None, percent, message }
}

} // verus!

verus! {

/// Why a running process was killed.
#[derive(Debug, Clone, Copy, PartialEq, Eq, Structural)]
pub enum StopReason {
    Cancelled,
    TimedOut,
}

/// What the runner does after one poll of its process.
#[derive(Debug, Clone, Copy, PartialEq, Eq, Structural)]
pub enum PollAction {
    /// Still running: wait one more interval.
    Wait,
    /// Kill the process and end the entry with this reason.
    Kill(StopReason),
    /// The process exited, successfully or not: join the readers and finish.
    Finish(bool),
}

/// One poll. `exited` is what the non-blocking wait saw (`Some(success)`
/// once the process has exited); `polls` counts the polls made so far.
/// An exit is taken as it is; otherwise cancellation comes first, then the
/// poll ceiling.
pub open spec fn poll_action_of(exited: Option<bool>, cancelled: bool, polls: u32, limit: u32) -> PollAction {
    match exited {
        Some(ok) => PollAction::Finish(ok),
        None => if cancelled {
            PollAction::Kill(StopReason::Cancelled)
        } else if polls > limit {
            PollAction::Kill(StopReason::TimedOut)
        } else {
            PollAction::Wait
        },
    }
}

pub fn poll_action(exited: Option<bool>, cancelled: bool, polls: u32, limit: u32) -> (r: PollAction)
    ensures
        r == poll_action_of(exited, cancelled, polls, limit),
{
    match exited {
        Some(ok) => PollAction::Finish(ok),
        None => if cancelled {
            PollAction::Kill(StopReason::Cancelled)
        } else if polls > limit {
            PollAction::Kill(StopReason::TimedOut)
        } else {
            PollAction::Wait
        },
    }
}

/// How one run of a step ended.
#[derive(Debug)]
pub enum RunEnd {
    /// The process could not be started; the OS error's text.
    SpawnFailed(String),
    /// The process exited; whether its exit code meant success.
    Exited(bool),
    /// The process was killed.
    Stopped(StopReason),
}

pub enum RunEndModel {
    SpawnFailed(Seq<char>),
    Exited(bool),
    Stopped(StopReason),
}

impl View for RunEnd {
    type V = RunEndModel;

    open spec fn view(&self) -> RunEndModel {
        match self {
            RunEnd::SpawnFailed(m) => RunEndModel::SpawnFailed(m@),
            RunEnd::Exited(ok) => RunEndModel::Exited(*ok),
            RunEnd::Stopped(r) => RunEndModel::Stopped(*r),
        }
    }
}

/// The last write of a run: `Completed`, 100 % and `"Done"` on success;
/// otherwise `Failed` at 0 % with `"<verb> failed"` for a failing exit code,
/// the OS error for a failed spawn, or `"cancelled"` / `"timed out"`.
pub open spec fn finish_update_of(step: Step, end: RunEndModel) -> UpdateModel {
    match end {
        RunEndModel::Exited(true) => UpdateModel {
            state: Some(ProgressState::Completed),
            percent: Some(100),
            message: Some("Done"@),
        },
        RunEndModel::Exited(false) => UpdateModel {
            state: Some(ProgressState::Failed),
            percent: Some(0),
            message: Some(verb_of(step) + " failed"@),
        },
        RunEndModel::SpawnFailed(m) => UpdateModel {
            state: Some(ProgressState::Failed),
            percent: Some(0),
            message: Some(m),
        },
        RunEndModel::Stopped(reason) => UpdateModel {
            state: Some(ProgressState::Failed),
            percent: Some(0),
            message: Some(
                match reason {
                    StopReason::Cancelled => "cancelled"@,
                    StopReason::TimedOut => "timed out"@,
                },
            ),
        },
    }
}

/// Whether a run that ended so counts as a success.
pub open spec fn run_succeeded(end: RunEndModel) -> bool {
    end == RunEndModel::Exited(true)
}

pub fn finish_update(step: Step, end: RunEnd) -> (r: EntryUpdate)
    ensures
        r@ == finish_update_of(step, end@),
{
    match end {
        RunEnd::Exited(true) => EntryUpdate {
            state: Some(ProgressState::Completed),
            percent: Some(100),
            message: Some(String::from_str("Done")),
        },
        RunEnd::Exited(false) => EntryUpdate {
            state: Some(ProgressState::Failed),
            percent: Some(0),
            message: Some(verb(step).concat(" failed")),
        },
        RunEnd::SpawnFailed(m) => EntryUpdate {
            state: Some(ProgressState::Failed),
            percent: Some(0),
            message: Some(m),
        },
        RunEnd::Stopped(reason) => EntryUpdate {
            state: Some(ProgressState::Failed),
            percent: Some(0),
            message: Some(
                match reason {
                    StopReason::Cancelled => String::from_str("cancelled"),
                    StopReason::TimedOut => String::from_str("timed out"),
                },
            ),
        },
    }
}

/// Whether a run that ended with `end` succeeded.
pub fn is_success(end: &RunEnd) -> (r: bool)
    ensures
        r == run_succeeded(end@),
{
    match end {
        RunEnd::Exited(ok) => *ok,
        _ => false,
    }
}

} // verus!

verus! {

/// Percent clamping: whatever a line of output holds (a number such as
/// `250%`, no number at all), the percent it suggests lies within 0..=100,
/// and so does the percent of every entry after any writes to a new store.
pub proof fn lemma_percent_always_in_range(
    line: Seq<char>,
    from_stdout: bool,
    names: Seq<Seq<char>>,
    us: Seq<(int, UpdateModel)>,
)
    ensures
        percent_estimate(line) <= 100,
        line_update_of(line, from_stdout).percent matches Some(p) ==> p <= 100,
        percents_in_range(apply_all(initial_entries(names), us)),
{
    assert(percents_in_range(initial_entries(names)));
    lemma_apply_all_shape(initial_entries(names), us);
}

} // verus!
