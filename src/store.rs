use crate::progress::{
    is_edge, is_terminal, pending_entry, EntryModel, PackageProgress, ProgressState,
};
use vstd::prelude::*;

verus! {

/// Highest percent an entry can show.
pub const MAX_PERCENT: u16 = 100;

/// The fields of one entry that a write changes; `None` leaves a field as it is.
pub struct EntryUpdate {
    pub state: Option<ProgressState>,
    pub percent: Option<u16>,
    pub message: Option<String>,
}

/// An [`EntryUpdate`] as plain values.
pub struct UpdateModel {
    pub state: Option<ProgressState>,
    pub percent: Option<u16>,
    pub message: Option<Seq<char>>,
}

impl View for EntryUpdate {
    type V = UpdateModel;

    open spec fn view(&self) -> UpdateModel {
        UpdateModel {
            state: self.state,
            percent: self.percent,
            message: match self.message {
                Some(m) => Some(m@),
                None => None,
            },
        }
    }
}

pub open spec fn clamp_percent(p: u16) -> u16 {
    if p > MAX_PERCENT {
        100
    } else {
        p
    }
}

/// One write to one entry: each given field is written and the others are
/// kept. A new state is taken only along an edge of the state graph, so a
/// terminal entry keeps its state; a percent is clamped to 100; a message
/// replaces the old one.
pub open spec fn apply_update(e: EntryModel, u: UpdateModel) -> EntryModel {
    EntryModel {
        name: e.name,
        state: match u.state {
            Some(s) => if is_edge(e.state, s) {
                s
            } else {
                e.state
            },
            None => e.state,
        },
        percent: match u.percent {
            Some(p) => clamp_percent(p),
            None => e.percent,
        },
        message: match u.message {
            Some(m) => m,
            None => e.message,
        },
    }
}

/// A write addressed to entry `i`; out of range it changes nothing.
pub open spec fn store_step(s: Seq<EntryModel>, i: int, u: UpdateModel) -> Seq<EntryModel> {
    if 0 <= i < s.len() {
        s.update(i, apply_update(s[i], u))
    } else {
        s
    }
}

/// The entries after a sequence of writes, applied in order.
pub open spec fn apply_all(s: Seq<EntryModel>, us: Seq<(int, UpdateModel)>) -> Seq<EntryModel>
    decreases us.len(),
{
    if us.len() == 0 {
        s
    } else {
        let last = us.last();
        store_step(apply_all(s, us.drop_last()), last.0, last.1)
    }
}

/// The entries of a batch that has just started.
pub open spec fn initial_entries(names: Seq<Seq<char>>) -> Seq<EntryModel> {
    names.map_values(|n: Seq<char>| pending_entry(n))
}

/// Every entry shows a percent within 0..=100.
pub open spec fn percents_in_range(s: Seq<EntryModel>) -> bool {
    forall|i: int| 0 <= i < s.len() ==> #[trigger] s[i].percent <= 100
}

pub open spec fn all_terminal(s: Seq<EntryModel>) -> bool {
    forall|i: int| 0 <= i < s.len() ==> is_terminal(#[trigger] s[i].state)
}

/// Number of entries in state `st`.
pub open spec fn count_state(s: Seq<EntryModel>, st: ProgressState) -> nat
    decreases s.len(),
{
    if s.len() == 0 {
        0
    } else {
        count_state(s.drop_last(), st) + if s.last().state == st {
            1nat
        } else {
            0nat
        }
    }
}

/// Executable form of [`is_edge`].
pub fn is_edge_exec(from: ProgressState, to: ProgressState) -> (r: bool)
    ensures
        r == is_edge(from, to),
{
    match from {
        ProgressState::Pending => match to {
            ProgressState::Pending | ProgressState::Completed => false,
            _ => true,
        },
        ProgressState::Downloading | ProgressState::Installing | ProgressState::Removing => to.is_terminal(),
        _ => false,
    }
}

/// The ordered progress table of a batch: one entry per operation, fixed at
/// creation. Writes follow the state graph, so a terminal entry keeps its state.
pub struct ProgressStore {
    entries: Vec<PackageProgress>,
}

impl View for ProgressStore {
    type V = Seq<EntryModel>;

    closed spec fn view(&self) -> Seq<EntryModel> {
        self.entries@.map_values(|e: PackageProgress| e@)
    }
}

impl ProgressStore {

    /// One `Pending` entry per name, in input order.
    pub fn new(names: Vec<String>) -> (r: Self)
        ensures
            r@ == initial_entries(names@.map_values(|n: String| n@)),
            percents_in_range(r@),
    {
        let mut entries: Vec<PackageProgress> = Vec::new();
        let mut i: usize = 0;
        while i < names.len()
            invariant
                0 <= i <= names@.len(),
                entries@.len() == i,
                forall|k: int| 0 <= k < i ==> #[trigger] entries@[k]@ == pending_entry(names@[k]@),
            decreases names@.len() - i,
        {
            entries.push(PackageProgress::new(names[i].clone()));
            i = i + 1;
        }
        let r = ProgressStore { entries };
        assert(r@ =~= initial_entries(names@.map_values(|n: String| n@)));
        r
    }

    /// Number of entries; fixed for the store's lifetime.
    pub fn len(&self) -> (r: usize)
        ensures
            r == self@.len(),
    {
        self.entries.len()
    }

    /// The entry at `index`.
    pub fn get(&self, index: usize) -> (r: &PackageProgress)
        requires
            index < self@.len(),
        ensures
            r@ == self@[index as int],
    {
        &self.entries[index]
    }

    /// A copy of every entry, in order.
    pub fn snapshot(&self) -> (r: Vec<PackageProgress>)
        ensures
            r@.map_values(|e: PackageProgress| e@) == self@,
    {
        let mut out: Vec<PackageProgress> = Vec::new();
        let mut i: usize = 0;
        while i < self.entries.len()
            invariant
                0 <= i <= self.entries@.len(),
                out@.len() == i,
                forall|k: int| 0 <= k < i ==> #[trigger] out@[k]@ == self.entries@[k]@,
            decreases self.entries@.len() - i,
        {
            out.push(self.entries[i].clone());
            i = i + 1;
        }
        assert(out@.map_values(|e: PackageProgress| e@) =~= self@);
        out
    }

    /// Writes the given fields of entry `index` as one step (see
    /// [`apply_update`]); an index out of range changes nothing.
    pub fn update(&mut self, index: usize, u: EntryUpdate)
        ensures
            final(self)@ == store_step(old(self)@, index as int, u@),
            percents_in_range(old(self)@) ==> percents_in_range(final(self)@),
    {
        if index >= self.entries.len() {
            return;
        }
        let cur = self.entries[index].clone();
        let state = match u.state {
            Some(s) => if is_edge_exec(cur.state, s) {
                s
            } else {
                cur.state
            },
            None => cur.state,
        };
        let percent = match u.percent {
            Some(p) => if p > MAX_PERCENT {
                MAX_PERCENT
            } else {
                p
            },
            None => cur.progress,
        };
        let message = match u.message {
            Some(m) => m,
            None => cur.message,
        };
        let ghost before = self@;
        self.entries.set(index, PackageProgress { name: cur.name, state, progress: percent, message });
        assert(self@ =~= store_step(before, index as int, u@));
    }

    /// Whether every entry has reached a terminal state.
    pub fn all_terminal(&self) -> (r: bool)
        ensures
            r == all_terminal(self@),
    {
        let mut i: usize = 0;
        while i < self.entries.len()
            invariant
                0 <= i <= self.entries@.len(),
                forall|k: int| 0 <= k < i ==> is_terminal(#[trigger] self@[k].state),
            decreases self.entries@.len() - i,
        {
            if !self.entries[i].state.is_terminal() {
                assert(self@[i as int] == self.entries@[i as int]@);
                assert(!is_terminal(self@[i as int].state));
                assert(!all_terminal(self@));
                return false;
            }
            i = i + 1;
        }
        true
    }

    /// How many entries are in state `s`.
    pub fn count_in_state(&self, s: ProgressState) -> (r: usize)
        ensures
            r == count_state(self@, s),
    {
        let mut n: usize = 0;
        let mut i: usize = 0;
        while i < self.entries.len()
            invariant
                0 <= i <= self.entries@.len(),
                n == count_state(self@.take(i as int), s),
                n <= i,
            decreases self.entries@.len() - i,
        {
            proof {
                assert(self@.take(i + 1).drop_last() =~= self@.take(i as int));
            }
            if self.entries[i].state == s {
                n = n + 1;
            }
            i = i + 1;
        }
        assert(self@.take(i as int) =~= self@);
        n
    }
}

} // verus!

verus! {

/// The state of entry `j` after the first `k` writes of `us`.
pub open spec fn state_after(s: Seq<EntryModel>, us: Seq<(int, UpdateModel)>, j: int, k: int) -> ProgressState {
    apply_all(s, us.take(k))[j].state
}

/// A write never adds or removes entries and keeps percents in range.
pub proof fn lemma_apply_all_shape(s: Seq<EntryModel>, us: Seq<(int, UpdateModel)>)
    requires
        percents_in_range(s),
    ensures
        apply_all(s, us).len() == s.len(),
        percents_in_range(apply_all(s, us)),
        forall|j: int| 0 <= j < s.len() ==> #[trigger] apply_all(s, us)[j].name == s[j].name,
    decreases us.len(),
{
    if us.len() > 0 {
        lemma_apply_all_shape(s, us.drop_last());
    }
}

proof fn lemma_take_step(us: Seq<(int, UpdateModel)>, k: int)
    requires
        0 <= k < us.len(),
    ensures
        us.take(k + 1).drop_last() == us.take(k),
        us.take(k + 1).last() == us[k],
{
    assert(us.take(k + 1).drop_last() =~= us.take(k));
}

/// State graph: each entry starts `Pending`; from one write to the next its
/// state stays or follows one edge of the graph; and once it is terminal it
/// keeps that state for every later write, so no entry is seen in two
/// terminal states.
pub proof fn lemma_states_follow_graph(
    names: Seq<Seq<char>>,
    us: Seq<(int, UpdateModel)>,
    j: int,
    k: int,
    l: int,
)
    requires
        0 <= j < names.len(),
        0 <= k <= l <= us.len(),
    ensures
        state_after(initial_entries(names), us, j, 0) == ProgressState::Pending,
        k < us.len() ==> ({
            let a = state_after(initial_entries(names), us, j, k);
            let b = state_after(initial_entries(names), us, j, k + 1);
            a == b || is_edge(a, b)
        }),
        is_terminal(state_after(initial_entries(names), us, j, k)) ==> state_after(
            initial_entries(names),
            us,
            j,
            l,
        ) == state_after(initial_entries(names), us, j, k),
    decreases l - k,
{
    let s = initial_entries(names);
    assert(us.take(0) =~= Seq::<(int, UpdateModel)>::empty());
    assert(percents_in_range(s));
    if k < us.len() {
        lemma_take_step(us, k);
        lemma_apply_all_shape(s, us.take(k));
    }
    if k < l {
        lemma_states_follow_graph(names, us, j, k + 1, l);
    }
}

/// A finished batch stays finished: once every entry is terminal, any
/// further writes keep the number of entries and every entry's name and
/// state (only percents and messages may change).
pub proof fn lemma_finished_store_keeps_outcomes(s: Seq<EntryModel>, us: Seq<(int, UpdateModel)>)
    requires
        all_terminal(s),
    ensures
        apply_all(s, us).len() == s.len(),
        forall|j: int|
            0 <= j < s.len() ==> (#[trigger] apply_all(s, us)[j]).name == s[j].name && apply_all(
                s,
                us,
            )[j].state == s[j].state,
    decreases us.len(),
{
    if us.len() > 0 {
        lemma_finished_store_keeps_outcomes(s, us.drop_last());
    }
}

} // verus!
