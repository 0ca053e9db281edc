use crate::progress::{is_terminal, EntryModel, ProgressState};
use crate::runner::{poll_action_of, Operation, OperationKind, PollAction, StopReason};
use crate::store::{
    apply_all, initial_entries, lemma_apply_all_shape, store_step, ProgressStore, UpdateModel,
};
use crate::webhook::{collect_results, result_of, result_views, results_of, PackageResult};
use vstd::prelude::*;
use vstd::string::StringExecFns;

verus! {

/// How a batch is run.
#[derive(Debug, Clone, Copy, PartialEq, Eq, Structural)]
pub enum Strategy {
    /// One task applies the operations one after another.
    Sequential,
    /// Every package is fetched at once, then the fetched ones are installed
    /// one after another.
    ParallelFetch,
}

pub open spec fn all_installs(ops: Seq<Operation>) -> bool {
    forall|i: int| 0 <= i < ops.len() ==> (#[trigger] ops[i]).kind == OperationKind::Install
}

/// The parallel-fetch strategy is taken only when asked for and only for a
/// batch of installs.
pub fn choose_strategy(parallel: bool, ops: &Vec<Operation>) -> (r: Strategy)
    ensures
        r == (if parallel && all_installs(ops@) {
            Strategy::ParallelFetch
        } else {
            Strategy::Sequential
        }),
{
    if !parallel {
        return Strategy::Sequential;
    }
    let mut i: usize = 0;
    while i < ops.len()
        invariant
            0 <= i <= ops@.len(),
            forall|k: int| 0 <= k < i ==> (#[trigger] ops@[k]).kind == OperationKind::Install,
        decreases ops@.len() - i,
    {
        if ops[i].kind != OperationKind::Install {
            return Strategy::Sequential;
        }
        i = i + 1;
    }
    Strategy::ParallelFetch
}

/// The package names of a batch, in order.
pub fn operation_names(ops: &Vec<Operation>) -> (r: Vec<String>)
    ensures
        r@.len() == ops@.len(),
        forall|i: int| 0 <= i < ops@.len() ==> #[trigger] r@[i]@ == ops@[i].name@,
{
    let mut out: Vec<String> = Vec::new();
    let mut i: usize = 0;
    while i < ops.len()
        invariant
            0 <= i <= ops@.len(),
            out@.len() == i,
            forall|k: int| 0 <= k < i ==> #[trigger] out@[k]@ == ops@[k].name@,
        decreases ops@.len() - i,
    {
        out.push(ops[i].name.clone());
        i = i + 1;
    }
    out
}

/// The next operation the sequential task starts: `next` while it is in
/// range, and none at all once the batch is cancelled.
pub open spec fn next_sequential_of(cancelled: bool, next: usize, len: usize) -> Option<usize> {
    if cancelled || next >= len {
        None
    } else {
        Some(next)
    }
}

pub fn next_sequential(cancelled: bool, next: usize, len: usize) -> (r: Option<usize>)
    ensures
        r == next_sequential_of(cancelled, next, len),
{
    if cancelled || next >= len {
        None
    } else {
        Some(next)
    }
}

/// Number of entries that did not end in `Failed`.
pub open spec fn count_not_failed(s: Seq<EntryModel>) -> nat
    decreases s.len(),
{
    if s.len() == 0 {
        0
    } else {
        count_not_failed(s.drop_last()) + if s.last().state == ProgressState::Failed {
            0nat
        } else {
            1nat
        }
    }
}

/// Indices of the entries that did not end in `Failed`, in order.
pub open spec fn survivors_of(s: Seq<EntryModel>) -> Seq<int>
    decreases s.len(),
{
    if s.len() == 0 {
        Seq::empty()
    } else if s.last().state == ProgressState::Failed {
        survivors_of(s.drop_last())
    } else {
        survivors_of(s.drop_last()).push(s.len() - 1)
    }
}

/// After the fetch phase: the indices of the packages to install, those
/// whose fetch did not fail.
pub fn install_survivors(fetched: &ProgressStore) -> (r: Vec<usize>)
    ensures
        r@.map_values(|i: usize| i as int) == survivors_of(fetched@),
        r@.len() == count_not_failed(fetched@),
{
    let ghost s = fetched@;
    let mut out: Vec<usize> = Vec::new();
    let mut i: usize = 0;
    while i < fetched.len()
        invariant
            s == fetched@,
            0 <= i <= s.len(),
            out@.map_values(|k: usize| k as int) == survivors_of(s.take(i as int)),
            out@.len() == count_not_failed(s.take(i as int)),
        decreases s.len() - i,
    {
        proof {
            assert(s.take(i + 1).drop_last() =~= s.take(i as int));
        }
        if fetched.get(i).state != ProgressState::Failed {
            let ghost before = out@;
            out.push(i);
            assert(out@.map_values(|k: usize| k as int) =~= before.map_values(|k: usize| k as int).push(i as int));
        }
        i = i + 1;
    }
    assert(s.take(i as int) =~= s);
    out
}

/// The names of the packages at `indices`, in that order.
pub fn names_at(names: &Vec<String>, indices: &Vec<usize>) -> (r: Vec<String>)
    requires
        forall|k: int| 0 <= k < indices@.len() ==> #[trigger] indices@[k] < names@.len(),
    ensures
        r@.len() == indices@.len(),
        forall|k: int| 0 <= k < indices@.len() ==> #[trigger] r@[k]@ == names@[indices@[k] as int]@,
{
    let mut out: Vec<String> = Vec::new();
    let mut k: usize = 0;
    while k < indices.len()
        invariant
            0 <= k <= indices@.len(),
            forall|t: int| 0 <= t < indices@.len() ==> #[trigger] indices@[t] < names@.len(),
            out@.len() == k,
            forall|t: int| 0 <= t < k ==> #[trigger] out@[t]@ == names@[indices@[t] as int]@,
        decreases indices@.len() - k,
    {
        out.push(names[indices[k]].clone());
        k = k + 1;
    }
    out
}

/// The final entries of a parallel-fetch batch: an entry whose fetch failed
/// keeps its fetch entry; every other takes, in order, its install entry.
pub open spec fn merged_entries(fetched: Seq<EntryModel>, installed: Seq<EntryModel>) -> Seq<EntryModel>
    decreases fetched.len(),
{
    if fetched.len() == 0 {
        Seq::empty()
    } else if fetched.last().state == ProgressState::Failed {
        merged_entries(fetched.drop_last(), installed).push(fetched.last())
    } else {
        merged_entries(fetched.drop_last(), installed.drop_last()).push(installed.last())
    }
}

/// Results of a parallel-fetch batch, one per operation in order.
pub fn merge_phases(fetched: &ProgressStore, installed: &ProgressStore) -> (r: Vec<PackageResult>)
    requires
        installed@.len() == count_not_failed(fetched@),
    ensures
        result_views(r@) == results_of(merged_entries(fetched@, installed@)),
{
    let ghost f = fetched@;
    let ghost g = installed@;
    let mut out: Vec<PackageResult> = Vec::new();
    let mut i: usize = 0;
    let mut k: usize = 0;
    let n2 = installed.len();
    while i < fetched.len()
        invariant
            n2 == g.len(),
            f == fetched@,
            g == installed@,
            g.len() == count_not_failed(f),
            0 <= i <= f.len(),
            k == count_not_failed(f.take(i as int)),
            k <= g.len(),
            result_views(out@) == results_of(merged_entries(f.take(i as int), g.take(k as int))),
        decreases f.len() - i,
    {
        let ghost fi = f.take(i + 1);
        proof {
            assert(fi.drop_last() =~= f.take(i as int));
            assert(fi.last() == f[i as int]);
            lemma_count_not_failed_prefix(f, i + 1);
        }
        let e = fetched.get(i);
        let ghost before = out@;
        let ghost gk = g.take(k as int);
        if e.state == ProgressState::Failed {
            out.push(PackageResult { name: e.name.clone(), status: String::from_str(e.state_label()) });
            proof {
                assert(merged_entries(fi, gk) == merged_entries(f.take(i as int), gk).push(f[i as int]));
                assert(results_of(merged_entries(fi, gk)) =~= results_of(merged_entries(f.take(i as int), gk)).push(result_of(f[i as int])));
                assert(result_views(out@) =~= result_views(before).push(result_of(f[i as int])));
            }
        } else {
            assert(k < g.len());
            let e2 = installed.get(k);
            out.push(PackageResult { name: e2.name.clone(), status: String::from_str(e2.state_label()) });
            proof {
                let gk1 = g.take(k + 1);
                assert(gk1.drop_last() =~= gk);
                assert(gk1.last() == g[k as int]);
                assert(merged_entries(fi, gk1) == merged_entries(f.take(i as int), gk).push(g[k as int]));
                assert(results_of(merged_entries(fi, gk1)) =~= results_of(merged_entries(f.take(i as int), gk)).push(result_of(g[k as int])));
                assert(result_views(out@) =~= result_views(before).push(result_of(g[k as int])));
            }
            k = k + 1;
        }
        i = i + 1;
    }
    assert(f.take(i as int) =~= f);
    assert(g.take(k as int) =~= g);
    out
}

proof fn lemma_count_not_failed_prefix(s: Seq<EntryModel>, i: int)
    requires
        0 <= i <= s.len(),
    ensures
        count_not_failed(s.take(i)) <= count_not_failed(s),
    decreases s.len() - i,
{
    if i < s.len() {
        lemma_count_not_failed_prefix(s, i + 1);
        assert(s.take(i + 1).drop_last() =~= s.take(i));
    } else {
        assert(s.take(i) =~= s);
    }
}

} // verus!

verus! {

/// What a sequential batch hands back: nothing when it was abandoned,
/// otherwise one result per entry.
pub open spec fn batch_outcome_of(aborted: bool, s: Seq<EntryModel>) -> Seq<(Seq<char>, Seq<char>)> {
    if aborted {
        Seq::empty()
    } else {
        results_of(s)
    }
}

/// What a parallel-fetch batch hands back.
pub open spec fn parallel_outcome_of(
    aborted: bool,
    fetched: Seq<EntryModel>,
    installed: Seq<EntryModel>,
) -> Seq<(Seq<char>, Seq<char>)> {
    if aborted {
        Seq::empty()
    } else {
        results_of(merged_entries(fetched, installed))
    }
}

/// The result list of a sequential batch; empty when the user abandoned it.
pub fn finish_batch(aborted: bool, store: &ProgressStore) -> (r: Vec<PackageResult>)
    ensures
        result_views(r@) == batch_outcome_of(aborted, store@),
{
    if aborted {
        let r: Vec<PackageResult> = Vec::new();
        assert(result_views(r@) =~= Seq::<(Seq<char>, Seq<char>)>::empty());
        r
    } else {
        collect_results(store)
    }
}

/// The result list of a parallel-fetch batch; empty when the user abandoned it.
pub fn finish_parallel_batch(aborted: bool, fetched: &ProgressStore, installed: &ProgressStore) -> (r: Vec<
    PackageResult,
>)
    requires
        installed@.len() == count_not_failed(fetched@),
    ensures
        result_views(r@) == parallel_outcome_of(aborted, fetched@, installed@),
{
    if aborted {
        let r: Vec<PackageResult> = Vec::new();
        assert(result_views(r@) =~= Seq::<(Seq<char>, Seq<char>)>::empty());
        r
    } else {
        merge_phases(fetched, installed)
    }
}

/// Whether a removal batch should be followed by the dependency clean-up:
/// when one of its results is `"completed"` (an abandoned batch has none).
pub fn should_autoremove(results: &Vec<PackageResult>) -> (r: bool)
    ensures
        r == (exists|i: int| 0 <= i < results@.len() && (#[trigger] results@[i]).status@ == "completed"@),
{
    let completed = String::from_str("completed");
    let mut i: usize = 0;
    while i < results.len()
        invariant
            0 <= i <= results@.len(),
            completed@ == "completed"@,
            forall|k: int| 0 <= k < i ==> (#[trigger] results@[k]).status@ != "completed"@,
        decreases results@.len() - i,
    {
        if results[i].status == completed {
            return true;
        }
        i = i + 1;
    }
    false
}

proof fn lemma_merged_len(f: Seq<EntryModel>, g: Seq<EntryModel>)
    requires
        g.len() == count_not_failed(f),
    ensures
        merged_entries(f, g).len() == f.len(),
        forall|i: int|
            0 <= i < f.len() && f[i].state == ProgressState::Failed ==> #[trigger] merged_entries(f, g)[i] == f[i],
    decreases f.len(),
{
    if f.len() > 0 {
        if f.last().state == ProgressState::Failed {
            lemma_merged_len(f.drop_last(), g);
        } else {
            lemma_merged_len(f.drop_last(), g.drop_last());
        }
        assert forall|i: int| 0 <= i < f.len() && f[i].state == ProgressState::Failed implies #[trigger] merged_entries(f, g)[i] == f[i] by {
            if i < f.len() - 1 {
                assert(f.drop_last()[i] == f[i]);
            }
        }
    }
}

/// A batch never hands back a partial list: for any operations and any
/// writes made while it ran, the result list of a sequential batch is
/// either empty (abandoned) or has one result per operation.
pub proof fn lemma_sequential_all_or_nothing(
    names: Seq<Seq<char>>,
    us: Seq<(int, UpdateModel)>,
    aborted: bool,
)
    ensures
        ({
            let r = batch_outcome_of(aborted, apply_all(initial_entries(names), us));
            &&& r.len() == 0 || r.len() == names.len()
            &&& r.len() == 0 <==> (aborted || names.len() == 0)
        }),
{
    lemma_apply_all_shape(initial_entries(names), us);
}

/// The same for the parallel-fetch strategy: whatever the writes of the
/// fetch phase, when the install phase runs one entry per package whose
/// fetch did not fail, the result list is empty or has one result per
/// operation; and a package whose fetch failed reports its fetch entry.
pub proof fn lemma_parallel_all_or_nothing(
    names: Seq<Seq<char>>,
    fetch_writes: Seq<(int, UpdateModel)>,
    install_names: Seq<Seq<char>>,
    install_writes: Seq<(int, UpdateModel)>,
    aborted: bool,
)
    requires
        install_names.len() == count_not_failed(apply_all(initial_entries(names), fetch_writes)),
    ensures
        ({
            let f = apply_all(initial_entries(names), fetch_writes);
            let g = apply_all(initial_entries(install_names), install_writes);
            let r = parallel_outcome_of(aborted, f, g);
            &&& r.len() == 0 || r.len() == names.len()
            &&& r.len() == 0 <==> (aborted || names.len() == 0)
            &&& !aborted ==> forall|i: int|
                0 <= i < names.len() && f[i].state == ProgressState::Failed ==> #[trigger] r[i] == result_of(f[i])
        }),
{
    let f = apply_all(initial_entries(names), fetch_writes);
    let g = apply_all(initial_entries(install_names), install_writes);
    lemma_apply_all_shape(initial_entries(names), fetch_writes);
    lemma_apply_all_shape(initial_entries(install_names), install_writes);
    lemma_merged_len(f, g);
}

/// Cancellation: once the flag is set, a runner whose process is still
/// running kills it at its next poll and no poll waits any longer; the
/// sequential task starts nothing more; and no write moves a terminal entry
/// out of its state.
pub proof fn lemma_cancel_stops_work(
    exited: Option<bool>,
    polls: u32,
    limit: u32,
    next: usize,
    len: usize,
    s: Seq<EntryModel>,
    i: int,
    u: UpdateModel,
)
    ensures
        poll_action_of(None, true, polls, limit) == PollAction::Kill(StopReason::Cancelled),
        poll_action_of(exited, true, polls, limit) != PollAction::Wait,
        next_sequential_of(true, next, len) == None::<usize>,
        0 <= i < s.len() && is_terminal(s[i].state) ==> store_step(s, i, u)[i].state == s[i].state,
{
}

} // verus!
