use crate::progress::{label_of, EntryModel, PackageProgress};
use crate::store::{all_terminal, apply_all, lemma_finished_store_keeps_outcomes, ProgressStore, UpdateModel};
use vstd::prelude::*;
use vstd::string::StringExecFns;

verus! {

/// Final outcome of one operation: the package name and its state's label.
#[derive(Debug)]
pub struct PackageResult {
    pub name: String,
    pub status: String,
}

impl View for PackageResult {
    type V = (Seq<char>, Seq<char>);

    open spec fn view(&self) -> (Seq<char>, Seq<char>) {
        (self.name@, self.status@)
    }
}

/// Summary of a batch, as sent to a webhook.
#[derive(Debug)]
pub struct WebhookPayload {
    pub status: String,
    pub total: usize,
    pub completed: usize,
    pub failed: usize,
    pub packages: Vec<PackageResult>,
    pub elapsed_seconds: u64,
}

pub open spec fn result_of(e: EntryModel) -> (Seq<char>, Seq<char>) {
    (e.name, label_of(e.state))
}

/// The result list of a snapshot: one result per entry, in order.
pub open spec fn results_of(s: Seq<EntryModel>) -> Seq<(Seq<char>, Seq<char>)> {
    s.map_values(|e: EntryModel| result_of(e))
}

pub open spec fn result_views(rs: Seq<PackageResult>) -> Seq<(Seq<char>, Seq<char>)> {
    rs.map_values(|r: PackageResult| r@)
}

/// Number of results whose status is `status`.
pub open spec fn count_status(rs: Seq<(Seq<char>, Seq<char>)>, status: Seq<char>) -> nat
    decreases rs.len(),
{
    if rs.len() == 0 {
        0
    } else {
        count_status(rs.drop_last(), status) + if rs.last().1 == status {
            1nat
        } else {
            0nat
        }
    }
}

/// `"partial"` when anything failed, else `"success"`.
pub open spec fn batch_status(failed: nat) -> Seq<char> {
    if failed > 0 {
        "partial"@
    } else {
        "success"@
    }
}

/// Projects a store onto its result list, one result per entry in order.
pub fn collect_results(store: &ProgressStore) -> (r: Vec<PackageResult>)
    ensures
        result_views(r@) == results_of(store@),
{
    let mut out: Vec<PackageResult> = Vec::new();
    let mut i: usize = 0;
    while i < store.len()
        invariant
            0 <= i <= store@.len(),
            out@.len() == i,
            forall|k: int| 0 <= k < i ==> #[trigger] out@[k]@ == result_of(store@[k]),
        decreases store@.len() - i,
    {
        let e: &PackageProgress = store.get(i);
        out.push(PackageResult { name: e.name.clone(), status: String::from_str(e.state_label()) });
        i = i + 1;
    }
    assert(result_views(out@) =~= results_of(store@));
    out
}

/// Collecting is idempotent on a finished store: the result list is the
/// same before and after any further writes to it.
pub proof fn lemma_collect_idempotent(s: Seq<EntryModel>, us: Seq<(int, UpdateModel)>)
    requires
        all_terminal(s),
    ensures
        results_of(apply_all(s, us)) == results_of(s),
{
    lemma_finished_store_keeps_outcomes(s, us);
    assert(results_of(apply_all(s, us)) =~= results_of(s));
}

impl WebhookPayload {
    /// Counts the results and labels the batch `"partial"` iff one failed.
    pub fn from_results(packages: Vec<PackageResult>, elapsed_seconds: u64) -> (r: WebhookPayload)
        ensures
            r.packages@ == packages@,
            r.total == packages@.len(),
            r.completed == count_status(result_views(packages@), "completed"@),
            r.failed == count_status(result_views(packages@), "failed"@),
            r.status@ == batch_status(r.failed as nat),
            r.elapsed_seconds == elapsed_seconds,
    {
        let completed_label = String::from_str("completed");
        let failed_label = String::from_str("failed");
        let ghost views = result_views(packages@);
        let mut completed: usize = 0;
        let mut failed: usize = 0;
        let mut i: usize = 0;
        while i < packages.len()
            invariant
                0 <= i <= packages@.len(),
                views == result_views(packages@),
                completed_label@ == "completed"@,
                failed_label@ == "failed"@,
                completed == count_status(views.take(i as int), "completed"@),
                failed == count_status(views.take(i as int), "failed"@),
                completed <= i,
                failed <= i,
            decreases packages@.len() - i,
        {
            proof {
                assert(views.take(i + 1).drop_last() =~= views.take(i as int));
            }
            if packages[i].status == completed_label {
                completed = completed + 1;
            }
            if packages[i].status == failed_label {
                failed = failed + 1;
            }
            i = i + 1;
        }
        assert(views.take(i as int) =~= views);
        let status = if failed > 0 {
            String::from_str("partial")
        } else {
            String::from_str("success")
        };
        WebhookPayload { status, total: packages.len(), completed, failed, packages, elapsed_seconds }
    }
}

} // verus!
