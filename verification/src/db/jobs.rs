//! The job queue: insertion with single-flight deduplication, leased
//! claims, completion, failure and retry.

use super::query::{find_job, job_dedupe_keys, job_ids, lemma_absent, position};
use super::types::{
    clone_job,
    Job,
    JobPayload,
    JobPayloadView,
    JobStatus,
    JobType,
    JobView,
    Store,
    StoreError,
    StoreView,
};
use crate::clock::{deadline_after, deadline_spec};
use crate::order::{is_selection, lemma_precedes_total, select_in_order, Order};
use crate::text::opt_is;
use vstd::prelude::*;

verus! {

/// Jobs by creation time, oldest first.
pub struct Oldest;

impl Order<Job> for Oldest {
    open spec fn before(a: JobView, b: JobView) -> bool {
        a.created_at < b.created_at
    }

    fn is_before(a: &Job, b: &Job) -> (r: bool) {
        a.created_at < b.created_at
    }

    proof fn lemma_strict_weak(a: JobView, b: JobView, c: JobView) {
    }
}

/// The dedupe key of each job that is active; nothing for the others.
pub open spec fn active_keys(jobs: Seq<JobView>) -> Seq<Option<Seq<char>>> {
    Seq::new(
        jobs.len(),
        |i: int|
            if jobs[i].status.is_active() {
                jobs[i].dedupe_key
            } else {
                None
            },
    )
}

/// The first active job that holds the dedupe key `key`.
pub open spec fn active_with_key(jobs: Seq<JobView>, key: Option<Seq<char>>) -> Option<int> {
    if key is Some {
        position(active_keys(jobs), key)
    } else {
        None
    }
}

/// The jobs after every terminal job has given up the dedupe key `key`.
pub open spec fn release_key(jobs: Seq<JobView>, key: Option<Seq<char>>) -> Seq<JobView> {
    Seq::new(
        jobs.len(),
        |i: int|
            if key is Some && jobs[i].dedupe_key == key && !jobs[i].status.is_active() {
                JobView { dedupe_key: None, ..jobs[i] }
            } else {
                jobs[i]
            },
    )
}

/// A job as it enters the queue.
pub open spec fn new_job(
    id: Seq<char>,
    job_type: JobType,
    payload: JobPayloadView,
    dedupe_key: Option<Seq<char>>,
    now: int,
) -> JobView {
    JobView {
        id,
        job_type,
        payload,
        status: JobStatus::Pending,
        attempt: 0,
        created_at: now,
        updated_at: now,
        dedupe_key,
        not_before: None,
        lease_expires_at: None,
        last_error: None,
    }
}

/// A job may be claimed at `now`: it is pending and not held back, or it
/// is running on a lease that has run out.
pub open spec fn eligible(j: JobView, now: int) -> bool {
    ||| j.status == JobStatus::Pending && match j.not_before {
        Some(t) => t <= now,
        None => true,
    }
    ||| j.status == JobStatus::Running && match j.lease_expires_at {
        Some(t) => t <= now,
        None => false,
    }
}

/// Which jobs may be claimed at `now`.
pub open spec fn eligible_mask(jobs: Seq<JobView>, now: int) -> Seq<bool> {
    Seq::new(jobs.len(), |i: int| eligible(jobs[i], now))
}

/// A job after it has been claimed at `now` for `lease_seconds`.
pub open spec fn claimed(j: JobView, now: int, lease_seconds: int) -> JobView {
    JobView {
        status: JobStatus::Running,
        attempt: j.attempt + 1,
        not_before: None,
        lease_expires_at: Some(deadline_spec(now, lease_seconds)),
        last_error: None,
        updated_at: now,
        ..j
    }
}

/// The queue after the jobs at the positions `order` have been claimed.
pub open spec fn with_claimed(jobs: Seq<JobView>, order: Seq<int>, now: int, lease_seconds: int) -> Seq<
    JobView,
> {
    Seq::new(
        jobs.len(),
        |i: int|
            if order.contains(i) {
                claimed(jobs[i], now, lease_seconds)
            } else {
                jobs[i]
            },
    )
}

/// The claimed jobs, in the order in which they were chosen.
pub open spec fn claimed_rows(jobs: Seq<JobView>, order: Seq<int>, now: int, lease_seconds: int) -> Seq<
    JobView,
> {
    Seq::new(order.len(), |p: int| claimed(jobs[order[p]], now, lease_seconds))
}

/// One of the chosen jobs has used up the range of its attempt counter.
pub open spec fn attempts_exhausted(jobs: Seq<JobView>, order: Seq<int>) -> bool {
    exists|p: int| 0 <= p < order.len() && jobs[#[trigger] order[p]].attempt >= i64::MAX
}

/// A job after it has completed.
pub open spec fn completed(j: JobView, now: int) -> JobView {
    JobView {
        status: JobStatus::Complete,
        dedupe_key: None,
        not_before: None,
        lease_expires_at: None,
        last_error: None,
        updated_at: now,
        ..j
    }
}

/// A job after it has failed for good.
pub open spec fn failed(j: JobView, error: Seq<char>, now: int) -> JobView {
    JobView {
        status: JobStatus::Failed,
        dedupe_key: None,
        not_before: None,
        lease_expires_at: None,
        last_error: Some(error),
        updated_at: now,
        ..j
    }
}

/// A job after it has been put back for another attempt.
pub open spec fn requeued(j: JobView, error: Seq<char>, delay_seconds: int, now: int) -> JobView {
    JobView {
        status: JobStatus::Pending,
        not_before: Some(deadline_spec(now, delay_seconds)),
        lease_expires_at: None,
        last_error: Some(error),
        updated_at: now,
        ..j
    }
}

/// A running job after its lease has been renewed.
pub open spec fn renewed(j: JobView, lease_seconds: int, now: int) -> JobView {
    JobView { lease_expires_at: Some(deadline_spec(now, lease_seconds)), updated_at: now, ..j }
}

impl StoreView {
    /// The store with the job at position `i` replaced.
    pub open spec fn set_job(self, i: int, row: JobView) -> StoreView {
        StoreView { jobs: self.jobs.update(i, row), ..self }
    }

    /// The store with a new job at the end of the queue, after terminal
    /// jobs have given up its dedupe key.
    pub open spec fn enqueue(self, row: JobView) -> StoreView {
        StoreView { jobs: release_key(self.jobs, row.dedupe_key).push(row), ..self }
    }

    /// What inserting a job does: nothing where an active job holds the
    /// dedupe key or the id is taken, else the job is enqueued.
    pub open spec fn after_insert(self, row: JobView) -> StoreView {
        if active_with_key(self.jobs, row.dedupe_key) is Some || self.job_position(row.id) is Some {
            self
        } else {
            self.enqueue(row)
        }
    }

    /// The id under which an inserted job is found afterwards: that of the
    /// active job with the same dedupe key, else its own.
    pub open spec fn inserted_id(self, row: JobView) -> Result<Seq<char>, StoreError> {
        match active_with_key(self.jobs, row.dedupe_key) {
            Some(i) => Ok(self.jobs[i].id),
            None => if self.job_position(row.id) is Some {
                Err(StoreError::Duplicate)
            } else {
                Ok(row.id)
            },
        }
    }
}

/// The first active job that holds the dedupe key.
fn find_active(rows: &Vec<Job>, key: &str) -> (r: Option<usize>)
    ensures
        match r {
            Some(i) => position(active_keys(rows.deep_view()), Some(key@)) == Some(i as int),
            None => position(active_keys(rows.deep_view()), Some(key@)) is None,
        },
{
    let ghost keys = active_keys(rows.deep_view());
    let mut i: usize = 0;
    while i < rows.len()
        invariant
            i <= rows.len(),
            keys == active_keys(rows.deep_view()),
            forall|j: int| 0 <= j < i ==> keys[j] != Some(key@),
        decreases rows.len() - i,
    {
        if rows[i].status.active() && opt_is(&rows[i].dedupe_key, key) {
            proof {
                super::query::lemma_position_is(keys, Some(key@), i as int);
            }
            return Some(i);
        }
        i += 1;
    }
    None
}

/// Takes the dedupe key away from every terminal job that holds it.
fn release(rows: &mut Vec<Job>, key: &str)
    ensures
        final(rows).deep_view() == release_key(old(rows).deep_view(), Some(key@)),
{
    let ghost before = rows.deep_view();
    let mut i: usize = 0;
    while i < rows.len()
        invariant
            i <= rows.len(),
            rows.len() == before.len(),
            forall|j: int| 0 <= j < i ==> (#[trigger] rows@[j])@ == release_key(before, Some(key@))[j],
            forall|j: int| i <= j < rows.len() ==> (#[trigger] rows@[j])@ == before[j],
        decreases rows.len() - i,
    {
        if !rows[i].status.active() && opt_is(&rows[i].dedupe_key, key) {
            rows[i].dedupe_key = None;
        }
        i += 1;
    }
    assert(rows.deep_view() =~= release_key(before, Some(key@)));
}

/// No job holds the key once the terminal holders have given it up and no
/// active job held it.
proof fn lemma_release_frees_key(jobs: Seq<JobView>, key: Seq<char>)
    requires
        active_with_key(jobs, Some(key)) is None,
    ensures
        forall|j: int|
            0 <= j < jobs.len() ==> (#[trigger] release_key(jobs, Some(key))[j]).dedupe_key != Some(key),
{
    assert forall|j: int| 0 <= j < jobs.len() implies (#[trigger] release_key(jobs, Some(key))[j]).dedupe_key
        != Some(key) by {
        lemma_absent(active_keys(jobs), Some(key), j);
    }
}

/// Enqueueing keeps job ids and dedupe keys unique.
proof fn lemma_enqueue_wf(s: StoreView, row: JobView)
    requires
        s.wf(),
        active_with_key(s.jobs, row.dedupe_key) is None,
        s.job_position(row.id) is None,
    ensures
        s.enqueue(row).wf(),
{
    let released = release_key(s.jobs, row.dedupe_key);
    let after = released.push(row);
    assert forall|i: int, j: int| 0 <= i < j < after.len() implies job_ids(after)[i] != job_ids(after)[j] by {
        if j == s.jobs.len() {
            lemma_absent(job_ids(s.jobs), row.id, i);
            assert(job_ids(s.jobs)[i] == job_ids(after)[i]);
        } else {
            assert(job_ids(s.jobs)[i] != job_ids(s.jobs)[j]);
        }
    }
    if row.dedupe_key is Some {
        lemma_release_frees_key(s.jobs, row.dedupe_key->0);
    }
    assert forall|i: int, j: int|
        0 <= i < j < after.len() && job_dedupe_keys(after)[i] is Some implies job_dedupe_keys(after)[i]
            != job_dedupe_keys(after)[j] by {
        if j == s.jobs.len() {
            if row.dedupe_key is Some {
                assert(released[i].dedupe_key != row.dedupe_key);
            }
        } else {
            assert(job_dedupe_keys(s.jobs)[i] == released[i].dedupe_key);
            assert(job_dedupe_keys(s.jobs)[i] != job_dedupe_keys(s.jobs)[j]);
        }
    }
}

/// Inserts a job and reports the position of the row under which it is
/// found afterwards.
fn insert_row(
    store: &mut Store,
    job_type: JobType,
    payload: JobPayload,
    dedupe_key: Option<&str>,
    id: String,
    now: i64,
) -> (r: Result<usize, StoreError>)
    ensures
        ({
            let key = match dedupe_key {
                Some(k) => Some(k@),
                None => None,
            };
            let row = new_job(id@, job_type, payload@, key, now as int);
            &&& final(store)@ == old(store)@.after_insert(row)
            &&& match active_with_key(old(store)@.jobs, key) {
                Some(i) => r is Ok && r->Ok_0 == i && 0 <= i < old(store)@.jobs.len(),
                None => if old(store)@.job_position(id@) is Some {
                    r == Err::<usize, StoreError>(StoreError::Duplicate)
                } else {
                    r is Ok && r->Ok_0 == old(store)@.jobs.len() && final(store)@.jobs.len() == old(
                        store,
                    )@.jobs.len() + 1
                        && final(store)@.jobs[old(store)@.jobs.len() as int] == row
                },
            }
        }),
        old(store)@.wf() ==> final(store)@.wf(),
{
    let ghost key = match dedupe_key {
        Some(k) => Some(k@),
        None => None,
    };
    let ghost row = new_job(id@, job_type, payload@, key, now as int);
    if let Some(k) = dedupe_key {
        if let Some(i) = find_active(&store.jobs, k) {
            return Ok(i);
        }
    }
    if find_job(&store.jobs, id.as_str()).is_some() {
        return Err(StoreError::Duplicate);
    }
    let owned_key = match dedupe_key {
        Some(k) => {
            release(&mut store.jobs, k);
            Some(String::from_str(k))
        },
        None => None,
    };
    assert(store.jobs.deep_view() =~= release_key(old(store)@.jobs, key));
    let job = Job {
        id,
        job_type,
        payload,
        status: JobStatus::Pending,
        attempt: 0,
        created_at: now,
        updated_at: now,
        dedupe_key: owned_key,
        not_before: None,
        lease_expires_at: None,
        last_error: None,
    };
    assert(job@ == row);
    let at = store.jobs.len();
    store.jobs.push(job);
    proof {
        assert(store.jobs.deep_view() =~= release_key(old(store)@.jobs, key).push(row));
        if old(store)@.wf() {
            lemma_enqueue_wf(old(store)@, row);
        }
    }
    Ok(at)
}

/// Puts a job into the queue. Where an active job holds the same dedupe
/// key, nothing is inserted and that job's id is returned. Where the id is
/// taken, the insertion is refused as `Duplicate`. Otherwise terminal jobs
/// give up the dedupe key and the new job enters as pending, and its id is
/// returned.
pub fn insert_job_tx(
    store: &mut Store,
    job_type: JobType,
    payload: JobPayload,
    dedupe_key: Option<&str>,
    id: String,
    now: i64,
) -> (r: Result<String, StoreError>)
    ensures
        ({
            let key = match dedupe_key {
                Some(k) => Some(k@),
                None => None,
            };
            let row = new_job(id@, job_type, payload@, key, now as int);
            &&& final(store)@ == old(store)@.after_insert(row)
            &&& match old(store)@.inserted_id(row) {
                Ok(found) => r is Ok && r->Ok_0@ == found,
                Err(e) => r is Err && r->Err_0 == e,
            }
        }),
        old(store)@.wf() ==> final(store)@.wf(),
{
    match insert_row(store, job_type, payload, dedupe_key, id, now) {
        Ok(i) => {
            assert(store.jobs.deep_view()[i as int] == store.jobs@[i as int]@);
            Ok(store.jobs[i].id.clone())
        },
        Err(e) => Err(e),
    }
}

/// Puts a job into the queue as [`insert_job_tx`] does and returns the row
/// under which it is found afterwards: the active job with the same dedupe
/// key, else the new job.
pub fn create_job_with_dedupe(
    store: &mut Store,
    job_type: JobType,
    payload: JobPayload,
    dedupe_key: Option<&str>,
    id: String,
    now: i64,
) -> (r: Result<Job, StoreError>)
    ensures
        ({
            let key = match dedupe_key {
                Some(k) => Some(k@),
                None => None,
            };
            let row = new_job(id@, job_type, payload@, key, now as int);
            &&& final(store)@ == old(store)@.after_insert(row)
            &&& match active_with_key(old(store)@.jobs, key) {
                Some(i) => r is Ok && r->Ok_0@ == old(store)@.jobs[i],
                None => if old(store)@.job_position(id@) is Some {
                    r is Err && r->Err_0 == StoreError::Duplicate
                } else {
                    r is Ok && r->Ok_0@ == row
                },
            }
        }),
        old(store)@.wf() ==> final(store)@.wf(),
{
    match insert_row(store, job_type, payload, dedupe_key, id, now) {
        Ok(i) => {
            assert(store.jobs.deep_view()[i as int] == store.jobs@[i as int]@);
            Ok(clone_job(&store.jobs[i]))
        },
        Err(e) => Err(e),
    }
}

/// The job with the given id.
pub fn get_job(store: &Store, id: &str) -> (r: Result<Job, StoreError>)
    ensures
        match store@.job_position(id@) {
            Some(i) => r is Ok && r->Ok_0@ == store@.jobs[i],
            None => r is Err && r->Err_0 == StoreError::NotFound,
        },
{
    match find_job(&store.jobs, id) {
        Some(i) => Ok(clone_job(&store.jobs[i])),
        None => Err(StoreError::NotFound),
    }
}

/// What a claim at `now` does to the store and what it returns, for the
/// jobs chosen at the positions `order`.
pub open spec fn claim_outcome(
    pre: StoreView,
    order: Seq<int>,
    now: int,
    lease_seconds: int,
    post: StoreView,
    r: Result<Seq<JobView>, StoreError>,
) -> bool {
    if attempts_exhausted(pre.jobs, order) {
        post == pre && r == Err::<Seq<JobView>, StoreError>(StoreError::Storage)
    } else {
        &&& post == StoreView { jobs: with_claimed(pre.jobs, order, now, lease_seconds), ..pre }
        &&& r == Ok::<Seq<JobView>, StoreError>(claimed_rows(pre.jobs, order, now, lease_seconds))
    }
}

/// The result of a claim, by value.
pub open spec fn claim_result_view(r: Result<Vec<Job>, StoreError>) -> Result<Seq<JobView>, StoreError> {
    match r {
        Ok(rows) => Ok(rows.deep_view()),
        Err(e) => Err(e),
    }
}

/// Which jobs may be claimed at `now`, one flag per job.
fn eligibility(rows: &Vec<Job>, now: i64) -> (mask: Vec<bool>)
    ensures
        mask@ == eligible_mask(rows.deep_view(), now as int),
{
    let mut mask: Vec<bool> = Vec::new();
    let mut i: usize = 0;
    while i < rows.len()
        invariant
            i <= rows.len(),
            mask.len() == i,
            forall|j: int| 0 <= j < i ==> mask[j] == eligible(#[trigger] rows.deep_view()[j], now as int),
        decreases rows.len() - i,
    {
        let j = &rows[i];
        let ok = match j.status {
            JobStatus::Pending => match j.not_before {
                Some(t) => t <= now,
                None => true,
            },
            JobStatus::Running => match j.lease_expires_at {
                Some(t) => t <= now,
                None => false,
            },
            _ => false,
        };
        mask.push(ok);
        i += 1;
    }
    assert(mask@ =~= eligible_mask(rows.deep_view(), now as int));
    mask
}

/// Claims up to `limit` jobs for `lease_seconds`: the oldest that are
/// pending and not held back, or running on a lease that has run out.
/// Each becomes running, with one more attempt and a fresh lease, and is
/// returned as it then stands, oldest first. The claim is refused as
/// `Storage`, and nothing changes, where a chosen job's attempt counter
/// cannot grow.
pub fn claim_pending_jobs(store: &mut Store, limit: usize, lease_seconds: i64, now: i64) -> (r: Result<
    Vec<Job>,
    StoreError,
>)
    ensures
        exists|order: Seq<int>|
            {
                &&& #[trigger] is_selection::<Job, Oldest>(
                    old(store)@.jobs,
                    eligible_mask(old(store)@.jobs, now as int),
                    limit as nat,
                    order,
                )
                &&& claim_outcome(
                    old(store)@,
                    order,
                    now as int,
                    lease_seconds as int,
                    final(store)@,
                    claim_result_view(r),
                )
            },
        old(store)@.wf() ==> final(store)@.wf(),
{
    let ghost pre = store@;
    let mask = eligibility(&store.jobs, now);
    let order = select_in_order::<Job, Oldest>(&store.jobs, &mask, limit);
    let ghost ord = order@.map_values(|i: usize| i as int);
    assert(is_selection::<Job, Oldest>(pre.jobs, eligible_mask(pre.jobs, now as int), limit as nat, ord));
    let mut p: usize = 0;
    while p < order.len()
        invariant
            p <= order.len(),
            ord == order@.map_values(|i: usize| i as int),
            store@ == pre,
            pre == old(store)@,
            is_selection::<Job, Oldest>(pre.jobs, eligible_mask(pre.jobs, now as int), limit as nat, ord),
            forall|q: int| 0 <= q < order.len() ==> #[trigger] ord[q] < pre.jobs.len(),
            forall|q: int| 0 <= q < p ==> pre.jobs[#[trigger] ord[q]].attempt < i64::MAX,
        decreases order.len() - p,
    {
        assert(ord[p as int] == order[p as int]);
        if store.jobs[order[p]].attempt == i64::MAX {
            assert(store.jobs.deep_view()[order[p as int] as int] == store.jobs@[order[p as int] as int]@);
            assert(attempts_exhausted(pre.jobs, ord));
            return Err(StoreError::Storage);
        }
        p += 1;
    }
    assert(!attempts_exhausted(pre.jobs, ord));
    let lease = deadline_after(now, lease_seconds);
    let mut out: Vec<Job> = Vec::new();
    let mut p: usize = 0;
    while p < order.len()
        invariant
            p <= order.len(),
            out.len() == p,
            ord == order@.map_values(|i: usize| i as int),
            lease == deadline_spec(now as int, lease_seconds as int),
            is_selection::<Job, Oldest>(pre.jobs, eligible_mask(pre.jobs, now as int), limit as nat, ord),
            store.jobs.len() == pre.jobs.len(),
            store.projects == old(store).projects,
            store.environments == old(store).environments,
            store.tasks == old(store).tasks,
            store.migrations == old(store).migrations,
            forall|q: int| 0 <= q < order.len() ==> pre.jobs[#[trigger] ord[q]].attempt < i64::MAX,
            forall|i: int|
                0 <= i < pre.jobs.len() ==> (#[trigger] store.jobs@[i])@ == (if ord.subrange(0, p as int).contains(
                    i,
                ) {
                    claimed(pre.jobs[i], now as int, lease_seconds as int)
                } else {
                    pre.jobs[i]
                }),
            forall|q: int|
                0 <= q < p ==> (#[trigger] out@[q])@ == claimed(
                    pre.jobs[ord[q]],
                    now as int,
                    lease_seconds as int,
                ),
        decreases order.len() - p,
    {
        let i = order[p];
        assert(ord[p as int] == i);
        proof {
            // the chosen positions are pairwise different
            if ord.subrange(0, p as int).contains(i as int) {
                let q = choose|q: int| 0 <= q < p && ord.subrange(0, p as int)[q] == i as int;
                assert(ord[q] == ord[p as int]);
                lemma_precedes_total::<Job, Oldest>(pre.jobs, ord[q], ord[p as int]);
            }
            assert((store.jobs@[i as int])@ == pre.jobs[i as int]);
        }
        let ghost before = store.jobs@;
        store.jobs[i].status = JobStatus::Running;
        store.jobs[i].attempt = store.jobs[i].attempt + 1;
        store.jobs[i].not_before = None;
        store.jobs[i].lease_expires_at = Some(lease);
        store.jobs[i].last_error = None;
        store.jobs[i].updated_at = now;
        out.push(clone_job(&store.jobs[i]));
        proof {
            let prefix = ord.subrange(0, p as int);
            let longer = ord.subrange(0, p as int + 1);
            assert forall|k: int| 0 <= k < pre.jobs.len() implies (#[trigger] store.jobs@[k])@ == (if longer.contains(
                k,
            ) {
                claimed(pre.jobs[k], now as int, lease_seconds as int)
            } else {
                pre.jobs[k]
            }) by {
                if k == i {
                    assert(longer[p as int] == k);
                } else {
                    assert(store.jobs@[k] == before[k]);
                    if prefix.contains(k) {
                        let q = choose|q: int| 0 <= q < p && prefix[q] == k;
                        assert(longer[q] == k);
                    }
                    if longer.contains(k) {
                        let q = choose|q: int| 0 <= q < p + 1 && longer[q] == k;
                        assert(prefix[q] == k);
                    }
                }
            }
        }
        p += 1;
    }
    proof {
        assert(ord.subrange(0, order.len() as int) =~= ord);
        assert(store.jobs.deep_view() =~= with_claimed(pre.jobs, ord, now as int, lease_seconds as int));
        assert(out.deep_view() =~= claimed_rows(pre.jobs, ord, now as int, lease_seconds as int));
        let after = with_claimed(pre.jobs, ord, now as int, lease_seconds as int);
        assert(job_ids(after) =~= job_ids(pre.jobs));
        assert(job_dedupe_keys(after) =~= job_dedupe_keys(pre.jobs));
    }
    Ok(out)
}

/// Marks a job complete and frees its dedupe key; `NotFound` where there
/// is no such job.
pub fn mark_job_complete(store: &mut Store, id: &str, now: i64) -> (r: Result<(), StoreError>)
    ensures
        match old(store)@.job_position(id@) {
            Some(i) => r is Ok && final(store)@ == old(store)@.set_job(
                i,
                completed(old(store)@.jobs[i], now as int),
            ),
            None => r == Err::<(), StoreError>(StoreError::NotFound) && final(store)@ == old(store)@,
        },
        old(store)@.wf() ==> final(store)@.wf(),
{
    match find_job(&store.jobs, id) {
        Some(i) => {
            let ghost old_rows = store.jobs.deep_view();
            store.jobs[i].status = JobStatus::Complete;
            store.jobs[i].dedupe_key = None;
            store.jobs[i].not_before = None;
            store.jobs[i].lease_expires_at = None;
            store.jobs[i].last_error = None;
            store.jobs[i].updated_at = now;
            proof {
                let row = completed(old_rows[i as int], now as int);
                assert(store.jobs.deep_view() =~= old_rows.update(i as int, row));
                lemma_set_job_wf(old(store)@, i as int, row);
            }
            Ok(())
        },
        None => Err(StoreError::NotFound),
    }
}

/// Marks a job failed for good, with its error, and frees its dedupe key;
/// `NotFound` where there is no such job.
pub fn mark_job_failed(store: &mut Store, id: &str, error: &str, now: i64) -> (r: Result<(), StoreError>)
    ensures
        match old(store)@.job_position(id@) {
            Some(i) => r is Ok && final(store)@ == old(store)@.set_job(
                i,
                failed(old(store)@.jobs[i], error@, now as int),
            ),
            None => r == Err::<(), StoreError>(StoreError::NotFound) && final(store)@ == old(store)@,
        },
        old(store)@.wf() ==> final(store)@.wf(),
{
    match find_job(&store.jobs, id) {
        Some(i) => {
            let ghost old_rows = store.jobs.deep_view();
            store.jobs[i].status = JobStatus::Failed;
            store.jobs[i].dedupe_key = None;
            store.jobs[i].not_before = None;
            store.jobs[i].lease_expires_at = None;
            store.jobs[i].last_error = Some(String::from_str(error));
            store.jobs[i].updated_at = now;
            proof {
                let row = failed(old_rows[i as int], error@, now as int);
                assert(store.jobs.deep_view() =~= old_rows.update(i as int, row));
                lemma_set_job_wf(old(store)@, i as int, row);
            }
            Ok(())
        },
        None => Err(StoreError::NotFound),
    }
}

/// Puts a job back as pending, held back for `delay_seconds`, with the
/// error of the attempt; `NotFound` where there is no such job.
pub fn requeue_job(store: &mut Store, id: &str, error: &str, delay_seconds: i64, now: i64) -> (r: Result<
    (),
    StoreError,
>)
    ensures
        match old(store)@.job_position(id@) {
            Some(i) => r is Ok && final(store)@ == old(store)@.set_job(
                i,
                requeued(old(store)@.jobs[i], error@, delay_seconds as int, now as int),
            ),
            None => r == Err::<(), StoreError>(StoreError::NotFound) && final(store)@ == old(store)@,
        },
        old(store)@.wf() ==> final(store)@.wf(),
{
    match find_job(&store.jobs, id) {
        Some(i) => {
            let ghost old_rows = store.jobs.deep_view();
            store.jobs[i].status = JobStatus::Pending;
            store.jobs[i].not_before = Some(deadline_after(now, delay_seconds));
            store.jobs[i].lease_expires_at = None;
            store.jobs[i].last_error = Some(String::from_str(error));
            store.jobs[i].updated_at = now;
            proof {
                let row = requeued(old_rows[i as int], error@, delay_seconds as int, now as int);
                assert(store.jobs.deep_view() =~= old_rows.update(i as int, row));
                lemma_set_job_wf(old(store)@, i as int, row);
            }
            Ok(())
        },
        None => Err(StoreError::NotFound),
    }
}

/// Renews the lease of a running job and says whether it did: `false`,
/// and nothing changes, where the job is missing or not running.
pub fn refresh_job_lease(store: &mut Store, id: &str, lease_seconds: i64, now: i64) -> (renewed_lease: bool)
    ensures
        match old(store)@.job_position(id@) {
            Some(i) if old(store)@.jobs[i].status == JobStatus::Running => renewed_lease && final(store)@
                == old(store)@.set_job(i, renewed(old(store)@.jobs[i], lease_seconds as int, now as int)),
            _ => !renewed_lease && final(store)@ == old(store)@,
        },
        old(store)@.wf() ==> final(store)@.wf(),
{
    match find_job(&store.jobs, id) {
        Some(i) => {
            if store.jobs[i].status != JobStatus::Running {
                return false;
            }
            let ghost old_rows = store.jobs.deep_view();
            store.jobs[i].lease_expires_at = Some(deadline_after(now, lease_seconds));
            store.jobs[i].updated_at = now;
            proof {
                let row = renewed(old_rows[i as int], lease_seconds as int, now as int);
                assert(store.jobs.deep_view() =~= old_rows.update(i as int, row));
                lemma_set_job_wf(old(store)@, i as int, row);
            }
            true
        },
        None => false,
    }
}

/// Replacing a job by one with the same id, and the same dedupe key or
/// none, keeps the store well-formed.
proof fn lemma_set_job_wf(s: StoreView, i: int, row: JobView)
    requires
        0 <= i < s.jobs.len(),
        row.id == s.jobs[i].id,
        row.dedupe_key == s.jobs[i].dedupe_key || row.dedupe_key is None,
    ensures
        s.wf() ==> s.set_job(i, row).wf(),
{
    if s.wf() {
        let after = s.jobs.update(i, row);
        assert(job_ids(after) =~= job_ids(s.jobs));
        assert forall|a: int, b: int|
            0 <= a < b < after.len() && job_dedupe_keys(after)[a] is Some implies job_dedupe_keys(after)[a]
                != job_dedupe_keys(after)[b] by {
            assert(job_dedupe_keys(s.jobs)[a] == s.jobs[a].dedupe_key);
            assert(job_dedupe_keys(s.jobs)[b] == s.jobs[b].dedupe_key);
            if b == i {
                if row.dedupe_key is None {
                } else {
                    assert(job_dedupe_keys(s.jobs)[a] != job_dedupe_keys(s.jobs)[b]);
                }
            } else {
                assert(job_dedupe_keys(s.jobs)[a] is Some ==> job_dedupe_keys(s.jobs)[a] != job_dedupe_keys(
                    s.jobs,
                )[b]);
            }
        }
    }
}

} // verus!
