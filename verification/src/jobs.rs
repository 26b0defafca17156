//! The register of table export jobs: how a job is started (or an equal
//! running one reused), how it moves from queued to a final state, how
//! it is cancelled, and how the register stays within its size.
use vstd::prelude::*;
use crate::bridge::{text_less, text_less_exec};
use crate::export::{progress_percent, TableExportSpec};
use crate::sql::join_seq;
use crate::text::{push_char, str_eq, to_uppercase, unicode_uppercase};

verus! {

/// A table export and where it stands.
#[derive(Debug)]
pub struct ExportJob {
    pub id: String,
    pub dedupe_key: String,
    pub kind: String,
    pub label: String,
    pub status: String,
    pub phase: String,
    pub processed_rows: i64,
    pub total_rows: i64,
    pub bytes_written: u64,
    pub percent: u8,
    pub output_paths: Vec<String>,
    pub created_at: String,
    pub started_at: Option<String>,
    pub finished_at: Option<String>,
    pub error: Option<String>,
    pub cancellable: bool,
    pub cancel_requested: bool,
}

/// What the specifications see of a job.
pub struct JobView {
    pub id: Seq<char>,
    pub dedupe_key: Seq<char>,
    pub kind: Seq<char>,
    pub label: Seq<char>,
    pub status: Seq<char>,
    pub phase: Seq<char>,
    pub processed_rows: int,
    pub total_rows: int,
    pub bytes_written: int,
    pub percent: int,
    pub output_paths: Seq<Seq<char>>,
    pub created_at: Seq<char>,
    pub started_at: Option<Seq<char>>,
    pub finished_at: Option<Seq<char>>,
    pub error: Option<Seq<char>>,
    pub cancellable: bool,
    pub cancel_requested: bool,
}

pub open spec fn opt_view(o: Option<String>) -> Option<Seq<char>> {
    match o {
        Some(s) => Some(s@),
        None => None,
    }
}

pub open spec fn texts(v: Seq<String>) -> Seq<Seq<char>> {
    v.map_values(|s: String| s@)
}

pub open spec fn job_view(j: ExportJob) -> JobView {
    JobView {
        id: j.id@,
        dedupe_key: j.dedupe_key@,
        kind: j.kind@,
        label: j.label@,
        status: j.status@,
        phase: j.phase@,
        processed_rows: j.processed_rows as int,
        total_rows: j.total_rows as int,
        bytes_written: j.bytes_written as int,
        percent: j.percent as int,
        output_paths: texts(j.output_paths@),
        created_at: j.created_at@,
        started_at: opt_view(j.started_at),
        finished_at: opt_view(j.finished_at),
        error: opt_view(j.error),
        cancellable: j.cancellable,
        cancel_requested: j.cancel_requested,
    }
}

pub open spec fn job_views(v: Seq<ExportJob>) -> Seq<JobView> {
    v.map_values(|j: ExportJob| job_view(j))
}

/// A job still to finish: queued or running.
pub open spec fn is_active(j: JobView) -> bool {
    j.status == "queued"@ || j.status == "running"@
}

fn job_is_active(j: &ExportJob) -> (b: bool)
    ensures
        b == is_active(job_view(*j)),
{
    str_eq(j.status.as_str(), "queued") || str_eq(j.status.as_str(), "running")
}

fn copy_text(s: &String) -> (r: String)
    ensures
        r@ == s@,
{
    s.clone()
}

fn copy_opt(o: &Option<String>) -> (r: Option<String>)
    ensures
        opt_view(r) == opt_view(*o),
{
    match o {
        Some(s) => Some(s.clone()),
        None => None,
    }
}

pub(crate) fn copy_texts(v: &Vec<String>) -> (r: Vec<String>)
    ensures
        texts(r@) == texts(v@),
{
    let mut r: Vec<String> = Vec::new();
    let mut i: usize = 0;
    while i < v.len()
        invariant
            i <= v.len(),
            texts(r@) == texts(v@.take(i as int)),
        decreases v.len() - i,
    {
        let c = v[i].clone();
        assert(c@ == v@[i as int]@);
        let ghost before = r@;
        r.push(c);
        assert(r@ == before.push(c));
        assert(texts(r@) =~= texts(before).push(c@));
        assert(v@.take(i + 1) =~= v@.take(i as int).push(v@[i as int]));
        assert(texts(v@.take(i + 1)) =~= texts(v@.take(i as int)).push(v@[i as int]@));
        i = i + 1;
    }
    assert(v@.take(v@.len() as int) =~= v@);
    r
}

/// A copy of a job, field for field.
pub fn copy_job(j: &ExportJob) -> (r: ExportJob)
    ensures
        job_view(r) == job_view(*j),
{
    ExportJob {
        id: copy_text(&j.id),
        dedupe_key: copy_text(&j.dedupe_key),
        kind: copy_text(&j.kind),
        label: copy_text(&j.label),
        status: copy_text(&j.status),
        phase: copy_text(&j.phase),
        processed_rows: j.processed_rows,
        total_rows: j.total_rows,
        bytes_written: j.bytes_written,
        percent: j.percent,
        output_paths: copy_texts(&j.output_paths),
        created_at: copy_text(&j.created_at),
        started_at: copy_opt(&j.started_at),
        finished_at: copy_opt(&j.finished_at),
        error: copy_opt(&j.error),
        cancellable: j.cancellable,
        cancel_requested: j.cancel_requested,
    }
}

// ---------------------------------------------------------------------------
// The order of texts
// ---------------------------------------------------------------------------

pub(crate) proof fn lemma_text_less_irreflexive(a: Seq<char>)
    ensures
        !text_less(a, a),
    decreases a.len(),
{
    if a.len() > 0 {
        lemma_text_less_irreflexive(a.drop_first());
    }
}

pub(crate) proof fn lemma_text_less_transitive(a: Seq<char>, b: Seq<char>, c: Seq<char>)
    requires
        text_less(a, b),
        text_less(b, c),
    ensures
        text_less(a, c),
    decreases a.len(),
{
    if a.len() > 0 && b.len() > 0 && c.len() > 0 && a[0] == b[0] && b[0] == c[0] {
        lemma_text_less_transitive(a.drop_first(), b.drop_first(), c.drop_first());
    }
}

proof fn lemma_text_less_total(a: Seq<char>, b: Seq<char>)
    requires
        a != b,
    ensures
        text_less(a, b) || text_less(b, a),
    decreases a.len(),
{
    if a.len() > 0 && b.len() > 0 && a[0] == b[0] {
        if a.drop_first() == b.drop_first() {
            assert(a =~= seq![a[0]] + a.drop_first());
            assert(b =~= seq![b[0]] + b.drop_first());
        }
        lemma_text_less_total(a.drop_first(), b.drop_first());
    } else if a.len() > 0 && b.len() > 0 {
        let x = a[0];
        let y = b[0];
        vstd::utf8::char_u32_cast(x, x as u32);
        vstd::utf8::char_u32_cast(y, y as u32);
        assert((x as u32) != (y as u32));
    } else if a.len() == 0 && b.len() == 0 {
        assert(a =~= b);
    }
}

proof fn lemma_text_less_asymmetric(a: Seq<char>, b: Seq<char>)
    requires
        text_less(a, b),
    ensures
        !text_less(b, a),
{
    if text_less(b, a) {
        lemma_text_less_transitive(a, b, a);
        lemma_text_less_irreflexive(a);
    }
}

// ---------------------------------------------------------------------------
// The register
// ---------------------------------------------------------------------------

/// No two jobs share an id.
pub open spec fn ids_unique(s: Seq<JobView>) -> bool {
    forall|i: int, j: int| 0 <= i < j < s.len() ==> (#[trigger] s[i]).id != (#[trigger] s[j]).id
}

pub open spec fn has_id(s: Seq<JobView>, id: Seq<char>) -> bool {
    exists|k: int| 0 <= k < s.len() && (#[trigger] s[k]).id == id
}

/// The export jobs of the session, each under its own id.
pub struct ExportJobs {
    jobs: Vec<ExportJob>,
}

/// A change a running export makes to its job.
pub enum JobChange {
    /// Cancelled before it started.
    Cancelled { finished_at: String },
    /// Started: counting the rows.
    Started { started_at: String },
    /// The rows counted: writing.
    Counted { total_rows: i64 },
    /// Rows written so far, and bytes.
    Progress { processed_rows: i64, bytes_written: u64 },
    /// A new Excel part begun, with the paths of the parts so far.
    NewPart { part: u32, output_paths: Vec<String> },
    /// Every row written: finishing the file.
    Finalizing { processed_rows: i64, bytes_written: u64 },
    /// Done, with the files written.
    Completed { bytes_written: u64, finished_at: String, output_paths: Vec<String> },
    /// Stopped by an error.
    Failed { error: String, finished_at: String },
}

/// The job after a change.
pub open spec fn applied(j: JobView, c: JobChange) -> JobView {
    match c {
        JobChange::Cancelled { finished_at } => JobView {
            status: "cancelled"@,
            phase: "cancelled"@,
            finished_at: Some(finished_at@),
            cancellable: false,
            ..j
        },
        JobChange::Started { started_at } => JobView {
            status: "running"@,
            phase: "counting"@,
            started_at: Some(started_at@),
            ..j
        },
        JobChange::Counted { total_rows } => JobView { total_rows: total_rows as int, phase: "writing"@, ..j },
        JobChange::Progress { processed_rows, bytes_written } => JobView {
            processed_rows: processed_rows as int,
            bytes_written: bytes_written as int,
            percent: progress_percent(processed_rows as int, j.total_rows),
            ..j
        },
        JobChange::NewPart { part, output_paths } => JobView {
            phase: "writing Excel part "@ + crate::text::dec(part as nat),
            output_paths: texts(output_paths@),
            ..j
        },
        JobChange::Finalizing { processed_rows, bytes_written } => JobView {
            processed_rows: processed_rows as int,
            bytes_written: bytes_written as int,
            percent: 99,
            phase: "finalizing"@,
            ..j
        },
        JobChange::Completed { bytes_written, finished_at, output_paths } => JobView {
            status: "completed"@,
            phase: "completed"@,
            percent: 100,
            bytes_written: bytes_written as int,
            finished_at: Some(finished_at@),
            cancellable: false,
            output_paths: texts(output_paths@),
            ..j
        },
        JobChange::Failed { error, finished_at } => JobView {
            status: "failed"@,
            phase: "failed"@,
            error: Some(error@),
            finished_at: Some(finished_at@),
            cancellable: false,
            ..j
        },
    }
}

/// The percentage of a job's rows written (`progress_percent`), computed
/// without overflow.
fn job_percent(processed: i64, total: i64) -> (r: u8)
    ensures
        r as int == progress_percent(processed as int, total as int),
{
    if total <= 0 {
        return 99;
    }
    let done: i64 = if processed < total {
        processed
    } else {
        total
    };
    if done < 0 {
        assert((done * 100) / (total as int) < 0) by (nonlinear_arith)
            requires
                done < 0,
                total > 0,
        ;
        return 0;
    }
    let scaled: u128 = (done as u128) * 100;
    let p: u128 = scaled / (total as u128);
    assert(p as int == (done * 100) / (total as int));
    assert((done * 100) / (total as int) <= 100) by (nonlinear_arith)
        requires
            done <= total,
            total > 0,
            done >= 0,
    ;
    if p > 99 {
        99
    } else {
        p as u8
    }
}

pub open spec fn not_found_text(id: Seq<char>) -> Seq<char> {
    "Export job '"@ + id + "' not found"@
}

fn not_found(id: &str) -> (e: String)
    ensures
        e@ == not_found_text(id@),
{
    let mut e = String::from_str("Export job '");
    e.append(id);
    e.append("' not found");
    proof {
        reveal_strlit("Export job '");
        reveal_strlit("' not found");
    }
    e
}

impl ExportJobs {
    pub closed spec fn views(&self) -> Seq<JobView> {
        job_views(self.jobs@)
    }

    pub open spec fn wf(&self) -> bool {
        ids_unique(self.views())
    }

    /// An empty register.
    pub fn new() -> (r: Self)
        ensures
            r.views() == Seq::<JobView>::empty(),
            r.wf(),
    {
        let r = ExportJobs { jobs: Vec::new() };
        assert(r.views() =~= Seq::<JobView>::empty());
        r
    }

    pub fn len(&self) -> (n: usize)
        ensures
            n == self.views().len(),
    {
        self.jobs.len()
    }

    fn find(&self, id: &str) -> (r: Option<usize>)
        requires
            self.wf(),
        ensures
            match r {
                Some(k) => k < self.views().len() && self.views()[k as int].id == id@,
                None => !has_id(self.views(), id@),
            },
    {
        let mut i: usize = 0;
        while i < self.jobs.len()
            invariant
                i <= self.jobs.len(),
                forall|k: int| 0 <= k < i ==> (#[trigger] self.views()[k]).id != id@,
            decreases self.jobs.len() - i,
        {
            assert(self.views()[i as int] == job_view(self.jobs@[i as int]));
            if str_eq(self.jobs[i].id.as_str(), id) {
                return Some(i);
            }
            i = i + 1;
        }
        None
    }

    /// The job of an id, if there is one.
    pub fn get(&self, id: &str) -> (r: Option<ExportJob>)
        requires
            self.wf(),
        ensures
            match r {
                Some(j) => exists|k: int| 0 <= k < self.views().len() && self.views()[k] == job_view(j) && job_view(j).id == id@,
                None => !has_id(self.views(), id@),
            },
    {
        match self.find(id) {
            Some(k) => {
                let j = copy_job(&self.jobs[k]);
                assert(self.views()[k as int] == job_view(self.jobs@[k as int]));
                Some(j)
            },
            None => None,
        }
    }

    /// Whether a cancellation was asked for the job (no job, no request).
    pub fn is_cancelled(&self, id: &str) -> (b: bool)
        requires
            self.wf(),
        ensures
            b == exists|k: int| 0 <= k < self.views().len() && (#[trigger] self.views()[k]).id == id@ && self.views()[k].cancel_requested,
    {
        match self.find(id) {
            Some(k) => {
                assert(self.views()[k as int] == job_view(self.jobs@[k as int]));
                proof {
                    assert forall|m: int| 0 <= m < self.views().len() && (#[trigger] self.views()[m]).id == id@ implies m == k by {
                        if m != k as int {
                            if m < k {
                                assert(self.views()[m].id != self.views()[k as int].id);
                            } else {
                                assert(self.views()[k as int].id != self.views()[m].id);
                            }
                        }
                    }
                }
                self.jobs[k].cancel_requested
            },
            None => false,
        }
    }

    fn replace_at(&mut self, k: usize, job: ExportJob)
        requires
            k < old(self).views().len(),
            old(self).wf(),
            job_view(job).id == old(self).views()[k as int].id,
        ensures
            final(self).views() == old(self).views().update(k as int, job_view(job)),
            final(self).wf(),
    {
        self.jobs.set(k, job);
        assert(self.views() =~= old(self).views().update(k as int, job_view(job)));
    }

    /// Applies a change to a job, and returns the job as changed.
    pub fn update_job(&mut self, id: &str, change: JobChange) -> (r: Result<ExportJob, String>)
        requires
            old(self).wf(),
        ensures
            final(self).wf(),
            match r {
                Ok(j) => exists|k: int|
                    0 <= k < old(self).views().len() && old(self).views()[k].id == id@
                        && job_view(j) == applied(old(self).views()[k], change)
                        && final(self).views() == old(self).views().update(k, job_view(j)),
                Err(e) => !has_id(old(self).views(), id@) && e@ == not_found_text(id@)
                    && final(self).views() == old(self).views(),
            },
    {
        let k = match self.find(id) {
            Some(k) => k,
            None => return Err(not_found(id)),
        };
        let ghost before = self.views()[k as int];
        assert(before == job_view(self.jobs@[k as int]));
        let mut job = copy_job(&self.jobs[k]);
        proof {
            reveal_strlit("cancelled");
            reveal_strlit("running");
            reveal_strlit("counting");
            reveal_strlit("writing");
            reveal_strlit("finalizing");
            reveal_strlit("completed");
            reveal_strlit("failed");
            reveal_strlit("writing Excel part ");
        }
        match change {
            JobChange::Cancelled { finished_at } => {
                job.status = String::from_str("cancelled");
                job.phase = String::from_str("cancelled");
                job.finished_at = Some(finished_at);
                job.cancellable = false;
            },
            JobChange::Started { started_at } => {
                job.status = String::from_str("running");
                job.phase = String::from_str("counting");
                job.started_at = Some(started_at);
            },
            JobChange::Counted { total_rows } => {
                job.total_rows = total_rows;
                job.phase = String::from_str("writing");
            },
            JobChange::Progress { processed_rows, bytes_written } => {
                job.processed_rows = processed_rows;
                job.bytes_written = bytes_written;
                job.percent = job_percent(processed_rows, job.total_rows);
            },
            JobChange::NewPart { part, output_paths } => {
                let mut phase = String::from_str("writing Excel part ");
                crate::text::append_dec(&mut phase, part as u64);
                job.phase = phase;
                job.output_paths = output_paths;
            },
            JobChange::Finalizing { processed_rows, bytes_written } => {
                job.processed_rows = processed_rows;
                job.bytes_written = bytes_written;
                job.percent = 99;
                job.phase = String::from_str("finalizing");
            },
            JobChange::Completed { bytes_written, finished_at, output_paths } => {
                job.status = String::from_str("completed");
                job.phase = String::from_str("completed");
                job.percent = 100;
                job.bytes_written = bytes_written;
                job.finished_at = Some(finished_at);
                job.cancellable = false;
                job.output_paths = output_paths;
            },
            JobChange::Failed { error, finished_at } => {
                job.status = String::from_str("failed");
                job.phase = String::from_str("failed");
                job.error = Some(error);
                job.finished_at = Some(finished_at);
                job.cancellable = false;
            },
        }
        assert(job_view(job) == applied(before, change));
        let out = copy_job(&job);
        self.replace_at(k, job);
        Ok(out)
    }
}

// ---------------------------------------------------------------------------
// Cancelling
// ---------------------------------------------------------------------------

/// A job once cancelled: an active job is asked to stop; a finished job
/// stays as it is.
pub open spec fn cancel_view(j: JobView) -> JobView {
    if is_active(j) {
        JobView { cancel_requested: true, phase: "cancelling"@, ..j }
    } else {
        j
    }
}

impl ExportJobs {
    /// Asks a job to stop, and returns it.
    pub fn cancel_export_job(&mut self, job_id: &str) -> (r: Result<ExportJob, String>)
        requires
            old(self).wf(),
        ensures
            final(self).wf(),
            match r {
                Ok(j) => exists|k: int|
                    0 <= k < old(self).views().len() && old(self).views()[k].id == job_id@
                        && job_view(j) == cancel_view(old(self).views()[k])
                        && final(self).views() == old(self).views().update(k, job_view(j)),
                Err(e) => !has_id(old(self).views(), job_id@) && e@ == not_found_text(job_id@)
                    && final(self).views() == old(self).views(),
            },
    {
        let k = match self.find(job_id) {
            Some(k) => k,
            None => return Err(not_found(job_id)),
        };
        let ghost before = self.views()[k as int];
        assert(before == job_view(self.jobs@[k as int]));
        let mut job = copy_job(&self.jobs[k]);
        if job_is_active(&job) {
            job.cancel_requested = true;
            proof {
                reveal_strlit("cancelling");
            }
            job.phase = String::from_str("cancelling");
        }
        assert(job_view(job) == cancel_view(before));
        let out = copy_job(&job);
        self.replace_at(k, job);
        Ok(out)
    }
}

// ---------------------------------------------------------------------------
// Making room: the oldest finished jobs leave
// ---------------------------------------------------------------------------

/// The register keeps at most this many jobs when it can.
pub const MAX_EXPORT_JOBS: usize = 100;

/// `a` was created before `b`: by creation time, then by id.
pub open spec fn older(a: JobView, b: JobView) -> bool {
    text_less(a.created_at, b.created_at) || (a.created_at == b.created_at && text_less(a.id, b.id))
}

/// Among the first `n` jobs, the index of the oldest finished one (the
/// first of them on a tie).
pub open spec fn oldest_finished(s: Seq<JobView>, n: int) -> Option<int>
    decreases n,
{
    if n <= 0 {
        None
    } else {
        let prev = oldest_finished(s, n - 1);
        if is_active(s[n - 1]) {
            prev
        } else {
            match prev {
                None => Some(n - 1),
                Some(p) => if older(s[n - 1], s[p]) {
                    Some(n - 1)
                } else {
                    Some(p)
                },
            }
        }
    }
}

/// The jobs with the `k` oldest finished ones taken out, one at a time (or
/// all of them when there are fewer).
pub open spec fn pruned(s: Seq<JobView>, k: nat) -> Seq<JobView>
    decreases k,
{
    if k == 0 {
        s
    } else {
        match oldest_finished(s, s.len() as int) {
            None => s,
            Some(i) => pruned(s.remove(i), (k - 1) as nat),
        }
    }
}

/// How many jobs must leave before a new one comes in.
pub open spec fn excess(len: int) -> nat {
    if len >= 100 {
        (len - 99) as nat
    } else {
        0
    }
}

pub open spec fn finished_count(s: Seq<JobView>) -> nat
    decreases s.len(),
{
    if s.len() == 0 {
        0
    } else {
        finished_count(s.drop_last()) + (if is_active(s.last()) {
            0nat
        } else {
            1nat
        })
    }
}

fn job_older(a: &ExportJob, b: &ExportJob) -> (r: bool)
    ensures
        r == older(job_view(*a), job_view(*b)),
{
    text_less_exec(a.created_at.as_str(), b.created_at.as_str()) || (str_eq(a.created_at.as_str(), b.created_at.as_str())
        && text_less_exec(a.id.as_str(), b.id.as_str()))
}

proof fn lemma_oldest_finished_range(s: Seq<JobView>, n: int)
    requires
        0 <= n <= s.len(),
    ensures
        match oldest_finished(s, n) {
            Some(i) => 0 <= i < n && !is_active(s[i]),
            None => forall|k: int| 0 <= k < n ==> is_active(#[trigger] s[k]),
        },
    decreases n,
{
    if n > 0 {
        lemma_oldest_finished_range(s, n - 1);
    }
}

impl ExportJobs {
    fn oldest_finished_index(&self) -> (r: Option<usize>)
        ensures
            match r {
                Some(i) => oldest_finished(self.views(), self.views().len() as int) == Some(i as int),
                None => oldest_finished(self.views(), self.views().len() as int) is None,
            },
    {
        let mut best: Option<usize> = None;
        let mut i: usize = 0;
        while i < self.jobs.len()
            invariant
                i <= self.jobs.len(),
                self.views().len() == self.jobs@.len(),
                match best {
                    Some(b) => oldest_finished(self.views(), i as int) == Some(b as int),
                    None => oldest_finished(self.views(), i as int) is None,
                },
                match oldest_finished(self.views(), i as int) {
                    Some(p) => 0 <= p < i,
                    None => true,
                },
            decreases self.jobs.len() - i,
        {
            proof {
                lemma_oldest_finished_range(self.views(), i as int);
            }
            assert(self.views()[i as int] == job_view(self.jobs@[i as int]));
            if !job_is_active(&self.jobs[i]) {
                match best {
                    None => {
                        best = Some(i);
                    },
                    Some(p) => {
                        assert(self.views()[p as int] == job_view(self.jobs@[p as int]));
                        if job_older(&self.jobs[i], &self.jobs[p]) {
                            best = Some(i);
                        }
                    },
                }
            }
            i = i + 1;
        }
        best
    }

    fn remove_at(&mut self, i: usize)
        requires
            i < old(self).views().len(),
            old(self).wf(),
        ensures
            final(self).views() == old(self).views().remove(i as int),
            final(self).wf(),
    {
        self.jobs.remove(i);
        assert(self.views() =~= old(self).views().remove(i as int));
    }

    /// Takes out the `k` oldest finished jobs, or all of them when fewer.
    fn prune(&mut self, k: usize)
        requires
            old(self).wf(),
        ensures
            final(self).views() == pruned(old(self).views(), k as nat),
            final(self).wf(),
    {
        let mut left = k;
        while left > 0
            invariant
                self.wf(),
                pruned(self.views(), left as nat) == pruned(old(self).views(), k as nat),
            decreases left,
        {
            match self.oldest_finished_index() {
                None => {
                    return;
                },
                Some(i) => {
                    let ghost before = self.views();
                    proof {
                        lemma_oldest_finished_range(before, before.len() as int);
                        assert(oldest_finished(before, before.len() as int) == Some(i as int));
                    }
                    self.remove_at(i);
                    assert(pruned(before, left as nat) == pruned(before.remove(i as int), (left - 1) as nat));
                    left = left - 1;
                },
            }
        }
    }
}

/// Taking out finished jobs leaves every active job in place.
pub proof fn lemma_pruned_keeps_active(s: Seq<JobView>, k: nat, j: JobView)
    requires
        s.contains(j),
        is_active(j),
    ensures
        pruned(s, k).contains(j),
    decreases k,
{
    if k > 0 {
        match oldest_finished(s, s.len() as int) {
            None => {},
            Some(i) => {
                lemma_oldest_finished_range(s, s.len() as int);
                let w = choose|w: int| 0 <= w < s.len() && s[w] == j;
                assert(w != i);
                let t = s.remove(i);
                if w < i {
                    assert(t[w] == j);
                } else {
                    assert(t[w - 1] == j);
                }
                lemma_pruned_keeps_active(t, (k - 1) as nat, j);
            },
        }
    }
}

proof fn lemma_finished_count_remove(s: Seq<JobView>, i: int)
    requires
        0 <= i < s.len(),
        !is_active(s[i]),
    ensures
        finished_count(s.remove(i)) + 1 == finished_count(s),
    decreases s.len(),
{
    if i == s.len() - 1 {
        assert(s.remove(i) =~= s.drop_last());
    } else {
        lemma_finished_count_remove(s.drop_last(), i);
        assert(s.remove(i).drop_last() =~= s.drop_last().remove(i));
        assert(s.remove(i).last() == s.last());
    }
}

proof fn lemma_no_finished_count(s: Seq<JobView>)
    requires
        forall|k: int| 0 <= k < s.len() ==> is_active(#[trigger] s[k]),
    ensures
        finished_count(s) == 0,
    decreases s.len(),
{
    if s.len() > 0 {
        lemma_no_finished_count(s.drop_last());
    }
}

/// Taking out `k` finished jobs shortens the register by `k`, or by the
/// number of finished jobs when there are fewer.
pub proof fn lemma_pruned_len(s: Seq<JobView>, k: nat)
    ensures
        pruned(s, k).len() == s.len() - (if k <= finished_count(s) {
            k as int
        } else {
            finished_count(s) as int
        }),
    decreases k,
{
    if k > 0 {
        lemma_oldest_finished_range(s, s.len() as int);
        match oldest_finished(s, s.len() as int) {
            None => {
                lemma_no_finished_count(s);
            },
            Some(i) => {
                lemma_finished_count_remove(s, i);
                lemma_pruned_len(s.remove(i), (k - 1) as nat);
            },
        }
    }
}

proof fn lemma_older_transitive(a: JobView, b: JobView, c: JobView)
    requires
        older(a, b),
        older(b, c),
    ensures
        older(a, c),
{
    if text_less(a.created_at, b.created_at) && text_less(b.created_at, c.created_at) {
        lemma_text_less_transitive(a.created_at, b.created_at, c.created_at);
    } else if text_less(a.id, b.id) && text_less(b.id, c.id) && a.created_at == b.created_at && b.created_at == c.created_at {
        lemma_text_less_transitive(a.id, b.id, c.id);
    }
}

/// The job taken out first is finished and no finished job is older.
pub proof fn lemma_oldest_finished_is_oldest(s: Seq<JobView>, n: int)
    requires
        0 <= n <= s.len(),
        oldest_finished(s, n) is Some,
    ensures
        forall|k: int| 0 <= k < n && !is_active(#[trigger] s[k]) ==> !older(s[k], s[oldest_finished(s, n).unwrap()]),
    decreases n,
{
    lemma_oldest_finished_range(s, n);
    let p = oldest_finished(s, n).unwrap();
    if n > 0 {
        let prev = oldest_finished(s, n - 1);
        if prev is Some {
            lemma_oldest_finished_is_oldest(s, n - 1);
        }
        lemma_oldest_finished_range(s, n - 1);
        assert forall|k: int| 0 <= k < n && !is_active(#[trigger] s[k]) implies !older(s[k], s[p]) by {
            if k == p {
                lemma_text_less_irreflexive(s[k].created_at);
                lemma_text_less_irreflexive(s[k].id);
            } else if k < n - 1 {
                assert(prev is Some);
                let q = prev.unwrap();
                assert(!older(s[k], s[q]));
                if p == n - 1 {
                    assert(older(s[n - 1], s[q]));
                    if older(s[k], s[p]) {
                        lemma_older_transitive(s[k], s[p], s[q]);
                    }
                } else {
                    assert(p == q);
                }
            } else {
                assert(k == n - 1);
                assert(prev is Some);
                assert(p == prev.unwrap());
            }
        }
    }
}

// ---------------------------------------------------------------------------
// Starting an export
// ---------------------------------------------------------------------------

/// A lower-case hexadecimal digit.
pub open spec fn json_hex_digit(n: u32) -> char {
    if n < 10 {
        (48 + n) as char
    } else {
        (87 + n) as char
    }
}

/// How `serde_json` writes one character inside a string: the quote and the
/// backslash escaped, the five named controls by their letter, the other
/// characters below 0x20 as `\u00XX`, every other character as it is.
pub open spec fn json_char(c: char) -> Seq<char> {
    if c == '"' {
        seq!['\\', '"']
    } else if c == '\\' {
        seq!['\\', '\\']
    } else if c == '\u{8}' {
        seq!['\\', 'b']
    } else if c == '\t' {
        seq!['\\', 't']
    } else if c == '\n' {
        seq!['\\', 'n']
    } else if c == '\u{c}' {
        seq!['\\', 'f']
    } else if c == '\r' {
        seq!['\\', 'r']
    } else if (c as u32) < 0x20 {
        seq!['\\', 'u', '0', '0', json_hex_digit((c as u32) / 16), json_hex_digit((c as u32) % 16)]
    } else {
        seq![c]
    }
}

pub open spec fn json_string_body(s: Seq<char>) -> Seq<char>
    decreases s.len(),
{
    if s.len() == 0 {
        seq![]
    } else {
        json_string_body(s.drop_last()) + json_char(s.last())
    }
}

/// A JSON string literal.
pub open spec fn json_string(s: Seq<char>) -> Seq<char> {
    seq!['"'] + json_string_body(s) + seq!['"']
}

/// What `serde_json::to_string` writes for a list of strings: the string
/// literals between brackets, separated by commas, with no spaces.
pub open spec fn json_string_list(items: Seq<Seq<char>>) -> Seq<char> {
    seq!['['] + join_seq(items.map_values(|s: Seq<char>| json_string(s)), seq![',']) + seq![']']
}

/// `serde_json::to_string` on a list of strings, in its compact form. A list
/// of strings always serialises (writing into memory cannot fail), so the
/// default on an error is never taken.
#[verifier::external_body]
fn strings_json(items: &Vec<String>) -> (r: String)
    ensures
        r@ == json_string_list(texts(items@)),
{
    serde_json::to_string(items).unwrap_or_default()
}

/// The key under which equal exports are recognised: the connection, the
/// table, the format, the filters (as JSON) and the selected columns.
pub open spec fn dedupe_key_text(spec: TableExportSpec, filters_json: Seq<char>) -> Seq<char> {
    "table:"@ + spec.connection_id@ + ":"@ + spec.schema@ + ":"@ + spec.table@ + ":"@ + spec.format@ + ":"@
        + filters_json + ":"@ + json_string_list(texts(spec.selected_columns@))
}

/// `dedupe_key`, given the filters already written as JSON.
pub fn dedupe_key(spec: &TableExportSpec, filters_json: &str) -> (r: String)
    ensures
        r@ == dedupe_key_text(*spec, filters_json@),
{
    let mut r = String::from_str("table:");
    r.append(spec.connection_id.as_str());
    push_char(&mut r, ':');
    r.append(spec.schema.as_str());
    push_char(&mut r, ':');
    r.append(spec.table.as_str());
    push_char(&mut r, ':');
    r.append(spec.format.as_str());
    push_char(&mut r, ':');
    r.append(filters_json);
    push_char(&mut r, ':');
    r.append(strings_json(&spec.selected_columns).as_str());
    proof {
        reveal_strlit("table:");
        reveal_strlit(":");
    }
    r
}

/// The job a new export starts as.
pub open spec fn new_job_view(spec: TableExportSpec, id: Seq<char>, key: Seq<char>, created_at: Seq<char>) -> JobView {
    JobView {
        id: id,
        dedupe_key: key,
        kind: "table-"@ + spec.format@,
        label: spec.schema@ + "."@ + spec.table@ + " ("@ + unicode_uppercase(spec.format@) + ")"@,
        status: "queued"@,
        phase: "queued"@,
        processed_rows: 0,
        total_rows: 0,
        bytes_written: 0,
        percent: 0,
        output_paths: seq![spec.file_path@],
        created_at: created_at,
        started_at: None,
        finished_at: None,
        error: None,
        cancellable: true,
        cancel_requested: false,
    }
}

/// An active job of the same key, which a new request reuses.
pub open spec fn reusable(s: Seq<JobView>, key: Seq<char>) -> bool {
    exists|k: int| 0 <= k < s.len() && is_active(#[trigger] s[k]) && s[k].dedupe_key == key
}

/// An active job already writing to the path.
pub open spec fn path_taken(s: Seq<JobView>, path: Seq<char>) -> bool {
    exists|k: int| 0 <= k < s.len() && is_active(#[trigger] s[k]) && s[k].output_paths.contains(path)
}

/// The jobs but the one of an id.
pub open spec fn without_id(s: Seq<JobView>, id: Seq<char>) -> Seq<JobView>
    decreases s.len(),
{
    if s.len() == 0 {
        s
    } else {
        let rest = without_id(s.drop_last(), id);
        if s.last().id == id {
            rest
        } else {
            rest.push(s.last())
        }
    }
}

/// The register once a new job comes in: the oldest finished jobs taken
/// out to make room, and the job stored under its id.
pub open spec fn started(s: Seq<JobView>, job: JobView) -> Seq<JobView> {
    without_id(pruned(s, excess(s.len() as int)), job.id).push(job)
}

proof fn lemma_without_absent(s: Seq<JobView>, id: Seq<char>)
    requires
        !has_id(s, id),
    ensures
        without_id(s, id) == s,
    decreases s.len(),
{
    if s.len() > 0 {
        assert(!has_id(s.drop_last(), id)) by {
            if has_id(s.drop_last(), id) {
                let k = choose|k: int| 0 <= k < s.drop_last().len() && (#[trigger] s.drop_last()[k]).id == id;
                assert(s[k].id == id);
            }
        }
        lemma_without_absent(s.drop_last(), id);
        assert(s.last().id != id) by {
            assert(s[s.len() - 1] == s.last());
        }
        assert(s.drop_last().push(s.last()) =~= s);
    }
}

proof fn lemma_without_at(s: Seq<JobView>, id: Seq<char>, k: int)
    requires
        ids_unique(s),
        0 <= k < s.len(),
        s[k].id == id,
    ensures
        without_id(s, id) == s.remove(k),
    decreases s.len(),
{
    let d = s.drop_last();
    if k == s.len() - 1 {
        assert(!has_id(d, id)) by {
            if has_id(d, id) {
                let w = choose|w: int| 0 <= w < d.len() && (#[trigger] d[w]).id == id;
                assert(s[w].id == s[k].id);
            }
        }
        lemma_without_absent(d, id);
        assert(s.remove(k) =~= d);
    } else {
        assert(ids_unique(d));
        assert(d[k] == s[k]);
        lemma_without_at(d, id, k);
        assert(s.last().id != id) by {
            assert(s[s.len() - 1].id != s[k].id);
        }
        assert(d.remove(k).push(s.last()) =~= s.remove(k));
    }
}

proof fn lemma_remove_keeps_unique(s: Seq<JobView>, k: int)
    requires
        ids_unique(s),
        0 <= k < s.len(),
    ensures
        ids_unique(s.remove(k)),
{
    let t = s.remove(k);
    assert forall|i: int, j: int| 0 <= i < j < t.len() implies (#[trigger] t[i]).id != (#[trigger] t[j]).id by {
        let a = if i < k { i } else { i + 1 };
        let b = if j < k { j } else { j + 1 };
        assert(t[i] == s[a] && t[j] == s[b] && a < b);
    }
}

fn contains_text(v: &Vec<String>, x: &str) -> (b: bool)
    ensures
        b == texts(v@).contains(x@),
{
    let mut i: usize = 0;
    while i < v.len()
        invariant
            i <= v.len(),
            forall|k: int| 0 <= k < i ==> v@[k]@ != x@,
        decreases v.len() - i,
    {
        if str_eq(v[i].as_str(), x) {
            assert(texts(v@)[i as int] == x@);
            return true;
        }
        i = i + 1;
    }
    assert forall|k: int| 0 <= k < texts(v@).len() implies texts(v@)[k] != x@ by {
        assert(texts(v@)[k] == v@[k]@);
    }
    false
}

impl ExportJobs {
    fn find_reusable(&self, key: &str) -> (r: Option<usize>)
        ensures
            match r {
                Some(k) => k < self.views().len() && is_active(self.views()[k as int]) && self.views()[k as int].dedupe_key == key@,
                None => !reusable(self.views(), key@),
            },
    {
        let mut i: usize = 0;
        while i < self.jobs.len()
            invariant
                i <= self.jobs.len(),
                forall|k: int| 0 <= k < i ==> !(is_active(#[trigger] self.views()[k]) && self.views()[k].dedupe_key == key@),
            decreases self.jobs.len() - i,
        {
            assert(self.views()[i as int] == job_view(self.jobs@[i as int]));
            if job_is_active(&self.jobs[i]) && str_eq(self.jobs[i].dedupe_key.as_str(), key) {
                return Some(i);
            }
            i = i + 1;
        }
        None
    }

    fn writes_to(&self, path: &str) -> (b: bool)
        ensures
            b == path_taken(self.views(), path@),
    {
        let mut i: usize = 0;
        while i < self.jobs.len()
            invariant
                i <= self.jobs.len(),
                forall|k: int| 0 <= k < i ==> !(is_active(#[trigger] self.views()[k]) && self.views()[k].output_paths.contains(path@)),
            decreases self.jobs.len() - i,
        {
            assert(self.views()[i as int] == job_view(self.jobs@[i as int]));
            if job_is_active(&self.jobs[i]) && contains_text(&self.jobs[i].output_paths, path) {
                return true;
            }
            i = i + 1;
        }
        false
    }

    /// Registers a table export: an active export of the same key is
    /// returned as it is; an export to a path an active job writes is
    /// refused; otherwise the new job is stored, queued, after the oldest
    /// finished jobs have made room for it.
    pub fn start_table_export(&mut self, spec: &TableExportSpec, id: String, created_at: String, filters_json: &str) -> (r: Result<ExportJob, String>)
        requires
            old(self).wf(),
        ensures
            final(self).wf(),
            ({
                let key = dedupe_key_text(*spec, filters_json@);
                let s = old(self).views();
                if reusable(s, key) {
                    r matches Ok(j) && final(self).views() == s && exists|k: int|
                        0 <= k < s.len() && is_active(#[trigger] s[k]) && s[k].dedupe_key == key && s[k] == job_view(j)
                } else if path_taken(s, spec.file_path@) {
                    r matches Err(e) && e@ == "Another export is already writing to this output path"@
                        && final(self).views() == s
                } else {
                    r matches Ok(j) && job_view(j) == new_job_view(*spec, id@, key, created_at@)
                        && final(self).views() == started(s, job_view(j))
                }
            }),
    {
        let key = dedupe_key(spec, filters_json);
        match self.find_reusable(key.as_str()) {
            Some(k) => {
                assert(self.views()[k as int] == job_view(self.jobs@[k as int]));
                return Ok(copy_job(&self.jobs[k]));
            },
            None => {},
        }
        if self.writes_to(spec.file_path.as_str()) {
            proof {
                reveal_strlit("Another export is already writing to this output path");
            }
            return Err(String::from_str("Another export is already writing to this output path"));
        }
        let ghost s = self.views();
        let n = self.jobs.len();
        if n >= MAX_EXPORT_JOBS {
            self.prune(n - 99);
        } else {
            self.prune(0);
        }
        assert(self.views() == pruned(s, excess(s.len() as int)));
        let ghost p = self.views();
        match self.find(id.as_str()) {
            Some(k) => {
                proof {
                    lemma_without_at(p, id@, k as int);
                    lemma_remove_keeps_unique(p, k as int);
                }
                self.remove_at(k);
            },
            None => {
                proof {
                    lemma_without_absent(p, id@);
                }
            },
        }
        assert(self.views() == without_id(p, id@));
        assert(!has_id(self.views(), id@)) by {
            if has_id(self.views(), id@) {
                let w = choose|w: int| 0 <= w < self.views().len() && (#[trigger] self.views()[w]).id == id@;
                lemma_without_no_id(p, id@, w);
            }
        }
        proof {
            reveal_strlit("table-");
            reveal_strlit(".");
            reveal_strlit(" (");
            reveal_strlit(")");
            reveal_strlit("queued");
        }
        let mut kind = String::from_str("table-");
        kind.append(spec.format.as_str());
        let mut label = String::from_str(spec.schema.as_str());
        push_char(&mut label, '.');
        label.append(spec.table.as_str());
        label.append(" (");
        label.append(to_uppercase(spec.format.as_str()).as_str());
        push_char(&mut label, ')');
        assert(kind@ =~= "table-"@ + spec.format@);
        assert(label@ =~= spec.schema@ + "."@ + spec.table@ + " ("@ + unicode_uppercase(spec.format@) + ")"@);
        let mut paths: Vec<String> = Vec::new();
        paths.push(spec.file_path.clone());
        assert(texts(paths@) =~= seq![spec.file_path@]);
        let job = ExportJob {
            id,
            dedupe_key: key,
            kind,
            label,
            status: String::from_str("queued"),
            phase: String::from_str("queued"),
            processed_rows: 0,
            total_rows: 0,
            bytes_written: 0,
            percent: 0,
            output_paths: paths,
            created_at,
            started_at: None,
            finished_at: None,
            error: None,
            cancellable: true,
            cancel_requested: false,
        };
        assert(job_view(job) == new_job_view(*spec, job.id@, job.dedupe_key@, job.created_at@));
        let out = copy_job(&job);
        let ghost before_push = self.views();
        self.jobs.push(job);
        assert(self.views() =~= before_push.push(job_view(out)));
        assert(ids_unique(self.views())) by {
            let t = self.views();
            assert forall|i: int, j: int| 0 <= i < j < t.len() implies (#[trigger] t[i]).id != (#[trigger] t[j]).id by {
                if j == t.len() - 1 {
                    assert(t[i] == before_push[i]);
                    assert(t[j].id == id@);
                } else {
                    assert(t[i] == before_push[i] && t[j] == before_push[j]);
                }
            }
        }
        Ok(out)
    }
}

proof fn lemma_without_no_id(s: Seq<JobView>, id: Seq<char>, w: int)
    requires
        0 <= w < without_id(s, id).len(),
    ensures
        without_id(s, id)[w].id != id,
    decreases s.len(),
{
    if s.len() > 0 {
        let rest = without_id(s.drop_last(), id);
        if s.last().id == id {
            lemma_without_no_id(s.drop_last(), id, w);
        } else if w < rest.len() {
            lemma_without_no_id(s.drop_last(), id, w);
        }
    }
}

/// Once enough jobs have finished, a new job leaves the register with at
/// most `MAX_EXPORT_JOBS` jobs.
pub proof fn lemma_started_within_cap(s: Seq<JobView>, job: JobView)
    requires
        s.len() <= MAX_EXPORT_JOBS,
        finished_count(s) >= excess(s.len() as int),
    ensures
        started(s, job).len() <= MAX_EXPORT_JOBS,
{
    lemma_pruned_len(s, excess(s.len() as int));
    lemma_without_len(pruned(s, excess(s.len() as int)), job.id);
}

proof fn lemma_without_len(s: Seq<JobView>, id: Seq<char>)
    ensures
        without_id(s, id).len() <= s.len(),
    decreases s.len(),
{
    if s.len() > 0 {
        lemma_without_len(s.drop_last(), id);
    }
}

/// A started job is in the register, queued, and every active job that
/// was there stays there.
pub proof fn lemma_started_keeps_active(s: Seq<JobView>, job: JobView, j: JobView)
    requires
        s.contains(j),
        is_active(j),
        j.id != job.id,
    ensures
        started(s, job).contains(j),
        started(s, job).contains(job),
{
    lemma_pruned_keeps_active(s, excess(s.len() as int), j);
    lemma_without_keeps(pruned(s, excess(s.len() as int)), job.id, j);
    let t = without_id(pruned(s, excess(s.len() as int)), job.id);
    let w = choose|w: int| 0 <= w < t.len() && t[w] == j;
    assert(t.push(job)[w] == j);
    assert(t.push(job)[t.len() as int] == job);
}

proof fn lemma_without_keeps(s: Seq<JobView>, id: Seq<char>, j: JobView)
    requires
        s.contains(j),
        j.id != id,
    ensures
        without_id(s, id).contains(j),
    decreases s.len(),
{
    let rest = without_id(s.drop_last(), id);
    if s.last() == j {
        assert(rest.push(s.last())[rest.len() as int] == j);
    } else {
        let w = choose|w: int| 0 <= w < s.len() && s[w] == j;
        assert(w < s.len() - 1);
        assert(s.drop_last()[w] == j);
        lemma_without_keeps(s.drop_last(), id, j);
        if s.last().id != id {
            let v = choose|v: int| 0 <= v < rest.len() && rest[v] == j;
            assert(rest.push(s.last())[v] == j);
        }
    }
}

// ---------------------------------------------------------------------------
// Listing
// ---------------------------------------------------------------------------

/// Newest first: no job was created after one listed before it.
pub open spec fn newest_first(s: Seq<JobView>) -> bool {
    forall|i: int, j: int| 0 <= i < j < s.len() ==> !text_less((#[trigger] s[i]).created_at, (#[trigger] s[j]).created_at)
}

proof fn lemma_insert_sorted(s: Seq<JobView>, p: int, x: JobView)
    requires
        newest_first(s),
        0 <= p <= s.len(),
        forall|i: int| 0 <= i < p ==> !text_less((#[trigger] s[i]).created_at, x.created_at),
        p < s.len() ==> text_less(s[p].created_at, x.created_at),
    ensures
        newest_first(s.insert(p, x)),
{
    let t = s.insert(p, x);
    assert forall|i: int, j: int| 0 <= i < j < t.len() implies !text_less((#[trigger] t[i]).created_at, (#[trigger] t[j]).created_at) by {
        if i < p && j < p {
            assert(t[i] == s[i] && t[j] == s[j]);
        } else if i < p && j == p {
            assert(t[i] == s[i] && t[j] == x);
        } else if i < p {
            assert(t[i] == s[i] && t[j] == s[j - 1]);
        } else if i == p {
            assert(t[i] == x && t[j] == s[j - 1]);
            if text_less(x.created_at, s[j - 1].created_at) {
                lemma_text_less_transitive(s[p].created_at, x.created_at, s[j - 1].created_at);
                if p < j - 1 {
                    assert(!text_less(s[p].created_at, s[j - 1].created_at));
                } else {
                    lemma_text_less_irreflexive(s[p].created_at);
                }
            }
        } else {
            assert(t[i] == s[i - 1] && t[j] == s[j - 1]);
        }
    }
}

impl ExportJobs {
    /// Every job, newest first.
    pub fn list_export_jobs(&self) -> (r: Vec<ExportJob>)
        ensures
            newest_first(job_views(r@)),
            job_views(r@).to_multiset() == self.views().to_multiset(),
    {
        let mut out: Vec<ExportJob> = Vec::new();
        let mut i: usize = 0;
        assert(self.views().take(0) =~= Seq::<JobView>::empty());
        assert(job_views(out@) =~= Seq::<JobView>::empty());
        while i < self.jobs.len()
            invariant
                i <= self.jobs.len(),
                self.views().len() == self.jobs@.len(),
                newest_first(job_views(out@)),
                job_views(out@).to_multiset() == self.views().take(i as int).to_multiset(),
            decreases self.jobs.len() - i,
        {
            let x = &self.jobs[i];
            let mut p: usize = 0;
            while p < out.len() && !text_less_exec(out[p].created_at.as_str(), x.created_at.as_str())
                invariant
                    p <= out.len(),
                    forall|k: int| 0 <= k < p ==> !text_less((#[trigger] job_views(out@)[k]).created_at, job_view(*x).created_at),
                decreases out.len() - p,
            {
                assert(job_views(out@)[p as int] == job_view(out@[p as int]));
                p = p + 1;
            }
            if p < out.len() {
                assert(job_views(out@)[p as int] == job_view(out@[p as int]));
            }
            let y = copy_job(x);
            let ghost before = job_views(out@);
            proof {
                lemma_insert_sorted(before, p as int, job_view(y));
                vstd::seq_lib::to_multiset_insert(before, p as int, job_view(y));
                vstd::seq_lib::to_multiset_build(self.views().take(i as int), job_view(y));
            }
            out.insert(p, y);
            assert(job_views(out@) =~= before.insert(p as int, job_view(y)));
            assert(self.views().take(i + 1) =~= self.views().take(i as int).push(self.views()[i as int]));
            assert(self.views()[i as int] == job_view(self.jobs@[i as int]));
            i = i + 1;
        }
        assert(self.views().take(self.jobs.len() as int) =~= self.views());
        out
    }
}

/// Once an export is started, an equal request (same key) is answered with
/// a running job rather than a second export.
pub proof fn lemma_started_is_reused(s: Seq<JobView>, spec: TableExportSpec, id: Seq<char>, key: Seq<char>, created_at: Seq<char>)
    ensures
        reusable(started(s, new_job_view(spec, id, key, created_at)), key),
        path_taken(started(s, new_job_view(spec, id, key, created_at)), spec.file_path@),
{
    let job = new_job_view(spec, id, key, created_at);
    let t = started(s, job);
    let last = t.len() - 1;
    assert(t[last] == job);
    assert(job.output_paths[0] == spec.file_path@);
}

} // verus!
