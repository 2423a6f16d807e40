use crate::json::Json;
use crate::text::decimal;
use vstd::prelude::*;

verus! {

/// Where a job stands in its queue.
#[derive(Clone, Copy, Debug, PartialEq, Eq, Hash, Structural)]
pub enum JobStatus {
    Waiting,
    Active,
    Completed,
    Failed,
    Delayed,
    Paused,
}

impl JobStatus {
    /// The name of the list of the queue that holds the jobs of a status.
    pub fn list_name(&self) -> (r: &'static str)
        ensures
            r@ == match *self {
                JobStatus::Waiting => "wait"@,
                JobStatus::Active => "active"@,
                JobStatus::Completed => "completed"@,
                JobStatus::Failed => "failed"@,
                JobStatus::Delayed => "delayed"@,
                JobStatus::Paused => "paused"@,
            },
    {
        match self {
            JobStatus::Waiting => "wait",
            JobStatus::Active => "active",
            JobStatus::Completed => "completed",
            JobStatus::Failed => "failed",
            JobStatus::Delayed => "delayed",
            JobStatus::Paused => "paused",
        }
    }
}

/// How long a job waits before it is tried again.
#[derive(Clone, Copy, Debug, PartialEq, Eq, Structural)]
pub enum BackoffOptions {
    Fixed { delay: u64 },
    Exponential { delay: u64 },
}

/// How a job is to be run.
#[derive(Clone, Copy, Debug, PartialEq, Eq, Structural)]
pub struct JobOptions {
    pub attempts: u32,
    pub backoff: Option<BackoffOptions>,
    pub delay: u64,
    pub remove_on_complete: bool,
    pub remove_on_fail: bool,
    pub priority: u32,
}

impl Default for JobOptions {
    fn default() -> (o: JobOptions)
        ensures
            o == (JobOptions {
                attempts: 0,
                backoff: None,
                delay: 0,
                remove_on_complete: false,
                remove_on_fail: false,
                priority: 0,
            }),
    {
        JobOptions {
            attempts: 0,
            backoff: None,
            delay: 0,
            remove_on_complete: false,
            remove_on_fail: false,
            priority: 0,
        }
    }
}

/// A job of a queue.
#[derive(Debug, PartialEq)]
pub struct Job {
    pub id: String,
    pub name: String,
    pub data: Json,
    pub opts: JobOptions,
    pub progress: u8,
    pub delay: u64,
    pub timestamp: i64,
    pub attempts_made: u32,
    pub stacktrace: Vec<String>,
    pub return_value: Option<Json>,
    pub finished_on: Option<i64>,
    pub processed_on: Option<i64>,
}

/// What can go wrong with a queue of jobs.
#[derive(Debug, PartialEq)]
pub enum JobError {
    Redis(String),
    Serialization(String),
    NotFound(String),
}

/// The key under which a queue keeps something: `bull`, the name of the
/// queue and a suffix, with a colon between two of them.
pub fn queue_key(queue_name: &str, suffix: &str) -> (r: String)
    ensures
        r@ == "bull:"@ + queue_name@ + ":"@ + suffix@,
{
    let head = crate::text::concat("bull:", queue_name);
    crate::text::concat3(head.as_str(), ":", suffix)
}

/// The job that is added to a queue at the millisecond `timestamp` under
/// the identifier `id`: nothing of it is done yet.
pub fn new_job(id: String, name: String, data: Json, opts: JobOptions, timestamp: i64) -> (job: Job)
    ensures
        job.id@ == id@,
        job.name@ == name@,
        job.data@ == data@,
        job.opts == opts,
        job.progress == 0,
        job.delay == opts.delay,
        job.timestamp == timestamp,
        job.attempts_made == 0,
        job.stacktrace@ == Seq::<String>::empty(),
        job.return_value.is_none(),
        job.finished_on.is_none(),
        job.processed_on.is_none(),
{
    Job {
        id,
        name,
        data,
        opts,
        progress: 0,
        delay: opts.delay,
        timestamp,
        attempts_made: 0,
        stacktrace: Vec::new(),
        return_value: None,
        finished_on: None,
        processed_on: None,
    }
}

/// When a job that is delayed becomes due, in milliseconds; `None` for a
/// job that is due at once.
pub fn due_at(timestamp: i64, opts: &JobOptions) -> (r: Option<i64>)
    ensures
        opts.delay == 0 ==> r.is_none(),
        opts.delay > 0 ==> r == Some(
            if timestamp + opts.delay > i64::MAX {
                i64::MAX
            } else {
                (timestamp + opts.delay) as i64
            },
        ),
{
    if opts.delay == 0 {
        None
    } else {
        let due: i128 = timestamp as i128 + opts.delay as i128;
        if due > i64::MAX as i128 {
            Some(i64::MAX)
        } else {
            Some(due as i64)
        }
    }
}

/// A queue of jobs that lives in memory, for a daemon on its own.
pub struct MemoryJobQueue {
    jobs: Vec<Job>,
    next_id: u64,
    queue_name: String,
}

/// The last job of a list that has the identifier `id`: the job that is
/// kept under it.
pub open spec fn job_named(jobs: Seq<Job>, id: Seq<char>) -> Option<Job>
    decreases jobs.len(),
{
    if jobs.len() == 0 {
        None
    } else if jobs.last().id@ == id {
        Some(jobs.last())
    } else {
        job_named(jobs.drop_last(), id)
    }
}

/// The jobs that are kept under the identifiers of a part of the list of
/// the jobs that wait, in their order.
pub open spec fn jobs_waiting(jobs: Seq<Job>, part: Seq<Job>) -> Seq<Job>
    decreases part.len(),
{
    if part.len() == 0 {
        Seq::empty()
    } else {
        match job_named(jobs, part.last().id@) {
            Some(job) => jobs_waiting(jobs, part.drop_last()).push(job),
            None => jobs_waiting(jobs, part.drop_last()),
        }
    }
}

/// The jobs behind a list of borrowed jobs.
pub open spec fn jobs_of(found: Seq<&Job>) -> Seq<Job> {
    Seq::new(found.len(), |i: int| *found[i])
}

/// How many jobs there are by status.
#[derive(Clone, Copy, Debug, PartialEq, Eq, Structural)]
pub struct JobCounts {
    pub waiting: usize,
    pub active: usize,
    pub completed: usize,
    pub failed: usize,
}

impl MemoryJobQueue {
    /// The jobs that were added, in their order.
    pub closed spec fn jobs(&self) -> Seq<Job> {
        self.jobs@
    }

    /// The number under which the next job is kept.
    pub closed spec fn next_id(&self) -> u64 {
        self.next_id
    }

    /// The name of the queue.
    pub closed spec fn name(&self) -> Seq<char> {
        self.queue_name@
    }

    /// A queue without jobs, whose first job is kept under `1`.
    pub fn new(queue_name: &str) -> (q: MemoryJobQueue)
        ensures
            q.jobs() == Seq::<Job>::empty(),
            q.next_id() == 1,
            q.name() == queue_name@,
    {
        MemoryJobQueue { jobs: Vec::new(), next_id: 1, queue_name: queue_name.to_owned() }
    }

    /// Adds a job at the millisecond `timestamp`, to wait behind the jobs
    /// that wait, and returns the identifier under which it is kept: the
    /// next number, in decimal digits.  The job starts without a delay,
    /// whatever its options say.
    pub fn add_at(&mut self, name: &str, data: Json, opts: Option<JobOptions>, timestamp: i64) -> (id:
        String)
        ensures
            id@ == decimal(old(self).next_id() as nat),
            final(self).name() == old(self).name(),
            final(self).next_id() == if old(self).next_id() == u64::MAX {
                0u64
            } else {
                (old(self).next_id() + 1) as u64
            },
            final(self).jobs().len() == old(self).jobs().len() + 1,
            final(self).jobs().drop_last() == old(self).jobs(),
            ({
                let job = final(self).jobs().last();
                &&& job.id@ == id@
                &&& job.name@ == name@
                &&& job.data@ == data@
                &&& job.opts == (match opts {
                    Some(o) => o,
                    None => (JobOptions {
                        attempts: 0,
                        backoff: None,
                        delay: 0,
                        remove_on_complete: false,
                        remove_on_fail: false,
                        priority: 0,
                    }),
                })
                &&& job.progress == 0
                &&& job.delay == 0
                &&& job.timestamp == timestamp
                &&& job.attempts_made == 0
                &&& job.stacktrace@ == Seq::<String>::empty()
                &&& job.return_value.is_none()
                &&& job.finished_on.is_none()
                &&& job.processed_on.is_none()
            }),
    {
        let opts = match opts {
            Some(o) => o,
            None => JobOptions::default(),
        };
        let id = crate::text::u64_to_string(self.next_id);
        self.next_id = if self.next_id == u64::MAX {
            0
        } else {
            self.next_id + 1
        };
        let ghost before = self.jobs@;
        let mut job = new_job(id.clone(), name.to_owned(), data, opts, timestamp);
        job.delay = 0;
        self.jobs.push(job);
        assert(self.jobs@.drop_last() =~= before);
        id
    }

    /// Adds a job now.
    pub fn add(&mut self, name: &str, data: Json, opts: Option<JobOptions>) -> (id: String)
        ensures
            id@ == decimal(old(self).next_id() as nat),
            final(self).jobs().len() == old(self).jobs().len() + 1,
            final(self).jobs().drop_last() == old(self).jobs(),
            final(self).jobs().last().id@ == id@,
            final(self).jobs().last().name@ == name@,
            final(self).jobs().last().data@ == data@,
    {
        let now = crate::clock::now();
        let millis = crate::clock::Timestamp::from_parts(0, 0).millis_until(&now);
        self.add_at(name, data, opts, millis)
    }

    /// The job that is kept under an identifier.
    pub fn get_job(&self, id: &str) -> (r: Option<&Job>)
        ensures
            match r {
                Some(job) => job_named(self.jobs(), id@) == Some(*job),
                None => job_named(self.jobs(), id@).is_none(),
            },
    {
        let mut i: usize = self.jobs.len();
        assert(self.jobs@.take(i as int) =~= self.jobs@);
        while i > 0
            invariant
                i <= self.jobs.len(),
                job_named(self.jobs@, id@) == job_named(self.jobs@.take(i as int), id@),
            decreases i,
        {
            proof {
                let part = self.jobs@.take(i as int);
                assert(part.last() == self.jobs@[i - 1]);
                assert(part.drop_last() =~= self.jobs@.take(i - 1));
            }
            if crate::text::same_text(self.jobs[i - 1].id.as_str(), id) {
                return Some(&self.jobs[i - 1]);
            }
            i = i - 1;
        }
        None
    }

    /// The jobs that wait at the places from `start` to `end`, both
    /// included, whatever the status that is asked for: every job waits.
    pub fn get_jobs(&self, status: JobStatus, start: usize, end: usize) -> (r: Vec<&Job>)
        requires
            start <= end,
            end - start < usize::MAX,
        ensures
            jobs_of(r@) == jobs_waiting(
                self.jobs(),
                self.jobs().subrange(
                    if start <= self.jobs().len() {
                        start as int
                    } else {
                        self.jobs().len() as int
                    },
                    if end < self.jobs().len() {
                        end + 1
                    } else {
                        self.jobs().len() as int
                    },
                ),
            ),
    {
        let len = self.jobs.len();
        let from = if start <= len {
            start
        } else {
            len
        };
        let to = if end < len {
            end + 1
        } else {
            len
        };
        let ghost part = self.jobs@.subrange(from as int, to as int);
        let mut r: Vec<&Job> = Vec::new();
        let mut i: usize = from;
        assert(part.take(0) =~= Seq::empty());
        assert(jobs_of(r@) =~= Seq::empty());
        while i < to
            invariant
                from <= i <= to <= self.jobs.len(),
                part == self.jobs@.subrange(from as int, to as int),
                jobs_of(r@) == jobs_waiting(self.jobs@, part.take(i - from)),
            decreases to - i,
        {
            proof {
                let next = part.take(i - from + 1);
                assert(next.drop_last() =~= part.take(i - from));
                assert(next.last() == self.jobs@[i as int]);
            }
            let ghost before = jobs_of(r@);
            if let Some(job) = self.get_job(self.jobs[i].id.as_str()) {
                r.push(job);
                assert(jobs_of(r@) =~= before.push(*job));
            }
            i = i + 1;
        }
        assert(part.take(to - from) =~= part);
        r
    }

    /// How many jobs there are by status: all of them wait.
    pub fn get_counts(&self) -> (r: JobCounts)
        ensures
            r == (JobCounts { waiting: self.jobs().len() as usize, active: 0, completed: 0, failed: 0 }),
    {
        JobCounts { waiting: self.jobs.len(), active: 0, completed: 0, failed: 0 }
    }
}

} // verus!
