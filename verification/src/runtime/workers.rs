//! Background jobs: their queue, their errors, and where the assets they
//! cache are kept.

use vstd::prelude::*;
use crate::storage::workspace::{path_join, push_path};
use crate::utils::cryptography::hashing::{hash_str, spec_hash_str};
use crate::utils::path::{pop_path, unix_pop};
use crate::utils::text::{chars_of, string_from_chars, text_eq};
use crate::subsystems::events::{random_safe_id, url_safe_char};
use crossbeam_queue::ArrayQueue;

verus! {

/// The reason a background job failed.
pub struct JobError(String);

impl JobError {
    /// The reason, as text.
    pub closed spec fn reason(&self) -> Seq<char> {
        self.0@
    }

    /// A job error with the given reason.
    pub fn new(reason: String) -> (r: Self)
        ensures
            r.reason() == reason@,
    {
        JobError(reason)
    }
}

/// Where an asset of a workspace file is cached: the `.assets` directory
/// beside the file, under the hash of the asset's URL.
pub open spec fn spec_asset_cache_path(file_path: Seq<char>, url: Seq<char>) -> Seq<char> {
    path_join(path_join(unix_pop(file_path), ".assets"@), spec_hash_str(url))
}

/// The path an asset is cached at (see `spec_asset_cache_path`); `url` is
/// the asset's URL as text.
pub fn asset_cache_path(file_path: &str, url: &str) -> (r: String)
    ensures
        r@ == spec_asset_cache_path(file_path@, url@),
{
    let root = pop_path(&chars_of(file_path));
    let dir = push_path(&root, &chars_of(".assets"));
    let hash = hash_str(url);
    let full = push_path(&dir, &chars_of(hash.as_str()));
    string_from_chars(full.as_slice())
}

/// Whether an asset with this URL scheme is downloaded for caching: only
/// `http` and `https` are.
pub fn fetchable_scheme(scheme: &str) -> (r: bool)
    ensures
        r == (scheme@ == "http"@ || scheme@ == "https"@),
{
    text_eq(scheme, "http") || text_eq(scheme, "https")
}

/// What a background job does.
#[derive(Debug)]
pub enum JobKind {
    /// Walk a directory and build its file tree for a window, queueing
    /// pre-renders of the files found when the flag is set.
    BuildTree(String, u64, bool),
    /// Pre-render the Markdown file at a path for a window.
    PreRender(String, u64),
    /// Cache the asset at a URL for a file, for a window and a buffer.
    CacheAsset(String, String, u64, String),
}

/// A background job and its id.
#[derive(Debug)]
pub struct Job {
    pub kind: JobKind,
    pub id: String,
}

impl Job {
    /// A job with a fresh random 5-character id.
    pub fn new(kind: JobKind) -> (r: Job)
        ensures
            r.kind == kind,
            r.id@.len() == 5,
            forall|i: int| 0 <= i < 5 ==> url_safe_char(#[trigger] r.id@[i]),
    {
        Job { kind, id: random_safe_id(5) }
    }
}

/// The bounded lock-free queue of crossbeam.
#[verifier::external_type_specification]
#[verifier::external_body]
#[verifier::reject_recursive_types(T)]
pub struct ExArrayQueue<T>(ArrayQueue<T>);

/// The jobs a bounded queue holds, oldest first.
pub uninterp spec fn queued_jobs(q: ArrayQueue<Job>) -> Seq<Job>;

/// The capacity a bounded queue was made with.
pub uninterp spec fn queue_capacity(q: ArrayQueue<Job>) -> nat;

/// Trusted: `ArrayQueue::new`: an empty queue of the given capacity. It
/// panics on a capacity of 0 or one whose next power of two above it does
/// not fit in a `usize`.
#[verifier::external_body]
fn new_array_queue(cap: usize) -> (r: ArrayQueue<Job>)
    requires
        0 < cap < 0x8000_0000,
    ensures
        queued_jobs(r) == Seq::<Job>::empty(),
        queue_capacity(r) == cap,
{
    ArrayQueue::new(cap)
}

/// Trusted: `ArrayQueue::push_mut`: a job joins the back of the queue, or
/// is handed back when the queue already holds as many jobs as its
/// capacity.
#[verifier::external_body]
fn array_queue_push(q: &mut ArrayQueue<Job>, job: Job) -> (r: Result<(), Job>)
    ensures
        queue_capacity(*final(q)) == queue_capacity(*old(q)),
        match r {
            Ok(()) => queued_jobs(*old(q)).len() < queue_capacity(*old(q)) && queued_jobs(*final(q))
                == queued_jobs(*old(q)).push(job),
            Err(back) => queued_jobs(*old(q)).len() >= queue_capacity(*old(q)) && back == job
                && queued_jobs(*final(q)) == queued_jobs(*old(q)),
        },
{
    q.push_mut(job)
}

/// Trusted: `ArrayQueue::pop_mut`: the oldest job leaves the queue; `None`
/// when it is empty.
#[verifier::external_body]
fn array_queue_pop(q: &mut ArrayQueue<Job>) -> (r: Option<Job>)
    ensures
        queue_capacity(*final(q)) == queue_capacity(*old(q)),
        match r {
            None => queued_jobs(*old(q)).len() == 0 && queued_jobs(*final(q)) == queued_jobs(*old(q)),
            Some(job) => queued_jobs(*old(q)).len() > 0 && job == queued_jobs(*old(q))[0]
                && queued_jobs(*final(q)) == queued_jobs(*old(q)).drop_first(),
        },
{
    q.pop_mut()
}

/// The queue of jobs waiting for a worker, first in, first out, bounded by
/// its capacity.
#[derive(Debug)]
pub struct JobQueue {
    queue: ArrayQueue<Job>,
}

impl JobQueue {
    /// The jobs waiting, oldest first.
    pub closed spec fn jobs(&self) -> Seq<Job> {
        queued_jobs(self.queue)
    }

    /// How many jobs the queue can hold.
    pub closed spec fn capacity(&self) -> nat {
        queue_capacity(self.queue)
    }

    /// The queue never holds more jobs than its capacity.
    pub open spec fn inv(&self) -> bool {
        self.jobs().len() <= self.capacity()
    }

    /// An empty queue holding up to `capacity` jobs.
    pub fn new(capacity: usize) -> (r: Self)
        requires
            0 < capacity < 0x8000_0000,
        ensures
            r.inv(),
            r.jobs() == Seq::<Job>::empty(),
            r.capacity() == capacity,
    {
        JobQueue { queue: new_array_queue(capacity) }
    }

    /// Queues a job at the back; when the queue is full the job is handed
    /// back and nothing changes.
    pub fn push(&mut self, job: Job) -> (r: Result<(), Job>)
        requires
            old(self).inv(),
        ensures
            final(self).inv(),
            final(self).capacity() == old(self).capacity(),
            old(self).jobs().len() < old(self).capacity() ==> r is Ok && final(self).jobs() == old(
                self,
            ).jobs().push(job),
            old(self).jobs().len() == old(self).capacity() ==> r == Err::<(), Job>(job)
                && final(self).jobs() == old(self).jobs(),
    {
        array_queue_push(&mut self.queue, job)
    }

    /// Takes the oldest job; `None` when the queue is empty.
    pub fn pop(&mut self) -> (r: Option<Job>)
        requires
            old(self).inv(),
        ensures
            final(self).inv(),
            final(self).capacity() == old(self).capacity(),
            old(self).jobs().len() == 0 ==> r is None && final(self).jobs() == old(self).jobs(),
            old(self).jobs().len() > 0 ==> r == Some(old(self).jobs()[0]) && final(self).jobs() == old(
                self,
            ).jobs().drop_first(),
    {
        array_queue_pop(&mut self.queue)
    }

    /// Queues the jobs a finished job produced, in order (what a worker does
    /// after handling a job): those that fit are queued; once the queue is
    /// full the rest are refused, and the ids of the refused jobs are
    /// returned.
    pub fn enqueue_all(&mut self, jobs: Vec<Job>) -> (r: Vec<String>)
        requires
            old(self).inv(),
        ensures
            final(self).inv(),
            final(self).capacity() == old(self).capacity(),
            ({
                let room = (old(self).capacity() - old(self).jobs().len()) as nat;
                let taken = if jobs@.len() <= room {
                    jobs@.len()
                } else {
                    room
                };
                &&& final(self).jobs() == old(self).jobs() + jobs@.take(taken as int)
                &&& r@.len() == jobs@.len() - taken
                &&& forall|i: int| 0 <= i < r@.len() ==> #[trigger] r@[i]@ == jobs@[taken + i].id@
            }),
    {
        let ghost start = self.jobs();
        let ghost room = (self.capacity() - start.len()) as nat;
        let ghost all = jobs@;
        let n = jobs.len();
        let mut refused: Vec<String> = Vec::new();
        let mut rest = jobs;
        let mut i: usize = 0;
        while rest.len() > 0
            invariant
                self.inv(),
                self.capacity() == old(self).capacity(),
                start == old(self).jobs(),
                room == (self.capacity() - start.len()) as nat,
                all.len() == n,
                0 <= i <= n,
                rest@ == all.skip(i as int),
                i <= room ==> self.jobs() == start + all.take(i as int) && refused@.len() == 0,
                i > room ==> self.jobs() == start + all.take(room as int) && self.jobs().len()
                    == self.capacity() && refused@.len() == i - room,
                forall|k: int| 0 <= k < refused@.len() ==> #[trigger] refused@[k]@ == all[room + k].id@,
            decreases rest@.len(),
        {
            let job = rest.remove(0);
            assert(job == all[i as int]);
            match self.push(job) {
                Ok(()) => {
                    assert(self.jobs() =~= start + all.take(i + 1));
                },
                Err(back) => {
                    refused.push(back.id);
                },
            }
            i = i + 1;
            assert(rest@ =~= all.skip(i as int));
        }
        proof {
            assert(all.take(n as int) =~= all);
        }
        refused
    }

    /// Queues jobs that must all fit (what the runtime does with the jobs a
    /// window hands it).
    pub fn enqueue_every(&mut self, jobs: Vec<Job>)
        requires
            old(self).inv(),
            old(self).jobs().len() + jobs@.len() <= old(self).capacity(),
        ensures
            final(self).inv(),
            final(self).capacity() == old(self).capacity(),
            final(self).jobs() == old(self).jobs() + jobs@,
    {
        let _refused = self.enqueue_all(jobs);
        proof {
            assert(jobs@.take(jobs@.len() as int) =~= jobs@);
        }
    }
}

} // verus!
