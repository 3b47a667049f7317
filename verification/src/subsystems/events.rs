//! The queue of application events and their processing state.

use vstd::prelude::*;
use std::collections::VecDeque;

verus! {

/// The processing state of a queued task.
#[derive(Clone, Copy, Debug, PartialEq, Eq, Structural)]
pub enum TaskState {
    Pending,
    Processing,
    Complete,
}

/// A queued event with its id and processing state.
#[derive(Debug)]
pub struct Task<D> {
    pub id: String,
    pub state: TaskState,
    pub data: D,
}

impl<D> Task<D> {
    /// A pending task.
    pub fn new(id: String, data: D) -> (r: Self)
        ensures
            r.id == id,
            r.state == TaskState::Pending,
            r.data == data,
    {
        Self { id, state: TaskState::Pending, data }
    }
}

/// A character of nanoid's URL-safe alphabet.
pub open spec fn url_safe_char(c: char) -> bool {
    ('a' <= c && c <= 'z') || ('A' <= c && c <= 'Z') || ('0' <= c && c <= '9') || c == '_' || c == '-'
}

/// Trusted: `nanoid::format` with the default random source and the
/// URL-safe alphabet (what `nanoid!(size)` expands to): a random id of `size`
/// characters of that alphabet. It does not return for size 0 (it draws
/// no random bytes at all), so the size is at least 1.
#[verifier::external_body]
pub(crate) fn random_safe_id(size: usize) -> (r: String)
    requires
        1 <= size,
        8 * size <= usize::MAX,
    ensures
        r@.len() == size,
        forall|i: int| 0 <= i < size ==> url_safe_char(#[trigger] r@[i]),
{
    nanoid::format(nanoid::rngs::default, &nanoid::alphabet::SAFE, size)
}

/// The queues of events waiting to be processed and of processed responses,
/// each first in, first out.
#[derive(Debug)]
pub struct EventManager<D> {
    pub queue: VecDeque<Task<D>>,
    pub response_queue: VecDeque<Task<D>>,
}

impl<D> EventManager<D> {
    /// Empty queues.
    pub fn new() -> (r: Self)
        ensures
            r.queue@.len() == 0,
            r.response_queue@.len() == 0,
    {
        EventManager { queue: VecDeque::new(), response_queue: VecDeque::new() }
    }

    /// Queues an event as a pending task with a fresh 10-character id.
    pub fn emit(&mut self, message: D)
        ensures
            final(self).queue@.len() == old(self).queue@.len() + 1,
            final(self).queue@.take(old(self).queue@.len() as int) == old(self).queue@,
            final(self).queue@.last().state == TaskState::Pending,
            final(self).queue@.last().data == message,
            final(self).queue@.last().id@.len() == 10,
            forall|i: int| 0 <= i < 10 ==> url_safe_char(#[trigger] final(self).queue@.last().id@[i]),
            final(self).response_queue@ == old(self).response_queue@,
    {
        let job_id = random_safe_id(10);
        let job = Task::new(job_id, message);
        self.queue.push_back(job);
        assert(self.queue@.take(old(self).queue@.len() as int) =~= old(self).queue@);
    }

    /// Takes the oldest queued task, marked as processing; `None` when the
    /// queue is empty.
    pub fn poll(&mut self) -> (r: Option<Task<D>>)
        ensures
            final(self).response_queue@ == old(self).response_queue@,
            old(self).queue@.len() == 0 ==> r is None && final(self).queue@ == old(self).queue@,
            old(self).queue@.len() > 0 ==> {
                &&& r matches Some(t) && t.id == old(self).queue@[0].id && t.data
                    == old(self).queue@[0].data && t.state == TaskState::Processing
                &&& final(self).queue@ == old(self).queue@.drop_first()
            },
    {
        let task = self.queue.pop_front();
        match task {
            Some(mut t) => {
                t.state = TaskState::Processing;
                Some(t)
            },
            None => None,
        }
    }

    /// Takes the oldest processed response; `None` when there is none.
    pub fn poll_response(&mut self) -> (r: Option<Task<D>>)
        ensures
            final(self).queue@ == old(self).queue@,
            old(self).response_queue@.len() == 0 ==> r is None && final(self).response_queue@
                == old(self).response_queue@,
            old(self).response_queue@.len() > 0 ==> r == Some(old(self).response_queue@[0])
                && final(self).response_queue@ == old(self).response_queue@.drop_first(),
    {
        self.response_queue.pop_front()
    }
}

} // verus!
