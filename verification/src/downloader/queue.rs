//! The queue of posts that the workers of a run share.
//!
//! The queue is filled once, before the workers start. A worker takes the post at the end
//! of the queue and learns, for its display, how many posts wait and how many the run
//! started with. The caller guards the queue with a lock; each taking is one step.
use crate::downloader::page_status::StatusBar;
use crate::text::texts;
use vstd::prelude::*;

verus! {

/// A queue as mathematical values.
pub struct Queue {
    /// The identifiers that wait, the next to be taken last.
    pub items: Seq<Seq<char>>,
    /// How many identifiers the queue was filled with.
    pub total: nat,
}

pub struct WorkQueue {
    items: Vec<String>,
    total: usize,
}

impl View for WorkQueue {
    type V = Queue;

    closed spec fn view(&self) -> Queue {
        Queue { items: texts(self.items@), total: self.total as nat }
    }
}

/// `count` as the display takes it: itself, or the largest number that 32 bits hold.
pub open spec fn shown(count: nat) -> u32 {
    if count <= u32::MAX {
        count as u32
    } else {
        u32::MAX
    }
}

impl Queue {
    /// The queue after one taking.
    pub open spec fn taken(self) -> Queue {
        if self.items.len() > 0 {
            Queue { items: self.items.drop_last(), ..self }
        } else {
            self
        }
    }

    /// What one taking hands out.
    pub open spec fn handed(self) -> Option<Seq<char>> {
        if self.items.len() > 0 {
            Some(self.items.last())
        } else {
            None
        }
    }

    /// What is shown after one taking.
    pub open spec fn status(self) -> StatusBar {
        StatusBar { queues: shown(self.taken().items.len()), total: shown(self.total) }
    }
}

fn clamp(count: usize) -> (out: u32)
    ensures
        out == shown(count as nat),
{
    if count <= u32::MAX as usize {
        count as u32
    } else {
        u32::MAX
    }
}

impl WorkQueue {
    /// A queue filled with `ids`.
    pub fn new(ids: Vec<String>) -> (queue: Self)
        ensures
            queue@.items == texts(ids@),
            queue@.total == ids@.len(),
    {
        let total = ids.len();
        WorkQueue { items: ids, total }
    }

    /// How many identifiers wait.
    pub fn len(&self) -> (len: usize)
        ensures
            len == self@.items.len(),
    {
        self.items.len()
    }

    /// How many identifiers the queue was filled with.
    pub fn total(&self) -> (total: usize)
        ensures
            total == self@.total,
    {
        self.total
    }

    /// Takes the identifier at the end of the queue, if one waits, and tells what to show:
    /// the number that wait after the taking and the number that the run started with.
    pub fn pop(&mut self) -> (taken: (Option<String>, StatusBar))
        ensures
            final(self)@ == old(self)@.taken(),
            match old(self)@.handed() {
                Some(id) => taken.0 is Some && taken.0->0@ == id,
                None => taken.0 is None,
            },
            taken.1 == old(self)@.status(),
    {
        let id = self.items.pop();
        assert(texts(self.items@) =~= old(self)@.taken().items);
        let status = StatusBar { queues: clamp(self.items.len()), total: clamp(self.total) };
        (id, status)
    }
}

/// The places in a queue of `len` identifiers that the worker `worker` takes from, when
/// the takings are made in the order of `schedule`, each by the worker named there.
pub open spec fn share(len: nat, schedule: Seq<bool>, worker: bool) -> Seq<int>
    decreases schedule.len(),
{
    if schedule.len() == 0 || len == 0 {
        seq![]
    } else if schedule[0] == worker {
        seq![len - 1] + share((len - 1) as nat, schedule.drop_first(), worker)
    } else {
        share((len - 1) as nat, schedule.drop_first(), worker)
    }
}

/// The queue after `count` takings.
pub open spec fn taken_times(queue: Queue, count: nat) -> Queue
    decreases count,
{
    if count == 0 {
        queue
    } else {
        taken_times(queue.taken(), (count - 1) as nat)
    }
}

/// Each taking hands out the identifier at the end of the queue and shortens the queue by
/// it: after `count` takings the queue holds what it held, less its last `count`.
pub proof fn law_takings_shorten_the_queue(queue: Queue, count: nat)
    ensures
        taken_times(queue, count).total == queue.total,
        count <= queue.items.len() ==> taken_times(queue, count).items == queue.items.take(
            queue.items.len() - count,
        ),
        count >= queue.items.len() ==> taken_times(queue, count).items.len() == 0,
        count >= queue.items.len() ==> taken_times(queue, count).handed() is None,
    decreases count,
{
    if count == 0 {
        assert(queue.items.take(queue.items.len() as int) =~= queue.items);
    } else {
        law_takings_shorten_the_queue(queue.taken(), (count - 1) as nat);
        if count <= queue.items.len() {
            assert(queue.items.drop_last().take(queue.items.len() - count) =~= queue.items.take(
                queue.items.len() - count,
            ));
        }
    }
}

/// Every place that a worker takes from lies in the queue, and a worker takes from each
/// place later than from all the places after it.
pub proof fn lemma_share_descends(len: nat, schedule: Seq<bool>, worker: bool)
    ensures
        forall|i: int|
            0 <= i < share(len, schedule, worker).len() ==> 0 <= #[trigger] share(
                len,
                schedule,
                worker,
            )[i] < len,
        forall|i: int, j: int|
            0 <= i < j < share(len, schedule, worker).len() ==> share(len, schedule, worker)[i]
                > share(len, schedule, worker)[j],
    decreases schedule.len(),
{
    if schedule.len() == 0 || len == 0 {
    } else {
        let rest = share((len - 1) as nat, schedule.drop_first(), worker);
        let all = share(len, schedule, worker);
        lemma_share_descends((len - 1) as nat, schedule.drop_first(), worker);
        if schedule[0] == worker {
            assert(all == seq![len - 1] + rest);
            assert forall|i: int| 0 <= i < all.len() implies 0 <= #[trigger] all[i] < len by {
                if i > 0 {
                    assert(all[i] == rest[i - 1]);
                }
            }
            assert forall|i: int, j: int| 0 <= i < j < all.len() implies all[i] > all[j] by {
                assert(all[j] == rest[j - 1]);
                if i > 0 {
                    assert(all[i] == rest[i - 1]);
                }
            }
        } else {
            assert(all == rest);
        }
    }
}

/// Two workers that drain one queue never take the same identifier: however their takings
/// interleave, no place of the queue is handed to both or twice to one, and together they
/// take as many identifiers as takings were made while the queue held any.
pub proof fn law_workers_share_nothing(len: nat, schedule: Seq<bool>)
    ensures
        forall|i: int, j: int|
            0 <= i < share(len, schedule, true).len() && 0 <= j < share(
                len,
                schedule,
                false,
            ).len() ==> share(len, schedule, true)[i] != share(len, schedule, false)[j],
        forall|i: int, j: int|
            0 <= i < j < share(len, schedule, true).len() ==> share(len, schedule, true)[i]
                != share(len, schedule, true)[j],
        forall|i: int, j: int|
            0 <= i < j < share(len, schedule, false).len() ==> share(len, schedule, false)[i]
                != share(len, schedule, false)[j],
        share(len, schedule, true).len() + share(len, schedule, false).len() == (if schedule.len()
            <= len {
            schedule.len()
        } else {
            len
        }),
    decreases schedule.len(),
{
    lemma_share_descends(len, schedule, true);
    lemma_share_descends(len, schedule, false);
    if schedule.len() == 0 || len == 0 {
    } else {
        let one = share(len, schedule, true);
        let other = share(len, schedule, false);
        let rest_one = share((len - 1) as nat, schedule.drop_first(), true);
        let rest_other = share((len - 1) as nat, schedule.drop_first(), false);
        law_workers_share_nothing((len - 1) as nat, schedule.drop_first());
        lemma_share_descends((len - 1) as nat, schedule.drop_first(), true);
        lemma_share_descends((len - 1) as nat, schedule.drop_first(), false);
        if schedule[0] {
            assert(one == seq![len - 1] + rest_one);
            assert(other == rest_other);
            assert forall|i: int, j: int| 0 <= i < one.len() && 0 <= j < other.len() implies one[i]
                != other[j] by {
                if i > 0 {
                    assert(one[i] == rest_one[i - 1]);
                }
            }
        } else {
            assert(other == seq![len - 1] + rest_other);
            assert(one == rest_one);
            assert forall|i: int, j: int| 0 <= i < one.len() && 0 <= j < other.len() implies one[i]
                != other[j] by {
                if j > 0 {
                    assert(other[j] == rest_other[j - 1]);
                }
            }
        }
    }
}

} // verus!
