//! What a run is given: the address, the number of workers, where to write, how often to
//! try again, and which files to take.
use crate::declare::RetryType;
use crate::declare::TaskType;
use crate::downloader::info::DownloaderInfo;
use crate::downloader::media::MediaFilter;
use crate::downloader::page_status::StatusBar;
use crate::downloader::queue::WorkQueue;
use crate::link::Link;
use crate::link::Page;
use crate::text::chars_of;
use crate::text::find_first;
use crate::text::find_last;
use crate::text::first_index_of;
use crate::text::last_segment;
use crate::text::slice_of;
use crate::text::string_of;
use vstd::prelude::*;

verus! {

pub struct Downloader {
    pub link: Link,
    pub task_limit: TaskType,
    pub outdir: String,
    pub retry: RetryType,
    /// Which files are taken; the others are recorded as passed over.
    pub filter: MediaFilter,
    /// Whether a line is logged for every file.
    pub verbose: bool,
}

/// What a worker does next.
pub enum WorkerAction {
    /// Download the post `pid`, showing `status` beside its files, and come back with its
    /// tally.
    Download { pid: String, status: StatusBar },
    /// Nothing: no post waits.
    Stop,
}

/// The directory that a run writes to where the user names none: the last segment of the
/// address, up to its query.
pub open spec fn outdir_of(url: Seq<char>) -> Seq<char> {
    last_segment(url, '/').take(first_index_of(last_segment(url, '/'), '?'))
}

/// The pages asked for where the user names the page `page`, counting from one, or none.
pub open spec fn pages_of(page: Option<u64>) -> Page {
    match page {
        None => Page::All,
        Some(number) => if number > 0 {
            Page::One((number - 1) as u64)
        } else {
            Page::One(0)
        },
    }
}

/// The tries after a failure where the user names `retry` of them, or none: then as many
/// as workers, as far as the counter holds them.
pub open spec fn tries_of(retry: Option<RetryType>, task_limit: TaskType) -> RetryType {
    match retry {
        Some(tries) => tries,
        None => if task_limit <= RetryType::MAX {
            task_limit as RetryType
        } else {
            RetryType::MAX
        },
    }
}

/// The directory that a run writes to where the user names none.
pub fn default_outdir(url: &str) -> (outdir: String)
    ensures
        outdir@ == outdir_of(url@),
{
    let chars = chars_of(url);
    let from: usize = match find_last(&chars, '/') {
        None => 0,
        Some(slash) => slash + 1,
    };
    let name = slice_of(&chars, from, chars.len());
    assert(chars@.skip(from as int) == chars@.subrange(from as int, chars.len() as int));
    let end = find_first(&name, '?');
    string_of(&slice_of(&name, 0, end))
}

/// The pages asked for where the user names the page `page`, counting from one, or none.
/// The page zero is taken for the first.
pub fn page_selector(page: Option<u64>) -> (pages: Page)
    ensures
        pages == pages_of(page),
{
    match page {
        None => Page::All,
        Some(number) => if number > 0 {
            Page::One(number - 1)
        } else {
            Page::One(0)
        },
    }
}

/// The tries after a failure where the user names `retry` of them, or none.
pub fn retry_budget(retry: Option<RetryType>, task_limit: TaskType) -> (tries: RetryType)
    ensures
        tries == tries_of(retry, task_limit),
{
    match retry {
        Some(tries) => tries,
        None => if task_limit <= RetryType::MAX as usize {
            task_limit as RetryType
        } else {
            RetryType::MAX
        },
    }
}

impl Downloader {
    /// One turn of a worker. Merges the tally of the post that the worker has finished, if
    /// any, into the tally of the run, and takes the next post from the queue; the worker
    /// stops where none waits. The caller holds the locks of queue and tally for the turn.
    pub fn all(
        &self,
        queue: &mut WorkQueue,
        info: &mut DownloaderInfo,
        finished: Option<&DownloaderInfo>,
    ) -> (action: WorkerAction)
        requires
            finished matches Some(tally) ==> old(info)@.merge(tally@).fits(),
        ensures
            final(info)@ == match finished {
                Some(tally) => old(info)@.merge(tally@),
                None => old(info)@,
            },
            final(queue)@ == old(queue)@.taken(),
            match old(queue)@.handed() {
                Some(id) => action matches WorkerAction::Download { pid, status } && pid@ == id
                    && status == old(queue)@.status(),
                None => action is Stop,
            },
    {
        if let Some(tally) = finished {
            info.integrate(tally);
        }
        match queue.pop() {
            (Some(pid), status) => WorkerAction::Download { pid, status },
            (None, _) => WorkerAction::Stop,
        }
    }

    /// A run that takes every file and logs no single file.
    pub fn new(link: Link, task_limit: TaskType, outdir: String, retry: RetryType) -> (downloader:
        Self)
        ensures
            downloader.link == link,
            downloader.task_limit == task_limit,
            downloader.outdir == outdir,
            downloader.retry == retry,
            downloader.filter == MediaFilter::Everything,
            !downloader.verbose,
    {
        Self { link, task_limit, outdir, retry, filter: MediaFilter::Everything, verbose: false }
    }
}

} // verus!
