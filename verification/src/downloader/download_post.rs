//! The files of one post, taken one after the other.
//!
//! A worker holds a [`PostJob`] for the post in hand. [`Downloader::download_post`] records
//! how the file in flight ended, passes over the files that the filter does not take, and
//! names the next file to transfer, until none is left. The tally of the job is then
//! merged into the tally of the run.
use crate::downloader::get_posts_from_page::Files;
use crate::downloader::get_posts_from_page::PostFiles;
use crate::downloader::index::Downloader;
use crate::downloader::info::DownloaderInfo;
use crate::downloader::info::Report;
use crate::downloader::media::named_kind;
use crate::downloader::media::passes_over;
use crate::downloader::media::MediaFilter;
use crate::downloader::transfer::TransferOutcome;
use crate::text::chars_of;
use crate::text::find_last;
use crate::text::last_segment;
use crate::text::push_text;
use crate::text::remove_all;
use crate::text::slice_of;
use crate::text::string_of;
use crate::text::texts;
use crate::text::without;
use vstd::prelude::*;

verus! {

/// What a job asks of its worker.
pub enum PostAction {
    /// Transfer the file at `url` to `destination` and report how it ended.
    Transfer { url: String, file_name: String, destination: String },
    /// Nothing: every file of the post is dealt with.
    Done,
}

/// A job as mathematical values.
pub struct Job {
    /// The addresses of the files, in the order taken.
    pub files: Seq<Seq<char>>,
    /// How many of the files are dealt with. Where a file is left, the file at this place
    /// is the one in flight.
    pub next: nat,
    /// The tally of the post so far.
    pub info: Report,
}

/// What a job asks of its worker, as mathematical values.
pub enum Asked {
    Transfer { url: Seq<char>, file_name: Seq<char>, destination: Seq<char> },
    Done,
}

/// The files of one post and what became of them so far.
pub struct PostJob {
    pub files: Vec<String>,
    pub next: usize,
    pub info: DownloaderInfo,
}

impl View for PostJob {
    type V = Job;

    open spec fn view(&self) -> Job {
        Job { files: texts(self.files@), next: self.next as nat, info: self.info@ }
    }
}

impl View for PostAction {
    type V = Asked;

    open spec fn view(&self) -> Asked {
        match self {
            PostAction::Transfer { url, file_name, destination } => Asked::Transfer {
                url: url@,
                file_name: file_name@,
                destination: destination@,
            },
            PostAction::Done => Asked::Done,
        }
    }
}

/// The part of an address that names the request namespace, left out of what is shown.
pub open spec fn namespace_part() -> Seq<char> {
    "api/v1/"@
}

/// The name under which the file at `url` is written: what follows the last `/`.
pub open spec fn file_name_of(url: Seq<char>) -> Seq<char> {
    last_segment(url, '/')
}

/// Where the file at `url` is written: under `outdir`, by its name.
pub open spec fn destination_of(outdir: Seq<char>, url: Seq<char>) -> Seq<char> {
    outdir + "/"@ + file_name_of(url)
}

/// The tally `info` with the end of the file at `url` recorded: a success counts one file
/// and its bytes, any other end lists the address.
pub open spec fn recorded(info: Report, url: Seq<char>, outcome: TransferOutcome) -> Report {
    match outcome {
        TransferOutcome::Success(bytes) => info.add_bytes(bytes as nat).add_files(1),
        TransferOutcome::Skipped => info.add_skipped(url),
        TransferOutcome::Failed => info.add_failed(url),
    }
}

impl Job {
    /// Whether a file is left.
    pub open spec fn pending(self) -> bool {
        self.next < self.files.len()
    }

    /// The job of a post whose document listed `files`: nothing is dealt with, and the
    /// entries that cannot be had are recorded as passed over.
    pub open spec fn of_files(files: Files) -> Job {
        Job {
            files: files.targets,
            next: 0,
            info: Report { skip_file: files.skipped, ..Report::empty() },
        }
    }

    /// The job of a post whose document could not be had: no file, and the address of the
    /// post, as the user knows it, recorded as failed.
    pub open spec fn of_failure(post_url: Seq<char>) -> Job {
        Job {
            files: seq![],
            next: 0,
            info: Report::empty().add_failed(remove_all(post_url, namespace_part())),
        }
    }

    /// The job after the end of the file in flight is recorded. Nothing changes where no
    /// end is reported or no file is left.
    pub open spec fn settled(self, finished: Option<TransferOutcome>) -> Job {
        match finished {
            Some(outcome) if self.pending() => Job {
                next: self.next + 1,
                info: recorded(self.info, self.files[self.next as int], outcome),
                ..self
            },
            _ => self,
        }
    }

    /// The job after the files that `filter` does not take are passed over, from the next
    /// file on up to the first that it takes.
    pub open spec fn filtered(self, filter: MediaFilter) -> Job
        decreases self.files.len() - self.next,
    {
        if self.pending() && passes_over(
            filter,
            named_kind(file_name_of(self.files[self.next as int])),
        ) {
            (Job {
                next: self.next + 1,
                info: self.info.add_skipped(self.files[self.next as int]),
                ..self
            }).filtered(filter)
        } else {
            self
        }
    }

    /// What the job asks for: the transfer of the next file, or nothing where none is left.
    pub open spec fn asked(self, outdir: Seq<char>) -> Asked {
        if self.pending() {
            Asked::Transfer {
                url: self.files[self.next as int],
                file_name: file_name_of(self.files[self.next as int]),
                destination: destination_of(outdir, self.files[self.next as int]),
            }
        } else {
            Asked::Done
        }
    }
}

impl PostJob {
    /// The job of a post whose document listed `files`.
    pub fn new(files: PostFiles) -> (job: Self)
        ensures
            job@ == Job::of_files(files@),
    {
        let mut info = DownloaderInfo::new();
        let PostFiles { targets, skipped } = files;
        let mut i: usize = 0;
        assert(skipped@.take(0) =~= Seq::<String>::empty());
        assert(texts(skipped@.take(0)) =~= Seq::<Seq<char>>::empty());
        while i < skipped.len()
            invariant
                i <= skipped.len(),
                info@ == (Report { skip_file: texts(skipped@.take(i as int)), ..Report::empty() }),
            decreases skipped.len() - i,
        {
            info.add_skip_file(skipped[i].clone());
            assert(texts(skipped@.take(i + 1)) =~= texts(skipped@.take(i as int)).push(
                skipped@[i as int]@,
            ));
            i = i + 1;
        }
        assert(skipped@.take(skipped.len() as int) == skipped@);
        PostJob { files: targets, next: 0, info }
    }

    /// The job of a post whose document could not be had.
    pub fn failed(post_url: &str) -> (job: Self)
        ensures
            job@ == Job::of_failure(post_url@),
    {
        let mut info = DownloaderInfo::new();
        let shown = without(&chars_of(post_url), &chars_of("api/v1/"));
        info.add_failed_file(string_of(&shown));
        let files: Vec<String> = Vec::new();
        assert(texts(files@) =~= seq![]);
        PostJob { files, next: 0, info }
    }

    /// The tally of the post.
    pub fn into_info(self) -> (info: DownloaderInfo)
        ensures
            info@ == self@.info,
    {
        self.info
    }
}

/// The name under which the file at `url` is written.
pub fn file_name(url: &str) -> (name: String)
    ensures
        name@ == file_name_of(url@),
{
    let chars = chars_of(url);
    let from: usize = match find_last(&chars, '/') {
        None => 0,
        Some(slash) => slash + 1,
    };
    let tail = slice_of(&chars, from, chars.len());
    assert(chars@.skip(from as int) == chars@.subrange(from as int, chars.len() as int));
    string_of(&tail)
}

impl Downloader {
    /// Where the file at `url` is written.
    pub fn destination(&self, url: &str) -> (path: String)
        ensures
            path@ == destination_of(self.outdir@, url@),
    {
        let mut chars = chars_of(self.outdir.as_str());
        push_text(&mut chars, "/");
        push_text(&mut chars, file_name(url).as_str());
        string_of(&chars)
    }

    /// One step through the files of a post. Records `finished` as the end of the file in
    /// flight, records as passed over every following file that the filter does not take,
    /// and asks for the transfer of the first that it takes; where none is left, the job is
    /// done. Without an end to record, the step asks again for what is in flight.
    pub fn download_post(&self, job: &mut PostJob, finished: Option<TransferOutcome>) -> (action:
        PostAction)
        requires
            finished matches Some(TransferOutcome::Success(bytes)) ==> old(job)@.info.add_bytes(
                bytes as nat,
            ).add_files(1).fits(),
        ensures
            final(job)@ == old(job)@.settled(finished).filtered(self.filter),
            action@ == final(job)@.asked(self.outdir@),
    {
        if job.next < job.files.len() {
            match finished {
                Some(TransferOutcome::Success(bytes)) => {
                    job.info.add_file_size(bytes);
                    job.info.add_success_file(1);
                    job.next = job.next + 1;
                },
                Some(TransferOutcome::Skipped) => {
                    job.info.add_skip_file(job.files[job.next].clone());
                    job.next = job.next + 1;
                },
                Some(TransferOutcome::Failed) => {
                    job.info.add_failed_file(job.files[job.next].clone());
                    job.next = job.next + 1;
                },
                None => {},
            }
        }
        let ghost settled = job@;
        assert(settled == old(job)@.settled(finished));
        while job.next < job.files.len()
            invariant
                job.files == old(job).files,
                job@.filtered(self.filter) == settled.filtered(self.filter),
            ensures
                job.files == old(job).files,
                job@ == settled.filtered(self.filter),
            decreases job.files.len() - job.next,
        {
            let name = file_name(job.files[job.next].as_str());
            if !self.filter.skips(name.as_str()) {
                break ;
            }
            job.info.add_skip_file(job.files[job.next].clone());
            job.next = job.next + 1;
        }
        if job.next < job.files.len() {
            let url = job.files[job.next].clone();
            let file_name = file_name(url.as_str());
            let destination = self.destination(url.as_str());
            PostAction::Transfer { url, file_name, destination }
        } else {
            PostAction::Done
        }
    }
}

/// Every file of a post is dealt with exactly once: a step never goes back, and what it
/// adds to the tally is one entry or one counted file for each file that it moves past.
pub proof fn law_each_file_is_recorded_once(
    job: Job,
    finished: Option<TransferOutcome>,
    filter: MediaFilter,
)
    requires
        job.next <= job.files.len(),
    ensures
        job.next <= job.settled(finished).filtered(filter).next <= job.files.len(),
        job.settled(finished).filtered(filter).files == job.files,
        job.settled(finished).filtered(filter).info.success_file
            + job.settled(finished).filtered(filter).info.skip_file.len() + job.settled(
            finished,
        ).filtered(filter).info.failed_file.len() == job.info.success_file
            + job.info.skip_file.len() + job.info.failed_file.len() + (job.settled(
            finished,
        ).filtered(filter).next - job.next),
{
    lemma_filtered_counts(job.settled(finished), filter);
}

/// Passing over files lists each of them once and changes nothing else.
pub proof fn lemma_filtered_counts(job: Job, filter: MediaFilter)
    requires
        job.next <= job.files.len(),
    ensures
        job.next <= job.filtered(filter).next <= job.files.len(),
        job.filtered(filter).files == job.files,
        job.filtered(filter).info.file_size == job.info.file_size,
        job.filtered(filter).info.success_file == job.info.success_file,
        job.filtered(filter).info.failed_file == job.info.failed_file,
        job.filtered(filter).info.skip_file.len() == job.info.skip_file.len() + (job.filtered(
            filter,
        ).next - job.next),
        job.filtered(filter).pending() ==> !passes_over(
            filter,
            named_kind(file_name_of(job.files[job.filtered(filter).next as int])),
        ),
    decreases job.files.len() - job.next,
{
    if job.pending() && passes_over(filter, named_kind(file_name_of(job.files[job.next as int]))) {
        lemma_filtered_counts(
            Job { next: job.next + 1, info: job.info.add_skipped(job.files[job.next as int]), ..job },
            filter,
        );
    }
}

/// A file whose name has no extension is never transferred while a filter is set: the
/// step records it as passed over and moves on.
pub proof fn law_unnamed_kind_is_passed_over(job: Job, filter: MediaFilter)
    requires
        job.pending(),
        !(filter is Everything),
        crate::downloader::media::extension(file_name_of(job.files[job.next as int])) is None,
    ensures
        job.filtered(filter).next > job.next,
        job.filtered(filter).info.skip_file.len() > job.info.skip_file.len(),
        job.filtered(filter) == (Job {
            next: job.next + 1,
            info: job.info.add_skipped(job.files[job.next as int]),
            ..job
        }).filtered(filter),
{
    lemma_filtered_counts(
        Job { next: job.next + 1, info: job.info.add_skipped(job.files[job.next as int]), ..job },
        filter,
    );
}

} // verus!
