//! What a run shows: the line beside a file in progress and the report at its end.
//!
//! The texts are built here; colours, bars and the terminal are the caller's.
use crate::declare::ERROR_REQUEST_DELAY_SEC;
use crate::declare::TOO_MANY_REQUESTS_DELAY_SEC;
use crate::downloader::index::Downloader;
use crate::downloader::info::DownloaderInfo;
use crate::downloader::info::Report;
use crate::downloader::transfer::Pause;
use crate::downloader::transfer::Phase;
use crate::downloader::transfer::TransferState;
use crate::text::chars_of;
use crate::text::decimal;
use crate::text::push_chars;
use crate::text::push_decimal;
use crate::text::push_text;
use crate::text::remove_all;
use crate::text::string_of;
use crate::text::texts;
use crate::text::without;
use vstd::prelude::*;

verus! {

/// The display of one file in progress. Each method shows the line of its name for the
/// file `fname` of a post, with the posts that the run started with and those that wait.
pub trait ProgressDisplay {
    fn download(&self, total: u32, queues: u32, download_counter_print: &str, fname: &str);

    fn retry_with_wait(&self, total: u32, queues: u32, fname: &str, download_counter: u64);

    fn wait(&self, total: u32, queues: u32, fname: &str);

    fn finish_with_clear(&self, total: u32, queues: u32, fname: &str);

    fn reconnect(&self, total: u32, queues: u32, download_counter_print: &str, fname: &str);

    fn failed(&self, total: u32, queues: u32, fname: &str);

    fn was_done(&self, total: u32, queues: u32, fname: &str);
}

/// The lines that a display shows.
#[derive(Clone, Copy, PartialEq, Eq, Structural, Debug)]
pub enum StatusLine {
    Download,
    RetryWithWait,
    Wait,
    FinishWithClear,
    Reconnect,
    Failed,
    WasDone,
}

/// What the `size` crate writes for a size of `bytes` bytes.
pub uninterp spec fn size_text(bytes: u64) -> Seq<char>;

/// `size::Size::from_bytes` and the `Display` of `size::Size`: the size in the largest
/// binary unit that it fills, as a text. A given number is always written alike.
#[verifier::external_body]
fn human_size(bytes: u64) -> (text: String)
    ensures
        text@ == size_text(bytes),
{
    size::Size::from_bytes(bytes).to_string()
}

/// The start of every line: the posts that the run started with and those that wait.
pub open spec fn line_start(total: u32, queues: u32) -> Seq<char> {
    "["@ + decimal(total as nat) + "/"@ + decimal(queues as nat) + "] "@
}

/// How the try in hand is shown: nothing for the first, its number in brackets from the
/// second on.
pub open spec fn counter_text(download_counter: u64) -> Seq<char> {
    if download_counter > 1 {
        "["@ + decimal(download_counter as nat) + "]"@
    } else {
        seq![]
    }
}

/// The text of the line `line` for the file `fname`, on the try `download_counter`.
pub open spec fn line_text(
    line: StatusLine,
    total: u32,
    queues: u32,
    fname: Seq<char>,
    download_counter: u64,
) -> Seq<char> {
    match line {
        StatusLine::Download => line_start(total, queues) + counter_text(download_counter) + fname
            + " downloading..."@,
        StatusLine::RetryWithWait => line_start(total, queues) + fname + " retry["@ + decimal(
            download_counter as nat,
        ) + "] wait "@ + decimal(ERROR_REQUEST_DELAY_SEC as nat) + " secs."@,
        StatusLine::Wait => line_start(total, queues) + fname + " wait "@ + decimal(
            TOO_MANY_REQUESTS_DELAY_SEC as nat,
        ) + " secs."@,
        StatusLine::FinishWithClear => line_start(total, queues) + fname + " success"@,
        StatusLine::Reconnect => line_start(total, queues) + counter_text(download_counter) + fname
            + " Reconnect..."@,
        StatusLine::Failed => line_start(total, queues) + fname + " Failed"@,
        StatusLine::WasDone => line_start(total, queues) + fname + " was done..."@,
    }
}

/// The line that belongs to the state of a transfer.
pub open spec fn line_of(state: TransferState) -> StatusLine {
    match state.phase {
        Phase::Paused(Pause::RateLimited) => StatusLine::Wait,
        Phase::Paused(Pause::Refused) => StatusLine::RetryWithWait,
        Phase::Paused(_) => StatusLine::Reconnect,
        Phase::Done => if state.total_bytes == Some(state.downloaded) && state.declared == 0 {
            StatusLine::WasDone
        } else {
            StatusLine::FinishWithClear
        },
        Phase::Failed(_) => StatusLine::Failed,
        _ => StatusLine::Download,
    }
}

/// The lines of the report: one for each file that failed, one for each passed over, then
/// where the files went, the bytes transferred, and the three counts.
pub open spec fn report_text(info: Report, outdir: Seq<char>) -> Seq<Seq<char>> {
    Seq::new(info.failed_file.len(), |i: int| " Failed\t"@ + shown_address(info.failed_file[i]))
        + Seq::new(info.skip_file.len(), |i: int| " Skip\t"@ + shown_address(info.skip_file[i]))
        + seq![
        "Download success  to "@ + outdir + " folder."@,
        "Total size: "@ + size_text(info.file_size as u64),
        "success files: "@ + decimal(info.success_file),
        "Skipped files: "@ + decimal(info.skip_file.len()),
        "Failed files: "@ + decimal(info.failed_file.len()),
    ]
}

/// An address as the user knows it: without the request namespace.
pub open spec fn shown_address(address: Seq<char>) -> Seq<char> {
    remove_all(address, "api/v1/"@)
}

fn push_counter(out: &mut Vec<char>, download_counter: u64)
    ensures
        final(out)@ == old(out)@ + counter_text(download_counter),
{
    if download_counter > 1 {
        push_text(out, "[");
        push_decimal(out, download_counter as u128);
        push_text(out, "]");
        assert(out@ =~= old(out)@ + counter_text(download_counter));
    } else {
        assert(out@ =~= old(out)@ + counter_text(download_counter));
    }
}

/// The line that belongs to the state of a transfer.
pub fn status_line(state: &TransferState) -> (line: StatusLine)
    ensures
        line == line_of(*state),
{
    match state.phase {
        Phase::Paused(Pause::RateLimited) => StatusLine::Wait,
        Phase::Paused(Pause::Refused) => StatusLine::RetryWithWait,
        Phase::Paused(_) => StatusLine::Reconnect,
        Phase::Done => {
            let complete = match state.total_bytes {
                Some(total) => total == state.downloaded,
                None => false,
            };
            if complete && state.declared == 0 {
                StatusLine::WasDone
            } else {
                StatusLine::FinishWithClear
            }
        },
        Phase::Failed(_) => StatusLine::Failed,
        _ => StatusLine::Download,
    }
}

/// The text of the line `line` for the file `fname`, on the try `download_counter`.
pub fn status_message(
    line: StatusLine,
    total: u32,
    queues: u32,
    fname: &str,
    download_counter: u64,
) -> (message: String)
    ensures
        message@ == line_text(line, total, queues, fname@, download_counter),
{
    let mut out: Vec<char> = Vec::new();
    push_text(&mut out, "[");
    push_decimal(&mut out, total as u128);
    push_text(&mut out, "/");
    push_decimal(&mut out, queues as u128);
    push_text(&mut out, "] ");
    assert(out@ =~= line_start(total, queues));
    match line {
        StatusLine::Download => {
            push_counter(&mut out, download_counter);
            push_text(&mut out, fname);
            push_text(&mut out, " downloading...");
        },
        StatusLine::RetryWithWait => {
            push_text(&mut out, fname);
            push_text(&mut out, " retry[");
            push_decimal(&mut out, download_counter as u128);
            push_text(&mut out, "] wait ");
            push_decimal(&mut out, ERROR_REQUEST_DELAY_SEC as u128);
            push_text(&mut out, " secs.");
        },
        StatusLine::Wait => {
            push_text(&mut out, fname);
            push_text(&mut out, " wait ");
            push_decimal(&mut out, TOO_MANY_REQUESTS_DELAY_SEC as u128);
            push_text(&mut out, " secs.");
        },
        StatusLine::FinishWithClear => {
            push_text(&mut out, fname);
            push_text(&mut out, " success");
        },
        StatusLine::Reconnect => {
            push_counter(&mut out, download_counter);
            push_text(&mut out, fname);
            push_text(&mut out, " Reconnect...");
        },
        StatusLine::Failed => {
            push_text(&mut out, fname);
            push_text(&mut out, " Failed");
        },
        StatusLine::WasDone => {
            push_text(&mut out, fname);
            push_text(&mut out, " was done...");
        },
    }
    string_of(&out)
}

/// One line for each address of `list`: `label`, then the address as the user knows it.
fn push_entries(lines: &mut Vec<String>, label: &str, list: &Vec<String>)
    ensures
        texts(final(lines)@) == texts(old(lines)@) + Seq::new(
            list@.len(),
            |i: int| label@ + shown_address(list@[i]@),
        ),
{
    let ghost wanted = Seq::new(list@.len(), |i: int| label@ + shown_address(list@[i]@));
    let namespace = chars_of("api/v1/");
    let mut i: usize = 0;
    assert(texts(lines@) =~= texts(old(lines)@) + wanted.take(0));
    while i < list.len()
        invariant
            i <= list.len(),
            namespace@ == "api/v1/"@,
            wanted == Seq::new(list@.len(), |i: int| label@ + shown_address(list@[i]@)),
            texts(lines@) == texts(old(lines)@) + wanted.take(i as int),
        decreases list.len() - i,
    {
        let ghost before = lines@;
        let mut line = chars_of(label);
        let shown = without(&chars_of(list[i].as_str()), &namespace);
        push_chars(&mut line, &shown);
        lines.push(string_of(&line));
        assert(texts(lines@) =~= texts(before).push(wanted[i as int]));
        assert(wanted.take(i + 1) =~= wanted.take(i as int).push(wanted[i as int]));
        i = i + 1;
    }
    assert(wanted.take(list.len() as int) =~= wanted);
}

/// A line made of `label` and the decimal numeral of `count`.
fn counted(label: &str, count: u128) -> (line: String)
    ensures
        line@ == label@ + decimal(count as nat),
{
    let mut out = chars_of(label);
    push_decimal(&mut out, count);
    string_of(&out)
}

impl Downloader {
    /// The addresses whose download failed, in the order recorded.
    pub fn failed_file(&self, info: &DownloaderInfo) -> (list: Vec<String>)
        ensures
            texts(list@) == info@.failed_file,
    {
        info.get_failed_file()
    }

    /// The lines of the report on the tally `info`.
    pub fn print_reports(&self, info: &DownloaderInfo) -> (lines: Vec<String>)
        ensures
            texts(lines@) == report_text(info@, self.outdir@),
    {
        let failed = info.get_failed_file();
        let skipped = info.get_skip_file();
        let mut lines: Vec<String> = Vec::new();
        assert(texts(lines@) =~= seq![]);
        push_entries(&mut lines, " Failed\t", &failed);
        push_entries(&mut lines, " Skip\t", &skipped);
        let ghost entries = texts(lines@);
        let mut folder = chars_of("Download success  to ");
        push_text(&mut folder, self.outdir.as_str());
        push_text(&mut folder, " folder.");
        lines.push(string_of(&folder));
        let mut size = chars_of("Total size: ");
        push_text(&mut size, human_size(info.get_file_size()).as_str());
        lines.push(string_of(&size));
        lines.push(counted("success files: ", info.get_success_file() as u128));
        lines.push(counted("Skipped files: ", skipped.len() as u128));
        lines.push(counted("Failed files: ", failed.len() as u128));
        proof {
            let a = Seq::new(
                info@.failed_file.len(),
                |i: int| " Failed\t"@ + shown_address(info@.failed_file[i]),
            );
            let b = Seq::new(
                info@.skip_file.len(),
                |i: int| " Skip\t"@ + shown_address(info@.skip_file[i]),
            );
            assert(Seq::new(failed@.len(), |i: int| " Failed\t"@ + shown_address(failed@[i]@))
                =~= a);
            assert(Seq::new(skipped@.len(), |i: int| " Skip\t"@ + shown_address(skipped@[i]@))
                =~= b);
            assert(entries =~= a + b);
            assert(texts(lines@) =~= report_text(info@, self.outdir@));
        }
        lines
    }
}

} // verus!
