//! The texts that a run writes to its log files.
use crate::text::chars_of;
use crate::text::push_text;
use crate::text::split;
use crate::text::split_at_each;
use crate::text::string_of;
use crate::text::texts;
use vstd::prelude::*;

verus! {

pub struct Log;

/// The addresses of `list`, each followed by a line break.
pub open spec fn lines_of(list: Seq<Seq<char>>) -> Seq<char>
    decreases list.len(),
{
    if list.len() == 0 {
        seq![]
    } else {
        lines_of(list.drop_last()) + list.last() + seq!['\n']
    }
}

/// The line logged for one file.
pub open spec fn entry_text(post_url: Seq<char>, file_name: Seq<char>, status: Seq<char>) -> Seq<
    char,
> {
    "Post URL: "@ + post_url + ", File: "@ + file_name + ", Status: "@ + status + seq!['\n']
}

/// The name of the log file of the day `date` for the creator `creator`.
pub open spec fn log_name(date: Seq<char>, creator: Seq<char>) -> Seq<char> {
    date + "_"@ + creator + ".log"@
}

/// The lines `list`, with a line break between each two.
pub open spec fn joined(list: Seq<Seq<char>>) -> Seq<char>
    decreases list.len(),
{
    if list.len() == 0 {
        seq![]
    } else if list.len() == 1 {
        list[0]
    } else {
        joined(list.drop_last()) + seq!['\n'] + list.last()
    }
}

/// Whether a line of a list of addresses still asks for a download: it holds an address
/// and is not marked as done.
pub open spec fn asks_for_download(line: Seq<char>) -> bool {
    line.len() > 0 && line[0] != '#'
}

impl Log {
    /// The lines of a list of addresses.
    pub fn lines(content: &str) -> (lines: Vec<String>)
        ensures
            texts(lines@) == split(content@, '\n'),
    {
        split_at_each(&chars_of(content), '\n')
    }

    /// Whether `line` still asks for a download.
    pub fn pending(line: &str) -> (pending: bool)
        ensures
            pending == asks_for_download(line@),
    {
        let chars = chars_of(line);
        chars.len() > 0 && chars[0] != '#'
    }

    /// `line`, marked as done.
    pub fn done(line: &str) -> (marked: String)
        ensures
            marked@ == seq!['#'] + line@,
    {
        let mut out: Vec<char> = Vec::new();
        out.push('#');
        push_text(&mut out, line);
        string_of(&out)
    }

    /// The content of a list of addresses with the lines `lines`.
    pub fn content(lines: &Vec<String>) -> (content: String)
        ensures
            content@ == joined(texts(lines@)),
    {
        let mut out: Vec<char> = Vec::new();
        let mut i: usize = 0;
        assert(texts(lines@).take(0) =~= Seq::<Seq<char>>::empty());
        while i < lines.len()
            invariant
                i <= lines.len(),
                out@ == joined(texts(lines@).take(i as int)),
            decreases lines.len() - i,
        {
            if i > 0 {
                out.push('\n');
            }
            push_text(&mut out, lines[i].as_str());
            assert(texts(lines@).take(i + 1).drop_last() =~= texts(lines@).take(i as int));
            assert(texts(lines@).take(i + 1).last() == lines@[i as int]@);
            assert(i == 0 ==> out@ =~= lines@[i as int]@);
            i = i + 1;
        }
        assert(texts(lines@).take(lines.len() as int) =~= texts(lines@));
        string_of(&out)
    }

    /// What the file of failed downloads holds: one address on each line.
    pub fn failed_text(failed_url: &Vec<String>) -> (content: String)
        ensures
            content@ == lines_of(texts(failed_url@)),
    {
        let mut out: Vec<char> = Vec::new();
        let mut i: usize = 0;
        assert(texts(failed_url@).take(0) =~= Seq::<Seq<char>>::empty());
        while i < failed_url.len()
            invariant
                i <= failed_url.len(),
                out@ == lines_of(texts(failed_url@).take(i as int)),
            decreases failed_url.len() - i,
        {
            push_text(&mut out, failed_url[i].as_str());
            out.push('\n');
            assert(texts(failed_url@).take(i + 1).drop_last() =~= texts(failed_url@).take(
                i as int,
            ));
            assert(out@ =~= lines_of(texts(failed_url@).take(i as int)) + failed_url@[i as int]@
                + seq!['\n']);
            i = i + 1;
        }
        assert(texts(failed_url@).take(failed_url.len() as int) =~= texts(failed_url@));
        string_of(&out)
    }

    /// The line logged for the file `file_name` of the post at `post_url`.
    pub fn entry(post_url: &str, file_name: &str, status: &str) -> (line: String)
        ensures
            line@ == entry_text(post_url@, file_name@, status@),
    {
        let mut out = chars_of("Post URL: ");
        push_text(&mut out, post_url);
        push_text(&mut out, ", File: ");
        push_text(&mut out, file_name);
        push_text(&mut out, ", Status: ");
        push_text(&mut out, status);
        out.push('\n');
        string_of(&out)
    }

    /// The name of the log file of the day `date` for the creator `creator`.
    pub fn file_name(date: &str, creator: &str) -> (name: String)
        ensures
            name@ == log_name(date@, creator@),
    {
        let mut out = chars_of(date);
        push_text(&mut out, "_");
        push_text(&mut out, creator);
        push_text(&mut out, ".log");
        string_of(&out)
    }
}

} // verus!
