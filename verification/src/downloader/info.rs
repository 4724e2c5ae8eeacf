//! The tally of a run: bytes transferred, files that succeeded, were skipped, or failed.
//!
//! Every worker keeps a tally of its own for the post in hand and merges it into the one
//! tally of the run when the post is done.
use crate::text::texts;
use vstd::prelude::*;

verus! {

/// What a tally holds, as mathematical values.
pub struct Report {
    /// Bytes transferred.
    pub file_size: nat,
    /// Number of files transferred.
    pub success_file: nat,
    /// What was passed over, in the order recorded.
    pub skip_file: Seq<Seq<char>>,
    /// What could not be transferred, in the order recorded.
    pub failed_file: Seq<Seq<char>>,
}

impl Report {
    /// The tally that holds nothing.
    pub open spec fn empty() -> Report {
        Report { file_size: 0, success_file: 0, skip_file: seq![], failed_file: seq![] }
    }

    /// This tally with `other` merged into it: the counts add up, and the lists of `other`
    /// follow those of `self`.
    pub open spec fn merge(self, other: Report) -> Report {
        Report {
            file_size: self.file_size + other.file_size,
            success_file: self.success_file + other.success_file,
            skip_file: self.skip_file + other.skip_file,
            failed_file: self.failed_file + other.failed_file,
        }
    }

    /// This tally with `bytes` more bytes transferred.
    pub open spec fn add_bytes(self, bytes: nat) -> Report {
        Report { file_size: self.file_size + bytes, ..self }
    }

    /// This tally with `files` more files transferred.
    pub open spec fn add_files(self, files: nat) -> Report {
        Report { success_file: self.success_file + files, ..self }
    }

    /// This tally with `url` recorded last among those passed over.
    pub open spec fn add_skipped(self, url: Seq<char>) -> Report {
        Report { skip_file: self.skip_file.push(url), ..self }
    }

    /// This tally with `url` recorded last among those that failed.
    pub open spec fn add_failed(self, url: Seq<char>) -> Report {
        Report { failed_file: self.failed_file.push(url), ..self }
    }

    /// Whether both counters fit the machine's 64 bits.
    pub open spec fn fits(self) -> bool {
        self.file_size <= u64::MAX && self.success_file <= u64::MAX
    }
}

#[derive(Clone)]
pub struct DownloaderInfo {
    file_size: u64,
    success_file: u64,
    /// Files that cannot be had or were filtered out; left for a manual download.
    skip_file: Vec<String>,
    /// Addresses whose download failed.
    failed_file: Vec<String>,
}

impl View for DownloaderInfo {
    type V = Report;

    closed spec fn view(&self) -> Report {
        Report {
            file_size: self.file_size as nat,
            success_file: self.success_file as nat,
            skip_file: texts(self.skip_file@),
            failed_file: texts(self.failed_file@),
        }
    }
}

/// A copy of a list of strings.
fn copy_of(list: &Vec<String>) -> (out: Vec<String>)
    ensures
        texts(out@) == texts(list@),
{
    let mut out: Vec<String> = Vec::new();
    append_copy(&mut out, list);
    assert(texts(out@) =~= texts(list@));
    out
}

/// Appends a copy of each string of `list` to `out`.
fn append_copy(out: &mut Vec<String>, list: &Vec<String>)
    ensures
        texts(final(out)@) == texts(old(out)@) + texts(list@),
{
    let mut i: usize = 0;
    assert(texts(out@) =~= texts(old(out)@) + texts(list@.take(0)));
    while i < list.len()
        invariant
            i <= list.len(),
            texts(out@) == texts(old(out)@) + texts(list@.take(i as int)),
        decreases list.len() - i,
    {
        let ghost before = out@;
        out.push(list[i].clone());
        assert(texts(out@) =~= texts(before) + seq![list@[i as int]@]);
        assert(texts(list@.take(i + 1)) =~= texts(list@.take(i as int)) + seq![list@[i as int]@]);
        i = i + 1;
    }
    assert(list@.take(list.len() as int) == list@);
}

impl DownloaderInfo {
    /// A tally that holds nothing.
    pub fn new() -> (info: Self)
        ensures
            info@ == Report::empty(),
    {
        let info = Self { file_size: 0, success_file: 0, skip_file: Vec::new(), failed_file: Vec::new() };
        assert(info@.skip_file =~= seq![] && info@.failed_file =~= seq![]);
        info
    }

    /// Merges `dinfo` into this tally.
    pub fn integrate(&mut self, dinfo: &Self)
        requires
            old(self)@.merge(dinfo@).fits(),
        ensures
            final(self)@ == old(self)@.merge(dinfo@),
    {
        self.file_size += dinfo.file_size;
        self.success_file += dinfo.success_file;
        append_copy(&mut self.failed_file, &dinfo.failed_file);
        append_copy(&mut self.skip_file, &dinfo.skip_file);
    }

    /// Bytes transferred.
    pub fn get_file_size(&self) -> (bytes: u64)
        ensures
            bytes == self@.file_size,
    {
        self.file_size
    }

    /// Number of files transferred.
    pub fn get_success_file(&self) -> (count: u64)
        ensures
            count == self@.success_file,
    {
        self.success_file
    }

    /// What was passed over, in the order recorded.
    pub fn get_skip_file(&self) -> (list: Vec<String>)
        ensures
            texts(list@) == self@.skip_file,
    {
        copy_of(&self.skip_file)
    }

    /// What could not be transferred, in the order recorded.
    pub fn get_failed_file(&self) -> (list: Vec<String>)
        ensures
            texts(list@) == self@.failed_file,
    {
        copy_of(&self.failed_file)
    }

    /// Counts `file_size` more bytes as transferred.
    pub fn add_file_size(&mut self, file_size: u64)
        requires
            old(self)@.file_size + file_size <= u64::MAX,
        ensures
            final(self)@ == old(self)@.add_bytes(file_size as nat),
    {
        self.file_size += file_size;
    }

    /// Counts `success_file` more files as transferred.
    pub fn add_success_file(&mut self, success_file: u64)
        requires
            old(self)@.success_file + success_file <= u64::MAX,
        ensures
            final(self)@ == old(self)@.add_files(success_file as nat),
    {
        self.success_file += success_file;
    }

    /// Records `url` as passed over.
    pub fn add_skip_file(&mut self, url: String)
        ensures
            final(self)@ == old(self)@.add_skipped(url@),
    {
        self.skip_file.push(url);
        assert(texts(self.skip_file@) =~= texts(old(self).skip_file@).push(url@));
    }

    /// Records `url` as failed.
    pub fn add_failed_file(&mut self, url: String)
        ensures
            final(self)@ == old(self)@.add_failed(url@),
    {
        self.failed_file.push(url);
        assert(texts(self.failed_file@) =~= texts(old(self).failed_file@).push(url@));
    }
}

impl Default for DownloaderInfo {
    fn default() -> (info: Self)
        ensures
            info@ == Report::empty(),
    {
        Self::new()
    }
}

/// Merging the tallies of two workers into an empty one gives the sums of their counts and
/// all of their entries, and the order of the two merges changes neither a count nor how
/// often an entry is listed.
pub proof fn law_merge_adds_up(a: Report, b: Report)
    ensures
        Report::empty().merge(a).merge(b).file_size == a.file_size + b.file_size,
        Report::empty().merge(a).merge(b).success_file == a.success_file + b.success_file,
        Report::empty().merge(a).merge(b).skip_file == a.skip_file + b.skip_file,
        Report::empty().merge(a).merge(b).failed_file == a.failed_file + b.failed_file,
        Report::empty().merge(a).merge(b).skip_file.len() == a.skip_file.len() + b.skip_file.len(),
        Report::empty().merge(a).merge(b).failed_file.len() == a.failed_file.len()
            + b.failed_file.len(),
        a.merge(b).file_size == b.merge(a).file_size,
        a.merge(b).success_file == b.merge(a).success_file,
        a.merge(b).skip_file.to_multiset() == b.merge(a).skip_file.to_multiset(),
        a.merge(b).failed_file.to_multiset() == b.merge(a).failed_file.to_multiset(),
{
    assert(Report::empty().merge(a).skip_file =~= a.skip_file);
    assert(Report::empty().merge(a).failed_file =~= a.failed_file);
    vstd::seq_lib::lemma_multiset_commutative(a.skip_file, b.skip_file);
    vstd::seq_lib::lemma_multiset_commutative(b.skip_file, a.skip_file);
    vstd::seq_lib::lemma_multiset_commutative(a.failed_file, b.failed_file);
    vstd::seq_lib::lemma_multiset_commutative(b.failed_file, a.failed_file);
    assert(a.skip_file.to_multiset().add(b.skip_file.to_multiset()) =~= b.skip_file.to_multiset().add(
        a.skip_file.to_multiset(),
    ));
    assert(a.failed_file.to_multiset().add(b.failed_file.to_multiset())
        =~= b.failed_file.to_multiset().add(a.failed_file.to_multiset()));
}

/// Merging is associative: tallies may be gathered in groups before they reach the tally of
/// the run.
pub proof fn law_merge_associative(a: Report, b: Report, c: Report)
    ensures
        a.merge(b).merge(c) == a.merge(b.merge(c)),
{
    assert(a.merge(b).merge(c).skip_file =~= a.merge(b.merge(c)).skip_file);
    assert(a.merge(b).merge(c).failed_file =~= a.merge(b.merge(c)).failed_file);
}

/// The tally of a run into which `tallies` were merged one after the other.
pub open spec fn total(tallies: Seq<Report>) -> Report
    decreases tallies.len(),
{
    if tallies.len() == 0 {
        Report::empty()
    } else {
        total(tallies.drop_last()).merge(tallies.last())
    }
}

/// The tallies of two workers in the order in which they reach the tally of the run: where
/// both have one left, `order` tells whose comes next.
pub open spec fn woven(one: Seq<Report>, other: Seq<Report>, order: Seq<bool>) -> Seq<Report>
    decreases one.len() + other.len(),
{
    if one.len() == 0 {
        other
    } else if other.len() == 0 {
        one
    } else if order.len() > 0 && !order[0] {
        seq![other[0]] + woven(one, other.drop_first(), order.drop_first())
    } else {
        seq![one[0]] + woven(one.drop_first(), other, order.drop_first())
    }
}

/// A tally merged first adds its counts to those of the tallies merged after it.
pub proof fn lemma_total_of_first_and_rest(first: Report, rest: Seq<Report>)
    ensures
        total(seq![first] + rest).file_size == first.file_size + total(rest).file_size,
        total(seq![first] + rest).success_file == first.success_file + total(rest).success_file,
        total(seq![first] + rest).skip_file.len() == first.skip_file.len() + total(
            rest,
        ).skip_file.len(),
        total(seq![first] + rest).failed_file.len() == first.failed_file.len() + total(
            rest,
        ).failed_file.len(),
    decreases rest.len(),
{
    let all = seq![first] + rest;
    assert(total(all) == total(all.drop_last()).merge(all.last()));
    if rest.len() == 0 {
        assert(all.drop_last() =~= Seq::<Report>::empty());
        assert(all.last() == first);
        assert(total(all.drop_last()) == Report::empty());
        assert(total(rest) == Report::empty());
    } else {
        assert(all.drop_last() =~= seq![first] + rest.drop_last());
        assert(all.last() == rest.last());
        assert(total(rest) == total(rest.drop_last()).merge(rest.last()));
        lemma_total_of_first_and_rest(first, rest.drop_last());
    }
}

/// Whatever the order in which the tallies of two workers reach the tally of the run, its
/// counts are the sums of theirs: the bytes, the files transferred, the files passed over
/// and the files that failed.
pub proof fn law_worker_tallies_add_up(one: Seq<Report>, other: Seq<Report>, order: Seq<bool>)
    ensures
        woven(one, other, order).len() == one.len() + other.len(),
        total(woven(one, other, order)).file_size == total(one).file_size + total(other).file_size,
        total(woven(one, other, order)).success_file == total(one).success_file + total(
            other,
        ).success_file,
        total(woven(one, other, order)).skip_file.len() == total(one).skip_file.len() + total(
            other,
        ).skip_file.len(),
        total(woven(one, other, order)).failed_file.len() == total(one).failed_file.len() + total(
            other,
        ).failed_file.len(),
    decreases one.len() + other.len(),
{
    if one.len() == 0 || other.len() == 0 {
    } else if order.len() > 0 && !order[0] {
        law_worker_tallies_add_up(one, other.drop_first(), order.drop_first());
        lemma_total_of_first_and_rest(other[0], woven(one, other.drop_first(), order.drop_first()));
        lemma_total_of_first_and_rest(other[0], other.drop_first());
        assert(seq![other[0]] + other.drop_first() =~= other);
    } else {
        law_worker_tallies_add_up(one.drop_first(), other, order.drop_first());
        lemma_total_of_first_and_rest(one[0], woven(one.drop_first(), other, order.drop_first()));
        lemma_total_of_first_and_rest(one[0], one.drop_first());
        assert(seq![one[0]] + one.drop_first() =~= one);
    }
}

} // verus!
