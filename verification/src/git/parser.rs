//! Readers for the output of `git log` and `git show-ref`.

use vstd::prelude::*;

use crate::git::model::{commits_view, named_ids_view, strings_view, Commit, CommitView};
use crate::util::number::{decimal, parse_i64, parse_int, push_decimal};
use crate::util::split::{split, split_chars, split_words, splitn, texts_view, words};
use crate::util::text::{
    chars_of, push_chars, string_of, trim, trim_chars, trim_end_chars, trim_end_of,
};

verus! {

/// The character that ends each record of the log.
pub const RECORD_SEP: char = '\x1e';

/// The character between the fields of a record.
pub const FIELD_SEP: char = '\x1f';

/// The outcome of reading a log: the commits of the records that were well
/// formed, how many records there were and how many were rejected, and the
/// complaint about the first rejected one.
#[derive(Debug)]
pub struct ParseCommitsReport {
    pub commits: Vec<Commit>,
    pub total_records: usize,
    pub rejected_records: usize,
    pub first_error: Option<String>,
}

/// The mathematical content of a [`ParseCommitsReport`].
pub struct ReportView {
    pub commits: Seq<CommitView>,
    pub total_records: int,
    pub rejected_records: int,
    pub first_error: Option<Seq<char>>,
}

/// The characters of an optional string.
pub open spec fn option_view(s: Option<String>) -> Option<Seq<char>> {
    match s {
        Some(t) => Some(t@),
        None => None,
    }
}

impl View for ParseCommitsReport {
    type V = ReportView;

    open spec fn view(&self) -> ReportView {
        ReportView {
            commits: commits_view(self.commits@),
            total_records: self.total_records as int,
            rejected_records: self.rejected_records as int,
            first_error: option_view(self.first_error),
        }
    }
}

/// The report on a log without records.
pub open spec fn empty_report() -> ReportView {
    ReportView {
        commits: Seq::empty(),
        total_records: 0,
        rejected_records: 0,
        first_error: None,
    }
}

impl Default for ParseCommitsReport {
    fn default() -> (r: Self)
        ensures
            r@ == empty_report(),
    {
        let r = ParseCommitsReport {
            commits: Vec::new(),
            total_records: 0,
            rejected_records: 0,
            first_error: None,
        };
        assert(r@.commits =~= Seq::<CommitView>::empty());
        r
    }
}

/// What a record stands for: the commit whose six fields it holds (id,
/// parents, author, e-mail, time stamp, subject), or the complaint about it.
///
/// The id, the author, the e-mail and the time stamp are taken without the
/// white space around them; the parents are the words of their field; the
/// subject keeps everything but line feeds at its end, further separators
/// included.
pub open spec fn record_of(record: Seq<char>) -> Result<CommitView, Seq<char>> {
    let parts = splitn(record, FIELD_SEP, 6);
    if parts.len() < 6 {
        Err("missing fields: expected 6, got "@ + decimal(parts.len()))
    } else if trim(parts[0]).len() == 0 {
        Err("empty commit hash"@)
    } else {
        match parse_int(trim(parts[4])) {
            None => Err("invalid timestamp '"@ + trim(parts[4]) + "'"@),
            Some(timestamp) => Ok(
                CommitView {
                    oid: trim(parts[0]),
                    parents: words(parts[1]),
                    author: trim(parts[2]),
                    author_email: trim(parts[3]),
                    timestamp: timestamp as int,
                    subject: trim_end_of(parts[5], '\n'),
                },
            ),
        }
    }
}

/// The mathematical content of the outcome of reading one record.
pub open spec fn record_view(r: Result<Commit, String>) -> Result<CommitView, Seq<char>> {
    match r {
        Ok(c) => Ok(c@),
        Err(e) => Err(e@),
    }
}

/// The strings made of the character vectors of `v`.
fn strings_of(v: &Vec<Vec<char>>) -> (out: Vec<String>)
    ensures
        strings_view(out@) == texts_view(v@),
{
    let mut out: Vec<String> = Vec::new();
    let mut i: usize = 0;
    while i < v.len()
        invariant
            i <= v.len(),
            out.len() == i,
            forall|j: int| 0 <= j < i ==> out[j]@ == v[j]@,
        decreases v.len() - i,
    {
        out.push(string_of(&v[i]));
        i += 1;
    }
    out
}

/// Reads one record given as characters.
fn parse_record_chars(record: &Vec<char>) -> (r: Result<Commit, String>)
    ensures
        record_view(r) == record_of(record@),
{
    // At most six pieces, so that the subject stays whole even where it
    // holds the field separator.
    let parts = split_chars(record, FIELD_SEP, 6);
    if parts.len() < 6 {
        let mut msg = "missing fields: expected 6, got ".to_owned();
        let mut count: Vec<char> = Vec::new();
        push_decimal(&mut count, parts.len() as u128);
        push_chars(&mut msg, &count);
        return Err(msg);
    }
    let oid = trim_chars(&parts[0]);
    if oid.len() == 0 {
        return Err("empty commit hash".to_owned());
    }
    let parents = strings_of(&split_words(&parts[1]));
    let author = trim_chars(&parts[2]);
    let author_email = trim_chars(&parts[3]);
    let timestamp_raw = trim_chars(&parts[4]);
    let timestamp = match parse_i64(&timestamp_raw) {
        Some(t) => t,
        None => {
            let mut msg = "invalid timestamp '".to_owned();
            push_chars(&mut msg, &timestamp_raw);
            msg.append("'");
            return Err(msg);
        },
    };
    // The subject may end in a line feed.
    let subject = trim_end_chars(&parts[5], '\n');
    Ok(
        Commit {
            oid: string_of(&oid),
            parents,
            author: string_of(&author),
            author_email: string_of(&author_email),
            timestamp,
            subject: string_of(&subject),
        },
    )
}

/// Reads one record: six fields separated by the unit separator (0x1f).
pub fn parse_commit_record(record: &str) -> (r: Result<Commit, String>)
    ensures
        record_view(r) == record_of(record@),
{
    parse_record_chars(&chars_of(record))
}

/// The report after one more piece of the log: unchanged for a piece of
/// white space only, else one record more, which is either read as a commit
/// or rejected; the first rejection is kept with the record's number.
pub open spec fn add_record(report: ReportView, piece: Seq<char>) -> ReportView {
    let record = trim(piece);
    if record.len() == 0 {
        report
    } else {
        match record_of(record) {
            Ok(commit) => ReportView {
                commits: report.commits.push(commit),
                total_records: report.total_records + 1,
                ..report
            },
            Err(complaint) => ReportView {
                commits: report.commits,
                total_records: report.total_records + 1,
                rejected_records: report.rejected_records + 1,
                first_error: if report.first_error is None {
                    Some(
                        "record #"@ + decimal((report.total_records + 1) as nat) + ": "@
                            + complaint,
                    )
                } else {
                    report.first_error
                },
            },
        }
    }
}

/// The report on the pieces of a log, taken in order.
pub open spec fn report_of(pieces: Seq<Seq<char>>) -> ReportView
    decreases pieces.len(),
{
    if pieces.len() == 0 {
        empty_report()
    } else {
        add_record(report_of(pieces.drop_last()), pieces.last())
    }
}

/// Parse commits from the output of
/// `git log --format=%H%x1f%P%x1f%an%x1f%ae%x1f%at%x1f%s%x1e`.
/// Records are delimited by the ASCII record separator (0x1e), fields within
/// each record by the ASCII unit separator (0x1f).
pub fn parse_commits(output: &str) -> (report: ParseCommitsReport)
    ensures
        report@ == report_of(split(output@, RECORD_SEP)),
        report.rejected_records <= report.total_records,
        report.commits.len() + report.rejected_records == report.total_records,
        report.first_error is Some <==> report.rejected_records > 0,
{
    let text = chars_of(output);
    let pieces = split_chars(&text, RECORD_SEP, 0);
    let ghost all = split(output@, RECORD_SEP);
    let mut report = ParseCommitsReport::default();
    assert(report.commits.len() == report@.commits.len());
    let mut i: usize = 0;
    while i < pieces.len()
        invariant
            i <= pieces.len(),
            all == texts_view(pieces@),
            report@ == report_of(all.take(i as int)),
            report.total_records <= i,
            report.commits.len() + report.rejected_records == report.total_records,
            report.first_error is Some <==> report.rejected_records > 0,
        decreases pieces.len() - i,
    {
        let ghost before = report@;
        assert(all.take(i + 1).drop_last() =~= all.take(i as int));
        let record = trim_chars(&pieces[i]);
        if record.len() > 0 {
            report.total_records += 1;
            match parse_record_chars(&record) {
                Ok(commit) => {
                    report.commits.push(commit);
                    assert(report@.commits =~= before.commits.push(commit@));
                },
                Err(err) => {
                    report.rejected_records += 1;
                    if report.first_error.is_none() {
                        let mut msg = "record #".to_owned();
                        let mut number: Vec<char> = Vec::new();
                        push_decimal(&mut number, report.total_records as u128);
                        push_chars(&mut msg, &number);
                        msg.append(": ");
                        msg.append(err.as_str());
                        report.first_error = Some(msg);
                    }
                },
            }
        }
        i += 1;
    }
    assert(all.take(pieces.len() as int) =~= all);
    report
}

/// What a line of `git show-ref` stands for: the name and the id of a ref,
/// where the line holds an id, a blank, and a name, each of them not empty
/// once the white space around it is gone.
pub open spec fn ref_of_line(line: Seq<char>) -> Option<(Seq<char>, Seq<char>)> {
    let parts = splitn(line, ' ', 2);
    if parts.len() < 2 || trim(parts[0]).len() == 0 || trim(parts[1]).len() == 0 {
        None
    } else {
        Some((trim(parts[1]), trim(parts[0])))
    }
}

/// The refs of the lines that stand for one, in the order of the lines.
pub open spec fn refs_of(lines: Seq<Seq<char>>) -> Seq<(Seq<char>, Seq<char>)>
    decreases lines.len(),
{
    if lines.len() == 0 {
        Seq::empty()
    } else {
        match ref_of_line(lines.last()) {
            Some(pair) => refs_of(lines.drop_last()).push(pair),
            None => refs_of(lines.drop_last()),
        }
    }
}

/// Parse `git show-ref` output: `<oid> <refname>` per line.
/// Returns the pairs `(refname, oid)`.
pub fn parse_show_ref(output: &str) -> (refs: Vec<(String, String)>)
    ensures
        named_ids_view(refs@) == refs_of(split(output@, '\n')),
{
    let text = chars_of(output);
    let lines = split_chars(&text, '\n', 0);
    let ghost all = split(output@, '\n');
    let mut refs: Vec<(String, String)> = Vec::new();
    let mut i: usize = 0;
    while i < lines.len()
        invariant
            i <= lines.len(),
            all == texts_view(lines@),
            named_ids_view(refs@) == refs_of(all.take(i as int)),
        decreases lines.len() - i,
    {
        assert(all.take(i + 1).drop_last() =~= all.take(i as int));
        let parts = split_chars(&lines[i], ' ', 2);
        if parts.len() >= 2 {
            let oid = trim_chars(&parts[0]);
            let refname = trim_chars(&parts[1]);
            if oid.len() > 0 && refname.len() > 0 {
                refs.push((string_of(&refname), string_of(&oid)));
            }
        }
        i += 1;
    }
    assert(all.take(lines.len() as int) =~= all);
    refs
}

} // verus!
