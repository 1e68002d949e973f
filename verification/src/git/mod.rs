//! The git calls that load a history, as far as they are text: the arguments
//! handed to git, and what its output stands for.

use vstd::prelude::*;

pub mod model;
pub mod parser;

use crate::git::model::{commits_view, strings_view, Commit, CommitView, Refs, RefsView};
use crate::git::parser::{
    empty_report, parse_commits, parse_show_ref, refs_of, report_of, RECORD_SEP,
};
use crate::util::number::{decimal, push_decimal};
use crate::util::split::split;
use crate::util::text::{
    chars_of, lemma_find_from, lemma_trim, push_chars, string_of, trim, trim_chars,
};

verus! {

/// The format handed to `git log`: the six fields of a record, each followed
/// by its separator.
pub const LOG_FORMAT: &'static str = "--format=%H%x1f%P%x1f%an%x1f%ae%x1f%at%x1f%s%x1e";

/// The arguments of the one `git log` call that loads the history: at most
/// `max` commits in topological order, of all refs or of `HEAD`, without
/// those reachable from `since`.
pub open spec fn log_arguments_of(max: nat, all: bool, since: Option<Seq<char>>) -> Seq<
    Seq<char>,
> {
    seq!["log"@, "--topo-order"@, LOG_FORMAT@, "--max-count="@ + decimal(max)] + (if all {
        seq!["--all"@]
    } else {
        Seq::empty()
    }) + (match since {
        Some(rev) => seq!["--not"@, rev],
        None => Seq::empty(),
    }) + (if all {
        Seq::empty()
    } else {
        seq!["HEAD"@]
    })
}

/// The arguments of the `git log` call that loads the history.
pub fn log_arguments(max: usize, all: bool, since: Option<&str>) -> (args: Vec<String>)
    ensures
        strings_view(args@) == log_arguments_of(
            max as nat,
            all,
            match since {
                Some(rev) => Some(rev@),
                None => None,
            },
        ),
{
    let mut max_count = "--max-count=".to_owned();
    let mut digits: Vec<char> = Vec::new();
    push_decimal(&mut digits, max as u128);
    push_chars(&mut max_count, &digits);

    let mut args: Vec<String> = Vec::new();
    args.push("log".to_owned());
    args.push("--topo-order".to_owned());
    args.push(LOG_FORMAT.to_owned());
    args.push(max_count);
    if all {
        args.push("--all".to_owned());
    }
    // `since` is a boundary: the commits reachable from it are left out.
    if let Some(rev) = since {
        args.push("--not".to_owned());
        args.push(rev.to_owned());
    }
    // Without `--all` the walk starts at HEAD.
    if !all {
        args.push("HEAD".to_owned());
    }
    args
}

/// What the output of `git log` stands for: its commits where every record
/// was well formed, else a complaint that counts the rejected records and
/// quotes the first rejection.
pub open spec fn log_of(output: Seq<char>) -> Result<Seq<CommitView>, Seq<char>> {
    let report = report_of(split(output, RECORD_SEP));
    if report.rejected_records > 0 {
        Err(
            "Malformed git log output: rejected "@ + decimal(report.rejected_records as nat)
                + " of "@ + decimal(report.total_records as nat) + " record(s); first error: "@
                + report.first_error->0,
        )
    } else {
        Ok(report.commits)
    }
}

/// The mathematical content of the outcome of reading a log.
pub open spec fn log_view(r: Result<Vec<Commit>, String>) -> Result<Seq<CommitView>, Seq<char>> {
    match r {
        Ok(commits) => Ok(commits_view(commits@)),
        Err(e) => Err(e@),
    }
}

/// Reads the output of `git log`: all of its commits, or a complaint where
/// any record is malformed. An output without records (an empty repository)
/// gives no commits.
pub fn parse_git_log_output(output: &str) -> (r: Result<Vec<Commit>, String>)
    ensures
        log_view(r) == log_of(output@),
{
    let report = parse_commits(output);
    if report.rejected_records > 0 {
        let mut msg = "Malformed git log output: rejected ".to_owned();
        let mut rejected: Vec<char> = Vec::new();
        push_decimal(&mut rejected, report.rejected_records as u128);
        push_chars(&mut msg, &rejected);
        msg.append(" of ");
        let mut total: Vec<char> = Vec::new();
        push_decimal(&mut total, report.total_records as u128);
        push_chars(&mut msg, &total);
        msg.append(" record(s); first error: ");
        match &report.first_error {
            Some(first) => msg.append(first.as_str()),
            None => msg.append("unknown parse error"),
        }
        return Err(msg);
    }
    Ok(report.commits)
}

/// An output of white space only holds no record: it is read as no commits
/// and no complaint.
pub proof fn lemma_blank_log_is_empty(output: Seq<char>)
    requires
        trim(output).len() == 0,
    ensures
        report_of(split(output, RECORD_SEP)) == empty_report(),
        log_of(output) == Ok::<Seq<CommitView>, Seq<char>>(Seq::empty()),
{
    lemma_trim(output);
    lemma_find_from(output, RECORD_SEP, 0);
    let whole = output.subrange(0, output.len() as int);
    assert(whole =~= output);
    assert(seq![whole].drop_last() =~= Seq::<Seq<char>>::empty());
    assert(report_of(Seq::<Seq<char>>::empty()) == empty_report());
}

/// The refs that the outputs of four git calls stand for: `rev-parse HEAD`,
/// `symbolic-ref -q HEAD` (nothing where it failed, as it does on a detached
/// `HEAD`), `show-ref --heads` and `show-ref --tags`.
pub open spec fn refs_from(
    head: Seq<char>,
    symbolic: Option<Seq<char>>,
    heads: Seq<char>,
    tags: Seq<char>,
) -> RefsView {
    RefsView {
        head_oid: trim(head),
        head_name: match symbolic {
            Some(name) => if trim(name).len() > 0 {
                Some(trim(name))
            } else {
                None
            },
            None => None,
        },
        branches: refs_of(split(heads, '\n')),
        tags: refs_of(split(tags, '\n')),
    }
}

/// Builds the refs from the outputs of the git calls that list them.
pub fn refs_from_outputs(head: &str, symbolic: Option<&str>, heads: &str, tags: &str) -> (refs:
    Refs)
    ensures
        refs@ == refs_from(
            head@,
            match symbolic {
                Some(name) => Some(name@),
                None => None,
            },
            heads@,
            tags@,
        ),
{
    let head_oid = string_of(&trim_chars(&chars_of(head)));
    let head_name = match symbolic {
        Some(name) => {
            let name = trim_chars(&chars_of(name));
            if name.len() > 0 {
                Some(string_of(&name))
            } else {
                None
            }
        },
        None => None,
    };
    Refs { head_oid, head_name, branches: parse_show_ref(heads), tags: parse_show_ref(tags) }
}

} // verus!
