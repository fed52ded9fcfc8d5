//! The search engine's data model and per-entry task logic: the
//! validated configuration, the entries the walker hands in, what a
//! search task does with one entry, the line-by-line content scan, and
//! the aggregation of task outcomes into the run's result.
//!
//! Walking the tree, opening files and printing stay with the caller;
//! it hands this module plain values (an entry's path, name and kind;
//! a file's lines) and receives the records to report.

use crate::errors::SearchError;
use crate::matcher::line_matches;
use crate::matcher::match_spans;
use crate::matcher::name_reported;
use crate::matcher::Matcher;
use vstd::prelude::*;

verus! {

/// Which of the two searches a run performs: scanning file contents
/// line by line, or matching entry base names (files and directories
/// alike).
#[derive(Clone, Copy)]
pub enum SearchMode {
    ContentSearch,
    NameSearch,
}

/// The immutable configuration of one run, constructed once and shared
/// read-only by every task. The compiled pattern travels separately,
/// as a `Matcher`.
#[derive(Clone, Copy)]
pub struct SearchConfig {
    pub mode: SearchMode,
    pub max_depth: usize,
    pub concurrency_limit: usize,
    pub invert_match: bool,
    pub show_line_number: bool,
    pub verbose: bool,
}

impl SearchConfig {
    /// A concurrency limit of zero would block every admission
    /// forever, so a valid configuration never holds one.
    pub open spec fn wf(self) -> bool {
        self.concurrency_limit >= 1
    }

    /// Validate a configuration. Succeeds exactly when the concurrency
    /// limit is positive, and then carries every field through
    /// unchanged.
    pub fn new(
        mode: SearchMode,
        max_depth: usize,
        concurrency_limit: usize,
        invert_match: bool,
        show_line_number: bool,
        verbose: bool,
    ) -> (r: Option<SearchConfig>)
        ensures
            r is Some <==> concurrency_limit >= 1,
            r matches Some(c) ==> c.wf() && c.mode == mode && c.max_depth == max_depth
                && c.concurrency_limit == concurrency_limit && c.invert_match == invert_match
                && c.show_line_number == show_line_number && c.verbose == verbose,
    {
        if concurrency_limit >= 1 {
            Some(
                SearchConfig {
                    mode,
                    max_depth,
                    concurrency_limit,
                    invert_match,
                    show_line_number,
                    verbose,
                },
            )
        } else {
            None
        }
    }
}

/// One filesystem node handed in by the walker: its full path, its
/// base name (empty when the name could not be decoded to text), and
/// whether it is a directory.
pub struct Entry {
    pub path: String,
    pub name: String,
    pub is_dir: bool,
}

/// What a search task does with one entry, decided before any content
/// is touched.
#[derive(PartialEq, Eq, Structural, Clone, Copy, Debug)]
pub enum TaskStep {
    /// Name search: the entry's name is reported (its path is printed).
    Report,
    /// Nothing to report and nothing to read for this entry.
    Skip,
    /// Content search on a file: its lines must be read and scanned.
    ReadFile,
}

/// The decision a search task takes for one entry. In name-search mode
/// no content is ever read (the verdict rests on the name alone); in
/// content-search mode directories are skipped without a report and
/// every file is read.
pub fn begin_task(m: &Matcher, mode: SearchMode, entry: &Entry, invert: bool) -> (r: TaskStep)
    requires
        m.wf(),
    ensures
        mode is NameSearch ==> !(r is ReadFile),
        mode is NameSearch ==> (r is Report <==> name_reported(m.pattern(), entry.name@, invert)),
        mode is ContentSearch ==> !(r is Report),
        mode is ContentSearch ==> (entry.is_dir ==> r is Skip) && (!entry.is_dir
            ==> r is ReadFile),
{
    match mode {
        SearchMode::NameSearch => {
            if m.name_verdict(entry.name.as_str(), invert) {
                TaskStep::Report
            } else {
                TaskStep::Skip
            }
        },
        SearchMode::ContentSearch => {
            if entry.is_dir {
                TaskStep::Skip
            } else {
                TaskStep::ReadFile
            }
        },
    }
}

/// One reportable content match: the 1-based line number, the raw line
/// text, and the highlight spans (filled only when highlighting was
/// requested).
pub struct MatchRecord {
    pub number: usize,
    pub text: String,
    pub spans: Vec<(usize, usize)>,
}

/// Scan one line, with its 1-based number. Returns a record exactly
/// when the line rule — pattern verdict XOR invert — holds of the
/// line; the record carries the line unchanged, and its highlight
/// spans when `with_spans` asks for them.
pub fn scan_line(m: &Matcher, number: usize, line: &str, invert: bool, with_spans: bool) -> (r:
    Option<MatchRecord>)
    requires
        m.wf(),
    ensures
        r is Some <==> line_matches(m.pattern(), line@, invert),
        r matches Some(rec) ==> rec.number == number && rec.text@ == line@ && (with_spans
            ==> rec.spans@ == match_spans(m.pattern(), line@)) && (!with_spans ==> rec.spans@.len()
            == 0),
{
    if m.line_verdict(line, invert) {
        let spans: Vec<(usize, usize)> = if with_spans {
            m.spans(line)
        } else {
            Vec::new()
        };
        Some(MatchRecord { number, text: line.to_owned(), spans })
    } else {
        None
    }
}

/// Scan a whole file's lines. The records are exactly the lines
/// satisfying the line rule, in ascending order of their 1-based line
/// numbers, each carrying its raw text and, when requested, its
/// highlight spans.
pub fn scan_lines(m: &Matcher, lines: &Vec<String>, invert: bool, with_spans: bool) -> (r: Vec<
    MatchRecord,
>)
    requires
        m.wf(),
        lines@.len() < usize::MAX,
    ensures
        forall|k: int|
            0 <= k < r@.len() ==> {
                &&& 1 <= #[trigger] r@[k].number <= lines@.len()
                &&& line_matches(m.pattern(), lines@[r@[k].number - 1]@, invert)
                &&& r@[k].text@ == lines@[r@[k].number - 1]@
                &&& (with_spans ==> r@[k].spans@ == match_spans(
                    m.pattern(),
                    lines@[r@[k].number - 1]@,
                ))
                &&& (!with_spans ==> r@[k].spans@.len() == 0)
            },
        forall|k1: int, k2: int| 0 <= k1 < k2 < r@.len() ==> r@[k1].number < r@[k2].number,
        forall|i: int|
            0 <= i < lines@.len() && #[trigger] line_matches(m.pattern(), lines@[i]@, invert)
                ==> exists|k: int| 0 <= k < r@.len() && #[trigger] r@[k].number == i + 1,
{
    let mut out: Vec<MatchRecord> = Vec::new();
    let mut i: usize = 0;
    while i < lines.len()
        invariant
            m.wf(),
            lines@.len() < usize::MAX,
            i <= lines@.len(),
            forall|k: int|
                0 <= k < out@.len() ==> {
                    &&& 1 <= #[trigger] out@[k].number <= i
                    &&& line_matches(m.pattern(), lines@[out@[k].number - 1]@, invert)
                    &&& out@[k].text@ == lines@[out@[k].number - 1]@
                    &&& (with_spans ==> out@[k].spans@ == match_spans(
                        m.pattern(),
                        lines@[out@[k].number - 1]@,
                    ))
                    &&& (!with_spans ==> out@[k].spans@.len() == 0)
                },
            forall|k1: int, k2: int| 0 <= k1 < k2 < out@.len() ==> out@[k1].number < out@[k2].number,
            forall|j: int|
                0 <= j < i && #[trigger] line_matches(m.pattern(), lines@[j]@, invert)
                    ==> exists|k: int| 0 <= k < out@.len() && #[trigger] out@[k].number == j + 1,
        decreases lines@.len() - i,
    {
        let number = i + 1;
        match scan_line(m, number, lines[i].as_str(), invert, with_spans) {
            Some(rec) => {
                let ghost prior = out@;
                out.push(rec);
                proof {
                    assert forall|j: int|
                        0 <= j < i + 1 && #[trigger] line_matches(
                            m.pattern(),
                            lines@[j]@,
                            invert,
                        ) implies exists|k: int|
                        0 <= k < out@.len() && #[trigger] out@[k].number == j + 1 by {
                        if j < i {
                            let k = choose|k: int|
                                0 <= k < prior.len() && #[trigger] prior[k].number == j + 1;
                            assert(out@[k].number == j + 1);
                        } else {
                            assert(out@[out@.len() - 1].number == j + 1);
                        }
                    }
                }
            },
            None => {},
        }
        i = i + 1;
    }
    out
}

/// The index of the first failed task among the joined results, or
/// nothing when every task succeeded. The run surfaces exactly this
/// first failure; later ones are drained without being surfaced.
pub fn first_error_index(results: &Vec<Result<(), SearchError>>) -> (r: Option<usize>)
    ensures
        r matches Some(i) ==> i < results@.len() && results@[i as int] is Err && forall|j: int|
            0 <= j < i ==> results@[j] is Ok,
        r is None ==> forall|j: int| 0 <= j < results@.len() ==> results@[j] is Ok,
{
    let mut i: usize = 0;
    while i < results.len()
        invariant
            i <= results@.len(),
            forall|j: int| 0 <= j < i ==> results@[j] is Ok,
        decreases results@.len() - i,
    {
        if results[i].is_err() {
            return Some(i);
        }
        i = i + 1;
    }
    None
}

} // verus!
