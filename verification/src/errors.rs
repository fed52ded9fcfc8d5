//! The error taxonomy of a search run. Every kind is fatal: a run
//! either completes fully or surfaces the first of these; no file or
//! line is silently skipped.

use vstd::prelude::*;

verus! {

/// A fatal failure of a search run, with the context a caller needs to
/// act on it.
#[derive(Clone, Debug)]
pub enum SearchError {
    /// The pattern did not compile; `detail` is the compiler's message.
    PatternCompile { detail: String },
    /// An entry of the tree could not be resolved while walking.
    Traversal { path: String, detail: String },
    /// A file selected for content search could not be opened.
    FileOpen { path: String, detail: String },
    /// A line of an opened file could not be read or decoded; `line`
    /// is its 1-based index.
    LineRead { path: String, line: usize, detail: String },
}

} // verus!
