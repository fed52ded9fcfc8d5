//! The matcher: a compiled pattern and the two reporting predicates,
//! one for entry names and one for content lines, each combinable with
//! an invert flag.
//!
//! Pattern compilation and raw pattern matching are delegated to the
//! `regex` crate through the trusted items below; everything the
//! library claims about a verdict goes through `regex_match`, the name
//! given to what the crate's matcher returns. The one rule the library
//! adds — report exactly the lines (or names) where the raw verdict,
//! XORed with the invert flag, is true — is verified here.

use crate::errors::SearchError;
use vstd::prelude::*;

verus! {

#[verifier::external_type_specification]
#[verifier::external_body]
pub struct ExRegex(regex::Regex);

/// What a compiled `regex::Regex` value holds: the pattern text it was
/// built from.
pub uninterp spec fn pattern_of(re: regex::Regex) -> Seq<char>;

/// What `regex::Regex::new` decides: whether the pattern text is a
/// valid pattern that compiles (within the compiler's size limits). A
/// function of the pattern text alone.
pub uninterp spec fn pattern_compiles(pattern: Seq<char>) -> bool;

/// What `regex::Regex::is_match` returns: whether the pattern matches
/// anywhere in the text. A function of the pattern and the text alone.
pub uninterp spec fn regex_match(pattern: Seq<char>, text: Seq<char>) -> bool;

/// What `regex::Regex::find_iter` yields: the successive
/// non-overlapping match spans within the text, leftmost first, each a
/// start and end byte offset. A function of the pattern and the text
/// alone.
pub uninterp spec fn match_spans(pattern: Seq<char>, text: Seq<char>) -> Seq<(usize, usize)>;

/// Relies on `regex::Regex::is_match`: true if and only if there is a
/// match for the compiled pattern anywhere in the haystack.
pub assume_specification[ regex::Regex::is_match ](re: &regex::Regex, haystack: &str) -> (r:
    bool)
    ensures
        r == regex_match(pattern_of(*re), haystack@),
;

/// Relies on `regex::Regex::new`: compiles the pattern, succeeding
/// exactly when the pattern text compiles; on success the compiled
/// value matches per exactly that pattern text. On failure the
/// compiler's message is carried over as text.
#[verifier::external_body]
fn compile_pattern(pattern: &str) -> (r: Result<regex::Regex, String>)
    ensures
        r is Ok <==> pattern_compiles(pattern@),
        r matches Ok(re) ==> pattern_of(re) == pattern@,
{
    regex::Regex::new(pattern).map_err(|e| e.to_string())
}

/// Relies on `regex::Regex::find_iter`: yields every non-overlapping
/// match of the pattern in the haystack, leftmost first; each span is
/// the match's start and end byte offsets.
#[verifier::external_body]
fn find_spans(re: &regex::Regex, haystack: &str) -> (r: Vec<(usize, usize)>)
    ensures
        r@ == match_spans(pattern_of(*re), haystack@),
{
    re.find_iter(haystack).map(|m| (m.start(), m.end())).collect()
}

/// The single semantic rule of both search modes: the raw verdict of
/// the pattern on the text, XORed with the invert flag.
pub open spec fn line_matches(pattern: Seq<char>, text: Seq<char>, invert: bool) -> bool {
    regex_match(pattern, text) != invert
}

/// Whether a name search reports an entry: the name must have decoded
/// to something (an undecodable name is never reported, whatever the
/// invert flag says), and the line rule must hold of it.
pub open spec fn name_reported(pattern: Seq<char>, name: Seq<char>, invert: bool) -> bool {
    name.len() > 0 && line_matches(pattern, name, invert)
}

/// Invert symmetry: for every pattern and text, the inverted verdict
/// is exactly the negation of the plain one — inversion reports
/// precisely what would not normally be reported, never more, never
/// less.
pub proof fn lemma_invert_symmetry(pattern: Seq<char>, text: Seq<char>)
    ensures
        line_matches(pattern, text, true) == !line_matches(pattern, text, false),
{
}

/// A compiled pattern, shared read-only by every search task, together
/// with the text it was compiled from.
pub struct Matcher {
    re: regex::Regex,
    pattern: String,
}

impl Matcher {
    /// The pattern text this matcher was built from.
    pub closed spec fn pattern(self) -> Seq<char> {
        self.pattern@
    }

    /// Well-formedness: the compiled value is the compilation of the
    /// stored pattern text.
    pub closed spec fn wf(self) -> bool {
        pattern_of(self.re) == self.pattern@
    }

    /// Compile a matcher from pattern text. Succeeds exactly when the
    /// pattern compiles, and fails, with the pattern compiler's
    /// message, exactly when it does not; no traversal may start
    /// before this has succeeded.
    pub fn new(pattern: String) -> (r: Result<Matcher, SearchError>)
        ensures
            r is Ok <==> pattern_compiles(pattern@),
            r matches Ok(m) ==> m.wf() && m.pattern() == pattern@,
            r matches Err(e) ==> e is PatternCompile,
    {
        match compile_pattern(pattern.as_str()) {
            Ok(re) => Ok(Matcher { re, pattern }),
            Err(detail) => Err(SearchError::PatternCompile { detail }),
        }
    }

    /// Content-search verdict for one line.
    pub fn line_verdict(&self, line: &str, invert: bool) -> (r: bool)
        requires
            self.wf(),
        ensures
            r == line_matches(self.pattern(), line@, invert),
    {
        self.re.is_match(line) != invert
    }

    /// Name-search verdict for one entry name. An empty name stands
    /// for one that could not be decoded and is never reported.
    pub fn name_verdict(&self, name: &str, invert: bool) -> (r: bool)
        requires
            self.wf(),
        ensures
            r == name_reported(self.pattern(), name@, invert),
    {
        !name.is_empty() && (self.re.is_match(name) != invert)
    }

    /// The non-overlapping match spans of the pattern within one line,
    /// for highlighting.
    pub fn spans(&self, line: &str) -> (r: Vec<(usize, usize)>)
        requires
            self.wf(),
        ensures
            r@ == match_spans(self.pattern(), line@),
    {
        find_spans(&self.re, line)
    }
}

} // verus!
