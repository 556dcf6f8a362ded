//! The pattern matcher: compiled success/failure patterns, and the
//! classification of a batch of output lines against them.

use vstd::prelude::*;
use crate::notify::Outcome;

verus! {

/// Whether the regex engine accepts a pattern; a function of the pattern
/// text alone.
pub uninterp spec fn regex_valid(pattern: Seq<char>) -> bool;

/// Whether a pattern matches somewhere in a text; a function of the
/// pattern and the text alone.
pub uninterp spec fn regex_is_match(pattern: Seq<char>, text: Seq<char>) -> bool;

/// A compiled pattern, kept beside its source text.  The two fields are
/// private so that every `Pattern` was built by `Pattern::new`, which
/// compiles the one from the other.
pub struct Pattern {
    source: String,
    compiled: regex::Regex,
}

#[verifier::external_type_specification]
#[verifier::external_body]
pub struct ExRegex(regex::Regex);

impl Pattern {
    /// The pattern text this value was compiled from.
    pub closed spec fn src(&self) -> Seq<char> {
        self.source@
    }

    /// Relies on `regex::Regex::new`: whether a pattern compiles depends
    /// on the pattern text alone, and compiling the same text again gives
    /// a regex that matches the same texts.
    #[verifier::external_body]
    pub(crate) fn new(source: String) -> (r: Result<Pattern, String>)
        ensures
            r is Ok <==> regex_valid(source@),
            r matches Ok(p) ==> p.src() == source@,
    {
        match regex::Regex::new(source.as_str()) {
            Ok(compiled) => Ok(Pattern { source, compiled }),
            Err(e) => Err(format!("{}", e)),
        }
    }

    /// Relies on `regex::Regex::is_match`: a function of the pattern and
    /// the text alone.
    #[verifier::external_body]
    pub(crate) fn is_match(&self, text: &str) -> (r: bool)
        ensures
            r == regex_is_match(self.src(), text@),
    {
        self.compiled.is_match(text)
    }
}

/// Whether some line of a batch matches a pattern.
pub open spec fn matches_some_line(pattern: Seq<char>, lines: Seq<Seq<char>>) -> bool {
    exists|i: int| 0 <= i < lines.len() && regex_is_match(pattern, #[trigger] lines[i])
}

/// Whether a configured pattern matches some line: an absent pattern
/// matches nothing.
pub open spec fn opt_matches(p: Option<Pattern>, lines: Seq<Seq<char>>) -> bool {
    p is Some && matches_some_line(p.unwrap().src(), lines)
}

/// The classification policy: every line is held against the failure
/// pattern before any line is held against the success pattern, so a
/// failure match takes priority within one batch; when neither matches
/// (or neither is configured), the batch concludes nothing.
pub open spec fn classify_spec(
    failure: Option<Pattern>,
    success: Option<Pattern>,
    lines: Seq<Seq<char>>,
) -> Option<Outcome> {
    if opt_matches(failure, lines) {
        Some(Outcome::Failure)
    } else if opt_matches(success, lines) {
        Some(Outcome::Success)
    } else {
        None
    }
}

/// Whether any line of the batch matches the pattern.
fn any_line_matches(p: &Pattern, lines: &Vec<String>) -> (r: bool)
    ensures
        r == matches_some_line(p.src(), lines.deep_view()),
{
    let n = lines.len();
    for i in 0..n
        invariant
            n == lines@.len(),
            forall|j: int| 0 <= j < i ==> !regex_is_match(p.src(), #[trigger] lines.deep_view()[j]),
    {
        let hit = p.is_match(lines[i].as_str());
        proof {
            assert(lines.deep_view()[i as int] == lines@[i as int]@);
        }
        if hit {
            return true;
        }
    }
    false
}

/// Classify one batch of output lines: a failure-pattern match anywhere
/// beats a success-pattern match anywhere, and with no match (or no
/// patterns) the batch is inconclusive.
pub fn classify(
    failure: &Option<Pattern>,
    success: &Option<Pattern>,
    lines: &Vec<String>,
) -> (r: Option<Outcome>)
    ensures
        r == classify_spec(*failure, *success, lines.deep_view()),
{
    match failure {
        Some(f) => {
            if any_line_matches(f, lines) {
                return Some(Outcome::Failure);
            }
        },
        None => {},
    }
    match success {
        Some(s) => {
            if any_line_matches(s, lines) {
                return Some(Outcome::Success);
            }
        },
        None => {},
    }
    None
}

/// The priority law: when one line of a batch matches both configured
/// patterns, the batch is classified as a failure.
pub proof fn lemma_failure_takes_priority(
    failure: Option<Pattern>,
    success: Option<Pattern>,
    lines: Seq<Seq<char>>,
    i: int,
)
    requires
        failure is Some,
        success is Some,
        0 <= i < lines.len(),
        regex_is_match(failure.unwrap().src(), lines[i]),
        regex_is_match(success.unwrap().src(), lines[i]),
    ensures
        classify_spec(failure, success, lines) == Some(Outcome::Failure),
{
    assert(matches_some_line(failure.unwrap().src(), lines));
}

} // verus!
