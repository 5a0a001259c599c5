//! A structural linter: it decides which shape description applies to each
//! input document (explicitly supplied, or auto-selected from a built-in
//! catalog by file-name pattern), runs the structural check, and renders each
//! violation as a diagnostic anchored to a line/column with source context.

pub mod catalog;
pub mod checker;
pub mod formatter;
pub mod report;
pub mod resolve;
pub mod strutil;

use vstd::prelude::*;
use vstd::string::*;

verus! {

/// A 1-based line/column pair locating a violation inside a document's
/// raw text.
pub struct Position {
    pub line: usize,
    pub col: usize,
}

impl Position {
    /// A position is meaningful only when both coordinates are 1-based.
    pub open spec fn wf(&self) -> bool {
        self.line >= 1 && self.col >= 1
    }

    pub fn new(line: usize, col: usize) -> (r: Position)
        requires
            line >= 1,
            col >= 1,
        ensures
            r.line == line,
            r.col == col,
            r.wf(),
    {
        Position { line, col }
    }
}

/// Errors of the diagnostic pipeline itself (a structural violation is not
/// one of these: it is the expected product of checking).
#[derive(Debug)]
pub enum LintError {
    /// A catalog entry holds a file-match pattern that does not compile as a
    /// glob; an uncompilable pattern is a catalog defect and aborts the run.
    BadPattern { entry: String, pattern: String },
    /// The shape description itself was rejected by the check capability.
    BadShape { reason: String },
    /// A checker message did not follow the expected convention; the run
    /// aborts loudly rather than emit a garbled diagnostic.
    BadMessage { message: String },
}

impl LintError {
    /// Human-readable rendering of the error, for the error stream.
    pub fn describe(&self) -> (r: String)
        ensures
            self matches LintError::BadPattern { entry, pattern } ==> r@
                == "catalog entry "@ + entry@ + " has an uncompilable file-match pattern "@
                + pattern@,
            self matches LintError::BadShape { reason } ==> r@ == "invalid shape description: "@
                + reason@,
            self matches LintError::BadMessage { message } ==> r@
                == "checker message out of contract: "@ + message@,
    {
        match self {
            LintError::BadPattern { entry, pattern } => {
                let mut s = String::from_str("catalog entry ");
                s.append(entry.as_str());
                s.append(" has an uncompilable file-match pattern ");
                s.append(pattern.as_str());
                s
            },
            LintError::BadShape { reason } => {
                let mut s = String::from_str("invalid shape description: ");
                s.append(reason.as_str());
                s
            },
            LintError::BadMessage { message } => {
                let mut s = String::from_str("checker message out of contract: ");
                s.append(message.as_str());
                s
            },
        }
    }
}

} // verus!
