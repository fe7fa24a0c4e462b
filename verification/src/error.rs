//! Classified pipeline failures.
//!
//! Every failure is one of three kinds: an I/O failure of the filesystem, a
//! failure of the watch subsystem, or a domain processing failure (retry
//! exhaustion, a missing file name, or content a strategy rejects). Causes
//! are carried as rendered text, handed in by the code that observed them.

use vstd::prelude::*;
use vstd::string::StringExecFns;

verus! {

/// A classified pipeline failure.
#[derive(Debug)]
pub enum AppError {
    /// A filesystem open/read/write/delete failure not related to locking.
    Io(String),
    /// A failure of the underlying notification mechanism; fatal to the
    /// watch loop only.
    Watch(String),
    /// A domain failure: retry exhaustion, a missing file name, or content
    /// that a strategy reports as invalid.
    Processing(String),
}

impl AppError {
    /// The error's full text, as rendered for logs: a kind prefix followed by
    /// the cause.
    pub open spec fn spec_message(&self) -> Seq<char> {
        match self {
            AppError::Io(m) => "IO error: "@ + m@,
            AppError::Watch(m) => "File watch error: "@ + m@,
            AppError::Processing(m) => "Processing error: "@ + m@,
        }
    }

    /// Render the error as a log line: a kind prefix followed by the cause.
    pub fn message(&self) -> (line: String)
        ensures
            line@ == self.spec_message(),
    {
        match self {
            AppError::Io(m) => {
                let mut line = String::from_str("IO error: ");
                line.append(m.as_str());
                assert(line@ =~= self.spec_message());
                line
            },
            AppError::Watch(m) => {
                let mut line = String::from_str("File watch error: ");
                line.append(m.as_str());
                assert(line@ =~= self.spec_message());
                line
            },
            AppError::Processing(m) => {
                let mut line = String::from_str("Processing error: ");
                line.append(m.as_str());
                assert(line@ =~= self.spec_message());
                line
            },
        }
    }

    /// Wrap a domain failure message.
    pub fn processing_error(msg: String) -> (e: Self)
        ensures
            e == AppError::Processing(msg),
    {
        AppError::Processing(msg)
    }

    /// Render this error under a context heading, as one log line.
    pub fn log_with_context(&self, context: &str) -> (line: String)
        ensures
            line@ == context@ + " | "@ + self.spec_message(),
    {
        let mut line = String::new();
        line.append(context);
        line.append(" | ");
        let tail = self.message();
        line.append(tail.as_str());
        assert(line@ =~= context@ + " | "@ + self.spec_message());
        line
    }
}

} // verus!
