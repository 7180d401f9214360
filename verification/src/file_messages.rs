//! The error or notice line that the export and import pages show after a
//! file operation: at most one of the two is shown at a time.
use vstd::prelude::*;

use crate::text::owned;

verus! {

/// The message line of one settings page's file operations.
#[derive(Clone, Debug, PartialEq, Eq)]
pub struct FileMessages {
    pub error: Option<String>,
    pub notice: Option<String>,
}

/// The text of an optional message.
pub open spec fn message_text(message: Option<String>) -> Option<Seq<char>> {
    match message {
        Some(m) => Some(m@),
        None => None,
    }
}

/// What a finished export shows: "Exported " and the path, or the error.
pub open spec fn export_outcome(result: Result<String, String>) -> (Option<Seq<char>>, Option<Seq<char>>) {
    match result {
        Ok(path) => (None, Some("Exported "@ + path@)),
        Err(error) => (Some(error@), None),
    }
}

impl FileMessages {
    /// No message shown.
    pub fn new() -> (messages: FileMessages)
        ensures
            messages.error is None,
            messages.notice is None,
    {
        FileMessages { error: None, notice: None }
    }

    /// Hides the message line (a new operation starts).
    pub fn clear(&mut self)
        ensures
            final(self).error is None,
            final(self).notice is None,
    {
        self.error = None;
        self.notice = None;
    }

    /// Shows `message` as an error; the notice goes away.
    pub fn set_error(&mut self, message: String)
        ensures
            message_text(final(self).error) == Some(message@),
            final(self).notice is None,
    {
        self.error = Some(message);
        self.notice = None;
    }

    /// Shows `message` as a notice; the error goes away.
    pub fn set_notice(&mut self, message: String)
        ensures
            message_text(final(self).notice) == Some(message@),
            final(self).error is None,
    {
        self.notice = Some(message);
        self.error = None;
    }

    /// Shows the outcome of an export: the written path or the error.
    pub fn handle_export_result(&mut self, result: Result<String, String>)
        ensures
            (message_text(final(self).error), message_text(final(self).notice)) == export_outcome(result),
    {
        match result {
            Ok(path) => {
                let mut notice = String::from_str("Exported ");
                notice.append(path.as_str());
                self.set_notice(notice);
            },
            Err(error) => self.set_error(error),
        }
    }
}

/// After any of the operations, the page never shows an error and a notice together.
pub proof fn lemma_one_message_at_a_time(result: Result<String, String>)
    ensures
        export_outcome(result).0 is None || export_outcome(result).1 is None,
{
}

} // verus!
