//! The record that operations leave behind: the history of transfers, the
//! message of the most recent failure, and a bounded log.

use crate::error::PixelDrainError;
use crate::links::file_link;
use crate::text::{decimal, decimal_text, signed_decimal, signed_decimal_text};
use crate::types::UploadResponse;
use vstd::prelude::*;
use vstd::string::*;

verus! {

/// Entries that the log of the shared state keeps.
pub const STATE_LOG_LIMIT: usize = 50;

/// A completed upload.
#[derive(Clone, Debug, PartialEq, Eq)]
pub struct UploadHistoryEntry {
    pub id: String,
    pub url: String,
    pub filename: String,
    /// Size in bytes; zero for a stream whose size was never known.
    pub size: u64,
    pub timestamp: String,
}

/// A completed download.
#[derive(Clone, Debug, PartialEq, Eq)]
pub struct DownloadHistoryEntry {
    pub url: String,
    pub filename: String,
    pub local_path: String,
    pub timestamp: String,
}

/// What operations leave behind for the interface to show.
pub struct TransferState {
    pub upload_history: Vec<UploadHistoryEntry>,
    pub download_history: Vec<DownloadHistoryEntry>,
    /// Message of the most recent failure, until an operation succeeds or the
    /// message is dismissed.
    pub last_error: Option<String>,
    pub debug_messages: Vec<String>,
}

/// A log after `entry` was added under the limit `limit`: the oldest entry
/// goes when the log has grown beyond the limit.
pub open spec fn log_after(log: Seq<String>, entry: String, limit: usize) -> Seq<String> {
    if log.len() + 1 > limit {
        log.push(entry).drop_first()
    } else {
        log.push(entry)
    }
}

/// A log entry: the time in brackets, then the message.
pub open spec fn stamped_text(time: Seq<char>, message: Seq<char>) -> Seq<char> {
    "["@ + time + "] "@ + message
}

/// The message for an error met in `context`.
pub open spec fn failure_text(context: Seq<char>, error: PixelDrainError) -> Seq<char> {
    context + ": "@ + error.description()
}

/// The message for an operation that was given up after `attempts` attempts.
pub open spec fn exhausted_text(action: Seq<char>, attempts: u32, error: PixelDrainError) -> Seq<
    char,
> {
    "Failed to "@ + action + " after "@ + decimal_text(attempts as nat) + " attempts: "@
        + error.description()
}

/// The name under which a directory is uploaded: the chosen name if there is
/// one, else the directory's own name with `.tar.gz` after it.
pub open spec fn archive_name_text(chosen: Seq<char>, directory: Seq<char>) -> Seq<char> {
    if chosen.len() > 0 {
        chosen
    } else {
        directory + ".tar.gz"@
    }
}

/// What is to be said of an archiver that was waited for. `waited` holds the
/// exit code with which it ended, `None` where it ended without one, or the
/// message of a wait that failed. Only an exit code of zero is no failure.
pub open spec fn archiver_failure_text(waited: Result<Option<i32>, String>) -> Option<Seq<char>> {
    match waited {
        Ok(Some(code)) => if code == 0 {
            None
        } else {
            Some("exit status: "@ + signed_decimal_text(code as int))
        },
        Ok(None) => Some("ended without an exit code"@),
        Err(message) => Some(message@),
    }
}

/// The text of an optional message.
pub open spec fn message_text(m: Option<String>) -> Option<Seq<char>> {
    match m {
        Some(t) => Some(t@),
        None => None,
    }
}

/// Adds `entry` to `log` and drops the oldest entry if the log has grown
/// beyond `limit`.
pub fn push_bounded(log: &mut Vec<String>, entry: String, limit: usize)
    ensures
        final(log)@ == log_after(old(log)@, entry, limit),
{
    log.push(entry);
    if log.len() > limit {
        let _ = log.remove(0);
    }
}

/// Puts the time in front of a message.
pub fn stamped(time: &str, message: &str) -> (entry: String)
    ensures
        entry@ == stamped_text(time@, message@),
{
    String::from_str("[").concat(time).concat("] ").concat(message)
}

/// The message for `error` met in `context`.
pub fn failure_message(context: &str, error: &PixelDrainError) -> (m: String)
    ensures
        m@ == failure_text(context@, *error),
{
    let described: String = error.describe();
    String::from_str(context).concat(": ").concat(described.as_str())
}

/// The message for an operation given up after `attempts` attempts.
pub fn exhausted_message(action: &str, attempts: u32, error: &PixelDrainError) -> (m: String)
    ensures
        m@ == exhausted_text(action@, attempts, *error),
{
    let described: String = error.describe();
    let count: String = decimal(attempts as u64);
    String::from_str("Failed to ").concat(action).concat(" after ").concat(count.as_str()).concat(
        " attempts: ",
    ).concat(described.as_str())
}

/// The name under which a directory is uploaded.
pub fn archive_name(chosen: &str, directory: &str) -> (name: String)
    ensures
        name@ == archive_name_text(chosen@, directory@),
{
    if !chosen.is_empty() {
        String::from_str(chosen)
    } else {
        String::from_str(directory).concat(".tar.gz")
    }
}

/// Decides whether the archiver failed, and with what message: it did unless
/// it ended with an exit code of zero.
pub fn archiver_failure(waited: Result<Option<i32>, String>) -> (failure: Option<String>)
    ensures
        message_text(failure) == archiver_failure_text(waited),
        failure is None <==> waited == Ok::<Option<i32>, String>(Some(0i32)),
{
    match waited {
        Ok(Some(code)) => {
            if code == 0 {
                None
            } else {
                let number: String = signed_decimal(code);
                Some(String::from_str("exit status: ").concat(number.as_str()))
            }
        },
        Ok(None) => Some(String::from_str("ended without an exit code")),
        Err(message) => Some(message),
    }
}

/// The arguments with which the archiver is started so that it writes the
/// compressed archive of `directory`, found in `parent`, to its standard
/// output.
pub fn archive_arguments(parent: &str, directory: &str) -> (args: Vec<String>)
    ensures
        args@.len() == 5,
        args@[0]@ == "czf"@,
        args@[1]@ == "-"@,
        args@[2]@ == "-C"@,
        args@[3]@ == parent@,
        args@[4]@ == directory@,
{
    let mut args: Vec<String> = Vec::new();
    args.push(String::from_str("czf"));
    args.push(String::from_str("-"));
    args.push(String::from_str("-C"));
    args.push(String::from_str(parent));
    args.push(String::from_str(directory));
    args
}

impl TransferState {
    /// A state without history, error or log.
    pub fn new() -> (s: TransferState)
        ensures
            s.upload_history@.len() == 0,
            s.download_history@.len() == 0,
            s.last_error is None,
            s.debug_messages@.len() == 0,
    {
        TransferState {
            upload_history: Vec::new(),
            download_history: Vec::new(),
            last_error: None,
            debug_messages: Vec::new(),
        }
    }

    /// Adds an entry to the log, which keeps its most recent entries only.
    pub fn log(&mut self, time: &str, message: &str)
        ensures
            final(self).debug_messages@ == log_after(
                old(self).debug_messages@,
                final(self).debug_messages@.last(),
                STATE_LOG_LIMIT,
            ),
            final(self).debug_messages@.len() > 0,
            final(self).debug_messages@.last()@ == stamped_text(time@, message@),
            final(self).upload_history == old(self).upload_history,
            final(self).download_history == old(self).download_history,
            final(self).last_error == old(self).last_error,
    {
        let entry: String = stamped(time, message);
        push_bounded(&mut self.debug_messages, entry, STATE_LOG_LIMIT);
    }

    /// Records how an upload ended. A success adds an entry with the
    /// identifier that the service returned and the link made from it, and
    /// clears the error; a failure stores its message under `context` and
    /// leaves the history as it is.
    pub fn record_upload(
        &mut self,
        outcome: Result<UploadResponse, PixelDrainError>,
        context: &str,
        filename: String,
        size: u64,
        timestamp: String,
    )
        ensures
            final(self).download_history == old(self).download_history,
            final(self).debug_messages == old(self).debug_messages,
            match outcome {
                Ok(response) => {
                    &&& final(self).last_error is None
                    &&& final(self).upload_history@.len() == old(self).upload_history@.len() + 1
                    &&& final(self).upload_history@.drop_last() == old(self).upload_history@
                    &&& final(self).upload_history@.last().id@ == response.id@
                    &&& final(self).upload_history@.last().url@ == file_link(response.id@)
                    &&& final(self).upload_history@.last().filename == filename
                    &&& final(self).upload_history@.last().size == size
                    &&& final(self).upload_history@.last().timestamp == timestamp
                },
                Err(error) => {
                    &&& final(self).upload_history == old(self).upload_history
                    &&& message_text(final(self).last_error) == Some(
                        failure_text(context@, error),
                    )
                },
            },
    {
        match outcome {
            Ok(response) => {
                let url: String = response.get_file_url();
                let entry = UploadHistoryEntry { id: response.id, url, filename, size, timestamp };
                self.upload_history.push(entry);
                self.last_error = None;
            },
            Err(error) => {
                self.last_error = Some(failure_message(context, &error));
            },
        }
    }

    /// Records how the upload of a directory ended, and what became of the
    /// archiver. The outcome of the upload is recorded as for any upload, with
    /// a size of zero. A failure of the archiver is written to the log and
    /// changes nothing else: an upload that succeeded stays a success.
    pub fn record_directory_upload(
        &mut self,
        outcome: Result<UploadResponse, PixelDrainError>,
        archive: String,
        timestamp: String,
        archiver_failure: Option<&str>,
        time: &str,
    )
        ensures
            final(self).download_history == old(self).download_history,
            match outcome {
                Ok(response) => {
                    &&& final(self).last_error is None
                    &&& final(self).upload_history@.len() == old(self).upload_history@.len() + 1
                    &&& final(self).upload_history@.drop_last() == old(self).upload_history@
                    &&& final(self).upload_history@.last().id@ == response.id@
                    &&& final(self).upload_history@.last().url@ == file_link(response.id@)
                    &&& final(self).upload_history@.last().filename == archive
                    &&& final(self).upload_history@.last().size == 0
                    &&& final(self).upload_history@.last().timestamp == timestamp
                },
                Err(error) => {
                    &&& final(self).upload_history == old(self).upload_history
                    &&& message_text(final(self).last_error) == Some(
                        failure_text("Directory upload error"@, error),
                    )
                },
            },
            match archiver_failure {
                Some(failure) => {
                    &&& final(self).debug_messages@.len() > 0
                    &&& final(self).debug_messages@ == log_after(
                        old(self).debug_messages@,
                        final(self).debug_messages@.last(),
                        STATE_LOG_LIMIT,
                    )
                    &&& final(self).debug_messages@.last()@ == stamped_text(
                        time@,
                        "Tar process error: "@ + failure@,
                    )
                },
                None => final(self).debug_messages == old(self).debug_messages,
            },
    {
        self.record_upload(outcome, "Directory upload error", archive, 0, timestamp);
        match archiver_failure {
            Some(failure) => {
                let message: String = String::from_str("Tar process error: ").concat(failure);
                self.log(time, message.as_str());
            },
            None => {},
        }
    }

    /// Records how a download ended. A success adds an entry and clears the
    /// error; a failure stores its message and leaves the history as it is.
    pub fn record_download(
        &mut self,
        outcome: Result<(), PixelDrainError>,
        url: String,
        filename: String,
        local_path: String,
        timestamp: String,
    )
        ensures
            final(self).upload_history == old(self).upload_history,
            final(self).debug_messages == old(self).debug_messages,
            match outcome {
                Ok(_) => {
                    &&& final(self).last_error is None
                    &&& final(self).download_history@ == old(self).download_history@.push(
                        DownloadHistoryEntry { url, filename, local_path, timestamp },
                    )
                },
                Err(error) => {
                    &&& final(self).download_history == old(self).download_history
                    &&& message_text(final(self).last_error) == Some(
                        failure_text("Download error"@, error),
                    )
                },
            },
    {
        match outcome {
            Ok(_) => {
                self.download_history.push(
                    DownloadHistoryEntry { url, filename, local_path, timestamp },
                );
                self.last_error = None;
            },
            Err(error) => {
                self.last_error = Some(failure_message("Download error", &error));
            },
        }
    }

    /// Stores the message of a failure that ended an operation before or
    /// outside its transfer. History and log stay as they are.
    pub fn record_failure(&mut self, context: &str, error: &PixelDrainError)
        ensures
            final(self).upload_history == old(self).upload_history,
            final(self).download_history == old(self).download_history,
            final(self).debug_messages == old(self).debug_messages,
            message_text(final(self).last_error) == Some(failure_text(context@, *error)),
    {
        self.last_error = Some(failure_message(context, error));
    }

    /// Stores the message of an operation that was given up after `attempts`
    /// attempts. History and log stay as they are.
    pub fn record_exhausted(&mut self, action: &str, attempts: u32, error: &PixelDrainError)
        ensures
            final(self).upload_history == old(self).upload_history,
            final(self).download_history == old(self).download_history,
            final(self).debug_messages == old(self).debug_messages,
            message_text(final(self).last_error) == Some(exhausted_text(action@, attempts, *error)),
    {
        self.last_error = Some(exhausted_message(action, attempts, error));
    }

    /// Clears the error, as a successful operation or a dismissal does.
    pub fn clear_error(&mut self)
        ensures
            final(self).upload_history == old(self).upload_history,
            final(self).download_history == old(self).download_history,
            final(self).debug_messages == old(self).debug_messages,
            final(self).last_error is None,
    {
        self.last_error = None;
    }
}

} // verus!
