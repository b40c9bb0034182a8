//! A run over several files: one message for each file, in the order in which
//! the files were given, and the completion signal after the last.
//!
//! Reading a file is left to the caller. A `Run` says which file to read next
//! and turns what the reading gave into the message to emit; `run_batch` drives
//! a run over readings that are at hand.

use vstd::prelude::*;
use vstd::string::*;
use crate::report::{render, report, OutputFormat};
use crate::session::Job;
use crate::sheet::Sheet;

verus! {

/// Why a file gave no report.
#[derive(Debug, PartialEq, Eq)]
pub enum ReadError {
    /// The file could not be opened as a workbook.
    Workbook { cause: String },
    /// The workbook lists the sheet `name`, which could not be read.
    Sheet { name: String, cause: String },
}

/// What reading one file gave: its sheets, or the reason why there are none.
#[derive(Debug, PartialEq, Eq)]
pub struct FileRead {
    pub path: String,
    pub outcome: Result<Vec<Sheet>, ReadError>,
}

/// What a run emits: a text for each file, and the signal that it is over.
#[derive(Debug, PartialEq, Eq)]
pub enum Message {
    Text(String),
    Complete,
}

impl Message {
    /// The text that the message carries; the completion signal carries none.
    pub open spec fn text(self) -> Option<Seq<char>> {
        match self {
            Message::Text(text) => Some(text@),
            Message::Complete => None,
        }
    }
}

/// The cause of a failure in words.
pub open spec fn cause_text(error: ReadError) -> Seq<char> {
    match error {
        ReadError::Workbook { cause } => cause@,
        ReadError::Sheet { name, cause } => "Sheet not found: "@ + name@ + " - "@ + cause@,
    }
}

/// The line shown for a file that gave no report: it names the file and the
/// cause.
pub open spec fn error_line(path: Seq<char>, error: ReadError) -> Seq<char> {
    "Error processing "@ + path + ": "@ + cause_text(error)
}

/// The text emitted for the file `path`: its report, or its error line.
pub open spec fn file_text(
    format: OutputFormat,
    path: Seq<char>,
    outcome: Result<Vec<Sheet>, ReadError>,
    header_rows: nat,
    sample_rows: nat,
) -> Seq<char> {
    match outcome {
        Ok(sheets) => report(format, path, sheets@, header_rows, sample_rows),
        Err(error) => error_line(path, error),
    }
}

/// What a run over `reads` emits: the text of each file in the order given,
/// whether the files before it failed or not, and then the completion signal.
pub open spec fn run_texts(
    format: OutputFormat,
    reads: Seq<FileRead>,
    header_rows: nat,
    sample_rows: nat,
) -> Seq<Option<Seq<char>>> {
    Seq::new(
        reads.len() + 1,
        |i: int|
            if i < reads.len() {
                Some(file_text(format, reads[i].path@, reads[i].outcome, header_rows, sample_rows))
            } else {
                None
            },
    )
}

/// What each of the messages carries.
pub open spec fn message_texts(messages: Seq<Message>) -> Seq<Option<Seq<char>>> {
    Seq::new(messages.len(), |i: int| messages[i].text())
}

/// The error line for the file `path`.
pub fn render_error_line(path: &str, error: &ReadError) -> (line: String)
    ensures
        line@ == error_line(path@, *error),
{
    let mut out = String::new();
    out.append("Error processing ");
    out.append(path);
    out.append(": ");
    match error {
        ReadError::Workbook { cause } => {
            out.append(cause.as_str());
        },
        ReadError::Sheet { name, cause } => {
            out.append("Sheet not found: ");
            out.append(name.as_str());
            out.append(" - ");
            out.append(cause.as_str());
        },
    }
    out
}

/// The text to emit for the file `path`, given what reading it gave.
pub fn file_message(
    format: OutputFormat,
    path: &str,
    outcome: &Result<Vec<Sheet>, ReadError>,
    header_rows: usize,
    sample_rows: usize,
) -> (text: String)
    ensures
        text@ == file_text(format, path@, *outcome, header_rows as nat, sample_rows as nat),
{
    match outcome {
        Ok(sheets) => render(format, path, sheets, header_rows, sample_rows),
        Err(error) => render_error_line(path, error),
    }
}

/// What the driver of a run has to do next.
#[derive(Debug, PartialEq, Eq)]
pub enum Step {
    /// Read the file at this path and deliver what the reading gave.
    Read(String),
    /// Every file has its message: emit the completion signal and stop.
    Finish,
}

/// A run under way: its job, and how many of the job's files have their
/// message.
#[derive(Debug, PartialEq, Eq)]
pub struct Run {
    pub job: Job,
    pub done: usize,
}

impl Run {
    /// Whether a file is still to be read.
    pub open spec fn pending(&self) -> bool {
        self.done < self.job.file_paths@.len()
    }

    /// A run over `job` of which no file has been read.
    pub fn new(job: Job) -> (run: Run)
        ensures
            run.job == job,
            run.done == 0,
    {
        Run { job, done: 0 }
    }

    /// The next step: to read the first file that has no message yet, or to
    /// finish where every file has one.
    pub fn next_step(&self) -> (step: Step)
        ensures
            match step {
                Step::Read(path) => self.pending() && path@ == self.job.file_paths@[self.done as int]@,
                Step::Finish => !self.pending(),
            },
    {
        if self.done < self.job.file_paths.len() {
            Step::Read(self.job.file_paths[self.done].clone())
        } else {
            Step::Finish
        }
    }

    /// Takes what reading the pending file gave and gives the message to
    /// emit for it: the file's report, or its error line. The run then moves
    /// on to the next file, whatever the outcome was. Where no file is
    /// pending the run stays as it is and the message is the completion
    /// signal.
    pub fn deliver(&mut self, outcome: &Result<Vec<Sheet>, ReadError>) -> (message: Message)
        ensures
            final(self).job == old(self).job,
            old(self).pending() ==> final(self).done == old(self).done + 1 && message.text()
                == Some(
                file_text(
                    old(self).job.format,
                    old(self).job.file_paths@[old(self).done as int]@,
                    *outcome,
                    old(self).job.header_rows as nat,
                    old(self).job.sample_rows as nat,
                ),
            ),
            !old(self).pending() ==> final(self).done == old(self).done && message
                == Message::Complete,
    {
        if self.done < self.job.file_paths.len() {
            let text: String = file_message(
                self.job.format,
                self.job.file_paths[self.done].as_str(),
                outcome,
                self.job.header_rows,
                self.job.sample_rows,
            );
            self.done = self.done + 1;
            Message::Text(text)
        } else {
            Message::Complete
        }
    }
}

fn paths_of(reads: &Vec<FileRead>) -> (paths: Vec<String>)
    ensures
        paths@.len() == reads@.len(),
        forall|i: int| 0 <= i < reads@.len() ==> (#[trigger] paths@[i])@ == reads@[i].path@,
{
    let mut paths: Vec<String> = Vec::new();
    let mut i: usize = 0;
    while i < reads.len()
        invariant
            i <= reads.len(),
            paths@.len() == i,
            forall|k: int| 0 <= k < i ==> (#[trigger] paths@[k])@ == reads@[k].path@,
        decreases reads.len() - i,
    {
        paths.push(reads[i].path.clone());
        i += 1;
    }
    paths
}

/// The messages of a whole run over readings that are at hand: the run is
/// driven file by file, and each reading is delivered when its file is
/// pending. A file that failed takes nothing from the files after it: each
/// file has its message at its own position, and the completion signal comes
/// last.
pub fn run_batch(
    format: OutputFormat,
    reads: &Vec<FileRead>,
    header_rows: usize,
    sample_rows: usize,
) -> (messages: Vec<Message>)
    ensures
        message_texts(messages@) == run_texts(
            format,
            reads@,
            header_rows as nat,
            sample_rows as nat,
        ),
        messages@.len() == reads@.len() + 1,
        messages@.last() == Message::Complete,
{
    let job = Job { file_paths: paths_of(reads), header_rows, sample_rows, format };
    let mut run = Run::new(job);
    let mut messages: Vec<Message> = Vec::new();
    let mut i: usize = 0;
    while i < reads.len()
        invariant
            i <= reads.len(),
            run.done == i,
            run.job.format == format,
            run.job.header_rows == header_rows,
            run.job.sample_rows == sample_rows,
            run.job.file_paths@.len() == reads@.len(),
            forall|k: int|
                0 <= k < reads@.len() ==> (#[trigger] run.job.file_paths@[k])@ == reads@[k].path@,
            messages@.len() == i,
            forall|k: int|
                0 <= k < i ==> (#[trigger] messages@[k]).text() == Some(
                    file_text(
                        format,
                        reads@[k].path@,
                        reads@[k].outcome,
                        header_rows as nat,
                        sample_rows as nat,
                    ),
                ),
        decreases reads.len() - i,
    {
        let message: Message = run.deliver(&reads[i].outcome);
        messages.push(message);
        i += 1;
    }
    messages.push(Message::Complete);
    messages
}

} // verus!
