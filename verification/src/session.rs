//! The state of an interactive session: the files chosen, the settings as the
//! user typed them, the output shown, and whether a run is under way.

use vstd::prelude::*;
use vstd::string::*;
use crate::batch::Message;
use crate::numeral::{count_or, parsed_count};
use crate::report::OutputFormat;

verus! {

/// The header-row count that holds where the setting is no count.
pub const DEFAULT_HEADER_ROWS: usize = 1;

/// The sample-row count that holds where the setting is no count.
pub const DEFAULT_SAMPLE_ROWS: usize = 5;

/// The count that a setting's text stands for: its value where the text is a
/// numeral that fits a `usize`, the default for every other text, be it empty,
/// a word, a fraction or a number with a minus sign.
pub open spec fn setting_value(text: Seq<char>, default: usize) -> usize {
    match parsed_count(text) {
        Some(value) => value,
        None => default,
    }
}

/// The header-row count that the setting `text` asks for.
pub fn header_row_count(text: &str) -> (count: usize)
    ensures
        count == setting_value(text@, DEFAULT_HEADER_ROWS),
        parsed_count(text@) is None ==> count == 1,
{
    count_or(text, DEFAULT_HEADER_ROWS)
}

/// The sample-row count that the setting `text` asks for.
pub fn sample_row_count(text: &str) -> (count: usize)
    ensures
        count == setting_value(text@, DEFAULT_SAMPLE_ROWS),
        parsed_count(text@) is None ==> count == 5,
{
    count_or(text, DEFAULT_SAMPLE_ROWS)
}

/// What a run works on: the files and the settings as they were when it began.
#[derive(Debug, PartialEq, Eq)]
pub struct Job {
    pub file_paths: Vec<String>,
    pub header_rows: usize,
    pub sample_rows: usize,
    pub format: OutputFormat,
}

/// The session's state.
#[derive(Debug, PartialEq, Eq)]
pub struct Session {
    pub file_paths: Vec<String>,
    pub output: String,
    pub rows_to_display: String,
    pub header_rows: String,
    pub output_format: OutputFormat,
    pub is_analyzing: bool,
}

fn copy_paths(paths: &Vec<String>) -> (copy: Vec<String>)
    ensures
        copy@ == paths@,
{
    let mut copy: Vec<String> = Vec::new();
    let mut i: usize = 0;
    while i < paths.len()
        invariant
            i <= paths.len(),
            copy@ == paths@.take(i as int),
        decreases paths.len() - i,
    {
        copy.push(paths[i].clone());
        i += 1;
    }
    copy
}

impl Session {
    /// A fresh session: no file, no output, five sample rows, one header row,
    /// Markdown, and no run under way.
    pub fn new() -> (session: Session)
        ensures
            session.file_paths@.len() == 0,
            session.output@.len() == 0,
            session.rows_to_display@ == "5"@,
            session.header_rows@ == "1"@,
            session.output_format == OutputFormat::Markdown,
            !session.is_analyzing,
    {
        Session {
            file_paths: Vec::new(),
            output: String::new(),
            rows_to_display: "5".to_owned(),
            header_rows: "1".to_owned(),
            output_format: OutputFormat::Markdown,
            is_analyzing: false,
        }
    }

    /// Puts `path` at the end of the list of files.
    pub fn add_file(&mut self, path: String)
        ensures
            final(self).file_paths@ == old(self).file_paths@.push(path),
            final(self).output == old(self).output,
            final(self).rows_to_display == old(self).rows_to_display,
            final(self).header_rows == old(self).header_rows,
            final(self).output_format == old(self).output_format,
            final(self).is_analyzing == old(self).is_analyzing,
    {
        self.file_paths.push(path);
    }

    /// Takes the file at `index` off the list, where there is one; the files
    /// after it move up. Says whether a file was removed.
    pub fn remove_file(&mut self, index: usize) -> (removed: bool)
        ensures
            removed == (index < old(self).file_paths@.len()),
            removed ==> final(self).file_paths@ == old(self).file_paths@.remove(index as int),
            !removed ==> final(self).file_paths@ == old(self).file_paths@,
            final(self).output == old(self).output,
            final(self).rows_to_display == old(self).rows_to_display,
            final(self).header_rows == old(self).header_rows,
            final(self).output_format == old(self).output_format,
            final(self).is_analyzing == old(self).is_analyzing,
    {
        if index < self.file_paths.len() {
            self.file_paths.remove(index);
            true
        } else {
            false
        }
    }

    /// Begins a run unless one is under way. A run that begins clears the
    /// output and works on the files and settings as they are now; while it is
    /// under way no other begins and nothing changes.
    pub fn begin(&mut self) -> (job: Option<Job>)
        ensures
            (job is Some) == !old(self).is_analyzing,
            final(self).is_analyzing,
            final(self).file_paths == old(self).file_paths,
            final(self).rows_to_display == old(self).rows_to_display,
            final(self).header_rows == old(self).header_rows,
            final(self).output_format == old(self).output_format,
            job is None ==> final(self).output == old(self).output,
            job matches Some(job) ==> {
                &&& final(self).output@.len() == 0
                &&& job.file_paths@ == old(self).file_paths@
                &&& job.header_rows == setting_value(old(self).header_rows@, DEFAULT_HEADER_ROWS)
                &&& job.sample_rows == setting_value(
                    old(self).rows_to_display@,
                    DEFAULT_SAMPLE_ROWS,
                )
                &&& job.format == old(self).output_format
            },
    {
        if self.is_analyzing {
            return None;
        }
        self.output = String::new();
        self.is_analyzing = true;
        Some(
            Job {
                file_paths: copy_paths(&self.file_paths),
                header_rows: header_row_count(self.header_rows.as_str()),
                sample_rows: sample_row_count(self.rows_to_display.as_str()),
                format: self.output_format,
            },
        )
    }

    /// Takes in one message of a run. A text is shown: it goes to the end of
    /// the output, followed by a blank line. The completion signal is not
    /// shown: it ends the run.
    pub fn receive(&mut self, message: &Message)
        ensures
            final(self).file_paths == old(self).file_paths,
            final(self).rows_to_display == old(self).rows_to_display,
            final(self).header_rows == old(self).header_rows,
            final(self).output_format == old(self).output_format,
            match message.text() {
                Some(text) => {
                    &&& final(self).output@ == old(self).output@ + text + "\n\n"@
                    &&& final(self).is_analyzing == old(self).is_analyzing
                },
                None => {
                    &&& final(self).output == old(self).output
                    &&& !final(self).is_analyzing
                },
            },
    {
        match message {
            Message::Text(text) => {
                self.output.append(text.as_str());
                self.output.append("\n\n");
            },
            Message::Complete => {
                self.is_analyzing = false;
            },
        }
    }
}

} // verus!
