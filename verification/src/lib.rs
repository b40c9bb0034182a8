//! Text reports over the leading rows of spreadsheet sheets.
//!
//! A sheet is an ordered grid of cell texts. For each sheet the report shows
//! the header block (the leading rows) and a sample block (a bounded window of
//! the rows that follow), rendered as Markdown, XML or plain text. Every
//! renderer is specified by a function from the sheet's text to the exact
//! characters it writes.
//!
//! - `sheet`: sheets, and their header and sample blocks.
//! - `markdown`, `xml`, `plain`: the section of a sheet in each format;
//!   `listing`: the listing of header cells that Markdown and plain text share.
//! - `report`: the report of a workbook, and what holds of a section in every
//!   format.
//! - `tags`, `xml_tags`: a scan for element tags, and the proof that the tags
//!   of an XML section match.
//! - `numeral`: counts as decimal text, written and read.
//! - `grid`: the cells of a worksheet that calamine decoded.
//! - `batch`: a run over several files, message by message.
//! - `session`: the state of an interactive session.
//! - `text`: texts as sequences of characters.

pub mod batch;
pub mod grid;
pub mod listing;
pub mod markdown;
pub mod numeral;
pub mod plain;
pub mod report;
pub mod session;
pub mod sheet;
pub mod tags;
pub mod text;
pub mod xml;
pub mod xml_tags;
