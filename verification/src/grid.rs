//! Reading the cells of a decoded worksheet.
//!
//! Decoding is calamine's work, and so is the text of a cell: numbers, dates,
//! booleans and errors read as calamine displays them. This module takes the
//! leading rows of a decoded worksheet over into a `Sheet`.

use vstd::prelude::*;
use crate::report::{lemma_section_reads_leading_rows, section, OutputFormat};
use crate::sheet::{sample_end, Sheet};
use crate::text::{rows_text, texts};

verus! {

/// `calamine::Range`, the rectangle of cells that decoding a worksheet gives.
/// Nothing of its inside is known here.
#[verifier::external_type_specification]
#[verifier::external_body]
#[verifier::reject_recursive_types(T)]
pub struct ExRange<T>(calamine::Range<T>);

/// `calamine::Data`, the value of one decoded cell. Nothing of its inside is
/// known here.
#[verifier::external_type_specification]
#[verifier::external_body]
pub struct ExData(calamine::Data);

/// What a decoded worksheet holds: the rows that `calamine::Range::rows`
/// yields, in order, and of each row the text that `Display` gives for each of
/// its cells, in column order.
pub uninterp spec fn range_texts(range: calamine::Range<calamine::Data>) -> Seq<Seq<Seq<char>>>;

/// The number of rows that `calamine::Range::rows` yields for `range`: the
/// iterator is asked for its length, which it knows exactly, and that is the
/// number of rows of `range_texts`.
#[verifier::external_body]
fn range_row_count(range: &calamine::Range<calamine::Data>) -> (count: usize)
    ensures
        count == range_texts(*range).len(),
{
    range.rows().len()
}

/// Row `index` of those that `calamine::Range::rows` yields for `range`, each
/// cell turned into text by `calamine::Data`'s `Display`: the row that
/// `range_texts` has at `index`.
#[verifier::external_body]
fn range_row(range: &calamine::Range<calamine::Data>, index: usize) -> (row: Vec<String>)
    requires
        index < range_texts(*range).len(),
    ensures
        texts(row@) == range_texts(*range)[index as int],
{
    range.rows().nth(index).unwrap().iter().map(ToString::to_string).collect()
}

/// The leading rows of `range` as text: `limit` rows, or all where the range
/// has fewer.
pub fn leading_rows(range: &calamine::Range<calamine::Data>, limit: usize) -> (rows: Vec<
    Vec<String>,
>)
    ensures
        range_texts(*range).len() <= usize::MAX,
        rows_text(rows@) == range_texts(*range).take(
            if limit <= range_texts(*range).len() {
                limit as int
            } else {
                range_texts(*range).len() as int
            },
        ),
{
    let count: usize = range_row_count(range);
    let end: usize = if limit <= count {
        limit
    } else {
        count
    };
    let mut rows: Vec<Vec<String>> = Vec::new();
    let mut i: usize = 0;
    while i < end
        invariant
            i <= end <= count == range_texts(*range).len(),
            rows@.len() == i,
            rows_text(rows@) == range_texts(*range).take(i as int),
        decreases end - i,
    {
        let ghost before = rows@;
        let row: Vec<String> = range_row(range, i);
        rows.push(row);
        proof {
            assert forall|k: int| 0 <= k < rows@.len() implies rows_text(rows@)[k] == range_texts(
                *range,
            ).take(i as int + 1)[k] by {
                if k < i {
                    assert(rows_text(before)[k] == range_texts(*range).take(i as int)[k]);
                }
            }
        }
        i += 1;
    }
    rows
}

/// How many leading rows a section can show: the header rows and the sample
/// rows together, as far as a `usize` counts.
fn shown_rows(header_rows: usize, sample_rows: usize) -> (limit: usize)
    ensures
        limit == if header_rows + sample_rows <= usize::MAX {
            header_rows + sample_rows
        } else {
            usize::MAX as int
        },
{
    if sample_rows <= usize::MAX - header_rows {
        header_rows + sample_rows
    } else {
        usize::MAX
    }
}

/// The sheet `name` as far as a report reads it: the rows of `range` up to the
/// end of the sample block, as text. Its section in any format is that of the
/// whole worksheet.
pub fn preview(
    name: String,
    range: &calamine::Range<calamine::Data>,
    header_rows: usize,
    sample_rows: usize,
) -> (sheet: Sheet)
    ensures
        sheet.name == name,
        sheet.cells() == range_texts(*range).take(
            sample_end(range_texts(*range).len(), header_rows as nat, sample_rows as nat) as int,
        ),
        forall|format: OutputFormat, file: Seq<char>, ordinal: nat|
            #[trigger] section(
                format,
                file,
                ordinal,
                name@,
                sheet.cells(),
                header_rows as nat,
                sample_rows as nat,
            ) == section(
                format,
                file,
                ordinal,
                name@,
                range_texts(*range),
                header_rows as nat,
                sample_rows as nat,
            ),
{
    let rows: Vec<Vec<String>> = leading_rows(range, shown_rows(header_rows, sample_rows));
    proof {
        let all = range_texts(*range);
        let end = sample_end(all.len(), header_rows as nat, sample_rows as nat);
        assert forall|format: OutputFormat, file: Seq<char>, ordinal: nat|
            #[trigger] section(
                format,
                file,
                ordinal,
                name@,
                rows_text(rows@),
                header_rows as nat,
                sample_rows as nat,
            ) == section(
                format,
                file,
                ordinal,
                name@,
                all,
                header_rows as nat,
                sample_rows as nat,
            ) by {
            lemma_section_reads_leading_rows(
                format,
                file,
                ordinal,
                name@,
                all,
                header_rows as nat,
                sample_rows as nat,
                end,
            );
        }
    }
    Sheet { name, rows }
}

} // verus!
