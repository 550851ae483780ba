//! The pairing of a logo with the fact block: two columns side by side, laid
//! out by the `prettytable` crate.

use crate::color::{add_color, AnsiColor};
use crate::lines::{
    join_lines, lines_after_first, lines_hold_no_feed, no_feed, split_lines, text_lines, unlines,
    unlines_prepend,
};
use crate::template::{
    lacks, substitute, substituted, substituted_stays_plain, substitution_keeps_line_count,
    substitution_keeps_plain,
};
use crate::text::{plain_text, repeat};
use crate::width::{can_lay_out, lays_out, shown_width};
use vstd::prelude::*;
use vstd::string::*;

verus! {

/// The width of a column: that of its widest line.
pub open spec fn column_width(lines: Seq<Seq<char>>) -> nat
    decreases lines.len(),
{
    if lines.len() == 0 {
        0
    } else {
        let rest = column_width(lines.drop_last());
        if shown_width(lines.last()) > rest {
            shown_width(lines.last())
        } else {
            rest
        }
    }
}

/// Line `i` of a column; empty below the column's last line.
pub open spec fn line_at(lines: Seq<Seq<char>>, i: int) -> Seq<char> {
    if 0 <= i < lines.len() {
        lines[i]
    } else {
        Seq::empty()
    }
}

/// The blanks that bring line `i` of a column to the column's width.
pub open spec fn line_fill(lines: Seq<Seq<char>>, i: int) -> nat {
    if 0 <= i < lines.len() {
        (column_width(lines) - shown_width(lines[i])) as nat
    } else {
        column_width(lines)
    }
}

/// Row `i` of the table without its line feed: a blank, the left line filled
/// to the column's width, two blanks, the right line, a blank.
pub open spec fn row_body(left: Seq<Seq<char>>, right: Seq<Seq<char>>, i: int) -> Seq<char> {
    seq![' '] + line_at(left, i) + repeat(' ', line_fill(left, i)) + seq![' ', ' '] + line_at(
        right,
        i,
    ) + seq![' ']
}

/// Rows `i` to `n` of the table, each with its line feed.
pub open spec fn table_rows(left: Seq<Seq<char>>, right: Seq<Seq<char>>, i: int, n: int) -> Seq<
    char,
>
    decreases n - i,
{
    if i >= n {
        Seq::empty()
    } else {
        row_body(left, right, i) + seq!['\n'] + table_rows(left, right, i + 1, n)
    }
}

/// The number of rows: that of the longer column, and one at least.
pub open spec fn row_count(left: Seq<Seq<char>>, right: Seq<Seq<char>>) -> int {
    if left.len() >= right.len() && left.len() >= 1 {
        left.len() as int
    } else if right.len() >= 1 {
        right.len() as int
    } else {
        1
    }
}

/// The table of two columns, given by their lines.
pub open spec fn two_columns(left: Seq<Seq<char>>, right: Seq<Seq<char>>) -> Seq<char> {
    table_rows(left, right, 0, row_count(left, right))
}

/// Lays `left` and `right` out side by side with `prettytable`: a table in
/// the format `FORMAT_CLEAN` (no borders, no separators, one blank of padding
/// on either side of a cell) with one row of two cells, printed to a string
/// by `Table::print`.
///
/// Nothing of this is proved. The contract claims of the crate: `Cell::new`
/// holds the lines of its text; the row is as high as its higher cell, and
/// one line at least; every line of the row is a blank, the left cell's line
/// filled with blanks to the width of the cell's widest line, two blanks, the
/// right cell's line, which is not filled, a blank and a line feed. The
/// width of a line is what the crate's `display_width` computes: the columns
/// that `UnicodeWidthStr::width` counts, less the characters that stand from
/// a `[` behind an escape character to the next `m` and that
/// `UnicodeWidthChar::width` counts for a column.
///
/// `display_width` stops the program on a line that has fewer columns than
/// such characters, and on no other; `requires` leaves those lines out.
#[verifier::external_body]
fn table_text(left: &str, right: &str) -> (table: String)
    requires
        lays_out(left@),
        lays_out(right@),
    ensures
        table@ == two_columns(text_lines(left@), text_lines(right@)),
{
    let mut table = prettytable::Table::new();
    table.set_format(*prettytable::format::consts::FORMAT_CLEAN);
    table.add_row(
        prettytable::Row::new(vec![prettytable::Cell::new(left), prettytable::Cell::new(right)]),
    );
    let mut bytes = Vec::new();
    let _ = table.print(&mut bytes);
    String::from_utf8_lossy(&bytes).into_owned()
}

/// What is printed for a table: its lines, each followed by a line feed, and
/// at the end the escape sequence that clears all styling.
pub open spec fn emitted(table: Seq<char>) -> Seq<char> {
    unlines(text_lines(table)) + AnsiColor::Reset.escape()
}

/// Prints a table line by line, and clears all styling behind it.
pub fn emit_table(table: &str) -> (out: String)
    ensures
        out@ == emitted(table@),
{
    let rows = split_lines(table);
    let mut out = join_lines(&rows);
    out.append(add_color(AnsiColor::Reset));
    out
}

/// What is printed for a logo, with its placeholders filled already, beside
/// a fact block.
pub open spec fn paired(logo: Seq<char>, info: Seq<char>) -> Seq<char> {
    emitted(two_columns(text_lines(logo), text_lines(info)))
}

/// The report of a template that could not be loaded, for the reason `why`.
pub open spec fn asset_report(why: Seq<char>) -> Seq<char> {
    "error: "@ + why + seq!['\n']
}

/// What one call prints: `out` on standard output, `err` on the error
/// channel.
pub struct Printed {
    pub out: String,
    pub err: String,
}

/// Whether the template `ascii_file`, if it was loaded, and the block `info`
/// can be laid out side by side: whether the table can measure every line of
/// the logo with its placeholders filled and of the block.
pub open spec fn can_pair(ascii_file: Result<Seq<char>, Seq<char>>, info: Seq<char>) -> bool {
    ascii_file matches Ok(template) ==> lays_out(substituted(template)) && lays_out(info)
}

/// Whether the template `ascii_file`, if it was loaded, and the block `info`
/// are plain.
pub open spec fn plain_pair(ascii_file: Result<Seq<char>, Seq<char>>, info: Seq<char>) -> bool {
    ascii_file matches Ok(template) ==> plain_text(template) && plain_text(info)
}

/// What is printed for the template `ascii_file`, or for the reason why it
/// could not be loaded, beside the block `info`: on standard output and on
/// the error channel.
pub open spec fn printed_for(ascii_file: Result<Seq<char>, Seq<char>>, info: Seq<char>) -> (
    Seq<char>,
    Seq<char>,
) {
    match ascii_file {
        Ok(template) => (paired(substituted(template), info), Seq::empty()),
        Err(why) => (Seq::empty(), asset_report(why)),
    }
}

/// The view of a loaded template, or of the reason why there is none.
pub open spec fn loaded_view(ascii_file: Result<String, String>) -> Result<Seq<char>, Seq<char>> {
    match ascii_file {
        Ok(template) => Ok(template@),
        Err(why) => Err(why@),
    }
}

/// The rows `i` to `n` of the table, without their line feeds.
pub open spec fn table_bodies(left: Seq<Seq<char>>, right: Seq<Seq<char>>, i: int, n: int) -> Seq<
    Seq<char>,
> {
    Seq::new((n - i) as nat, |k: int| row_body(left, right, i + k))
}

/// No line of the column holds a line feed.
pub open spec fn feedless(lines: Seq<Seq<char>>) -> bool {
    forall|i: int| 0 <= i < lines.len() ==> no_feed(#[trigger] lines[i])
}

/// The lines of a stretch of rows are the rows, and written out line by line
/// they are the stretch again.
pub proof fn table_rows_lines(left: Seq<Seq<char>>, right: Seq<Seq<char>>, i: int, n: int)
    requires
        feedless(left),
        feedless(right),
        0 <= i <= n,
    ensures
        text_lines(table_rows(left, right, i, n)) == table_bodies(left, right, i, n),
        unlines(table_bodies(left, right, i, n)) == table_rows(left, right, i, n),
    decreases n - i,
{
    if i < n {
        let body = row_body(left, right, i);
        table_rows_lines(left, right, i + 1, n);
        lines_after_first(body, table_rows(left, right, i + 1, n));
        unlines_prepend(body, table_bodies(left, right, i + 1, n));
    }
}

/// The pairing has one row for each line of the logo or of the block,
/// whichever has more, and one row where neither has a line. Row `i` holds
/// line `i` of both. Printed line by line, the table comes out as it is,
/// with the escape sequence that clears all styling behind it.
pub proof fn paired_rows(logo: Seq<char>, info: Seq<char>)
    ensures
        ({
            let left = text_lines(logo);
            let right = text_lines(info);
            let table = two_columns(left, right);
            &&& text_lines(table).len() == row_count(left, right)
            &&& left.len() > 0 || right.len() > 0 ==> row_count(left, right) == if left.len()
                >= right.len() {
                left.len()
            } else {
                right.len()
            }
            &&& forall|i: int|
                0 <= i < row_count(left, right) ==> #[trigger] text_lines(table)[i] == row_body(
                    left,
                    right,
                    i,
                )
            &&& paired(logo, info) == table + AnsiColor::Reset.escape()
        }),
{
    let left = text_lines(logo);
    let right = text_lines(info);
    lines_hold_no_feed(logo);
    lines_hold_no_feed(info);
    table_rows_lines(left, right, 0, row_count(left, right));
}

/// What is printed for a loaded template is the table and, behind it, the
/// escape sequence that clears all styling; nothing is reported. The table
/// has one row for each line of the template or of the block, whichever has
/// more, and one row where neither has a line: filling the placeholders
/// keeps the number of lines.
pub proof fn printed_rows(template: Seq<char>, info: Seq<char>)
    ensures
        ({
            let table = two_columns(text_lines(substituted(template)), text_lines(info));
            &&& printed_for(Ok(template), info) == (
                table + AnsiColor::Reset.escape(),
                Seq::<char>::empty(),
            )
            &&& text_lines(table).len() == row_count(text_lines(template), text_lines(info))
        }),
{
    paired_rows(substituted(template), info);
    substitution_keeps_line_count(template);
}

/// A template without dollar sign is laid out as it is, and beside an empty
/// block it alone fills the rows.
pub proof fn logo_alone(template: Seq<char>)
    requires
        lacks(template, '$'),
    ensures
        printed_for(Ok(template), Seq::empty()).0 == two_columns(
            text_lines(template),
            Seq::empty(),
        ) + AnsiColor::Reset.escape(),
        forall|i: int|
            0 <= i < text_lines(template).len() ==> #[trigger] text_lines(
                two_columns(text_lines(template), Seq::empty()),
            )[i] == seq![' '] + text_lines(template)[i] + repeat(
                ' ',
                line_fill(text_lines(template), i),
            ) + seq![' ', ' ', ' '],
{
    substitution_keeps_plain(template);
    paired_rows(template, Seq::empty());
}

/// A template that could not be loaded gives no row and one line of report.
pub proof fn missing_logo_prints_nothing(why: Seq<char>, info: Seq<char>)
    ensures
        printed_for(Err(why), info) == (Seq::<char>::empty(), asset_report(why)),
        text_lines(printed_for(Err(why), info).0).len() == 0,
        no_feed(why) ==> text_lines(asset_report(why)).len() == 1,
{
    if no_feed(why) {
        let head = "error: "@ + why;
        reveal_strlit("error: ");
        lines_after_first(head, Seq::empty());
    }
}

/// The lower case of a text, as `str::to_lowercase` of the standard library
/// gives it.
pub uninterp spec fn lowercase(s: Seq<char>) -> Seq<char>;

/// Calls `str::to_lowercase` of the standard library. The contract only
/// gives the result its name.
#[verifier::external_body]
fn lowercase_of(s: &str) -> (lower: String)
    ensures
        lower@ == lowercase(s@),
{
    s.to_lowercase()
}

/// Where the template of the key `key` lies.
pub open spec fn asset_path(key: Seq<char>) -> Seq<char> {
    "ascii/"@ + key + ".txt"@
}

/// Where the template of the key `key` lies.
pub fn template_path(key: &str) -> (path: String)
    ensures
        path@ == asset_path(key@),
{
    let mut path = String::new();
    path.append("ascii/");
    path.append(key);
    path.append(".txt");
    path
}

/// Where the template of a system lies: under the system's name in lower
/// case.
pub fn logo_path(bsd_type: &str) -> (path: String)
    ensures
        path@ == asset_path(lowercase(bsd_type@)),
{
    let key = lowercase_of(bsd_type);
    template_path(key.as_str())
}

/// Pairs the logo with `all_info`. `ascii_file` is the template as it was
/// loaded, or the reason why it could not be: that reason is reported, and
/// nothing is rendered.
pub fn print_with_logo(ascii_file: Result<String, String>, all_info: &str) -> (printed: Printed)
    requires
        can_pair(loaded_view(ascii_file), all_info@),
    ensures
        (printed.out@, printed.err@) == printed_for(loaded_view(ascii_file), all_info@),
{
    match ascii_file {
        Ok(buf) => {
            let logo = substitute(buf.as_str());
            let table = table_text(logo.as_str(), all_info);
            Printed { out: emit_table(table.as_str()), err: String::new() }
        },
        Err(why) => {
            let mut err = String::new();
            err.append("error: ");
            err.append(why.as_str());
            err.push('\n');
            Printed { out: String::new(), err }
        },
    }
}

/// Whether `print_with_logo` can be called on `ascii_file` and `all_info`.
/// It can where the two are plain.
pub fn pairs(ascii_file: &Result<String, String>, all_info: &str) -> (fit: bool)
    ensures
        fit == can_pair(loaded_view(*ascii_file), all_info@),
        plain_pair(loaded_view(*ascii_file), all_info@) ==> fit,
{
    match ascii_file {
        Ok(buf) => {
            let logo = substitute(buf.as_str());
            proof {
                if plain_text(buf@) {
                    substituted_stays_plain(buf@);
                }
            }
            can_lay_out(logo.as_str()) && can_lay_out(all_info)
        },
        Err(_) => true,
    }
}

/// Pairs the logo with `all_info` where the two can be laid out side by
/// side, and does nothing where they cannot. They can where they are plain.
pub fn try_print_with_logo(ascii_file: Result<String, String>, all_info: &str) -> (printed: Option<
    Printed,
>)
    ensures
        match printed {
            Some(page) => can_pair(loaded_view(ascii_file), all_info@) && (page.out@, page.err@)
                == printed_for(loaded_view(ascii_file), all_info@),
            None => !can_pair(loaded_view(ascii_file), all_info@),
        },
        plain_pair(loaded_view(ascii_file), all_info@) ==> printed is Some,
{
    if pairs(&ascii_file, all_info) {
        Some(print_with_logo(ascii_file, all_info))
    } else {
        None
    }
}

} // verus!
