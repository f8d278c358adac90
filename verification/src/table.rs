//! The table layout engine: per-column display widths over all rows,
//! left-aligned space padding, pipe-delimited row lines, and the assembly
//! of a whole table with header inference.
//!
//! Widths are measured in bytes of the rendered cell text, as the padding
//! is.

use vstd::prelude::*;
use vstd::string::StringExecFns;

use crate::strutil::push_repeated;
use crate::strutil::repeated;

verus! {

/// The display width of a cell: the byte length of its text.
pub open spec fn width_of(s: Seq<char>) -> usize {
    vstd::utf8::encode_utf8(s).len() as usize
}

/// The views of a row of rendered cells.
pub open spec fn cells_views(row: Seq<String>) -> Seq<Seq<char>> {
    row.map_values(|s: String| s@)
}

/// The views of a table of rendered cells.
pub open spec fn rows_views(t: Seq<(bool, Vec<String>)>) -> Seq<(bool, Seq<Seq<char>>)> {
    t.map_values(|r: (bool, Vec<String>)| (r.0, cells_views(r.1@)))
}

/// One row folded into the width vector, cell by cell from `i` on: the
/// vector grows by zero-width columns for cells beyond its length, and each
/// entry takes the cell's width when that is larger.
pub open spec fn row_widths_from(l: Seq<usize>, row: Seq<Seq<char>>, i: nat) -> Seq<usize>
    decreases row.len() - i,
{
    if i >= row.len() {
        l
    } else {
        let l2 = if i == l.len() {
            l.push(0usize)
        } else {
            l
        };
        let w = width_of(row[i as int]);
        let l3 = if w > l2[i as int] {
            l2.update(i as int, w)
        } else {
            l2
        };
        row_widths_from(l3, row, i + 1)
    }
}

/// The rows from `j` on folded into the width vector.
pub open spec fn table_widths_from(
    l: Seq<usize>,
    rows: Seq<(bool, Seq<Seq<char>>)>,
    j: nat,
) -> Seq<usize>
    decreases rows.len() - j,
{
    if j >= rows.len() {
        l
    } else {
        table_widths_from(row_widths_from(l, rows[j as int].1, 0), rows, j + 1)
    }
}

/// The per-column widths of a table: empty for an empty table, otherwise
/// every row folded over a vector that starts with `min_width` for each
/// column of the first row.
pub open spec fn table_widths(rows: Seq<(bool, Seq<Seq<char>>)>, min_width: usize) -> Seq<usize> {
    if rows.len() == 0 {
        Seq::<usize>::empty()
    } else {
        table_widths_from(Seq::new(rows[0].1.len(), |k: int| min_width), rows, 0)
    }
}

/// Computes the maximum display width of every column over all rows.
pub fn max_lengths_per_column(table: &Vec<(bool, Vec<String>)>, min_width: usize) -> (r: Vec<
    usize,
>)
    ensures
        r@ == table_widths(rows_views(table@), min_width),
{
    if table.len() == 0 {
        return Vec::new();
    }
    let num_columns = table[0].1.len();

    let mut max_lengths: Vec<usize> = Vec::new();
    let mut c: usize = 0;
    while c < num_columns
        invariant
            c <= num_columns,
            max_lengths@ =~= Seq::new(c as nat, |k: int| min_width),
        decreases num_columns - c,
    {
        max_lengths.push(min_width);
        proof {
            assert(max_lengths@ =~= Seq::new((c + 1) as nat, |k: int| min_width));
        }
        c += 1;
    }
    proof {
        assert(max_lengths@ =~= Seq::new(rows_views(table@)[0].1.len(), |k: int| min_width));
    }

    let ghost goal = table_widths(rows_views(table@), min_width);
    let mut j: usize = 0;
    while j < table.len()
        invariant
            j <= table@.len(),
            table_widths_from(max_lengths@, rows_views(table@), j as nat) == goal,
        decreases table@.len() - j,
    {
        let row = &table[j].1;
        proof {
            assert(rows_views(table@)[j as int].1 == cells_views(row@));
        }
        let mut i: usize = 0;
        while i < row.len()
            invariant
                i <= row@.len(),
                i <= max_lengths@.len(),
                table_widths_from(
                    row_widths_from(max_lengths@, cells_views(row@), i as nat),
                    rows_views(table@),
                    (j + 1) as nat,
                ) == goal,
            decreases row@.len() - i,
        {
            if i == max_lengths.len() {
                max_lengths.push(0);
            }
            let w = row[i].as_str().len();
            proof {
                assert(cells_views(row@)[i as int] == row@[i as int]@);
            }
            if w > max_lengths[i] {
                max_lengths.set(i, w);
            }
            i += 1;
        }
        j += 1;
    }
    max_lengths
}

/// A cell padded on the right with spaces up to `width`; a cell already
/// that wide stays as it is.
pub open spec fn padded(s: Seq<char>, width: usize) -> Seq<char> {
    if width <= width_of(s) {
        s
    } else {
        s + repeated(" "@, (width - width_of(s)) as nat)
    }
}

/// Pads `s` on the right with spaces up to `width`.
pub fn pad_left(s: &str, width: &usize) -> (r: String)
    ensures
        r@ == padded(s@, *width),
{
    if *width <= s.len() {
        return s.to_owned();
    }
    let padding = *width - s.len();
    let mut p = String::from_str(s);
    push_repeated(&mut p, " ", padding);
    p
}

/// The cell at `j`, or nothing where the row is shorter.
pub open spec fn cell_at(row: Seq<Seq<char>>, j: int) -> Seq<char> {
    if j < row.len() {
        row[j]
    } else {
        Seq::<char>::empty()
    }
}

/// The first `j` cells of a row line: each cell padded to its column's
/// width and wrapped in `| ` and a space.
pub open spec fn row_cells_upto(widths: Seq<usize>, row: Seq<Seq<char>>, j: nat) -> Seq<char>
    decreases j,
{
    if j == 0 {
        Seq::<char>::empty()
    } else {
        row_cells_upto(widths, row, (j - 1) as nat) + "| "@ + padded(
            cell_at(row, j - 1),
            widths[j - 1],
        ) + " "@
    }
}

/// A full pipe-delimited row line, one cell per column width, closed with
/// `|` and a newline.
pub open spec fn row_line(widths: Seq<usize>, row: Seq<Seq<char>>) -> Seq<char> {
    row_cells_upto(widths, row, widths.len()) + "|\n"@
}

/// Renders one table row, padding each cell to its column's width.
pub fn table_row_to_markdown(column_lengths: &Vec<usize>, row: &Vec<String>) -> (r: String)
    ensures
        r@ == row_line(column_lengths@, cells_views(row@)),
{
    let mut out = String::new();
    let mut j: usize = 0;
    while j < column_lengths.len()
        invariant
            j <= column_lengths@.len(),
            out@ == row_cells_upto(column_lengths@, cells_views(row@), j as nat),
        decreases column_lengths@.len() - j,
    {
        out.append("| ");
        let cell_str: &str = if j < row.len() {
            row[j].as_str()
        } else {
            ""
        };
        proof {
            reveal_strlit("");
            assert(cell_str@ == cell_at(cells_views(row@), j as int));
        }
        let w = column_lengths[j];
        let p = pad_left(cell_str, &w);
        out.append(p.as_str());
        out.append(" ");
        proof {
            assert(out@ =~= row_cells_upto(column_lengths@, cells_views(row@), (j + 1) as nat));
        }
        j += 1;
    }
    out.append("|\n");
    out
}

/// The divider row: dashes repeated to each column's width.
pub open spec fn dashes_of(widths: Seq<usize>) -> Seq<Seq<char>> {
    widths.map_values(|w: usize| repeated("-"@, w as nat))
}

/// The divider line under the header row.
pub open spec fn divider_line(widths: Seq<usize>) -> Seq<char> {
    row_line(widths, dashes_of(widths))
}

/// A row of blank cells, each padded to its column's width.
pub open spec fn blank_line(widths: Seq<usize>) -> Seq<char> {
    row_line(widths, Seq::<Seq<char>>::empty())
}

/// The text a row contributes: the first row is followed by the divider
/// when it is a header, and preceded by a synthetic blank header and the
/// divider when it is not; every other row is its line alone.
pub open spec fn row_text_at(
    widths: Seq<usize>,
    rows: Seq<(bool, Seq<Seq<char>>)>,
    i: int,
) -> Seq<char> {
    let line = row_line(widths, rows[i].1);
    if i == 0 {
        if rows[0].0 {
            line + divider_line(widths)
        } else {
            blank_line(widths) + divider_line(widths) + line
        }
    } else {
        line
    }
}

/// The first `j` rows of a table rendered in order.
pub open spec fn table_lines_upto(
    widths: Seq<usize>,
    rows: Seq<(bool, Seq<Seq<char>>)>,
    j: nat,
) -> Seq<char>
    decreases j,
{
    if j == 0 {
        Seq::<char>::empty()
    } else {
        table_lines_upto(widths, rows, (j - 1) as nat) + row_text_at(widths, rows, j - 1)
    }
}

/// A whole table rendered: nothing for an empty table, otherwise every row
/// under the widths the table determines, with a header row guaranteed.
pub open spec fn table_text(rows: Seq<(bool, Seq<Seq<char>>)>) -> Seq<char> {
    if rows.len() == 0 {
        Seq::<char>::empty()
    } else {
        table_lines_upto(table_widths(rows, 0), rows, rows.len())
    }
}

/// Renders a table of already-rendered cells as aligned Markdown.
pub fn render_table(rows: &Vec<(bool, Vec<String>)>) -> (r: String)
    ensures
        r@ == table_text(rows_views(rows@)),
{
    if rows.len() == 0 {
        return String::new();
    }
    let widths = max_lengths_per_column(rows, 0);

    let mut dashes: Vec<String> = Vec::new();
    let mut k: usize = 0;
    while k < widths.len()
        invariant
            k <= widths@.len(),
            dashes@.len() == k,
            forall|m: int| 0 <= m < k ==> dashes@[m]@ == repeated("-"@, widths@[m] as nat),
        decreases widths@.len() - k,
    {
        let mut d = String::new();
        push_repeated(&mut d, "-", widths[k]);
        dashes.push(d);
        k += 1;
    }
    proof {
        assert(cells_views(dashes@) =~= dashes_of(widths@));
    }
    let divider = table_row_to_markdown(&widths, &dashes);

    let blank_row: Vec<String> = Vec::new();

    let ghost rv = rows_views(rows@);
    let mut out = String::new();
    let mut i: usize = 0;
    while i < rows.len()
        invariant
            i <= rows@.len(),
            rv == rows_views(rows@),
            widths@ == table_widths(rv, 0),
            divider@ == divider_line(widths@),
            blank_row@.len() == 0,
            out@ == table_lines_upto(widths@, rv, i as nat),
        decreases rows@.len() - i,
    {
        let line = table_row_to_markdown(&widths, &rows[i].1);
        proof {
            assert(rv[i as int].1 == cells_views(rows@[i as int].1@));
        }
        if i == 0 {
            if rows[i].0 {
                out.append(line.as_str());
                out.append(divider.as_str());
            } else {
                let blank = table_row_to_markdown(&widths, &blank_row);
                proof {
                    assert(cells_views(blank_row@) =~= Seq::<Seq<char>>::empty());
                }
                out.append(blank.as_str());
                out.append(divider.as_str());
                out.append(line.as_str());
            }
        } else {
            out.append(line.as_str());
        }
        proof {
            assert(out@ =~= table_lines_upto(widths@, rv, (i + 1) as nat));
        }
        i += 1;
    }
    out
}

} // verus!
