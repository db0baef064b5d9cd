//! The text of a price table: a title, rules, a header naming the subnet
//! sizes, and one line per row with right-aligned cells.
use vstd::prelude::*;

use crate::costs::Row;
use crate::format::{decimal, decimal_string, fmt_cycles, cycles_text};
use crate::text::{push_repeated, repeat_char, repeated};

verus! {

/// Width of the first column, which holds the transaction names.
pub const NAME_WIDTH: usize = 40;

/// Width of each value column.
pub const COL_WIDTH: usize = 22;

/// `s` followed by spaces up to `width` characters (unchanged if it is
/// already that long).
pub open spec fn left_aligned(s: Seq<char>, width: nat) -> Seq<char> {
    if s.len() < width {
        s + repeated(' ', (width - s.len()) as nat)
    } else {
        s
    }
}

/// `s` preceded by spaces up to `width` characters (unchanged if it is
/// already that long).
pub open spec fn right_aligned(s: Seq<char>, width: nat) -> Seq<char> {
    if s.len() < width {
        repeated(' ', (width - s.len()) as nat) + s
    } else {
        s
    }
}

/// The value columns of a line: each cell after one space, right-aligned
/// in `COL_WIDTH` characters.
pub open spec fn cells_text(cells: Seq<Seq<char>>) -> Seq<char>
    decreases cells.len(),
{
    if cells.len() == 0 {
        Seq::empty()
    } else {
        cells_text(cells.drop_last()) + seq![' '] + right_aligned(cells.last(), COL_WIDTH as nat)
    }
}

/// The text of a sequence of `String`s.
pub open spec fn texts(v: Seq<String>) -> Seq<Seq<char>> {
    Seq::new(v.len(), |k: int| v[k]@)
}

/// The header cell of a subnet with `n` nodes.
pub open spec fn header_cell(n: nat) -> Seq<char> {
    decimal(n) + "-node app subnet"@
}

/// The width of a table with `columns` value columns.
pub open spec fn total_width(columns: nat) -> nat {
    NAME_WIDTH as nat + (1 + COL_WIDTH as nat) * columns
}

/// The header line of a table over the given subnet sizes.
pub open spec fn header_line(sizes: Seq<usize>) -> Seq<char> {
    left_aligned("Transaction"@, NAME_WIDTH as nat) + cells_text(
        Seq::new(sizes.len(), |k: int| header_cell(sizes[k] as nat)),
    )
}

/// The line of a row whose values are shown as `cells`: empty for a
/// separator, else the name left-aligned in `NAME_WIDTH` characters and
/// then the value columns.
pub open spec fn row_line(row: Row, cells: Seq<Seq<char>>) -> Seq<char> {
    match row {
        Row::Separator => Seq::empty(),
        Row::Data { name, values: _ } => left_aligned(name@, NAME_WIDTH as nat) + cells_text(cells),
    }
}

/// The lines of a table: the title, a rule of `=`, an empty line, the
/// header, a rule of `-`, then one line per row.
pub open spec fn table_text(
    title: Seq<char>,
    rows: Seq<Row>,
    sizes: Seq<usize>,
    cells: Seq<Seq<Seq<char>>>,
) -> Seq<Seq<char>> {
    let width = total_width(sizes.len());
    seq![
        title,
        repeated('=', width),
        Seq::empty(),
        header_line(sizes),
        repeated('-', width),
    ] + Seq::new(rows.len(), |i: int| row_line(rows[i], cells[i]))
}

/// Whether `cells` has one list per row, with one cell per value of each
/// data row.
pub open spec fn cells_fit(rows: Seq<Row>, cells: Seq<Vec<String>>) -> bool {
    &&& cells.len() == rows.len()
    &&& forall|i: int|
        0 <= i < rows.len() ==> match #[trigger] rows[i] {
            Row::Data { name: _, values } => cells[i]@.len() == values@.len(),
            Row::Separator => true,
        }
}

/// The cell texts of every row, as `table_text` takes them.
pub open spec fn cell_texts(cells: Seq<Vec<String>>) -> Seq<Seq<Seq<char>>> {
    Seq::new(cells.len(), |i: int| texts(cells[i]@))
}

/// Appends `s` padded with spaces on the right to `width` characters.
pub fn push_left_aligned(out: &mut String, s: &str, width: usize)
    ensures
        final(out)@ == old(out)@ + left_aligned(s@, width as nat),
{
    let len = s.unicode_len();
    out.append(s);
    if len < width {
        let ghost mid = out@;
        push_repeated(out, ' ', width - len);
        assert(out@ =~= old(out)@ + left_aligned(s@, width as nat));
    } else {
        assert(out@ =~= old(out)@ + left_aligned(s@, width as nat));
    }
}

/// Appends `s` padded with spaces on the left to `width` characters.
pub fn push_right_aligned(out: &mut String, s: &str, width: usize)
    ensures
        final(out)@ == old(out)@ + right_aligned(s@, width as nat),
{
    let len = s.unicode_len();
    if len < width {
        push_repeated(out, ' ', width - len);
    }
    out.append(s);
    assert(out@ =~= old(out)@ + right_aligned(s@, width as nat));
}

/// Appends the value columns for `cells`.
pub fn push_cells(out: &mut String, cells: &Vec<String>)
    ensures
        final(out)@ == old(out)@ + cells_text(texts(cells@)),
{
    let ghost start = out@;
    let ghost all = texts(cells@);
    let mut k: usize = 0;
    assert(all.take(0) =~= Seq::<Seq<char>>::empty());
    while k < cells.len()
        invariant
            k <= cells@.len(),
            all == texts(cells@),
            out@ == start + cells_text(all.take(k as int)),
        decreases cells.len() - k,
    {
        out.append(" ");
        push_right_aligned(out, cells[k].as_str(), COL_WIDTH);
        proof {
            let next = all.take(k + 1);
            assert(next.drop_last() =~= all.take(k as int));
            assert(next.last() == cells@[k as int]@);
            reveal_strlit(" ");
        }
        k = k + 1;
        assert(out@ =~= start + cells_text(all.take(k as int)));
    }
    assert(all.take(k as int) =~= all);
}

/// The header cell of a subnet with `n` nodes, such as `13-node app subnet`.
pub fn header_cell_string(n: usize) -> (res: String)
    ensures
        res@ == header_cell(n as nat),
{
    let mut s = decimal_string(n as u128);
    s.append("-node app subnet");
    s
}

/// The header line of a table over `subnet_sizes`.
pub fn header_line_string(subnet_sizes: &[usize]) -> (res: String)
    ensures
        res@ == header_line(subnet_sizes@),
{
    let mut headers: Vec<String> = Vec::new();
    let mut k: usize = 0;
    while k < subnet_sizes.len()
        invariant
            k <= subnet_sizes@.len(),
            headers@.len() == k,
            forall|j: int| 0 <= j < k ==> #[trigger] headers@[j]@ == header_cell(subnet_sizes@[j] as nat),
        decreases subnet_sizes.len() - k,
    {
        headers.push(header_cell_string(subnet_sizes[k]));
        k = k + 1;
    }
    let mut line = String::new();
    push_left_aligned(&mut line, "Transaction", NAME_WIDTH);
    push_cells(&mut line, &headers);
    assert(texts(headers@) =~= Seq::new(
        subnet_sizes@.len(),
        |j: int| header_cell(subnet_sizes@[j] as nat),
    ));
    assert(line@ =~= header_line(subnet_sizes@));
    line
}

/// The line of one row whose values are shown as `cells`.
pub fn row_line_string(row: &Row, cells: &Vec<String>) -> (res: String)
    ensures
        res@ == row_line(*row, texts(cells@)),
{
    match row {
        Row::Separator => {
            let s = String::new();
            s
        },
        Row::Data { name, values: _ } => {
            let mut line = String::new();
            push_left_aligned(&mut line, name, NAME_WIDTH);
            push_cells(&mut line, cells);
            assert(line@ =~= row_line(*row, texts(cells@)));
            line
        },
    }
}

/// The lines of a price table with the given title over `rows`, whose
/// values are shown as `cells` (one list per row, one text per value; the
/// list of a separator is not read). Printing them one per line gives the
/// table.
pub fn table_lines(title: &str, rows: &[Row], subnet_sizes: &[usize], cells: &Vec<Vec<String>>) -> (res: Vec<String>)
    requires
        cells_fit(rows@, cells@),
        total_width(subnet_sizes@.len() as nat) <= usize::MAX,
    ensures
        texts(res@) == table_text(title@, rows@, subnet_sizes@, cell_texts(cells@)),
{
    let width = NAME_WIDTH + (1 + COL_WIDTH) * subnet_sizes.len();
    let mut lines: Vec<String> = Vec::new();
    let mut t = String::new();
    t.append(title);
    lines.push(t);
    lines.push(repeat_char('=', width));
    lines.push(String::new());
    lines.push(header_line_string(subnet_sizes));
    lines.push(repeat_char('-', width));
    let ghost head = texts(lines@);
    let ghost all_cells = cell_texts(cells@);
    assert(head =~= seq![
        title@,
        repeated('=', total_width(subnet_sizes@.len() as nat)),
        Seq::<char>::empty(),
        header_line(subnet_sizes@),
        repeated('-', total_width(subnet_sizes@.len() as nat)),
    ]);
    let mut i: usize = 0;
    while i < rows.len()
        invariant
            i <= rows@.len(),
            cells_fit(rows@, cells@),
            all_cells == cell_texts(cells@),
            lines@.len() == 5 + i,
            forall|j: int| 0 <= j < 5 ==> #[trigger] lines@[j]@ == head[j],
            forall|j: int|
                0 <= j < i ==> #[trigger] lines@[5 + j]@ == row_line(rows@[j], all_cells[j]),
        decreases rows.len() - i,
    {
        let line = row_line_string(&rows[i], &cells[i]);
        lines.push(line);
        i = i + 1;
    }
    proof {
        let tt = table_text(title@, rows@, subnet_sizes@, all_cells);
        let prefix = seq![
            title@,
            repeated('=', total_width(subnet_sizes@.len() as nat)),
            Seq::<char>::empty(),
            header_line(subnet_sizes@),
            repeated('-', total_width(subnet_sizes@.len() as nat)),
        ];
        let body = Seq::new(rows@.len(), |r: int| row_line(rows@[r], all_cells[r]));
        assert(tt == prefix + body);
        assert forall|j: int| 0 <= j < tt.len() implies #[trigger] texts(lines@)[j] == tt[j] by {
            if j < 5 {
                assert(lines@[j]@ == head[j]);
                assert(head[j] == prefix[j]);
            } else {
                let r = j - 5;
                assert(lines@[5 + r]@ == row_line(rows@[r], all_cells[r]));
                assert(tt[j] == body[r]);
            }
        }
        assert(texts(lines@) =~= tt);
    }
    lines
}

/// The cells of a cycles table: each value written by `fmt_cycles`, and an
/// empty list for a separator.
pub fn cycles_cells(rows: &[Row]) -> (cells: Vec<Vec<String>>)
    ensures
        cells_fit(rows@, cells@),
        forall|i: int|
            0 <= i < rows@.len() ==> match #[trigger] rows@[i] {
                Row::Data { name: _, values } => forall|k: int|
                    0 <= k < values@.len() ==> #[trigger] cells@[i]@[k]@ == cycles_text(
                        values@[k] as nat,
                    ),
                Row::Separator => cells@[i]@.len() == 0,
            },
{
    let mut cells: Vec<Vec<String>> = Vec::new();
    let mut i: usize = 0;
    while i < rows.len()
        invariant
            i <= rows@.len(),
            cells@.len() == i,
            forall|j: int|
                0 <= j < i ==> match #[trigger] rows@[j] {
                    Row::Data { name: _, values } => {
                        &&& cells@[j]@.len() == values@.len()
                        &&& forall|k: int|
                            0 <= k < values@.len() ==> #[trigger] cells@[j]@[k]@ == cycles_text(
                                values@[k] as nat,
                            )
                    },
                    Row::Separator => cells@[j]@.len() == 0,
                },
        decreases rows.len() - i,
    {
        let mut row_cells: Vec<String> = Vec::new();
        match &rows[i] {
            Row::Separator => {},
            Row::Data { name: _, values } => {
                let mut k: usize = 0;
                while k < values.len()
                    invariant
                        k <= values@.len(),
                        row_cells@.len() == k,
                        forall|j: int|
                            0 <= j < k ==> #[trigger] row_cells@[j]@ == cycles_text(
                                values@[j] as nat,
                            ),
                    decreases values.len() - k,
                {
                    row_cells.push(fmt_cycles(values[k]));
                    k = k + 1;
                }
            },
        }
        cells.push(row_cells);
        i = i + 1;
    }
    cells
}

} // verus!

verus! {

proof fn lemma_cells_text_len(cells: Seq<Seq<char>>)
    requires
        forall|k: int| 0 <= k < cells.len() ==> (#[trigger] cells[k]).len() <= COL_WIDTH,
    ensures
        cells_text(cells).len() == (1 + COL_WIDTH) * cells.len(),
    decreases cells.len(),
{
    if cells.len() > 0 {
        let rest = cells.drop_last();
        assert forall|k: int| 0 <= k < rest.len() implies (#[trigger] rest[k]).len() <= COL_WIDTH by {
            assert(rest[k] == cells[k]);
        }
        lemma_cells_text_len(rest);
        assert(cells.last() == cells[cells.len() - 1]);
    }
}

/// Whether the names of the data rows fit the first column and every data
/// row has one cell per subnet, each fitting a value column.
pub open spec fn row_cells_fit(rows: Seq<Row>, sizes: Seq<usize>, cells: Seq<Seq<Seq<char>>>) -> bool {
    &&& cells.len() == rows.len()
    &&& forall|i: int|
        0 <= i < rows.len() ==> match #[trigger] rows[i] {
            Row::Data { name, values: _ } => {
                &&& name@.len() <= NAME_WIDTH
                &&& cells[i].len() == sizes.len()
                &&& forall|k: int| 0 <= k < sizes.len() ==> (#[trigger] cells[i][k]).len() <= COL_WIDTH
            },
            Row::Separator => true,
        }
}

/// The columns of a table line up: when the names fit the first column and
/// every cell, the header cells included, fits a value column, the two
/// rules, the header and every data line are all `total_width` characters
/// long, and a separator line is empty.
pub proof fn law_columns_align(
    title: Seq<char>,
    rows: Seq<Row>,
    sizes: Seq<usize>,
    cells: Seq<Seq<Seq<char>>>,
)
    requires
        row_cells_fit(rows, sizes, cells),
        forall|k: int| 0 <= k < sizes.len() ==> header_cell(#[trigger] sizes[k] as nat).len() <= COL_WIDTH,
    ensures
        table_text(title, rows, sizes, cells).len() == 5 + rows.len(),
        table_text(title, rows, sizes, cells)[1].len() == total_width(sizes.len()),
        table_text(title, rows, sizes, cells)[3].len() == total_width(sizes.len()),
        table_text(title, rows, sizes, cells)[4].len() == total_width(sizes.len()),
        forall|i: int|
            0 <= i < rows.len() ==> (#[trigger] table_text(title, rows, sizes, cells)[5 + i]).len() == match rows[i] {
                Row::Data { .. } => total_width(sizes.len()),
                Row::Separator => 0,
            },
{
    let t = table_text(title, rows, sizes, cells);
    let headers = Seq::new(sizes.len(), |k: int| header_cell(sizes[k] as nat));
    assert forall|k: int| 0 <= k < headers.len() implies (#[trigger] headers[k]).len() <= COL_WIDTH by {
        assert(headers[k] == header_cell(sizes[k] as nat));
    }
    lemma_cells_text_len(headers);
    reveal_strlit("Transaction");
    assert(t[3] == header_line(sizes));
    assert forall|i: int|
        0 <= i < rows.len() implies (#[trigger] t[5 + i]).len() == match rows[i] {
            Row::Data { .. } => total_width(sizes.len()),
            Row::Separator => 0,
        } by {
        assert(t[5 + i] == row_line(rows[i], cells[i]));
        match rows[i] {
            Row::Data { name, values: _ } => {
                lemma_cells_text_len(cells[i]);
            },
            Row::Separator => {},
        }
    }
}

} // verus!
