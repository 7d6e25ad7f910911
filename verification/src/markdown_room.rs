//! Whether markdown lines have room for their marks when they are wrapped to a
//! width: lines by themselves, and the cells of tables in columns that are fitted
//! to the width.

use vstd::prelude::*;

use crate::markdown;
use crate::markdown::{CellModel, Kind, LineModel, MdCell, MdLine};
use crate::text;

use termimad::TblFit;

verus! {

// ---------------------------------------------------------------------------
// Fitting columns
// ---------------------------------------------------------------------------

/// What fits the columns of a table to a width.
#[verifier::external_type_specification]
#[verifier::external_body]
pub struct ExTblFit(termimad::TblFit);

/// What is known of a column: how wide its cells are together, how wide the widest is,
/// but three at least, and how many they are.
pub struct ColumnModel {
    pub sum: nat,
    pub widest: nat,
    pub count: nat,
}

/// A table that is fitted: the columns of the terminal that its cells may take, and what
/// is known of its columns.
#[verifier::ext_equal]
pub struct FitModel {
    pub available: nat,
    pub columns: Seq<ColumnModel>,
}

/// What is known of a table that is fitted.
pub uninterp spec fn fit_of(fit: TblFit) -> FitModel;

/// The widths that the columns of a table are fitted to.
pub uninterp spec fn widths_fitted(m: FitModel) -> Seq<usize>;

/// A column of which no cell was seen.
pub open spec fn fresh_column() -> ColumnModel {
    ColumnModel { sum: 0, widest: 3, count: 0 }
}

/// A column of which one more cell was seen.
pub open spec fn column_seen(column: ColumnModel, width: usize) -> ColumnModel {
    ColumnModel {
        sum: column.sum + width as nat,
        widest: if column.widest < width {
            width as nat
        } else {
            column.widest
        },
        count: column.count + 1,
    }
}

/// `TblFit::new`: nothing was seen yet, and each column takes one more for its border, as
/// the table does. It fails where a column gets less than three columns of the terminal.
/// Its error is dropped.
#[verifier::external_body]
fn new_fit(columns: usize, width: usize) -> (r: Option<TblFit>)
    requires
        columns * 4 + 1 <= usize::MAX,
    ensures
        r is Some <==> columns * 4 + 1 <= width,
        r matches Some(fit) ==> fit_of(fit) == (FitModel {
            available: (width - 1 - columns) as nat,
            columns: Seq::new(columns as nat, |c: int| fresh_column()),
        }),
{
    TblFit::new(columns, width).ok()
}

/// `TblFit::see_cell`: one more cell of a column was seen. It adds up the widths of the
/// cells of a column, and counts them.
#[verifier::external_body]
fn see_cell(fit: &mut TblFit, column: usize, width: usize)
    requires
        column < fit_of(*old(fit)).columns.len(),
        fit_of(*old(fit)).columns[column as int].sum + width <= usize::MAX,
        fit_of(*old(fit)).columns[column as int].count < usize::MAX,
    ensures
        fit_of(*final(fit)) == (FitModel {
            columns: fit_of(*old(fit)).columns.update(
                column as int,
                column_seen(fit_of(*old(fit)).columns[column as int], width),
            ),
            ..fit_of(*old(fit))
        }),
{
    fit.see_cell(column, width)
}

/// `TblFit::fit`, of which the widths are taken: they are a function of what was seen,
/// one for each column. Where the columns are too wide it multiplies widths.
#[verifier::external_body]
fn fit_widths(fit: &TblFit) -> (r: Vec<usize>)
    requires
        can_fit(fit_of(*fit)),
    ensures
        r@ == widths_fitted(fit_of(*fit)),
        r@.len() == fit_of(*fit).columns.len(),
{
    fit.fit().col_widths
}

/// How wide the first `n` columns would like to be together.
pub open spec fn wished(columns: Seq<ColumnModel>, n: nat) -> int
    decreases n,
{
    if n == 0 {
        0
    } else {
        wished(columns, (n - 1) as nat) + columns[n - 1].widest
    }
}

/// Whether the columns of a table can be fitted: they have room, or their widths can
/// be multiplied with each other in the machine's word.
pub open spec fn can_fit(m: FitModel) -> bool {
    let total = wished(m.columns, m.columns.len());
    &&& total <= usize::MAX
    &&& total <= m.available || total * total <= usize::MAX
}

// ---------------------------------------------------------------------------
// Room
// ---------------------------------------------------------------------------

/// What counts for the room that a line or a table cell needs.
pub struct RoomCell {
    pub kind: Kind,
    pub width: usize,
    pub margins: (usize, usize),
}

/// What counts for the room that a line needs.
#[verifier::ext_equal]
pub enum RoomLine {
    Normal(RoomCell),
    Row(Seq<RoomCell>),
    Rule(nat),
    Other,
}

/// What counts for the room that a line or a table cell needs.
pub open spec fn room_of(cell: CellModel) -> RoomCell {
    RoomCell { kind: cell.kind, width: cell.width, margins: cell.margins }
}

/// What counts for the room that the cells of a row need.
pub open spec fn rooms_of(cells: Seq<CellModel>) -> Seq<RoomCell> {
    Seq::new(cells.len(), |c: int| room_of(cells[c]))
}

/// What counts for the room that a line needs.
pub open spec fn room_line(line: LineModel) -> RoomLine {
    match line {
        LineModel::Normal(cell) => RoomLine::Normal(room_of(cell)),
        LineModel::TableRow(cells) => RoomLine::Row(rooms_of(cells)),
        LineModel::TableRule { columns, .. } => RoomLine::Rule(columns),
        LineModel::HorizontalRule => RoomLine::Other,
    }
}

/// What counts for the room that lines need.
pub open spec fn room_lines(lines: Seq<LineModel>) -> Seq<RoomLine> {
    Seq::new(lines.len(), |i: int| room_line(lines[i]))
}

/// The columns that the mark before a line takes.
pub open spec fn mark_width(kind: Kind) -> int {
    match kind {
        Kind::ListItem(depth) => 2 + depth,
        Kind::ListItemFollowUp(depth) => 2 + depth,
        Kind::OrderedListItem { level, index } => text::decimal(index as nat).len() + 2 + level,
        Kind::OrderedListItemFollowUp { level, index } => text::decimal(index as nat).len() + 2
            + level,
        Kind::Quote => 2,
        _ => 0,
    }
}

/// Whether a line or a table cell can be wrapped to a room: one that has enough is not
/// wrapped, and any other must have room for its mark.
pub open spec fn fits_in(cell: RoomCell, room: int) -> bool {
    cell.width <= room || mark_width(cell.kind) <= room
}

/// Whether a line that is not part of a table can be wrapped to a width. Margins that
/// would leave less than three columns are left out.
pub open spec fn line_has_room(cell: RoomCell, width: usize) -> bool {
    let (left, right) = cell.margins;
    &&& left + right + 3 <= usize::MAX
    &&& if width < left + right + 3 {
        fits_in(cell, width as int)
    } else {
        cell.width + left + right <= usize::MAX && fits_in(cell, width - left - right)
    }
}

/// Whether a line is part of a table.
pub open spec fn in_table(line: RoomLine) -> bool {
    line is Row || line is Rule
}

/// How many columns a line of a table has.
pub open spec fn line_columns(line: RoomLine) -> nat {
    match line {
        RoomLine::Row(cells) => cells.len(),
        RoomLine::Rule(columns) => columns,
        _ => 0,
    }
}

/// How many columns a table has: as many as the longest of its lines.
pub open spec fn columns_of(table: Seq<RoomLine>) -> nat
    decreases table.len(),
{
    if table.len() == 0 {
        0
    } else {
        let before = columns_of(table.drop_last());
        if before < line_columns(table.last()) {
            line_columns(table.last())
        } else {
            before
        }
    }
}

/// Columns of which the cells of one more row were seen.
pub open spec fn row_seen(columns: Seq<ColumnModel>, cells: Seq<RoomCell>) -> Seq<ColumnModel>
    decreases cells.len(),
{
    if cells.len() == 0 {
        columns
    } else {
        let before = row_seen(columns, cells.drop_last());
        let c = cells.len() - 1;
        before.update(c, column_seen(before[c], cells.last().width))
    }
}

/// The `n` columns of a table of which all rows were seen.
pub open spec fn table_seen(table: Seq<RoomLine>, n: nat) -> Seq<ColumnModel>
    decreases table.len(),
{
    if table.len() == 0 {
        Seq::new(n, |c: int| fresh_column())
    } else {
        let before = table_seen(table.drop_last(), n);
        match table.last() {
            RoomLine::Row(cells) => row_seen(before, cells),
            _ => before,
        }
    }
}

/// The table as it is fitted to a width.
pub open spec fn table_fit(table: Seq<RoomLine>, width: usize) -> FitModel {
    FitModel {
        available: (width - 1 - columns_of(table)) as nat,
        columns: table_seen(table, columns_of(table)),
    }
}

/// Whether the widths of the cells of a column can be added up, for each column.
pub open spec fn sums_fit(columns: Seq<ColumnModel>) -> bool {
    forall|c: int| 0 <= c < columns.len() ==> (#[trigger] columns[c]).sum <= usize::MAX
}

/// The widths of the columns of a table that is drawn in a width: those that it is
/// fitted to, or where there is too little room for all columns, three for as many as
/// there is room for.
pub open spec fn column_widths(table: Seq<RoomLine>, width: usize) -> Seq<usize> {
    if columns_of(table) * 4 + 1 <= width {
        widths_fitted(table_fit(table, width))
    } else {
        Seq::new(((width - 1) / 4) as nat, |c: int| 3usize)
    }
}

/// Whether the cells of a row can be wrapped to the widths of their columns.
pub open spec fn row_fits(cells: Seq<RoomCell>, widths: Seq<usize>) -> bool {
    forall|c: int|
        0 <= c < cells.len() && c < widths.len() ==> fits_in(#[trigger] cells[c], widths[c] as int)
}

/// Whether the rows of a table can be wrapped to the widths of its columns.
pub open spec fn rows_fit(table: Seq<RoomLine>, widths: Seq<usize>) -> bool {
    forall|i: int|
        0 <= i < table.len() ==> ((#[trigger] table[i]) matches RoomLine::Row(cells) ==> row_fits(
            cells,
            widths,
        ))
}

/// Whether a table can be drawn in a width.
pub open spec fn table_has_room(table: Seq<RoomLine>, width: usize) -> bool {
    &&& columns_of(table) * 4 + 1 <= usize::MAX
    &&& columns_of(table) * 4 + 1 <= width ==> sums_fit(table_fit(table, width).columns)
        && can_fit(table_fit(table, width))
    &&& rows_fit(table, column_widths(table, width))
}

/// Whether the lines from `a` to `b` are a table: as many as follow each other.
pub open spec fn table_at(lines: Seq<RoomLine>, a: int, b: int) -> bool {
    &&& 0 <= a < b <= lines.len()
    &&& forall|i: int| a <= i < b ==> in_table(#[trigger] lines[i])
    &&& a > 0 ==> !in_table(lines[a - 1])
    &&& b < lines.len() ==> !in_table(lines[b])
}

/// Whether all tables among the lines can be drawn in a width. In none a table is left
/// as it is.
pub open spec fn tables_fit(lines: Seq<RoomLine>, width: usize) -> bool {
    width > 0 ==> forall|a: int, b: int| #[trigger]
        table_at(lines, a, b) ==> table_has_room(lines.subrange(a, b), width)
}

/// Whether all lines that are not part of a table can be wrapped to a width. To less
/// than three columns nothing is wrapped.
pub open spec fn lines_fit(lines: Seq<RoomLine>, width: usize) -> bool {
    width >= 3 ==> forall|i: int|
        0 <= i < lines.len() ==> ((#[trigger] lines[i]) matches RoomLine::Normal(cell)
            ==> line_has_room(cell, width))
}

/// Whether lines that are not wrapped yet have room for their marks in a width.
pub open spec fn has_room(lines: Seq<LineModel>, width: usize) -> bool {
    &&& lines_fit(room_lines(lines), width)
    &&& tables_fit(room_lines(lines), width)
}

// ---------------------------------------------------------------------------
// Looking for room
// ---------------------------------------------------------------------------

/// What counts for the room that lines need.
spec fn rooms(lines: Seq<MdLine>) -> Seq<RoomLine> {
    room_lines(markdown::line_views(lines))
}

/// What counts for the room that the cells of a row need.
spec fn cell_rooms(cells: Seq<MdCell>) -> Seq<RoomCell> {
    rooms_of(markdown::cell_views(cells))
}

/// The columns that the mark before a line takes.
fn mark_columns(kind: Kind) -> (r: usize)
    ensures
        r == mark_width(kind),
{
    match kind {
        Kind::ListItem(depth) => 2 + depth as usize,
        Kind::ListItemFollowUp(depth) => 2 + depth as usize,
        Kind::OrderedListItem { level, index } => markdown::ordered_item_indent(level, index),
        Kind::OrderedListItemFollowUp { level, index } => markdown::ordered_item_indent(
            level,
            index,
        ),
        Kind::Quote => 2,
        _ => 0,
    }
}

/// Whether a line or a table cell can be wrapped to a room.
fn can_fit_in(cell: &MdCell, room: usize) -> (r: bool)
    ensures
        r == fits_in(room_of(cell@), room as int),
{
    cell.width <= room || mark_columns(cell.kind) <= room
}

/// Whether a line that is not part of a table can be wrapped to a width.
fn check_line(cell: &MdCell, width: usize) -> (r: bool)
    ensures
        r == line_has_room(room_of(cell@), width),
{
    let (left, right) = cell.margins;
    if left > usize::MAX - 3 || right > usize::MAX - 3 - left {
        return false;
    }
    if width < left + right + 3 {
        can_fit_in(cell, width)
    } else {
        cell.width <= usize::MAX - left - right && can_fit_in(cell, width - left - right)
    }
}

/// Whether all lines that are not part of a table can be wrapped to a width.
fn check_lines(lines: &Vec<MdLine>, width: usize) -> (r: bool)
    ensures
        r == lines_fit(rooms(lines@), width),
{
    if width < 3 {
        return true;
    }
    let ghost all = rooms(lines@);
    let mut i: usize = 0;
    while i < lines.len()
        invariant
            i <= lines.len(),
            width >= 3,
            all == rooms(lines@),
            forall|j: int|
                0 <= j < i ==> ((#[trigger] all[j]) matches RoomLine::Normal(cell)
                    ==> line_has_room(cell, width)),
        decreases lines.len() - i,
    {
        assert(all[i as int] == room_line(lines@[i as int]@));
        if let MdLine::Normal(cell) = &lines[i] {
            if !check_line(cell, width) {
                return false;
            }
        }
        i += 1;
    }
    true
}

/// Whether a line is part of a table.
fn is_in_table(line: &MdLine) -> (r: bool)
    ensures
        r == in_table(room_line(line@)),
{
    match line {
        MdLine::TableRow(_) => true,
        MdLine::TableRule { .. } => true,
        MdLine::Normal(_) => false,
        MdLine::HorizontalRule => false,
    }
}

/// How many columns the table from `a` to `b` has.
fn count_columns(lines: &Vec<MdLine>, a: usize, b: usize) -> (r: usize)
    requires
        a <= b <= lines@.len(),
    ensures
        r == columns_of(rooms(lines@).subrange(a as int, b as int)),
{
    let mut n: usize = 0;
    let mut i: usize = a;
    let ghost table = rooms(lines@).subrange(a as int, b as int);
    assert(table.take(0) =~= seq![]);
    while i < b
        invariant
            a <= i <= b <= lines@.len(),
            table == rooms(lines@).subrange(a as int, b as int),
            n == columns_of(table.take(i - a)),
        decreases b - i,
    {
        let columns: usize = match &lines[i] {
            MdLine::TableRow(cells) => cells.len(),
            MdLine::TableRule { columns, .. } => *columns,
            MdLine::Normal(_) => 0,
            MdLine::HorizontalRule => 0,
        };
        assert(table.take(i - a + 1).drop_last() =~= table.take(i - a));
        assert(table.take(i - a + 1).last() == room_line(lines@[i as int]@));
        if n < columns {
            n = columns;
        }
        i += 1;
    }
    assert(table.take(b - a) =~= table);
    n
}

/// No line of a table has more columns than the table.
proof fn columns_bound(table: Seq<RoomLine>, i: int)
    requires
        0 <= i < table.len(),
    ensures
        line_columns(table[i]) <= columns_of(table),
    decreases table.len(),
{
    if i < table.len() - 1 {
        columns_bound(table.drop_last(), i);
    }
}

/// A row adds to the sums of columns, and there are as many of them as before.
proof fn row_adds(columns: Seq<ColumnModel>, cells: Seq<RoomCell>, c: int)
    requires
        cells.len() <= columns.len(),
        0 <= c < columns.len(),
    ensures
        row_seen(columns, cells).len() == columns.len(),
        columns[c].sum <= row_seen(columns, cells)[c].sum,
    decreases cells.len(),
{
    if cells.len() > 0 {
        row_adds(columns, cells.drop_last(), c);
        row_adds(columns, cells.drop_last(), cells.len() - 1);
    }
}

/// The sums of the first cells of a row are no larger than those of all of them.
proof fn row_goes_on(columns: Seq<ColumnModel>, cells: Seq<RoomCell>, n: int, c: int)
    requires
        cells.len() <= columns.len(),
        0 <= n <= cells.len(),
        0 <= c < columns.len(),
    ensures
        row_seen(columns, cells.take(n)).len() == columns.len(),
        row_seen(columns, cells.take(n))[c].sum <= row_seen(columns, cells)[c].sum,
    decreases cells.len(),
{
    row_adds(columns, cells, c);
    if n == cells.len() {
        assert(cells.take(n) =~= cells);
    } else {
        row_goes_on(columns, cells.drop_last(), n, c);
        assert(cells.drop_last().take(n) =~= cells.take(n));
        row_adds(columns, cells.drop_last(), c);
    }
}

/// The sums of the first rows of a table are no larger than those of all of them.
proof fn table_goes_on(table: Seq<RoomLine>, width: nat, n: int, c: int)
    requires
        forall|i: int| 0 <= i < table.len() ==> line_columns(#[trigger] table[i]) <= width,
        0 <= n <= table.len(),
        0 <= c < width,
    ensures
        table_seen(table.take(n), width).len() == width,
        table_seen(table, width).len() == width,
        table_seen(table.take(n), width)[c].sum <= table_seen(table, width)[c].sum,
    decreases table.len(),
{
    if n == table.len() {
        assert(table.take(n) =~= table);
        if table.len() > 0 {
            table_goes_on(table.drop_last(), width, n - 1, c);
            assert(line_columns(table[table.len() - 1]) <= width);
            match table.last() {
                RoomLine::Row(cells) => {
                    row_adds(table_seen(table.drop_last(), width), cells, c);
                },
                _ => {},
            }
        }
    } else {
        table_goes_on(table.drop_last(), width, n, c);
        assert(table.drop_last().take(n) =~= table.take(n));
        assert(line_columns(table[table.len() - 1]) <= width);
        match table.last() {
            RoomLine::Row(cells) => {
                row_adds(table_seen(table.drop_last(), width), cells, c);
            },
            _ => {},
        }
    }
}

/// What is known of a column.
struct Column {
    sum: usize,
    widest: usize,
    count: usize,
}

/// What is known of columns.
spec fn column_views(columns: Seq<Column>) -> Seq<ColumnModel> {
    Seq::new(
        columns.len(),
        |c: int|
            ColumnModel {
                sum: columns[c].sum as nat,
                widest: columns[c].widest as nat,
                count: columns[c].count as nat,
            },
    )
}

/// Has the cells of a row seen. Says whether their widths could be added up.
fn see_row(fit: &mut TblFit, columns: &mut Vec<Column>, cells: &Vec<MdCell>, rows: usize) -> (r:
    bool)
    requires
        cells@.len() <= old(columns)@.len(),
        fit_of(*old(fit)).columns == column_views(old(columns)@),
        rows < usize::MAX,
        forall|c: int| 0 <= c < old(columns)@.len() ==> (#[trigger] old(columns)@[c]).count <= rows,
    ensures
        ({
            let after = row_seen(fit_of(*old(fit)).columns, cell_rooms(cells@));
            if r {
                &&& fit_of(*final(fit)) == (FitModel { columns: after, ..fit_of(*old(fit)) })
                &&& column_views(final(columns)@) == after
                &&& forall|c: int|
                    0 <= c < final(columns)@.len() ==> (#[trigger] final(columns)@[c]).count
                        <= rows + 1
            } else {
                !sums_fit(after)
            }
        }),
{
    let ghost was = fit_of(*fit);
    let ghost row = cell_rooms(cells@);
    let mut c: usize = 0;
    assert(row.take(0) =~= seq![]);
    while c < cells.len()
        invariant
            c <= cells.len(),
            was == fit_of(*old(fit)),
            row == cell_rooms(cells@),
            cells@.len() <= columns@.len(),
            columns@.len() == was.columns.len(),
            rows < usize::MAX,
            fit_of(*fit) == (FitModel { columns: row_seen(was.columns, row.take(c as int)), ..was }),
            column_views(columns@) == row_seen(was.columns, row.take(c as int)),
            forall|k: int|
                0 <= k < columns@.len() ==> (#[trigger] columns@[k]).count <= rows + 1,
            forall|k: int| c <= k < columns@.len() ==> (#[trigger] columns@[k]).count <= rows,
        decreases cells.len() - c,
    {
        let w: usize = cells[c].width;
        let ghost before = row_seen(was.columns, row.take(c as int));
        let ghost after = row_seen(was.columns, row.take(c + 1));
        proof {
            assert(row.take(c + 1).drop_last() =~= row.take(c as int));
            assert(row.take(c + 1).last().width == w);
            assert(before.len() == columns@.len());
            assert(before[c as int].sum == columns@[c as int].sum);
            assert(before[c as int].count == columns@[c as int].count);
            assert(before[c as int].widest == columns@[c as int].widest);
            assert(after =~= before.update(c as int, column_seen(before[c as int], w)));
        }
        let Column { sum, widest, count } = columns[c];
        if w > usize::MAX - sum {
            proof {
                row_goes_on(was.columns, row, c + 1, c as int);
                assert(after[c as int].sum > usize::MAX);
                row_adds(was.columns, row, c as int);
                assert(!sums_fit(row_seen(was.columns, row)));
            }
            return false;
        }
        see_cell(fit, c, w);
        columns.set(
            c,
            Column { sum: sum + w, widest: if widest < w { w } else { widest }, count: count + 1 },
        );
        assert(column_views(columns@) =~= after);
        c += 1;
    }
    assert(row.take(c as int) =~= row);
    true
}

/// More columns wish for no less room.
proof fn wishes_grow(columns: Seq<ColumnModel>, n: nat, m: nat)
    requires
        n <= m,
    ensures
        wished(columns, n) <= wished(columns, m),
    decreases m,
{
    if n < m {
        wishes_grow(columns, n, (m - 1) as nat);
    }
}

/// How wide columns would like to be together, where that is in range.
fn add_up(columns: &Vec<Column>) -> (r: Option<usize>)
    ensures
        match r {
            Some(n) => n == wished(column_views(columns@), columns@.len()),
            None => wished(column_views(columns@), columns@.len()) > usize::MAX,
        },
{
    let ghost all = column_views(columns@);
    let mut n: usize = 0;
    let mut k: usize = 0;
    while k < columns.len()
        invariant
            k <= columns.len(),
            all == column_views(columns@),
            n == wished(all, k as nat),
        decreases columns.len() - k,
    {
        assert(wished(all, (k + 1) as nat) == wished(all, k as nat) + all[k as int].widest);
        if columns[k].widest > usize::MAX - n {
            proof {
                wishes_grow(all, (k + 1) as nat, columns@.len());
            }
            return None;
        }
        n = n + columns[k].widest;
        k += 1;
    }
    Some(n)
}

/// The widths that the columns of the table from `a` to `b` are fitted to, where they
/// can be fitted.
fn fit_table(lines: &Vec<MdLine>, a: usize, b: usize, n: usize, width: usize) -> (r: Option<
    Vec<usize>,
>)
    requires
        a <= b <= lines@.len(),
        n == columns_of(rooms(lines@).subrange(a as int, b as int)),
        n * 4 + 1 <= width,
    ensures
        ({
            let m = table_fit(rooms(lines@).subrange(a as int, b as int), width);
            match r {
                Some(widths) => widths@ == widths_fitted(m) && sums_fit(m.columns) && can_fit(m),
                None => !sums_fit(m.columns) || !can_fit(m),
            }
        }),
{
    let ghost table = rooms(lines@).subrange(a as int, b as int);
    let mut fit = match new_fit(n, width) {
        Some(fit) => fit,
        None => {
            return None;
        },
    };
    let mut columns: Vec<Column> = Vec::new();
    while columns.len() < n
        invariant
            columns@.len() <= n,
            forall|c: int|
                0 <= c < columns@.len() ==> #[trigger] columns@[c] == (Column {
                    sum: 0,
                    widest: 3,
                    count: 0,
                }),
        decreases n - columns.len(),
    {
        columns.push(Column { sum: 0, widest: 3, count: 0 });
    }
    let mut i: usize = a;
    assert(table.take(0) =~= seq![]);
    assert(column_views(columns@) =~= table_seen(table.take(0), n as nat));
    assert forall|j: int| 0 <= j < table.len() implies line_columns(#[trigger] table[j]) <= n by {
        columns_bound(table, j);
    }
    while i < b
        invariant
            a <= i <= b <= lines@.len(),
            table == rooms(lines@).subrange(a as int, b as int),
            n == columns_of(table),
            forall|j: int| 0 <= j < table.len() ==> line_columns(#[trigger] table[j]) <= n,
            columns@.len() == n,
            fit_of(fit) == (FitModel {
                available: (width - 1 - n) as nat,
                columns: table_seen(table.take(i - a), n as nat),
            }),
            column_views(columns@) == table_seen(table.take(i - a), n as nat),
            forall|c: int| 0 <= c < columns@.len() ==> (#[trigger] columns@[c]).count <= i - a,
        decreases b - i,
    {
        proof {
            assert(table.take(i - a + 1).drop_last() =~= table.take(i - a));
            assert(table.take(i - a + 1).last() == room_line(lines@[i as int]@));
            assert(table[i - a] == room_line(lines@[i as int]@));
        }
        if let MdLine::TableRow(cells) = &lines[i] {
            assert(table[i - a] == RoomLine::Row(cell_rooms(cells@)));
            if !see_row(&mut fit, &mut columns, cells, i - a) {
                proof {
                    let seen = table_seen(table.take(i - a + 1), n as nat);
                    let c = choose|c: int|
                        0 <= c < seen.len() && (#[trigger] seen[c]).sum > usize::MAX;
                    if n > 0 {
                        table_goes_on(table, n as nat, i - a + 1, 0);
                    }
                    table_goes_on(table, n as nat, i - a + 1, c);
                    assert(!sums_fit(table_seen(table, n as nat)));
                }
                return None;
            }
            assert(columns@.len() == column_views(columns@).len());
            proof {
                if n > 0 {
                    table_goes_on(table, n as nat, i - a + 1, 0);
                } else {
                    row_adds_none(table_seen(table.take(i - a), n as nat), cell_rooms(cells@));
                }
            }
        }
        i += 1;
    }
    assert(table.take(b - a) =~= table);
    assert(sums_fit(table_seen(table, n as nat)));
    let total: usize = match add_up(&columns) {
        Some(total) => total,
        None => {
            return None;
        },
    };
    if total <= width - 1 - n || total.checked_mul(total).is_some() {
        Some(fit_widths(&fit))
    } else {
        None
    }
}

/// A row without cells adds nothing.
proof fn row_adds_none(columns: Seq<ColumnModel>, cells: Seq<RoomCell>)
    requires
        cells.len() == 0,
    ensures
        row_seen(columns, cells) == columns,
{
}

/// Whether the cells of a row can be wrapped to the widths of their columns.
fn check_row(cells: &Vec<MdCell>, widths: &Vec<usize>) -> (r: bool)
    ensures
        r == row_fits(cell_rooms(cells@), widths@),
{
    let ghost all = cell_rooms(cells@);
    let mut c: usize = 0;
    while c < cells.len() && c < widths.len()
        invariant
            c <= cells.len(),
            c <= widths.len(),
            all == cell_rooms(cells@),
            forall|k: int| 0 <= k < c ==> fits_in(#[trigger] all[k], widths@[k] as int),
        decreases cells.len() - c,
    {
        assert(all[c as int] == room_of(cells@[c as int]@));
        if !can_fit_in(&cells[c], widths[c]) {
            return false;
        }
        c += 1;
    }
    true
}

/// Whether the table from `a` to `b` can be drawn in a width.
fn check_table(lines: &Vec<MdLine>, a: usize, b: usize, width: usize) -> (r: bool)
    requires
        a <= b <= lines@.len(),
        width > 0,
    ensures
        r == table_has_room(rooms(lines@).subrange(a as int, b as int), width),
{
    let ghost table = rooms(lines@).subrange(a as int, b as int);
    let n: usize = count_columns(lines, a, b);
    if n > (usize::MAX - 1) / 4 {
        return false;
    }
    let mut widths: Vec<usize> = Vec::new();
    if n * 4 + 1 <= width {
        widths = match fit_table(lines, a, b, n, width) {
            Some(widths) => widths,
            None => {
                return false;
            },
        };
    } else {
        let k: usize = (width - 1) / 4;
        while widths.len() < k
            invariant
                widths@.len() <= k,
                forall|c: int| 0 <= c < widths@.len() ==> #[trigger] widths@[c] == 3,
            decreases k - widths.len(),
        {
            widths.push(3);
        }
        assert(widths@ =~= column_widths(table, width));
    }
    let mut i: usize = a;
    while i < b
        invariant
            a <= i <= b <= lines@.len(),
            table == rooms(lines@).subrange(a as int, b as int),
            widths@ == column_widths(table, width),
            forall|j: int|
                0 <= j < i - a ==> ((#[trigger] table[j]) matches RoomLine::Row(cells) ==> row_fits(
                    cells,
                    widths@,
                )),
        decreases b - i,
    {
        assert(table[i - a] == room_line(lines@[i as int]@));
        if let MdLine::TableRow(cells) = &lines[i] {
            assert(table[i - a] == RoomLine::Row(cell_rooms(cells@)));
            if !check_row(cells, &widths) {
                return false;
            }
        }
        i += 1;
    }
    true
}

/// Whether all tables among the lines can be drawn in a width.
fn check_tables(lines: &Vec<MdLine>, width: usize) -> (r: bool)
    ensures
        r == tables_fit(rooms(lines@), width),
{
    if width == 0 {
        return true;
    }
    let ghost all = rooms(lines@);
    let mut i: usize = 0;
    while i < lines.len()
        invariant
            i <= lines.len(),
            width > 0,
            all == rooms(lines@),
            i > 0 && i < lines.len() && in_table(all[i as int]) ==> !in_table(all[i - 1]),
            forall|a: int, b: int| #[trigger]
                table_at(all, a, b) && a < i ==> table_has_room(all.subrange(a, b), width),
        decreases lines.len() - i,
    {
        let from: usize = i;
        assert(all[i as int] == room_line(lines@[i as int]@));
        if is_in_table(&lines[i]) {
            i += 1;
            while i < lines.len() && is_in_table(&lines[i])
                invariant
                    from < i <= lines.len(),
                    all == rooms(lines@),
                    forall|j: int| from <= j < i ==> in_table(#[trigger] all[j]),
                decreases lines.len() - i,
            {
                assert(all[i as int] == room_line(lines@[i as int]@));
                i += 1;
            }
            assert(i < lines.len() ==> all[i as int] == room_line(lines@[i as int]@));
            assert(table_at(all, from as int, i as int));
            if !check_table(lines, from, i, width) {
                return false;
            }
            assert forall|a: int, b: int| #[trigger]
                table_at(all, a, b) && a < i implies table_has_room(all.subrange(a, b), width) by {
                if a > from {
                    assert(in_table(all[a - 1]));
                } else if a == from {
                    if b < i {
                        assert(in_table(all[b]));
                    } else if b > i {
                        assert(in_table(all[i as int]));
                    }
                }
            }
        } else {
            i += 1;
            assert forall|a: int, b: int| #[trigger]
                table_at(all, a, b) && a < i implies table_has_room(all.subrange(a, b), width) by {
                if a == from {
                    assert(in_table(all[a]));
                }
            }
        }
    }
    assert forall|a: int, b: int| #[trigger] table_at(all, a, b) implies table_has_room(
        all.subrange(a, b),
        width,
    ) by {
        assert(a < i);
    }
    true
}

/// Whether lines that are not wrapped yet have room for their marks in a width.
pub fn lines_have_room(lines: &Vec<MdLine>, width: usize) -> (r: bool)
    ensures
        r == has_room(markdown::line_views(lines@), width),
{
    check_lines(lines, width) && check_tables(lines, width)
}

} // verus!
