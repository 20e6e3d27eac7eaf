//! Building the exported workbook: the fixed twelve-column header and one
//! renumbered row per collected item, written cell by cell through trusted
//! wrappers around the spreadsheet crate.
use vstd::prelude::*;
use crate::item::{CourseItem, row_cells, header_row_spec, row_cell_string, header_literal};
use umya_spreadsheet::Workbook;

verus! {

#[verifier::external_type_specification]
#[verifier::external_body]
pub struct ExWorkbook(Workbook);

/// What the main worksheet of a workbook holds: the string value of each
/// cell that was ever written, keyed by (column, row), both 1-based.
pub uninterp spec fn book_cells(b: Workbook) -> Map<(u32, u32), Seq<char>>;

/// Whether the workbook has its main worksheet, named "Sheet1".
pub uninterp spec fn book_has_main_sheet(b: Workbook) -> bool;

/// A workbook with no cell written yet.
pub open spec fn no_cells() -> Map<(u32, u32), Seq<char>> {
    Map::empty()
}

/// Relies on umya_spreadsheet::new_file: a fresh workbook holding a single
/// empty worksheet named "Sheet1".
#[verifier::external_body]
pub fn new_book() -> (b: Workbook)
    ensures
        book_has_main_sheet(b),
        book_cells(b) == no_cells(),
{
    umya_spreadsheet::new_file()
}

/// Relies on Workbook::sheet_by_name_mut, Worksheet::cell_mut and
/// Cell::set_value_string: stores the string in one cell of the main
/// worksheet verbatim (no type guessing), leaving every other cell as it
/// was.
#[verifier::external_body]
pub fn set_book_cell(b: &mut Workbook, col: u32, row: u32, v: &str)
    requires
        book_has_main_sheet(*old(b)),
        1 <= col,
        1 <= row,
    ensures
        book_has_main_sheet(*final(b)),
        book_cells(*final(b)) == book_cells(*old(b)).insert((col, row), v@),
{
    if let Ok(ws) = b.sheet_by_name_mut("Sheet1") {
        ws.cell_mut((col, row)).set_value_string(v);
    }
}

/// The finished sheet for a batch: the header in row one, the cells of the
/// k-th collected item in row k+2, nothing else.
pub open spec fn sheet_model(rows: Seq<CourseItem>) -> Map<(u32, u32), Seq<char>> {
    written_model(rows, rows.len() as int + 1, 0)
}

/// The sheet after `done_rows` whole sheet rows (header included) and the
/// first `cols` cells of the next row have been written.
pub open spec fn written_model(rows: Seq<CourseItem>, done_rows: int, cols: int) -> Map<
    (u32, u32),
    Seq<char>,
> {
    Map::new(
        |k: (u32, u32)|
            (1 <= k.0 <= 12 && 1 <= k.1 <= done_rows) || (1 <= k.0 <= cols && k.1 == done_rows
                + 1),
        |k: (u32, u32)|
            if k.1 == 1 {
                header_row_spec()[k.0 - 1]
            } else {
                row_cells(rows[k.1 - 2])[k.0 - 1]
            },
    )
}

/// Builds the export workbook for one batch of collected rows.
pub fn rows_to_book(rows: &Vec<CourseItem>) -> (b: Workbook)
    requires
        rows@.len() + 2 <= u32::MAX,
    ensures
        book_has_main_sheet(b),
        book_cells(b) == sheet_model(rows@),
{
    let mut b = new_book();
    proof {
        assert(book_cells(b) =~= written_model(rows@, 0, 0));
    }
    let mut j: usize = 0;
    while j < 12
        invariant
            rows@.len() + 2 <= u32::MAX,
            0 <= j <= 12,
            book_has_main_sheet(b),
            book_cells(b) == written_model(rows@, 0, j as int),
        decreases 12 - j,
    {
        let h = header_literal(j);
        set_book_cell(&mut b, (j as u32) + 1, 1, h);
        proof {
            assert(book_cells(b) =~= written_model(rows@, 0, j + 1));
        }
        j = j + 1;
    }
    proof {
        assert(book_cells(b) =~= written_model(rows@, 1, 0));
    }
    let mut i: usize = 0;
    while i < rows.len()
        invariant
            rows@.len() + 2 <= u32::MAX,
            0 <= i <= rows@.len(),
            book_has_main_sheet(b),
            book_cells(b) == written_model(rows@, i as int + 1, 0),
        decreases rows@.len() - i,
    {
        let mut j2: usize = 0;
        while j2 < 12
            invariant
                rows@.len() + 2 <= u32::MAX,
                0 <= i < rows@.len(),
                0 <= j2 <= 12,
                book_has_main_sheet(b),
                book_cells(b) == written_model(rows@, i as int + 1, j2 as int),
            decreases 12 - j2,
        {
            let v = row_cell_string(&rows[i], j2);
            set_book_cell(&mut b, (j2 as u32) + 1, (i as u32) + 2, v.as_str());
            proof {
                assert(book_cells(b) =~= written_model(rows@, i as int + 1, j2 + 1));
            }
            j2 = j2 + 1;
        }
        proof {
            assert(book_cells(b) =~= written_model(rows@, i as int + 2, 0));
        }
        i = i + 1;
    }
    proof {
        assert(book_cells(b) =~= sheet_model(rows@));
    }
    b
}

/// The sheet holding a plain grid after `rows_done` whole rows and `cols`
/// cells of the next row: cell (j+1, i+1) holds grid cell `g[i][j]`.
pub open spec fn grid_written_model(g: Seq<Seq<Seq<char>>>, rows_done: int, cols: int) -> Map<
    (u32, u32),
    Seq<char>,
> {
    Map::new(
        |k: (u32, u32)|
            (1 <= k.1 <= rows_done && 1 <= k.0 <= g[k.1 - 1].len()) || (k.1 == rows_done + 1 && 1
                <= k.0 <= cols),
        |k: (u32, u32)| g[k.1 - 1][k.0 - 1],
    )
}

/// The finished sheet for a plain grid, one cell per grid cell.
pub open spec fn grid_sheet_model(g: Seq<Seq<Seq<char>>>) -> Map<(u32, u32), Seq<char>> {
    grid_written_model(g, g.len() as int, 0)
}

/// Builds a workbook holding a plain grid, such as a merged table.
pub fn grid_to_book(g: &Vec<Vec<String>>) -> (b: Workbook)
    requires
        g@.len() + 1 <= u32::MAX,
        forall|i: int| 0 <= i < g@.len() ==> (#[trigger] g@[i])@.len() + 1 <= u32::MAX,
    ensures
        book_has_main_sheet(b),
        book_cells(b) == grid_sheet_model(g.deep_view()),
{
    let ghost gdv = g.deep_view();
    let mut b = new_book();
    proof {
        assert(book_cells(b) =~= grid_written_model(gdv, 0, 0));
    }
    let mut i: usize = 0;
    while i < g.len()
        invariant
            gdv == g.deep_view(),
            g@.len() + 1 <= u32::MAX,
            forall|t: int| 0 <= t < g@.len() ==> (#[trigger] g@[t])@.len() + 1 <= u32::MAX,
            0 <= i <= g@.len(),
            book_has_main_sheet(b),
            book_cells(b) == grid_written_model(gdv, i as int, 0),
        decreases g@.len() - i,
    {
        let row = &g[i];
        let mut j: usize = 0;
        while j < row.len()
            invariant
                gdv == g.deep_view(),
                g@.len() + 1 <= u32::MAX,
                forall|t: int| 0 <= t < g@.len() ==> (#[trigger] g@[t])@.len() + 1 <= u32::MAX,
                0 <= i < g@.len(),
                row == &g@[i as int],
                0 <= j <= row@.len(),
                book_has_main_sheet(b),
                book_cells(b) == grid_written_model(gdv, i as int, j as int),
            decreases row@.len() - j,
        {
            set_book_cell(&mut b, (j as u32) + 1, (i as u32) + 1, row[j].as_str());
            proof {
                assert(book_cells(b) =~= grid_written_model(gdv, i as int, j + 1));
            }
            j = j + 1;
        }
        proof {
            assert(book_cells(b) =~= grid_written_model(gdv, i as int + 1, 0));
        }
        i = i + 1;
    }
    proof {
        assert(book_cells(b) =~= grid_sheet_model(gdv));
    }
    b
}

} // verus!
