use course_crawler::book::{grid_to_book, rows_to_book};
use course_crawler::item::{failed_row, header_row, CourseItem, CourseType, Outcome};
use course_crawler::merge::{merge_grids, xlsx_extension};

#[test]
fn xlsx_extension_is_case_insensitive() {
    assert!(xlsx_extension("xlsx"));
    assert!(xlsx_extension("XLSX"));
    assert!(xlsx_extension("xLsX"));
    assert!(!xlsx_extension("xls"));
    assert!(!xlsx_extension("xlsxs"));
    assert!(!xlsx_extension(""));
    assert!(!xlsx_extension("csv"));
}

fn cell(book: &umya_spreadsheet::Workbook, col: u32, row: u32) -> String {
    book.get_sheet_by_name("Sheet1")
        .unwrap()
        .get_cell((col, row))
        .map(|c| c.get_value().to_string())
        .unwrap_or_default()
}

fn data_row(cells: &[&str]) -> Vec<String> {
    cells.iter().map(|s| s.to_string()).collect()
}

fn grid(rows: &[Vec<String>]) -> Vec<Vec<String>> {
    let mut g = vec![header_row()];
    g.extend(rows.iter().cloned());
    g
}

#[test]
fn merge_renumbers_and_keeps_content() {
    let a = grid(&[data_row(&["9", "10", "t1", "", "", "成功", "", "", "", "0", "", ""])]);
    let b = grid(&[
        data_row(&["5", "11", "t2", "", "", "失败", "", "", "", "0", "", ""]),
        data_row(&["6", "12", "t3", "", "", "不解析", "", "", "", "0", "", ""]),
    ]);
    let merged = merge_grids(&vec![a, b]);
    assert_eq!(merged.len(), 4);
    assert_eq!(merged[0], header_row());
    // Fresh contiguous indices, whatever the sources held.
    assert_eq!(merged[1][0], "1");
    assert_eq!(merged[2][0], "2");
    assert_eq!(merged[3][0], "3");
    // Content columns are copied verbatim, in input order.
    assert_eq!(merged[1][1], "10");
    assert_eq!(merged[2][1], "11");
    assert_eq!(merged[3][1], "12");
    assert_eq!(merged[3][2], "t3");
    assert_eq!(merged[2][5], "失败");
}

#[test]
fn merge_pads_short_rows_and_keeps_empty_cells_empty() {
    let a = grid(&[data_row(&["1", "44", "short"])]);
    let merged = merge_grids(&vec![a]);
    assert_eq!(merged[1].len(), 12);
    assert_eq!(merged[1][1], "44");
    assert_eq!(merged[1][2], "short");
    assert_eq!(merged[1][3], "");
    assert_eq!(merged[1][11], "");
}

#[test]
fn merge_of_nothing_is_just_the_header() {
    let merged = merge_grids(&Vec::new());
    assert_eq!(merged, vec![header_row()]);
}

#[test]
fn merge_skips_headers_of_every_input() {
    let a = grid(&[]);
    let b = grid(&[data_row(&["1", "3", "only", "", "", "", "", "", "", "", "", ""])]);
    let merged = merge_grids(&vec![a, b]);
    assert_eq!(merged.len(), 2);
    assert_eq!(merged[1][2], "only");
}

#[test]
fn merge_is_associative_in_row_content() {
    let a = grid(&[data_row(&["7", "1", "ra", "", "", "", "", "", "", "", "", ""])]);
    let b = grid(&[
        data_row(&["7", "2", "rb", "", "", "", "", "", "", "", "", ""]),
        data_row(&["7", "3", "rc", "", "", "", "", "", "", "", "", ""]),
    ]);
    let c = grid(&[data_row(&["7", "4", "rd", "", "", "", "", "", "", "", "", ""])]);
    let ab = merge_grids(&vec![a.clone(), b.clone()]);
    let ab_then_c = merge_grids(&vec![ab, c.clone()]);
    let abc = merge_grids(&vec![a, b, c]);
    assert_eq!(ab_then_c.len(), abc.len());
    for (x, y) in ab_then_c.iter().zip(abc.iter()).skip(1) {
        // Identical rows but for nothing: even the indices coincide here.
        assert_eq!(&x[1..], &y[1..]);
        assert_eq!(x[0], y[0]);
    }
}

#[test]
fn exported_book_holds_header_and_rows() {
    let mut one: CourseItem = failed_row(31);
    one.index = 1;
    let mut two: CourseItem = failed_row(32);
    two.index = 2;
    two.course_type = CourseType::Video;
    two.result = Outcome::Success;
    two.title = "T".to_string();
    let rows = vec![one, two];
    let book = rows_to_book(&rows);
    assert_eq!(cell(&book, 1, 1), "序号");
    assert_eq!(cell(&book, 12, 1), "更新时间");
    assert_eq!(cell(&book, 1, 2), "1");
    assert_eq!(cell(&book, 2, 2), "31");
    assert_eq!(cell(&book, 6, 2), "失败");
    assert_eq!(cell(&book, 1, 3), "2");
    assert_eq!(cell(&book, 2, 3), "32");
    assert_eq!(cell(&book, 3, 3), "T");
    assert_eq!(cell(&book, 4, 3), "视频");
    assert_eq!(cell(&book, 6, 3), "成功");
}

#[test]
fn cells_keep_strings_verbatim() {
    // Strings that look like numbers, booleans or nothing must not be
    // coerced by the codec: "007" stays "007", "TRUE" stays "TRUE".
    let g = vec![data_row(&["007", "TRUE", "1.50", "", "NaN"])];
    let book = grid_to_book(&g);
    assert_eq!(cell(&book, 1, 1), "007");
    assert_eq!(cell(&book, 2, 1), "TRUE");
    assert_eq!(cell(&book, 3, 1), "1.50");
    assert_eq!(cell(&book, 4, 1), "");
    assert_eq!(cell(&book, 5, 1), "NaN");
    let mut it = failed_row(1);
    it.title = "007".to_string();
    let book2 = rows_to_book(&vec![it]);
    assert_eq!(cell(&book2, 3, 2), "007");
}

#[test]
fn grid_book_holds_every_cell() {
    let g = vec![
        data_row(&["h1", "h2"]),
        data_row(&["a", "b"]),
    ];
    let book = grid_to_book(&g);
    assert_eq!(cell(&book, 1, 1), "h1");
    assert_eq!(cell(&book, 2, 1), "h2");
    assert_eq!(cell(&book, 1, 2), "a");
    assert_eq!(cell(&book, 2, 2), "b");
}
