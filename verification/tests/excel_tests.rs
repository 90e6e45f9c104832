use bank_query::excel::{
    generate_template, parse_excel, parse_sheet, records_from_workbook, template_grid, ExcelError,
};

fn rows(cells: &[&[&str]]) -> Vec<Vec<String>> {
    cells.iter().map(|r| r.iter().map(|c| c.to_string()).collect()).collect()
}

fn recs(pairs: &[(&str, &str)]) -> Vec<(String, String)> {
    pairs.iter().map(|(a, b)| (a.to_string(), b.to_string())).collect()
}

#[test]
fn sheet_skips_header_and_trims() {
    let r = rows(&[
        &["联行号", "金融机构名称"],
        &["  ICBC ", "\t中国工商银行\u{3000}"],
        &["ABC", "中国农业银行", "extra"],
    ]);
    assert_eq!(parse_sheet(&r), recs(&[("ICBC", "中国工商银行"), ("ABC", "中国农业银行")]));
}

#[test]
fn sheet_drops_short_and_blank_rows() {
    let r = rows(&[
        &["code", "name"],
        &["ONLY"],
        &["", "名称"],
        &["   ", "名称"],
        &["CODE", " "],
        &["BOC", "中国银行"],
    ]);
    assert_eq!(parse_sheet(&r), recs(&[("BOC", "中国银行")]));
}

#[test]
fn empty_sheet_and_header_only_give_nothing() {
    assert_eq!(parse_sheet(&rows(&[])), recs(&[]));
    assert_eq!(parse_sheet(&rows(&[&["ICBC", "中国工商银行"]])), recs(&[]));
}

#[test]
fn workbook_that_is_not_xlsx_is_an_error() {
    assert!(matches!(records_from_workbook(None), Err(ExcelError::Unreadable)));
    assert!(matches!(parse_excel(b"not a spreadsheet"), Err(ExcelError::Unreadable)));
    assert!(matches!(parse_excel(&[]), Err(ExcelError::Unreadable)));
}

#[test]
fn first_sheet_with_records_wins() {
    let empty = rows(&[&["code", "name"]]);
    let second = rows(&[&["code", "name"], &["B", "二"]]);
    let third = rows(&[&["code", "name"], &["C", "三"]]);
    let book = Some(vec![None, Some(empty), Some(second), Some(third)]);
    assert_eq!(records_from_workbook(book).unwrap(), recs(&[("B", "二")]));
}

#[test]
fn workbook_without_records_gives_none() {
    let book = Some(vec![Some(rows(&[&["code", "name"], &["", ""]])), None]);
    assert_eq!(records_from_workbook(book).unwrap(), recs(&[]));
    assert_eq!(records_from_workbook(Some(vec![])).unwrap(), recs(&[]));
}

#[test]
fn template_grid_cells() {
    assert_eq!(
        template_grid(),
        rows(&[&["联行号", "金融机构名称"], &["ICBC", "中国工商银行"], &["ABC", "中国农业银行"]])
    );
}

#[test]
fn template_sheet_reads_back_as_samples() {
    assert_eq!(
        parse_sheet(&template_grid()),
        recs(&[("ICBC", "中国工商银行"), ("ABC", "中国农业银行")])
    );
}

#[test]
fn generated_template_file_reads_back_as_samples() {
    let bytes = generate_template().expect("the template is written");
    assert!(!bytes.is_empty());
    let records = parse_excel(&bytes).expect("the template is an xlsx workbook");
    assert_eq!(records, recs(&[("ICBC", "中国工商银行"), ("ABC", "中国农业银行")]));
}

#[test]
fn unreadable_message() {
    assert_eq!(ExcelError::Unreadable.message(), "无法解析文件，请确保是有效的 .xlsx 格式");
}

#[test]
fn write_error_message_is_kept() {
    let e = ExcelError::Write("Row or column exceeds Excel's limits".to_string());
    assert_eq!(e.message(), "Row or column exceeds Excel's limits");
}
