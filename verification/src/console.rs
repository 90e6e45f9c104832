//! What the command-line commands print.

use vstd::prelude::*;

use crate::excel::{first_sheet_records, parse_excel, unreadable_text, xlsx_sheets};
use crate::reply::prefixed;
use crate::text::{decimal, decimal_seq};

verus! {

/// A line for the terminal.
#[derive(Debug, PartialEq, Eq)]
pub enum Line {
    /// A line for standard output.
    Out(String),
    /// A line for standard error.
    Error(String),
}

/// A line as a mathematical value.
pub enum LineView {
    Out(Seq<char>),
    Error(Seq<char>),
}

impl View for Line {
    type V = LineView;

    open spec fn view(&self) -> LineView {
        match self {
            Line::Out(s) => LineView::Out(s@),
            Line::Error(s) => LineView::Error(s@),
        }
    }
}

/// `before`, the decimal form of `n`, then `after`.
fn around_number(before: &str, n: usize, after: &str) -> (res: String)
    ensures
        res@ == before@ + decimal_seq(n as nat) + after@,
{
    let mut s = String::from_str(before);
    let digits = decimal(n);
    s.append(digits.as_str());
    s.append(after);
    s
}

/// The line for an import file that could not be read.
pub fn read_failed_line(error: &str) -> (res: Line)
    ensures
        res@ == LineView::Error("读取文件失败: "@ + error@),
{
    Line::Error(prefixed("读取文件失败: ", error))
}

/// What the import command does with the bytes of a file.
pub enum CliImportStep {
    /// Report and stop.
    Report(Line),
    /// Store these records.
    Insert(Vec<(String, String)>),
}

/// A file that is not an xlsx workbook, or whose workbook holds no record,
/// is reported; the records of any other are stored.
pub fn plan_cli_import(data: &[u8]) -> (res: CliImportStep)
    ensures
        match xlsx_sheets(data@) {
            None => (res matches CliImportStep::Report(l) && l@ == LineView::Error(
                "解析文件失败: "@ + unreadable_text(),
            )),
            Some(s) => if first_sheet_records(s).len() == 0 {
                (res matches CliImportStep::Report(l) && l@ == LineView::Error("文件中没有有效数据"@))
            } else {
                (res matches CliImportStep::Insert(records) && records.deep_view()
                    == first_sheet_records(s))
            },
        },
{
    match parse_excel(data) {
        Err(e) => CliImportStep::Report(Line::Error(prefixed("解析文件失败: ", e.message().as_str()))),
        Ok(records) => {
            if records.len() == 0 {
                CliImportStep::Report(Line::Error(String::from_str("文件中没有有效数据")))
            } else {
                CliImportStep::Insert(records)
            }
        },
    }
}

/// The line once the records of a file were stored, or failed to be.
pub fn import_line(result: Result<usize, String>) -> (res: Line)
    ensures
        match result {
            Ok(n) => res@ == LineView::Out("成功导入 "@ + decimal_seq(n as nat) + " 条数据"@),
            Err(e) => res@ == LineView::Error("导入失败: "@ + e@),
        },
{
    match result {
        Ok(n) => Line::Out(around_number("成功导入 ", n, " 条数据")),
        Err(e) => Line::Error(prefixed("导入失败: ", e.as_str())),
    }
}

/// The line once every record was deleted, or failed to be.
pub fn clear_line(result: Result<usize, String>) -> (res: Line)
    ensures
        match result {
            Ok(n) => res@ == LineView::Out("已清空 "@ + decimal_seq(n as nat) + " 条数据"@),
            Err(e) => res@ == LineView::Error("清空失败: "@ + e@),
        },
{
    match result {
        Ok(n) => Line::Out(around_number("已清空 ", n, " 条数据")),
        Err(e) => Line::Error(prefixed("清空失败: ", e.as_str())),
    }
}

/// The line that announces the server and its port.
pub fn server_started_line(port: u16) -> (res: Line)
    ensures
        res@ == LineView::Out("Server started at http://localhost:"@ + decimal_seq(port as nat)),
{
    let text = around_number("Server started at http://localhost:", port as usize, "");
    proof {
        reveal_strlit("");
        assert(text@ =~= "Server started at http://localhost:"@ + decimal_seq(port as nat));
    }
    Line::Out(text)
}

} // verus!
