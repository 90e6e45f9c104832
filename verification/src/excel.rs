//! Bank records in Excel workbooks: reading them out of the rows of a
//! sheet, and the import template.

use calamine::Reader;
use vstd::prelude::*;

use crate::sheet_writer::{
    column_width, modest_book, plain_grid, grid_of, plain_char, format_bold, format_silver_fill, format_thin_border, new_book, new_format, new_sheet,
    plain_style, push_sheet, save_book, write_formatted, write_plain, xlsx_book, xlsx_error_text,
    CellFormat, CellStyle, CellView, SheetView, SheetWriter,
};
use crate::text::{lemma_trim_unpadded, trim, trim_seq, unpadded};

verus! {

/// A record as a mathematical value: the trimmed code and name.
pub type RecordView = (Seq<char>, Seq<char>);

/// The record that one row gives: its first two cells, trimmed, where the
/// row has two cells and neither is blank.
pub open spec fn row_record(row: Seq<Seq<char>>) -> Option<RecordView> {
    if row.len() < 2 {
        None
    } else {
        let code = trim_seq(row[0]);
        let name = trim_seq(row[1]);
        if code.len() > 0 && name.len() > 0 {
            Some((code, name))
        } else {
            None
        }
    }
}

/// The records of `rows`, in row order.
pub open spec fn rows_records(rows: Seq<Seq<Seq<char>>>) -> Seq<RecordView>
    decreases rows.len(),
{
    if rows.len() == 0 {
        Seq::empty()
    } else {
        let before = rows_records(rows.drop_last());
        match row_record(rows.last()) {
            Some(r) => before.push(r),
            None => before,
        }
    }
}

/// The records of a sheet: those of every row below the header row.
pub open spec fn sheet_records(rows: Seq<Seq<Seq<char>>>) -> Seq<RecordView> {
    if rows.len() == 0 {
        Seq::empty()
    } else {
        rows_records(rows.drop_first())
    }
}

/// The record of one row, as `row_record` states.
fn record_of_row(row: &Vec<String>) -> (res: Option<(String, String)>)
    ensures
        res.deep_view() == row_record(row.deep_view()),
{
    if row.len() < 2 {
        return None;
    }
    let code = trim(row[0].as_str());
    let name = trim(row[1].as_str());
    if code.unicode_len() > 0 && name.unicode_len() > 0 {
        Some((code, name))
    } else {
        None
    }
}

/// Reads the bank records of a sheet given as rows of cell texts: the first
/// row is the header and is skipped; a row gives the record of its first two
/// cells, trimmed, unless it has fewer than two cells or either is blank.
pub fn parse_sheet(rows: &Vec<Vec<String>>) -> (res: Vec<(String, String)>)
    ensures
        res.deep_view() == sheet_records(rows.deep_view()),
{
    let mut records: Vec<(String, String)> = Vec::new();
    let n = rows.len();
    if n == 0 {
        assert(records.deep_view() =~= Seq::<RecordView>::empty());
        return records;
    }
    let ghost body = rows.deep_view().drop_first();
    let mut i: usize = 1;
    while i < n
        invariant
            1 <= i <= n,
            n == rows.len(),
            body == rows.deep_view().drop_first(),
            records.deep_view() == rows_records(body.take(i - 1)),
        decreases n - i,
    {
        let r = record_of_row(&rows[i]);
        proof {
            let t = body.take(i as int);
            assert(t.drop_last() =~= body.take(i - 1));
            assert(t.last() == rows[i as int].deep_view());
        }
        match r {
            Some(rec) => {
                let ghost before = records.deep_view();
                records.push(rec);
                assert(records.deep_view() =~= before.push(rec.deep_view()));
            },
            None => {},
        }
        i = i + 1;
    }
    assert(body.take(n - 1) =~= body);
    records
}


/// Every record read from a sheet has a code and a name that are not blank
/// and carry no whitespace at either end.
pub proof fn law_sheet_records_clean(rows: Seq<Seq<Seq<char>>>)
    ensures
        forall|k: int|
            0 <= k < sheet_records(rows).len() ==> {
                let r = #[trigger] sheet_records(rows)[k];
                &&& r.0.len() > 0
                &&& r.1.len() > 0
                &&& unpadded(r.0)
                &&& unpadded(r.1)
            },
{
    if rows.len() > 0 {
        lemma_rows_records_clean(rows.drop_first());
    }
}

proof fn lemma_rows_records_clean(rows: Seq<Seq<Seq<char>>>)
    ensures
        forall|k: int|
            0 <= k < rows_records(rows).len() ==> {
                let r = #[trigger] rows_records(rows)[k];
                &&& r.0.len() > 0
                &&& r.1.len() > 0
                &&& unpadded(r.0)
                &&& unpadded(r.1)
            },
    decreases rows.len(),
{
    if rows.len() > 0 {
        lemma_rows_records_clean(rows.drop_last());
        let row = rows.last();
        if row.len() >= 2 {
            lemma_trim_unpadded(row[0]);
            lemma_trim_unpadded(row[1]);
        }
        let before = rows_records(rows.drop_last());
        assert forall|k: int| 0 <= k < rows_records(rows).len() implies {
            let r = #[trigger] rows_records(rows)[k];
            &&& r.0.len() > 0
            &&& r.1.len() > 0
            &&& unpadded(r.0)
            &&& unpadded(r.1)
        } by {
            if k < before.len() {
                assert(rows_records(rows)[k] == before[k]);
            }
        }
    }
}

/// The header row never gives a record: what a sheet gives depends only on
/// the rows below it.
pub proof fn law_header_ignored(a: Seq<Seq<Seq<char>>>, b: Seq<Seq<Seq<char>>>)
    requires
        a.len() > 0,
        b.len() > 0,
        a.drop_first() == b.drop_first(),
    ensures
        sheet_records(a) == sheet_records(b),
{
}

/// Whether a row gives a bank: it has two cells, and neither is blank once
/// trimmed.
pub open spec fn usable_row(row: Seq<Seq<char>>) -> bool {
    row.len() >= 2 && trim_seq(row[0]).len() > 0 && trim_seq(row[1]).len() > 0
}

/// Reading rows is reading them piece by piece: the records of two runs of
/// rows one after the other are the records of the first run followed by
/// those of the second. So no row, blank or not, changes what the rows
/// around it give.
pub proof fn law_rows_records_concat(a: Seq<Seq<Seq<char>>>, b: Seq<Seq<Seq<char>>>)
    ensures
        rows_records(a + b) == rows_records(a) + rows_records(b),
    decreases b.len(),
{
    if b.len() == 0 {
        assert(a + b =~= a);
        assert(rows_records(a) + rows_records(b) =~= rows_records(a));
    } else {
        law_rows_records_concat(a, b.drop_last());
        assert((a + b).drop_last() =~= a + b.drop_last());
        assert((a + b).last() == b.last());
        let ra = rows_records(a);
        let rb = rows_records(b.drop_last());
        match row_record(b.last()) {
            Some(r) => assert((ra + rb).push(r) =~= ra + rb.push(r)),
            None => {},
        }
    }
}

/// A sheet of a header and one row with two nonblank cells gives exactly
/// one bank: the row's first two cells, trimmed.
pub proof fn law_one_usable_row(header: Seq<Seq<char>>, row: Seq<Seq<char>>)
    requires
        row.len() >= 2,
        trim_seq(row[0]).len() > 0,
        trim_seq(row[1]).len() > 0,
    ensures
        sheet_records(seq![header, row]) == seq![(trim_seq(row[0]), trim_seq(row[1]))],
{
    let body = seq![header, row].drop_first();
    assert(body =~= seq![row]);
    assert(body.drop_last() =~= Seq::<Seq<Seq<char>>>::empty());
    assert(rows_records(body.drop_last()) =~= Seq::<RecordView>::empty());
    assert(Seq::<RecordView>::empty().push((trim_seq(row[0]), trim_seq(row[1]))) =~= seq![
        (trim_seq(row[0]), trim_seq(row[1])),
    ]);
}

/// A sheet of a header and one row with fewer than two cells, or with a
/// blank first or second cell, gives no bank.
pub proof fn law_one_unusable_row(header: Seq<Seq<char>>, row: Seq<Seq<char>>)
    requires
        !usable_row(row),
    ensures
        sheet_records(seq![header, row]) == Seq::<RecordView>::empty(),
{
    let body = seq![header, row].drop_first();
    assert(body =~= seq![row]);
    assert(body.drop_last() =~= Seq::<Seq<Seq<char>>>::empty());
    assert(rows_records(body.drop_last()) =~= Seq::<RecordView>::empty());
}

/// A row that gives no bank (a short row, or one with a blank first or
/// second cell) may stand anywhere below the header: the banks above and
/// below it are all read, as if it were not there.
pub proof fn law_unusable_row_skipped(
    header: Seq<Seq<char>>,
    above: Seq<Seq<Seq<char>>>,
    row: Seq<Seq<char>>,
    below: Seq<Seq<Seq<char>>>,
)
    requires
        !usable_row(row),
    ensures
        sheet_records(seq![header] + above + seq![row] + below) == sheet_records(
            seq![header] + above + below,
        ),
{
    let with = seq![header] + above + seq![row] + below;
    let without = seq![header] + above + below;
    assert(with.drop_first() =~= above + seq![row] + below);
    assert(without.drop_first() =~= above + below);
    law_rows_records_concat(above + seq![row], below);
    law_rows_records_concat(above, seq![row]);
    law_rows_records_concat(above, below);
    assert(seq![row].drop_last() =~= Seq::<Seq<Seq<char>>>::empty());
    assert(seq![row].last() == row);
    assert(row_record(row) is None);
    assert(rows_records(seq![row].drop_last()) =~= Seq::<RecordView>::empty());
    assert(rows_records(seq![row]) =~= Seq::<RecordView>::empty());
    assert(rows_records(above) + Seq::<RecordView>::empty() =~= rows_records(above));
}

/// Every usable row below the header gives its bank, in order: a usable row
/// added at the end of a sheet adds exactly its trimmed cells at the end of
/// the banks.
pub proof fn law_usable_row_appended(rows: Seq<Seq<Seq<char>>>, row: Seq<Seq<char>>)
    requires
        rows.len() > 0,
        usable_row(row),
    ensures
        sheet_records(rows.push(row)) == sheet_records(rows).push(
            (trim_seq(row[0]), trim_seq(row[1])),
        ),
{
    assert(rows.push(row).drop_first() =~= rows.drop_first().push(row));
    assert(rows.drop_first().push(row).drop_last() =~= rows.drop_first());
}


/// The rows of a sheet, each a sequence of cell texts.
pub type RowsView = Seq<Seq<Seq<char>>>;

/// The sheets of an xlsx workbook, as calamine reads them from the bytes of
/// the file: `None` where the bytes are not a workbook that calamine opens;
/// else one entry per sheet, in workbook order, which is `None` where the
/// sheet's cells cannot be read and else the sheet's rows (the block that
/// bounds its nonempty cells), each cell written out by calamine's `Display`
/// for its value: a text as it is, a number as Rust writes an `f64` (so an
/// integral number has no fractional part), an empty cell as nothing.
pub uninterp spec fn xlsx_sheets(data: Seq<u8>) -> Option<Seq<Option<RowsView>>>;

/// Opens `data` as an xlsx workbook with calamine's `open_workbook_from_rs`
/// and reads every sheet (`Reader::sheet_names`, `Reader::worksheet_range`,
/// `Range::rows`, and calamine's `Display` for each cell). What comes back is
/// named by `xlsx_sheets` and is not stated further: it is a function of the
/// bytes alone.
#[verifier::external_body]
fn read_xlsx_sheets(data: &[u8]) -> (res: Option<Vec<Option<Vec<Vec<String>>>>>)
    ensures
        res.deep_view() == xlsx_sheets(data@),
{
    let cursor = std::io::Cursor::new(data);
    let mut book: calamine::Xlsx<_> = calamine::open_workbook_from_rs(cursor).ok()?;
    let mut sheets = Vec::new();
    for name in book.sheet_names() {
        let range = book.worksheet_range(&name).ok();
        sheets.push(range.map(|r| r.rows().map(|row| row.iter().map(|c| c.to_string()).collect()).collect()));
    }
    Some(sheets)
}

/// The records of the first sheet that gives any, or none.
pub open spec fn first_sheet_records(sheets: Seq<Option<RowsView>>) -> Seq<RecordView>
    decreases sheets.len(),
{
    if sheets.len() == 0 {
        Seq::empty()
    } else {
        let here = match sheets[0] {
            Some(rows) => sheet_records(rows),
            None => Seq::empty(),
        };
        if here.len() > 0 {
            here
        } else {
            first_sheet_records(sheets.drop_first())
        }
    }
}

/// Whether a sheet gives no bank: it could not be read, or its rows hold
/// none.
pub open spec fn gives_nothing(sheet: Option<RowsView>) -> bool {
    match sheet {
        Some(rows) => sheet_records(rows).len() == 0,
        None => true,
    }
}

/// The banks of a workbook are those of its first sheet that gives any,
/// whatever the sheets after it hold: where sheet `j` gives banks and every
/// sheet before it gives none, the workbook gives exactly sheet `j`'s.
pub proof fn law_first_sheet_wins(sheets: Seq<Option<RowsView>>, j: int)
    requires
        0 <= j < sheets.len(),
        sheets[j] is Some,
        sheet_records(sheets[j]->0).len() > 0,
        forall|i: int| 0 <= i < j ==> gives_nothing(#[trigger] sheets[i]),
    ensures
        first_sheet_records(sheets) == sheet_records(sheets[j]->0),
    decreases j,
{
    if j > 0 {
        let rest = sheets.drop_first();
        assert(gives_nothing(sheets[0]));
        assert forall|i: int| 0 <= i < j - 1 implies gives_nothing(#[trigger] rest[i]) by {
            assert(rest[i] == sheets[i + 1]);
        }
        assert(rest[j - 1] == sheets[j]);
        law_first_sheet_wins(rest, j - 1);
    }
}

/// A workbook in which no sheet gives a bank gives none.
pub proof fn law_no_sheet_gives_nothing(sheets: Seq<Option<RowsView>>)
    requires
        forall|i: int| 0 <= i < sheets.len() ==> gives_nothing(#[trigger] sheets[i]),
    ensures
        first_sheet_records(sheets) == Seq::<RecordView>::empty(),
    decreases sheets.len(),
{
    if sheets.len() > 0 {
        let rest = sheets.drop_first();
        assert(gives_nothing(sheets[0]));
        assert forall|i: int| 0 <= i < rest.len() implies gives_nothing(#[trigger] rest[i]) by {
            assert(rest[i] == sheets[i + 1]);
        }
        law_no_sheet_gives_nothing(rest);
    }
}

/// Every record read from a workbook has a code and a name that are not
/// blank and carry no whitespace at either end.
pub proof fn law_workbook_records_clean(sheets: Seq<Option<RowsView>>)
    ensures
        forall|k: int|
            0 <= k < first_sheet_records(sheets).len() ==> {
                let r = #[trigger] first_sheet_records(sheets)[k];
                &&& r.0.len() > 0
                &&& r.1.len() > 0
                &&& unpadded(r.0)
                &&& unpadded(r.1)
            },
    decreases sheets.len(),
{
    if sheets.len() > 0 {
        law_workbook_records_clean(sheets.drop_first());
        match sheets[0] {
            Some(rows) => law_sheet_records_clean(rows),
            None => {},
        }
        let here = match sheets[0] {
            Some(rows) => sheet_records(rows),
            None => Seq::<RecordView>::empty(),
        };
        assert forall|k: int| 0 <= k < first_sheet_records(sheets).len() implies {
            let r = #[trigger] first_sheet_records(sheets)[k];
            &&& r.0.len() > 0
            &&& r.1.len() > 0
            &&& unpadded(r.0)
            &&& unpadded(r.1)
        } by {
            if here.len() > 0 {
                let rows = sheets[0]->0;
                assert(first_sheet_records(sheets)[k] == sheet_records(rows)[k]);
            } else {
                assert(first_sheet_records(sheets)[k] == first_sheet_records(sheets.drop_first())[k]);
            }
        }
    }
}

/// Why a workbook could not be read or written.
#[derive(Debug)]
pub enum ExcelError {
    /// The bytes are not an xlsx workbook.
    Unreadable,
    /// rust_xlsxwriter failed to write the workbook; its text of the error.
    Write(String),
}

/// The text of the error for bytes that are not an xlsx workbook.
pub open spec fn unreadable_text() -> Seq<char> {
    "无法解析文件，请确保是有效的 .xlsx 格式"@
}

impl ExcelError {
    /// The text of the error: a fixed sentence for an unreadable file, and
    /// rust_xlsxwriter's own text for a failed write.
    pub fn message(&self) -> (res: String)
        ensures
            self is Unreadable ==> res@ == unreadable_text(),
            self matches ExcelError::Write(t) ==> res@ == t@,
    {
        match self {
            ExcelError::Unreadable => String::from_str("无法解析文件，请确保是有效的 .xlsx 格式"),
            ExcelError::Write(t) => t.clone(),
        }
    }
}

/// The records of a workbook read by `xlsx_sheets`: those of its first sheet
/// that gives any, in row order, or none where no sheet does; an error where
/// the bytes were not a workbook.
pub fn records_from_workbook(sheets: Option<Vec<Option<Vec<Vec<String>>>>>) -> (res: Result<
    Vec<(String, String)>,
    ExcelError,
>)
    ensures
        match sheets.deep_view() {
            Some(s) => res matches Ok(r) && r.deep_view() == first_sheet_records(s),
            None => res matches Err(ExcelError::Unreadable),
        },
{
    match sheets {
        None => Err(ExcelError::Unreadable),
        Some(list) => {
            let n = list.len();
            let ghost all = list.deep_view();
            let mut i: usize = 0;
            assert(all.skip(0) =~= all);
            while i < n
                invariant
                    i <= n,
                    n == list.len(),
                    all == list.deep_view(),
                    sheets.deep_view() == Some(all),
                    first_sheet_records(all) == first_sheet_records(all.skip(i as int)),
                decreases n - i,
            {
                proof {
                    let rest = all.skip(i as int);
                    assert(rest[0] == all[i as int]);
                    assert(rest.drop_first() =~= all.skip(i + 1));
                }
                match &list[i] {
                    Some(rows) => {
                        let records = parse_sheet(rows);
                        assert(all[i as int] == Some(rows.deep_view()));
                        if records.len() > 0 {
                            assert(records.deep_view().len() == records@.len());
                            return Ok(records);
                        }
                    },
                    None => {},
                }
                i = i + 1;
            }
            assert(all.skip(n as int) =~= Seq::<Option<RowsView>>::empty());
            Ok(Vec::new())
        },
    }
}

/// Reads the bank records of an xlsx file: those of its first sheet that
/// gives any (see `parse_sheet`), or none; an error where the bytes are not
/// an xlsx workbook.
pub fn parse_excel(data: &[u8]) -> (res: Result<Vec<(String, String)>, ExcelError>)
    ensures
        match xlsx_sheets(data@) {
            Some(s) => res matches Ok(r) && r.deep_view() == first_sheet_records(s),
            None => res matches Err(ExcelError::Unreadable),
        },
{
    records_from_workbook(read_xlsx_sheets(data))
}


/// The cells of the import template: a header row with the two column
/// titles, then two sample banks.
pub open spec fn template_rows() -> RowsView {
    seq![
        seq!["联行号"@, "金融机构名称"@],
        seq!["ICBC"@, "中国工商银行"@],
        seq!["ABC"@, "中国农业银行"@],
    ]
}

/// The width of each column of the template, in Excel's character units.
pub open spec fn template_widths() -> Seq<u16> {
    seq![20u16, 40u16]
}

/// The records that the template's sample rows hold.
pub open spec fn template_samples() -> Seq<RecordView> {
    seq![("ICBC"@, "中国工商银行"@), ("ABC"@, "中国农业银行"@)]
}

/// A row of two cells.
fn pair_row(a: &str, b: &str) -> (res: Vec<String>)
    ensures
        res.deep_view() == seq![a@, b@],
{
    let mut row: Vec<String> = Vec::new();
    row.push(String::from_str(a));
    row.push(String::from_str(b));
    assert(row.deep_view() =~= seq![a@, b@]);
    row
}

/// The cells of the import template, as `template_rows` states.
pub fn template_grid() -> (res: Vec<Vec<String>>)
    ensures
        res.deep_view() == template_rows(),
{
    let mut grid: Vec<Vec<String>> = Vec::new();
    grid.push(pair_row("联行号", "金融机构名称"));
    grid.push(pair_row("ICBC", "中国工商银行"));
    grid.push(pair_row("ABC", "中国农业银行"));
    assert(grid.deep_view() =~= template_rows());
    grid
}

/// The style of the template's header row: bold, framed and silver.
pub open spec fn header_style() -> CellStyle {
    CellStyle { bold: true, thin_border: true, silver_fill: true }
}

/// The cells that writing `texts` along row `row` in `style` sets.
pub open spec fn row_cells(row: u32, texts: Seq<Seq<char>>, style: CellStyle) -> Map<
    (u32, u16),
    CellView,
> {
    Map::new(
        |k: (u32, u16)| k.0 == row && (k.1 as int) < texts.len(),
        |k: (u32, u16)| CellView { text: texts[k.1 as int], style },
    )
}

/// The template's worksheet: the cells of `template_rows`, the header row in
/// `header_style` and the others plain, and the columns `template_widths`
/// wide.
pub open spec fn template_sheet() -> SheetView {
    SheetView {
        cells: Map::new(
            |k: (u32, u16)|
                (k.0 as int) < template_rows().len() && (k.1 as int) < template_rows()[k.0 as int].len(),
            |k: (u32, u16)|
                CellView {
                    text: template_rows()[k.0 as int][k.1 as int],
                    style: if k.0 == 0 {
                        header_style()
                    } else {
                        plain_style()
                    },
                },
        ),
        widths: Map::new(
            |c: u16| (c as int) < template_widths().len(),
            |c: u16| template_widths()[c as int],
        ),
    }
}

/// Writes `cells` along row `row`, from the first column, with `format`
/// where one is given and plainly otherwise; for a row within Excel's limits
/// and nonempty texts of at most 16,383 characters every write succeeds.
fn write_template_row(
    w: &mut SheetWriter,
    row: u32,
    cells: &Vec<String>,
    format: Option<&CellFormat>,
) -> (res: Result<(), rust_xlsxwriter::XlsxError>)
    requires
        row < 1048576,
        cells.len() <= 16384,
        forall|i: int| 0 <= i < cells.len() ==> 0 < (#[trigger] cells@[i])@.len() <= 16383,
    ensures
        res is Ok,
        final(w)@ == (SheetView {
            cells: old(w)@.cells.union_prefer_right(
                row_cells(
                    row,
                    cells.deep_view(),
                    match format {
                        Some(f) => f@,
                        None => plain_style(),
                    },
                ),
            ),
            widths: old(w)@.widths,
        }),
{
    let ghost style = match format {
        Some(f) => f@,
        None => plain_style(),
    };
    let ghost texts = cells.deep_view();
    let mut col: usize = 0;
    assert(old(w)@.cells.union_prefer_right(row_cells(row, texts.take(0), style)) =~= old(w)@.cells);
    while col < cells.len()
        invariant
            row < 1048576,
            cells.len() <= 16384,
            forall|i: int| 0 <= i < cells.len() ==> 0 < (#[trigger] cells@[i])@.len() <= 16383,
            texts == cells.deep_view(),
            col <= cells.len(),
            style == match format {
                Some(f) => f@,
                None => plain_style(),
            },
            w@ == (SheetView {
                cells: old(w)@.cells.union_prefer_right(row_cells(row, texts.take(col as int), style)),
                widths: old(w)@.widths,
            }),
        decreases cells.len() - col,
    {
        let ghost before = w@;
        assert(texts[col as int] == cells@[col as int]@);
        let written = match format {
            Some(f) => write_formatted(w, row, col as u16, cells[col].as_str(), f),
            None => write_plain(w, row, col as u16, cells[col].as_str()),
        };
        if let Err(e) = written {
            return Err(e);
        }
        proof {
            let next = old(w)@.cells.union_prefer_right(row_cells(row, texts.take(col + 1), style));
            assert(next =~= before.cells.insert((row, col as u16), CellView { text: texts[col as int], style }));
        }
        col = col + 1;
    }
    assert(texts.take(cells.len() as int) =~= texts);
    Ok(())
}

/// The import template as the bytes of an xlsx file. It always succeeds:
/// the bytes hold one sheet, `template_sheet`, the cells of `template_grid`
/// with the header row bold, framed and silver, and the columns
/// `template_widths` wide.
pub fn generate_template() -> (res: Result<Vec<u8>, ExcelError>)
    ensures
        res matches Ok(bytes) && xlsx_book(bytes@) == Some(seq![template_sheet()]),
        res matches Ok(bytes) && xlsx_sheets(bytes@) == Some(seq![Some(template_rows())]),
{
    let grid = template_grid();
    proof {
        reveal_strlit("联行号");
        reveal_strlit("金融机构名称");
        reveal_strlit("ICBC");
        reveal_strlit("中国工商银行");
        reveal_strlit("ABC");
        reveal_strlit("中国农业银行");
        assert(grid.deep_view().len() == grid@.len());
        assert forall|k: int| 0 <= k < grid@.len() implies #[trigger] grid@[k].deep_view()
            == template_rows()[k] by {
            assert(grid.deep_view()[k] == grid@[k].deep_view());
        }
        let rows = template_rows();
        assert(rows[0][0].len() == 3 && rows[0][1].len() == 6);
        assert(rows[1][0].len() == 4 && rows[1][1].len() == 6);
        assert(rows[2][0].len() == 3 && rows[2][1].len() == 6);
        assert forall|k: int, i: int| 0 <= k < grid@.len() && 0 <= i < grid@[k].len() implies 0 < (
        #[trigger] grid@[k]@[i])@.len() <= 16383 by {
            assert(grid@[k].deep_view()[i] == grid@[k]@[i]@);
            assert(grid@[k].deep_view().len() == grid@[k]@.len());
            assert(rows[k].len() == 2);
            if k == 0 {
                assert(i == 0 || i == 1);
            }
        }
        assert forall|k: int| 0 <= k < grid@.len() implies #[trigger] grid@[k].len() == 2 by {
            assert(grid@[k].deep_view().len() == grid@[k]@.len());
        }
    }
    let mut book = new_book();
    let mut sheet = new_sheet();
    let header = format_silver_fill(format_thin_border(format_bold(new_format())));
    if let Err(e) = write_template_row(&mut sheet, 0, &grid[0], Some(&header)) {
        return Err(ExcelError::Write(xlsx_error_text(&e)));
    }
    if let Err(e) = column_width(&mut sheet, 0, 20) {
        return Err(ExcelError::Write(xlsx_error_text(&e)));
    }
    if let Err(e) = column_width(&mut sheet, 1, 40) {
        return Err(ExcelError::Write(xlsx_error_text(&e)));
    }
    if let Err(e) = write_template_row(&mut sheet, 1, &grid[1], None) {
        return Err(ExcelError::Write(xlsx_error_text(&e)));
    }
    if let Err(e) = write_template_row(&mut sheet, 2, &grid[2], None) {
        return Err(ExcelError::Write(xlsx_error_text(&e)));
    }
    proof {
        let t = template_sheet();
        assert(sheet@.widths =~= t.widths);
        assert(sheet@.cells =~= t.cells);
    }
    push_sheet(&mut book, sheet);
    assert(book@ =~= seq![template_sheet()]);
    proof {
        let t = template_sheet();
        assert forall|i: int, k: (u32, u16)|
            0 <= i < book@.len() && #[trigger] book@[i].cells.dom().contains(k) implies {
            &&& k.0 < 64
            &&& k.1 < 16
            &&& book@[i].cells[k].text.len() <= 16383
        } by {
            assert(book@[i] == t);
            assert(k.0 < 3 && k.1 < 2);
            if k.0 == 0 {
                assert(k.1 == 0 || k.1 == 1);
            }
        }
        assert(modest_book(book@));
        lemma_template_plain_grid();
        assert(book@[0] == t);
        assert(plain_grid(book@[0], 3, 2));
    }
    match save_book(&mut book) {
        Ok(bytes) => Ok(bytes),
        Err(e) => Err(ExcelError::Write(xlsx_error_text(&e))),
    }
}

/// The template sheet is a plain grid of three rows and two columns whose
/// texts are `template_rows`.
proof fn lemma_template_plain_grid()
    ensures
        plain_grid(template_sheet(), 3, 2),
        grid_of(template_sheet(), 3, 2) == template_rows(),
{
    reveal_strlit("联行号");
    reveal_strlit("金融机构名称");
    reveal_strlit("ICBC");
    reveal_strlit("中国工商银行");
    reveal_strlit("ABC");
    reveal_strlit("中国农业银行");
    let t = template_sheet();
    let rows = template_rows();
    assert forall|r: int, c: int, i: int|
        0 <= r < 3 && 0 <= c < 2 && 0 <= i < rows[r][c].len() implies plain_char(
        #[trigger] rows[r][c][i],
    ) by {
        assert(r == 0 || r == 1 || r == 2);
        assert(c == 0 || c == 1);
    }
    assert forall|k: (u32, u16)| #[trigger] t.cells.dom().contains(k) implies {
        &&& t.cells[k].text.len() > 0
        &&& forall|i: int| 0 <= i < t.cells[k].text.len() ==> plain_char(#[trigger] t.cells[k].text[i])
    } by {
        let r = k.0 as int;
        let c = k.1 as int;
        assert(0 <= r < 3 && 0 <= c < 2);
        assert(t.cells[k].text == rows[r][c]);
        assert forall|i: int| 0 <= i < t.cells[k].text.len() implies plain_char(
            #[trigger] t.cells[k].text[i],
        ) by {
            assert(plain_char(rows[r][c][i]));
        }
    }
    let g = grid_of(t, 3, 2);
    assert forall|r: int| 0 <= r < 3 implies #[trigger] g[r] == rows[r] by {
        assert(g[r] =~= rows[r]);
    }
    assert(g =~= rows);
}

/// Importing the template file gives its two sample banks: where a file
/// reads as the template's one sheet, as `generate_template`'s bytes do, its
/// banks are the samples.
pub proof fn law_template_import_gives_samples(bytes: Seq<u8>)
    requires
        xlsx_sheets(bytes) == Some(seq![Some(template_rows())]),
    ensures
        first_sheet_records(xlsx_sheets(bytes)->0) == template_samples(),
{
    law_template_reads_back();
    reveal_strlit("ICBC");
    let sheets = seq![Some(template_rows())];
    assert(sheet_records(template_rows()).len() == 2);
    law_first_sheet_wins(sheets, 0);
}

/// The template reads back as its sample banks: its header row gives no
/// record, and each sample row gives the record of its two cells.
pub proof fn law_template_reads_back()
    ensures
        sheet_records(template_rows()) == template_samples(),
{
    reveal_strlit("ICBC");
    reveal_strlit("中国工商银行");
    reveal_strlit("ABC");
    reveal_strlit("中国农业银行");
    let rows = template_rows().drop_first();
    let r1 = rows[0];
    let r2 = rows[1];
    assert(trim_seq(r1[0]) == r1[0]);
    assert(trim_seq(r1[1]) == r1[1]);
    assert(trim_seq(r2[0]) == r2[0]);
    assert(trim_seq(r2[1]) == r2[1]);
    let first = rows.drop_last();
    assert(first.len() == 1);
    assert(first.last() == r1);
    assert(first.drop_last() =~= Seq::<Seq<Seq<char>>>::empty());
    assert(rows_records(first.drop_last()) =~= Seq::<RecordView>::empty());
    assert(row_record(r1) == Some((r1[0], r1[1])));
    assert(rows_records(first) =~= seq![(r1[0], r1[1])]);
    assert(rows.last() == r2);
    assert(row_record(r2) == Some((r2[0], r2[1])));
    assert(rows_records(rows) =~= template_samples());
}

} // verus!
