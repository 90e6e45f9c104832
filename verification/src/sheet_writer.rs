//! Writing xlsx workbooks with rust_xlsxwriter, each writer value carrying a
//! model of what it holds: the cells with their text and style, and the
//! column widths. Only the functions of this module, which make the calls to
//! rust_xlsxwriter, change a model.

use vstd::prelude::*;

use crate::excel::xlsx_sheets;

verus! {

/// The error type of rust_xlsxwriter.
#[verifier::external_type_specification]
#[verifier::external_body]
pub struct ExXlsxError(rust_xlsxwriter::XlsxError);

/// The workbook type of rust_xlsxwriter.
#[verifier::external_type_specification]
#[verifier::external_body]
pub struct ExWorkbook(rust_xlsxwriter::Workbook);

/// The worksheet type of rust_xlsxwriter.
#[verifier::external_type_specification]
#[verifier::external_body]
pub struct ExWorksheet(rust_xlsxwriter::Worksheet);

/// The cell format type of rust_xlsxwriter.
#[verifier::external_type_specification]
#[verifier::external_body]
pub struct ExFormat(rust_xlsxwriter::Format);

/// The parts of a cell's format that this library sets.
pub struct CellStyle {
    pub bold: bool,
    pub thin_border: bool,
    pub silver_fill: bool,
}

/// The style of a cell written without a format.
pub open spec fn plain_style() -> CellStyle {
    CellStyle { bold: false, thin_border: false, silver_fill: false }
}

/// A written cell: its text and its style.
pub struct CellView {
    pub text: Seq<char>,
    pub style: CellStyle,
}

/// A worksheet: its cells by (row, column), and the widths set for its
/// columns, in the character units that `Worksheet::set_column_width` takes.
pub struct SheetView {
    pub cells: Map<(u32, u16), CellView>,
    pub widths: Map<u16, u16>,
}

/// A worksheet with nothing written to it.
pub open spec fn empty_sheet() -> SheetView {
    SheetView { cells: Map::empty(), widths: Map::empty() }
}

/// The sheets, in order, that the bytes of an xlsx file hold, each seen as
/// its written cells (text, and whether bold, framed by a thin border and
/// filled silver) and its column widths; `None` for bytes that are not such
/// a file.
pub uninterp spec fn xlsx_book(bytes: Seq<u8>) -> Option<Seq<SheetView>>;

/// A format of rust_xlsxwriter, with the style it sets.
pub struct CellFormat {
    format: rust_xlsxwriter::Format,
    style: Ghost<CellStyle>,
}

impl View for CellFormat {
    type V = CellStyle;

    closed spec fn view(&self) -> CellStyle {
        self.style@
    }
}

/// A worksheet of rust_xlsxwriter made by `Worksheet::new` (so never in
/// constant-memory mode), with the model of what it holds.
pub struct SheetWriter {
    sheet: rust_xlsxwriter::Worksheet,
    model: Ghost<SheetView>,
}

impl View for SheetWriter {
    type V = SheetView;

    closed spec fn view(&self) -> SheetView {
        self.model@
    }
}

/// A workbook of rust_xlsxwriter, with the models of its sheets in order.
pub struct BookWriter {
    book: rust_xlsxwriter::Workbook,
    sheets: Ghost<Seq<SheetView>>,
}

impl View for BookWriter {
    type V = Seq<SheetView>;

    closed spec fn view(&self) -> Seq<SheetView> {
        self.sheets@
    }
}

/// The default format, from `Format::new`: it sets none of the styles.
#[verifier::external_body]
pub fn new_format() -> (res: CellFormat)
    ensures
        res@ == plain_style(),
{
    CellFormat { format: rust_xlsxwriter::Format::new(), style: Ghost(plain_style()) }
}

/// The format made bold, through `Format::set_bold`; the rest stays.
#[verifier::external_body]
pub fn format_bold(f: CellFormat) -> (res: CellFormat)
    ensures
        res@ == (CellStyle { bold: true, thin_border: f@.thin_border, silver_fill: f@.silver_fill }),
{
    let ghost style = CellStyle { bold: true, thin_border: f@.thin_border, silver_fill: f@.silver_fill };
    CellFormat { format: f.format.set_bold(), style: Ghost(style) }
}

/// The format with a thin border on all four sides, through
/// `Format::set_border(FormatBorder::Thin)`; the rest stays.
#[verifier::external_body]
pub fn format_thin_border(f: CellFormat) -> (res: CellFormat)
    ensures
        res@ == (CellStyle { bold: f@.bold, thin_border: true, silver_fill: f@.silver_fill }),
{
    let ghost style = CellStyle { bold: f@.bold, thin_border: true, silver_fill: f@.silver_fill };
    CellFormat { format: f.format.set_border(rust_xlsxwriter::FormatBorder::Thin), style: Ghost(style) }
}

/// The format with a silver background, through
/// `Format::set_background_color(Color::Silver)`; the rest stays.
#[verifier::external_body]
pub fn format_silver_fill(f: CellFormat) -> (res: CellFormat)
    ensures
        res@ == (CellStyle { bold: f@.bold, thin_border: f@.thin_border, silver_fill: true }),
{
    let ghost style = CellStyle { bold: f@.bold, thin_border: f@.thin_border, silver_fill: true };
    let format = f.format.set_background_color(rust_xlsxwriter::Color::Silver);
    CellFormat { format, style: Ghost(style) }
}

/// An empty worksheet, from `Worksheet::new`.
#[verifier::external_body]
pub fn new_sheet() -> (res: SheetWriter)
    ensures
        res@ == empty_sheet(),
{
    SheetWriter { sheet: rust_xlsxwriter::Worksheet::new(), model: Ghost(empty_sheet()) }
}

/// The sheet with `text` written into cell (`row`, `col`) in `style`.
pub open spec fn with_cell(s: SheetView, row: u32, col: u16, text: Seq<char>, style: CellStyle) -> SheetView {
    SheetView { cells: s.cells.insert((row, col), CellView { text, style }), widths: s.widths }
}

/// Writes `text` into a cell with a format, through
/// `Worksheet::write_string_with_format`; an empty text leaves a blank cell
/// in that format. It fails only where the cell lies outside Excel's
/// 1,048,576 rows and 16,384 columns or the text is longer than 32,767
/// UTF-16 units, so it succeeds for texts of at most 16,383 characters; on
/// failure nothing is written.
#[verifier::external_body]
pub fn write_formatted(w: &mut SheetWriter, row: u32, col: u16, text: &str, format: &CellFormat) -> (res:
    Result<(), rust_xlsxwriter::XlsxError>)
    ensures
        row < 1048576 && col < 16384 && text@.len() <= 16383 ==> res is Ok,
        res is Ok ==> final(w)@ == with_cell(old(w)@, row, col, text@, format@),
        res is Err ==> final(w)@ == old(w)@,
{
    let written = w.sheet.write_string_with_format(row, col, text, &format.format).map(|_| ());
    if written.is_ok() {
        proof {
            w.model@ = with_cell(old(w)@, row, col, text@, format@);
        }
    }
    written
}

/// Writes `text` into a cell without a format, through
/// `Worksheet::write_string`; an empty text writes nothing and succeeds.
/// Otherwise it fails, and succeeds, as `write_formatted` does.
#[verifier::external_body]
pub fn write_plain(w: &mut SheetWriter, row: u32, col: u16, text: &str) -> (res: Result<
    (),
    rust_xlsxwriter::XlsxError,
>)
    ensures
        text@.len() == 0 ==> res is Ok,
        row < 1048576 && col < 16384 && text@.len() <= 16383 ==> res is Ok,
        res is Ok ==> final(w)@ == if text@.len() == 0 {
            old(w)@
        } else {
            with_cell(old(w)@, row, col, text@, plain_style())
        },
        res is Err ==> final(w)@ == old(w)@,
{
    let written = w.sheet.write_string(row, col, text).map(|_| ());
    if written.is_ok() && text.len() > 0 {
        proof {
            w.model@ = with_cell(old(w)@, row, col, text@, plain_style());
        }
    }
    written
}

/// Sets the width of a column to `width` characters (1 to 255, which
/// Excel's limit does not cut), through `Worksheet::set_column_width`. It
/// fails only for a column past Excel's 16,384, and then changes nothing.
#[verifier::external_body]
pub fn column_width(w: &mut SheetWriter, col: u16, width: u16) -> (res: Result<
    (),
    rust_xlsxwriter::XlsxError,
>)
    requires
        1 <= width <= 255,
    ensures
        col < 16384 ==> res is Ok,
        res is Ok ==> final(w)@ == (SheetView {
            cells: old(w)@.cells,
            widths: old(w)@.widths.insert(col, width),
        }),
        res is Err ==> final(w)@ == old(w)@,
{
    let set = w.sheet.set_column_width(col, width).map(|_| ());
    if set.is_ok() {
        proof {
            w.model@ = SheetView { cells: old(w)@.cells, widths: old(w)@.widths.insert(col, width) };
        }
    }
    set
}

/// An empty workbook, from `Workbook::new`.
#[verifier::external_body]
pub fn new_book() -> (res: BookWriter)
    ensures
        res@ == Seq::<SheetView>::empty(),
{
    BookWriter { book: rust_xlsxwriter::Workbook::new(), sheets: Ghost(Seq::empty()) }
}

/// Adds the sheet as the last of the workbook, through
/// `Workbook::push_worksheet`, which names it after its place.
#[verifier::external_body]
pub fn push_sheet(b: &mut BookWriter, s: SheetWriter)
    ensures
        final(b)@ == old(b)@.push(s@),
{
    let ghost model = s@;
    b.book.push_worksheet(s.sheet);
    proof {
        b.sheets@ = old(b)@.push(model);
    }
}

/// A workbook small enough that saving it cannot fail: at most 16 sheets,
/// each with cells only in its first 64 rows and 16 columns, each text of at
/// most 16,383 characters. Its files then stay far below the 4 GiB that the
/// zip writer takes without its large-file option.
pub open spec fn modest_book(sheets: Seq<SheetView>) -> bool {
    &&& sheets.len() <= 16
    &&& forall|i: int, k: (u32, u16)|
        0 <= i < sheets.len() && #[trigger] sheets[i].cells.dom().contains(k) ==> {
            &&& k.0 < 64
            &&& k.1 < 16
            &&& sheets[i].cells[k].text.len() <= 16383
        }
}

/// A character that xlsx writers and readers keep as it is: an ASCII letter
/// or digit, or a CJK unified ideograph.
pub open spec fn plain_char(c: char) -> bool {
    let u = c as u32;
    ||| 48 <= u <= 57
    ||| 65 <= u <= 90
    ||| 97 <= u <= 122
    ||| 0x4E00 <= u <= 0x9FFF
}

/// A sheet whose cells fill the `nrows` by `ncols` block from the top-left
/// cell, each holding a nonempty text of plain characters.
pub open spec fn plain_grid(s: SheetView, nrows: nat, ncols: nat) -> bool {
    &&& 1 <= nrows <= 1048576
    &&& 1 <= ncols <= 16384
    &&& forall|k: (u32, u16)|
        #[trigger] s.cells.dom().contains(k) <==> ((k.0 as int) < nrows && (k.1 as int) < ncols)
    &&& forall|k: (u32, u16)|
        #[trigger] s.cells.dom().contains(k) ==> {
            &&& s.cells[k].text.len() > 0
            &&& forall|i: int| 0 <= i < s.cells[k].text.len() ==> plain_char(#[trigger] s.cells[k].text[i])
        }
}

/// The texts of the `nrows` by `ncols` block of a sheet from the top-left
/// cell, row by row.
pub open spec fn grid_of(s: SheetView, nrows: nat, ncols: nat) -> Seq<Seq<Seq<char>>> {
    Seq::new(nrows, |r: int| Seq::new(ncols, |c: int| s.cells[(r as u32, c as u16)].text))
}

/// The bytes of the xlsx file, through `Workbook::save_to_buffer`. The bytes
/// hold the workbook's sheets, or one empty sheet for a workbook with none
/// (which `save_to_buffer` adds). Saving fails only where sheet names repeat,
/// a chartsheet has no chart, charts, tables or defined names are wrong, or
/// the zip writer fails; a workbook built here has no charts, tables or
/// defined names, its sheets are named after their places by
/// `push_sheet`, and for a `modest_book` the zip writer does not fail, so
/// then saving succeeds. The bytes also carry the time of writing, which is
/// not stated. A workbook of one sheet that is a `plain_grid` is read back
/// by calamine (`xlsx_sheets`) as that one sheet, its rows the grid's texts:
/// rust_xlsxwriter stores each text as a shared string, and calamine reads
/// the bounding block of the nonempty cells with each string as it is.
#[verifier::external_body]
pub fn save_book(b: &mut BookWriter) -> (res: Result<Vec<u8>, rust_xlsxwriter::XlsxError>)
    ensures
        modest_book(old(b)@) ==> res is Ok,
        res matches Ok(bytes) ==> xlsx_book(bytes@) == Some(
            if old(b)@.len() == 0 {
                seq![empty_sheet()]
            } else {
                old(b)@
            },
        ),
        forall|nrows: nat, ncols: nat|
            #![trigger plain_grid(old(b)@[0], nrows, ncols)]
            old(b)@.len() == 1 && plain_grid(old(b)@[0], nrows, ncols) ==> (res matches Ok(bytes)
                ==> xlsx_sheets(bytes@) == Some(seq![Some(grid_of(old(b)@[0], nrows, ncols))])),
{
    b.book.save_to_buffer()
}

/// The text that rust_xlsxwriter gives an error (its `Display`); nothing is
/// stated of it.
#[verifier::external_body]
pub fn xlsx_error_text(e: &rust_xlsxwriter::XlsxError) -> String {
    e.to_string()
}

} // verus!
