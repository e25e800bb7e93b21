//! A report as plain data: sheets of cells, merged ranges and column
//! widths, in the order in which they are laid down.
use vstd::prelude::*;
use vstd::string::StringExecFns;

verus! {

/// The looks a cell can have.
#[derive(Clone, Copy, Debug, PartialEq, Eq, Hash, Structural)]
pub enum Style {
    ThinBorder,
    ThinBorderTextCenter,
    ThinBorderTextWrap,
    TextCenterColorRed,
    TextBoldCentered,
    TextBoldBare,
    BackgroundSilver,
    BackgroundBlack,
    BackgroundGreen,
    BackgroundRed,
}

/// What a cell holds.
#[derive(Clone, Debug, PartialEq, Eq)]
pub enum CellValue {
    Text(String),
    Number(i64),
}

/// A cell's content as a mathematical value.
pub enum CellValueView {
    Text(Seq<char>),
    Number(int),
}

impl View for CellValue {
    type V = CellValueView;

    open spec fn view(&self) -> CellValueView {
        match self {
            CellValue::Text(text) => CellValueView::Text(text@),
            CellValue::Number(n) => CellValueView::Number(*n as int),
        }
    }
}

/// One step of laying out a sheet.
#[derive(Clone, Debug, PartialEq, Eq)]
pub enum SheetOp {
    /// Puts a value with a style into a cell.
    Write { row: u32, col: u16, value: CellValue, style: Style },
    /// Merges a block of cells and puts a text into it.
    Merge { first_row: u32, first_col: u16, last_row: u32, last_col: u16, text: String, style: Style },
    /// Makes a column `numerator / denominator` characters wide.
    ColumnWidth { col: u16, numerator: u32, denominator: u32 },
    /// Gives a cell a style and leaves what it holds.
    CellFormat { row: u32, col: u16, style: Style },
}

/// A layout step as a mathematical value.
pub enum SheetOpView {
    Write { row: u32, col: u16, value: CellValueView, style: Style },
    Merge { first_row: u32, first_col: u16, last_row: u32, last_col: u16, text: Seq<char>, style: Style },
    ColumnWidth { col: u16, numerator: u32, denominator: u32 },
    CellFormat { row: u32, col: u16, style: Style },
}

impl View for SheetOp {
    type V = SheetOpView;

    open spec fn view(&self) -> SheetOpView {
        match self {
            SheetOp::Write { row, col, value, style } => SheetOpView::Write {
                row: *row,
                col: *col,
                value: value@,
                style: *style,
            },
            SheetOp::Merge { first_row, first_col, last_row, last_col, text, style } => {
                SheetOpView::Merge {
                    first_row: *first_row,
                    first_col: *first_col,
                    last_row: *last_row,
                    last_col: *last_col,
                    text: text@,
                    style: *style,
                }
            },
            SheetOp::ColumnWidth { col, numerator, denominator } => SheetOpView::ColumnWidth {
                col: *col,
                numerator: *numerator,
                denominator: *denominator,
            },
            SheetOp::CellFormat { row, col, style } => SheetOpView::CellFormat {
                row: *row,
                col: *col,
                style: *style,
            },
        }
    }
}

/// The step that writes a text.
pub open spec fn text_cell(row: u32, col: u16, text: Seq<char>, style: Style) -> SheetOpView {
    SheetOpView::Write { row, col, value: CellValueView::Text(text), style }
}

/// The step that writes a number.
pub open spec fn number_cell(row: u32, col: u16, n: int, style: Style) -> SheetOpView {
    SheetOpView::Write { row, col, value: CellValueView::Number(n), style }
}

/// The step that merges a block around a text.
pub open spec fn merged_cell(
    first_row: u32,
    first_col: u16,
    last_row: u32,
    last_col: u16,
    text: Seq<char>,
    style: Style,
) -> SheetOpView {
    SheetOpView::Merge { first_row, first_col, last_row, last_col, text, style }
}

/// The step that sets a column's width.
pub open spec fn width_of(col: u16, numerator: u32, denominator: u32) -> SheetOpView {
    SheetOpView::ColumnWidth { col, numerator, denominator }
}

/// The step that styles a cell.
pub open spec fn styled_cell(row: u32, col: u16, style: Style) -> SheetOpView {
    SheetOpView::CellFormat { row, col, style }
}

/// One sheet: its name and its layout steps, oldest first.
#[derive(Clone, Debug, PartialEq, Eq)]
pub struct Sheet {
    pub name: String,
    pub ops: Vec<SheetOp>,
}

/// A sheet as a mathematical value.
pub struct SheetView {
    pub name: Seq<char>,
    pub ops: Seq<SheetOpView>,
}

impl View for Sheet {
    type V = SheetView;

    open spec fn view(&self) -> SheetView {
        SheetView { name: self.name@, ops: Seq::new(self.ops@.len(), |i: int| self.ops@[i]@) }
    }
}

impl Sheet {
    /// An empty sheet.
    pub fn new(name: String) -> (sheet: Sheet)
        ensures
            sheet@.name == name@,
            sheet@.ops == Seq::<SheetOpView>::empty(),
    {
        let sheet = Sheet { name, ops: Vec::new() };
        assert(sheet@.ops =~= Seq::<SheetOpView>::empty());
        sheet
    }

    /// Lays down one more step.
    pub fn push(&mut self, op: SheetOp)
        ensures
            final(self)@.name == old(self)@.name,
            final(self)@.ops == old(self)@.ops.push(op@),
    {
        self.ops.push(op);
        assert(self@.ops =~= old(self)@.ops.push(op@));
    }

    /// Writes a value into a cell.
    pub fn write_with_format(&mut self, row: u32, col: u16, value: CellValue, style: Style)
        ensures
            final(self)@.name == old(self)@.name,
            final(self)@.ops == old(self)@.ops.push(
                SheetOpView::Write { row, col, value: value@, style },
            ),
    {
        self.push(SheetOp::Write { row, col, value, style });
    }

    /// Writes a text into a cell.
    pub fn write_text(&mut self, row: u32, col: u16, text: &str, style: Style)
        ensures
            final(self)@.name == old(self)@.name,
            final(self)@.ops == old(self)@.ops.push(text_cell(row, col, text@, style)),
    {
        self.push(SheetOp::Write { row, col, value: CellValue::Text(String::from_str(text)), style });
    }

    /// Writes a number into a cell.
    pub fn write_number(&mut self, row: u32, col: u16, n: i64, style: Style)
        ensures
            final(self)@.name == old(self)@.name,
            final(self)@.ops == old(self)@.ops.push(number_cell(row, col, n as int, style)),
    {
        self.push(SheetOp::Write { row, col, value: CellValue::Number(n), style });
    }

    /// Merges the cells from `(first_row, first_col)` to `(last_row,
    /// last_col)` and writes a text into the block.
    pub fn merge_range(
        &mut self,
        first_row: u32,
        first_col: u16,
        last_row: u32,
        last_col: u16,
        text: &str,
        style: Style,
    )
        ensures
            final(self)@.name == old(self)@.name,
            final(self)@.ops == old(self)@.ops.push(
                merged_cell(first_row, first_col, last_row, last_col, text@, style),
            ),
    {
        self.push(
            SheetOp::Merge {
                first_row,
                first_col,
                last_row,
                last_col,
                text: String::from_str(text),
                style,
            },
        );
    }

    /// Makes a column `numerator / denominator` characters wide.
    pub fn set_column_width(&mut self, col: u16, numerator: u32, denominator: u32)
        ensures
            final(self)@.name == old(self)@.name,
            final(self)@.ops == old(self)@.ops.push(width_of(col, numerator, denominator)),
    {
        self.push(SheetOp::ColumnWidth { col, numerator, denominator });
    }

    /// Gives a cell a style.
    pub fn set_cell_format(&mut self, row: u32, col: u16, style: Style)
        ensures
            final(self)@.name == old(self)@.name,
            final(self)@.ops == old(self)@.ops.push(styled_cell(row, col, style)),
    {
        self.push(SheetOp::CellFormat { row, col, style });
    }
}

/// A report: its sheets in the order in which they were added.
#[derive(Clone, Debug, PartialEq, Eq)]
pub struct Workbook {
    pub sheets: Vec<Sheet>,
}

impl View for Workbook {
    type V = Seq<SheetView>;

    open spec fn view(&self) -> Seq<SheetView> {
        Seq::new(self.sheets@.len(), |i: int| self.sheets@[i]@)
    }
}

impl Workbook {
    /// A report without sheets.
    pub fn new() -> (workbook: Workbook)
        ensures
            workbook@ == Seq::<SheetView>::empty(),
    {
        let workbook = Workbook { sheets: Vec::new() };
        assert(workbook@ =~= Seq::<SheetView>::empty());
        workbook
    }

    /// Adds a sheet behind the others.
    pub fn push_worksheet(&mut self, sheet: Sheet)
        ensures
            final(self)@ == old(self)@.push(sheet@),
    {
        self.sheets.push(sheet);
        assert(self@ =~= old(self)@.push(sheet@));
    }

    /// Adds sheets behind the others, in their order.
    pub fn append_worksheets(&mut self, sheets: Vec<Sheet>)
        ensures
            final(self)@ == old(self)@ + Seq::new(sheets@.len(), |i: int| sheets@[i]@),
    {
        let mut sheets = sheets;
        let ghost added = Seq::new(sheets@.len(), |i: int| sheets@[i]@);
        self.sheets.append(&mut sheets);
        assert(self@ =~= old(self)@ + added);
    }
}

} // verus!
