//! Building a Word document with the `docx-rs` crate. Each builder value is
//! described by what it holds (texts, properties set, rows, borders by
//! side); each wrapper says how its call changes that.

use vstd::prelude::*;

verus! {

#[verifier::external_type_specification]
#[verifier::external_body]
pub struct ExDocx(docx_rs::Docx);

#[verifier::external_type_specification]
#[verifier::external_body]
pub struct ExXMLDocx(docx_rs::XMLDocx);

#[verifier::external_type_specification]
#[verifier::external_body]
pub struct ExRun(docx_rs::Run);

#[verifier::external_type_specification]
#[verifier::external_body]
pub struct ExParagraph(docx_rs::Paragraph);

#[verifier::external_type_specification]
#[verifier::external_body]
pub struct ExTableCell(docx_rs::TableCell);

#[verifier::external_type_specification]
#[verifier::external_body]
pub struct ExTableRow(docx_rs::TableRow);

#[verifier::external_type_specification]
#[verifier::external_body]
pub struct ExTable(docx_rs::Table);

#[verifier::external_type_specification]
#[verifier::external_body]
pub struct ExTableBorders(docx_rs::TableBorders);

#[verifier::external_type_specification]
#[verifier::external_body]
pub struct ExTableBorder(docx_rs::TableBorder);

} // verus!

verus! {

/// Paragraph alignments that the library uses (`docx_rs::AlignmentType`).
#[derive(PartialEq, Eq, Structural)]
pub enum Alignment {
    Center,
}

/// Width units that the library uses (`docx_rs::WidthType`).
#[derive(PartialEq, Eq, Structural)]
pub enum WidthUnit {
    Dxa,
}

/// Border styles that the library uses (`docx_rs::BorderType`).
#[derive(PartialEq, Eq, Structural)]
pub enum BorderStyle {
    Single,
}

/// The sides of a table border (`docx_rs::TableBorderPosition`).
#[derive(Clone, Copy, PartialEq, Eq, Structural)]
pub enum BorderSide {
    Left,
    Right,
    Top,
    Bottom,
    InsideH,
    InsideV,
}

/// The docx-rs name of an alignment (`AlignmentType`'s `Display` text).
pub open spec fn alignment_name(a: Alignment) -> Seq<char> {
    match a {
        Alignment::Center => "center"@,
    }
}

/// The docx-rs name of a width unit (`WidthType`'s `Display` text).
pub open spec fn width_unit_name(u: WidthUnit) -> Seq<char> {
    match u {
        WidthUnit::Dxa => "dxa"@,
    }
}

/// The docx-rs name of a border style (`BorderType`'s `Display` text).
pub open spec fn border_style_name(s: BorderStyle) -> Seq<char> {
    match s {
        BorderStyle::Single => "single"@,
    }
}

/// `text` with every line feed removed, as `Run::add_text` stores it.
pub open spec fn without_newlines(text: Seq<char>) -> Seq<char> {
    text.filter(|c: char| c != '\n')
}

/// What a run holds: the texts of its text children in order, its font
/// size (in half-points) if set, and whether bold and italic are set.
#[verifier::ext_equal]
pub struct RunV {
    pub texts: Seq<Seq<char>>,
    pub size: Option<usize>,
    pub bold: bool,
    pub italic: bool,
}

/// What a paragraph holds: its runs in order, and its alignment if set.
#[verifier::ext_equal]
pub struct ParagraphV {
    pub runs: Seq<RunV>,
    pub alignment: Option<Seq<char>>,
}

/// What a table cell holds: its paragraphs in order, and its width (value
/// and unit) if set.
#[verifier::ext_equal]
pub struct CellV {
    pub paragraphs: Seq<ParagraphV>,
    pub width: Option<(usize, Seq<char>)>,
}

/// What a table border holds: its side, style, size (in eighths of a
/// point) and colour.
#[verifier::ext_equal]
pub struct BorderV {
    pub side: BorderSide,
    pub style: Seq<char>,
    pub size: usize,
    pub color: Seq<char>,
}

/// What a table holds: its rows (each the cells it holds), its column
/// grid, and its borders, one slot per side.
#[verifier::ext_equal]
pub struct TableV {
    pub rows: Seq<Seq<CellV>>,
    pub grid: Seq<usize>,
    pub borders: Map<BorderSide, BorderV>,
}

/// A block of a document's body.
pub enum BlockV {
    Paragraph(ParagraphV),
    Table(TableV),
}

/// The border that `TableBorder::new(side)` makes: single, size 2, black.
pub open spec fn new_border(side: BorderSide) -> BorderV {
    BorderV { side, style: "single"@, size: 2, color: "000000"@ }
}

/// What a run holds.
pub uninterp spec fn run_state(r: docx_rs::Run) -> RunV;

/// What a paragraph holds.
pub uninterp spec fn paragraph_state(p: docx_rs::Paragraph) -> ParagraphV;

/// What a table cell holds.
pub uninterp spec fn cell_state(c: docx_rs::TableCell) -> CellV;

/// The cells a table row holds.
pub uninterp spec fn row_state(r: docx_rs::TableRow) -> Seq<CellV>;

/// What a table holds.
pub uninterp spec fn table_state(t: docx_rs::Table) -> TableV;

/// The borders a border collection holds, by side.
pub uninterp spec fn borders_state(b: docx_rs::TableBorders) -> Map<BorderSide, BorderV>;

/// What a table border holds.
pub uninterp spec fn border_state(b: docx_rs::TableBorder) -> BorderV;

/// The paragraphs and tables of a document's body, in order.
pub uninterp spec fn docx_blocks(d: docx_rs::Docx) -> Seq<BlockV>;

/// The paragraphs and tables of the body that a rendered package holds.
pub uninterp spec fn xml_docx_blocks(x: docx_rs::XMLDocx) -> Seq<BlockV>;

/// Whether `bytes` are a `.docx` package that docx-rs writes for a
/// document whose body holds `blocks` (the paragraph ids in it come from
/// a per-thread counter, so one body has many such packages).
pub uninterp spec fn docx_packs(bytes: Seq<u8>, blocks: Seq<BlockV>) -> bool;

/// `Run::new()`: no text, no properties set.
#[verifier::external_body]
pub(crate) fn run_new() -> (r: docx_rs::Run)
    ensures
        run_state(r) == (RunV { texts: Seq::empty(), size: None, bold: false, italic: false }),
{
    docx_rs::Run::new()
}

/// `Run::add_text(text)`: one more text child, with line feeds removed.
#[verifier::external_body]
pub(crate) fn run_add_text(r: docx_rs::Run, text: &str) -> (out: docx_rs::Run)
    ensures
        run_state(out) == (RunV { texts: run_state(r).texts.push(without_newlines(text@)), ..run_state(r) }),
{
    r.add_text(text)
}

/// `Run::size(size)` (in half-points): sets the size.
#[verifier::external_body]
pub(crate) fn run_size(r: docx_rs::Run, size: usize) -> (out: docx_rs::Run)
    ensures
        run_state(out) == (RunV { size: Some(size), ..run_state(r) }),
{
    r.size(size)
}

/// `Run::bold()`: sets bold.
#[verifier::external_body]
pub(crate) fn run_bold(r: docx_rs::Run) -> (out: docx_rs::Run)
    ensures
        run_state(out) == (RunV { bold: true, ..run_state(r) }),
{
    r.bold()
}

/// `Run::italic()`: sets italic.
#[verifier::external_body]
pub(crate) fn run_italic(r: docx_rs::Run) -> (out: docx_rs::Run)
    ensures
        run_state(out) == (RunV { italic: true, ..run_state(r) }),
{
    r.italic()
}

/// `Paragraph::new()`: no runs, no alignment.
#[verifier::external_body]
pub(crate) fn paragraph_new() -> (p: docx_rs::Paragraph)
    ensures
        paragraph_state(p) == (ParagraphV { runs: Seq::empty(), alignment: None }),
{
    docx_rs::Paragraph::new()
}

/// `Paragraph::add_run(run)`: one more run.
#[verifier::external_body]
pub(crate) fn paragraph_add_run(p: docx_rs::Paragraph, run: docx_rs::Run) -> (out: docx_rs::Paragraph)
    ensures
        paragraph_state(out) == (ParagraphV {
            runs: paragraph_state(p).runs.push(run_state(run)),
            ..paragraph_state(p)
        }),
{
    p.add_run(run)
}

/// `Paragraph::align(alignment)`: sets the alignment.
#[verifier::external_body]
pub(crate) fn paragraph_align(p: docx_rs::Paragraph, alignment: Alignment) -> (out: docx_rs::Paragraph)
    ensures
        paragraph_state(out) == (ParagraphV {
            alignment: Some(alignment_name(alignment)),
            ..paragraph_state(p)
        }),
{
    p.align(
        match alignment {
            Alignment::Center => docx_rs::AlignmentType::Center,
        },
    )
}

/// `TableCell::new()`: no paragraphs, no width.
#[verifier::external_body]
pub(crate) fn cell_new() -> (c: docx_rs::TableCell)
    ensures
        cell_state(c) == (CellV { paragraphs: Seq::empty(), width: None }),
{
    docx_rs::TableCell::new()
}

/// `TableCell::add_paragraph(p)`: one more paragraph.
#[verifier::external_body]
pub(crate) fn cell_add_paragraph(c: docx_rs::TableCell, p: docx_rs::Paragraph) -> (out: docx_rs::TableCell)
    ensures
        cell_state(out) == (CellV {
            paragraphs: cell_state(c).paragraphs.push(paragraph_state(p)),
            ..cell_state(c)
        }),
{
    c.add_paragraph(p)
}

/// `TableCell::width(width, unit)`: sets the width.
#[verifier::external_body]
pub(crate) fn cell_width(c: docx_rs::TableCell, width: usize, unit: WidthUnit) -> (out: docx_rs::TableCell)
    ensures
        cell_state(out) == (CellV { width: Some((width, width_unit_name(unit))), ..cell_state(c) }),
{
    c.width(
        width,
        match unit {
            WidthUnit::Dxa => docx_rs::WidthType::Dxa,
        },
    )
}

/// `TableRow::new(cells)`: a row of these cells.
#[verifier::external_body]
pub(crate) fn row_new(cells: Vec<docx_rs::TableCell>) -> (r: docx_rs::TableRow)
    ensures
        row_state(r) == cells@.map_values(|c: docx_rs::TableCell| cell_state(c)),
{
    docx_rs::TableRow::new(cells)
}

/// The borders of a table made by `Table::new`: `TableBorders::new()`,
/// every side set to `TableBorder::new(side)`.
pub open spec fn new_table_borders() -> Map<BorderSide, BorderV> {
    Map::new(|side: BorderSide| true, |side: BorderSide| new_border(side))
}

/// `Table::new(rows)`: these rows, an empty grid, the default borders.
#[verifier::external_body]
pub(crate) fn table_new(rows: Vec<docx_rs::TableRow>) -> (t: docx_rs::Table)
    ensures
        table_state(t) == (TableV {
            rows: rows@.map_values(|r: docx_rs::TableRow| row_state(r)),
            grid: Seq::empty(),
            borders: new_table_borders(),
        }),
{
    docx_rs::Table::new(rows)
}

/// `Table::set_grid(grid)`: replaces the grid.
#[verifier::external_body]
pub(crate) fn table_set_grid(t: docx_rs::Table, grid: Vec<usize>) -> (out: docx_rs::Table)
    ensures
        table_state(out) == (TableV { grid: grid@, ..table_state(t) }),
{
    t.set_grid(grid)
}

/// `Table::set_borders(borders)`: replaces the borders.
#[verifier::external_body]
pub(crate) fn table_set_borders(t: docx_rs::Table, borders: docx_rs::TableBorders) -> (out: docx_rs::Table)
    ensures
        table_state(out) == (TableV { borders: borders_state(borders), ..table_state(t) }),
{
    t.set_borders(borders)
}

/// A border collection with no side set.
pub open spec fn no_borders() -> Map<BorderSide, BorderV> {
    Map::empty()
}

/// `TableBorders::with_empty()`: no side set.
#[verifier::external_body]
pub(crate) fn borders_with_empty() -> (b: docx_rs::TableBorders)
    ensures
        borders_state(b) == no_borders(),
{
    docx_rs::TableBorders::with_empty()
}

/// `TableBorders::set(border)`: the border takes the slot of its side.
#[verifier::external_body]
pub(crate) fn borders_set_border(b: docx_rs::TableBorders, border: docx_rs::TableBorder) -> (out: docx_rs::TableBorders)
    ensures
        borders_state(out) == borders_state(b).insert(border_state(border).side, border_state(border)),
{
    b.set(border)
}

/// `TableBorder::new(side)`: a single black border of size 2 on `side`.
#[verifier::external_body]
pub(crate) fn border_new(side: BorderSide) -> (b: docx_rs::TableBorder)
    ensures
        border_state(b) == new_border(side),
{
    docx_rs::TableBorder::new(
        match side {
            BorderSide::Left => docx_rs::TableBorderPosition::Left,
            BorderSide::Right => docx_rs::TableBorderPosition::Right,
            BorderSide::Top => docx_rs::TableBorderPosition::Top,
            BorderSide::Bottom => docx_rs::TableBorderPosition::Bottom,
            BorderSide::InsideH => docx_rs::TableBorderPosition::InsideH,
            BorderSide::InsideV => docx_rs::TableBorderPosition::InsideV,
        },
    )
}

/// `TableBorder::border_type(style)`: sets the style.
#[verifier::external_body]
pub(crate) fn border_style(b: docx_rs::TableBorder, style: BorderStyle) -> (out: docx_rs::TableBorder)
    ensures
        border_state(out) == (BorderV { style: border_style_name(style), ..border_state(b) }),
{
    b.border_type(
        match style {
            BorderStyle::Single => docx_rs::BorderType::Single,
        },
    )
}

/// `TableBorder::size(size)` (in eighths of a point): sets the size.
#[verifier::external_body]
pub(crate) fn border_size(b: docx_rs::TableBorder, size: usize) -> (out: docx_rs::TableBorder)
    ensures
        border_state(out) == (BorderV { size, ..border_state(b) }),
{
    b.size(size)
}

/// `TableBorder::color(color)`: sets the colour.
#[verifier::external_body]
pub(crate) fn border_color(b: docx_rs::TableBorder, color: &str) -> (out: docx_rs::TableBorder)
    ensures
        border_state(out) == (BorderV { color: color@, ..border_state(b) }),
{
    b.color(color)
}

/// `Docx::new()`: an empty body.
#[verifier::external_body]
pub(crate) fn docx_new() -> (d: docx_rs::Docx)
    ensures
        docx_blocks(d) == Seq::<BlockV>::empty(),
{
    docx_rs::Docx::new()
}

/// `Docx::add_paragraph(p)`: the paragraph ends the body.
#[verifier::external_body]
pub(crate) fn docx_add_paragraph(d: docx_rs::Docx, p: docx_rs::Paragraph) -> (out: docx_rs::Docx)
    ensures
        docx_blocks(out) == docx_blocks(d).push(BlockV::Paragraph(paragraph_state(p))),
{
    d.add_paragraph(p)
}

/// `Docx::add_table(t)`: the table ends the body.
#[verifier::external_body]
pub(crate) fn docx_add_table(d: docx_rs::Docx, t: docx_rs::Table) -> (out: docx_rs::Docx)
    ensures
        docx_blocks(out) == docx_blocks(d).push(BlockV::Table(table_state(t))),
{
    d.add_table(t)
}

/// `Docx::build()`, which renders the package parts of the document.
#[verifier::external_body]
pub(crate) fn docx_build(d: docx_rs::Docx) -> (x: docx_rs::XMLDocx)
    ensures
        xml_docx_blocks(x) == docx_blocks(d),
{
    d.build()
}

/// Whether `bytes` begin with the signature of a ZIP local file header,
/// `PK\x03\x04`: the first entry of a ZIP archive.
pub open spec fn begins_zip_archive(bytes: Seq<u8>) -> bool {
    &&& bytes.len() >= 4
    &&& bytes[0] == 0x50u8
    &&& bytes[1] == 0x4Bu8
    &&& bytes[2] == 0x03u8
    &&& bytes[3] == 0x04u8
}

/// `XMLDocx::pack` into an in-memory buffer. The error, of the `zip`
/// version that `docx-rs` uses, is given by its `Display` text. Claimed:
/// packed bytes are a package of the body the parts were rendered from,
/// and begin a ZIP archive (`pack` opens the archive with the local header
/// of its `word/` directory entry). Success is not claimed: the `zip`
/// writer refuses a part larger than 4 GiB, and the size of the rendered
/// parts is not part of this model.
#[verifier::external_body]
pub(crate) fn xml_docx_pack(x: docx_rs::XMLDocx) -> (r: Result<Vec<u8>, String>)
    ensures
        r matches Ok(bytes) ==> begins_zip_archive(bytes@) && docx_packs(bytes@, xml_docx_blocks(x)),
{
    let mut cursor = std::io::Cursor::new(Vec::<u8>::new());
    x.pack(&mut cursor).map_err(|e| e.to_string())?;
    Ok(cursor.into_inner())
}

} // verus!
