//! Tables of text cells, and their rendering through comfy-table.

use vstd::prelude::*;

verus! {

#[verifier::external_type_specification]
#[verifier::external_body]
pub struct ExTable(comfy_table::Table);

#[verifier::external_type_specification]
#[verifier::external_body]
pub struct ExCell(comfy_table::Cell);

/// How a cell's text is set off from the others.
#[derive(Clone, Copy, Debug, PartialEq, Eq, Structural)]
pub enum Emphasis {
    Plain,
    Bold,
    Italic,
}

/// One cell: its text and its emphasis.
#[derive(Debug)]
pub struct TextCell {
    pub text: String,
    pub emphasis: Emphasis,
}

/// A table laid out as rows of cells, with an optional header row.
#[derive(Debug)]
pub struct TextTable {
    pub header: Option<Vec<TextCell>>,
    pub rows: Vec<Vec<TextCell>>,
}

pub open spec fn cell_view(c: TextCell) -> (Seq<char>, Emphasis) {
    (c.text@, c.emphasis)
}

pub open spec fn row_view(r: Seq<TextCell>) -> Seq<(Seq<char>, Emphasis)> {
    r.map_values(|c: TextCell| cell_view(c))
}

/// What a table shows: the header's cells, if any, and the rows' cells.
pub struct TableView {
    pub header: Option<Seq<(Seq<char>, Emphasis)>>,
    pub rows: Seq<Seq<(Seq<char>, Emphasis)>>,
}

impl View for TextTable {
    type V = TableView;

    open spec fn view(&self) -> TableView {
        TableView {
            header: match self.header {
                Some(h) => Some(row_view(h@)),
                None => None,
            },
            rows: self.rows@.map_values(|r: Vec<TextCell>| row_view(r@)),
        }
    }
}

/// What a cell of comfy-table shows: its content lines joined by `'\n'`.
pub uninterp spec fn cell_text(c: comfy_table::Cell) -> Seq<char>;

/// Whether a cell of comfy-table carries `Attribute::Bold`.
pub uninterp spec fn cell_bold(c: comfy_table::Cell) -> bool;

/// Whether a cell of comfy-table carries `Attribute::Italic`.
pub uninterp spec fn cell_italic(c: comfy_table::Cell) -> bool;

/// The cells of a comfy-table table's header row, each as (text, bold,
/// italic); empty where the table has no header.
pub uninterp spec fn table_header(t: comfy_table::Table) -> Seq<(Seq<char>, bool, bool)>;

/// The body rows of a comfy-table table in order, each cell as (text, bold,
/// italic).
pub uninterp spec fn table_rows(t: comfy_table::Table) -> Seq<Seq<(Seq<char>, bool, bool)>>;

pub open spec fn cell_shown(c: comfy_table::Cell) -> (Seq<char>, bool, bool) {
    (cell_text(c), cell_bold(c), cell_italic(c))
}

pub open spec fn cells_shown(cs: Seq<comfy_table::Cell>) -> Seq<(Seq<char>, bool, bool)> {
    cs.map_values(|c: comfy_table::Cell| cell_shown(c))
}

/// A cell of a `TextTable` as comfy-table is to show it: text, bold, italic.
pub open spec fn shown(c: (Seq<char>, Emphasis)) -> (Seq<char>, bool, bool) {
    (c.0, c.1 == Emphasis::Bold, c.1 == Emphasis::Italic)
}

pub open spec fn row_shown(r: Seq<(Seq<char>, Emphasis)>) -> Seq<(Seq<char>, bool, bool)> {
    r.map_values(|c: (Seq<char>, Emphasis)| shown(c))
}

/// Relies on comfy_table::Table::new, load_preset and apply_modifier: an
/// empty table, without header or rows, drawn with full UTF-8 borders,
/// solid inner lines and round corners.
#[verifier::external_body]
fn styled_table() -> (r: comfy_table::Table)
    ensures
        table_header(r) == Seq::<(Seq<char>, bool, bool)>::empty(),
        table_rows(r) == Seq::<Seq<(Seq<char>, bool, bool)>>::empty(),
{
    let mut t = comfy_table::Table::new();
    t.load_preset(comfy_table::presets::UTF8_FULL)
        .apply_modifier(comfy_table::modifiers::UTF8_SOLID_INNER_BORDERS)
        .apply_modifier(comfy_table::modifiers::UTF8_ROUND_CORNERS);
    t
}

/// Relies on comfy_table::Cell::new: a cell that shows the text split into
/// lines at `'\n'`, with no attribute.
#[verifier::external_body]
fn plain_cell(text: &String) -> (r: comfy_table::Cell)
    ensures
        cell_text(r) == text@,
        !cell_bold(r),
        !cell_italic(r),
{
    comfy_table::Cell::new(text)
}

/// Relies on comfy_table::Cell::add_attribute with Attribute::Bold, which
/// adds to the cell's attributes and leaves its content.
#[verifier::external_body]
fn bold(c: comfy_table::Cell) -> (r: comfy_table::Cell)
    ensures
        cell_text(r) == cell_text(c),
        cell_bold(r),
        cell_italic(r) == cell_italic(c),
{
    c.add_attribute(comfy_table::Attribute::Bold)
}

/// Relies on comfy_table::Cell::add_attribute with Attribute::Italic, which
/// adds to the cell's attributes and leaves its content.
#[verifier::external_body]
fn italic(c: comfy_table::Cell) -> (r: comfy_table::Cell)
    ensures
        cell_text(r) == cell_text(c),
        cell_bold(r) == cell_bold(c),
        cell_italic(r),
{
    c.add_attribute(comfy_table::Attribute::Italic)
}

/// Relies on comfy_table::Table::set_header: the cells become the header
/// row, in order; the body rows stay.
#[verifier::external_body]
fn set_header(t: &mut comfy_table::Table, cells: Vec<comfy_table::Cell>)
    ensures
        table_header(*final(t)) == cells_shown(cells@),
        table_rows(*final(t)) == table_rows(*old(t)),
{
    t.set_header(cells);
}

/// Relies on comfy_table::Table::add_row: the cells, in order, become the
/// last body row; the header stays.
#[verifier::external_body]
fn add_row(t: &mut comfy_table::Table, cells: Vec<comfy_table::Cell>)
    ensures
        table_header(*final(t)) == table_header(*old(t)),
        table_rows(*final(t)) == table_rows(*old(t)).push(cells_shown(cells@)),
{
    t.add_row(cells);
}

/// Relies on comfy_table's Display for Table. Whether styling is emitted
/// depends on the terminal, so nothing is stated of the text.
#[verifier::external_body]
fn table_text(t: &comfy_table::Table) -> String {
    t.to_string()
}

fn outside_cell(c: &TextCell) -> (r: comfy_table::Cell)
    ensures
        cell_shown(r) == shown(cell_view(*c)),
{
    let cell = plain_cell(&c.text);
    match c.emphasis {
        Emphasis::Plain => cell,
        Emphasis::Bold => bold(cell),
        Emphasis::Italic => italic(cell),
    }
}

fn outside_row(r: &Vec<TextCell>) -> (cells: Vec<comfy_table::Cell>)
    ensures
        cells_shown(cells@) == row_shown(row_view(r@)),
{
    let mut cells: Vec<comfy_table::Cell> = Vec::new();
    let mut i: usize = 0;
    while i < r.len()
        invariant
            i <= r@.len(),
            cells@.len() == i,
            cells_shown(cells@) == row_shown(row_view(r@.subrange(0, i as int))),
        decreases r@.len() - i,
    {
        let ghost before = cells@;
        let c = outside_cell(&r[i]);
        cells.push(c);
        proof {
            let next = r@.subrange(0, i + 1);
            assert(next.drop_last() =~= r@.subrange(0, i as int));
            assert(cells@.drop_last() =~= before);
            assert forall|k: int| 0 <= k < cells@.len() implies #[trigger] cells_shown(cells@)[k]
                == row_shown(row_view(next))[k] by {
                if k < i {
                    assert(cells_shown(before)[k] == row_shown(row_view(r@.subrange(0, i as int)))[k]);
                } else {
                    assert(cells@[k] == c);
                    assert(next[k] == r@[k]);
                }
            }
        }
        i = i + 1;
        assert(cells_shown(cells@) =~= row_shown(row_view(r@.subrange(0, i as int))));
    }
    assert(r@.subrange(0, i as int) =~= r@);
    cells
}

/// The header cells that comfy-table is to show for a table; none where it
/// has no header.
pub open spec fn header_shown(v: TableView) -> Seq<(Seq<char>, bool, bool)> {
    match v.header {
        Some(h) => row_shown(h),
        None => Seq::empty(),
    }
}

pub open spec fn rows_shown(v: TableView) -> Seq<Seq<(Seq<char>, bool, bool)>> {
    v.rows.map_values(|r: Seq<(Seq<char>, Emphasis)>| row_shown(r))
}

impl TextTable {
    /// The comfy-table table holding this table's header and rows, in order,
    /// with each cell's text and emphasis.
    pub fn build(&self) -> (t: comfy_table::Table)
        ensures
            table_header(t) == header_shown(self@),
            table_rows(t) == rows_shown(self@),
    {
        let mut t = styled_table();
        match &self.header {
            Some(h) => set_header(&mut t, outside_row(h)),
            None => {},
        }
        let mut i: usize = 0;
        while i < self.rows.len()
            invariant
                i <= self.rows@.len(),
                table_header(t) == header_shown(self@),
                table_rows(t) == rows_shown(self@).subrange(0, i as int),
            decreases self.rows@.len() - i,
        {
            add_row(&mut t, outside_row(&self.rows[i]));
            i = i + 1;
            assert(table_rows(t) =~= rows_shown(self@).subrange(0, i as int));
        }
        assert(rows_shown(self@).subrange(0, i as int) =~= rows_shown(self@));
        t
    }

    /// Draws the table as text: the table that `build` gives, header first,
    /// then the rows in order.
    pub fn render(&self) -> String {
        let t = self.build();
        table_text(&t)
    }
}

} // verus!
