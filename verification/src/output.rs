//! Output helpers shared by the renderers: text of optional values and
//! boxed tables (drawn by `comfy-table`).

use vstd::prelude::*;

use crate::text::{push_char, to_owned};

verus! {

#[verifier::external_type_specification]
#[verifier::external_body]
pub struct ExTable(comfy_table::Table);

/// A value with a human-readable text form.
pub trait DisplayText {
    spec fn text_spec(&self) -> Seq<char>;

    fn text(&self) -> (s: String)
        ensures
            s@ == self.text_spec(),
    ;
}

impl DisplayText for String {
    open spec fn text_spec(&self) -> Seq<char> {
        self@
    }

    fn text(&self) -> (s: String) {
        to_owned(self.as_str())
    }
}

/// Text of an optional value; empty for `None`.
pub open spec fn optional_text<T: DisplayText>(value: Option<&T>) -> Seq<char> {
    match value {
        Some(v) => v.text_spec(),
        None => Seq::empty(),
    }
}

/// Renders an optional value, using the empty string for `None`.
pub fn display_optional<T: DisplayText>(value: Option<&T>) -> (s: String)
    ensures
        s@ == optional_text(value),
{
    match value {
        Some(v) => v.text(),
        None => String::new(),
    }
}

/// The text of each item.
pub open spec fn strings_view(v: Seq<String>) -> Seq<Seq<char>> {
    Seq::new(v.len(), |i: int| v[i]@)
}

/// The text of each cell of each row.
pub open spec fn rows_view(rows: Seq<Vec<String>>) -> Seq<Seq<Seq<char>>> {
    Seq::new(rows.len(), |i: int| Seq::new(rows[i]@.len(), |j: int| rows[i]@[j]@))
}

/// Appending a row appends its text.
pub proof fn lemma_rows_push(rows: Seq<Vec<String>>, row: Vec<String>)
    ensures
        rows_view(rows.push(row)) == rows_view(rows).push(strings_view(row@)),
{
    let a = rows_view(rows.push(row));
    let b = rows_view(rows).push(strings_view(row@));
    assert forall|i: int| 0 <= i < a.len() implies a[i] =~= b[i] by {
        if i < rows.len() {
            assert(rows.push(row)[i] == rows[i]);
        }
    }
    assert(a =~= b);
}

/// What `comfy-table` draws (its `Display`) for a table with `UTF8_FULL`
/// box borders, a header row `header` and the rows `rows`, each cell
/// holding its text with no styling: with `width` `Some(w)`, the columns
/// arranged dynamically to fit `w` characters; with `None`, each column
/// as wide as its content.
pub uninterp spec fn rendered_table(
    header: Seq<Seq<char>>,
    rows: Seq<Seq<Seq<char>>>,
    width: Option<u16>,
) -> Seq<char>;

/// What a `comfy_table::Table` holds and how it is set to draw.
pub struct TableModel {
    /// The texts of the header cells, if a header is set.
    pub header: Option<Seq<Seq<char>>>,
    /// The texts of the cells of each row, in order.
    pub rows: Seq<Seq<Seq<char>>>,
    /// Whether the `UTF8_FULL` preset is loaded.
    pub utf8_full: bool,
    /// Whether the content arrangement is `Dynamic`.
    pub dynamic: bool,
    /// The width fixed by `set_width`, if any.
    pub width: Option<u16>,
}

/// A `comfy_table::Table`, with what it holds and how it draws.
pub struct TextTable {
    table: comfy_table::Table,
    model: Ghost<TableModel>,
}

impl View for TextTable {
    type V = TableModel;

    closed spec fn view(&self) -> TableModel {
        self.model@
    }
}

impl TextTable {
    /// The `comfy-table` table itself.
    pub fn table(&self) -> &comfy_table::Table {
        &self.table
    }
}

/// `Table::new`: no header, no rows, the default `ASCII_FULL` preset,
/// arrangement `Disabled`, no fixed width.
#[verifier::external_body]
fn table_new() -> (t: TextTable)
    ensures
        t@ == (TableModel { header: None, rows: Seq::empty(), utf8_full: false, dynamic: false, width: None }),
{
    TextTable {
        table: comfy_table::Table::new(),
        model: Ghost(TableModel { header: None, rows: Seq::empty(), utf8_full: false, dynamic: false, width: None }),
    }
}

/// `Table::load_preset` with the `UTF8_FULL` preset (box-drawing
/// borders); nothing else changes.
#[verifier::external_body]
fn table_load_utf8_full_preset(t: &mut TextTable)
    ensures
        final(t)@ == (TableModel { utf8_full: true, ..old(t)@ }),
{
    t.table.load_preset(comfy_table::presets::UTF8_FULL);
    t.model = Ghost(TableModel { utf8_full: true, ..t.model@ });
}

/// `Table::set_content_arrangement` with `ContentArrangement::Dynamic`;
/// nothing else changes.
#[verifier::external_body]
fn table_set_dynamic_arrangement(t: &mut TextTable)
    ensures
        final(t)@ == (TableModel { dynamic: true, ..old(t)@ }),
{
    t.table.set_content_arrangement(comfy_table::ContentArrangement::Dynamic);
    t.model = Ghost(TableModel { dynamic: true, ..t.model@ });
}

/// `Table::set_width`: the width fixed to `w`; nothing else changes.
#[verifier::external_body]
fn table_set_width(t: &mut TextTable, w: u16)
    ensures
        final(t)@ == (TableModel { width: Some(w), ..old(t)@ }),
{
    t.table.set_width(w);
    t.model = Ghost(TableModel { width: Some(w), ..t.model@ });
}

/// `Table::set_header`: the header becomes one cell per string, each
/// holding that string's text; nothing else changes.
#[verifier::external_body]
fn table_set_header(t: &mut TextTable, headers: &Vec<String>)
    ensures
        final(t)@ == (TableModel { header: Some(strings_view(headers@)), ..old(t)@ }),
{
    t.table.set_header(headers.iter().map(String::as_str));
    t.model = Ghost(TableModel { header: Some(strings_view(headers@)), ..t.model@ });
}

/// `Table::add_row`: a row of one cell per string is appended; nothing
/// else changes.
#[verifier::external_body]
fn table_add_row(t: &mut TextTable, row: &Vec<String>)
    ensures
        final(t)@ == (TableModel { rows: old(t)@.rows.push(strings_view(row@)), ..old(t)@ }),
{
    t.table.add_row(row.iter().map(String::as_str));
    t.model = Ghost(TableModel { rows: t.model@.rows.push(strings_view(row@)), ..t.model@ });
}

/// `Table::width`: the fixed width when one is set; otherwise the width of
/// the terminal when stdout is one and its size can be read, else `None`.
/// What the terminal gives is not stated.
#[verifier::external_body]
fn table_width(t: &TextTable) -> (r: Option<u16>)
    ensures
        t@.width matches Some(w) ==> r == Some(w),
{
    t.table.width()
}

/// `Display` of the table. With `UTF8_FULL` loaded, a header set, and a
/// fixed width whenever the arrangement is dynamic, what is drawn depends
/// on the header, the rows and that width alone (a `Disabled` arrangement
/// ignores the width; cells carry no styling, so whether stdout is a
/// terminal does not matter).
#[verifier::external_body]
fn table_render(t: &TextTable) -> (s: String)
    requires
        t@.utf8_full,
        t@.header is Some,
        t@.dynamic ==> t@.width is Some,
    ensures
        s@ == rendered_table(t@.header->Some_0, t@.rows, if t@.dynamic { t@.width } else { None }),
{
    t.table.to_string()
}

/// The table [`table_with_width`] draws: `UTF8_FULL` borders, a header row
/// of `headers`, then `rows` in order; with a width, arranged dynamically
/// to fit it, else left unconstrained.
pub fn build_table(headers: &Vec<String>, rows: &Vec<Vec<String>>, width: Option<u16>) -> (t: TextTable)
    ensures
        t@ == (TableModel {
            header: Some(strings_view(headers@)),
            rows: rows_view(rows@),
            utf8_full: true,
            dynamic: width is Some,
            width,
        }),
{
    let mut t = table_new();
    table_load_utf8_full_preset(&mut t);
    if let Some(w) = width {
        table_set_dynamic_arrangement(&mut t);
        table_set_width(&mut t, w);
    }
    table_set_header(&mut t, headers);
    assert(rows_view(rows@.subrange(0, 0)) =~= Seq::<Seq<Seq<char>>>::empty());
    let mut i: usize = 0;
    while i < rows.len()
        invariant
            i <= rows.len(),
            t@ == (TableModel {
                header: Some(strings_view(headers@)),
                rows: rows_view(rows@.subrange(0, i as int)),
                utf8_full: true,
                dynamic: width is Some,
                width,
            }),
        decreases rows.len() - i,
    {
        table_add_row(&mut t, &rows[i]);
        proof {
            lemma_rows_push(rows@.subrange(0, i as int), rows@[i as int]);
            assert(rows@.subrange(0, i as int).push(rows@[i as int]) =~= rows@.subrange(0, i + 1));
        }
        i = i + 1;
    }
    assert(rows@.subrange(0, rows@.len() as int) =~= rows@);
    t
}

/// The text of a table drawn at `width`, then a newline.
pub open spec fn table_text(headers: Seq<Seq<char>>, rows: Seq<Seq<Seq<char>>>, width: Option<u16>) -> Seq<char> {
    rendered_table(headers, rows, width) + seq!['\n']
}

/// `s` is the text of the table of `headers` and `rows`, drawn at some
/// width (the terminal's, when there is one), then a newline.
pub open spec fn is_table_text(s: Seq<char>, headers: Seq<Seq<char>>, rows: Seq<Seq<Seq<char>>>) -> bool {
    exists|w: Option<u16>| s == #[trigger] table_text(headers, rows, w)
}

/// Renders rows as a boxed table with a header row (see [`build_table`])
/// fitted to `width`, followed by a newline.
pub fn table_with_width(headers: &Vec<String>, rows: &Vec<Vec<String>>, width: Option<u16>) -> (s: String)
    ensures
        s@ == table_text(strings_view(headers@), rows_view(rows@), width),
{
    let t = build_table(headers, rows, width);
    let mut s = table_render(&t);
    push_char(&mut s, '\n');
    s
}

/// Renders rows as a boxed table with a header row, fitted to the
/// terminal's width when stdout is a terminal, followed by a newline.
/// Callers show empty lists their own way.
pub fn table(headers: &Vec<String>, rows: &Vec<Vec<String>>) -> (s: String)
    ensures
        is_table_text(s@, strings_view(headers@), rows_view(rows@)),
{
    let probe = table_new();
    let width = table_width(&probe);
    let s = table_with_width(headers, rows, width);
    assert(s@ == table_text(strings_view(headers@), rows_view(rows@), width));
    s
}

/// Owned copies of string literals.
pub fn strings(items: &[&str]) -> (v: Vec<String>)
    ensures
        v@.len() == items@.len(),
        forall|i: int| 0 <= i < items@.len() ==> #[trigger] v@[i]@ == items@[i]@,
{
    let mut v: Vec<String> = Vec::new();
    let mut i: usize = 0;
    while i < items.len()
        invariant
            i <= items@.len(),
            v@.len() == i,
            forall|k: int| 0 <= k < i ==> #[trigger] v@[k]@ == items@[k]@,
        decreases items.len() - i,
    {
        v.push(to_owned(items[i]));
        i = i + 1;
    }
    v
}

} // verus!
