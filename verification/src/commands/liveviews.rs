//! `liveviews` subcommands.

use vstd::prelude::*;

use crate::commands::{lemma_map_prefix, lemma_rows_push, opt_text, rows_view, strings_view};
use crate::models::{Liveview};
use crate::output::{display_optional, is_table_text, strings, table};
use crate::text::{bool_str, bool_text, decimal, push_str, to_owned, u64_decimal};

verus! {

/// `liveviews` actions.
#[derive(Debug, Clone)]
pub enum Action {
    /// List every liveview the NVR knows about.
    List,
    /// Look up one liveview by ID.
    Get { id: String },
}

/// A liveview's table row.
pub open spec fn liveview_row(x: Liveview) -> Seq<Seq<char>> {
    seq![x.id.0@, x.name@, decimal(x.slots@.len() as nat), bool_text(x.is_global), bool_text(x.is_default)]
}

/// The table rows of `items`.
pub fn liveview_rows(items: &[Liveview]) -> (rows: Vec<Vec<String>>)
    ensures
        rows_view(rows@) == items@.map_values(|x: Liveview| liveview_row(x)),
{
    let mut rows: Vec<Vec<String>> = Vec::new();
    let mut i: usize = 0;
    while i < items.len()
        invariant
            i <= items@.len(),
            rows_view(rows@) == items@.subrange(0, i as int).map_values(|x: Liveview| liveview_row(x)),
        decreases items.len() - i,
    {
        let x = &items[i];
        let mut row: Vec<String> = Vec::new();
        row.push(x.id.as_text());
        row.push(to_owned(x.name.as_str()));
        row.push(u64_decimal(x.slots.len() as u64));
        row.push(to_owned(bool_str(x.is_global)));
        row.push(to_owned(bool_str(x.is_default)));
        assert(strings_view(row@) =~= liveview_row(*x));
        proof {
            lemma_rows_push(rows@, row);
            lemma_map_prefix(items@, i as int, |x: Liveview| liveview_row(x));
        }
        rows.push(row);
        i = i + 1;
    }
    assert(items@.subrange(0, items@.len() as int) == items@);
    rows
}

/// The liveview list: `(no liveviews)` when empty, else a table with columns
/// ID, NAME, SLOTS, GLOBAL, DEFAULT.
pub fn render_table(items: &[Liveview]) -> (s: String)
    ensures
        items@.len() == 0 ==> s@ == "(no liveviews)\n"@,
        items@.len() > 0 ==> is_table_text(
            s@,
            seq!["ID"@, "NAME"@, "SLOTS"@, "GLOBAL"@, "DEFAULT"@],
            items@.map_values(|x: Liveview| liveview_row(x)),
        ),
{
    if items.len() == 0 {
        return to_owned("(no liveviews)\n");
    }
    let headers = strings(&["ID", "NAME", "SLOTS", "GLOBAL", "DEFAULT"]);
    let rows = liveview_rows(items);
    assert(strings_view(headers@) =~= seq!["ID"@, "NAME"@, "SLOTS"@, "GLOBAL"@, "DEFAULT"@]);
    table(&headers, &rows)
}

/// One liveview, one field per line.
pub open spec fn liveview_text(x: Liveview) -> Seq<char> {
    "ID:      "@ + x.id.0@ + "\nName:    "@ + x.name@ + "\nSlots:   "@ + decimal(x.slots@.len() as nat) + "\nGlobal:  "@ + bool_text(x.is_global) + "\nDefault: "@ + bool_text(x.is_default) + "\n"@
}

/// One liveview, one field per line.
pub fn render_one(x: &Liveview) -> (s: String)
    ensures
        s@ == liveview_text(*x),
{
    let mut s = to_owned("ID:      ");
    push_str(&mut s, x.id.0.as_str());
    push_str(&mut s, "\nName:    ");
    push_str(&mut s, x.name.as_str());
    push_str(&mut s, "\nSlots:   ");
    let n = u64_decimal(x.slots.len() as u64);
    push_str(&mut s, n.as_str());
    push_str(&mut s, "\nGlobal:  ");
    push_str(&mut s, bool_str(x.is_global));
    push_str(&mut s, "\nDefault: ");
    push_str(&mut s, bool_str(x.is_default));
    push_str(&mut s, "\n");
    s
}

} // verus!
