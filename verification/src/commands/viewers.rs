//! `viewers` subcommands.

use vstd::prelude::*;

use crate::commands::{lemma_map_prefix, lemma_rows_push, opt_text, rows_view, strings_view};
use crate::output::optional_text;
use crate::models::{Viewer};
use crate::output::{display_optional, is_table_text, strings, table};
use crate::text::{push_str, to_owned};

verus! {

/// `viewers` actions.
#[derive(Debug, Clone)]
pub enum Action {
    /// List every viewer the NVR knows about.
    List,
    /// Look up one viewer by ID.
    Get { id: String },
}

/// A viewer's table row.
pub open spec fn viewer_row(x: Viewer) -> Seq<Seq<char>> {
    seq![x.id.0@, opt_text(x.name), x.mac@, x.state@, liveview_text(x)]
}

/// The table rows of `items`.
pub fn viewer_rows(items: &[Viewer]) -> (rows: Vec<Vec<String>>)
    ensures
        rows_view(rows@) == items@.map_values(|x: Viewer| viewer_row(x)),
{
    let mut rows: Vec<Vec<String>> = Vec::new();
    let mut i: usize = 0;
    while i < items.len()
        invariant
            i <= items@.len(),
            rows_view(rows@) == items@.subrange(0, i as int).map_values(|x: Viewer| viewer_row(x)),
        decreases items.len() - i,
    {
        let x = &items[i];
        let mut row: Vec<String> = Vec::new();
        row.push(x.id.as_text());
        row.push(display_optional(x.name.as_ref()));
        row.push(to_owned(x.mac.as_str()));
        row.push(to_owned(x.state.as_str()));
        row.push(display_optional(x.liveview.as_ref()));
        assert(strings_view(row@) =~= viewer_row(*x));
        proof {
            lemma_rows_push(rows@, row);
            lemma_map_prefix(items@, i as int, |x: Viewer| viewer_row(x));
        }
        rows.push(row);
        i = i + 1;
    }
    assert(items@.subrange(0, items@.len() as int) == items@);
    rows
}

/// The viewer's liveview ID; empty when none is assigned.
pub open spec fn liveview_text(x: Viewer) -> Seq<char> {
    match x.liveview {
        Some(l) => l.0@,
        None => Seq::empty(),
    }
}

/// The viewer list: `(no viewers)` when empty, else a table with columns
/// ID, NAME, MAC, STATE, LIVEVIEW.
pub fn render_table(items: &[Viewer]) -> (s: String)
    ensures
        items@.len() == 0 ==> s@ == "(no viewers)\n"@,
        items@.len() > 0 ==> is_table_text(
            s@,
            seq!["ID"@, "NAME"@, "MAC"@, "STATE"@, "LIVEVIEW"@],
            items@.map_values(|x: Viewer| viewer_row(x)),
        ),
{
    if items.len() == 0 {
        return to_owned("(no viewers)\n");
    }
    let headers = strings(&["ID", "NAME", "MAC", "STATE", "LIVEVIEW"]);
    let rows = viewer_rows(items);
    assert(strings_view(headers@) =~= seq!["ID"@, "NAME"@, "MAC"@, "STATE"@, "LIVEVIEW"@]);
    table(&headers, &rows)
}

/// One viewer, one field per line.
pub open spec fn viewer_text(x: Viewer) -> Seq<char> {
    "ID:       "@ + x.id.0@ + "\nName:     "@ + opt_text(x.name) + "\nMAC:      "@ + x.mac@ + "\nState:    "@ + x.state@ + "\nLiveview: "@ + liveview_text(x) + "\n"@
}

/// One viewer, one field per line.
pub fn render_one(x: &Viewer) -> (s: String)
    ensures
        s@ == viewer_text(*x),
{
    let mut s = to_owned("ID:       ");
    push_str(&mut s, x.id.0.as_str());
    push_str(&mut s, "\nName:     ");
    let name = display_optional(x.name.as_ref());
    push_str(&mut s, name.as_str());
    push_str(&mut s, "\nMAC:      ");
    push_str(&mut s, x.mac.as_str());
    push_str(&mut s, "\nState:    ");
    push_str(&mut s, x.state.as_str());
    push_str(&mut s, "\nLiveview: ");
    let lv = display_optional(x.liveview.as_ref());
    push_str(&mut s, lv.as_str());
    push_str(&mut s, "\n");
    s
}

} // verus!
