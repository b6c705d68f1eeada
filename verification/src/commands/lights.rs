//! `lights` subcommands.

use vstd::prelude::*;

use crate::commands::{lemma_map_prefix, lemma_rows_push, opt_text, rows_view, strings_view};
use crate::models::{Light};
use crate::output::{display_optional, is_table_text, strings, table};
use crate::text::{bool_str, bool_text, push_str, to_owned};

verus! {

/// `lights` actions.
#[derive(Debug, Clone)]
pub enum Action {
    /// List every light the NVR knows about.
    List,
    /// Look up one light by ID.
    Get { id: String },
}

/// A light's table row.
pub open spec fn light_row(x: Light) -> Seq<Seq<char>> {
    seq![x.id.0@, opt_text(x.name), x.mac@, x.state@, bool_text(x.is_light_on)]
}

/// The table rows of `items`.
pub fn light_rows(items: &[Light]) -> (rows: Vec<Vec<String>>)
    ensures
        rows_view(rows@) == items@.map_values(|x: Light| light_row(x)),
{
    let mut rows: Vec<Vec<String>> = Vec::new();
    let mut i: usize = 0;
    while i < items.len()
        invariant
            i <= items@.len(),
            rows_view(rows@) == items@.subrange(0, i as int).map_values(|x: Light| light_row(x)),
        decreases items.len() - i,
    {
        let x = &items[i];
        let mut row: Vec<String> = Vec::new();
        row.push(x.id.as_text());
        row.push(display_optional(x.name.as_ref()));
        row.push(to_owned(x.mac.as_str()));
        row.push(to_owned(x.state.as_str()));
        row.push(to_owned(bool_str(x.is_light_on)));
        assert(strings_view(row@) =~= light_row(*x));
        proof {
            lemma_rows_push(rows@, row);
            lemma_map_prefix(items@, i as int, |x: Light| light_row(x));
        }
        rows.push(row);
        i = i + 1;
    }
    assert(items@.subrange(0, items@.len() as int) == items@);
    rows
}

/// The light list: `(no lights)` when empty, else a table with columns
/// ID, NAME, MAC, STATE, ON.
pub fn render_table(items: &[Light]) -> (s: String)
    ensures
        items@.len() == 0 ==> s@ == "(no lights)\n"@,
        items@.len() > 0 ==> is_table_text(
            s@,
            seq!["ID"@, "NAME"@, "MAC"@, "STATE"@, "ON"@],
            items@.map_values(|x: Light| light_row(x)),
        ),
{
    if items.len() == 0 {
        return to_owned("(no lights)\n");
    }
    let headers = strings(&["ID", "NAME", "MAC", "STATE", "ON"]);
    let rows = light_rows(items);
    assert(strings_view(headers@) =~= seq!["ID"@, "NAME"@, "MAC"@, "STATE"@, "ON"@]);
    table(&headers, &rows)
}

/// One light, one field per line.
pub open spec fn light_text(x: Light) -> Seq<char> {
    "ID:    "@ + x.id.0@ + "\nName:  "@ + opt_text(x.name) + "\nMAC:   "@ + x.mac@ + "\nState: "@ + x.state@ + "\nOn:    "@ + bool_text(x.is_light_on) + "\n"@
}

/// One light, one field per line.
pub fn render_one(x: &Light) -> (s: String)
    ensures
        s@ == light_text(*x),
{
    let mut s = to_owned("ID:    ");
    push_str(&mut s, x.id.0.as_str());
    push_str(&mut s, "\nName:  ");
    let name = display_optional(x.name.as_ref());
    push_str(&mut s, name.as_str());
    push_str(&mut s, "\nMAC:   ");
    push_str(&mut s, x.mac.as_str());
    push_str(&mut s, "\nState: ");
    push_str(&mut s, x.state.as_str());
    push_str(&mut s, "\nOn:    ");
    push_str(&mut s, bool_str(x.is_light_on));
    push_str(&mut s, "\n");
    s
}

} // verus!
