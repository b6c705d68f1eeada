//! `chimes` subcommands.

use vstd::prelude::*;

use crate::commands::{lemma_map_prefix, lemma_rows_push, opt_text, rows_view, strings_view};
use crate::models::{Chime};
use crate::output::{display_optional, is_table_text, strings, table};
use crate::text::{decimal, push_str, to_owned, u64_decimal};

verus! {

/// `chimes` actions.
#[derive(Debug, Clone)]
pub enum Action {
    /// List every chime the NVR knows about.
    List,
    /// Look up one chime by ID.
    Get { id: String },
}

/// A chime's table row.
pub open spec fn chime_row(x: Chime) -> Seq<Seq<char>> {
    seq![x.id.0@, opt_text(x.name), x.mac@, x.state@]
}

/// The table rows of `items`.
pub fn chime_rows(items: &[Chime]) -> (rows: Vec<Vec<String>>)
    ensures
        rows_view(rows@) == items@.map_values(|x: Chime| chime_row(x)),
{
    let mut rows: Vec<Vec<String>> = Vec::new();
    let mut i: usize = 0;
    while i < items.len()
        invariant
            i <= items@.len(),
            rows_view(rows@) == items@.subrange(0, i as int).map_values(|x: Chime| chime_row(x)),
        decreases items.len() - i,
    {
        let x = &items[i];
        let mut row: Vec<String> = Vec::new();
        row.push(x.id.as_text());
        row.push(display_optional(x.name.as_ref()));
        row.push(to_owned(x.mac.as_str()));
        row.push(to_owned(x.state.as_str()));
        assert(strings_view(row@) =~= chime_row(*x));
        proof {
            lemma_rows_push(rows@, row);
            lemma_map_prefix(items@, i as int, |x: Chime| chime_row(x));
        }
        rows.push(row);
        i = i + 1;
    }
    assert(items@.subrange(0, items@.len() as int) == items@);
    rows
}

/// The chime list: `(no chimes)` when empty, else a table with columns
/// ID, NAME, MAC, STATE.
pub fn render_table(items: &[Chime]) -> (s: String)
    ensures
        items@.len() == 0 ==> s@ == "(no chimes)\n"@,
        items@.len() > 0 ==> is_table_text(
            s@,
            seq!["ID"@, "NAME"@, "MAC"@, "STATE"@],
            items@.map_values(|x: Chime| chime_row(x)),
        ),
{
    if items.len() == 0 {
        return to_owned("(no chimes)\n");
    }
    let headers = strings(&["ID", "NAME", "MAC", "STATE"]);
    let rows = chime_rows(items);
    assert(strings_view(headers@) =~= seq!["ID"@, "NAME"@, "MAC"@, "STATE"@]);
    table(&headers, &rows)
}

/// One chime, one field per line.
pub open spec fn chime_text(x: Chime) -> Seq<char> {
    "ID:    "@ + x.id.0@ + "\nName:  "@ + opt_text(x.name) + "\nMAC:   "@ + x.mac@ + "\nState: "@ + x.state@ + "\nPaired cameras: "@ + decimal(x.camera_ids@.len() as nat) + "\n"@
}

/// One chime, one field per line.
pub fn render_one(x: &Chime) -> (s: String)
    ensures
        s@ == chime_text(*x),
{
    let mut s = to_owned("ID:    ");
    push_str(&mut s, x.id.0.as_str());
    push_str(&mut s, "\nName:  ");
    let name = display_optional(x.name.as_ref());
    push_str(&mut s, name.as_str());
    push_str(&mut s, "\nMAC:   ");
    push_str(&mut s, x.mac.as_str());
    push_str(&mut s, "\nState: ");
    push_str(&mut s, x.state.as_str());
    push_str(&mut s, "\nPaired cameras: ");
    let n = u64_decimal(x.camera_ids.len() as u64);
    push_str(&mut s, n.as_str());
    push_str(&mut s, "\n");
    s
}

} // verus!
