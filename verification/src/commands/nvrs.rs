//! `nvrs` subcommand: `GET /v1/nvrs` returns the installation's single
//! NVR, so there is `get` and no list.

use vstd::prelude::*;

use crate::commands::opt_text;
use crate::models::Nvr;
use crate::output::display_optional;
use crate::text::{push_str, to_owned};

verus! {

/// `nvrs` actions.
#[derive(Debug, Clone, Copy, PartialEq, Eq, Structural)]
pub enum Action {
    /// Fetch the NVR of this installation.
    Get,
}

/// The NVR, one field per line.
pub open spec fn nvr_text(x: Nvr) -> Seq<char> {
    "ID:   "@ + x.id.0@ + "\nName: "@ + opt_text(x.name) + "\n"@
}

/// The NVR, one field per line.
pub fn render_one(x: &Nvr) -> (s: String)
    ensures
        s@ == nvr_text(*x),
{
    let mut s = to_owned("ID:   ");
    push_str(&mut s, x.id.0.as_str());
    push_str(&mut s, "\nName: ");
    let name = display_optional(x.name.as_ref());
    push_str(&mut s, name.as_str());
    push_str(&mut s, "\n");
    s
}

} // verus!
