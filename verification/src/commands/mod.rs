//! Subcommands of the command-line tool: their arguments, and how their
//! results are rendered for people. The program dispatches them.

use vstd::prelude::*;

use crate::client::{ProtectClientBuilder, TlsMode};
use crate::config::{opt_view, EffectiveConfig};
use crate::rate_limit::default_config;
use crate::text::{to_owned};

pub use crate::output::{lemma_rows_push, rows_view, strings_view};

pub mod cameras;
pub mod chimes;
pub mod config;
pub mod lights;
pub mod liveviews;
pub mod nvrs;
pub mod sensors;
pub mod viewers;

verus! {

/// Mapping a longer prefix maps one more element.
pub proof fn lemma_map_prefix<A, B>(s: Seq<A>, i: int, f: spec_fn(A) -> B)
    requires
        0 <= i < s.len(),
    ensures
        s.subrange(0, i + 1).map_values(f) == s.subrange(0, i).map_values(f).push(f(s[i])),
{
    assert(s.subrange(0, i + 1).map_values(f) =~= s.subrange(0, i).map_values(f).push(f(s[i])));
}

/// The text of an optional string; empty for `None`.
pub open spec fn opt_text(o: Option<String>) -> Seq<char> {
    match o {
        Some(s) => s@,
        None => Seq::empty(),
    }
}


/// The client builder for the resolved settings: the API key; the base
/// URL when set, else the host; TLS validation off when `insecure` is
/// set. Fails when neither a base URL nor a host is set.
pub fn client_builder(key: String, resolved: &EffectiveConfig) -> (r: Result<
    ProtectClientBuilder,
    String,
>)
    ensures
        r is Err <==> (resolved.base_url is None && resolved.host is None),
        r matches Err(m) ==> m@ == "one of --host or --base-url is required"@,
        r matches Ok(b) ==> {
            &&& b.api_key_spec() == Some(key@)
            &&& b.base_url_spec() == opt_view(resolved.base_url)
            &&& b.host_spec() == (if resolved.base_url is Some {
                None
            } else {
                opt_view(resolved.host)
            })
            &&& (if resolved.insecure {
                b.tls_spec() is AcceptInvalid
            } else {
                b.tls_spec() is Native
            })
            &&& b.retry_spec().max_retries == 3
            &&& b.retry_spec().initial_backoff@ == 200_000_000
            &&& b.retry_spec().max_backoff@ == 5_000_000_000
            &&& !b.retry_on_mutations_spec()
            &&& b.effective_rate_limit() == Some(default_config())
        },
{
    proof {
        crate::rate_limit::lemma_default_config();
    }
    let mut builder = ProtectClientBuilder::new().api_key(key);
    match &resolved.base_url {
        Some(url) => {
            builder = builder.base_url(to_owned(url.as_str()));
        },
        None => match &resolved.host {
            Some(host) => {
                builder = builder.host(to_owned(host.as_str()));
            },
            None => {
                return Err(to_owned("one of --host or --base-url is required"));
            },
        },
    }
    if resolved.insecure {
        builder = builder.tls(TlsMode::AcceptInvalid);
    }
    Ok(builder)
}

} // verus!
