//! Camera endpoints: the request paths they use and how their answers
//! are shaped for callers.

use vstd::prelude::*;

use crate::models::{
    channel_name, CameraId, ChannelQuality, CreatedRtspsStreams, CreatedTalkbackSession,
    RtspsStream, SnapshotOptions, TalkbackSession,
};
use crate::text::{push_char, push_str, to_owned};

verus! {

/// `/v1/<collection>/<id>`.
pub open spec fn entity_path_spec(collection: Seq<char>, id: Seq<char>) -> Seq<char> {
    "/v1/"@ + collection + "/"@ + id
}

/// `/v1/<collection>/<id>`: the path of one entity.
pub fn entity_path(collection: &str, id: &str) -> (p: String)
    ensures
        p@ == entity_path_spec(collection@, id@),
{
    let mut p = to_owned("/v1/");
    push_str(&mut p, collection);
    push_str(&mut p, "/");
    push_str(&mut p, id);
    p
}

/// `GET /v1/cameras/<id>`.
pub fn camera_path(id: &CameraId) -> (p: String)
    ensures
        p@ == entity_path_spec("cameras"@, id.0@),
{
    entity_path("cameras", id.0.as_str())
}

/// `/v1/cameras/<id>/<action>`.
pub fn camera_action_path(id: &CameraId, action: &str) -> (p: String)
    ensures
        p@ == entity_path_spec("cameras"@, id.0@) + "/"@ + action@,
{
    let mut p = camera_path(id);
    push_str(&mut p, "/");
    push_str(&mut p, action);
    p
}

/// The query string of a snapshot request: `channel=<c>` when a channel is
/// chosen, then `highQuality=true` when asked for, joined by `&` and led by
/// `?`; empty for the defaults.
pub open spec fn snapshot_query(opts: SnapshotOptions) -> Seq<char> {
    match opts.channel {
        Some(c) => seq!['?'] + "channel="@ + channel_name(c) + if opts.high_quality {
            seq!['&'] + "highQuality=true"@
        } else {
            Seq::empty()
        },
        None => if opts.high_quality {
            seq!['?'] + "highQuality=true"@
        } else {
            Seq::empty()
        },
    }
}

/// `GET /v1/cameras/<id>/snapshot` with the options as query parameters.
pub fn snapshot_path(id: &CameraId, opts: &SnapshotOptions) -> (p: String)
    ensures
        p@ == entity_path_spec("cameras"@, id.0@) + "/"@ + "snapshot"@ + snapshot_query(*opts),
{
    let mut path = camera_action_path(id, "snapshot");
    let mut sep = '?';
    if let Some(ch) = opts.channel {
        push_char(&mut path, sep);
        push_str(&mut path, "channel=");
        push_str(&mut path, ch.as_str());
        sep = '&';
    }
    if opts.high_quality {
        push_char(&mut path, sep);
        push_str(&mut path, "highQuality=true");
    }
    proof {
        let base = entity_path_spec("cameras"@, id.0@) + "/"@ + "snapshot"@;
        match opts.channel {
            Some(c) => {
                if opts.high_quality {
                    assert(path@ =~= base + (seq!['?'] + "channel="@ + channel_name(c) + (seq!['&']
                        + "highQuality=true"@)));
                } else {
                    assert(path@ =~= base + (seq!['?'] + "channel="@ + channel_name(c)
                        + Seq::<char>::empty()));
                }
            },
            None => {
                if opts.high_quality {
                    assert(path@ =~= base + (seq!['?'] + "highQuality=true"@));
                } else {
                    assert(path@ =~= base + Seq::<char>::empty());
                }
            },
        }
    }
    path
}

/// The URL the server returned for quality `q`, if any.
pub open spec fn url_for(created: CreatedRtspsStreams, q: ChannelQuality) -> Option<String> {
    match q {
        ChannelQuality::High => created.high,
        ChannelQuality::Medium => created.medium,
        ChannelQuality::Low => created.low,
        ChannelQuality::Package => created.package,
    }
}

/// The requested qualities that the server populated, in request order,
/// each with its URL.
pub open spec fn streams_spec(requested: Seq<ChannelQuality>, created: CreatedRtspsStreams) -> Seq<
    (ChannelQuality, Seq<char>),
>
    decreases requested.len(),
{
    if requested.len() == 0 {
        Seq::empty()
    } else {
        let rest = streams_spec(requested.drop_last(), created);
        match url_for(created, requested.last()) {
            Some(u) => rest.push((requested.last(), u@)),
            None => rest,
        }
    }
}

/// Every stream listed carries the URL of its own quality's field: a
/// `Medium` stream the server's `medium` URL, and so on; every stream's
/// quality was requested; and when the server filled every requested
/// quality, the streams follow the request one for one, in order.
pub proof fn lemma_streams_carry_their_own_url(
    requested: Seq<ChannelQuality>,
    created: CreatedRtspsStreams,
)
    ensures
        streams_spec(requested, created).len() <= requested.len(),
        forall|i: int|
            0 <= i < streams_spec(requested, created).len() ==> {
                let (q, u) = #[trigger] streams_spec(requested, created)[i];
                &&& requested.contains(q)
                &&& match q {
                    ChannelQuality::High => created.high matches Some(h) && h@ == u,
                    ChannelQuality::Medium => created.medium matches Some(m) && m@ == u,
                    ChannelQuality::Low => created.low matches Some(l) && l@ == u,
                    ChannelQuality::Package => created.package matches Some(p) && p@ == u,
                }
            },
        (forall|k: int|
            0 <= k < requested.len() ==> match #[trigger] requested[k] {
                ChannelQuality::High => created.high is Some,
                ChannelQuality::Medium => created.medium is Some,
                ChannelQuality::Low => created.low is Some,
                ChannelQuality::Package => created.package is Some,
            }) ==> streams_spec(requested, created).len() == requested.len() && forall|i: int|
            0 <= i < requested.len() ==> (#[trigger] streams_spec(requested, created)[i]).0
                == requested[i],
    decreases requested.len(),
{
    if requested.len() > 0 {
        let pre = requested.drop_last();
        lemma_streams_carry_their_own_url(pre, created);
        let rest = streams_spec(pre, created);
        let out = streams_spec(requested, created);
        assert forall|i: int| 0 <= i < out.len() implies requested.contains((#[trigger] out[i]).0) by {
            if i < rest.len() {
                assert(out[i] == rest[i]);
                let k = choose|k: int| 0 <= k < pre.len() && pre[k] == rest[i].0;
                assert(requested[k] == pre[k]);
            } else {
                assert(requested[requested.len() - 1] == requested.last());
            }
        }
        if forall|k: int|
            0 <= k < requested.len() ==> match #[trigger] requested[k] {
                ChannelQuality::High => created.high is Some,
                ChannelQuality::Medium => created.medium is Some,
                ChannelQuality::Low => created.low is Some,
                ChannelQuality::Package => created.package is Some,
            } {
            assert forall|k: int|
                0 <= k < pre.len() implies match #[trigger] pre[k] {
                ChannelQuality::High => created.high is Some,
                ChannelQuality::Medium => created.medium is Some,
                ChannelQuality::Low => created.low is Some,
                ChannelQuality::Package => created.package is Some,
            } by {
                assert(pre[k] == requested[k]);
            }
            assert(requested[requested.len() - 1] == requested.last());
        }
    }
}

/// The view of a list of streams.
pub open spec fn streams_view(v: Seq<RtspsStream>) -> Seq<(ChannelQuality, Seq<char>)> {
    Seq::new(v.len(), |i: int| (v[i].quality, v[i].url@))
}

/// Flattens the server's per-quality answer into a list ordered as the
/// caller requested. Qualities the server left empty are dropped.
pub fn streams_in_request_order(requested: &[ChannelQuality], created: &CreatedRtspsStreams) -> (r: Vec<
    RtspsStream,
>)
    ensures
        streams_view(r@) == streams_spec(requested@, *created),
{
    let mut out: Vec<RtspsStream> = Vec::new();
    let mut i: usize = 0;
    while i < requested.len()
        invariant
            i <= requested@.len(),
            streams_view(out@) == streams_spec(requested@.subrange(0, i as int), *created),
        decreases requested.len() - i,
    {
        let q = requested[i];
        let url = match q {
            ChannelQuality::High => &created.high,
            ChannelQuality::Medium => &created.medium,
            ChannelQuality::Low => &created.low,
            ChannelQuality::Package => &created.package,
        };
        let ghost pre = requested@.subrange(0, i + 1);
        assert(pre.drop_last() == requested@.subrange(0, i as int));
        assert(pre.last() == q);
        if let Some(u) = url {
            let ghost before = out@;
            out.push(RtspsStream { quality: q, url: to_owned(u.as_str()) });
            assert(streams_view(out@) =~= streams_view(before).push((q, u@)));
        }
        i = i + 1;
    }
    assert(requested@.subrange(0, requested@.len() as int) == requested@);
    out
}

/// The talkback session as callers see it.
pub fn talkback_from_created(raw: CreatedTalkbackSession) -> (s: TalkbackSession)
    ensures
        s.bits_per_sample == raw.bits_per_sample,
        s.codec@ == raw.codec@,
        s.sampling_rate == raw.sampling_rate,
        s.url@ == raw.url@,
{
    TalkbackSession {
        bits_per_sample: raw.bits_per_sample,
        codec: raw.codec,
        sampling_rate: raw.sampling_rate,
        url: raw.url,
    }
}

} // verus!
