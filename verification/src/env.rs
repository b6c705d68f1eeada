//! A snapshot of environment variables, handed to the resolvers so they
//! stay pure: the program passes the process environment, tests pass
//! their own table.

use vstd::prelude::*;

use crate::text::{is_blank_str, str_eq, to_owned, trim, trim_end, trim_owned, trim_start};

verus! {

/// Value of `name` in a list of pairs: the last pair with that name wins.
pub open spec fn lookup(pairs: Seq<(Seq<char>, Seq<char>)>, name: Seq<char>) -> Option<Seq<char>>
    decreases pairs.len(),
{
    if pairs.len() == 0 {
        None
    } else if pairs.last().0 == name {
        Some(pairs.last().1)
    } else {
        lookup(pairs.drop_last(), name)
    }
}

/// Views of a list of string pairs.
pub open spec fn pairs_view(v: Seq<(String, String)>) -> Seq<(Seq<char>, Seq<char>)> {
    Seq::new(v.len(), |i: int| (v[i].0@, v[i].1@))
}

/// Environment variables by name.
pub struct EnvVars {
    pairs: Vec<(String, String)>,
}

impl EnvVars {
    pub closed spec fn var(&self, name: Seq<char>) -> Option<Seq<char>> {
        lookup(pairs_view(self.pairs@), name)
    }

    /// No variables at all.
    pub fn empty() -> (e: EnvVars)
        ensures
            forall|n: Seq<char>| #[trigger] e.var(n) is None,
    {
        EnvVars { pairs: Vec::new() }
    }

    /// Variables from name/value pairs; a later pair overrides an earlier
    /// one with the same name.
    pub fn from_pairs(pairs: Vec<(String, String)>) -> (e: EnvVars)
        ensures
            forall|n: Seq<char>| #[trigger] e.var(n) == lookup(pairs_view(pairs@), n),
    {
        EnvVars { pairs }
    }

    /// Sets `name` to `value`.
    pub fn set(&mut self, name: String, value: String)
        ensures
            final(self).var(name@) == Some(value@),
            forall|n: Seq<char>| n != name@ ==> #[trigger] final(self).var(n) == old(self).var(n),
    {
        let ghost old_pairs = self.pairs@;
        self.pairs.push((name, value));
        proof {
            let pv = pairs_view(self.pairs@);
            assert(pv.drop_last() =~= pairs_view(old_pairs));
        }
    }

    /// The value of `name`, if set.
    pub fn get(&self, name: &str) -> (r: Option<String>)
        ensures
            r matches Some(v) ==> self.var(name@) == Some(v@),
            r is None ==> self.var(name@) is None,
    {
        let mut i = self.pairs.len();
        assert(self.pairs@.subrange(0, i as int) =~= self.pairs@);
        while i > 0
            invariant
                i <= self.pairs.len(),
                lookup(pairs_view(self.pairs@), name@) == lookup(
                    pairs_view(self.pairs@.subrange(0, i as int)),
                    name@,
                ),
            decreases i,
        {
            let ghost pre = pairs_view(self.pairs@.subrange(0, i as int));
            assert(pre.last() == (self.pairs@[i - 1].0@, self.pairs@[i - 1].1@));
            assert(pre.drop_last() =~= pairs_view(self.pairs@.subrange(0, i - 1)));
            if str_eq(self.pairs[i - 1].0.as_str(), name) {
                return Some(to_owned(self.pairs[i - 1].1.as_str()));
            }
            i = i - 1;
        }
        None
    }

    /// The trimmed value of `name` when it is set and not blank; a blank
    /// value counts as unset.
    pub fn get_trimmed(&self, name: &str) -> (r: Option<String>)
        ensures
            r matches Some(v) ==> v@ == nonblank(self.var(name@))->Some_0 && nonblank(
                self.var(name@),
            ) is Some,
            r is None ==> nonblank(self.var(name@)) is None,
    {
        match self.get(name) {
            Some(v) => {
                let t = trim_owned(v.as_str());
                if is_blank_str(t.as_str()) {
                    proof {
                        lemma_trim_idempotent(v@);
                    }
                    None
                } else {
                    proof {
                        lemma_trim_idempotent(v@);
                    }
                    Some(t)
                }
            },
            None => None,
        }
    }
}

/// The trimmed value, when there is one and it is not blank.
pub open spec fn nonblank(v: Option<Seq<char>>) -> Option<Seq<char>> {
    match v {
        Some(s) => if trim(s).len() > 0 {
            Some(trim(s))
        } else {
            None
        },
        None => None,
    }
}

proof fn lemma_trim_start_keeps_non_ws_head(s: Seq<char>)
    ensures
        trim_start(s).len() > 0 ==> !crate::text::is_ws(trim_start(s)[0]),
        trim_start(s).len() <= s.len(),
    decreases s.len(),
{
    if s.len() > 0 && crate::text::is_ws(s[0]) {
        lemma_trim_start_keeps_non_ws_head(s.drop_first());
    }
}

proof fn lemma_trim_end_keeps(s: Seq<char>)
    ensures
        trim_end(s).len() > 0 ==> !crate::text::is_ws(trim_end(s).last()),
        trim_end(s).len() > 0 ==> trim_end(s)[0] == s[0],
        trim_end(s).len() <= s.len(),
    decreases s.len(),
{
    if s.len() > 0 && crate::text::is_ws(s.last()) {
        lemma_trim_end_keeps(s.drop_last());
        if trim_end(s.drop_last()).len() > 0 {
            assert(s.drop_last()[0] == s[0]);
        }
    }
}

proof fn lemma_trim_start_noop(s: Seq<char>)
    requires
        s.len() == 0 || !crate::text::is_ws(s[0]),
    ensures
        trim_start(s) == s,
{
}

proof fn lemma_trim_end_noop(s: Seq<char>)
    requires
        s.len() == 0 || !crate::text::is_ws(s.last()),
    ensures
        trim_end(s) == s,
{
}

/// Trimming twice is trimming once.
pub proof fn lemma_trim_idempotent(s: Seq<char>)
    ensures
        trim(trim(s)) == trim(s),
{
    let a = trim_start(s);
    let b = trim_end(a);
    lemma_trim_start_keeps_non_ws_head(s);
    lemma_trim_end_keeps(a);
    lemma_trim_start_noop(b);
    lemma_trim_end_noop(b);
}


} // verus!
