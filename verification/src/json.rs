//! A JSON document as the schema preprocessing sees it, with the object
//! operations it uses (look up, remove and insert a member).

use vstd::prelude::*;

use crate::text::str_eq;

verus! {

/// A JSON value.
#[derive(Debug)]
pub enum Json {
    Null,
    Bool(bool),
    /// A number, kept as its JSON text.
    Number(String),
    Str(String),
    Array(Vec<Json>),
    /// An object's members, in order.
    Object(Vec<(String, Json)>),
}

/// The mathematical value of a JSON document.
pub enum JsonV {
    Null,
    Bool(bool),
    Number(Seq<char>),
    Str(Seq<char>),
    Array(Seq<JsonV>),
    Object(Seq<(Seq<char>, JsonV)>),
}

pub open spec fn json_view(j: Json) -> JsonV
    decreases j,
{
    match j {
        Json::Null => JsonV::Null,
        Json::Bool(b) => JsonV::Bool(b),
        Json::Number(n) => JsonV::Number(n@),
        Json::Str(s) => JsonV::Str(s@),
        Json::Array(v) => JsonV::Array(
            Seq::new(
                v.len() as nat,
                |i: int|
                    if 0 <= i < v.len() {
                        json_view(v[i])
                    } else {
                        JsonV::Null
                    },
            ),
        ),
        Json::Object(es) => JsonV::Object(
            Seq::new(
                es.len() as nat,
                |i: int|
                    if 0 <= i < es.len() {
                        (es[i].0@, json_view(es[i].1))
                    } else {
                        (Seq::empty(), JsonV::Null)
                    },
            ),
        ),
    }
}

impl View for Json {
    type V = JsonV;

    open spec fn view(&self) -> JsonV {
        json_view(*self)
    }
}

/// The members of an object, each taken by its view.
pub open spec fn members_view(es: Seq<(String, Json)>) -> Seq<(Seq<char>, JsonV)> {
    Seq::new(es.len(), |i: int| (es[i].0@, es[i].1@))
}

/// The elements of an array, each taken by its view.
pub open spec fn elements_view(xs: Seq<Json>) -> Seq<JsonV> {
    Seq::new(xs.len(), |i: int| xs[i]@)
}

pub proof fn lemma_object_view(es: Vec<(String, Json)>)
    ensures
        Json::Object(es)@ == JsonV::Object(members_view(es@)),
{
    let j = Json::Object(es);
    assert(json_view(j) is Object);
    assert(json_view(j)->Object_0 =~= members_view(es@));
}

pub proof fn lemma_array_view(xs: Vec<Json>)
    ensures
        Json::Array(xs)@ == JsonV::Array(elements_view(xs@)),
{
    let j = Json::Array(xs);
    assert(json_view(j) is Array);
    assert(json_view(j)->Array_0 =~= elements_view(xs@));
}

/// Index of the first member named `k`.
pub open spec fn key_index(es: Seq<(Seq<char>, JsonV)>, k: Seq<char>) -> Option<int>
    decreases es.len(),
{
    if es.len() == 0 {
        None
    } else if es[0].0 == k {
        Some(0)
    } else {
        match key_index(es.drop_first(), k) {
            Some(i) => Some(i + 1),
            None => None,
        }
    }
}

/// Whether a member is named `k`.
pub open spec fn has_member(es: Seq<(Seq<char>, JsonV)>, k: Seq<char>) -> bool {
    key_index(es, k) is Some
}

/// The value of the member named `k`.
pub open spec fn member(es: Seq<(Seq<char>, JsonV)>, k: Seq<char>) -> Option<JsonV> {
    match key_index(es, k) {
        Some(i) => Some(es[i].1),
        None => None,
    }
}

/// The members without the one named `k`; the others keep their order.
pub open spec fn without_member(es: Seq<(Seq<char>, JsonV)>, k: Seq<char>) -> Seq<
    (Seq<char>, JsonV),
> {
    match key_index(es, k) {
        Some(i) => es.remove(i),
        None => es,
    }
}

/// The members with `k` set to `v`: in place when `k` is there, else
/// added at the end.
pub open spec fn with_member(es: Seq<(Seq<char>, JsonV)>, k: Seq<char>, v: JsonV) -> Seq<
    (Seq<char>, JsonV),
> {
    match key_index(es, k) {
        Some(i) => es.update(i, (k, v)),
        None => es.push((k, v)),
    }
}

/// No two members share a name.
pub open spec fn distinct_keys(es: Seq<(Seq<char>, JsonV)>) -> bool {
    forall|i: int, j: int| 0 <= i < j < es.len() ==> #[trigger] es[i].0 != #[trigger] es[j].0
}

/// `key_index` finds the first member with the name, and nothing when no
/// member has it.
pub proof fn lemma_key_index(es: Seq<(Seq<char>, JsonV)>, k: Seq<char>)
    ensures
        key_index(es, k) is None <==> (forall|j: int| 0 <= j < es.len() ==> #[trigger] es[j].0 != k),
        key_index(es, k) matches Some(i) ==> {
            &&& 0 <= i < es.len()
            &&& es[i].0 == k
            &&& forall|j: int| 0 <= j < i ==> #[trigger] es[j].0 != k
        },
    decreases es.len(),
{
    if es.len() > 0 && es[0].0 != k {
        let rest = es.drop_first();
        lemma_key_index(rest, k);
        assert forall|j: int| 1 <= j < es.len() implies #[trigger] es[j].0 == rest[j - 1].0 by {}
        if key_index(rest, k) is None {
            assert forall|j: int| 0 <= j < es.len() implies #[trigger] es[j].0 != k by {
                if j > 0 {
                    assert(rest[j - 1].0 != k);
                }
            }
        } else {
            let i = key_index(rest, k)->Some_0;
            assert(es[i + 1].0 == k);
            assert forall|j: int| 0 <= j < i + 1 implies #[trigger] es[j].0 != k by {
                if j > 0 {
                    assert(rest[j - 1].0 != k);
                }
            }
        }
    }
}

/// Every flag is set.
pub open spec fn all_true(bs: Seq<bool>) -> bool {
    forall|i: int| 0 <= i < bs.len() ==> #[trigger] bs[i]
}

/// For each element of an array, whether it is well formed.
pub open spec fn elements_well_formed(xs: Seq<JsonV>) -> Seq<bool>
    decreases xs,
{
    Seq::new(
        xs.len(),
        |i: int|
            if 0 <= i < xs.len() {
                well_formed(xs[i])
            } else {
                true
            },
    )
}

/// For each member of an object, whether its value is well formed.
pub open spec fn members_well_formed(es: Seq<(Seq<char>, JsonV)>) -> Seq<bool>
    decreases es,
{
    Seq::new(
        es.len(),
        |i: int|
            if 0 <= i < es.len() {
                well_formed(es[i].1)
            } else {
                true
            },
    )
}

/// No object anywhere in the document repeats a member name.
pub open spec fn well_formed(j: JsonV) -> bool
    decreases j,
{
    match j {
        JsonV::Array(xs) => all_true(elements_well_formed(xs)),
        JsonV::Object(es) => distinct_keys(es) && all_true(members_well_formed(es)),
        _ => true,
    }
}

/// `well_formed` of an array or object, member by member.
pub proof fn lemma_well_formed_unfold(j: JsonV)
    ensures
        j matches JsonV::Array(xs) ==> (well_formed(j) == forall|k: int|
            0 <= k < xs.len() ==> #[trigger] well_formed(xs[k])),
        j matches JsonV::Object(es) ==> (well_formed(j) == (distinct_keys(es) && forall|k: int|
            0 <= k < es.len() ==> #[trigger] well_formed(es[k].1))),
{
    match j {
        JsonV::Array(xs) => {
            let f = elements_well_formed(xs);
            assert forall|k: int| #![trigger f[k]] #![trigger well_formed(xs[k])] 0 <= k < xs.len() implies f[k] == well_formed(xs[k]) by {}
        },
        JsonV::Object(es) => {
            let f = members_well_formed(es);
            assert forall|k: int| #![trigger f[k]] #![trigger well_formed(es[k].1)] 0 <= k < es.len() implies f[k] == well_formed(es[k].1) by {}
        },
        _ => {},
    }
}

/// With distinct names, `member` reads the one member carrying the name.
pub proof fn lemma_distinct_member(es: Seq<(Seq<char>, JsonV)>, k: Seq<char>)
    requires
        distinct_keys(es),
    ensures
        forall|i: int| 0 <= i < es.len() && #[trigger] es[i].0 == k ==> member(es, k) == Some(es[i].1),
        (forall|i: int| 0 <= i < es.len() ==> #[trigger] es[i].0 != k) ==> member(es, k) is None,
{
    lemma_key_index(es, k);
    assert forall|i: int| 0 <= i < es.len() && #[trigger] es[i].0 == k implies member(es, k) == Some(
        es[i].1,
    ) by {
        let j = key_index(es, k)->Some_0;
        if j != i {
            if j < i {
                assert(es[j].0 == es[i].0);
            } else {
                assert(es[i].0 != k);
            }
        }
    }
}

/// Removing `k` from members with distinct names: `k` is gone, every
/// other name reads as before, and the names stay distinct.
pub proof fn lemma_without_member(es: Seq<(Seq<char>, JsonV)>, k: Seq<char>)
    requires
        distinct_keys(es),
    ensures
        distinct_keys(without_member(es, k)),
        member(without_member(es, k), k) is None,
        forall|k2: Seq<char>| k2 != k ==> #[trigger] member(without_member(es, k), k2) == member(es, k2),
{
    lemma_key_index(es, k);
    let r = without_member(es, k);
    if let Some(i0) = key_index(es, k) {
        assert forall|t: int| 0 <= t < r.len() implies #[trigger] r[t] == (if t < i0 {
            es[t]
        } else {
            es[t + 1]
        }) by {}
        assert forall|a: int, b: int| 0 <= a < b < r.len() implies #[trigger] r[a].0 != #[trigger] r[b].0 by {
            let a2 = if a < i0 { a } else { a + 1 };
            let b2 = if b < i0 { b } else { b + 1 };
            assert(r[a] == es[a2]);
            assert(r[b] == es[b2]);
        }
        lemma_distinct_member(r, k);
        assert forall|t: int| 0 <= t < r.len() implies #[trigger] r[t].0 != k by {
            let t2 = if t < i0 { t } else { t + 1 };
            assert(r[t] == es[t2]);
        }
        assert forall|k2: Seq<char>| k2 != k implies #[trigger] member(r, k2) == member(es, k2) by {
            lemma_distinct_member(r, k2);
            lemma_distinct_member(es, k2);
            if exists|t: int| 0 <= t < r.len() && r[t].0 == k2 {
                let t = choose|t: int| 0 <= t < r.len() && r[t].0 == k2;
                let t2 = if t < i0 { t } else { t + 1 };
                assert(r[t] == es[t2]);
            } else {
                assert forall|t: int| 0 <= t < es.len() implies #[trigger] es[t].0 != k2 by {
                    if t < i0 {
                        assert(r[t] == es[t]);
                    } else if t > i0 {
                        assert(r[t - 1] == es[t]);
                    }
                }
            }
        }
    } else {
        lemma_distinct_member(es, k);
    }
}

/// Setting `k` in members with distinct names: `k` reads the new value,
/// every other name reads as before, and the names stay distinct.
pub proof fn lemma_with_member(es: Seq<(Seq<char>, JsonV)>, k: Seq<char>, v: JsonV)
    requires
        distinct_keys(es),
    ensures
        distinct_keys(with_member(es, k, v)),
        member(with_member(es, k, v), k) == Some(v),
        forall|k2: Seq<char>| k2 != k ==> #[trigger] member(with_member(es, k, v), k2) == member(es, k2),
{
    lemma_key_index(es, k);
    let r = with_member(es, k, v);
    let pos = match key_index(es, k) {
        Some(i) => i,
        None => es.len() as int,
    };
    assert(r[pos] == (k, v));
    assert forall|t: int| 0 <= t < r.len() && t != pos implies #[trigger] r[t] == es[t] by {}
    assert forall|a: int, b: int| 0 <= a < b < r.len() implies #[trigger] r[a].0 != #[trigger] r[b].0 by {
        if a != pos && b != pos {
            assert(r[a] == es[a]);
            assert(r[b] == es[b]);
        } else if a == pos {
            assert(r[b] == es[b]);
        } else {
            assert(r[a] == es[a]);
        }
    }
    lemma_distinct_member(r, k);
    assert(r[pos].0 == k);
    assert(member(r, k) == Some(v));
    assert forall|k2: Seq<char>| k2 != k implies #[trigger] member(r, k2) == member(es, k2) by {
        lemma_distinct_member(r, k2);
        lemma_distinct_member(es, k2);
        if exists|t: int| 0 <= t < es.len() && es[t].0 == k2 {
            let t = choose|t: int| 0 <= t < es.len() && es[t].0 == k2;
            assert(t != pos);
            assert(r[t] == es[t]);
        } else {
            assert forall|t: int| 0 <= t < r.len() implies #[trigger] r[t].0 != k2 by {
                if t != pos {
                    assert(r[t] == es[t]);
                }
            }
        }
    }
}

/// Members with the same names in the same order are looked up alike.
pub proof fn lemma_same_names(a: Seq<(Seq<char>, JsonV)>, b: Seq<(Seq<char>, JsonV)>, k: Seq<char>)
    requires
        a.len() == b.len(),
        forall|i: int| 0 <= i < a.len() ==> #[trigger] a[i].0 == b[i].0,
    ensures
        key_index(a, k) == key_index(b, k),
    decreases a.len(),
{
    if a.len() > 0 {
        let a1 = a.drop_first();
        let b1 = b.drop_first();
        assert forall|i: int| 0 <= i < a1.len() implies #[trigger] a1[i].0 == b1[i].0 by {
            assert(a1[i] == a[i + 1]);
            assert(b1[i] == b[i + 1]);
        }
        assert(a[0].0 == b[0].0);
        lemma_same_names(a1, b1, k);
    }
}

/// Index of the first member named `k`.
pub fn find_member(es: &Vec<(String, Json)>, k: &str) -> (r: Option<usize>)
    ensures
        match r {
            Some(i) => key_index(members_view(es@), k@) == Some(i as int),
            None => key_index(members_view(es@), k@) is None,
        },
{
    let ghost mv = members_view(es@);
    let mut i: usize = 0;
    while i < es.len()
        invariant
            i <= es@.len(),
            mv == members_view(es@),
            forall|j: int| 0 <= j < i ==> #[trigger] mv[j].0 != k@,
        decreases es.len() - i,
    {
        if str_eq(es[i].0.as_str(), k) {
            assert(mv[i as int].0 == k@);
            proof {
                lemma_key_index(mv, k@);
            }
            return Some(i);
        }
        i = i + 1;
    }
    proof {
        lemma_key_index(mv, k@);
    }
    None
}

/// Removes the member named `k`, handing back its value.
pub fn remove_member(es: &mut Vec<(String, Json)>, k: &str) -> (r: Option<Json>)
    ensures
        members_view(final(es)@) == without_member(members_view(old(es)@), k@),
        match r {
            Some(v) => member(members_view(old(es)@), k@) == Some(v@),
            None => member(members_view(old(es)@), k@) is None,
        },
{
    proof {
        lemma_key_index(members_view(es@), k@);
    }
    match find_member(es, k) {
        Some(i) => {
            let ghost before = es@;
            let (_, v) = es.remove(i);
            assert(members_view(es@) =~= members_view(before).remove(i as int));
            Some(v)
        },
        None => None,
    }
}

/// Sets the member named `k` to `v`: in place when present, else at the
/// end.
pub fn insert_member(es: &mut Vec<(String, Json)>, k: String, v: Json)
    ensures
        members_view(final(es)@) == with_member(members_view(old(es)@), k@, v@),
{
    let ghost kv = k@;
    let ghost vv = v@;
    proof {
        lemma_key_index(members_view(es@), k@);
    }
    match find_member(es, k.as_str()) {
        Some(i) => {
            let ghost before = es@;
            es.remove(i);
            es.insert(i, (k, v));
            assert(members_view(es@) =~= members_view(before).update(i as int, (kv, vv)));
        },
        None => {
            let ghost before = es@;
            es.push((k, v));
            assert(members_view(es@) =~= members_view(before).push((kv, vv)));
        },
    }
}

/// The value of the member named `k`.
pub fn get_member<'a>(es: &'a Vec<(String, Json)>, k: &str) -> (r: Option<&'a Json>)
    ensures
        match r {
            Some(v) => member(members_view(es@), k@) == Some(v@),
            None => member(members_view(es@), k@) is None,
        },
{
    proof {
        lemma_key_index(members_view(es@), k@);
    }
    match find_member(es, k) {
        Some(i) => Some(&es[i].1),
        None => None,
    }
}

} // verus!
