//! JSON Schema preprocessing ahead of model generation.
//!
//! The one entry point is [`rewrite`]. It is pure: the same input always
//! gives the same output. Every object of the document, outermost first,
//! is rewritten so that:
//! - `const: X` becomes `enum: [X]`;
//! - `type: [T, .., "null"]` becomes `anyOf: [{ "type": T }, ..]`;
//! - `allOf: [<single $ref>]` collapses to that `$ref`;
//! - `additionalProperties: false` is dropped next to a combinator;
//! - a string enum whose values sanitize to the same identifier is
//!   relaxed to a plain string;
//! - an enum listing `alrmCmonx` is relaxed to a plain string.

use vstd::prelude::*;

use crate::json::{
    all_true, distinct_keys, elements_view, find_member, get_member, has_member, insert_member, key_index,
    lemma_array_view, lemma_key_index, lemma_well_formed_unfold, lemma_object_view, lemma_same_names, lemma_with_member,
    lemma_without_member, member, members_view, remove_member, well_formed, with_member,
    without_member, Json, JsonV,
};
use crate::text::{chars_of, str_eq, string_from_chars, to_owned};

verus! {

/// An ASCII letter or digit.
pub open spec fn is_ascii_alnum(c: char) -> bool {
    ('0' <= c && c <= '9') || ('a' <= c && c <= 'z') || ('A' <= c && c <= 'Z')
}

/// The ASCII letters and digits of `s`, in order.
pub open spec fn sanitized(s: Seq<char>) -> Seq<char>
    decreases s.len(),
{
    if s.len() == 0 {
        s
    } else {
        let r = sanitized(s.drop_last());
        if is_ascii_alnum(s.last()) {
            r.push(s.last())
        } else {
            r
        }
    }
}

/// Sanitizing keeps exactly the ASCII letters and digits, in order: a
/// text made only of `0`-`9`, `a`-`z` and `A`-`Z` is its own sanitized
/// form (`h264` stays `h264`), and whatever is kept is such a character.
pub proof fn lemma_sanitized_keeps_letters_and_digits(s: Seq<char>)
    ensures
        (forall|i: int|
            0 <= i < s.len() ==> ('0' <= #[trigger] s[i] && s[i] <= '9') || ('a' <= s[i] && s[i] <= 'z')
                || ('A' <= s[i] && s[i] <= 'Z')) ==> sanitized(s) == s,
        forall|i: int|
            0 <= i < sanitized(s).len() ==> ('0' <= #[trigger] sanitized(s)[i] && sanitized(s)[i] <= '9')
                || ('a' <= sanitized(s)[i] && sanitized(s)[i] <= 'z') || ('A' <= sanitized(s)[i]
                && sanitized(s)[i] <= 'Z'),
        sanitized(s).len() <= s.len(),
    decreases s.len(),
{
    if s.len() > 0 {
        lemma_sanitized_keeps_letters_and_digits(s.drop_last());
        if forall|i: int|
            0 <= i < s.len() ==> ('0' <= #[trigger] s[i] && s[i] <= '9') || ('a' <= s[i] && s[i] <= 'z')
                || ('A' <= s[i] && s[i] <= 'Z') {
            assert forall|i: int|
                0 <= i < s.drop_last().len() implies ('0' <= #[trigger] s.drop_last()[i] && s.drop_last()[i]
                <= '9') || ('a' <= s.drop_last()[i] && s.drop_last()[i] <= 'z') || ('A' <= s.drop_last()[i]
                && s.drop_last()[i] <= 'Z') by {
                assert(s.drop_last()[i] == s[i]);
            }
            assert(s[s.len() - 1] == s.last());
            assert(s.drop_last().push(s.last()) =~= s);
        }
    }
}

/// A string enum whose values are distinct texts of ASCII letters and
/// digits (such as `h264` and `h265`) does not collide, so it keeps its
/// `enum`.
pub proof fn lemma_distinct_alnum_values_do_not_collide(vals: Seq<JsonV>)
    requires
        forall|i: int| 0 <= i < vals.len() ==> #[trigger] is_str(vals[i]),
        forall|i: int, k: int|
            0 <= i < vals.len() && 0 <= k < str_text(vals[i]).len() ==> ('0' <= #[trigger] str_text(
                vals[i],
            )[k] && str_text(vals[i])[k] <= '9') || ('a' <= str_text(vals[i])[k] && str_text(vals[i])[k]
                <= 'z') || ('A' <= str_text(vals[i])[k] && str_text(vals[i])[k] <= 'Z'),
        forall|i: int, j: int|
            0 <= i < j < vals.len() ==> str_text(#[trigger] vals[i]) != str_text(#[trigger] vals[j]),
    ensures
        !collides(vals),
{
    assert forall|i: int, j: int|
        0 <= i < j < vals.len() implies sanitized(str_text(vals[i])) != sanitized(str_text(vals[j])) by {
        lemma_sanitized_keeps_letters_and_digits(str_text(vals[i]));
        lemma_sanitized_keeps_letters_and_digits(str_text(vals[j]));
        assert(str_text(vals[i]) != str_text(vals[j]));
    }
}

pub open spec fn is_str(v: JsonV) -> bool {
    v is Str
}

/// The text of a string value (empty for any other value).
pub open spec fn str_text(v: JsonV) -> Seq<char> {
    match v {
        JsonV::Str(s) => s,
        _ => Seq::empty(),
    }
}

/// Two enum values sanitize to the same text, both before the first value
/// that is not a string.
pub open spec fn collides(vals: Seq<JsonV>) -> bool {
    exists|i: int, j: int|
        #![trigger sanitized(str_text(vals[i])), sanitized(str_text(vals[j]))]
        0 <= i < j < vals.len() && (forall|k: int| 0 <= k <= j ==> #[trigger] is_str(vals[k]))
            && sanitized(str_text(vals[i])) == sanitized(str_text(vals[j]))
}

/// Some element is the string `s`.
pub open spec fn lists_str(vals: Seq<JsonV>, s: Seq<char>) -> bool {
    exists|i: int| 0 <= i < vals.len() && vals[i] == JsonV::Str(s)
}

/// The object `{ "type": t }`.
pub open spec fn type_member(t: JsonV) -> JsonV {
    JsonV::Object(seq![("type"@, t)])
}

/// `type: [T, .., "null"]` becomes `anyOf: [{ "type": T }, ..]`, unless
/// the object already has `anyOf` or `oneOf`.
pub open spec fn expand_nullable(es: Seq<(Seq<char>, JsonV)>) -> Seq<(Seq<char>, JsonV)> {
    match member(es, "type"@) {
        Some(JsonV::Array(ts)) => if !has_member(es, "anyOf"@) && !has_member(es, "oneOf"@)
            && lists_str(ts, "null"@) {
            with_member(
                without_member(es, "type"@),
                "anyOf"@,
                JsonV::Array(ts.map_values(|t: JsonV| type_member(t))),
            )
        } else {
            es
        },
        _ => es,
    }
}

/// `const: X` becomes `enum: [X]`.
pub open spec fn const_to_enum(es: Seq<(Seq<char>, JsonV)>) -> Seq<(Seq<char>, JsonV)> {
    match member(es, "const"@) {
        Some(c) => with_member(without_member(es, "const"@), "enum"@, JsonV::Array(seq![c])),
        None => es,
    }
}

/// The reference when `items` is a single object whose one member is a
/// string `$ref`.
pub open spec fn single_ref(items: Seq<JsonV>) -> Option<Seq<char>> {
    if items.len() == 1 {
        match items[0] {
            JsonV::Object(only) => if only.len() == 1 {
                match member(only, "$ref"@) {
                    Some(JsonV::Str(r)) => Some(r),
                    _ => None,
                }
            } else {
                None
            },
            _ => None,
        }
    } else {
        None
    }
}

/// `allOf: [{ "$ref": R }]` becomes `$ref: R`, and `additionalProperties`
/// goes.
pub open spec fn flatten_all_of(es: Seq<(Seq<char>, JsonV)>) -> Seq<(Seq<char>, JsonV)> {
    match member(es, "allOf"@) {
        Some(JsonV::Array(items)) => match single_ref(items) {
            Some(r) => with_member(
                without_member(without_member(es, "allOf"@), "additionalProperties"@),
                "$ref"@,
                JsonV::Str(r),
            ),
            None => es,
        },
        _ => es,
    }
}

/// The object has `allOf`, `oneOf` or `anyOf`.
pub open spec fn has_combinator(es: Seq<(Seq<char>, JsonV)>) -> bool {
    has_member(es, "allOf"@) || has_member(es, "oneOf"@) || has_member(es, "anyOf"@)
}

/// `additionalProperties: false` goes when a combinator is there.
pub open spec fn strip_closed_beside_combinator(es: Seq<(Seq<char>, JsonV)>) -> Seq<
    (Seq<char>, JsonV),
> {
    if has_combinator(es) && member(es, "additionalProperties"@) == Some(JsonV::Bool(false)) {
        without_member(es, "additionalProperties"@)
    } else {
        es
    }
}

/// A string enum whose values collide loses its `enum`.
pub open spec fn drop_colliding_enum(es: Seq<(Seq<char>, JsonV)>) -> Seq<(Seq<char>, JsonV)> {
    match member(es, "enum"@) {
        Some(JsonV::Array(vals)) => if member(es, "type"@) == Some(JsonV::Str("string"@))
            && collides(vals) {
            without_member(es, "enum"@)
        } else {
            es
        },
        _ => es,
    }
}

/// An enum listing `alrmCmonx` loses its `enum`.
pub open spec fn drop_drifted_enum(es: Seq<(Seq<char>, JsonV)>) -> Seq<(Seq<char>, JsonV)> {
    match member(es, "enum"@) {
        Some(JsonV::Array(vals)) => if lists_str(vals, "alrmCmonx"@) {
            without_member(es, "enum"@)
        } else {
            es
        },
        _ => es,
    }
}

/// The rewrite of one object's own members, before its values are visited.
pub open spec fn rewrite_members(es: Seq<(Seq<char>, JsonV)>) -> Seq<(Seq<char>, JsonV)> {
    drop_drifted_enum(
        drop_colliding_enum(
            strip_closed_beside_combinator(flatten_all_of(const_to_enum(expand_nullable(es)))),
        ),
    )
}

/// The largest element (0 for none).
pub open spec fn max_of(s: Seq<nat>) -> nat
    decreases s.len(),
{
    if s.len() == 0 {
        0
    } else {
        let m = max_of(s.drop_last());
        if s.last() > m {
            s.last()
        } else {
            m
        }
    }
}

/// Heights of the elements of an array.
pub open spec fn element_heights(xs: Seq<JsonV>) -> Seq<nat>
    decreases xs,
{
    Seq::new(
        xs.len(),
        |i: int|
            if 0 <= i < xs.len() {
                height(xs[i])
            } else {
                0
            },
    )
}

/// Heights of the member values of an object.
pub open spec fn member_heights(es: Seq<(Seq<char>, JsonV)>) -> Seq<nat>
    decreases es,
{
    Seq::new(
        es.len(),
        |i: int|
            if 0 <= i < es.len() {
                height(es[i].1)
            } else {
                0
            },
    )
}

/// Nesting depth: 0 for a scalar, one more than the deepest element or
/// member value for an array or object.
pub open spec fn height(j: JsonV) -> nat
    decreases j,
{
    match j {
        JsonV::Array(xs) => 1 + max_of(element_heights(xs)),
        JsonV::Object(es) => 1 + max_of(member_heights(es)),
        _ => 0,
    }
}

/// 1 for an object, 0 otherwise.
pub open spec fn object_rank(j: JsonV) -> int {
    if j is Object {
        1
    } else {
        0
    }
}

proof fn lemma_max_of_bounds(s: Seq<nat>)
    ensures
        forall|i: int| 0 <= i < s.len() ==> #[trigger] s[i] <= max_of(s),
    decreases s.len(),
{
    if s.len() > 0 {
        lemma_max_of_bounds(s.drop_last());
        assert forall|i: int| 0 <= i < s.len() implies #[trigger] s[i] <= max_of(s) by {
            if i < s.len() - 1 {
                assert(s[i] == s.drop_last()[i]);
            }
        }
    }
}

proof fn lemma_max_of_at_most(s: Seq<nat>, b: nat)
    requires
        forall|i: int| 0 <= i < s.len() ==> #[trigger] s[i] <= b,
    ensures
        max_of(s) <= b,
    decreases s.len(),
{
    if s.len() > 0 {
        assert forall|i: int| 0 <= i < s.len() - 1 implies #[trigger] s.drop_last()[i] <= b by {
            assert(s.drop_last()[i] == s[i]);
        }
        lemma_max_of_at_most(s.drop_last(), b);
    }
}

/// Every element of an array is lower than the array.
pub proof fn lemma_elements_lower(xs: Seq<JsonV>)
    ensures
        forall|i: int| 0 <= i < xs.len() ==> #[trigger] height(xs[i]) < height(JsonV::Array(xs)),
{
    let hs = element_heights(xs);
    lemma_max_of_bounds(hs);
    assert forall|i: int| 0 <= i < xs.len() implies #[trigger] height(xs[i]) < height(
        JsonV::Array(xs),
    ) by {
        assert(hs[i] == height(xs[i]));
    }
}

/// Every member value of an object is lower than the object.
pub proof fn lemma_members_lower(es: Seq<(Seq<char>, JsonV)>)
    ensures
        forall|i: int|
            0 <= i < es.len() ==> #[trigger] height(es[i].1) < height(JsonV::Object(es)),
{
    let hs = member_heights(es);
    lemma_max_of_bounds(hs);
    assert forall|i: int| 0 <= i < es.len() implies #[trigger] height(es[i].1) < height(
        JsonV::Object(es),
    ) by {
        assert(hs[i] == height(es[i].1));
    }
}

/// An array is one higher than its highest element, so it is at most `b`
/// when every element is below `b`.
proof fn lemma_array_at_most(xs: Seq<JsonV>, b: nat)
    requires
        b > 0,
        forall|i: int| 0 <= i < xs.len() ==> #[trigger] height(xs[i]) < b,
    ensures
        height(JsonV::Array(xs)) <= b,
{
    let hs = element_heights(xs);
    assert forall|i: int| 0 <= i < hs.len() implies #[trigger] hs[i] <= (b - 1) as nat by {
        assert(height(xs[i]) < b);
    }
    lemma_max_of_at_most(hs, (b - 1) as nat);
}

/// A member produced by rewriting the members of an object of height `h`
/// is no higher than `h`, and lower when it is an object or sits under a
/// name the rewrite does not create.
pub open spec fn stays_below(e: (Seq<char>, JsonV), h: nat) -> bool {
    &&& height(e.1) <= h
    &&& (e.1 is Object ==> height(e.1) < h)
    &&& (e.0 != "anyOf"@ && e.0 != "enum"@ && e.0 != "$ref"@ ==> height(e.1) < h)
}

pub open spec fn all_stay_below(es: Seq<(Seq<char>, JsonV)>, h: nat) -> bool {
    forall|i: int| #![trigger es[i]] 0 <= i < es.len() ==> stays_below(es[i], h)
}

proof fn lemma_member_stays_below(es: Seq<(Seq<char>, JsonV)>, k: Seq<char>, h: nat)
    requires
        all_stay_below(es, h),
        member(es, k) is Some,
    ensures
        stays_below((k, member(es, k)->Some_0), h),
{
    lemma_key_index(es, k);
    let i = key_index(es, k)->Some_0;
    assert(stays_below(es[i], h));
}

proof fn lemma_without_stays_below(es: Seq<(Seq<char>, JsonV)>, k: Seq<char>, h: nat)
    requires
        all_stay_below(es, h),
    ensures
        all_stay_below(without_member(es, k), h),
{
    lemma_key_index(es, k);
    if let Some(i) = key_index(es, k) {
        let r = es.remove(i);
        assert forall|t: int| 0 <= t < r.len() implies stays_below(r[t], h) by {
            if t < i {
                assert(r[t] == es[t]);
            } else {
                assert(r[t] == es[t + 1]);
            }
        }
    }
}

proof fn lemma_with_stays_below(es: Seq<(Seq<char>, JsonV)>, k: Seq<char>, v: JsonV, h: nat)
    requires
        all_stay_below(es, h),
        stays_below((k, v), h),
    ensures
        all_stay_below(with_member(es, k, v), h),
{
    lemma_key_index(es, k);
    let r = with_member(es, k, v);
    assert forall|t: int| 0 <= t < r.len() implies stays_below(r[t], h) by {
        if key_index(es, k) is None && t == es.len() {
            assert(r[t] == (k, v));
        } else if key_index(es, k) == Some(t) {
            assert(r[t] == (k, v));
        } else {
            assert(r[t] == es[t]);
        }
    }
}

/// `{ "type": t }` is one higher than `t`.
proof fn lemma_type_member_height(t: JsonV)
    ensures
        height(type_member(t)) == height(t) + 1,
{
    let es = seq![("type"@, t)];
    let hs = member_heights(es);
    assert(hs.drop_last() =~= Seq::<nat>::empty());
    assert(max_of(hs.drop_last()) == 0);
    assert(hs.last() == height(t));
}

/// `[c]` is one higher than `c`.
proof fn lemma_singleton_height(c: JsonV)
    ensures
        height(JsonV::Array(seq![c])) == height(c) + 1,
{
    let xs = seq![c];
    let hs = element_heights(xs);
    assert(hs.drop_last() =~= Seq::<nat>::empty());
    assert(max_of(hs.drop_last()) == 0);
    assert(hs.last() == height(c));
}

/// Rewriting an object's members keeps every value within the bound that
/// lets the recursion over them end.
pub proof fn lemma_rewrite_members_below(es: Seq<(Seq<char>, JsonV)>)
    ensures
        all_stay_below(rewrite_members(es), height(JsonV::Object(es))),
{
    lemma_names_differ();
    let h = height(JsonV::Object(es));
    lemma_members_lower(es);
    assert(all_stay_below(es, h));
    // type arrays with a null
    let e1 = expand_nullable(es);
    if let Some(JsonV::Array(ts)) = member(es, "type"@) {
        if e1 != es {
            lemma_member_stays_below(es, "type"@, h);
            let a = ts.map_values(|t: JsonV| type_member(t));
            lemma_elements_lower(ts);
            assert(stays_below(("type"@, JsonV::Array(ts)), h));
            assert(height(JsonV::Array(ts)) < h);
            assert forall|i: int| 0 <= i < a.len() implies #[trigger] height(a[i]) < h by {
                lemma_type_member_height(ts[i]);
                assert(a[i] == type_member(ts[i]));
                assert(height(ts[i]) < height(JsonV::Array(ts)));
            }
            lemma_array_at_most(a, h);
            lemma_without_stays_below(es, "type"@, h);
            lemma_with_stays_below(without_member(es, "type"@), "anyOf"@, JsonV::Array(a), h);
        }
    }
    assert(all_stay_below(e1, h));
    // const
    let e2 = const_to_enum(e1);
    if let Some(c) = member(e1, "const"@) {
        lemma_member_stays_below(e1, "const"@, h);
        assert(stays_below(("const"@, c), h));
        assert(height(c) < h);
        lemma_singleton_height(c);
        assert(stays_below(("enum"@, JsonV::Array(seq![c])), h));
        lemma_without_stays_below(e1, "const"@, h);
        lemma_with_stays_below(without_member(e1, "const"@), "enum"@, JsonV::Array(seq![c]), h);
    }
    assert(all_stay_below(e2, h));
    // allOf
    let e3 = flatten_all_of(e2);
    if let Some(JsonV::Array(items)) = member(e2, "allOf"@) {
        if let Some(r) = single_ref(items) {
            lemma_without_stays_below(e2, "allOf"@, h);
            lemma_without_stays_below(without_member(e2, "allOf"@), "additionalProperties"@, h);
            lemma_with_stays_below(
                without_member(without_member(e2, "allOf"@), "additionalProperties"@),
                "$ref"@,
                JsonV::Str(r),
                h,
            );
        }
    }
    assert(all_stay_below(e3, h));
    let e4 = strip_closed_beside_combinator(e3);
    lemma_without_stays_below(e3, "additionalProperties"@, h);
    assert(all_stay_below(e4, h));
    let e5 = drop_colliding_enum(e4);
    lemma_without_stays_below(e4, "enum"@, h);
    assert(all_stay_below(e5, h));
    lemma_without_stays_below(e5, "enum"@, h);
}

/// The document with every object rewritten, outermost first: an object's
/// own members are rewritten, then each value of the result is.
pub open spec fn preprocessed(j: JsonV) -> JsonV
    decreases height(j), object_rank(j),
{
    match j {
        JsonV::Array(xs) => {
            proof {
                lemma_elements_lower(xs);
            }
            JsonV::Array(
                Seq::new(
                    xs.len(),
                    |i: int|
                        if 0 <= i < xs.len() {
                            preprocessed(xs[i])
                        } else {
                            JsonV::Null
                        },
                ),
            )
        },
        JsonV::Object(es) => {
            let l = rewrite_members(es);
            proof {
                lemma_rewrite_members_below(es);
            }
            JsonV::Object(
                Seq::new(
                    l.len(),
                    |i: int|
                        if 0 <= i < l.len() {
                            (l[i].0, preprocessed(l[i].1))
                        } else {
                            (Seq::empty(), JsonV::Null)
                        },
                ),
            )
        },
        _ => j,
    }
}


/// What the rewrite leaves true of an object's own members: no `const`;
/// a `type` array listing `"null"` only beside `anyOf` or `oneOf`; no
/// `additionalProperties: false` beside a combinator; no colliding enum
/// on a string; no enum listing `alrmCmonx`.
pub open spec fn clean_members(es: Seq<(Seq<char>, JsonV)>) -> bool {
    &&& !has_member(es, "const"@)
    &&& match member(es, "type"@) {
        Some(JsonV::Array(ts)) => lists_str(ts, "null"@) ==> has_member(es, "anyOf"@)
            || has_member(es, "oneOf"@),
        _ => true,
    }
    &&& (has_combinator(es) ==> member(es, "additionalProperties"@) != Some(JsonV::Bool(false)))
    &&& match member(es, "enum"@) {
        Some(JsonV::Array(vals)) => (member(es, "type"@) == Some(JsonV::Str("string"@))
            ==> !collides(vals)) && !lists_str(vals, "alrmCmonx"@),
        _ => true,
    }
}

/// For each element of an array, whether it is clean throughout.
pub open spec fn elements_clean(xs: Seq<JsonV>) -> Seq<bool>
    decreases xs,
{
    Seq::new(
        xs.len(),
        |i: int|
            if 0 <= i < xs.len() {
                all_clean(xs[i])
            } else {
                true
            },
    )
}

/// For each member of an object, whether its value is clean throughout.
pub open spec fn members_clean(es: Seq<(Seq<char>, JsonV)>) -> Seq<bool>
    decreases es,
{
    Seq::new(
        es.len(),
        |i: int|
            if 0 <= i < es.len() {
                all_clean(es[i].1)
            } else {
                true
            },
    )
}

/// Every object of the document is clean.
pub open spec fn all_clean(j: JsonV) -> bool
    decreases j,
{
    match j {
        JsonV::Array(xs) => all_true(elements_clean(xs)),
        JsonV::Object(es) => clean_members(es) && all_true(members_clean(es)),
        _ => true,
    }
}

/// `all_clean` of an array or object, member by member.
pub proof fn lemma_all_clean_unfold(j: JsonV)
    ensures
        j matches JsonV::Array(xs) ==> (all_clean(j) == forall|k: int|
            0 <= k < xs.len() ==> #[trigger] all_clean(xs[k])),
        j matches JsonV::Object(es) ==> (all_clean(j) == (clean_members(es) && forall|k: int|
            0 <= k < es.len() ==> #[trigger] all_clean(es[k].1))),
{
    match j {
        JsonV::Array(xs) => {
            let f = elements_clean(xs);
            assert forall|k: int| #![trigger f[k]] #![trigger all_clean(xs[k])] 0 <= k < xs.len() implies f[k] == all_clean(xs[k]) by {}
        },
        JsonV::Object(es) => {
            let f = members_clean(es);
            assert forall|k: int| #![trigger f[k]] #![trigger all_clean(es[k].1)] 0 <= k < es.len() implies f[k] == all_clean(es[k].1) by {}
        },
        _ => {},
    }
}

/// The member names the rewrite reads or writes are pairwise different.
proof fn lemma_names_differ()
    ensures
        "type"@ != "anyOf"@,
        "type"@ != "oneOf"@,
        "type"@ != "allOf"@,
        "type"@ != "enum"@,
        "type"@ != "const"@,
        "type"@ != "$ref"@,
        "type"@ != "additionalProperties"@,
        "const"@ != "anyOf"@,
        "const"@ != "oneOf"@,
        "const"@ != "allOf"@,
        "const"@ != "enum"@,
        "const"@ != "$ref"@,
        "const"@ != "additionalProperties"@,
        "enum"@ != "anyOf"@,
        "enum"@ != "oneOf"@,
        "enum"@ != "allOf"@,
        "enum"@ != "$ref"@,
        "enum"@ != "additionalProperties"@,
        "anyOf"@ != "oneOf"@,
        "anyOf"@ != "allOf"@,
        "anyOf"@ != "$ref"@,
        "anyOf"@ != "additionalProperties"@,
        "oneOf"@ != "allOf"@,
        "oneOf"@ != "$ref"@,
        "oneOf"@ != "additionalProperties"@,
        "allOf"@ != "$ref"@,
        "allOf"@ != "additionalProperties"@,
        "$ref"@ != "additionalProperties"@,
{
    reveal_strlit("type");
    reveal_strlit("anyOf");
    reveal_strlit("oneOf");
    reveal_strlit("allOf");
    reveal_strlit("enum");
    reveal_strlit("const");
    reveal_strlit("$ref");
    reveal_strlit("additionalProperties");
    assert("type"@[0] != "enum"@[0]);
    assert("type"@[0] != "$ref"@[0]);
    assert("enum"@[0] != "$ref"@[0]);
    assert("const"@[0] != "anyOf"@[0]);
    assert("const"@[0] != "oneOf"@[0]);
    assert("const"@[0] != "allOf"@[0]);
    assert("anyOf"@[0] != "oneOf"@[0]);
    assert("anyOf"@[1] != "allOf"@[1]);
    assert("oneOf"@[0] != "allOf"@[0]);
}

/// Rewriting an object's members with distinct names leaves them clean
/// and still distinct.
pub proof fn lemma_rewrite_members_clean(es: Seq<(Seq<char>, JsonV)>)
    requires
        distinct_keys(es),
    ensures
        distinct_keys(rewrite_members(es)),
        clean_members(rewrite_members(es)),
{
    lemma_names_differ();
    // `type` arrays listing "null"
    let e1 = expand_nullable(es);
    lemma_without_member(es, "type"@);
    if let Some(JsonV::Array(ts)) = member(es, "type"@) {
        if !has_member(es, "anyOf"@) && !has_member(es, "oneOf"@) && lists_str(ts, "null"@) {
            lemma_with_member(
                without_member(es, "type"@),
                "anyOf"@,
                JsonV::Array(ts.map_values(|t: JsonV| type_member(t))),
            );
            assert(member(e1, "type"@) is None);
        }
    }
    assert(distinct_keys(e1));
    assert(match member(e1, "type"@) {
        Some(JsonV::Array(ts)) => lists_str(ts, "null"@) ==> has_member(e1, "anyOf"@)
            || has_member(e1, "oneOf"@),
        _ => true,
    });
    // `const`
    let e2 = const_to_enum(e1);
    if let Some(c) = member(e1, "const"@) {
        lemma_without_member(e1, "const"@);
        lemma_with_member(without_member(e1, "const"@), "enum"@, JsonV::Array(seq![c]));
    } else {
        lemma_without_member(e1, "const"@);
    }
    assert(distinct_keys(e2));
    assert(member(e2, "const"@) is None);
    assert(member(e2, "type"@) == member(e1, "type"@));
    assert(member(e2, "anyOf"@) == member(e1, "anyOf"@));
    assert(member(e2, "oneOf"@) == member(e1, "oneOf"@));
    assert(!has_member(e2, "const"@));
    // singleton `allOf`
    let e3 = flatten_all_of(e2);
    if e3 != e2 {
        let r = single_ref(member(e2, "allOf"@)->Some_0->Array_0)->Some_0;
        lemma_without_member(e2, "allOf"@);
        lemma_without_member(without_member(e2, "allOf"@), "additionalProperties"@);
        lemma_with_member(
            without_member(without_member(e2, "allOf"@), "additionalProperties"@),
            "$ref"@,
            JsonV::Str(r),
        );
    }
    assert(distinct_keys(e3));
    assert(member(e3, "const"@) is None);
    assert(member(e3, "type"@) == member(e2, "type"@));
    assert(member(e3, "anyOf"@) == member(e2, "anyOf"@));
    assert(member(e3, "oneOf"@) == member(e2, "oneOf"@));
    assert(!has_member(e3, "const"@));
    // `additionalProperties: false`
    let e4 = strip_closed_beside_combinator(e3);
    lemma_without_member(e3, "additionalProperties"@);
    assert(distinct_keys(e4));
    assert(member(e4, "const"@) is None);
    assert(member(e4, "type"@) == member(e3, "type"@));
    assert(member(e4, "anyOf"@) == member(e3, "anyOf"@));
    assert(member(e4, "oneOf"@) == member(e3, "oneOf"@));
    assert(member(e4, "allOf"@) == member(e3, "allOf"@));
    assert(member(e4, "enum"@) == member(e3, "enum"@));
    assert(has_combinator(e4) ==> member(e4, "additionalProperties"@) != Some(JsonV::Bool(false)));
    // colliding string enums
    let e5 = drop_colliding_enum(e4);
    lemma_without_member(e4, "enum"@);
    assert(distinct_keys(e5));
    assert(member(e5, "const"@) is None);
    assert(member(e5, "type"@) == member(e4, "type"@));
    assert(member(e5, "anyOf"@) == member(e4, "anyOf"@));
    assert(member(e5, "oneOf"@) == member(e4, "oneOf"@));
    assert(member(e5, "allOf"@) == member(e4, "allOf"@));
    assert(member(e5, "additionalProperties"@) == member(e4, "additionalProperties"@));
    assert(match member(e5, "enum"@) {
        Some(JsonV::Array(vals)) => member(e5, "type"@) == Some(JsonV::Str("string"@))
            ==> !collides(vals),
        _ => true,
    });
    // drifted enums
    let e6 = drop_drifted_enum(e5);
    lemma_without_member(e5, "enum"@);
    assert(distinct_keys(e6));
    assert(member(e6, "const"@) is None);
    assert(member(e6, "type"@) == member(e5, "type"@));
    assert(member(e6, "anyOf"@) == member(e5, "anyOf"@));
    assert(member(e6, "oneOf"@) == member(e5, "oneOf"@));
    assert(member(e6, "allOf"@) == member(e5, "allOf"@));
    assert(member(e6, "additionalProperties"@) == member(e5, "additionalProperties"@));
    assert(member(e6, "enum"@) == member(e5, "enum"@) || member(e6, "enum"@) is None);
}

/// Every member value of the rewritten object is well formed when the
/// object was: it is a value of the object, a string, `[c]` for the
/// object's `const` value `c`, or the `anyOf` list made from its `type`
/// array.
proof fn lemma_rewrite_members_well_formed(es: Seq<(Seq<char>, JsonV)>)
    requires
        well_formed(JsonV::Object(es)),
    ensures
        all_values_well_formed(rewrite_members(es)),
{
    lemma_names_differ();
    lemma_well_formed_values_kept(es);
    assert(all_values_well_formed(es));
    let e1 = expand_nullable(es);
    if e1 != es {
        let ts = member(es, "type"@)->Some_0->Array_0;
        lemma_member_value_well_formed(es, "type"@);
        lemma_well_formed_unfold(JsonV::Array(ts));
        let a = ts.map_values(|t: JsonV| type_member(t));
        assert forall|t: int| 0 <= t < a.len() implies #[trigger] well_formed(a[t]) by {
            assert(well_formed(ts[t]));
            let m = seq![("type"@, ts[t])];
            assert(a[t] == JsonV::Object(m));
            lemma_well_formed_unfold(JsonV::Object(m));
            assert(m[0].1 == ts[t]);
        }
        lemma_well_formed_unfold(JsonV::Array(a));
        lemma_without_values_well_formed(es, "type"@);
        lemma_with_values_well_formed(without_member(es, "type"@), "anyOf"@, JsonV::Array(a));
    }
    assert(all_values_well_formed(e1));
    let e2 = const_to_enum(e1);
    if let Some(c) = member(e1, "const"@) {
        lemma_member_value_well_formed(e1, "const"@);
        lemma_without_values_well_formed(e1, "const"@);
        lemma_well_formed_unfold(JsonV::Array(seq![c]));
        assert(seq![c][0] == c);
        assert(well_formed(JsonV::Array(seq![c])));
        lemma_with_values_well_formed(without_member(e1, "const"@), "enum"@, JsonV::Array(seq![c]));
    }
    assert(all_values_well_formed(e2));
    let e3 = flatten_all_of(e2);
    if e3 != e2 {
        let r = single_ref(member(e2, "allOf"@)->Some_0->Array_0)->Some_0;
        lemma_without_values_well_formed(e2, "allOf"@);
        lemma_without_values_well_formed(without_member(e2, "allOf"@), "additionalProperties"@);
        lemma_with_values_well_formed(
            without_member(without_member(e2, "allOf"@), "additionalProperties"@),
            "$ref"@,
            JsonV::Str(r),
        );
    }
    assert(all_values_well_formed(e3));
    let e4 = strip_closed_beside_combinator(e3);
    lemma_without_values_well_formed(e3, "additionalProperties"@);
    let e5 = drop_colliding_enum(e4);
    lemma_without_values_well_formed(e4, "enum"@);
    lemma_without_values_well_formed(e5, "enum"@);
}

pub open spec fn all_values_well_formed(es: Seq<(Seq<char>, JsonV)>) -> bool {
    forall|i: int| #![trigger es[i]] 0 <= i < es.len() ==> well_formed(es[i].1)
}

proof fn lemma_well_formed_values_kept(es: Seq<(Seq<char>, JsonV)>)
    requires
        well_formed(JsonV::Object(es)),
    ensures
        all_values_well_formed(es),
{
    lemma_well_formed_unfold(JsonV::Object(es));
    assert forall|i: int| 0 <= i < es.len() implies well_formed(es[i].1) by {
        assert(well_formed(es[i].1));
    }
}

proof fn lemma_member_value_well_formed(es: Seq<(Seq<char>, JsonV)>, k: Seq<char>)
    requires
        all_values_well_formed(es),
        member(es, k) is Some,
    ensures
        well_formed(member(es, k)->Some_0),
{
    lemma_key_index(es, k);
    let i = key_index(es, k)->Some_0;
    assert(well_formed(es[i].1));
}

proof fn lemma_without_values_well_formed(es: Seq<(Seq<char>, JsonV)>, k: Seq<char>)
    requires
        all_values_well_formed(es),
    ensures
        all_values_well_formed(without_member(es, k)),
{
    lemma_key_index(es, k);
    if let Some(i) = key_index(es, k) {
        let r = es.remove(i);
        assert forall|t: int| 0 <= t < r.len() implies well_formed(r[t].1) by {
            if t < i {
                assert(r[t] == es[t]);
            } else {
                assert(r[t] == es[t + 1]);
            }
        }
    }
}

proof fn lemma_with_values_well_formed(es: Seq<(Seq<char>, JsonV)>, k: Seq<char>, v: JsonV)
    requires
        all_values_well_formed(es),
        well_formed(v),
    ensures
        all_values_well_formed(with_member(es, k, v)),
{
    lemma_key_index(es, k);
    let r = with_member(es, k, v);
    assert forall|t: int| 0 <= t < r.len() implies well_formed(r[t].1) by {
        if key_index(es, k) is None && t == es.len() {
            assert(r[t] == (k, v));
        } else if key_index(es, k) == Some(t) {
            assert(r[t] == (k, v));
        } else {
            assert(r[t] == es[t]);
        }
    }
}

/// The rewrite keeps what kind of value it is given, and leaves scalars
/// as they are.
proof fn lemma_preprocessed_kind(v: JsonV)
    ensures
        preprocessed(v) is Array <==> v is Array,
        preprocessed(v) is Object <==> v is Object,
        is_str(preprocessed(v)) == is_str(v),
        str_text(preprocessed(v)) == str_text(v),
        !(v is Array) && !(v is Object) ==> preprocessed(v) == v,
        v matches JsonV::Array(xs) ==> (preprocessed(v)->Array_0.len() == xs.len() && forall|i: int|
            0 <= i < xs.len() ==> #[trigger] preprocessed(v)->Array_0[i] == preprocessed(xs[i])),
{
}

/// Lists whose elements are the rewrites of one another's list the same
/// strings and collide alike.
proof fn lemma_rewritten_list(xs: Seq<JsonV>)
    ensures
        forall|s: Seq<char>| #[trigger] lists_str(preprocessed(JsonV::Array(xs))->Array_0, s) == lists_str(xs, s),
        collides(preprocessed(JsonV::Array(xs))->Array_0) == collides(xs),
{
    let ys = preprocessed(JsonV::Array(xs))->Array_0;
    lemma_preprocessed_kind(JsonV::Array(xs));
    assert forall|i: int| 0 <= i < xs.len() implies #[trigger] is_str(ys[i]) == is_str(xs[i]) && str_text(ys[i]) == str_text(xs[i]) by {
        lemma_preprocessed_kind(xs[i]);
    }
    assert forall|i: int| #![trigger ys[i]] 0 <= i < xs.len() && is_str(xs[i]) implies ys[i] == xs[i] by {
        lemma_preprocessed_kind(xs[i]);
    }
    assert forall|s: Seq<char>| #[trigger] lists_str(ys, s) == lists_str(xs, s) by {
        if lists_str(xs, s) {
            let i = choose|i: int| 0 <= i < xs.len() && xs[i] == JsonV::Str(s);
            assert(ys[i] == JsonV::Str(s));
        }
        if lists_str(ys, s) {
            let i = choose|i: int| 0 <= i < ys.len() && ys[i] == JsonV::Str(s);
            assert(xs[i] == JsonV::Str(s));
        }
    }
    if collides(xs) {
        let (i, j) = choose|i: int, j: int|
            #![trigger sanitized(str_text(xs[i])), sanitized(str_text(xs[j]))]
            0 <= i < j < xs.len() && (forall|k: int| 0 <= k <= j ==> #[trigger] is_str(xs[k]))
                && sanitized(str_text(xs[i])) == sanitized(str_text(xs[j]));
        assert forall|k: int| 0 <= k <= j implies #[trigger] is_str(ys[k]) by {
            assert(is_str(xs[k]));
        }
        assert(sanitized(str_text(ys[i])) == sanitized(str_text(ys[j])));
    }
    if collides(ys) {
        let (i, j) = choose|i: int, j: int|
            #![trigger sanitized(str_text(ys[i])), sanitized(str_text(ys[j]))]
            0 <= i < j < ys.len() && (forall|k: int| 0 <= k <= j ==> #[trigger] is_str(ys[k]))
                && sanitized(str_text(ys[i])) == sanitized(str_text(ys[j]));
        assert forall|k: int| 0 <= k <= j implies #[trigger] is_str(xs[k]) by {
            assert(is_str(ys[k]));
        }
        assert(sanitized(str_text(xs[i])) == sanitized(str_text(xs[j])));
    }
}

/// Induction behind the two laws below.
proof fn lemma_preprocessed_laws(j: JsonV)
    requires
        well_formed(j),
    ensures
        well_formed(preprocessed(j)),
        all_clean(preprocessed(j)),
    decreases height(j), object_rank(j),
{
    lemma_well_formed_unfold(j);
    lemma_well_formed_unfold(preprocessed(j));
    lemma_all_clean_unfold(preprocessed(j));
    match j {
        JsonV::Array(xs) => {
            lemma_elements_lower(xs);
            let ys = preprocessed(j)->Array_0;
            lemma_preprocessed_kind(j);
            assert forall|i: int|
                #![trigger well_formed(ys[i])]
                #![trigger all_clean(ys[i])]
                0 <= i < ys.len() implies well_formed(ys[i]) && all_clean(ys[i]) by {
                assert(well_formed(xs[i]));
                lemma_preprocessed_laws(xs[i]);
            }
        },
        JsonV::Object(es) => {
            let l = rewrite_members(es);
            lemma_rewrite_members_below(es);
            lemma_rewrite_members_clean(es);
            lemma_rewrite_members_well_formed(es);
            let out = preprocessed(j)->Object_0;
            assert(out.len() == l.len());
            assert forall|i: int| 0 <= i < out.len() implies #[trigger] out[i] == (l[i].0, preprocessed(l[i].1)) by {}
            assert forall|i: int|
                #![trigger well_formed(out[i].1)]
                #![trigger all_clean(out[i].1)]
                0 <= i < out.len() implies well_formed(out[i].1) && all_clean(out[i].1) by {
                assert(stays_below(l[i], height(j)));
                assert(well_formed(l[i].1));
                lemma_preprocessed_laws(l[i].1);
            }
            // names and lookups carry over from `l`
            assert forall|a: int, b: int| 0 <= a < b < out.len() implies #[trigger] out[a].0 != #[trigger] out[b].0 by {
                assert(l[a].0 != l[b].0);
            }
            assert forall|k: Seq<char>| #[trigger] key_index(out, k) == key_index(l, k) by {
                lemma_same_names(out, l, k);
            }
            assert forall|k: Seq<char>| #[trigger] member(out, k) == (match member(l, k) {
                Some(v) => Some(preprocessed(v)),
                None => None,
            }) by {
                lemma_key_index(l, k);
                assert(key_index(out, k) == key_index(l, k));
            }
            lemma_names_differ();
            // `type` arrays listing "null"
            if let Some(JsonV::Array(ts)) = member(l, "type"@) {
                lemma_rewritten_list(ts);
                lemma_preprocessed_kind(JsonV::Array(ts));
            } else if let Some(t) = member(l, "type"@) {
                lemma_preprocessed_kind(t);
            }
            // `additionalProperties`
            if let Some(a) = member(l, "additionalProperties"@) {
                lemma_preprocessed_kind(a);
            }
            // enums
            if let Some(JsonV::Array(vals)) = member(l, "enum"@) {
                lemma_rewritten_list(vals);
                lemma_preprocessed_kind(JsonV::Array(vals));
            } else if let Some(e) = member(l, "enum"@) {
                lemma_preprocessed_kind(e);
            }
            assert(clean_members(out));
        },
        _ => {},
    }
}

/// Rewriting never makes an object repeat a member name.
pub proof fn lemma_rewrite_keeps_names_distinct(j: JsonV)
    requires
        well_formed(j),
    ensures
        well_formed(preprocessed(j)),
{
    lemma_preprocessed_laws(j);
}

/// After rewriting, every object of the document is clean: it has no
/// `const`, lists `"null"` in a `type` array only beside `anyOf` or
/// `oneOf`, has no `additionalProperties: false` beside `allOf`, `oneOf`
/// or `anyOf`, has no string enum whose values collide once reduced to
/// ASCII letters and digits, and has no enum listing `alrmCmonx`.
pub proof fn lemma_rewrite_output_is_clean(j: JsonV)
    requires
        well_formed(j),
    ensures
        all_clean(preprocessed(j)),
{
    lemma_preprocessed_laws(j);
}

/// Whether `c` is an ASCII letter or digit.
fn is_ascii_alnum_char(c: char) -> (r: bool)
    ensures
        r == is_ascii_alnum(c),
{
    ('0' <= c && c <= '9') || ('a' <= c && c <= 'z') || ('A' <= c && c <= 'Z')
}

/// The ASCII letters and digits of `s`, in order.
fn sanitize(s: &str) -> (r: String)
    ensures
        r@ == sanitized(s@),
{
    let cs = chars_of(s);
    let mut out: Vec<char> = Vec::new();
    let mut i: usize = 0;
    while i < cs.len()
        invariant
            i <= cs@.len(),
            cs@ == s@,
            out@ == sanitized(cs@.subrange(0, i as int)),
        decreases cs.len() - i,
    {
        let c = cs[i];
        proof {
            assert(cs@.subrange(0, i + 1).drop_last() =~= cs@.subrange(0, i as int));
            assert(cs@.subrange(0, i + 1).last() == c);
        }
        if is_ascii_alnum_char(c) {
            out.push(c);
        }
        i = i + 1;
    }
    assert(cs@.subrange(0, cs@.len() as int) =~= cs@);
    string_from_chars(&out)
}

/// Some element of `vals` is the string `s`.
fn lists_string(vals: &Vec<Json>, s: &str) -> (r: bool)
    ensures
        r == lists_str(elements_view(vals@), s@),
{
    let ghost ev = elements_view(vals@);
    let mut i: usize = 0;
    while i < vals.len()
        invariant
            i <= vals@.len(),
            ev == elements_view(vals@),
            forall|k: int| 0 <= k < i ==> ev[k] != JsonV::Str(s@),
        decreases vals.len() - i,
    {
        if let Json::Str(t) = &vals[i] {
            if str_eq(t.as_str(), s) {
                assert(ev[i as int] == JsonV::Str(s@));
                return true;
            }
        }
        i = i + 1;
    }
    false
}

/// Whether two values of `vals` sanitize to the same text, both before
/// the first value that is not a string.
fn values_collide(vals: &Vec<Json>) -> (r: bool)
    ensures
        r == collides(elements_view(vals@)),
{
    let ghost ev = elements_view(vals@);
    let mut seen: Vec<String> = Vec::new();
    let mut j: usize = 0;
    while j < vals.len()
        invariant
            j <= vals@.len(),
            ev == elements_view(vals@),
            seen@.len() == j,
            forall|k: int| 0 <= k < j ==> #[trigger] is_str(ev[k]),
            forall|k: int| 0 <= k < j ==> #[trigger] seen@[k]@ == sanitized(str_text(ev[k])),
            forall|a: int, b: int|
                #![trigger sanitized(str_text(ev[a])), sanitized(str_text(ev[b]))]
                0 <= a < b < j ==> sanitized(str_text(ev[a])) != sanitized(str_text(ev[b])),
        decreases vals.len() - j,
    {
        let t = match &vals[j] {
            Json::Str(s) => sanitize(s.as_str()),
            _ => {
                assert(!is_str(ev[j as int]));
                return false;
            },
        };
        assert(t@ == sanitized(str_text(ev[j as int])));
        assert(is_str(ev[j as int]));
        let mut k: usize = 0;
        while k < seen.len()
            invariant
                k <= seen@.len(),
                j < vals@.len(),
                ev == elements_view(vals@),
                seen@.len() == j,
                is_str(ev[j as int]),
                t@ == sanitized(str_text(ev[j as int])),
                forall|m: int| 0 <= m < j ==> #[trigger] is_str(ev[m]),
                forall|m: int| 0 <= m < j ==> #[trigger] seen@[m]@ == sanitized(str_text(ev[m])),
                forall|m: int| 0 <= m < k ==> seen@[m]@ != t@,
            decreases seen.len() - k,
        {
            if str_eq(seen[k].as_str(), t.as_str()) {
                proof {
                    assert(sanitized(str_text(ev[k as int])) == sanitized(str_text(ev[j as int])));
                    assert forall|m: int| 0 <= m <= j implies #[trigger] is_str(ev[m]) by {}
                }
                return true;
            }
            k = k + 1;
        }
        seen.push(t);
        j = j + 1;
        assert forall|k: int| 0 <= k < j implies #[trigger] seen@[k]@ == sanitized(str_text(ev[k])) by {}
        assert forall|a: int, b: int| 0 <= a < b < j implies sanitized(str_text(ev[a])) != sanitized(
            str_text(ev[b]),
        ) by {
            if b == j - 1 {
                assert(seen@[a]@ == sanitized(str_text(ev[a])));
            }
        }
    }
    false
}

/// `{ "type": t }` for every `t` of `ts`, in order.
fn wrap_in_type_members(ts: Vec<Json>) -> (r: Vec<Json>)
    ensures
        elements_view(r@) == elements_view(ts@).map_values(|t: JsonV| type_member(t)),
{
    let ghost tv = elements_view(ts@);
    let ghost n = ts@.len();
    let mut rest = ts;
    let mut out: Vec<Json> = Vec::new();
    while rest.len() > 0
        invariant
            out@.len() + rest@.len() == n,
            tv.len() == n,
            elements_view(rest@) == tv.subrange(out@.len() as int, n as int),
            elements_view(out@) == tv.subrange(0, out@.len() as int).map_values(
                |t: JsonV| type_member(t),
            ),
        decreases rest.len(),
    {
        let ghost before = out@;
        let ghost rest_before = rest@;
        let t = rest.remove(0);
        assert(t@ == tv[before.len() as int]) by {
            assert(elements_view(rest_before)[0] == t@);
        }
        let mut m: Vec<(String, Json)> = Vec::new();
        m.push((to_owned("type"), t));
        proof {
            lemma_object_view(m);
            assert(members_view(m@) =~= seq![("type"@, tv[before.len() as int])]);
        }
        out.push(Json::Object(m));
        assert(elements_view(rest@) =~= tv.subrange(out@.len() as int, n as int)) by {
            assert(elements_view(rest@) =~= elements_view(rest_before).drop_first());
        }
        assert(elements_view(out@) =~= tv.subrange(0, out@.len() as int).map_values(
            |t: JsonV| type_member(t),
        )) by {
            assert(elements_view(out@) =~= elements_view(before).push(
                type_member(tv[before.len() as int]),
            ));
        }
    }
    assert(tv.subrange(0, n as int) =~= tv);
    out
}


/// A value and its view agree on which kind of value it is.
proof fn lemma_view_kind(j: Json)
    ensures
        j is Array <==> j@ is Array,
        j is Object <==> j@ is Object,
        j is Str <==> j@ is Str,
        j matches Json::Str(s) ==> j@ == JsonV::Str(s@),
        j matches Json::Bool(b) ==> j@ == JsonV::Bool(b),
        j@ == JsonV::Bool(false) ==> j matches Json::Bool(false),
{
}

/// `type: [T, .., "null"]` becomes `anyOf: [{ "type": T }, ..]`, unless
/// the object already has `anyOf` or `oneOf`.
fn expand_nullable_type_array(es: &mut Vec<(String, Json)>)
    ensures
        members_view(final(es)@) == expand_nullable(members_view(old(es)@)),
{
    let ghost m0 = members_view(es@);
    let expand = match get_member(es, "type") {
        Some(t) => {
            proof {
                lemma_view_kind(*t);
            }
            match t {
                Json::Array(ts) => {
                    proof {
                        lemma_array_view(*ts);
                    }
                    find_member(es, "anyOf").is_none() && find_member(es, "oneOf").is_none()
                        && lists_string(ts, "null")
                },
                _ => false,
            }
        },
        None => false,
    };
    if !expand {
        return ;
    }
    match remove_member(es, "type") {
        Some(t) => {
            proof {
                lemma_view_kind(t);
            }
            match t {
                Json::Array(ts) => {
                    proof {
                        lemma_array_view(ts);
                    }
                    let variants = wrap_in_type_members(ts);
                    proof {
                        lemma_array_view(variants);
                    }
                    insert_member(es, to_owned("anyOf"), Json::Array(variants));
                },
                _ => {},
            }
        },
        None => {},
    }
}

/// `const: X` becomes `enum: [X]`.
fn const_to_enum_member(es: &mut Vec<(String, Json)>)
    ensures
        members_view(final(es)@) == const_to_enum(members_view(old(es)@)),
{
    let ghost m0 = members_view(es@);
    proof {
        lemma_key_index(m0, "const"@);
    }
    if let Some(c) = remove_member(es, "const") {
        let ghost cv = c@;
        let mut arr: Vec<Json> = Vec::new();
        arr.push(c);
        proof {
            lemma_array_view(arr);
            assert(elements_view(arr@) =~= seq![cv]);
        }
        insert_member(es, to_owned("enum"), Json::Array(arr));
    }
}

/// The reference when `items` is a single object whose one member is a
/// string `$ref`.
fn single_ref_of(items: &Vec<Json>) -> (r: Option<String>)
    ensures
        match r {
            Some(s) => single_ref(elements_view(items@)) == Some(s@),
            None => single_ref(elements_view(items@)) is None,
        },
{
    if items.len() != 1 {
        return None;
    }
    let first = &items[0];
    proof {
        lemma_view_kind(*first);
        assert(elements_view(items@)[0] == first@);
    }
    match first {
        Json::Object(only) => {
            proof {
                lemma_object_view(*only);
            }
            if only.len() != 1 {
                return None;
            }
            match get_member(only, "$ref") {
                Some(v) => {
                    proof {
                        lemma_view_kind(*v);
                    }
                    match v {
                        Json::Str(r) => Some(to_owned(r.as_str())),
                        _ => None,
                    }
                },
                None => None,
            }
        },
        _ => None,
    }
}

/// `allOf: [{ "$ref": R }]` becomes `$ref: R`, and `additionalProperties`
/// goes.
fn flatten_singleton_all_of(es: &mut Vec<(String, Json)>)
    ensures
        members_view(final(es)@) == flatten_all_of(members_view(old(es)@)),
{
    let found = match get_member(es, "allOf") {
        Some(v) => {
            proof {
                lemma_view_kind(*v);
            }
            match v {
                Json::Array(items) => {
                    proof {
                        lemma_array_view(*items);
                    }
                    single_ref_of(items)
                },
                _ => None,
            }
        },
        None => None,
    };
    if let Some(ref_path) = found {
        remove_member(es, "allOf");
        remove_member(es, "additionalProperties");
        insert_member(es, to_owned("$ref"), Json::Str(ref_path));
    }
}

/// `additionalProperties: false` goes when the object has `allOf`,
/// `oneOf` or `anyOf`.
fn strip_additional_properties_alongside_combinators(es: &mut Vec<(String, Json)>)
    ensures
        members_view(final(es)@) == strip_closed_beside_combinator(members_view(old(es)@)),
{
    let combinator = find_member(es, "allOf").is_some() || find_member(es, "oneOf").is_some()
        || find_member(es, "anyOf").is_some();
    if !combinator {
        return ;
    }
    let closed = match get_member(es, "additionalProperties") {
        Some(v) => {
            proof {
                lemma_view_kind(*v);
            }
            match v {
                Json::Bool(b) => !*b,
                _ => false,
            }
        },
        None => false,
    };
    if closed {
        remove_member(es, "additionalProperties");
    }
}

/// A string enum whose values sanitize to the same identifier loses its
/// `enum` (model generation would need two variants of one name).
fn drop_enum_with_collision_prone_variants(es: &mut Vec<(String, Json)>)
    ensures
        members_view(final(es)@) == drop_colliding_enum(members_view(old(es)@)),
{
    let is_string = match get_member(es, "type") {
        Some(v) => {
            proof {
                lemma_view_kind(*v);
            }
            match v {
                Json::Str(t) => str_eq(t.as_str(), "string"),
                _ => false,
            }
        },
        None => false,
    };
    let drop = match get_member(es, "enum") {
        Some(v) => {
            proof {
                lemma_view_kind(*v);
            }
            match v {
                Json::Array(vals) => {
                    proof {
                        lemma_array_view(*vals);
                    }
                    is_string && values_collide(vals)
                },
                _ => false,
            }
        },
        None => false,
    };
    if drop {
        remove_member(es, "enum");
    }
}

/// An enum listing `alrmCmonx` loses its `enum`: some NVRs answer values
/// that the published schema does not list.
fn drop_drifted_audio_detection_enum(es: &mut Vec<(String, Json)>)
    ensures
        members_view(final(es)@) == drop_drifted_enum(members_view(old(es)@)),
{
    let drop = match get_member(es, "enum") {
        Some(v) => {
            proof {
                lemma_view_kind(*v);
            }
            match v {
                Json::Array(vals) => {
                    proof {
                        lemma_array_view(*vals);
                    }
                    lists_string(vals, "alrmCmonx")
                },
                _ => false,
            }
        },
        None => false,
    };
    if drop {
        remove_member(es, "enum");
    }
}

/// Rewrites one object's own members.
fn rewrite_object_members(es: &mut Vec<(String, Json)>)
    ensures
        members_view(final(es)@) == rewrite_members(members_view(old(es)@)),
{
    expand_nullable_type_array(es);
    const_to_enum_member(es);
    flatten_singleton_all_of(es);
    strip_additional_properties_alongside_combinators(es);
    drop_enum_with_collision_prone_variants(es);
    drop_drifted_audio_detection_enum(es);
}


/// Rewrites every object of `j`, outermost first.
fn descend(j: Json) -> (r: Json)
    ensures
        r@ == preprocessed(j@),
    decreases height(j@), object_rank(j@),
{
    let ghost jv = j@;
    match j {
        Json::Object(es) => {
            let ghost m0 = members_view(es@);
            proof {
                lemma_object_view(es);
                lemma_rewrite_members_below(m0);
            }
            let mut es = es;
            rewrite_object_members(&mut es);
            let ghost l = rewrite_members(m0);
            let ghost n = l.len();
            let mut out: Vec<(String, Json)> = Vec::new();
            while es.len() > 0
                invariant
                    jv == j@,
                    jv == JsonV::Object(m0),
                    l == rewrite_members(m0),
                    all_stay_below(l, height(jv)),
                    n == l.len(),
                    out@.len() + es@.len() == n,
                    members_view(es@) == l.subrange(out@.len() as int, n as int),
                    members_view(out@) == Seq::new(
                        out@.len(),
                        |i: int| (l[i].0, preprocessed(l[i].1)),
                    ),
                decreases es.len(),
            {
                let ghost before = out@;
                let ghost rest_before = es@;
                let (k, v) = es.remove(0);
                assert((k@, v@) == l[before.len() as int]) by {
                    assert(members_view(rest_before)[0] == (k@, v@));
                }
                assert(stays_below(l[before.len() as int], height(jv)));
                let d = descend(v);
                let ghost kd = (k@, d@);
                out.push((k, d));
                assert(members_view(out@) =~= members_view(before).push(kd));
                assert(members_view(es@) =~= l.subrange(out@.len() as int, n as int)) by {
                    assert(members_view(es@) =~= members_view(rest_before).drop_first());
                }
                assert(members_view(out@) =~= Seq::new(
                    out@.len(),
                    |i: int| (l[i].0, preprocessed(l[i].1)),
                ));
            }
            proof {
                lemma_object_view(out);
                assert(members_view(out@) =~= preprocessed(jv)->Object_0);
            }
            Json::Object(out)
        },
        Json::Array(xs) => {
            let ghost x0 = elements_view(xs@);
            proof {
                lemma_array_view(xs);
                lemma_elements_lower(x0);
            }
            let ghost n = x0.len();
            let mut rest = xs;
            let mut out: Vec<Json> = Vec::new();
            while rest.len() > 0
                invariant
                    jv == j@,
                    jv == JsonV::Array(x0),
                    forall|i: int| 0 <= i < x0.len() ==> #[trigger] height(x0[i]) < height(jv),
                    n == x0.len(),
                    out@.len() + rest@.len() == n,
                    elements_view(rest@) == x0.subrange(out@.len() as int, n as int),
                    elements_view(out@) == Seq::new(out@.len(), |i: int| preprocessed(x0[i])),
                decreases rest.len(),
            {
                let ghost before = out@;
                let ghost rest_before = rest@;
                let v = rest.remove(0);
                assert(v@ == x0[before.len() as int]) by {
                    assert(elements_view(rest_before)[0] == v@);
                }
                assert(height(x0[before.len() as int]) < height(jv));
                let d = descend(v);
                let ghost dv = d@;
                out.push(d);
                assert(elements_view(out@) =~= elements_view(before).push(dv));
                assert(elements_view(rest@) =~= x0.subrange(out@.len() as int, n as int)) by {
                    assert(elements_view(rest@) =~= elements_view(rest_before).drop_first());
                }
                assert(elements_view(out@) =~= Seq::new(
                    out@.len(),
                    |i: int| preprocessed(x0[i]),
                ));
            }
            proof {
                lemma_array_view(out);
                assert(elements_view(out@) =~= preprocessed(jv)->Array_0);
            }
            Json::Array(out)
        },
        other => other,
    }
}

/// Applies the preprocessing to a whole schema document.
pub fn rewrite(raw: Json) -> (r: Json)
    ensures
        r@ == preprocessed(raw@),
{
    descend(raw)
}

} // verus!
