use ferro_protect::json::Json;
use ferro_protect::spec_rewrite::rewrite;

fn s(v: &str) -> Json {
    Json::Str(v.to_string())
}

fn arr(items: Vec<Json>) -> Json {
    Json::Array(items)
}

fn obj(members: Vec<(&str, Json)>) -> Json {
    Json::Object(members.into_iter().map(|(k, v)| (k.to_string(), v)).collect())
}

/// Compact JSON text with members sorted by name, so results compare
/// independently of member order.
fn render(j: &Json) -> String {
    match j {
        Json::Null => "null".to_string(),
        Json::Bool(b) => b.to_string(),
        Json::Number(n) => n.clone(),
        Json::Str(t) => format!("{t:?}"),
        Json::Array(xs) => format!("[{}]", xs.iter().map(render).collect::<Vec<_>>().join(",")),
        Json::Object(es) => {
            let mut parts: Vec<String> = es.iter().map(|(k, v)| format!("{k:?}:{}", render(v))).collect();
            parts.sort();
            format!("{{{}}}", parts.join(","))
        }
    }
}

fn rewritten(j: Json) -> String {
    render(&rewrite(j))
}

#[test]
fn const_becomes_single_value_enum() {
    let out = rewritten(obj(vec![("type", s("string")), ("const", s("fixed"))]));
    assert_eq!(out, r#"{"enum":["fixed"],"type":"string"}"#);
}

#[test]
fn nullable_type_array_becomes_any_of() {
    let out = rewritten(obj(vec![("type", arr(vec![s("string"), s("null")]))]));
    assert_eq!(out, r#"{"anyOf":[{"type":"string"},{"type":"null"}]}"#);
}

#[test]
fn type_array_without_null_is_kept() {
    let out = rewritten(obj(vec![("type", arr(vec![s("string"), s("integer")]))]));
    assert_eq!(out, r#"{"type":["string","integer"]}"#);
}

#[test]
fn nullable_type_beside_existing_combinator_is_kept() {
    let out = rewritten(obj(vec![
        ("type", arr(vec![s("string"), s("null")])),
        ("oneOf", arr(vec![])),
    ]));
    assert_eq!(out, r#"{"oneOf":[],"type":["string","null"]}"#);
}

#[test]
fn singleton_all_of_ref_collapses() {
    let out = rewritten(obj(vec![
        ("allOf", arr(vec![obj(vec![("$ref", s("#/components/schemas/Camera"))])])),
        ("additionalProperties", Json::Bool(false)),
        ("description", s("the camera")),
    ]));
    assert_eq!(out, r##"{"$ref":"#/components/schemas/Camera","description":"the camera"}"##);
}

#[test]
fn all_of_with_two_items_is_kept_but_closed_flag_goes() {
    let out = rewritten(obj(vec![
        ("allOf", arr(vec![obj(vec![("$ref", s("#/a"))]), obj(vec![("$ref", s("#/b"))])])),
        ("additionalProperties", Json::Bool(false)),
    ]));
    assert_eq!(out, r##"{"allOf":[{"$ref":"#/a"},{"$ref":"#/b"}]}"##);
}

#[test]
fn closed_flag_without_combinator_is_kept() {
    let out = rewritten(obj(vec![("additionalProperties", Json::Bool(false))]));
    assert_eq!(out, r#"{"additionalProperties":false}"#);
    let out = rewritten(obj(vec![
        ("anyOf", arr(vec![])),
        ("additionalProperties", Json::Bool(true)),
    ]));
    assert_eq!(out, r#"{"additionalProperties":true,"anyOf":[]}"#);
}

#[test]
fn collision_prone_string_enum_is_dropped() {
    let out = rewritten(obj(vec![
        ("type", s("string")),
        ("enum", arr(vec![s("+"), s("-"), s("nc"), s("no"), s("com")])),
    ]));
    assert_eq!(out, r#"{"type":"string"}"#);
}

#[test]
fn distinct_string_enum_is_kept() {
    let out = rewritten(obj(vec![
        ("type", s("string")),
        ("enum", arr(vec![s("high"), s("medium"), s("low")])),
    ]));
    assert_eq!(out, r#"{"enum":["high","medium","low"],"type":"string"}"#);
}

#[test]
fn collision_after_a_non_string_value_is_not_seen() {
    let out = rewritten(obj(vec![
        ("type", s("string")),
        ("enum", arr(vec![s("a"), Json::Null, s("a!"), s("a")])),
    ]));
    assert_eq!(out, r#"{"enum":["a",null,"a!","a"],"type":"string"}"#);
}

#[test]
fn colliding_enum_on_non_string_type_is_kept() {
    let out = rewritten(obj(vec![("enum", arr(vec![s("+"), s("-")]))]));
    assert_eq!(out, r#"{"enum":["+","-"]}"#);
}

#[test]
fn drifted_audio_detection_enum_is_dropped() {
    let out = rewritten(obj(vec![
        ("type", s("string")),
        ("enum", arr(vec![s("alrmSmoke"), s("alrmCmonx")])),
    ]));
    assert_eq!(out, r#"{"type":"string"}"#);
}

#[test]
fn nested_schemas_are_rewritten_and_scalars_pass_through() {
    let doc = obj(vec![(
        "components",
        obj(vec![(
            "schemas",
            obj(vec![(
                "Light",
                obj(vec![
                    ("type", s("object")),
                    (
                        "properties",
                        obj(vec![
                            ("mode", obj(vec![("const", s("always"))])),
                            ("level", obj(vec![("type", arr(vec![s("integer"), s("null")]))])),
                        ]),
                    ),
                ]),
            )]),
        )]),
    )]);
    assert_eq!(
        rewritten(doc),
        r#"{"components":{"schemas":{"Light":{"properties":{"level":{"anyOf":[{"type":"integer"},{"type":"null"}]},"mode":{"enum":["always"]}},"type":"object"}}}}"#
    );
    assert_eq!(rewritten(Json::Number("6.2".to_string())), "6.2");
    assert_eq!(rewritten(Json::Null), "null");
    assert_eq!(rewritten(arr(vec![obj(vec![("const", Json::Bool(true))])])), r#"[{"enum":[true]}]"#);
}

#[test]
fn const_object_value_is_rewritten_inside_the_new_enum() {
    let out = rewritten(obj(vec![("const", obj(vec![("const", s("x"))]))]));
    assert_eq!(out, r#"{"enum":[{"enum":["x"]}]}"#);
}

#[test]
fn nested_type_arrays_expand_inside_any_of() {
    let out = rewritten(obj(vec![(
        "type",
        arr(vec![arr(vec![s("string"), s("null")]), s("null")]),
    )]));
    assert_eq!(out, r#"{"anyOf":[{"anyOf":[{"type":"string"},{"type":"null"}]},{"type":"null"}]}"#);
}

#[test]
fn inner_all_of_collapsing_can_leave_an_outer_singleton() {
    let out = rewritten(obj(vec![(
        "allOf",
        arr(vec![obj(vec![("allOf", arr(vec![obj(vec![("$ref", s("#/x"))])]))])]),
    )]));
    assert_eq!(out, r##"{"allOf":[{"$ref":"#/x"}]}"##);
}
