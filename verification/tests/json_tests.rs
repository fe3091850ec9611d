use openai_oxide::json::{JsonMap, JsonNumber, JsonValue};
use openai_oxide::openrouter::{inject_provider, ProviderPreferences};
use openai_oxide::request_options::{deep_merge_value, merge_json, RequestOptions};
use openai_oxide::schema::normalize_tool_schema;

fn s(x: &str) -> JsonValue {
    JsonValue::String(x.to_string())
}

fn num(n: i64) -> JsonValue {
    if n >= 0 {
        JsonValue::Number(JsonNumber::PosInt(n as u64))
    } else {
        JsonValue::Number(JsonNumber::NegInt(n))
    }
}

fn arr(items: Vec<JsonValue>) -> JsonValue {
    JsonValue::Array(items)
}

fn obj(entries: Vec<(&str, JsonValue)>) -> JsonValue {
    let mut m = JsonMap::new();
    for (k, v) in entries {
        m.insert(k.to_string(), v);
    }
    JsonValue::Object(m)
}

fn get<'a>(v: &'a JsonValue, key: &str) -> Option<&'a JsonValue> {
    match v {
        JsonValue::Object(m) => m.get(key),
        _ => None,
    }
}

fn at<'a>(v: &'a JsonValue, path: &[&str]) -> &'a JsonValue {
    let mut cur = v;
    for k in path {
        cur = get(cur, k).unwrap_or_else(|| panic!("missing key {k}"));
    }
    cur
}

fn json_eq(a: &JsonValue, b: &JsonValue) -> bool {
    match (a, b) {
        (JsonValue::Null, JsonValue::Null) => true,
        (JsonValue::Bool(x), JsonValue::Bool(y)) => x == y,
        (JsonValue::Number(x), JsonValue::Number(y)) => x == y,
        (JsonValue::String(x), JsonValue::String(y)) => x == y,
        (JsonValue::Array(x), JsonValue::Array(y)) => {
            x.len() == y.len() && x.iter().zip(y.iter()).all(|(p, q)| json_eq(p, q))
        }
        (JsonValue::Object(x), JsonValue::Object(y)) => {
            x.entries.len() == y.entries.len()
                && x.entries.iter().zip(y.entries.iter()).all(|(p, q)| p.0 == q.0 && json_eq(&p.1, &q.1))
        }
        _ => false,
    }
}

// ── OpenRouter provider preferences ──

#[test]
fn test_pinned_provider() {
    let prefs = ProviderPreferences::pinned("anthropic");
    let v = prefs.to_value().unwrap();
    assert!(json_eq(at(&v, &["only"]), &arr(vec![s("anthropic")])));
    assert!(json_eq(at(&v, &["allow_fallbacks"]), &JsonValue::Bool(false)));
    assert!(json_eq(at(&v, &["require_parameters"]), &JsonValue::Bool(true)));
    assert!(get(&v, "order").is_none());
}

#[test]
fn test_prefer_providers() {
    let prefs = ProviderPreferences::prefer(&["together", "openai"]);
    let v = prefs.to_value().unwrap();
    assert!(json_eq(at(&v, &["order"]), &arr(vec![s("together"), s("openai")])));
    assert!(get(&v, "only").is_none());
}

#[test]
fn test_inject_provider() {
    let mut body = obj(vec![
        ("model", s("anthropic/sonnet-4-6")),
        ("messages", arr(vec![obj(vec![("role", s("user")), ("content", s("hi"))])])),
    ]);
    inject_provider(&mut body, &ProviderPreferences::pinned("anthropic")).unwrap();
    assert!(json_eq(at(&body, &["provider", "only"]), &arr(vec![s("anthropic")])));
    assert!(json_eq(at(&body, &["provider", "allow_fallbacks"]), &JsonValue::Bool(false)));
    // fields already in the body are kept
    assert!(json_eq(at(&body, &["model"]), &s("anthropic/sonnet-4-6")));
}

#[test]
fn test_fast_sort() {
    let prefs = ProviderPreferences::fast();
    let v = prefs.to_value().unwrap();
    assert!(json_eq(at(&v, &["sort"]), &s("throughput")));
}

#[test]
fn cheap_sorts_by_price() {
    let v = ProviderPreferences::cheap().to_value().unwrap();
    assert!(json_eq(at(&v, &["sort"]), &s("price")));
    assert!(get(&v, "only").is_none());
}

#[test]
fn inject_provider_leaves_non_object_body() {
    let mut body = s("not an object");
    inject_provider(&mut body, &ProviderPreferences::fast()).unwrap();
    assert!(json_eq(&body, &s("not an object")));
}

// ── Schema normalization ──

#[test]
fn normalizes_schema_missing_properties() {
    let schema = obj(vec![("type", s("object")), ("additionalProperties", JsonValue::Bool(true))]);
    let result = normalize_tool_schema(&schema).unwrap();
    assert!(json_eq(&result, &obj(vec![("type", s("object")), ("properties", obj(vec![]))])));
}

#[test]
fn normalizes_union_type() {
    let schema = obj(vec![
        ("type", s("object")),
        (
            "properties",
            obj(vec![("value", obj(vec![("type", arr(vec![s("string"), s("boolean"), s("number")]))]))]),
        ),
    ]);
    let result = normalize_tool_schema(&schema).unwrap();
    // The union type property should have `type` removed
    let value_prop = at(&result, &["properties", "value"]);
    assert!(get(value_prop, "type").is_none());
}

#[test]
fn preserves_valid_schema() {
    let schema = obj(vec![
        ("type", s("object")),
        (
            "properties",
            obj(vec![
                ("name", obj(vec![("type", s("string"))])),
                ("age", obj(vec![("type", s("integer"))])),
            ]),
        ),
        ("required", arr(vec![s("name"), s("age")])),
    ]);
    let result = normalize_tool_schema(&schema).unwrap();
    assert!(json_eq(&result, &schema));
}

#[test]
fn normalizes_nested_objects() {
    let schema = obj(vec![
        ("type", s("object")),
        (
            "properties",
            obj(vec![(
                "address",
                obj(vec![("type", s("object")), ("additionalProperties", JsonValue::Bool(true))]),
            )]),
        ),
    ]);
    let result = normalize_tool_schema(&schema).unwrap();
    let address = at(&result, &["properties", "address"]);
    // Nested object should have properties added and additionalProperties removed
    assert!(json_eq(address, &obj(vec![("type", s("object")), ("properties", obj(vec![]))])));
}

#[test]
fn returns_none_for_non_object() {
    assert!(normalize_tool_schema(&s("string")).is_none());
    assert!(normalize_tool_schema(&num(42)).is_none());
    assert!(normalize_tool_schema(&JsonValue::Null).is_none());
    assert!(normalize_tool_schema(&JsonValue::Bool(true)).is_none());
}

#[test]
fn preserves_additional_properties_false() {
    let schema = obj(vec![
        ("type", s("object")),
        ("properties", obj(vec![("x", obj(vec![("type", s("string"))]))])),
        ("additionalProperties", JsonValue::Bool(false)),
    ]);
    let result = normalize_tool_schema(&schema).unwrap();
    assert!(json_eq(at(&result, &["additionalProperties"]), &JsonValue::Bool(false)));
}

#[test]
fn normalizes_array_items() {
    let schema = obj(vec![
        ("type", s("object")),
        (
            "properties",
            obj(vec![(
                "tags",
                obj(vec![
                    ("type", s("array")),
                    ("items", obj(vec![("type", s("object")), ("additionalProperties", JsonValue::Bool(true))])),
                ]),
            )]),
        ),
    ]);
    let result = normalize_tool_schema(&schema).unwrap();
    let items = at(&result, &["properties", "tags", "items"]);
    assert!(json_eq(items, &obj(vec![("type", s("object")), ("properties", obj(vec![]))])));
}

#[test]
fn union_type_drops_open_additional_properties() {
    let schema = obj(vec![
        ("type", arr(vec![s("string"), s("null")])),
        ("additionalProperties", JsonValue::Bool(true)),
        ("description", s("maybe a name")),
    ]);
    let result = normalize_tool_schema(&schema).unwrap();
    assert!(json_eq(&result, &obj(vec![("description", s("maybe a name"))])));
}

#[test]
fn normalizing_twice_changes_nothing() {
    let schema = obj(vec![
        ("type", s("object")),
        ("additionalProperties", JsonValue::Bool(true)),
        (
            "properties",
            obj(vec![
                ("u", obj(vec![("type", arr(vec![s("string"), s("null")])), ("additionalProperties", JsonValue::Bool(true))])),
                ("tags", obj(vec![("type", s("array")), ("items", obj(vec![("type", s("object"))]))])),
                ("n", num(3)),
            ]),
        ),
    ]);
    let once = normalize_tool_schema(&schema).unwrap();
    let twice = normalize_tool_schema(&once).unwrap();
    assert!(json_eq(&once, &twice));
}

#[test]
fn object_schema_keeps_non_object_properties() {
    let schema = obj(vec![("type", s("object")), ("properties", num(5))]);
    let result = normalize_tool_schema(&schema).unwrap();
    assert!(json_eq(&result, &schema));
}

#[test]
fn other_keys_are_kept() {
    let schema = obj(vec![("type", s("string")), ("description", s("a name")), ("additionalProperties", JsonValue::Bool(true))]);
    let result = normalize_tool_schema(&schema).unwrap();
    assert!(json_eq(&result, &obj(vec![("type", s("string")), ("description", s("a name"))])));
}

// ── JSON merging ──

#[test]
fn test_extra_body_builder() {
    let opts = RequestOptions::new().extra_body(obj(vec![("key", s("val"))]));
    assert!(json_eq(&opts.extra_body.unwrap(), &obj(vec![("key", s("val"))])));
}

#[test]
fn test_deep_merge_json() {
    let a = obj(vec![("x", num(1)), ("nested", obj(vec![("a", num(1)), ("b", num(2))]))]);
    let b = obj(vec![("y", num(2)), ("nested", obj(vec![("b", num(99)), ("c", num(3))]))]);
    let merged = deep_merge_value(a, b);
    assert!(json_eq(at(&merged, &["x"]), &num(1)));
    assert!(json_eq(at(&merged, &["y"]), &num(2)));
    assert!(json_eq(at(&merged, &["nested", "a"]), &num(1)));
    assert!(json_eq(at(&merged, &["nested", "b"]), &num(99)));
    assert!(json_eq(at(&merged, &["nested", "c"]), &num(3)));
}

#[test]
fn deep_merge_non_object_wins() {
    let a = obj(vec![("x", num(1))]);
    let merged = deep_merge_value(a, num(7));
    assert!(json_eq(&merged, &num(7)));
    let merged = deep_merge_value(s("text"), obj(vec![("x", num(1))]));
    assert!(json_eq(&merged, &obj(vec![("x", num(1))])));
}

#[test]
fn deep_merge_object_over_scalar_field() {
    let a = obj(vec![("k", num(1))]);
    let b = obj(vec![("k", obj(vec![("inner", JsonValue::Bool(true))]))]);
    let merged = deep_merge_value(a, b);
    assert!(json_eq(&merged, &obj(vec![("k", obj(vec![("inner", JsonValue::Bool(true))]))])));
}

#[test]
fn merge_json_one_side_missing() {
    let a = Some(obj(vec![("x", num(1))]));
    assert!(json_eq(&merge_json(&a, &None).unwrap(), &obj(vec![("x", num(1))])));
    assert!(json_eq(&merge_json(&None, &a).unwrap(), &obj(vec![("x", num(1))])));
    assert!(merge_json(&None, &None).is_none());
}

#[test]
fn json_map_keeps_keys_sorted() {
    let mut m = JsonMap::new();
    assert!(m.insert("b".to_string(), num(2)).is_none());
    assert!(m.insert("a".to_string(), num(1)).is_none());
    assert!(m.insert("ab".to_string(), num(3)).is_none());
    let keys: Vec<&str> = m.entries.iter().map(|e| e.0.as_str()).collect();
    assert_eq!(keys, vec!["a", "ab", "b"]);
    let old = m.insert("a".to_string(), num(10)).unwrap();
    assert!(json_eq(&old, &num(1)));
    assert!(json_eq(m.get("a").unwrap(), &num(10)));
    assert!(m.contains_key("ab"));
    assert!(json_eq(&m.remove("ab").unwrap(), &num(3)));
    assert!(!m.contains_key("ab"));
    assert_eq!(m.len(), 2);
}
