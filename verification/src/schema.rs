//! Normalization of JSON schemas for OpenAI function calling.
//!
//! OpenAI's function calling has stricter schema requirements than some
//! other providers; `normalize_tool_schema` rewrites a schema into the form
//! it accepts.

use vstd::prelude::*;

use crate::json::{
    clone_map, clone_value, entries_view, json_view, json_wf, lemma_entries_view, obj_get,
    obj_insert, obj_remove, obj_sorted, Json, JsonMap, JsonValue,
};
use crate::text::str_equal;

verus! {

/// Whether a schema object's `type` is a list of types (a union type).
pub open spec fn is_union_type(o: Seq<(Seq<char>, Json)>) -> bool {
    obj_get(o, "type"@) matches Some(Json::Array(_))
}

/// Whether a schema object's `type` is the given type name.
pub open spec fn type_is(o: Seq<(Seq<char>, Json)>, name: Seq<char>) -> bool {
    obj_get(o, "type"@) == Some(Json::Str(name))
}

/// A schema object without `additionalProperties: true` (a `false` stays).
pub open spec fn without_open_additional(o: Seq<(Seq<char>, Json)>) -> Seq<(Seq<char>, Json)> {
    if obj_get(o, "additionalProperties"@) == Some(Json::Bool(true)) {
        obj_remove(o, "additionalProperties"@)
    } else {
        o
    }
}

/// A value reached under a key is smaller than the object holding it.
pub proof fn lemma_obj_get_decreases(o: Seq<(Seq<char>, Json)>, k: Seq<char>)
    ensures
        obj_get(o, k) matches Some(v) ==> decreases_to!(o => v),
    decreases o.len(),
{
    if o.len() > 0 {
        if o[0].0 == k {
            assert(decreases_to!(o => o[0]));
            assert(decreases_to!(o[0] => o[0].1));
        } else {
            lemma_obj_get_decreases(o.drop_first(), k);
            assert(decreases_to!(o => o.drop_first()));
        }
    }
}

/// The normalized form of a schema object:
/// - `additionalProperties: true` is removed (`false` is kept);
/// - a union `type` (a list of types) is removed, and nothing else changes;
/// - an object schema gets empty `properties` when it has none, and each of
///   its properties that is an object is normalized;
/// - an array schema whose `items` is an object has `items` normalized.
pub open spec fn normalize_object(o: Seq<(Seq<char>, Json)>) -> Seq<(Seq<char>, Json)>
    decreases o,
{
    let o1 = without_open_additional(o);
    if is_union_type(o) {
        obj_remove(o1, "type"@)
    } else {
        if type_is(o, "object"@) {
            proof {
                lemma_obj_get_decreases(o, "properties"@);
            }
            match obj_get(o, "properties"@) {
                None => obj_insert(o1, "properties"@, Json::Object(seq![])),
                Some(Json::Object(props)) => obj_insert(
                    o1,
                    "properties"@,
                    Json::Object(normalize_entries(props)),
                ),
                Some(_) => o1,
            }
        } else if type_is(o, "array"@) {
            proof {
                lemma_obj_get_decreases(o, "items"@);
            }
            match obj_get(o, "items"@) {
                Some(Json::Object(it)) => obj_insert(o1, "items"@, Json::Object(normalize_object(it))),
                _ => o1,
            }
        } else {
            o1
        }
    }
}

/// The entries of a `properties` object with each object value normalized.
pub open spec fn normalize_entries(props: Seq<(Seq<char>, Json)>) -> Seq<(Seq<char>, Json)>
    decreases props,
{
    if props.len() == 0 {
        seq![]
    } else {
        normalize_entries(props.drop_last()).push(
            (props.last().0, normalize_or_keep(props.last().1)),
        )
    }
}

/// An object normalized; any other value unchanged.
pub open spec fn normalize_or_keep(v: Json) -> Json
    decreases v,
{
    match v {
        Json::Object(o) => Json::Object(normalize_object(o)),
        _ => v,
    }
}

/// What `normalize_tool_schema` returns: the normalized schema for an
/// object, nothing for any other value.
pub open spec fn normalize_spec(schema: Json) -> Option<Json> {
    match schema {
        Json::Object(o) => Some(Json::Object(normalize_object(o))),
        _ => None,
    }
}


/// Entry `i` of normalized properties is property `i` normalized.
pub proof fn lemma_normalize_entries(props: Seq<(Seq<char>, Json)>)
    ensures
        normalize_entries(props).len() == props.len(),
        forall|i: int|
            0 <= i < props.len() ==> #[trigger] normalize_entries(props)[i] == (
                props[i].0,
                normalize_or_keep(props[i].1),
            ),
    decreases props.len(),
{
    if props.len() > 0 {
        lemma_normalize_entries(props.drop_last());
    }
}

proof fn lemma_obj_get_wf(o: Seq<(Seq<char>, Json)>, k: Seq<char>)
    requires
        json_wf(Json::Object(o)),
    ensures
        obj_get(o, k) matches Some(v) ==> json_wf(v),
{
    if obj_get(o, k) is Some {
        let i = crate::json::lemma_obj_get_index(o, k);
    }
}

/// The keys that normalization looks at are distinct.
pub proof fn lemma_schema_keys_distinct()
    ensures
        "type"@ != "additionalProperties"@,
        "type"@ != "properties"@,
        "type"@ != "items"@,
        "additionalProperties"@ != "properties"@,
        "additionalProperties"@ != "items"@,
        "properties"@ != "items"@,
        "object"@ != "array"@,
{
    reveal_strlit("type");
    reveal_strlit("additionalProperties");
    reveal_strlit("properties");
    reveal_strlit("items");
    assert("type"@.len() == 4);
    assert("additionalProperties"@.len() == 20);
    assert("properties"@.len() == 10);
    assert("items"@.len() == 5);
    reveal_strlit("object");
    reveal_strlit("array");
    assert("object"@.len() == 6 && "array"@.len() == 5);
}

/// Normalizing a well-formed schema object gives a well-formed object.
pub proof fn lemma_normalize_wf(o: Seq<(Seq<char>, Json)>)
    requires
        json_wf(Json::Object(o)),
    ensures
        json_wf(Json::Object(normalize_object(o))),
    decreases o,
{
    let o1 = without_open_additional(o);
    crate::json::lemma_obj_remove_wf(o, "additionalProperties"@);
    assert(json_wf(Json::Object(o1)));
    if is_union_type(o) {
        crate::json::lemma_obj_remove_wf(o1, "type"@);
    } else {
        if type_is(o, "object"@) {
            lemma_obj_get_decreases(o, "properties"@);
            lemma_obj_get_wf(o, "properties"@);
            match obj_get(o, "properties"@) {
                None => {
                    crate::json::lemma_obj_insert_wf(o1, "properties"@, Json::Object(seq![]));
                },
                Some(Json::Object(props)) => {
                    lemma_normalize_entries_wf(props);
                    crate::json::lemma_obj_insert_wf(
                        o1,
                        "properties"@,
                        Json::Object(normalize_entries(props)),
                    );
                },
                Some(_) => {},
            }
        } else if type_is(o, "array"@) {
            lemma_obj_get_decreases(o, "items"@);
            lemma_obj_get_wf(o, "items"@);
            match obj_get(o, "items"@) {
                Some(Json::Object(it)) => {
                    lemma_normalize_wf(it);
                    crate::json::lemma_obj_insert_wf(o1, "items"@, Json::Object(normalize_object(it)));
                },
                _ => {},
            }
        }
    }
}

/// Normalizing the properties of a well-formed object keeps it well formed.
pub proof fn lemma_normalize_entries_wf(props: Seq<(Seq<char>, Json)>)
    requires
        json_wf(Json::Object(props)),
    ensures
        json_wf(Json::Object(normalize_entries(props))),
    decreases props,
{
    lemma_normalize_entries(props);
    let r = normalize_entries(props);
    assert forall|i: int, j: int| 0 <= i < j < r.len() implies crate::json::key_lt(
        #[trigger] r[i].0,
        #[trigger] r[j].0,
    ) by {
        assert(r[i].0 == props[i].0 && r[j].0 == props[j].0);
    }
    assert forall|i: int| 0 <= i < r.len() implies json_wf(#[trigger] r[i].1) by {
        assert(json_wf(props[i].1));
        match props[i].1 {
            Json::Object(x) => {
                assert(decreases_to!(props => props[i]));
                assert(decreases_to!(props[i] => props[i].1));
                lemma_normalize_wf(x);
            },
            _ => {},
        }
    }
}

/// The value under a key after normalizing properties: the normalized form
/// of the property's value.
pub proof fn lemma_normalize_entries_get(props: Seq<(Seq<char>, Json)>, p: Seq<char>)
    ensures
        obj_get(normalize_entries(props), p) == match obj_get(props, p) {
            Some(v) => Some(normalize_or_keep(v)),
            None => None,
        },
    decreases props.len(),
{
    if props.len() > 0 {
        let init = props.drop_last();
        lemma_normalize_entries_get(init, p);
        assert(init.push(props.last()) =~= props);
        crate::json::lemma_obj_get_push(init, props.last(), p);
        crate::json::lemma_obj_get_push(
            normalize_entries(init),
            (props.last().0, normalize_or_keep(props.last().1)),
            p,
        );
    }
}

/// A union type loses its `type`; apart from `additionalProperties: true`,
/// which goes as in every schema, nothing else changes.
pub proof fn law_union_type_dropped(o: Seq<(Seq<char>, Json)>, k: Seq<char>)
    requires
        is_union_type(o),
    ensures
        obj_get(normalize_object(o), "type"@) is None,
        k != "type"@ && k != "additionalProperties"@ ==> obj_get(normalize_object(o), k) == obj_get(
            o,
            k,
        ),
{
    let o1 = without_open_additional(o);
    crate::json::lemma_obj_get_remove(o, "additionalProperties"@, k);
    crate::json::lemma_obj_get_remove(o1, "type"@, "type"@);
    crate::json::lemma_obj_get_remove(o1, "type"@, k);
}

/// `additionalProperties: true` is removed and any other value of it kept.
pub proof fn law_open_additional_properties_removed(o: Seq<(Seq<char>, Json)>)
    ensures
        obj_get(normalize_object(o), "additionalProperties"@) == (if obj_get(
            o,
            "additionalProperties"@,
        ) == Some(Json::Bool(true)) {
            None
        } else {
            obj_get(o, "additionalProperties"@)
        }),
{
    lemma_schema_keys_distinct();
    law_other_keys_kept_or_set(o, "additionalProperties"@);
}

/// An object schema always has `properties` once normalized: empty ones
/// where it had none.
pub proof fn law_object_schema_has_properties(o: Seq<(Seq<char>, Json)>)
    requires
        type_is(o, "object"@),
    ensures
        obj_get(normalize_object(o), "properties"@) is Some,
        obj_get(o, "properties"@) is None ==> obj_get(normalize_object(o), "properties"@) == Some(
            Json::Object(seq![]),
        ),
{
    law_other_keys_kept_or_set(o, "properties"@);
}

/// In an object schema, each property's schema is normalized in turn; other
/// property values are kept.
pub proof fn law_nested_properties_normalized(
    o: Seq<(Seq<char>, Json)>,
    props: Seq<(Seq<char>, Json)>,
    p: Seq<char>,
)
    requires
        type_is(o, "object"@),
        obj_get(o, "properties"@) == Some(Json::Object(props)),
    ensures
        obj_get(normalize_object(o), "properties"@) == Some(Json::Object(normalize_entries(props))),
        obj_get(normalize_entries(props), p) == match obj_get(props, p) {
            Some(v) => Some(normalize_or_keep(v)),
            None => None,
        },
{
    law_other_keys_kept_or_set(o, "properties"@);
    lemma_normalize_entries_get(props, p);
}

/// In an array schema, an object `items` is normalized in turn.
pub proof fn law_array_items_normalized(o: Seq<(Seq<char>, Json)>, it: Seq<(Seq<char>, Json)>)
    requires
        type_is(o, "array"@),
        obj_get(o, "items"@) == Some(Json::Object(it)),
    ensures
        obj_get(normalize_object(o), "items"@) == Some(Json::Object(normalize_object(it))),
{
    lemma_schema_keys_distinct();
    law_other_keys_kept_or_set(o, "items"@);
}

/// Normalization changes no key other than `type`, `additionalProperties`,
/// `properties` and `items`.
pub proof fn law_other_keys_kept(o: Seq<(Seq<char>, Json)>, k: Seq<char>)
    requires
        k != "type"@,
        k != "additionalProperties"@,
        k != "properties"@,
        k != "items"@,
    ensures
        obj_get(normalize_object(o), k) == obj_get(o, k),
{
    lemma_schema_keys_distinct();
    law_other_keys_kept_or_set(o, k);
}

proof fn law_other_keys_kept_or_set(o: Seq<(Seq<char>, Json)>, k: Seq<char>)
    ensures
        obj_get(without_open_additional(o), k) == (if k
            == "additionalProperties"@ && obj_get(o, k) == Some(Json::Bool(true)) {
            None
        } else {
            obj_get(o, k)
        }),
        normalize_object(o) == (if is_union_type(o) {
            obj_remove(without_open_additional(o), "type"@)
        } else if type_is(o, "object"@) {
            match obj_get(o, "properties"@) {
                None => obj_insert(without_open_additional(o), "properties"@, Json::Object(seq![])),
                Some(Json::Object(props)) => obj_insert(
                    without_open_additional(o),
                    "properties"@,
                    Json::Object(normalize_entries(props)),
                ),
                Some(_) => without_open_additional(o),
            }
        } else if type_is(o, "array"@) {
            match obj_get(o, "items"@) {
                Some(Json::Object(it)) => obj_insert(
                    without_open_additional(o),
                    "items"@,
                    Json::Object(normalize_object(it)),
                ),
                _ => without_open_additional(o),
            }
        } else {
            without_open_additional(o)
        }),
        obj_get(normalize_object(o), k) == (if k == "type"@ && is_union_type(o) {
            None
        } else if k == "properties"@ && type_is(
            o,
            "object"@,
        ) {
            match obj_get(o, "properties"@) {
                None => Some(Json::Object(seq![])),
                Some(Json::Object(props)) => Some(Json::Object(normalize_entries(props))),
                Some(v) => Some(v),
            }
        } else if k == "items"@ && type_is(o, "array"@) {
            match obj_get(o, "items"@) {
                Some(Json::Object(it)) => Some(Json::Object(normalize_object(it))),
                other => other,
            }
        } else if k == "additionalProperties"@ && obj_get(o, k) == Some(Json::Bool(true)) {
            None
        } else {
            obj_get(o, k)
        }),
{
    lemma_schema_keys_distinct();
    let ap = "additionalProperties"@;
    let o1 = without_open_additional(o);
    crate::json::lemma_obj_get_remove(o, ap, k);
    crate::json::lemma_obj_get_remove(o1, "type"@, k);
    crate::json::lemma_obj_get_remove(o, ap, "properties"@);
    crate::json::lemma_obj_get_remove(o, ap, "items"@);
    crate::json::lemma_obj_get_insert(o1, "properties"@, Json::Object(seq![]), k);
    match obj_get(o, "properties"@) {
        Some(Json::Object(props)) => {
            crate::json::lemma_obj_get_insert(
                o1,
                "properties"@,
                Json::Object(normalize_entries(props)),
                k,
            );
        },
        _ => {},
    }
    match obj_get(o, "items"@) {
        Some(Json::Object(it)) => {
            crate::json::lemma_obj_get_insert(o1, "items"@, Json::Object(normalize_object(it)), k);
        },
        _ => {},
    }
    reveal_strlit("object");
    reveal_strlit("array");
    assert("object"@.len() == 6 && "array"@.len() == 5);
    assert("object"@ != "array"@);
}

/// Normalizing a well-formed schema a second time changes nothing.
pub proof fn law_normalize_idempotent(o: Seq<(Seq<char>, Json)>)
    requires
        json_wf(Json::Object(o)),
    ensures
        normalize_object(normalize_object(o)) == normalize_object(o),
    decreases o,
{
    lemma_schema_keys_distinct();
    let n = normalize_object(o);
    lemma_normalize_wf(o);
    let ap = "additionalProperties"@;
    law_other_keys_kept_or_set(o, "type"@);
    law_other_keys_kept_or_set(o, ap);
    law_other_keys_kept_or_set(o, "properties"@);
    law_other_keys_kept_or_set(o, "items"@);
    law_other_keys_kept_or_set(n, "type"@);
    assert(obj_get(n, ap) != Some(Json::Bool(true)));
    assert(without_open_additional(n) == n);
    assert(!is_union_type(n));
    if !is_union_type(o) {
        assert(type_is(n, "object"@) == type_is(o, "object"@));
        assert(type_is(n, "array"@) == type_is(o, "array"@));
        if type_is(o, "object"@) {
            lemma_obj_get_decreases(o, "properties"@);
            lemma_obj_get_wf(o, "properties"@);
            match obj_get(o, "properties"@) {
                None => {
                    assert(normalize_entries(seq![]) =~= seq![]);
                    crate::json::lemma_obj_insert_same(n, "properties"@, Json::Object(seq![]));
                },
                Some(Json::Object(props)) => {
                    lemma_normalize_entries_idempotent(props);
                    crate::json::lemma_obj_insert_same(
                        n,
                        "properties"@,
                        Json::Object(normalize_entries(props)),
                    );
                },
                Some(_) => {},
            }
        } else if type_is(o, "array"@) {
            lemma_obj_get_decreases(o, "items"@);
            lemma_obj_get_wf(o, "items"@);
            match obj_get(o, "items"@) {
                Some(Json::Object(it)) => {
                    law_normalize_idempotent(it);
                    crate::json::lemma_obj_insert_same(
                        n,
                        "items"@,
                        Json::Object(normalize_object(it)),
                    );
                },
                _ => {},
            }
        }
    }
}

/// Normalizing well-formed properties a second time changes nothing.
pub proof fn lemma_normalize_entries_idempotent(props: Seq<(Seq<char>, Json)>)
    requires
        json_wf(Json::Object(props)),
    ensures
        normalize_entries(normalize_entries(props)) == normalize_entries(props),
    decreases props,
{
    let ne = normalize_entries(props);
    lemma_normalize_entries(props);
    lemma_normalize_entries(ne);
    assert forall|i: int| 0 <= i < ne.len() implies #[trigger] normalize_entries(ne)[i] == ne[i] by {
        assert(json_wf(props[i].1));
        match props[i].1 {
            Json::Object(x) => {
                assert(decreases_to!(props => props[i]));
                assert(decreases_to!(props[i] => props[i].1));
                law_normalize_idempotent(x);
            },
            _ => {},
        }
    }
    assert(normalize_entries(ne) =~= ne);
}

/// Normalizes a tool schema for OpenAI function calling:
/// - object schemas must have `properties`: empty ones are added where
///   missing;
/// - `additionalProperties: true` is removed (`false` is kept);
/// - a union type such as `{"type": ["string", "boolean"]}` loses its `type`;
/// - nested object schemas under `properties`, and `items` of array schemas,
///   are normalized in turn.
///
/// Returns `None` when the input is not a JSON object.
pub fn normalize_tool_schema(schema: &JsonValue) -> (r: Option<JsonValue>)
    requires
        json_wf(schema@),
    ensures
        match r {
            Some(v) => normalize_spec(schema@) == Some(v@),
            None => normalize_spec(schema@) is None,
        },
        r matches Some(v) ==> json_wf(v@),
    decreases schema,
{
    match schema {
        JsonValue::Object(m) => {
            proof {
                lemma_normalize_wf(m@);
            }
            let n = normalize_map(m);
            Some(JsonValue::Object(n))
        },
        _ => None,
    }
}

fn normalize_map(obj: &JsonMap) -> (r: JsonMap)
    requires
        json_wf(Json::Object(obj@)),
    ensures
        r@ == normalize_object(obj@),
    decreases obj,
{
    proof {
        lemma_schema_keys_distinct();
        lemma_entries_view(obj.entries@);
    }
    let ghost o = obj@;
    let mut result = clone_map(obj);
    let union = match result.get("type") {
        Some(JsonValue::Array(_)) => true,
        _ => false,
    };
    let open = match result.get("additionalProperties") {
        Some(JsonValue::Bool(b)) => *b,
        _ => false,
    };
    if open {
        result.remove("additionalProperties");
    }
    proof {
        assert(result@ == without_open_additional(o));
        crate::json::lemma_obj_get_remove(o, "additionalProperties"@, "type"@);
        crate::json::lemma_obj_remove_wf(o, "additionalProperties"@);
    }
    if union {
        result.remove("type");
        return result;
    }
    let is_object = match result.get("type") {
        Some(JsonValue::String(t)) => str_equal(t.as_str(), "object"),
        _ => false,
    };
    let is_array = match result.get("type") {
        Some(JsonValue::String(t)) => str_equal(t.as_str(), "array"),
        _ => false,
    };
    proof {
        assert(is_object == type_is(o, "object"@));
        assert(is_array == type_is(o, "array"@));
    }
    if is_object {
        match obj.index_of("properties") {
            None => {
                result.insert(String::from_str("properties"), JsonValue::Object(JsonMap::new()));
            },
            Some(pi) => {
                match &obj.entries[pi].1 {
                    JsonValue::Object(props) => {
                        proof {
                            lemma_obj_get_wf(o, "properties"@);
                        }
                        let np = normalize_props(props);
                        result.insert(String::from_str("properties"), JsonValue::Object(np));
                    },
                    _ => {},
                }
            },
        }
    } else if is_array {
        match obj.index_of("items") {
            Some(ii) => {
                match &obj.entries[ii].1 {
                    JsonValue::Object(it) => {
                        proof {
                            lemma_obj_get_wf(o, "items"@);
                        }
                        let n = normalize_map(it);
                        result.insert(String::from_str("items"), JsonValue::Object(n));
                    },
                    _ => {},
                }
            },
            None => {},
        }
    }
    result
}

fn normalize_props(props: &JsonMap) -> (r: JsonMap)
    requires
        json_wf(Json::Object(props@)),
    ensures
        r@ == normalize_entries(props@),
    decreases props,
{
    proof {
        lemma_entries_view(props.entries@);
    }
    let mut out: Vec<(String, JsonValue)> = Vec::new();
    let n = props.entries.len();
    let mut i: usize = 0;
    while i < n
        invariant
            i <= n,
            n == props.entries@.len(),
            n == props@.len(),
            json_wf(Json::Object(props@)),
            forall|j: int| 0 <= j < n ==> #[trigger] props@[j] == (
                props.entries@[j].0@,
                json_view(props.entries@[j].1),
            ),
            entries_view(out@) == normalize_entries(props@.take(i as int)),
        decreases n - i,
    {
        proof {
            vstd::std_specs::vec::axiom_vec_index_decreases(props.entries, i as int);
            assert(json_wf(props@[i as int].1));
        }
        let value = match normalize_tool_schema(&props.entries[i].1) {
            Some(v) => v,
            None => clone_value(&props.entries[i].1),
        };
        assert(value@ == normalize_or_keep(props@[i as int].1));
        let ghost before = out@;
        out.push((props.entries[i].0.clone(), value));
        proof {
            assert(out@.drop_last() =~= before);
            assert(props@.take(i + 1).drop_last() =~= props@.take(i as int));
            assert(props@.take(i + 1).last() == props@[i as int]);
            assert(entries_view(out@) == entries_view(before).push(
                (out@.last().0@, json_view(out@.last().1)),
            ));
            assert(normalize_entries(props@.take(i + 1)) == normalize_entries(
                props@.take(i as int),
            ).push((props@[i as int].0, normalize_or_keep(props@[i as int].1))));
        }
        i = i + 1;
    }
    assert(props@.take(n as int) =~= props@);
    JsonMap { entries: out }
}

} // verus!
