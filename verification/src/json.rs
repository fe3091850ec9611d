//! JSON values with objects whose keys are kept in ascending order, and
//! their mathematical model.

use vstd::prelude::*;
use vstd::string::StrSliceExecFns;

verus! {

/// A JSON number: a non-negative integer, a negative integer, or a
/// floating-point value held by its IEEE-754 bit pattern.
#[derive(Debug, Clone, Copy, PartialEq, Eq)]
pub enum JsonNumber {
    PosInt(u64),
    NegInt(i64),
    FloatBits(u64),
}

/// A JSON value.
#[derive(Debug)]
pub enum JsonValue {
    Null,
    Bool(bool),
    Number(JsonNumber),
    String(String),
    Array(Vec<JsonValue>),
    Object(JsonMap),
}

/// A JSON object: its entries, with keys in strictly ascending order.
#[derive(Debug)]
pub struct JsonMap {
    pub entries: Vec<(String, JsonValue)>,
}

/// The mathematical model of a JSON value.
pub enum Json {
    Null,
    Bool(bool),
    Number(JsonNumber),
    Str(Seq<char>),
    Array(Seq<Json>),
    Object(Seq<(Seq<char>, Json)>),
}

/// The model of a JSON value.
pub open spec fn json_view(v: JsonValue) -> Json
    decreases v,
{
    match v {
        JsonValue::Null => Json::Null,
        JsonValue::Bool(b) => Json::Bool(b),
        JsonValue::Number(n) => Json::Number(n),
        JsonValue::String(s) => Json::Str(s@),
        JsonValue::Array(items) => Json::Array(items_view(items@)),
        JsonValue::Object(m) => Json::Object(entries_view(m.entries@)),
    }
}

/// The models of a sequence of JSON values.
pub open spec fn items_view(items: Seq<JsonValue>) -> Seq<Json>
    decreases items,
{
    if items.len() == 0 {
        seq![]
    } else {
        items_view(items.drop_last()).push(json_view(items.last()))
    }
}

/// The models of the entries of an object.
pub open spec fn entries_view(entries: Seq<(String, JsonValue)>) -> Seq<(Seq<char>, Json)>
    decreases entries,
{
    if entries.len() == 0 {
        seq![]
    } else {
        entries_view(entries.drop_last()).push(
            (entries.last().0@, json_view(entries.last().1)),
        )
    }
}

impl View for JsonValue {
    type V = Json;

    open spec fn view(&self) -> Json {
        json_view(*self)
    }
}

impl View for JsonMap {
    type V = Seq<(Seq<char>, Json)>;

    open spec fn view(&self) -> Seq<(Seq<char>, Json)> {
        entries_view(self.entries@)
    }
}


/// Strict order of object keys: by character code, a proper prefix first
/// (the order of `String` keys in `serde_json`'s default map).
pub open spec fn key_lt(a: Seq<char>, b: Seq<char>) -> bool
    decreases a.len(),
{
    if b.len() == 0 {
        false
    } else if a.len() == 0 {
        true
    } else if a[0] != b[0] {
        (a[0] as u32) < (b[0] as u32)
    } else {
        key_lt(a.drop_first(), b.drop_first())
    }
}

/// No key is before itself.
pub proof fn lemma_key_lt_irreflexive(a: Seq<char>)
    ensures
        !key_lt(a, a),
    decreases a.len(),
{
    if a.len() > 0 {
        lemma_key_lt_irreflexive(a.drop_first());
    }
}

/// Of two keys, at most one is before the other.
pub proof fn lemma_key_lt_asymmetric(a: Seq<char>, b: Seq<char>)
    requires
        key_lt(a, b),
    ensures
        !key_lt(b, a),
    decreases a.len(),
{
    if a.len() > 0 && b.len() > 0 && a[0] == b[0] {
        lemma_key_lt_asymmetric(a.drop_first(), b.drop_first());
    }
}

/// The key order is transitive.
pub proof fn lemma_key_lt_transitive(a: Seq<char>, b: Seq<char>, c: Seq<char>)
    requires
        key_lt(a, b),
        key_lt(b, c),
    ensures
        key_lt(a, c),
    decreases a.len(),
{
    if a.len() > 0 && b.len() > 0 && c.len() > 0 && a[0] == b[0] && b[0] == c[0] {
        lemma_key_lt_transitive(a.drop_first(), b.drop_first(), c.drop_first());
    }
}

/// Of two different keys, one is before the other.
pub proof fn lemma_key_lt_total(a: Seq<char>, b: Seq<char>)
    ensures
        a == b || key_lt(a, b) || key_lt(b, a),
    decreases a.len(),
{
    if a.len() > 0 && b.len() > 0 && a[0] == b[0] {
        lemma_key_lt_total(a.drop_first(), b.drop_first());
        if a.drop_first() == b.drop_first() {
            assert(a =~= seq![a[0]] + a.drop_first());
            assert(b =~= seq![b[0]] + b.drop_first());
        }
    } else if a.len() == 0 && b.len() == 0 {
        assert(a =~= b);
    } else if a.len() > 0 && b.len() > 0 {
        let x = a[0] as u32;
        let y = b[0] as u32;
        vstd::utf8::char_u32_cast(a[0], x);
        vstd::utf8::char_u32_cast(b[0], y);
        assert(x != y);
    }
}

proof fn lemma_key_lt_skip(a: Seq<char>, b: Seq<char>, i: int)
    requires
        0 <= i < a.len(),
        i < b.len(),
        a[i] == b[i],
    ensures
        key_lt(a.skip(i), b.skip(i)) == key_lt(a.skip(i + 1), b.skip(i + 1)),
{
    assert(a.skip(i).drop_first() =~= a.skip(i + 1));
    assert(b.skip(i).drop_first() =~= b.skip(i + 1));
}

/// How one key stands to another.
#[derive(Debug, Clone, Copy, PartialEq, Eq)]
pub enum KeyOrder {
    Before,
    Same,
    After,
}

/// Orders two keys by `key_lt`.
pub fn key_order(a: &str, b: &str) -> (r: KeyOrder)
    ensures
        (r == KeyOrder::Before) == key_lt(a@, b@),
        (r == KeyOrder::Same) == (a@ == b@),
        (r == KeyOrder::After) == key_lt(b@, a@),
{
    let n = a.unicode_len();
    let m = b.unicode_len();
    let mut i: usize = 0;
    proof {
        assert(a@.skip(0) =~= a@);
        assert(b@.skip(0) =~= b@);
    }
    while i < n && i < m
        invariant
            i <= n,
            i <= m,
            n == a@.len(),
            m == b@.len(),
            forall|j: int| 0 <= j < i ==> a@[j] == b@[j],
            key_lt(a@, b@) == key_lt(a@.skip(i as int), b@.skip(i as int)),
            key_lt(b@, a@) == key_lt(b@.skip(i as int), a@.skip(i as int)),
        decreases n - i,
    {
        let ca = a.get_char(i);
        let cb = b.get_char(i);
        if ca != cb {
            proof {
                assert(a@.skip(i as int)[0] == ca);
                assert(b@.skip(i as int)[0] == cb);
                assert(a@ != b@);
            }
            if (ca as u32) < (cb as u32) {
                return KeyOrder::Before;
            } else {
                return KeyOrder::After;
            }
        }
        proof {
            lemma_key_lt_skip(a@, b@, i as int);
            lemma_key_lt_skip(b@, a@, i as int);
        }
        i = i + 1;
    }
    if n == m {
        assert(a@ =~= b@);
        proof {
            lemma_key_lt_irreflexive(a@);
        }
        KeyOrder::Same
    } else if n < m {
        assert(a@.skip(i as int).len() == 0);
        assert(a@ != b@);
        KeyOrder::Before
    } else {
        assert(b@.skip(i as int).len() == 0);
        assert(a@ != b@);
        KeyOrder::After
    }
}


/// Whether the keys of an object's entries are in strictly ascending order.
pub open spec fn obj_sorted(s: Seq<(Seq<char>, Json)>) -> bool {
    forall|i: int, j: int| 0 <= i < j < s.len() ==> key_lt(#[trigger] s[i].0, #[trigger] s[j].0)
}

/// Whether a JSON model is well formed: every object's keys are in strictly
/// ascending order, at every depth.
pub open spec fn json_wf(j: Json) -> bool
    decreases j,
{
    match j {
        Json::Array(items) => forall|i: int| 0 <= i < items.len() ==> json_wf(#[trigger] items[i]),
        Json::Object(s) => obj_sorted(s) && forall|i: int|
            0 <= i < s.len() ==> json_wf(#[trigger] s[i].1),
        _ => true,
    }
}

/// The value an object holds under a key.
pub open spec fn obj_get(s: Seq<(Seq<char>, Json)>, k: Seq<char>) -> Option<Json>
    decreases s.len(),
{
    if s.len() == 0 {
        None
    } else if s[0].0 == k {
        Some(s[0].1)
    } else {
        obj_get(s.drop_first(), k)
    }
}

/// An object without the entry of a key.
pub open spec fn obj_remove(s: Seq<(Seq<char>, Json)>, k: Seq<char>) -> Seq<(Seq<char>, Json)>
    decreases s.len(),
{
    if s.len() == 0 {
        s
    } else if s[0].0 == k {
        obj_remove(s.drop_first(), k)
    } else {
        seq![s[0]] + obj_remove(s.drop_first(), k)
    }
}

/// An object with the value of a key set: the entry is replaced in place, or
/// added before the first greater key.
pub open spec fn obj_insert(s: Seq<(Seq<char>, Json)>, k: Seq<char>, v: Json) -> Seq<
    (Seq<char>, Json),
>
    decreases s.len(),
{
    if s.len() == 0 {
        seq![(k, v)]
    } else if s[0].0 == k {
        seq![(k, v)] + s.drop_first()
    } else if key_lt(k, s[0].0) {
        seq![(k, v)] + s
    } else {
        seq![s[0]] + obj_insert(s.drop_first(), k, v)
    }
}

/// Entry `i` of the model of entries is the model of entry `i`.
pub proof fn lemma_entries_view(e: Seq<(String, JsonValue)>)
    ensures
        entries_view(e).len() == e.len(),
        forall|i: int|
            0 <= i < e.len() ==> #[trigger] entries_view(e)[i] == (e[i].0@, json_view(e[i].1)),
    decreases e.len(),
{
    if e.len() > 0 {
        lemma_entries_view(e.drop_last());
    }
}

/// Item `i` of the models of items is the model of item `i`.
pub proof fn lemma_items_view(e: Seq<JsonValue>)
    ensures
        items_view(e).len() == e.len(),
        forall|i: int| 0 <= i < e.len() ==> #[trigger] items_view(e)[i] == json_view(e[i]),
    decreases e.len(),
{
    if e.len() > 0 {
        lemma_items_view(e.drop_last());
    }
}

proof fn lemma_sorted_drop_first(s: Seq<(Seq<char>, Json)>)
    requires
        obj_sorted(s),
        s.len() > 0,
    ensures
        obj_sorted(s.drop_first()),
        forall|i: int| 0 < i < s.len() ==> key_lt(s[0].0, #[trigger] s[i].0),
{
    assert forall|i: int, j: int| 0 <= i < j < s.drop_first().len() implies key_lt(
        #[trigger] s.drop_first()[i].0,
        #[trigger] s.drop_first()[j].0,
    ) by {
        assert(s.drop_first()[i] == s[i + 1]);
        assert(s.drop_first()[j] == s[j + 1]);
    }
}

/// In a sorted object, the value under the key of entry `i` is that entry's.
pub proof fn lemma_obj_get_at(s: Seq<(Seq<char>, Json)>, i: int)
    requires
        obj_sorted(s),
        0 <= i < s.len(),
    ensures
        obj_get(s, s[i].0) == Some(s[i].1),
    decreases i,
{
    if i > 0 {
        lemma_sorted_drop_first(s);
        lemma_key_lt_irreflexive(s[i].0);
        assert(s[0].0 != s[i].0);
        assert(s.drop_first()[i - 1] == s[i]);
        lemma_obj_get_at(s.drop_first(), i - 1);
    }
}

/// An object has no value under a key that no entry carries.
pub proof fn lemma_obj_get_absent(s: Seq<(Seq<char>, Json)>, k: Seq<char>)
    requires
        forall|i: int| 0 <= i < s.len() ==> #[trigger] s[i].0 != k,
    ensures
        obj_get(s, k).is_none(),
        obj_remove(s, k) == s,
    decreases s.len(),
{
    if s.len() > 0 {
        assert forall|i: int| 0 <= i < s.drop_first().len() implies #[trigger] s.drop_first()[i].0
            != k by {
            assert(s.drop_first()[i] == s[i + 1]);
        }
        lemma_obj_get_absent(s.drop_first(), k);
        assert(s =~= seq![s[0]] + s.drop_first());
    }
}

/// The value under a key after appending an entry: the earlier value if
/// there is one, else the new entry's value if it carries the key.
pub proof fn lemma_obj_get_push(s: Seq<(Seq<char>, Json)>, e: (Seq<char>, Json), k: Seq<char>)
    ensures
        obj_get(s.push(e), k) == (if obj_get(s, k) is Some {
            obj_get(s, k)
        } else if e.0 == k {
            Some(e.1)
        } else {
            None
        }),
    decreases s.len(),
{
    if s.len() > 0 {
        assert(s.push(e).drop_first() =~= s.drop_first().push(e));
        lemma_obj_get_push(s.drop_first(), e, k);
    } else {
        assert(s.push(e).drop_first() =~= s);
    }
}

/// In a sorted object, no entry before the last carries the last key.
pub proof fn lemma_obj_get_last_absent(s: Seq<(Seq<char>, Json)>)
    requires
        obj_sorted(s),
        s.len() > 0,
    ensures
        obj_get(s.drop_last(), s.last().0) is None,
{
    if obj_get(s.drop_last(), s.last().0) is Some {
        let i = lemma_obj_get_index(s.drop_last(), s.last().0);
        assert(s.drop_last()[i] == s[i]);
        assert(key_lt(s[i].0, s[s.len() - 1].0));
        lemma_key_lt_irreflexive(s.last().0);
    }
}

/// Setting a key of a sorted object to the value it already holds leaves
/// the object unchanged.
pub proof fn lemma_obj_insert_same(s: Seq<(Seq<char>, Json)>, k: Seq<char>, v: Json)
    requires
        obj_sorted(s),
        obj_get(s, k) == Some(v),
    ensures
        obj_insert(s, k, v) == s,
    decreases s.len(),
{
    if s[0].0 == k {
        assert(seq![(k, v)] + s.drop_first() =~= s);
    } else {
        let i = lemma_obj_get_index(s.drop_first(), k);
        assert(s.drop_first()[i] == s[i + 1]);
        assert(key_lt(s[0].0, s[i + 1].0));
        lemma_key_lt_asymmetric(s[0].0, k);
        lemma_sorted_drop_first(s);
        lemma_obj_insert_same(s.drop_first(), k, v);
        assert(seq![s[0]] + s.drop_first() =~= s);
    }
}

/// Removing a key that an object does not hold leaves it unchanged.
pub proof fn lemma_obj_remove_absent(s: Seq<(Seq<char>, Json)>, k: Seq<char>)
    requires
        obj_get(s, k) is None,
    ensures
        obj_remove(s, k) == s,
    decreases s.len(),
{
    if s.len() > 0 {
        lemma_obj_remove_absent(s.drop_first(), k);
        assert(s =~= seq![s[0]] + s.drop_first());
    }
}

/// Inserting at the position where a key belongs.
pub proof fn lemma_obj_insert_at(s: Seq<(Seq<char>, Json)>, p: int, k: Seq<char>, v: Json)
    requires
        obj_sorted(s),
        0 <= p <= s.len(),
        forall|i: int| 0 <= i < p ==> key_lt(#[trigger] s[i].0, k),
        p < s.len() ==> (s[p].0 == k || key_lt(k, s[p].0)),
    ensures
        obj_insert(s, k, v) == (if p < s.len() && s[p].0 == k {
            s.take(p).push((k, v)) + s.skip(p + 1)
        } else {
            s.take(p).push((k, v)) + s.skip(p)
        }),
        obj_sorted(obj_insert(s, k, v)),
    decreases p,
{
    let r = if p < s.len() && s[p].0 == k {
        s.take(p).push((k, v)) + s.skip(p + 1)
    } else {
        s.take(p).push((k, v)) + s.skip(p)
    };
    if p == 0 {
        if s.len() == 0 {
            assert(r =~= seq![(k, v)]);
        } else if s[0].0 == k {
            assert(r =~= seq![(k, v)] + s.drop_first());
        } else {
            assert(r =~= seq![(k, v)] + s);
        }
    } else {
        lemma_sorted_drop_first(s);
        assert(key_lt(s[0].0, k));
        lemma_key_lt_irreflexive(k);
        lemma_key_lt_asymmetric(s[0].0, k);
        let t = s.drop_first();
        assert forall|i: int| 0 <= i < p - 1 implies key_lt(#[trigger] t[i].0, k) by {
            assert(t[i] == s[i + 1]);
        }
        lemma_obj_insert_at(t, p - 1, k, v);
        if p < s.len() && s[p].0 == k {
            assert(r =~= seq![s[0]] + (t.take(p - 1).push((k, v)) + t.skip(p)));
        } else {
            assert(r =~= seq![s[0]] + (t.take(p - 1).push((k, v)) + t.skip(p - 1)));
        }
    }
    // sortedness of the result
    assert forall|i: int, j: int| 0 <= i < j < r.len() implies key_lt(
        #[trigger] r[i].0,
        #[trigger] r[j].0,
    ) by {
        let q = if p < s.len() && s[p].0 == k {
            p + 1
        } else {
            p
        };
        // r = s[0..p) ++ [(k, v)] ++ s[q..)
        if j < p {
            assert(r[i] == s[i] && r[j] == s[j]);
        } else if j == p {
            assert(r[i] == s[i]);
        } else {
            assert(r[j] == s[j - p - 1 + q]);
            if i < p {
                assert(r[i] == s[i]);
                if q == p {
                    assert(key_lt(k, s[p].0));
                    if j - 1 > p {
                        lemma_key_lt_transitive(k, s[p].0, s[j - 1].0);
                    }
                    lemma_key_lt_transitive(s[i].0, k, s[j - 1].0);
                } else {
                    lemma_key_lt_transitive(s[i].0, s[p].0, s[j - p - 1 + q].0);
                }
            } else if i == p {
                if q == p {
                    if j - 1 > p {
                        lemma_key_lt_transitive(k, s[p].0, s[j - 1].0);
                    }
                } else {
                    assert(s[p].0 == k);
                }
            } else {
                assert(r[i] == s[i - p - 1 + q]);
            }
        }
    }
}

/// Removing the key of entry `p`.
pub proof fn lemma_obj_remove_at(s: Seq<(Seq<char>, Json)>, p: int)
    requires
        obj_sorted(s),
        0 <= p < s.len(),
    ensures
        obj_remove(s, s[p].0) == s.take(p) + s.skip(p + 1),
        obj_sorted(s.take(p) + s.skip(p + 1)),
    decreases p,
{
    let k = s[p].0;
    lemma_sorted_drop_first(s);
    let t = s.drop_first();
    if p == 0 {
        assert forall|i: int| 0 <= i < t.len() implies #[trigger] t[i].0 != k by {
            assert(t[i] == s[i + 1]);
            lemma_key_lt_irreflexive(k);
        }
        lemma_obj_get_absent(t, k);
        assert(s.take(0) + s.skip(1) =~= t);
    } else {
        lemma_key_lt_irreflexive(k);
        assert(s[0].0 != k);
        assert(t[p - 1] == s[p]);
        lemma_obj_remove_at(t, p - 1);
        assert(s.take(p) + s.skip(p + 1) =~= seq![s[0]] + (t.take(p - 1) + t.skip(p)));
    }
    let r = s.take(p) + s.skip(p + 1);
    assert forall|i: int, j: int| 0 <= i < j < r.len() implies key_lt(
        #[trigger] r[i].0,
        #[trigger] r[j].0,
    ) by {
        let a = if i < p {
            i
        } else {
            i + 1
        };
        let b = if j < p {
            j
        } else {
            j + 1
        };
        assert(r[i] == s[a]);
        assert(r[j] == s[b]);
    }
}



/// The index of the entry that gives an object's value under a key.
pub proof fn lemma_obj_get_index(s: Seq<(Seq<char>, Json)>, k: Seq<char>) -> (i: int)
    requires
        obj_get(s, k) is Some,
    ensures
        0 <= i < s.len(),
        s[i].0 == k,
        obj_get(s, k) == Some(s[i].1),
    decreases s.len(),
{
    if s[0].0 == k {
        0
    } else {
        let j = lemma_obj_get_index(s.drop_first(), k);
        j + 1
    }
}

/// Removing one key leaves the values under other keys as they were.
pub proof fn lemma_obj_get_remove(s: Seq<(Seq<char>, Json)>, k: Seq<char>, k2: Seq<char>)
    ensures
        obj_get(obj_remove(s, k), k2) == (if k2 == k {
            None
        } else {
            obj_get(s, k2)
        }),
    decreases s.len(),
{
    if s.len() > 0 {
        lemma_obj_get_remove(s.drop_first(), k, k2);
        if s[0].0 != k {
            let r = seq![s[0]] + obj_remove(s.drop_first(), k);
            assert(r.drop_first() =~= obj_remove(s.drop_first(), k));
        }
    }
}

/// After setting a key, it holds the new value and other keys are unchanged.
pub proof fn lemma_obj_get_insert(s: Seq<(Seq<char>, Json)>, k: Seq<char>, v: Json, k2: Seq<char>)
    ensures
        obj_get(obj_insert(s, k, v), k2) == (if k2 == k {
            Some(v)
        } else {
            obj_get(s, k2)
        }),
    decreases s.len(),
{
    if s.len() == 0 {
        assert(seq![(k, v)].drop_first() =~= s);
    } else {
        if s[0].0 == k {
            assert((seq![(k, v)] + s.drop_first()).drop_first() =~= s.drop_first());
        } else if key_lt(k, s[0].0) {
            assert((seq![(k, v)] + s).drop_first() =~= s);
        } else {
            lemma_obj_get_insert(s.drop_first(), k, v, k2);
            assert((seq![s[0]] + obj_insert(s.drop_first(), k, v)).drop_first() =~= obj_insert(
                s.drop_first(),
                k,
                v,
            ));
        }
    }
}

/// The position at which a key belongs in a sorted object.
pub proof fn lemma_insert_position(s: Seq<(Seq<char>, Json)>, k: Seq<char>) -> (p: int)
    requires
        obj_sorted(s),
    ensures
        0 <= p <= s.len(),
        forall|i: int| 0 <= i < p ==> key_lt(#[trigger] s[i].0, k),
        p < s.len() ==> (s[p].0 == k || key_lt(k, s[p].0)),
    decreases s.len(),
{
    if s.len() == 0 {
        0
    } else if !key_lt(s[0].0, k) {
        lemma_key_lt_total(s[0].0, k);
        0
    } else {
        lemma_sorted_drop_first(s);
        let q = lemma_insert_position(s.drop_first(), k);
        assert forall|i: int| 0 <= i < q + 1 implies key_lt(#[trigger] s[i].0, k) by {
            if i > 0 {
                assert(s[i] == s.drop_first()[i - 1]);
            }
        }
        if q + 1 < s.len() {
            assert(s[q + 1] == s.drop_first()[q]);
        }
        q + 1
    }
}

/// Setting a key in a well-formed object to a well-formed value gives a
/// well-formed object.
pub proof fn lemma_obj_insert_wf(s: Seq<(Seq<char>, Json)>, k: Seq<char>, v: Json)
    requires
        json_wf(Json::Object(s)),
        json_wf(v),
    ensures
        json_wf(Json::Object(obj_insert(s, k, v))),
{
    let p = lemma_insert_position(s, k);
    lemma_obj_insert_at(s, p, k, v);
    let r = obj_insert(s, k, v);
    let q = if p < s.len() && s[p].0 == k {
        p + 1
    } else {
        p
    };
    assert forall|i: int| 0 <= i < r.len() implies json_wf(#[trigger] r[i].1) by {
        if i < p {
            assert(r[i] == s[i]);
        } else if i > p {
            assert(r[i] == s[i - p - 1 + q]);
        }
    }
}

/// Removing a key from a well-formed object gives a well-formed object.
pub proof fn lemma_obj_remove_wf(s: Seq<(Seq<char>, Json)>, k: Seq<char>)
    requires
        json_wf(Json::Object(s)),
    ensures
        json_wf(Json::Object(obj_remove(s, k))),
{
    if obj_get(s, k) is Some {
        let p = lemma_obj_get_index(s, k);
        lemma_obj_remove_at(s, p);
        let r = obj_remove(s, k);
        assert forall|i: int| 0 <= i < r.len() implies json_wf(#[trigger] r[i].1) by {
            if i < p {
                assert(r[i] == s[i]);
            } else {
                assert(r[i] == s[i + 1]);
            }
        }
    } else {
        assert forall|i: int| 0 <= i < s.len() implies #[trigger] s[i].0 != k by {
            if s[i].0 == k {
                lemma_obj_get_at(s, i);
            }
        }
        lemma_obj_get_absent(s, k);
    }
}

impl JsonMap {
    /// An empty object.
    pub fn new() -> (m: JsonMap)
        ensures
            m@ == Seq::<(Seq<char>, Json)>::empty(),
    {
        JsonMap { entries: Vec::new() }
    }

    /// The number of entries.
    pub fn len(&self) -> (n: usize)
        ensures
            n == self@.len(),
    {
        proof {
            lemma_entries_view(self.entries@);
        }
        self.entries.len()
    }

    /// The position of the first entry whose key is not before `key`, and
    /// whether that entry carries `key` itself.
    fn position(&self, key: &str) -> (r: (usize, bool))
        requires
            obj_sorted(self@),
        ensures
            r.0 <= self@.len(),
            forall|i: int| 0 <= i < r.0 ==> key_lt(#[trigger] self@[i].0, key@),
            r.1 == (r.0 < self@.len() && self@[r.0 as int].0 == key@),
            r.0 < self@.len() ==> (self@[r.0 as int].0 == key@ || key_lt(key@, self@[r.0 as int].0)),
    {
        proof {
            lemma_entries_view(self.entries@);
        }
        let n = self.entries.len();
        let mut i: usize = 0;
        while i < n
            invariant
                i <= n,
                n == self@.len(),
                n == self.entries@.len(),
                forall|j: int| 0 <= j < self.entries@.len() ==> #[trigger] self@[j] == (
                    self.entries@[j].0@,
                    json_view(self.entries@[j].1),
                ),
                forall|j: int| 0 <= j < i ==> key_lt(#[trigger] self@[j].0, key@),
            decreases n - i,
        {
            match key_order(self.entries[i].0.as_str(), key) {
                KeyOrder::Before => {
                    i = i + 1;
                },
                KeyOrder::Same => {
                    return (i, true);
                },
                KeyOrder::After => {
                    proof {
                        lemma_key_lt_irreflexive(key@);
                    }
                    return (i, false);
                },
            }
        }
        (i, false)
    }

    /// The index of the entry that carries `key`, if any.
    pub fn index_of(&self, key: &str) -> (r: Option<usize>)
        requires
            obj_sorted(self@),
        ensures
            r matches Some(i) ==> i < self@.len() && self@[i as int].0 == key@ && obj_get(self@, key@)
                == Some(self@[i as int].1),
            r is None ==> obj_get(self@, key@) is None,
    {
        let (i, found) = self.position(key);
        if found {
            proof {
                lemma_obj_get_at(self@, i as int);
            }
            Some(i)
        } else {
            proof {
                assert forall|j: int| 0 <= j < self@.len() implies #[trigger] self@[j].0 != key@ by {
                    lemma_key_lt_irreflexive(key@);
                    if j >= i && j > i {
                        lemma_key_lt_transitive(key@, self@[i as int].0, self@[j].0);
                    }
                }
                lemma_obj_get_absent(self@, key@);
            }
            None
        }
    }

    /// The value under `key`, if any.
    pub fn get(&self, key: &str) -> (r: Option<&JsonValue>)
        requires
            obj_sorted(self@),
        ensures
            r matches Some(v) ==> obj_get(self@, key@) == Some(v@),
            r is None ==> obj_get(self@, key@) is None,
    {
        proof {
            lemma_entries_view(self.entries@);
        }
        match self.index_of(key) {
            Some(i) => Some(&self.entries[i].1),
            None => None,
        }
    }

    /// Whether some entry carries `key`.
    pub fn contains_key(&self, key: &str) -> (r: bool)
        requires
            obj_sorted(self@),
        ensures
            r == obj_get(self@, key@) is Some,
    {
        self.index_of(key).is_some()
    }

    /// Sets the value under `key`, returning the value it replaces.
    pub fn insert(&mut self, key: String, value: JsonValue) -> (r: Option<JsonValue>)
        requires
            obj_sorted(old(self)@),
        ensures
            final(self)@ == obj_insert(old(self)@, key@, value@),
            obj_sorted(final(self)@),
            r matches Some(v) ==> obj_get(old(self)@, key@) == Some(v@),
            r is None ==> obj_get(old(self)@, key@) is None,
    {
        let ghost before = self@;
        let (i, found) = self.position(key.as_str());
        proof {
            lemma_entries_view(self.entries@);
            lemma_obj_insert_at(before, i as int, key@, value@);
        }
        let ghost value_view = value@;
        let ghost key_view = key@;
        if found {
            proof {
                lemma_obj_get_at(before, i as int);
            }
            let (_, previous) = self.entries.remove(i);
            self.entries.insert(i, (key, value));
            proof {
                lemma_entries_view(self.entries@);
                assert(self@ =~= before.take(i as int).push((key_view, value_view)) + before.skip(
                    i + 1,
                ));
            }
            Some(previous)
        } else {
            proof {
                assert forall|j: int| 0 <= j < before.len() implies #[trigger] before[j].0
                    != key_view by {
                    lemma_key_lt_irreflexive(key_view);
                    if j > i {
                        lemma_key_lt_transitive(key_view, before[i as int].0, before[j].0);
                    }
                }
                lemma_obj_get_absent(before, key_view);
            }
            self.entries.insert(i, (key, value));
            proof {
                lemma_entries_view(self.entries@);
                assert(self@ =~= before.take(i as int).push((key_view, value_view)) + before.skip(
                    i as int,
                ));
            }
            None
        }
    }

    /// Removes the entry of `key`, returning its value.
    pub fn remove(&mut self, key: &str) -> (r: Option<JsonValue>)
        requires
            obj_sorted(old(self)@),
        ensures
            final(self)@ == obj_remove(old(self)@, key@),
            obj_sorted(final(self)@),
            r matches Some(v) ==> obj_get(old(self)@, key@) == Some(v@),
            r is None ==> obj_get(old(self)@, key@) is None,
    {
        let ghost before = self@;
        match self.index_of(key) {
            Some(i) => {
                proof {
                    lemma_entries_view(self.entries@);
                    lemma_obj_remove_at(before, i as int);
                }
                let (_, previous) = self.entries.remove(i);
                proof {
                    lemma_entries_view(self.entries@);
                    assert(self@ =~= before.take(i as int) + before.skip(i + 1));
                }
                Some(previous)
            },
            None => {
                proof {
                    assert forall|j: int| 0 <= j < before.len() implies #[trigger] before[j].0
                        != key@ by {
                        if before[j].0 == key@ {
                            lemma_obj_get_at(before, j);
                        }
                    }
                    lemma_obj_get_absent(before, key@);
                }
                None
            },
        }
    }
}

/// A copy of a JSON value.
pub fn clone_value(v: &JsonValue) -> (r: JsonValue)
    ensures
        r@ == v@,
    decreases v,
{
    match v {
        JsonValue::Null => JsonValue::Null,
        JsonValue::Bool(b) => JsonValue::Bool(*b),
        JsonValue::Number(n) => JsonValue::Number(*n),
        JsonValue::String(s) => JsonValue::String(s.clone()),
        JsonValue::Array(items) => JsonValue::Array(clone_items(items)),
        JsonValue::Object(m) => JsonValue::Object(clone_map(m)),
    }
}

/// A copy of a sequence of JSON values.
pub fn clone_items(items: &Vec<JsonValue>) -> (r: Vec<JsonValue>)
    ensures
        items_view(r@) == items_view(items@),
    decreases items,
{
    let mut out: Vec<JsonValue> = Vec::new();
    let n = items.len();
    let mut i: usize = 0;
    while i < n
        invariant
            i <= n,
            n == items@.len(),
            out@.len() == i,
            forall|j: int| 0 <= j < i ==> #[trigger] json_view(out@[j]) == json_view(items@[j]),
        decreases n - i,
    {
        proof {
            vstd::std_specs::vec::axiom_vec_index_decreases(*items, i as int);
        }
        let c = clone_value(&items[i]);
        out.push(c);
        i = i + 1;
    }
    proof {
        lemma_items_view(out@);
        lemma_items_view(items@);
        assert(items_view(out@) =~= items_view(items@));
    }
    out
}

/// A copy of a JSON object.
pub fn clone_map(m: &JsonMap) -> (r: JsonMap)
    ensures
        r@ == m@,
    decreases m,
{
    let mut out: Vec<(String, JsonValue)> = Vec::new();
    let n = m.entries.len();
    let mut i: usize = 0;
    while i < n
        invariant
            i <= n,
            n == m.entries@.len(),
            out@.len() == i,
            forall|j: int|
                0 <= j < i ==> (#[trigger] out@[j]).0@ == m.entries@[j].0@ && json_view(out@[j].1)
                    == json_view(m.entries@[j].1),
        decreases n - i,
    {
        proof {
            vstd::std_specs::vec::axiom_vec_index_decreases(m.entries, i as int);
        }
        let c = clone_value(&m.entries[i].1);
        out.push((m.entries[i].0.clone(), c));
        i = i + 1;
    }
    proof {
        lemma_entries_view(out@);
        lemma_entries_view(m.entries@);
        assert(entries_view(out@) =~= entries_view(m.entries@));
    }
    JsonMap { entries: out }
}

impl Clone for JsonValue {
    fn clone(&self) -> (r: Self)
        ensures
            r@ == self@,
    {
        clone_value(self)
    }
}

impl Clone for JsonMap {
    fn clone(&self) -> (r: Self)
        ensures
            r@ == self@,
    {
        clone_map(self)
    }
}

} // verus!
