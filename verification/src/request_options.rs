//! Per-request options: extra headers, query parameters, JSON body fields
//! and a timeout, and how two sets of options combine.

use vstd::prelude::*;
use vstd::utf8::encode_utf8;

use std::time::Duration;

use reqwest::header::HeaderMap;

use crate::headers::{
    has_header_room, header_entries, header_map_clone, header_map_insert, header_map_new, header_map_pairs,
    lower_name, no_headers, valid_header_name, valid_header_value,
};
use crate::json::{
    clone_value, entries_view, json_view, json_wf, lemma_entries_view, lemma_obj_insert_wf,
    lemma_obj_remove_wf, obj_get, obj_insert, obj_remove, Json, JsonMap, JsonValue,
};
use crate::resources::containers::query_view;

verus! {

/// Options that customize individual API requests.
#[derive(Debug, Clone)]
pub struct RequestOptions {
    /// Extra headers to include in the request.
    pub headers: Option<HeaderMap>,
    /// Extra query parameters to append to the URL.
    pub query: Option<Vec<(String, String)>>,
    /// Extra JSON fields to merge into the request body (JSON requests only).
    pub extra_body: Option<JsonValue>,
    /// Override of the request timeout.
    pub timeout: Option<Duration>,
}

/// Whether options set nothing.
pub open spec fn options_empty(o: RequestOptions) -> bool {
    o.headers is None && o.query is None && o.extra_body is None && o.timeout is None
}

/// The headers of an optional header map.
pub open spec fn opt_headers(h: Option<HeaderMap>) -> Option<Map<Seq<char>, Seq<Seq<u8>>>> {
    match h {
        Some(m) => Some(header_entries(m)),
        None => None,
    }
}

/// Header maps merged: every header of either, `b`'s last value winning for
/// a name both hold.
pub open spec fn merged_header_entries(
    a: Map<Seq<char>, Seq<Seq<u8>>>,
    b: Map<Seq<char>, Seq<Seq<u8>>>,
) -> Map<Seq<char>, Seq<Seq<u8>>> {
    Map::new(
        |k: Seq<char>| a.contains_key(k) || b.contains_key(k),
        |k: Seq<char>|
            if b.contains_key(k) {
                seq![b[k].last()]
            } else {
                a[k]
            },
    )
}

/// A header map after inserting name/value pairs in order.
pub open spec fn insert_pairs(
    m: Map<Seq<char>, Seq<Seq<u8>>>,
    ps: Seq<(Seq<char>, Seq<u8>)>,
) -> Map<Seq<char>, Seq<Seq<u8>>>
    decreases ps.len(),
{
    if ps.len() == 0 {
        m
    } else {
        insert_pairs(m, ps.drop_last()).insert(ps.last().0, seq![ps.last().1])
    }
}

proof fn lemma_insert_pairs_absent(
    m: Map<Seq<char>, Seq<Seq<u8>>>,
    ps: Seq<(Seq<char>, Seq<u8>)>,
    k: Seq<char>,
)
    requires
        forall|j: int| 0 <= j < ps.len() ==> (#[trigger] ps[j]).0 != k,
    ensures
        insert_pairs(m, ps).contains_key(k) == m.contains_key(k),
        m.contains_key(k) ==> insert_pairs(m, ps)[k] == m[k],
    decreases ps.len(),
{
    if ps.len() > 0 {
        assert(ps.last() == ps[ps.len() - 1]);
        lemma_insert_pairs_absent(m, ps.drop_last(), k);
    }
}

proof fn lemma_insert_pairs_last(
    m: Map<Seq<char>, Seq<Seq<u8>>>,
    ps: Seq<(Seq<char>, Seq<u8>)>,
    i: int,
)
    requires
        0 <= i < ps.len(),
        forall|j: int| i < j < ps.len() ==> (#[trigger] ps[j]).0 != ps[i].0,
    ensures
        insert_pairs(m, ps).contains_key(ps[i].0),
        insert_pairs(m, ps)[ps[i].0] == seq![ps[i].1],
    decreases ps.len(),
{
    if i < ps.len() - 1 {
        assert(ps.last() == ps[ps.len() - 1]);
        assert(ps.drop_last()[i] == ps[i]);
        lemma_insert_pairs_last(m, ps.drop_last(), i);
    }
}

/// Optional header maps merged: the one that is there, or both merged.
pub open spec fn merged_headers(
    a: Option<Map<Seq<char>, Seq<Seq<u8>>>>,
    b: Option<Map<Seq<char>, Seq<Seq<u8>>>>,
) -> Option<Map<Seq<char>, Seq<Seq<u8>>>> {
    match (a, b) {
        (None, None) => None,
        (Some(x), None) => Some(x),
        (None, Some(y)) => Some(y),
        (Some(x), Some(y)) => Some(merged_header_entries(x, y)),
    }
}

/// The names an insertion of pairs into `m` can reach: those of `m` and of
/// the pairs.
proof fn lemma_insert_pairs_dom(
    m: Map<Seq<char>, Seq<Seq<u8>>>,
    ps: Seq<(Seq<char>, Seq<u8>)>,
    k: Seq<char>,
)
    ensures
        insert_pairs(m, ps).contains_key(k) <==> (m.contains_key(k) || exists|j: int|
            0 <= j < ps.len() && (#[trigger] ps[j]).0 == k),
    decreases ps.len(),
{
    if ps.len() > 0 {
        lemma_insert_pairs_dom(m, ps.drop_last(), k);
        if exists|j: int| 0 <= j < ps.len() && (#[trigger] ps[j]).0 == k {
            let j = choose|j: int| 0 <= j < ps.len() && (#[trigger] ps[j]).0 == k;
            if j < ps.len() - 1 {
                assert(ps.drop_last()[j] == ps[j]);
            }
        }
        if exists|j: int| 0 <= j < ps.drop_last().len() && (#[trigger] ps.drop_last()[j]).0 == k {
            let j = choose|j: int| 0 <= j < ps.drop_last().len() && (#[trigger] ps.drop_last()[j]).0 == k;
            assert(ps[j] == ps.drop_last()[j]);
        }
    }
}

/// Whether merging two optional header maps is sure to have room for every
/// name it sets: one side is missing, or the merged map holds fewer names
/// than a header map surely takes.
pub open spec fn header_merge_fits(
    a: Option<Map<Seq<char>, Seq<Seq<u8>>>>,
    b: Option<Map<Seq<char>, Seq<Seq<u8>>>>,
) -> bool {
    match (a, b) {
        (Some(x), Some(y)) => has_header_room(merged_header_entries(x, y)),
        _ => true,
    }
}

/// Merges two optional header maps; `b`'s values win on a name both hold.
/// Where the merged map would be too large for a header map to surely take,
/// names of `b` that find no room are left out.
pub fn merge_headers(a: &Option<HeaderMap>, b: &Option<HeaderMap>) -> (r: Option<HeaderMap>)
    ensures
        header_merge_fits(opt_headers(*a), opt_headers(*b)) ==> opt_headers(r) == merged_headers(
            opt_headers(*a),
            opt_headers(*b),
        ),
        r is Some <==> (a is Some || b is Some),
        r matches Some(h) ==> forall|k: Seq<char>|
            #[trigger] header_entries(h).contains_key(k) ==> headers_or_empty(opt_headers(*a)).contains_key(k)
                || headers_or_empty(opt_headers(*b)).contains_key(k),
        r matches Some(h) ==> forall|k: Seq<char>|
            #[trigger] headers_or_empty(opt_headers(*a)).contains_key(k) ==> header_entries(h).contains_key(k),
{
    match (a, b) {
        (None, None) => None,
        (Some(a), None) => Some(header_map_clone(a)),
        (None, Some(b)) => Some(header_map_clone(b)),
        (Some(a), Some(b)) => {
            let mut merged = header_map_clone(a);
            let pairs = header_map_pairs(b);
            let ghost ps = pairs@.map_values(|p: (String, Vec<u8>)| (p.0@, p.1@));
            let ghost ma = header_entries(*a);
            let ghost mb = header_entries(*b);
            let ghost mut failed = false;
            let n = pairs.len();
            let mut i: usize = 0;
            while i < n
                invariant
                    i <= n,
                    n == pairs@.len(),
                    ps == pairs@.map_values(|p: (String, Vec<u8>)| (p.0@, p.1@)),
                    ma == header_entries(*a),
                    mb == header_entries(*b),
                    forall|j: int|
                        0 <= j < pairs@.len() ==> {
                            &&& mb.contains_key(#[trigger] pairs@[j].0@)
                            &&& valid_header_name(pairs@[j].0@)
                            &&& lower_name(pairs@[j].0@) == pairs@[j].0@
                            &&& valid_header_value(pairs@[j].1@)
                        },
                    !failed ==> header_entries(merged) == insert_pairs(ma, ps.take(i as int)),
                    failed ==> !has_header_room(merged_header_entries(ma, mb)),
                    forall|k: Seq<char>| #[trigger] header_entries(merged).contains_key(k) ==> ma.contains_key(k)
                        || mb.contains_key(k),
                    forall|k: Seq<char>| #[trigger] ma.contains_key(k) ==> header_entries(merged).contains_key(k),
                decreases n - i,
            {
                let ghost before = header_entries(merged);
                let r = header_map_insert(&mut merged, pairs[i].0.as_str(), pairs[i].1.as_slice());
                proof {
                    assert(ps.take(i + 1).drop_last() =~= ps.take(i as int));
                    assert(ps.take(i + 1).last() == ps[i as int]);
                    assert(ps[i as int] == (pairs@[i as int].0@, pairs@[i as int].1@));
                    if r is Err && !failed {
                        let all = merged_header_entries(ma, mb).dom();
                        assert forall|k: Seq<char>| #[trigger] before.contains_key(k) implies all.contains(k) by {
                            lemma_insert_pairs_dom(ma, ps.take(i as int), k);
                            if !ma.contains_key(k) {
                                let j = choose|j: int| 0 <= j < ps.take(i as int).len() && (#[trigger] ps.take(i as int)[j]).0 == k;
                                assert(ps.take(i as int)[j] == ps[j]);
                                assert(ps[j] == (pairs@[j].0@, pairs@[j].1@));
                            }
                        }
                        if has_header_room(merged_header_entries(ma, mb)) {
                            vstd::set_lib::lemma_len_subset(before.dom(), all);
                            assert(has_header_room(before));
                            assert(false);
                        }
                        failed = true;
                    }
                }
                i = i + 1;
            }
            proof {
                if !failed {
                    assert(ps.take(n as int) =~= ps);
                    let res = insert_pairs(ma, ps);
                    assert forall|k: Seq<char>| #[trigger] mb.contains_key(k) implies res.contains_key(k)
                        && res[k] == seq![mb[k].last()] by {
                        let w = choose|w: int|
                            0 <= w < pairs@.len() && pairs@[w].0@ == k && pairs@[w].1@ == mb[k].last()
                                && forall|j: int| w < j < pairs@.len() ==> (#[trigger] pairs@[j]).0@ != k;
                        assert forall|j: int| w < j < ps.len() implies (#[trigger] ps[j]).0 != ps[w].0 by {
                            assert(ps[j] == (pairs@[j].0@, pairs@[j].1@));
                        }
                        lemma_insert_pairs_last(ma, ps, w);
                    }
                    assert forall|k: Seq<char>| !mb.contains_key(k) implies #[trigger] res.contains_key(k)
                        == ma.contains_key(k) && (ma.contains_key(k) ==> res[k] == ma[k]) by {
                        assert forall|j: int| 0 <= j < ps.len() implies (#[trigger] ps[j]).0 != k by {
                            assert(ps[j] == (pairs@[j].0@, pairs@[j].1@));
                        }
                        lemma_insert_pairs_absent(ma, ps, k);
                    }
                    assert(res =~= merged_header_entries(ma, mb));
                }
            }
            Some(merged)
        },
    }
}

/// The character view of an optional list of query parameters.
pub open spec fn opt_query(q: Option<Vec<(String, String)>>) -> Option<Seq<(Seq<char>, Seq<char>)>> {
    match q {
        Some(v) => Some(query_view(v@)),
        None => None,
    }
}

/// Optional query lists merged: the one that is there, or `a` then `b`.
pub open spec fn merged_query(
    a: Option<Seq<(Seq<char>, Seq<char>)>>,
    b: Option<Seq<(Seq<char>, Seq<char>)>>,
) -> Option<Seq<(Seq<char>, Seq<char>)>> {
    match (a, b) {
        (None, None) => None,
        (Some(x), None) => Some(x),
        (None, Some(y)) => Some(y),
        (Some(x), Some(y)) => Some(x + y),
    }
}

/// Appends copies of the pairs of `src` to `dst`.
fn extend_pairs(dst: &mut Vec<(String, String)>, src: &Vec<(String, String)>)
    ensures
        query_view(final(dst)@) == query_view(old(dst)@) + query_view(src@),
{
    let ghost start = query_view(dst@);
    let n = src.len();
    let mut i: usize = 0;
    while i < n
        invariant
            i <= n,
            n == src@.len(),
            query_view(dst@) == start + query_view(src@).take(i as int),
        decreases n - i,
    {
        let k = src[i].0.clone();
        let v = src[i].1.clone();
        let ghost before = dst@;
        dst.push((k, v));
        proof {
            assert(query_view(src@)[i as int] == (k@, v@));
            assert(query_view(dst@) =~= query_view(before).push((k@, v@)));
            assert(query_view(src@).take(i + 1) =~= query_view(src@).take(i as int).push((k@, v@)));
            assert(query_view(dst@) =~= start + query_view(src@).take(i + 1));
        }
        i = i + 1;
    }
    proof {
        assert(query_view(src@).take(n as int) =~= query_view(src@));
    }
}

/// A copy of a list of query parameters.
pub fn copy_query(q: &Vec<(String, String)>) -> (r: Vec<(String, String)>)
    ensures
        query_view(r@) == query_view(q@),
{
    let mut c: Vec<(String, String)> = Vec::new();
    extend_pairs(&mut c, q);
    proof {
        assert(query_view(c@) =~= query_view(q@));
    }
    c
}

/// Merges two optional query lists: both kept, `b`'s after `a`'s.
pub fn merge_query(a: &Option<Vec<(String, String)>>, b: &Option<Vec<(String, String)>>) -> (r:
    Option<Vec<(String, String)>>)
    ensures
        opt_query(r) == merged_query(opt_query(*a), opt_query(*b)),
{
    match (a, b) {
        (None, None) => None,
        (Some(a), None) => {
            let mut c: Vec<(String, String)> = Vec::new();
            extend_pairs(&mut c, a);
            proof {
                assert(query_view(c@) =~= query_view(a@));
            }
            Some(c)
        },
        (None, Some(b)) => {
            let mut c: Vec<(String, String)> = Vec::new();
            extend_pairs(&mut c, b);
            proof {
                assert(query_view(c@) =~= query_view(b@));
            }
            Some(c)
        },
        (Some(a), Some(b)) => {
            let mut c: Vec<(String, String)> = Vec::new();
            extend_pairs(&mut c, a);
            extend_pairs(&mut c, b);
            proof {
                assert(query_view(c@) =~= query_view(a@) + query_view(b@));
            }
            Some(c)
        },
    }
}

/// Two JSON values merged: when both are objects, each entry of `b` is set
/// in `a` in turn, merged with `a`'s value under that key where there is one;
/// otherwise `b` wins.
pub open spec fn deep_merge(a: Json, b: Json) -> Json
    decreases b,
{
    match b {
        Json::Object(bm) => match a {
            Json::Object(am) => Json::Object(merge_entries(am, bm)),
            _ => b,
        },
        _ => b,
    }
}

/// The entries of object `am` after merging in the entries of `bm`, first to
/// last.
pub open spec fn merge_entries(am: Seq<(Seq<char>, Json)>, bm: Seq<(Seq<char>, Json)>) -> Seq<
    (Seq<char>, Json),
>
    decreases bm,
{
    if bm.len() == 0 {
        am
    } else {
        let acc = merge_entries(am, bm.drop_last());
        let k = bm.last().0;
        proof {
            assert(decreases_to!(bm => bm[bm.len() - 1]));
        }
        match obj_get(acc, k) {
            Some(e) => obj_insert(obj_remove(acc, k), k, deep_merge(e, bm.last().1)),
            None => obj_insert(acc, k, bm.last().1),
        }
    }
}

/// Optional JSON values merged: the one that is there, or both deep-merged.
pub open spec fn merged_json(a: Option<Json>, b: Option<Json>) -> Option<Json> {
    match (a, b) {
        (None, None) => None,
        (Some(x), None) => Some(x),
        (None, Some(y)) => Some(y),
        (Some(x), Some(y)) => Some(deep_merge(x, y)),
    }
}

/// The model of an optional JSON value.
pub open spec fn opt_json(v: Option<JsonValue>) -> Option<Json> {
    match v {
        Some(x) => Some(x@),
        None => None,
    }
}

/// Whether an optional JSON value is well formed (true when absent).
pub open spec fn opt_json_wf(v: Option<JsonValue>) -> bool {
    match v {
        Some(x) => json_wf(x@),
        None => true,
    }
}

/// Merging keeps values well formed.
pub proof fn lemma_deep_merge_wf(a: Json, b: Json)
    requires
        json_wf(a),
        json_wf(b),
    ensures
        json_wf(deep_merge(a, b)),
    decreases b,
{
    match b {
        Json::Object(bm) => match a {
            Json::Object(am) => {
                lemma_merge_entries_wf(am, bm);
            },
            _ => {},
        },
        _ => {},
    }
}

/// Merging entries into a well-formed object keeps it well formed.
pub proof fn lemma_merge_entries_wf(am: Seq<(Seq<char>, Json)>, bm: Seq<(Seq<char>, Json)>)
    requires
        json_wf(Json::Object(am)),
        json_wf(Json::Object(bm)),
    ensures
        json_wf(Json::Object(merge_entries(am, bm))),
    decreases bm,
{
    if bm.len() > 0 {
        let bm0 = bm.drop_last();
        assert(json_wf(Json::Object(bm0))) by {
            assert forall|i: int| 0 <= i < bm0.len() implies json_wf(#[trigger] bm0[i].1) by {
                assert(bm0[i] == bm[i]);
            }
        }
        lemma_merge_entries_wf(am, bm0);
        let acc = merge_entries(am, bm0);
        let k = bm.last().0;
        let v = bm.last().1;
        assert(json_wf(v)) by {
            assert(bm.last() == bm[bm.len() - 1]);
        }
        assert(decreases_to!(bm => bm[bm.len() - 1]));
        match obj_get(acc, k) {
            Some(e) => {
                let i = crate::json::lemma_obj_get_index(acc, k);
                lemma_deep_merge_wf(e, v);
                lemma_obj_remove_wf(acc, k);
                lemma_obj_insert_wf(obj_remove(acc, k), k, deep_merge(e, v));
            },
            None => {
                lemma_obj_insert_wf(acc, k, v);
            },
        }
    }
}

/// Deep-merges two JSON values: object fields of `b` override those of `a`,
/// merging recursively where both hold an object; a non-object `b` wins.
pub fn deep_merge_value(a: JsonValue, b: JsonValue) -> (r: JsonValue)
    requires
        json_wf(a@),
        json_wf(b@),
    ensures
        r@ == deep_merge(a@, b@),
        json_wf(r@),
    decreases b,
{
    proof {
        lemma_deep_merge_wf(a@, b@);
    }
    match b {
        JsonValue::Object(bm) => match a {
            JsonValue::Object(am) => JsonValue::Object(merge_maps(am, bm)),
            _ => JsonValue::Object(bm),
        },
        other => other,
    }
}

/// Merges the entries of `bm` into `am`, first to last.
fn merge_maps(am: JsonMap, bm: JsonMap) -> (r: JsonMap)
    requires
        json_wf(Json::Object(am@)),
        json_wf(Json::Object(bm@)),
    ensures
        r@ == merge_entries(am@, bm@),
    decreases bm,
{
    let ghost orig = bm;
    let ghost bv = bm@;
    proof {
        lemma_entries_view(bm.entries@);
    }
    let mut acc = am;
    let mut rest = bm.entries;
    let ghost mut i: int = 0;
    while rest.len() > 0
        invariant
            0 <= i <= bv.len(),
            orig == bm,
            bv == entries_view(orig.entries@),
            bv.len() == orig.entries@.len(),
            rest@ == orig.entries@.skip(i),
            acc@ == merge_entries(am@, bv.take(i)),
            json_wf(Json::Object(acc@)),
            json_wf(Json::Object(am@)),
            json_wf(Json::Object(bv)),
            forall|j: int|
                0 <= j < orig.entries@.len() ==> #[trigger] bv[j] == (
                    orig.entries@[j].0@,
                    json_view(orig.entries@[j].1),
                ),
        decreases rest.len(),
    {
        let ghost j = i;
        let (k, v) = rest.remove(0);
        proof {
            assert(orig.entries@[j] == (k, v));
            assert(bv[j] == (k@, v@));
            assert(json_wf(bv[j].1));
            assert(json_wf(v@));
            vstd::std_specs::vec::axiom_vec_index_decreases(orig.entries, j);
            assert(decreases_to!(orig => orig.entries));
            assert(decreases_to!(orig.entries[j] => orig.entries[j].1));
            assert(decreases_to!(orig => v));
            assert(bv.take(j + 1).drop_last() =~= bv.take(j));
            assert(bv.take(j + 1).last() == bv[j]);
            lemma_merge_entries_wf(am@, bv.take(j + 1));
            assert(json_wf(Json::Object(bv.take(j + 1)))) by {
                assert forall|x: int, y: int| 0 <= x < y < bv.take(j + 1).len() implies
                    crate::json::key_lt(#[trigger] bv.take(j + 1)[x].0, #[trigger] bv.take(j + 1)[y].0) by {
                    assert(bv.take(j + 1)[x] == bv[x]);
                    assert(bv.take(j + 1)[y] == bv[y]);
                }
                assert forall|x: int| 0 <= x < bv.take(j + 1).len() implies json_wf(
                    #[trigger] bv.take(j + 1)[x].1,
                ) by {
                    assert(bv.take(j + 1)[x] == bv[x]);
                }
            }
        }
        let ghost acc_before = acc@;
        let existing = acc.remove(k.as_str());
        let merged = match existing {
            Some(e) => {
                proof {
                    crate::json::lemma_obj_get_index(acc_before, k@);
                    lemma_obj_remove_wf(acc_before, k@);
                }
                deep_merge_value(e, v)
            },
            None => {
                proof {
                    crate::json::lemma_obj_remove_absent(acc_before, k@);
                }
                v
            },
        };
        acc.insert(k, merged);
        proof {
            i = i + 1;
            assert(rest@ =~= orig.entries@.skip(i));
        }
    }
    proof {
        assert(bv.take(i) =~= bv);
    }
    acc
}

/// Merges two optional JSON values; `b`'s fields win on conflict.
pub fn merge_json(a: &Option<JsonValue>, b: &Option<JsonValue>) -> (r: Option<JsonValue>)
    requires
        opt_json_wf(*a),
        opt_json_wf(*b),
    ensures
        opt_json(r) == merged_json(opt_json(*a), opt_json(*b)),
        opt_json_wf(r),
{
    match (a, b) {
        (None, None) => None,
        (Some(a), None) => Some(clone_value(a)),
        (None, Some(b)) => Some(clone_value(b)),
        (Some(a), Some(b)) => Some(deep_merge_value(clone_value(a), clone_value(b))),
    }
}

/// The headers of an optional map, none when there is no map.
pub open spec fn headers_or_empty(h: Option<Map<Seq<char>, Seq<Seq<u8>>>>) -> Map<
    Seq<char>,
    Seq<Seq<u8>>,
> {
    match h {
        Some(m) => m,
        None => no_headers(),
    }
}

/// The headers after adding one: set under its lower-case name when both the
/// name and the value are valid, ignored otherwise.
pub open spec fn header_added(
    h: Option<Map<Seq<char>, Seq<Seq<u8>>>>,
    name: Seq<char>,
    value: Seq<char>,
) -> Map<Seq<char>, Seq<Seq<u8>>> {
    let m = headers_or_empty(h);
    if valid_header_name(name) && valid_header_value(encode_utf8(value)) {
        m.insert(lower_name(name), seq![encode_utf8(value)])
    } else {
        m
    }
}

/// The query after adding one parameter at the end.
pub open spec fn query_added(
    q: Option<Seq<(Seq<char>, Seq<char>)>>,
    key: Seq<char>,
    value: Seq<char>,
) -> Seq<(Seq<char>, Seq<char>)> {
    match q {
        Some(s) => s.push((key, value)),
        None => seq![(key, value)],
    }
}

/// Merging with empty options, on either side, leaves headers, query and
/// JSON body fields as they were.
pub proof fn law_merge_with_empty_options(
    h: Option<Map<Seq<char>, Seq<Seq<u8>>>>,
    q: Option<Seq<(Seq<char>, Seq<char>)>>,
    j: Option<Json>,
)
    ensures
        merged_headers(None, h) == h,
        merged_headers(h, None) == h,
        merged_query(None, q) == q,
        merged_query(q, None) == q,
        merged_json(None, j) == j,
        merged_json(j, None) == j,
{
}

/// Merging query lists is associative: `(a + b) + c` and `a + (b + c)` hold
/// the same parameters in the same order.
pub proof fn law_query_merge_associative(
    a: Option<Seq<(Seq<char>, Seq<char>)>>,
    b: Option<Seq<(Seq<char>, Seq<char>)>>,
    c: Option<Seq<(Seq<char>, Seq<char>)>>,
)
    ensures
        merged_query(merged_query(a, b), c) == merged_query(a, merged_query(b, c)),
{
    match (a, b, c) {
        (Some(x), Some(y), Some(z)) => {
            assert((x + y) + z =~= x + (y + z));
        },
        _ => {},
    }
}

/// Merging header maps is associative: `(a, b)` then `c` gives the same
/// headers as `a` then `(b, c)`.
pub proof fn law_header_merge_associative(
    a: Option<Map<Seq<char>, Seq<Seq<u8>>>>,
    b: Option<Map<Seq<char>, Seq<Seq<u8>>>>,
    c: Option<Map<Seq<char>, Seq<Seq<u8>>>>,
)
    ensures
        merged_headers(merged_headers(a, b), c) == merged_headers(a, merged_headers(b, c)),
{
    match (a, b, c) {
        (Some(x), Some(y), Some(z)) => {
            let l = merged_header_entries(merged_header_entries(x, y), z);
            let r = merged_header_entries(x, merged_header_entries(y, z));
            assert(l =~= r);
        },
        _ => {},
    }
}

/// Where `b` is not an object, or `a` is not, the merge is `b`.
pub proof fn law_deep_merge_non_object_wins(a: Json, b: Json)
    requires
        !(a is Object) || !(b is Object),
    ensures
        deep_merge(a, b) == b,
{
}

/// Merging two well-formed objects, key by key: a key of `b` gets `b`'s
/// value, merged with `a`'s where `a` holds the key too; any other key keeps
/// `a`'s value, or stays absent.
pub proof fn law_deep_merge_by_key(am: Seq<(Seq<char>, Json)>, bm: Seq<(Seq<char>, Json)>, k: Seq<char>)
    requires
        json_wf(Json::Object(am)),
        json_wf(Json::Object(bm)),
    ensures
        deep_merge(Json::Object(am), Json::Object(bm)) == Json::Object(merge_entries(am, bm)),
        obj_get(merge_entries(am, bm), k) == match obj_get(bm, k) {
            Some(v) => match obj_get(am, k) {
                Some(e) => Some(deep_merge(e, v)),
                None => Some(v),
            },
            None => obj_get(am, k),
        },
    decreases bm.len(),
{
    if bm.len() > 0 {
        let bm0 = bm.drop_last();
        assert(json_wf(Json::Object(bm0))) by {
            assert forall|i: int| 0 <= i < bm0.len() implies json_wf(#[trigger] bm0[i].1) by {
                assert(bm0[i] == bm[i]);
            }
            assert forall|x: int, y: int| 0 <= x < y < bm0.len() implies crate::json::key_lt(
                #[trigger] bm0[x].0,
                #[trigger] bm0[y].0,
            ) by {
                assert(bm0[x] == bm[x]);
                assert(bm0[y] == bm[y]);
            }
        }
        let kl = bm.last().0;
        let acc = merge_entries(am, bm0);
        law_deep_merge_by_key(am, bm0, k);
        law_deep_merge_by_key(am, bm0, kl);
        crate::json::lemma_obj_get_last_absent(bm);
        assert(bm0.push(bm.last()) =~= bm);
        crate::json::lemma_obj_get_push(bm0, bm.last(), k);
        match obj_get(acc, kl) {
            Some(e) => {
                let m = deep_merge(e, bm.last().1);
                crate::json::lemma_obj_get_insert(obj_remove(acc, kl), kl, m, k);
                crate::json::lemma_obj_get_remove(acc, kl, k);
            },
            None => {
                crate::json::lemma_obj_get_insert(acc, kl, bm.last().1, k);
            },
        }
    }
}

impl Default for RequestOptions {
    fn default() -> (r: Self)
        ensures
            options_empty(r),
    {
        RequestOptions { headers: None, query: None, extra_body: None, timeout: None }
    }
}

impl RequestOptions {
    /// Empty request options.
    pub fn new() -> (r: Self)
        ensures
            options_empty(r),
    {
        RequestOptions { headers: None, query: None, extra_body: None, timeout: None }
    }

    /// Adds a single header; a name or value that is not valid is ignored
    /// (the header map is still created). A map too full to take another
    /// name may leave the header out as well.
    pub fn header(self, name: &str, value: &str) -> (r: Self)
        ensures
            has_header_room(headers_or_empty(opt_headers(self.headers))) ==> opt_headers(r.headers)
                == Some(header_added(opt_headers(self.headers), name@, value@)),
            opt_headers(r.headers) == Some(header_added(opt_headers(self.headers), name@, value@))
                || opt_headers(r.headers) == Some(headers_or_empty(opt_headers(self.headers))),
            r.query == self.query,
            r.extra_body == self.extra_body,
            r.timeout == self.timeout,
    {
        let RequestOptions { headers, query, extra_body, timeout } = self;
        let mut map = match headers {
            Some(m) => m,
            None => header_map_new(),
        };
        proof {
            assert(no_headers().dom() =~= Set::<Seq<char>>::empty());
        }
        let _ = header_map_insert(&mut map, name, value.as_bytes());
        RequestOptions { headers: Some(map), query, extra_body, timeout }
    }

    /// Sets all headers at once, replacing any set before.
    pub fn headers(self, headers: HeaderMap) -> (r: Self)
        ensures
            r.headers == Some(headers),
            r.query == self.query,
            r.extra_body == self.extra_body,
            r.timeout == self.timeout,
    {
        RequestOptions { headers: Some(headers), ..self }
    }

    /// Adds a single query parameter after those already set.
    pub fn query_param(self, key: &str, value: &str) -> (r: Self)
        ensures
            opt_query(r.query) == Some(query_added(opt_query(self.query), key@, value@)),
            r.headers == self.headers,
            r.extra_body == self.extra_body,
            r.timeout == self.timeout,
    {
        let RequestOptions { headers, query, extra_body, timeout } = self;
        let mut q = match query {
            Some(q) => q,
            None => Vec::new(),
        };
        let ghost before = q@;
        q.push((key.to_string(), value.to_string()));
        proof {
            assert(query_view(q@) =~= query_view(before).push((key@, value@)));
        }
        RequestOptions { headers, query: Some(q), extra_body, timeout }
    }

    /// Sets all query parameters, replacing any set before.
    pub fn query(self, params: Vec<(String, String)>) -> (r: Self)
        ensures
            r.query == Some(params),
            r.headers == self.headers,
            r.extra_body == self.extra_body,
            r.timeout == self.timeout,
    {
        RequestOptions { query: Some(params), ..self }
    }

    /// Sets the extra JSON fields to merge into the request body.
    pub fn extra_body(self, value: JsonValue) -> (r: Self)
        ensures
            r.extra_body == Some(value),
            r.headers == self.headers,
            r.query == self.query,
            r.timeout == self.timeout,
    {
        RequestOptions { extra_body: Some(value), ..self }
    }

    /// Overrides the request timeout.
    pub fn timeout(self, duration: Duration) -> (r: Self)
        ensures
            r.timeout == Some(duration),
            r.headers == self.headers,
            r.query == self.query,
            r.extra_body == self.extra_body,
    {
        RequestOptions { timeout: Some(duration), ..self }
    }

    /// Merges two sets of options; `other`'s values take precedence on
    /// conflict: its headers replace those of the same name, its query
    /// parameters come after, its JSON fields are deep-merged over, and its
    /// timeout wins when set.
    pub fn merge(&self, other: &RequestOptions) -> (r: RequestOptions)
        requires
            opt_json_wf(self.extra_body),
            opt_json_wf(other.extra_body),
        ensures
            header_merge_fits(opt_headers(self.headers), opt_headers(other.headers)) ==> opt_headers(
                r.headers,
            ) == merged_headers(opt_headers(self.headers), opt_headers(other.headers)),
            opt_query(r.query) == merged_query(opt_query(self.query), opt_query(other.query)),
            opt_json(r.extra_body) == merged_json(opt_json(self.extra_body), opt_json(other.extra_body)),
            opt_json_wf(r.extra_body),
            r.timeout == (if other.timeout is Some {
                other.timeout
            } else {
                self.timeout
            }),
            options_empty(r) == (options_empty(*self) && options_empty(*other)),
    {
        let timeout = match other.timeout {
            Some(t) => Some(t),
            None => self.timeout,
        };
        RequestOptions {
            headers: merge_headers(&self.headers, &other.headers),
            query: merge_query(&self.query, &other.query),
            extra_body: merge_json(&self.extra_body, &other.extra_body),
            timeout,
        }
    }

    /// Whether no option is set.
    pub fn is_empty(&self) -> (r: bool)
        ensures
            r == options_empty(*self),
    {
        self.headers.is_none() && self.query.is_none() && self.extra_body.is_none()
            && self.timeout.is_none()
    }
}

} // verus!
