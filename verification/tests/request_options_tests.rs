use std::time::Duration;

use openai_oxide::request_options::{merge_headers, merge_query};
use openai_oxide::RequestOptions;

#[test]
fn test_new_is_empty() {
    let opts = RequestOptions::new();
    assert!(opts.is_empty());
}

#[test]
fn test_header_builder() {
    let opts = RequestOptions::new()
        .header("X-Custom", "value1")
        .header("X-Other", "value2");
    let headers = opts.headers.unwrap();
    assert_eq!(headers.get("X-Custom").unwrap(), "value1");
    assert_eq!(headers.get("X-Other").unwrap(), "value2");
}

#[test]
fn test_query_param_builder() {
    let opts = RequestOptions::new()
        .query_param("foo", "bar")
        .query_param("baz", "qux");
    let query = opts.query.unwrap();
    assert_eq!(query.len(), 2);
    assert_eq!(query[0], ("foo".to_string(), "bar".to_string()));
}

#[test]
fn test_timeout_builder() {
    let opts = RequestOptions::new().timeout(Duration::from_secs(30));
    assert_eq!(opts.timeout, Some(Duration::from_secs(30)));
}

#[test]
fn test_merge_empty() {
    let a = RequestOptions::new();
    let b = RequestOptions::new();
    let merged = a.merge(&b);
    assert!(merged.is_empty());
}

#[test]
fn test_merge_headers_b_wins() {
    let a = RequestOptions::new().header("X-A", "1").header("X-B", "2");
    let b = RequestOptions::new().header("X-A", "overridden");
    let merged = a.merge(&b);
    let headers = merged.headers.unwrap();
    assert_eq!(headers.get("X-A").unwrap(), "overridden");
    assert_eq!(headers.get("X-B").unwrap(), "2");
}

#[test]
fn test_merge_query_appends() {
    let a = RequestOptions::new().query_param("a", "1");
    let b = RequestOptions::new().query_param("b", "2");
    let merged = a.merge(&b);
    let query = merged.query.unwrap();
    assert_eq!(query.len(), 2);
}

#[test]
fn test_merge_timeout_b_wins() {
    let a = RequestOptions::new().timeout(Duration::from_secs(10));
    let b = RequestOptions::new().timeout(Duration::from_secs(30));
    let merged = a.merge(&b);
    assert_eq!(merged.timeout, Some(Duration::from_secs(30)));
}

#[test]
fn test_merge_timeout_a_kept_when_b_none() {
    let a = RequestOptions::new().timeout(Duration::from_secs(10));
    let b = RequestOptions::new();
    let merged = a.merge(&b);
    assert_eq!(merged.timeout, Some(Duration::from_secs(10)));
}

#[test]
fn invalid_header_is_ignored_but_map_created() {
    let opts = RequestOptions::new().header("bad header", "v").header("X-Ok", "bad\nvalue");
    let headers = opts.headers.unwrap();
    assert!(headers.is_empty());
}

#[test]
fn header_names_are_lower_cased_and_replaced() {
    let opts = RequestOptions::new().header("X-Dup", "1").header("x-dup", "2");
    let headers = opts.headers.unwrap();
    assert_eq!(headers.len(), 1);
    assert_eq!(headers.get("x-dup").unwrap(), "2");
}

#[test]
fn merge_keeps_only_last_value_of_b() {
    let mut b = reqwest::header::HeaderMap::new();
    b.append("x-multi", "first".parse().unwrap());
    b.append("x-multi", "second".parse().unwrap());
    let mut a = reqwest::header::HeaderMap::new();
    a.insert("x-keep", "yes".parse().unwrap());
    let merged = merge_headers(&Some(a), &Some(b.clone())).unwrap();
    let values: Vec<_> = merged.get_all("x-multi").iter().collect();
    assert_eq!(values, vec!["second"]);
    assert_eq!(merged.get("x-keep").unwrap(), "yes");
    // with nothing on the left, the right map is taken whole
    let whole = merge_headers(&None, &Some(b)).unwrap();
    assert_eq!(whole.get_all("x-multi").iter().count(), 2);
    assert!(merge_headers(&None, &None).is_none());
}

#[test]
fn merge_query_order_and_associativity() {
    let a = Some(vec![("a".to_string(), "1".to_string())]);
    let b = Some(vec![("b".to_string(), "2".to_string())]);
    let c = Some(vec![("c".to_string(), "3".to_string())]);
    let left = merge_query(&merge_query(&a, &b), &c).unwrap();
    let right = merge_query(&a, &merge_query(&b, &c)).unwrap();
    assert_eq!(left, right);
    assert_eq!(left[0].0, "a");
    assert_eq!(left[2].0, "c");
    assert_eq!(merge_query(&None, &b), b);
    assert_eq!(merge_query(&a, &None), a);
}

#[test]
fn merge_with_empty_keeps_options() {
    let a = RequestOptions::new()
        .header("X-A", "1")
        .query_param("q", "v")
        .timeout(Duration::from_secs(5));
    let left = RequestOptions::new().merge(&a);
    let right = a.merge(&RequestOptions::new());
    for m in [left, right] {
        assert_eq!(m.headers.unwrap().get("x-a").unwrap(), "1");
        assert_eq!(m.query.unwrap(), vec![("q".to_string(), "v".to_string())]);
        assert_eq!(m.timeout, Some(Duration::from_secs(5)));
        assert!(m.extra_body.is_none());
    }
}

#[test]
fn headers_and_query_setters_replace() {
    let mut h = reqwest::header::HeaderMap::new();
    h.insert("x-new", "n".parse().unwrap());
    let opts = RequestOptions::new()
        .header("X-Old", "o")
        .headers(h)
        .query_param("old", "o")
        .query(vec![("new".to_string(), "n".to_string())]);
    let headers = opts.headers.unwrap();
    assert!(headers.get("x-old").is_none());
    assert_eq!(headers.get("x-new").unwrap(), "n");
    assert_eq!(opts.query.unwrap(), vec![("new".to_string(), "n".to_string())]);
}

#[test]
fn merge_headers_associative() {
    let mut a = reqwest::header::HeaderMap::new();
    a.insert("x-a", "a".parse().unwrap());
    a.insert("x-shared", "from-a".parse().unwrap());
    let mut b = reqwest::header::HeaderMap::new();
    b.append("x-b", "b1".parse().unwrap());
    b.append("x-b", "b2".parse().unwrap());
    b.insert("x-shared", "from-b".parse().unwrap());
    let mut c = reqwest::header::HeaderMap::new();
    c.insert("x-c", "c".parse().unwrap());
    let (a, b, c) = (Some(a), Some(b), Some(c));
    let left = merge_headers(&merge_headers(&a, &b), &c).unwrap();
    let right = merge_headers(&a, &merge_headers(&b, &c)).unwrap();
    assert_eq!(left, right);
    assert_eq!(left.get("x-shared").unwrap(), "from-b");
    assert_eq!(left.get_all("x-b").iter().count(), 1);
}

#[test]
fn header_on_full_map_is_left_out() {
    let mut full = reqwest::header::HeaderMap::new();
    for i in 0..24576 {
        let name = reqwest::header::HeaderName::from_bytes(format!("x-h{i}").as_bytes()).unwrap();
        full.insert(name, "v".parse().unwrap());
    }
    let opts = RequestOptions::new().headers(full).header("x-extra", "1");
    let headers = opts.headers.unwrap();
    assert_eq!(headers.keys_len(), 24576);
    assert!(headers.get("x-extra").is_none());
    assert_eq!(headers.get("x-h7").unwrap(), "v");
}
