//! OpenRouter helpers.
//!
//! OpenRouter is OpenAI-compatible at `https://openrouter.ai/api/v1`. These
//! helpers set the base URL and the app attribution headers, and provide
//! typed provider preferences for the request body.

use vstd::prelude::*;
use vstd::utf8::encode_utf8;

use reqwest::header::HeaderMap;

use crate::config::{ClientConfig, DEFAULT_MAX_RETRIES, DEFAULT_TIMEOUT_SECS};
use crate::error::OpenAIError;
use crate::headers::{
    has_header_room, header_entries, header_map_insert, header_map_is_empty, header_map_new, lower_name,
    no_headers, valid_header_name, valid_header_value,
};
use crate::json::{
    json_wf, lemma_items_view, obj_get, obj_insert, items_view, Json, JsonMap, JsonValue,
};

verus! {

/// The OpenRouter API base URL.
pub open spec fn openrouter_base_url() -> Seq<char> {
    "https://openrouter.ai/api/v1"@
}

/// App attribution for OpenRouter rankings.
pub struct App<'a> {
    pub name: &'a str,
    pub url: &'a str,
}

/// The headers that app attribution adds: `http-referer` for a non-empty URL
/// and `x-openrouter-title` for a non-empty name.
pub open spec fn app_headers(name: Seq<char>, url: Seq<char>) -> Map<Seq<char>, Seq<Seq<u8>>> {
    let with_url = if url.len() > 0 {
        no_headers().insert("http-referer"@, seq![encode_utf8(url)])
    } else {
        no_headers()
    };
    if name.len() > 0 {
        with_url.insert("x-openrouter-title"@, seq![encode_utf8(name)])
    } else {
        with_url
    }
}

/// Whether app attribution can be sent: each non-empty field is a valid
/// header value.
pub open spec fn app_headers_valid(name: Seq<char>, url: Seq<char>) -> bool {
    (url.len() == 0 || valid_header_value(encode_utf8(url))) && (name.len() == 0
        || valid_header_value(encode_utf8(name)))
}

/// The attribution header names are valid and lower case.
pub proof fn lemma_attribution_header_names()
    ensures
        valid_header_name("http-referer"@),
        lower_name("http-referer"@) == "http-referer"@,
        valid_header_name("x-openrouter-title"@),
        lower_name("x-openrouter-title"@) == "x-openrouter-title"@,
        "http-referer"@ != "x-openrouter-title"@,
{
    reveal_strlit("http-referer");
    reveal_strlit("x-openrouter-title");
    assert(lower_name("http-referer"@) =~= "http-referer"@);
    assert(lower_name("x-openrouter-title"@) =~= "x-openrouter-title"@);
}

/// Sets one header, failing with `invalid header {name}: ...` when the value
/// is not a valid header value.
fn set(headers: &mut HeaderMap, name: &str, value: &str) -> (r: Result<(), OpenAIError>)
    requires
        valid_header_name(name@),
        lower_name(name@) == name@,
        has_header_room(header_entries(*old(headers))),
    ensures
        r is Ok == valid_header_value(encode_utf8(value@)),
        r is Ok ==> header_entries(*final(headers)) == header_entries(*old(headers)).insert(
            name@,
            seq![encode_utf8(value@)],
        ),
{
    match header_map_insert(headers, name, value.as_bytes()) {
        Ok(()) => Ok(()),
        Err(detail) => {
            let mut message = String::from_str("invalid header ");
            message.append(name);
            message.append(": ");
            message.append(detail.as_str());
            Err(OpenAIError::InvalidArgument(message))
        },
    }
}

/// A `ClientConfig` for OpenRouter: its base URL, bearer auth with the key,
/// and app attribution headers when an app is given. It fails when an
/// attribution field is not a valid header value.
pub fn config(api_key: &str, app: Option<App<'_>>) -> (r: Result<ClientConfig, OpenAIError>)
    ensures
        r is Ok <==> (match app {
            Some(a) => app_headers_valid(a.name@, a.url@),
            None => true,
        }),
        r matches Ok(c) ==> {
            &&& c.api_key@ == api_key@
            &&& c.base_url@ == openrouter_base_url()
            &&& match app {
                Some(a) => if app_headers(a.name@, a.url@) == no_headers() {
                    c.default_headers is None
                } else {
                    c.default_headers matches Some(h) && header_entries(h) == app_headers(
                        a.name@,
                        a.url@,
                    )
                },
                None => c.default_headers is None,
            }
            &&& c.organization is None
            &&& c.project is None
            &&& c.timeout_secs == DEFAULT_TIMEOUT_SECS
            &&& c.max_retries == DEFAULT_MAX_RETRIES
            &&& c.default_query is None
            &&& !c.use_azure_api_key_header
        },
{
    let mut cfg = ClientConfig::new(api_key).base_url("https://openrouter.ai/api/v1");
    if let Some(app) = app {
        proof {
            lemma_attribution_header_names();
        }
        let mut headers = header_map_new();
        proof {
            assert(header_entries(headers).dom() =~= Set::<Seq<char>>::empty());
        }
        if !app.url.is_empty() {
            set(&mut headers, "http-referer", app.url)?;
        }
        proof {
            let d = header_entries(headers).dom();
            assert(d.subset_of(set!["http-referer"@]));
            vstd::set_lib::lemma_len_subset(d, set!["http-referer"@]);
        }
        if !app.name.is_empty() {
            set(&mut headers, "x-openrouter-title", app.name)?;
        }
        proof {
            assert(header_entries(headers) == app_headers(app.name@, app.url@));
        }
        if !header_map_is_empty(&headers) {
            cfg = cfg.default_headers(headers);
        }
    }
    Ok(cfg)
}

/// Provider preferences for OpenRouter routing.
#[derive(Debug)]
pub struct ProviderPreferences {
    /// Provider priority order. First available wins.
    pub order: Option<Vec<String>>,
    /// Only use these providers. Fails if none is available.
    pub only: Option<Vec<String>>,
    /// Exclude these providers.
    pub ignore: Option<Vec<String>>,
    /// Allow fallback to other providers (default: true).
    pub allow_fallbacks: Option<bool>,
    /// Only use providers that support all request parameters.
    pub require_parameters: Option<bool>,
    /// Quantization filter: "fp8", "int8", "bf16", ...
    pub quantizations: Option<Vec<String>>,
    /// Sort by: "throughput", "price", "latency".
    pub sort: Option<String>,
    /// Zero Data Retention.
    pub zdr: Option<bool>,
    /// Data collection policy: "allow" or "deny".
    pub data_collection: Option<String>,
}

/// Whether preferences set nothing beyond the given fields.
pub open spec fn prefs_unset_except_order_only_sort(p: ProviderPreferences) -> bool {
    &&& p.ignore is None
    &&& p.quantizations is None
    &&& p.zdr is None
    &&& p.data_collection is None
}

/// The texts of a list of strings.
pub open spec fn texts(v: Seq<String>) -> Seq<Seq<char>> {
    v.map_values(|s: String| s@)
}

/// A JSON array of strings.
pub open spec fn string_list_json(v: Seq<String>) -> Json {
    Json::Array(v.map_values(|s: String| Json::Str(s@)))
}

/// An object with a key set when a value is present.
pub open spec fn insert_present(o: Seq<(Seq<char>, Json)>, k: Seq<char>, v: Option<Json>) -> Seq<
    (Seq<char>, Json),
> {
    match v {
        Some(x) => obj_insert(o, k, x),
        None => o,
    }
}

/// The JSON object of provider preferences: one key per field that is set.
pub open spec fn provider_preferences_json(p: ProviderPreferences) -> Seq<(Seq<char>, Json)> {
    let o1 = insert_present(
        seq![],
        "order"@,
        match p.order {
            Some(v) => Some(string_list_json(v@)),
            None => None,
        },
    );
    let o2 = insert_present(
        o1,
        "only"@,
        match p.only {
            Some(v) => Some(string_list_json(v@)),
            None => None,
        },
    );
    let o3 = insert_present(
        o2,
        "ignore"@,
        match p.ignore {
            Some(v) => Some(string_list_json(v@)),
            None => None,
        },
    );
    let o4 = insert_present(
        o3,
        "allow_fallbacks"@,
        match p.allow_fallbacks {
            Some(b) => Some(Json::Bool(b)),
            None => None,
        },
    );
    let o5 = insert_present(
        o4,
        "require_parameters"@,
        match p.require_parameters {
            Some(b) => Some(Json::Bool(b)),
            None => None,
        },
    );
    let o6 = insert_present(
        o5,
        "quantizations"@,
        match p.quantizations {
            Some(v) => Some(string_list_json(v@)),
            None => None,
        },
    );
    let o7 = insert_present(
        o6,
        "sort"@,
        match p.sort {
            Some(s) => Some(Json::Str(s@)),
            None => None,
        },
    );
    let o8 = insert_present(
        o7,
        "zdr"@,
        match p.zdr {
            Some(b) => Some(Json::Bool(b)),
            None => None,
        },
    );
    insert_present(
        o8,
        "data_collection"@,
        match p.data_collection {
            Some(s) => Some(Json::Str(s@)),
            None => None,
        },
    )
}

/// The JSON of provider preferences holds each field that is set under its
/// own name (lists of strings as arrays of strings, flags as booleans, texts
/// as strings), no key for a field that is not set, and no other key.
pub proof fn law_provider_preferences_fields(p: ProviderPreferences, k: Seq<char>)
    ensures
        obj_get(provider_preferences_json(p), "order"@) == match p.order {
            Some(v) => Some(Json::Array(v@.map_values(|s: String| Json::Str(s@)))),
            None => None,
        },
        obj_get(provider_preferences_json(p), "only"@) == match p.only {
            Some(v) => Some(Json::Array(v@.map_values(|s: String| Json::Str(s@)))),
            None => None,
        },
        obj_get(provider_preferences_json(p), "ignore"@) == match p.ignore {
            Some(v) => Some(Json::Array(v@.map_values(|s: String| Json::Str(s@)))),
            None => None,
        },
        obj_get(provider_preferences_json(p), "allow_fallbacks"@) == match p.allow_fallbacks {
            Some(b) => Some(Json::Bool(b)),
            None => None,
        },
        obj_get(provider_preferences_json(p), "require_parameters"@) == match p.require_parameters {
            Some(b) => Some(Json::Bool(b)),
            None => None,
        },
        obj_get(provider_preferences_json(p), "quantizations"@) == match p.quantizations {
            Some(v) => Some(Json::Array(v@.map_values(|s: String| Json::Str(s@)))),
            None => None,
        },
        obj_get(provider_preferences_json(p), "sort"@) == match p.sort {
            Some(t) => Some(Json::Str(t@)),
            None => None,
        },
        obj_get(provider_preferences_json(p), "zdr"@) == match p.zdr {
            Some(b) => Some(Json::Bool(b)),
            None => None,
        },
        obj_get(provider_preferences_json(p), "data_collection"@) == match p.data_collection {
            Some(t) => Some(Json::Str(t@)),
            None => None,
        },
        k != "order"@ && k != "only"@ && k != "ignore"@ && k != "allow_fallbacks"@ && k != "require_parameters"@ && k != "quantizations"@ && k != "sort"@ && k != "zdr"@ && k != "data_collection"@ ==> obj_get(provider_preferences_json(p), k) is None,
{
    reveal_strlit("order");
    reveal_strlit("only");
    reveal_strlit("ignore");
    reveal_strlit("allow_fallbacks");
    reveal_strlit("require_parameters");
    reveal_strlit("quantizations");
    reveal_strlit("sort");
    reveal_strlit("zdr");
    reveal_strlit("data_collection");
    assert("only"@[0] != "sort"@[0]);
    assert("allow_fallbacks"@[0] != "data_collection"@[0]);
    assert("order"@.len() == 5 && "only"@.len() == 4 && "ignore"@.len() == 6);
    assert("allow_fallbacks"@.len() == 15 && "require_parameters"@.len() == 18);
    assert("quantizations"@.len() == 13 && "sort"@.len() == 4 && "zdr"@.len() == 3);
    assert("data_collection"@.len() == 15);
    lemma_preferences_get(p, "order"@);
    lemma_preferences_get(p, "only"@);
    lemma_preferences_get(p, "ignore"@);
    lemma_preferences_get(p, "allow_fallbacks"@);
    lemma_preferences_get(p, "require_parameters"@);
    lemma_preferences_get(p, "quantizations"@);
    lemma_preferences_get(p, "sort"@);
    lemma_preferences_get(p, "zdr"@);
    lemma_preferences_get(p, "data_collection"@);
    lemma_preferences_get(p, k);
}

/// Setting a key when a value is present: the value under that key, other
/// keys unchanged.
proof fn lemma_insert_present_get(o: Seq<(Seq<char>, Json)>, k: Seq<char>, v: Option<Json>, k2: Seq<char>)
    ensures
        obj_get(insert_present(o, k, v), k2) == (if k2 == k && v is Some {
            v
        } else {
            obj_get(o, k2)
        }),
{
    if v is Some {
        crate::json::lemma_obj_get_insert(o, k, v.unwrap(), k2);
    }
}

proof fn lemma_preferences_get(p: ProviderPreferences, k: Seq<char>)
    ensures
        obj_get(provider_preferences_json(p), k) == (
            if k == "data_collection"@ && p.data_collection is Some { match p.data_collection {
            Some(t) => Some(Json::Str(t@)),
            None => None,
        } }
            else if k == "zdr"@ && p.zdr is Some { match p.zdr {
            Some(b) => Some(Json::Bool(b)),
            None => None,
        } }
            else if k == "sort"@ && p.sort is Some { match p.sort {
            Some(t) => Some(Json::Str(t@)),
            None => None,
        } }
            else if k == "quantizations"@ && p.quantizations is Some { match p.quantizations {
            Some(v) => Some(Json::Array(v@.map_values(|s: String| Json::Str(s@)))),
            None => None,
        } }
            else if k == "require_parameters"@ && p.require_parameters is Some { match p.require_parameters {
            Some(b) => Some(Json::Bool(b)),
            None => None,
        } }
            else if k == "allow_fallbacks"@ && p.allow_fallbacks is Some { match p.allow_fallbacks {
            Some(b) => Some(Json::Bool(b)),
            None => None,
        } }
            else if k == "ignore"@ && p.ignore is Some { match p.ignore {
            Some(v) => Some(Json::Array(v@.map_values(|s: String| Json::Str(s@)))),
            None => None,
        } }
            else if k == "only"@ && p.only is Some { match p.only {
            Some(v) => Some(Json::Array(v@.map_values(|s: String| Json::Str(s@)))),
            None => None,
        } }
            else if k == "order"@ && p.order is Some { match p.order {
            Some(v) => Some(Json::Array(v@.map_values(|s: String| Json::Str(s@)))),
            None => None,
        } }
            else { None }),
{
    let o1 = insert_present(seq![], "order"@, match p.order { Some(v) => Some(string_list_json(v@)), None => None });
    let o2 = insert_present(o1, "only"@, match p.only { Some(v) => Some(string_list_json(v@)), None => None });
    let o3 = insert_present(o2, "ignore"@, match p.ignore { Some(v) => Some(string_list_json(v@)), None => None });
    let o4 = insert_present(o3, "allow_fallbacks"@, match p.allow_fallbacks { Some(b) => Some(Json::Bool(b)), None => None });
    let o5 = insert_present(o4, "require_parameters"@, match p.require_parameters { Some(b) => Some(Json::Bool(b)), None => None });
    let o6 = insert_present(o5, "quantizations"@, match p.quantizations { Some(v) => Some(string_list_json(v@)), None => None });
    let o7 = insert_present(o6, "sort"@, match p.sort { Some(t) => Some(Json::Str(t@)), None => None });
    let o8 = insert_present(o7, "zdr"@, match p.zdr { Some(b) => Some(Json::Bool(b)), None => None });
    lemma_insert_present_get(seq![], "order"@, match p.order { Some(v) => Some(string_list_json(v@)), None => None }, k);
    lemma_insert_present_get(o1, "only"@, match p.only { Some(v) => Some(string_list_json(v@)), None => None }, k);
    lemma_insert_present_get(o2, "ignore"@, match p.ignore { Some(v) => Some(string_list_json(v@)), None => None }, k);
    lemma_insert_present_get(o3, "allow_fallbacks"@, match p.allow_fallbacks { Some(b) => Some(Json::Bool(b)), None => None }, k);
    lemma_insert_present_get(o4, "require_parameters"@, match p.require_parameters { Some(b) => Some(Json::Bool(b)), None => None }, k);
    lemma_insert_present_get(o5, "quantizations"@, match p.quantizations { Some(v) => Some(string_list_json(v@)), None => None }, k);
    lemma_insert_present_get(o6, "sort"@, match p.sort { Some(t) => Some(Json::Str(t@)), None => None }, k);
    lemma_insert_present_get(o7, "zdr"@, match p.zdr { Some(b) => Some(Json::Bool(b)), None => None }, k);
    lemma_insert_present_get(o8, "data_collection"@, match p.data_collection { Some(t) => Some(Json::Str(t@)), None => None }, k);
}

fn string_list_value(v: &Vec<String>) -> (r: JsonValue)
    ensures
        r@ == string_list_json(v@),
        json_wf(r@),
{
    let mut out: Vec<JsonValue> = Vec::new();
    let n = v.len();
    let mut i: usize = 0;
    while i < n
        invariant
            i <= n,
            n == v@.len(),
            out@.len() == i,
            forall|j: int| 0 <= j < i ==> #[trigger] out@[j]@ == Json::Str(v@[j]@),
        decreases n - i,
    {
        out.push(JsonValue::String(v[i].clone()));
        i = i + 1;
    }
    proof {
        lemma_items_view(out@);
        let target = v@.map_values(|s: String| Json::Str(s@));
        assert forall|j: int| 0 <= j < n implies #[trigger] items_view(out@)[j] == target[j] by {
            assert(items_view(out@)[j] == crate::json::json_view(out@[j]));
            assert(out@[j]@ == Json::Str(v@[j]@));
        }
        assert(items_view(out@) =~= target);
        assert forall|j: int| 0 <= j < items_view(out@).len() implies json_wf(
            #[trigger] items_view(out@)[j],
        ) by {
            assert(items_view(out@)[j] == target[j]);
        }
    }
    JsonValue::Array(out)
}

fn insert_strings(m: &mut JsonMap, key: &str, value: &Option<Vec<String>>)
    requires
        json_wf(Json::Object(old(m)@)),
    ensures
        json_wf(Json::Object(final(m)@)),
        final(m)@ == insert_present(
            old(m)@,
            key@,
            match *value {
                Some(v) => Some(string_list_json(v@)),
                None => None,
            },
        ),
{
    if let Some(v) = value {
        let item = string_list_value(v);
        proof {
            crate::json::lemma_obj_insert_wf(m@, key@, item@);
        }
        m.insert(String::from_str(key), item);
    }
}

fn insert_bool(m: &mut JsonMap, key: &str, value: Option<bool>)
    requires
        json_wf(Json::Object(old(m)@)),
    ensures
        json_wf(Json::Object(final(m)@)),
        final(m)@ == insert_present(
            old(m)@,
            key@,
            match value {
                Some(b) => Some(Json::Bool(b)),
                None => None,
            },
        ),
{
    if let Some(b) = value {
        proof {
            crate::json::lemma_obj_insert_wf(m@, key@, Json::Bool(b));
        }
        m.insert(String::from_str(key), JsonValue::Bool(b));
    }
}

fn insert_text(m: &mut JsonMap, key: &str, value: &Option<String>)
    requires
        json_wf(Json::Object(old(m)@)),
    ensures
        json_wf(Json::Object(final(m)@)),
        final(m)@ == insert_present(
            old(m)@,
            key@,
            match *value {
                Some(s) => Some(Json::Str(s@)),
                None => None,
            },
        ),
{
    if let Some(s) = value {
        proof {
            crate::json::lemma_obj_insert_wf(m@, key@, Json::Str(s@));
        }
        m.insert(String::from_str(key), JsonValue::String(s.clone()));
    }
}

fn strings_of(items: &[&str]) -> (r: Vec<String>)
    ensures
        r@.len() == items@.len(),
        forall|i: int| 0 <= i < items@.len() ==> #[trigger] r@[i]@ == items@[i]@,
{
    let mut out: Vec<String> = Vec::new();
    let n = items.len();
    let mut i: usize = 0;
    while i < n
        invariant
            i <= n,
            n == items@.len(),
            out@.len() == i,
            forall|j: int| 0 <= j < i ==> #[trigger] out@[j]@ == items@[j]@,
        decreases n - i,
    {
        out.push(String::from_str(items[i]));
        i = i + 1;
    }
    out
}

impl Default for ProviderPreferences {
    /// Preferences that set nothing.
    fn default() -> (p: ProviderPreferences)
        ensures
            p.order is None,
            p.only is None,
            p.allow_fallbacks is None,
            p.require_parameters is None,
            p.sort is None,
            prefs_unset_except_order_only_sort(p),
    {
        ProviderPreferences {
            order: None,
            only: None,
            ignore: None,
            allow_fallbacks: None,
            require_parameters: None,
            quantizations: None,
            sort: None,
            zdr: None,
            data_collection: None,
        }
    }
}

impl ProviderPreferences {
    /// Pins a single provider: only it, no fallbacks, and providers must
    /// support all request parameters.
    pub fn pinned(provider: &str) -> (p: ProviderPreferences)
        ensures
            p.only matches Some(v) && texts(v@) == seq![provider@],
            p.allow_fallbacks == Some(false),
            p.require_parameters == Some(true),
            p.order is None,
            p.sort is None,
            prefs_unset_except_order_only_sort(p),
    {
        let mut only: Vec<String> = Vec::new();
        only.push(String::from_str(provider));
        assert(texts(only@) =~= seq![provider@]);
        ProviderPreferences {
            only: Some(only),
            allow_fallbacks: Some(false),
            require_parameters: Some(true),
            ..ProviderPreferences::default()
        }
    }

    /// Prefers providers in the given order, with fallback allowed.
    pub fn prefer(providers: &[&str]) -> (p: ProviderPreferences)
        ensures
            p.order matches Some(v) && texts(v@) == providers@.map_values(|s: &str| s@),
            p.require_parameters == Some(true),
            p.only is None,
            p.allow_fallbacks is None,
            p.sort is None,
            prefs_unset_except_order_only_sort(p),
    {
        let order = strings_of(providers);
        assert(texts(order@) =~= providers@.map_values(|s: &str| s@));
        ProviderPreferences {
            order: Some(order),
            require_parameters: Some(true),
            ..ProviderPreferences::default()
        }
    }

    /// Optimized for throughput (fast inference).
    pub fn fast() -> (p: ProviderPreferences)
        ensures
            p.sort matches Some(s) && s@ == "throughput"@,
            p.require_parameters == Some(true),
            p.order is None,
            p.only is None,
            p.allow_fallbacks is None,
            prefs_unset_except_order_only_sort(p),
    {
        ProviderPreferences {
            sort: Some(String::from_str("throughput")),
            require_parameters: Some(true),
            ..ProviderPreferences::default()
        }
    }

    /// Optimized for the lowest price.
    pub fn cheap() -> (p: ProviderPreferences)
        ensures
            p.sort matches Some(s) && s@ == "price"@,
            p.require_parameters == Some(true),
            p.order is None,
            p.only is None,
            p.allow_fallbacks is None,
            prefs_unset_except_order_only_sort(p),
    {
        ProviderPreferences {
            sort: Some(String::from_str("price")),
            require_parameters: Some(true),
            ..ProviderPreferences::default()
        }
    }

    /// The preferences as a JSON object, one key per field that is set.
    pub fn to_value(&self) -> (r: Result<JsonValue, OpenAIError>)
        ensures
            r matches Ok(v) && v@ == Json::Object(provider_preferences_json(*self)) && json_wf(v@),
    {
        let mut m = JsonMap::new();
        insert_strings(&mut m, "order", &self.order);
        insert_strings(&mut m, "only", &self.only);
        insert_strings(&mut m, "ignore", &self.ignore);
        insert_bool(&mut m, "allow_fallbacks", self.allow_fallbacks);
        insert_bool(&mut m, "require_parameters", self.require_parameters);
        insert_strings(&mut m, "quantizations", &self.quantizations);
        insert_text(&mut m, "sort", &self.sort);
        insert_bool(&mut m, "zdr", self.zdr);
        insert_text(&mut m, "data_collection", &self.data_collection);
        Ok(JsonValue::Object(m))
    }
}

/// Puts provider preferences under `provider` in a JSON request body; a body
/// that is not an object is left as it is.
pub fn inject_provider(body: &mut JsonValue, prefs: &ProviderPreferences) -> (r: Result<
    (),
    OpenAIError,
>)
    requires
        json_wf(old(body)@),
    ensures
        r is Ok,
        json_wf(final(body)@),
        final(body)@ == (match old(body)@ {
            Json::Object(o) => Json::Object(
                obj_insert(o, "provider"@, Json::Object(provider_preferences_json(*prefs))),
            ),
            other => other,
        }),
{
    let provider_value = prefs.to_value()?;
    let mut taken = JsonValue::Null;
    std::mem::swap(body, &mut taken);
    match taken {
        JsonValue::Object(mut map) => {
            proof {
                crate::json::lemma_obj_insert_wf(map@, "provider"@, provider_value@);
            }
            map.insert(String::from_str("provider"), provider_value);
            *body = JsonValue::Object(map);
        },
        other => {
            *body = other;
        },
    }
    Ok(())
}

} // verus!
