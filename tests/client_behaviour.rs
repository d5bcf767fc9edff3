use api_client::client::ApiClient;
use api_client::error::ClientError;
use api_client::headers::{same_name, HeaderStore};
use api_client::request::{build_request, check_headers, join_url, Method};
use api_client::response::{interpret, interpret_response, status_is_success};
use serde_json::Value;

fn store(pairs: &[(&str, &str)]) -> HeaderStore {
    let mut s = HeaderStore::new();
    for (k, v) in pairs {
        s.set(k.to_string(), v.to_string());
    }
    s
}

fn header_of<'a>(headers: &'a [(String, String)], name: &str) -> Vec<&'a str> {
    headers
        .iter()
        .filter(|(k, _)| k.eq_ignore_ascii_case(name))
        .map(|(_, v)| v.as_str())
        .collect()
}

#[test]
fn url_is_plain_concatenation() {
    assert_eq!(
        join_url("https://api.example.com", "/v1/items"),
        "https://api.example.com/v1/items"
    );
    assert_eq!(join_url("http://h/", "/x"), "http://h//x");
    assert_eq!(join_url("", ""), "");
    assert_eq!(join_url("http://h", "?q=a b"), "http://h?q=a b");
}

#[test]
fn client_formats_url_from_base() {
    let c = ApiClient::new("https://api.example.com".to_string()).unwrap();
    assert_eq!(c.format_url("/v1/items"), "https://api.example.com/v1/items");
}

#[test]
fn call_header_overrides_default() {
    let defaults = store(&[("X", "1"), ("Accept", "application/json")]);
    let extra = store(&[("X", "2")]);
    let req = build_request(Method::Get, "http://h", "/p", &defaults, &extra, None).unwrap();
    assert_eq!(header_of(&req.headers, "X"), vec!["2"]);
    assert_eq!(header_of(&req.headers, "accept"), vec!["application/json"]);
    assert_eq!(req.headers.len(), 2);
    assert_eq!(defaults.get("X"), Some("1".to_string()));
    assert_eq!(req.url, "http://h/p");
    assert_eq!(req.method, Method::Get);
    assert!(req.body.is_none());
}

#[test]
fn header_names_ignore_ascii_case() {
    let mut s = HeaderStore::new();
    s.set("content-type".to_string(), "text/plain".to_string());
    s.set("Content-Type".to_string(), "application/json".to_string());
    assert_eq!(s.get("CONTENT-TYPE"), Some("application/json".to_string()));
    assert_eq!(s.pairs(), vec![("Content-Type".to_string(), "application/json".to_string())]);
    assert!(same_name("X-Api-Key", "x-api-key"));
    assert!(!same_name("X-Api-Key", "x-api-kez"));
    assert!(!same_name("a", "ab"));
    assert_eq!(s.get("Accept"), None);
}

#[test]
fn call_header_differs_only_in_case() {
    let defaults = store(&[("x-token", "old")]);
    let extra = store(&[("X-Token", "new")]);
    let req = build_request(Method::Post, "b", "/p", &defaults, &extra, Some("{}".to_string())).unwrap();
    assert_eq!(req.headers, vec![("X-Token".to_string(), "new".to_string())]);
    assert_eq!(req.body, Some("{}".to_string()));
}

#[test]
fn success_with_json_body() {
    let expected: Value = serde_json::from_str("{\"a\": 1}").unwrap();
    assert_eq!(interpret_response(200, "{\"a\":1}".to_string()), Ok(expected));
}

#[test]
fn success_with_plain_text_body() {
    assert_eq!(
        interpret_response(200, "plain text".to_string()),
        Ok(Value::String("plain text".to_string()))
    );
}

#[test]
fn failure_status_carries_text() {
    assert_eq!(
        interpret_response(500, "server error".to_string()),
        Err(ClientError::RequestFailed("server error".to_string()))
    );
    assert_eq!(
        interpret_response(404, "{\"a\":1}".to_string()),
        Err(ClientError::RequestFailed("{\"a\":1}".to_string()))
    );
}

#[test]
fn success_range_bounds() {
    assert!(!status_is_success(199));
    assert!(status_is_success(200));
    assert!(status_is_success(299));
    assert!(!status_is_success(300));
    assert!(!status_is_success(403));
    assert_eq!(interpret_response(204, String::new()), Ok(Value::String(String::new())));
    assert_eq!(
        interpret_response(300, "moved".to_string()),
        Err(ClientError::RequestFailed("moved".to_string()))
    );
}

#[test]
fn interpret_uses_given_parse() {
    let v: Value = serde_json::from_str("[1,2]").unwrap();
    assert_eq!(interpret(201, "[1,2]".to_string(), Some(v.clone())), Ok(v.clone()));
    assert_eq!(
        interpret(201, "[1,2".to_string(), None),
        Ok(Value::String("[1,2".to_string()))
    );
    assert_eq!(
        interpret(502, "[1,2]".to_string(), Some(v)),
        Err(ClientError::RequestFailed("[1,2]".to_string()))
    );
}

#[test]
fn repeated_response_gives_equal_result() {
    let a = interpret_response(200, "{\"k\":[true,null]}".to_string());
    let b = interpret_response(200, "{\"k\":[true,null]}".to_string());
    assert_eq!(a, b);
}

#[test]
fn repeated_get_builds_equal_requests() {
    let mut c = ApiClient::new("http://localhost:1".to_string()).unwrap();
    c.set_header("Accept", "application/json");
    let a = c.get_request("/items").unwrap();
    let b = c.get_request("/items").unwrap();
    assert_eq!(a.url, b.url);
    assert_eq!(a.headers, b.headers);
    assert_eq!(a.method, Method::Get);
}

#[test]
fn set_header_overwrites_default() {
    let mut c = ApiClient::new("http://localhost:1".to_string()).unwrap();
    c.set_header("X", "1");
    c.set_header("x", "2");
    assert_eq!(c.header("X"), Some("2".to_string()));
    let req = c.post_request("/items", "{\"n\":1}".to_string()).unwrap();
    assert_eq!(req.headers, vec![("x".to_string(), "2".to_string())]);
    assert_eq!(req.body, Some("{\"n\":1}".to_string()));
    assert_eq!(req.method, Method::Post);
    assert_eq!(req.url, "http://localhost:1/items");
}

#[test]
fn clone_copies_default_headers() {
    let mut c = ApiClient::new("http://h".to_string()).unwrap();
    c.set_header("Authorization", "Bearer t");
    let mut d = c.clone();
    d.set_header("authorization", "Bearer u");
    assert_eq!(c.header("AUTHORIZATION"), Some("Bearer t".to_string()));
    assert_eq!(d.header("Authorization"), Some("Bearer u".to_string()));
}

#[test]
fn initial_headers_become_defaults() {
    let c = ApiClient::with_headers("http://h".to_string(), store(&[("User-Agent", "t/1")])).unwrap();
    let req = c.get_request("").unwrap();
    assert_eq!(req.headers, vec![("User-Agent".to_string(), "t/1".to_string())]);
    assert_eq!(req.url, "http://h");
}

#[test]
fn bad_header_value_is_refused() {
    let mut c = ApiClient::new("http://h".to_string()).unwrap();
    c.set_header("X-Note", "line\nbreak");
    assert_eq!(
        c.get_request("/a").err(),
        Some(ClientError::HeaderEncoding("X-Note".to_string()))
    );
}

#[test]
fn bad_header_name_is_refused() {
    let defaults = store(&[("Ok", "1")]);
    let extra = store(&[("bad name", "v")]);
    let r = build_request(Method::Get, "b", "/", &defaults, &extra, None);
    assert_eq!(r.err(), Some(ClientError::HeaderEncoding("bad name".to_string())));
    let empty = store(&[("", "v")]);
    assert_eq!(
        check_headers(&empty.pairs()),
        Err(ClientError::HeaderEncoding(String::new()))
    );
}

#[test]
fn header_value_tab_and_unicode_accepted() {
    let s = store(&[("X-A", "a\tb"), ("X-B", "caf\u{e9}")]);
    assert_eq!(check_headers(&s.pairs()), Ok(()));
    let d = store(&[("X-C", "del\u{7f}")]);
    assert!(check_headers(&d.pairs()).is_err());
}

#[test]
fn many_writes_keep_one_entry_per_name() {
    let mut c = ApiClient::new("http://h".to_string()).unwrap();
    for n in 0..50 {
        c.set_header(&format!("X-{}", n % 5), &format!("{}-{}", n % 4, n));
        let req = c.get_request("/r").unwrap();
        assert!(req.headers.len() <= 5);
        assert_eq!(header_of(&req.headers, &format!("x-{}", n % 5)), vec![format!("{}-{}", n % 4, n)]);
    }
    let req = c.get_request("/r").unwrap();
    assert_eq!(req.headers.len(), 5);
    for n in 0..5 {
        assert_eq!(header_of(&req.headers, &format!("x-{}", n)).len(), 1);
    }
}

#[test]
fn new_client_has_no_headers_and_keeps_base() {
    let c = ApiClient::new("https://api.example.com/".to_string()).unwrap();
    assert_eq!(c.format_url("x"), "https://api.example.com/x");
    assert_eq!(c.get_request("").unwrap().headers, Vec::<(String, String)>::new());
}

#[test]
fn failed_transport_build_is_transport_init() {
    let r = ApiClient::from_transport("http://h".to_string(), HeaderStore::new(), Err("no agent".to_string()));
    assert!(matches!(r, Err(ClientError::TransportInit(ref m)) if m == "no agent"));
}

#[test]
fn built_transport_gives_client_with_given_headers() {
    let t = isahc::HttpClient::new().unwrap();
    let c = ApiClient::from_transport("http://h".to_string(), store(&[("A", "b")]), Ok(t)).unwrap();
    assert_eq!(c.header("a"), Some("b".to_string()));
    assert_eq!(c.format_url("/p"), "http://h/p");
}

#[test]
fn bad_header_is_kept_and_next_request_fails() {
    let mut c = ApiClient::new("http://h".to_string()).unwrap();
    c.set_header("bad key", "v");
    assert_eq!(c.header("BAD KEY"), Some("v".to_string()));
    assert_eq!(
        c.post_request("/p", String::new()).err(),
        Some(ClientError::HeaderEncoding("bad key".to_string()))
    );
    c.set_header("bad key", "w");
    assert_eq!(c.header("bad key"), Some("w".to_string()));
}

#[test]
fn header_name_rules() {
    assert_eq!(check_headers(&store(&[("a\"b!#~|`^_", "v")]).pairs()), Ok(()));
    assert!(check_headers(&store(&[("a:b", "v")]).pairs()).is_err());
    assert!(check_headers(&store(&[("caf\u{e9}", "v")]).pairs()).is_err());
    let longest = "a".repeat(65535);
    assert_eq!(check_headers(&store(&[(longest.as_str(), "v")]).pairs()), Ok(()));
    let too_long = "a".repeat(65536);
    assert!(check_headers(&store(&[(too_long.as_str(), "v")]).pairs()).is_err());
}

#[test]
fn first_bad_header_is_named() {
    let headers = vec![
        ("Ok".to_string(), "1".to_string()),
        ("no good".to_string(), "1".to_string()),
        ("X".to_string(), "a\nb".to_string()),
    ];
    assert_eq!(check_headers(&headers), Err(ClientError::HeaderEncoding("no good".to_string())));
}
