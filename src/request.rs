use vstd::prelude::*;
use vstd::string::*;
use crate::error::ClientError;
use crate::headers::{describes, entry_view, header_key, HeaderStore};

verus! {

/// A character that a header value may hold: a tab, or anything from the
/// space up but the delete character.
pub open spec fn value_char_ok(c: char) -> bool {
    (c as int >= 32 && c as int != 127) || c as int == 9
}

pub open spec fn header_value_ok(value: Seq<char>) -> bool {
    forall|i: int| 0 <= i < value.len() ==> value_char_ok(#[trigger] value[i])
}

/// A character that a header name may hold: an ASCII letter or digit, or one
/// of ``!"#$%&'*+-.^_`|~``.
pub open spec fn name_char_ok(c: char) -> bool {
    let n = c as int;
    ||| 33 <= n && n <= 39
    ||| n == 42 || n == 43 || n == 45 || n == 46
    ||| 48 <= n && n <= 57
    ||| 65 <= n && n <= 90
    ||| 94 <= n && n <= 122
    ||| n == 124 || n == 126
}

/// A header name that can be sent: one to 65535 characters, each allowed.
pub open spec fn header_name_ok(name: Seq<char>) -> bool {
    &&& 1 <= name.len() <= 65535
    &&& forall|i: int| 0 <= i < name.len() ==> name_char_ok(#[trigger] name[i])
}

/// Relies on http's HeaderName::from_bytes (re-exported by isahc): it accepts
/// a name of 1 to 65535 bytes each of which its table of token characters
/// admits. Those characters are ASCII, so bytes and characters agree.
#[verifier::external_body]
fn accepts_name(name: &str) -> (r: bool)
    ensures
        r == header_name_ok(name@),
{
    isahc::http::HeaderName::from_bytes(name.as_bytes()).is_ok()
}

/// Relies on http's HeaderValue::from_str: it accepts a value exactly when
/// every byte is a tab, or at least a space and not the delete character.
#[verifier::external_body]
fn accepts_value(value: &str) -> (r: bool)
    ensures
        r == header_value_ok(value@),
{
    isahc::http::HeaderValue::from_str(value).is_ok()
}

pub open spec fn header_ok(e: (String, String)) -> bool {
    header_name_ok(e.0@) && header_value_ok(e.1@)
}

/// The HTTP method of a request.
#[derive(Debug, Clone, Copy, PartialEq, Eq)]
pub enum Method {
    Get,
    Post,
}

/// A request ready for the transport: where it goes, what it carries.
pub struct PreparedRequest {
    pub method: Method,
    pub url: String,
    pub headers: Vec<(String, String)>,
    pub body: Option<String>,
}

/// Checks that every header can be sent; names the first that cannot.
pub fn check_headers(headers: &Vec<(String, String)>) -> (r: Result<(), ClientError>)
    ensures
        r is Ok == (forall|i: int| 0 <= i < headers@.len() ==> header_ok(#[trigger] headers@[i])),
        r matches Err(e) ==> exists|i: int|
            #![trigger headers@[i]]
            0 <= i < headers@.len() && !header_ok(headers@[i]) && e
                == ClientError::HeaderEncoding(headers@[i].0) && forall|j: int|
                0 <= j < i ==> header_ok(#[trigger] headers@[j]),
{
    let mut i: usize = 0;
    while i < headers.len()
        invariant
            i <= headers@.len(),
            forall|j: int| 0 <= j < i ==> header_ok(#[trigger] headers@[j]),
        decreases headers@.len() - i,
    {
        let name = &headers[i].0;
        if !accepts_name(name.as_str()) || !accepts_value(headers[i].1.as_str()) {
            let e = ClientError::HeaderEncoding(name.clone());
            proof {
                assert(!header_ok(headers@[i as int]));
            }
            return Err(e);
        }
        i = i + 1;
    }
    Ok(())
}

/// The URL that a request for `path` goes to: the base followed by the path,
/// with nothing added, removed or escaped.
pub fn join_url(base_url: &str, path: &str) -> (r: String)
    ensures
        r@ == base_url@ + path@,
{
    let mut url = String::from_str(base_url);
    url.append(path);
    url
}

/// Every header of `m` can be sent.
pub open spec fn all_headers_ok(m: Map<Seq<int>, (Seq<char>, Seq<char>)>) -> bool {
    forall|k: Seq<int>| #[trigger]
        m.contains_key(k) ==> header_name_ok(m[k].0) && header_value_ok(m[k].1)
}

/// `m` holds a header named `name` that cannot be sent.
pub open spec fn holds_bad_header(m: Map<Seq<int>, (Seq<char>, Seq<char>)>, name: Seq<char>) -> bool {
    exists|k: Seq<int>| #[trigger]
        m.contains_key(k) && m[k].0 == name && !(header_name_ok(m[k].0) && header_value_ok(m[k].1))
}

/// Builds a request from the base URL, the default headers and the headers
/// of this call, which win over the defaults on a name that both hold.
pub fn build_request(
    method: Method,
    base_url: &str,
    path: &str,
    defaults: &HeaderStore,
    extra: &HeaderStore,
    body: Option<String>,
) -> (r: Result<PreparedRequest, ClientError>)
    requires
        defaults.wf(),
        extra.wf(),
    ensures
        r is Ok == all_headers_ok(defaults@.union_prefer_right(extra@)),
        r matches Ok(q) ==> {
            &&& q.method == method
            &&& q.url@ == base_url@ + path@
            &&& q.body == body
            &&& describes(q.headers@, defaults@.union_prefer_right(extra@))
        },
        r matches Err(e) ==> e matches ClientError::HeaderEncoding(n) && holds_bad_header(
            defaults@.union_prefer_right(extra@),
            n@,
        ),
{
    let merged = defaults.merged(extra);
    let headers = merged.pairs();
    match check_headers(&headers) {
        Ok(()) => {
            proof {
                let m = merged@;
                assert forall|k: Seq<int>| #[trigger]
                    m.contains_key(k) implies header_name_ok(m[k].0) && header_value_ok(m[k].1) by {
                    let i = choose|i: int| 0 <= i < headers@.len() && header_key(#[trigger] headers@[i].0@) == k;
                    assert(header_ok(headers@[i]));
                }
            }
            Ok(PreparedRequest { method, url: join_url(base_url, path), headers, body })
        },
        Err(e) => {
            proof {
                let m = merged@;
                let i = choose|i: int|
                    #![trigger headers@[i]]
                    0 <= i < headers@.len() && !header_ok(headers@[i]) && e
                        == ClientError::HeaderEncoding(headers@[i].0) && forall|j: int|
                        0 <= j < i ==> header_ok(#[trigger] headers@[j]);
                assert(m.contains_key(header_key(headers@[i].0@)));
            }
            Err(e)
        },
    }
}

/// A header given for one call wins over the default of the same name: the
/// request carries the call's name and value for it, and no other.
pub proof fn lemma_call_header_wins(
    defaults: HeaderStore,
    extra: HeaderStore,
    headers: Seq<(String, String)>,
    name: Seq<char>,
)
    requires
        extra@.contains_key(header_key(name)),
        describes(headers, defaults@.union_prefer_right(extra@)),
    ensures
        exists|i: int|
            0 <= i < headers.len() && header_key(#[trigger] headers[i].0@) == header_key(name),
        forall|i: int|
            0 <= i < headers.len() && header_key(#[trigger] headers[i].0@) == header_key(name)
                ==> entry_view(headers[i]) == extra@[header_key(name)],
{
    let m = defaults@.union_prefer_right(extra@);
    assert(m.contains_key(header_key(name)));
}

/// Two requests built from the same headers carry the same headers: each
/// (name, value) pair of one is a pair of the other.
pub proof fn lemma_same_headers_sent(
    h1: Seq<(String, String)>,
    h2: Seq<(String, String)>,
    m: Map<Seq<int>, (Seq<char>, Seq<char>)>,
    i: int,
)
    requires
        describes(h1, m),
        describes(h2, m),
        0 <= i < h1.len(),
    ensures
        exists|j: int| 0 <= j < h2.len() && entry_view(h1[i]) == entry_view(#[trigger] h2[j]),
{
    let k = header_key(h1[i].0@);
    assert(m.contains_key(k));
    let j = choose|j: int| 0 <= j < h2.len() && header_key(#[trigger] h2[j].0@) == k;
    assert(entry_view(h2[j]) == m[k]);
}

} // verus!
