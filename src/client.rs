use vstd::prelude::*;
use vstd::string::*;
use crate::error::ClientError;
use crate::headers::{describes, header_key, HeaderStore};
use crate::response::{interpret_response, response_outcome};
use crate::request::{
    all_headers_ok, build_request, holds_bad_header, join_url, Method, PreparedRequest,
};

verus! {

/// isahc's HTTP client, the transport; carried through unopened.
#[verifier::external_type_specification]
#[verifier::external_body]
pub struct ExHttpClient(isahc::HttpClient);

/// Relies on isahc's Clone for HttpClient: the copy shares the same
/// transport. Nothing is stated of it.
pub assume_specification[ <isahc::HttpClient as std::clone::Clone>::clone ](
    c: &isahc::HttpClient,
) -> isahc::HttpClient;

/// Relies on isahc's HttpClientBuilder::build with the default settings; on
/// failure the error is handed on as its message.
#[verifier::external_body]
fn build_transport() -> (r: Result<isahc::HttpClient, String>) {
    isahc::HttpClient::builder().build().map_err(|e| e.to_string())
}

/// A client for one base URL: a transport and a set of default headers.
#[derive(Clone)]
pub struct ApiClient {
    client: isahc::HttpClient,
    headers: HeaderStore,
    base_url: String,
}

impl ApiClient {
    /// The base URL, as it was given.
    pub closed spec fn base(&self) -> Seq<char> {
        self.base_url@
    }

    /// The default headers, sent with every request.
    pub closed spec fn defaults(&self) -> Map<Seq<int>, (Seq<char>, Seq<char>)> {
        self.headers@
    }

    pub closed spec fn wf(&self) -> bool {
        self.headers.wf()
    }

    /// A client from the outcome of building its transport: the build's error
    /// becomes `TransportInit` with the same message.
    pub fn from_transport(
        base_url: String,
        headers: HeaderStore,
        built: Result<isahc::HttpClient, String>,
    ) -> (r: Result<ApiClient, ClientError>)
        requires
            headers.wf(),
        ensures
            r is Ok == built is Ok,
            r matches Ok(c) ==> c.wf() && c.base() == base_url@ && c.defaults() == headers@,
            built matches Err(m) ==> r == Err::<ApiClient, ClientError>(
                ClientError::TransportInit(m),
            ),
    {
        match built {
            Ok(client) => Ok(ApiClient { client, headers, base_url }),
            Err(msg) => Err(ClientError::TransportInit(msg)),
        }
    }

    /// A client with no default headers.
    pub fn new(base_url: String) -> (r: Result<ApiClient, ClientError>)
        ensures
            r matches Ok(c) ==> c.wf() && c.base() == base_url@ && c.defaults() == Map::<
                Seq<int>,
                (Seq<char>, Seq<char>),
            >::empty(),
            r matches Err(e) ==> e is TransportInit,
    {
        ApiClient::with_headers(base_url, HeaderStore::new())
    }

    /// A client whose default headers start as `headers`.
    pub fn with_headers(base_url: String, headers: HeaderStore) -> (r: Result<ApiClient, ClientError>)
        requires
            headers.wf(),
        ensures
            r matches Ok(c) ==> c.wf() && c.base() == base_url@ && c.defaults() == headers@,
            r matches Err(e) ==> e is TransportInit,
    {
        ApiClient::from_transport(base_url, headers, build_transport())
    }

    /// The transport that requests of this client go through.
    pub fn transport(&self) -> (r: &isahc::HttpClient) {
        &self.client
    }

    /// Inserts or overwrites a default header. A header that cannot be sent
    /// is kept all the same: the requests built after it fail.
    pub fn set_header(&mut self, key: &str, value: &str)
        requires
            old(self).wf(),
        ensures
            final(self).wf(),
            final(self).defaults() == old(self).defaults().insert(header_key(key@), (key@, value@)),
            final(self).base() == old(self).base(),
    {
        self.headers.set(String::from_str(key), String::from_str(value));
    }

    /// The value of a default header, if it is set.
    pub fn header(&self, key: &str) -> (r: Option<String>)
        requires
            self.wf(),
        ensures
            r is Some == self.defaults().contains_key(header_key(key@)),
            r matches Some(v) ==> v@ == self.defaults()[header_key(key@)].1,
    {
        self.headers.get(key)
    }

    /// The URL that a request for `path` goes to.
    pub fn format_url(&self, path: &str) -> (r: String)
        ensures
            r@ == self.base() + path@,
    {
        join_url(self.base_url.as_str(), path)
    }

    /// Builds a request with the default headers and the headers of this
    /// call written over them.
    pub fn prepare(&self, method: Method, path: &str, extra: &HeaderStore, body: Option<String>) -> (r:
        Result<PreparedRequest, ClientError>)
        requires
            self.wf(),
            extra.wf(),
        ensures
            r is Ok == all_headers_ok(self.defaults().union_prefer_right(extra@)),
            r matches Ok(q) ==> {
                &&& q.method == method
                &&& q.url@ == self.base() + path@
                &&& q.body == body
                &&& describes(q.headers@, self.defaults().union_prefer_right(extra@))
            },
            r matches Err(e) ==> e matches ClientError::HeaderEncoding(n) && holds_bad_header(
                self.defaults().union_prefer_right(extra@),
                n@,
            ),
    {
        build_request(method, self.base_url.as_str(), path, &self.headers, extra, body)
    }

    /// The request of a GET for `path`, with the default headers.
    pub fn get_request(&self, path: &str) -> (r: Result<PreparedRequest, ClientError>)
        requires
            self.wf(),
        ensures
            r is Ok == all_headers_ok(self.defaults()),
            r matches Ok(q) ==> {
                &&& q.method == Method::Get
                &&& q.url@ == self.base() + path@
                &&& q.body is None
                &&& describes(q.headers@, self.defaults())
            },
            r matches Err(e) ==> e matches ClientError::HeaderEncoding(n) && holds_bad_header(
                self.defaults(),
                n@,
            ),
    {
        let none = HeaderStore::new();
        proof {
            assert(self.defaults().union_prefer_right(none@) =~= self.defaults());
        }
        self.prepare(Method::Get, path, &none, None)
    }

    /// The request of a POST of `body` to `path`, with the default headers.
    /// The body goes as it is given.
    pub fn post_request(&self, path: &str, body: String) -> (r: Result<PreparedRequest, ClientError>)
        requires
            self.wf(),
        ensures
            r is Ok == all_headers_ok(self.defaults()),
            r matches Ok(q) ==> {
                &&& q.method == Method::Post
                &&& q.url@ == self.base() + path@
                &&& q.body == Some(body)
                &&& describes(q.headers@, self.defaults())
            },
            r matches Err(e) ==> e matches ClientError::HeaderEncoding(n) && holds_bad_header(
                self.defaults(),
                n@,
            ),
    {
        let none = HeaderStore::new();
        proof {
            assert(self.defaults().union_prefer_right(none@) =~= self.defaults());
        }
        self.prepare(Method::Post, path, &none, Some(body))
    }

    /// The result of a call whose response had this status and text.
    pub fn finish(&self, status: u16, text: String) -> (r: Result<serde_json::Value, ClientError>)
        ensures
            r == response_outcome(status, text),
    {
        interpret_response(status, text)
    }
}

} // verus!
