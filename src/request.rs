use vstd::prelude::*;
use vstd::string::*;
use crate::config::{Config, has_version, headers_spec, pairs_view, query_spec, url_spec};
use crate::error::OpenAIError;
use crate::json::{json_error_text, json_to_vec};
use crate::multipart::MultipartForm;

verus! {

/// HTTP method of a request.
#[derive(Clone, Copy, PartialEq, Eq, Structural, Debug)]
pub enum Method {
    Get,
    Post,
    Delete,
}

/// The body of a request.
pub enum RequestBody {
    Empty,
    /// JSON text.
    Json(Vec<u8>),
    Multipart(MultipartForm),
}

/// A request ready to hand to the transport.
pub struct HttpRequest {
    pub method: Method,
    pub url: String,
    pub query: Vec<(String, String)>,
    pub headers: Vec<(String, String)>,
    pub body: RequestBody,
}

pub open spec fn json_content_type() -> (Seq<char>, Seq<char>) {
    ("Content-Type"@, "application/json"@)
}

/// The URL, query and headers of a request to `path` under `c` match the
/// configuration.
pub open spec fn addressed(r: HttpRequest, c: Config, path: Seq<char>, extra: Seq<(Seq<char>, Seq<char>)>) -> bool {
    &&& url_spec(c, path) == Some(r.url@)
    &&& query_spec(c) == Some(pairs_view(r.query@))
    &&& pairs_view(r.headers@) == headers_spec(c) + extra
}

fn address(config: &Config, path: &str) -> (r: Result<(String, Vec<(String, String)>), OpenAIError>)
    ensures
        url_spec(*config, path@) is None ==> (r matches Err(e) && e is Configuration),
        url_spec(*config, path@) is Some ==> (r matches Ok(a) && url_spec(*config, path@) == Some(a.0@)
            && query_spec(*config) == Some(pairs_view(a.1@))),
{
    let url = match config.url(path) {
        Ok(u) => u,
        Err(e) => {
            return Err(e);
        },
    };
    match config.query() {
        Ok(q) => Ok((url, q)),
        Err(e) => Err(e),
    }
}

/// A POST of a JSON value to `path`: configuration headers, then the JSON
/// content type; the body is the JSON text that serde_json writes for the
/// value.
pub fn json_request(config: &Config, path: &str, body: &serde_json::Value) -> (r: Result<HttpRequest, OpenAIError>)
    ensures
        url_spec(*config, path@) is None ==> (r matches Err(e) && e is Configuration),
        url_spec(*config, path@) is Some ==> (r matches Ok(req) && addressed(req, *config, path@, seq![json_content_type()])
            && req.method == Method::Post && req.body is Json),
{
    match json_to_vec(body) {
        Ok(bytes) => json_text_request(config, path, bytes),
        Err(e) => Err(OpenAIError::InvalidArgument(json_error_text(&e))),
    }
}

/// A POST of JSON text to `path`: configuration headers, then the JSON
/// content type.
pub fn json_text_request(config: &Config, path: &str, body: Vec<u8>) -> (r: Result<HttpRequest, OpenAIError>)
    ensures
        url_spec(*config, path@) is None ==> (r matches Err(e) && e is Configuration),
        url_spec(*config, path@) is Some ==> (r matches Ok(req) && addressed(req, *config, path@, seq![json_content_type()])
            && req.method == Method::Post
            && (req.body matches RequestBody::Json(b) && b == body)),
{
    let (url, query) = match address(config, path) {
        Ok(a) => a,
        Err(e) => {
            return Err(e);
        },
    };
    let mut headers = config.headers();
    headers.push((String::from_str("Content-Type"), String::from_str("application/json")));
    proof {
        assert(pairs_view(headers@) =~= headers_spec(*config) + seq![json_content_type()]);
    }
    Ok(HttpRequest { method: Method::Post, url, query, headers, body: RequestBody::Json(body) })
}

/// A POST of a multipart form to `path`, with the configuration headers; the
/// transport adds the multipart content type with its boundary.
pub fn multipart_request(config: &Config, path: &str, form: MultipartForm) -> (r: Result<HttpRequest, OpenAIError>)
    ensures
        url_spec(*config, path@) is None ==> (r matches Err(e) && e is Configuration),
        url_spec(*config, path@) is Some ==> (r matches Ok(req) && addressed(req, *config, path@, Seq::empty())
            && req.method == Method::Post
            && (req.body matches RequestBody::Multipart(f) && f@ == form@)),
{
    let (url, query) = match address(config, path) {
        Ok(a) => a,
        Err(e) => {
            return Err(e);
        },
    };
    let headers = config.headers();
    proof {
        assert(pairs_view(headers@) =~= headers_spec(*config) + Seq::empty());
    }
    Ok(HttpRequest { method: Method::Post, url, query, headers, body: RequestBody::Multipart(form) })
}

/// A request without a body to `path`, with the configuration headers.
pub fn bare_request(config: &Config, method: Method, path: &str) -> (r: Result<HttpRequest, OpenAIError>)
    ensures
        url_spec(*config, path@) is None ==> (r matches Err(e) && e is Configuration),
        url_spec(*config, path@) is Some ==> (r matches Ok(req) && addressed(req, *config, path@, Seq::empty())
            && req.method == method && req.body is Empty),
{
    let (url, query) = match address(config, path) {
        Ok(a) => a,
        Err(e) => {
            return Err(e);
        },
    };
    let headers = config.headers();
    proof {
        assert(pairs_view(headers@) =~= headers_spec(*config) + Seq::empty());
    }
    Ok(HttpRequest { method, url, query, headers, body: RequestBody::Empty })
}

/// Checks a request's stream flag against the kind of call: a single-shot
/// call refuses `stream: true`, a streaming call refuses `stream: false`.
pub fn check_stream_flag(stream: Option<bool>, streaming_call: bool) -> (r: Result<(), OpenAIError>)
    ensures
        r is Ok <==> (streaming_call ==> stream != Some(false)) && (!streaming_call ==> stream != Some(true)),
        r matches Err(e) ==> e is InvalidArgument,
{
    match stream {
        Some(true) if !streaming_call => Err(OpenAIError::InvalidArgument(
            String::from_str("stream is set: use the streaming call"),
        )),
        Some(false) if streaming_call => Err(OpenAIError::InvalidArgument(
            String::from_str("stream is unset: use the single-shot call"),
        )),
        _ => Ok(()),
    }
}

/// Every request built for a default-service configuration, JSON, multipart
/// or bare, carries no query parameter, so no `api-version`; one for a
/// gateway configuration exists only when that configuration holds a
/// non-empty API version, which it then carries.
pub proof fn lemma_requests_follow_version_rules(
    req: HttpRequest,
    c: Config,
    path: Seq<char>,
    extra: Seq<(Seq<char>, Seq<char>)>,
)
    requires
        addressed(req, c, path, extra),
    ensures
        c is OpenAI ==> req.query@.len() == 0,
        c matches Config::Azure(a) ==> (has_version(a) && req.query@.len() == 1 && req.query@[0].0@ == "api-version"@),
{
    if c is OpenAI {
        assert(pairs_view(req.query@).len() == 0);
    }
    match c {
        Config::Azure(a) => {
            assert(has_version(a));
            let v = a.api_version.unwrap();
            assert(pairs_view(req.query@) == seq![("api-version"@, v@)]);
            assert(pairs_view(req.query@).len() == 1);
            assert(pairs_view(req.query@)[0] == (req.query@[0].0@, req.query@[0].1@));
        },
        _ => {},
    }
}

} // verus!
