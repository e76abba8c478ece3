//! The Apify/TikTok API client: where requests go and with which headers, how a response
//! is read, and how an HTTP status or a transport failure becomes an [`Error`].

use vstd::prelude::*;
use crate::error::{Error, ErrorCode, ErrorView};
use crate::json;
use crate::json::JsonView;
use crate::text::{
    all_ascii_space, all_ascii_whitespace, decimal, decimal_string, from_utf8_lossy, lossy_text,
    opt_text, owned, strip_leading, trim, trimmed, without_leading,
};

verus! {

// ---------------------------------------------------------------------------------------
// Specifications
// ---------------------------------------------------------------------------------------

/// The API base used when no override is configured.
pub open spec fn default_base() -> Seq<char> {
    "https://api.apify.com/v2/"@
}

/// The API base: `TIKTOK_API_URL` when set, else `APIFY_API_URL`; the default when the chosen
/// value is missing or blank; always ending in `/`.
pub open spec fn base_url(tiktok_url: Option<Seq<char>>, apify_url: Option<Seq<char>>) -> Seq<
    char,
> {
    let chosen = if tiktok_url is Some {
        tiktok_url
    } else {
        apify_url
    };
    let b = match chosen {
        Some(u) => if trim(u).len() > 0 {
            u
        } else {
            default_base()
        },
        None => default_base(),
    };
    if b.len() > 0 && b.last() == '/' {
        b
    } else {
        b.push('/')
    }
}

/// The path, below the API base, of the TikTok scraper run that returns dataset items.
pub open spec fn scrape_path(token: Seq<char>) -> Seq<char> {
    "acts/clockworks~tiktok-scraper/run-sync-get-dataset-items?token="@ + token
}

/// The headers of a request: the bearer token, JSON accepted, and a JSON content type when
/// a body is sent.
pub open spec fn request_headers(token: Seq<char>, with_body: bool) -> Seq<(Seq<char>, Seq<char>)> {
    let base = seq![("Authorization"@, "Bearer "@ + token), ("Accept"@, "application/json"@)];
    if with_body {
        base.push(("Content-Type"@, "application/json"@))
    } else {
        base
    }
}

/// A member of an object, if the value is an object that has it.
pub open spec fn member(v: JsonView, key: Seq<char>) -> Option<JsonView> {
    match v {
        JsonView::Object(m) => if m.contains_key(key) {
            Some(m[key])
        } else {
            None
        },
        _ => None,
    }
}

/// The error message an Apify error body carries: `error.message` when `error` is an object
/// with a string `message`; else `error` when it is a string; else `message` when it is a
/// string.
pub open spec fn error_message_of(doc: Option<JsonView>) -> Option<Seq<char>> {
    match doc {
        None => None,
        Some(v) => {
            let nested = match member(v, "error"@) {
                Some(JsonView::Object(m)) => if m.contains_key("message"@) {
                    match m["message"@] {
                        JsonView::Str(s) => Some(s),
                        _ => None,
                    }
                } else {
                    None
                },
                _ => None,
            };
            if nested is Some {
                nested
            } else {
                match member(v, "error"@) {
                    Some(JsonView::Str(s)) => Some(s),
                    _ => match member(v, "message"@) {
                        Some(JsonView::Str(s)) => Some(s),
                        _ => None,
                    },
                }
            }
        },
    }
}

/// The error code for an HTTP status.
pub open spec fn status_code(status: u16) -> ErrorCode {
    if status == 401 || status == 403 {
        ErrorCode::AuthRequired
    } else if status == 404 {
        ErrorCode::NotFound
    } else if status == 429 {
        ErrorCode::RateLimited
    } else if status == 400 || status == 422 {
        ErrorCode::InvalidInput
    } else if status >= 500 {
        ErrorCode::Network
    } else {
        ErrorCode::Error
    }
}

/// The message used for an HTTP status when the body names none.
pub open spec fn default_status_message(status: u16) -> Seq<char> {
    if status == 401 {
        "The Apify API token was rejected."@
    } else if status == 403 {
        "The Apify API token does not have permission for this request."@
    } else if status == 404 {
        "The requested resource was not found."@
    } else if status == 429 {
        "Rate limit or compute unit limit exceeded on Apify."@
    } else if status == 400 || status == 422 {
        "The Apify API rejected the request parameters."@
    } else if status >= 500 {
        "The Apify API returned a server error."@
    } else {
        "The TikTok/Apify request failed."@
    }
}

/// The remediation given for an HTTP status, if any.
pub open spec fn status_fix(status: u16) -> Option<Seq<char>> {
    if status == 401 {
        Some("tiktok login"@)
    } else if status == 403 {
        Some("Check your Apify account permissions and billing at https://console.apify.com/billing"@)
    } else if status == 429 {
        Some(
            "Back off before retrying, or check your compute usage at https://console.apify.com/billing"@,
        )
    } else if status == 404 || status == 400 || status == 422 {
        None
    } else if status >= 500 {
        Some("Retry once; if it persists, check https://status.apify.com"@)
    } else {
        None
    }
}

/// The detail of a status error: `HTTP <status>`, then `: <body>` unless the body is empty.
pub open spec fn status_detail(status: u16, body: Seq<char>) -> Seq<char> {
    let head = "HTTP "@ + decimal(status as nat);
    if body.len() == 0 {
        head
    } else {
        head + ": "@ + body
    }
}

/// The error for an HTTP status, given the message the body names (if any). A server error
/// (5xx) keeps its own message whatever the body says.
pub open spec fn status_error_view(status: u16, body: Seq<char>, named: Option<Seq<char>>) -> ErrorView {
    let message = if status_code(status) == ErrorCode::Network {
        default_status_message(status)
    } else {
        match named {
            Some(m) => m,
            None => default_status_message(status),
        }
    };
    ErrorView {
        code: status_code(status),
        message,
        detail: Some(status_detail(status, body)),
        fix: status_fix(status),
    }
}

/// The document a value holds, if any.
pub open spec fn doc_view(doc: Option<serde_json::Value>) -> Option<JsonView> {
    match doc {
        Some(v) => Some(json::json_view(v)),
        None => None,
    }
}

/// What reading a response gives: the status error for a status outside 2xx (its body
/// decoded and trimmed); an empty object for a body of whitespace only; the JSON document
/// of the body; or, where the body is not JSON, the body as a string.
pub open spec fn read_view(status: u16, bytes: Seq<u8>) -> Result<JsonView, ErrorView> {
    if !(200 <= status < 300) {
        let body = trim(lossy_text(bytes));
        Err(status_error_view(status, body, error_message_of(json::json_text_parse(body))))
    } else if all_ascii_space(bytes) {
        Ok(JsonView::Object(json::no_members()))
    } else {
        match json::json_bytes_parse(bytes) {
            Some(d) => Ok(d),
            None => Ok(JsonView::Str(lossy_text(bytes))),
        }
    }
}

/// The error for a failed transport: a timeout, or any other failure with its description.
pub open spec fn transport_error_view(timed_out: bool, description: Seq<char>) -> ErrorView {
    if timed_out {
        ErrorView::plain(ErrorCode::Network, "The request timed out."@).with_fix(
            "Retry once, or check actor progress on Apify."@,
        )
    } else {
        ErrorView::plain(ErrorCode::Network, "Could not reach the Apify API."@).with_detail(
            description,
        ).with_fix("Check your internet connection, APIFY_TOKEN, or TIKTOK_API_URL."@)
    }
}

// ---------------------------------------------------------------------------------------
// Laws
// ---------------------------------------------------------------------------------------

/// The API base always ends with `/`, so every path is appended below it.
pub proof fn lemma_base_url_ends_with_slash(tiktok_url: Option<Seq<char>>, apify_url: Option<Seq<char>>)
    ensures
        base_url(tiktok_url, apify_url).len() > 0,
        base_url(tiktok_url, apify_url).last() == '/',
{
}

/// Where requests go: `TIKTOK_API_URL` when set, whatever `APIFY_API_URL` holds; else
/// `APIFY_API_URL`; a set, non-blank value is kept as given, with `/` added unless it ends
/// with one; a blank one, or none at all, gives the default API base.
pub proof fn lemma_base_url_choice(tiktok_url: Option<Seq<char>>, apify_url: Option<Seq<char>>)
    ensures
        tiktok_url is Some ==> base_url(tiktok_url, apify_url) == base_url(tiktok_url, None),
        base_url(None, apify_url) == base_url(apify_url, None),
        base_url(None, None) == "https://api.apify.com/v2/"@,
        tiktok_url matches Some(u) ==> trim(u).len() == 0 ==> base_url(tiktok_url, apify_url)
            == "https://api.apify.com/v2/"@,
        tiktok_url matches Some(u) ==> trim(u).len() > 0 ==> u.last() == '/' ==> base_url(
            tiktok_url,
            apify_url,
        ) == u,
        tiktok_url matches Some(u) ==> trim(u).len() > 0 ==> u.last() != '/' ==> base_url(
            tiktok_url,
            apify_url,
        ) == u + "/"@,
{
    reveal_strlit("https://api.apify.com/v2/");
    reveal_strlit("/");
    if let Some(u) = tiktok_url {
        if trim(u).len() > 0 {
            assert(u.len() > 0);
            assert(u.push('/') =~= u + "/"@);
        }
    }
}

/// Where an error body names a message: `error.message` when `error` is an object holding a
/// string `message`; otherwise `error` itself when it is a string; otherwise a top-level
/// string `message`; and none where the body is not JSON or names none of these.
pub proof fn lemma_error_message_precedence(doc: Option<JsonView>)
    ensures
        doc is None ==> error_message_of(doc) is None,
        doc matches Some(JsonView::Object(top)) ==> (top.contains_key("error"@) ==> (
        top["error"@] matches JsonView::Object(e) ==> (e.contains_key("message"@) ==> (
        e["message"@] matches JsonView::Str(m) ==> error_message_of(doc) == Some(m))))),
        doc matches Some(JsonView::Object(top)) ==> (top.contains_key("error"@) ==> (
        top["error"@] matches JsonView::Str(m) ==> error_message_of(doc) == Some(m))),
        doc matches Some(JsonView::Object(top)) ==> (!top.contains_key("error"@) ==> (
        top.contains_key("message"@) ==> (top["message"@] matches JsonView::Str(m)
            ==> error_message_of(doc) == Some(m)))),
        doc matches Some(JsonView::Object(top)) ==> (!top.contains_key("error"@)
            ==> !top.contains_key("message"@) ==> error_message_of(doc) is None),
        doc matches Some(d) ==> (!(d is Object) ==> error_message_of(doc) is None),
{
}

/// A failed request is classified by its HTTP status alone, whatever its body, and exits
/// with the status the manual lists: 401 and 403 are `auth_required` (3), 404 `not_found`
/// (4), 429 `rate_limited` (5), 400 and 422 `invalid_input` (6), 5xx `network` (2), and
/// any other status `error` (1).
pub proof fn lemma_status_classes(status: u16, body: Seq<char>, named: Option<Seq<char>>)
    ensures
        status_error_view(status, body, named).code == status_code(status),
        (status == 401 || status == 403) ==> status_code(status) == ErrorCode::AuthRequired
            && status_code(status).exit_status() == 3,
        status == 404 ==> status_code(status) == ErrorCode::NotFound
            && status_code(status).exit_status() == 4,
        status == 429 ==> status_code(status) == ErrorCode::RateLimited
            && status_code(status).exit_status() == 5,
        (status == 400 || status == 422) ==> status_code(status) == ErrorCode::InvalidInput
            && status_code(status).exit_status() == 6,
        status >= 500 ==> status_code(status) == ErrorCode::Network
            && status_code(status).exit_status() == 2,
        !(status == 400 || status == 401 || status == 403 || status == 404 || status == 422
            || status == 429 || status >= 500) ==> status_code(status) == ErrorCode::Error
            && status_code(status).exit_status() == 1,
{
}

/// A server error (5xx) says the same whatever its body names; every other status uses the
/// message the body names when there is one.
pub proof fn lemma_status_message(status: u16, body: Seq<char>, named: Option<Seq<char>>)
    ensures
        status >= 500 ==> status_error_view(status, body, named).message
            == "The Apify API returned a server error."@,
        status < 500 && named is Some ==> status_error_view(status, body, named).message
            == named->0,
{
}

/// What a status error carries besides its message: the detail `HTTP <status>`, followed by
/// `: ` and the response body unless that is empty; a remediation only for 401 (log in again),
/// 403, 429 and server errors.
pub proof fn lemma_status_detail_and_fix(status: u16, body: Seq<char>, named: Option<Seq<char>>)
    ensures
        status_error_view(status, body, named).detail == Some(
            if body.len() == 0 {
                "HTTP "@ + decimal(status as nat)
            } else {
                "HTTP "@ + decimal(status as nat) + ": "@ + body
            },
        ),
        status_error_view(status, body, named).fix is Some <==> (status == 401 || status == 403
            || status == 429 || status >= 500),
        status == 401 ==> status_error_view(status, body, named).fix == Some("tiktok login"@),
{
}

/// A response outside 2xx reads as an error classified by its status; a 2xx response reads
/// as a value, and as an empty object when its body is only whitespace.
pub proof fn lemma_read_outcomes(status: u16, bytes: Seq<u8>)
    ensures
        !(200 <= status < 300) ==> (read_view(status, bytes) matches Err(e) && e.code
            == status_code(status)),
        200 <= status < 300 ==> read_view(status, bytes) is Ok,
        200 <= status < 300 && all_ascii_space(bytes) ==> read_view(status, bytes) == Ok::<
            JsonView,
            ErrorView,
        >(JsonView::Object(json::no_members())),
{
}

/// A 2xx response whose body is not only whitespace reads as exactly the JSON document of
/// its body, whatever kind of value that is; only a body that is not JSON reads as its text.
pub proof fn lemma_read_gives_document(status: u16, bytes: Seq<u8>)
    requires
        200 <= status < 300,
        !all_ascii_space(bytes),
    ensures
        json::json_bytes_parse(bytes) matches Some(d) ==> read_view(status, bytes) == Ok::<
            JsonView,
            ErrorView,
        >(d),
        json::json_bytes_parse(bytes) is None ==> read_view(status, bytes) == Ok::<
            JsonView,
            ErrorView,
        >(JsonView::Str(lossy_text(bytes))),
{
}

/// Every request authenticates with the client's token as a bearer token and accepts JSON.
pub proof fn lemma_requests_carry_token(token: Seq<char>, with_body: bool)
    ensures
        request_headers(token, with_body)[0] == ("Authorization"@, "Bearer "@ + token),
        request_headers(token, with_body)[1] == ("Accept"@, "application/json"@),
        request_headers(token, with_body).len() == if with_body {
            3nat
        } else {
            2nat
        },
{
}

// ---------------------------------------------------------------------------------------
// Requests
// ---------------------------------------------------------------------------------------

/// The HTTP method of a request.
#[derive(Clone, Copy, Debug, PartialEq, Eq, Structural)]
pub enum Method {
    Get,
    Post,
}

/// A request ready to be sent: method, full URL, headers, and the JSON body if any.
pub struct Request {
    pub method: Method,
    pub url: String,
    pub headers: Vec<(String, String)>,
    pub body: Option<serde_json::Value>,
}

/// The API base and token a client talks to the Apify API with.
#[derive(Clone, Debug)]
pub struct Client {
    pub base: String,
    pub token: String,
}

impl Client {
    /// A client for the API key (trimmed), using the base URL overrides read from the
    /// environment (`TIKTOK_API_URL`, `APIFY_API_URL`; `None` where unset).
    pub fn new(api_key: &str, tiktok_api_url: Option<String>, apify_api_url: Option<String>) -> (res:
        Client)
        ensures
            res.base@ == base_url(opt_text(tiktok_api_url), opt_text(apify_api_url)),
            res.token@ == trim(api_key@),
    {
        proof {
            reveal_strlit("/");
        }
        let chosen = match tiktok_api_url {
            Some(u) => Some(u),
            None => apify_api_url,
        };
        let mut base = match chosen {
            Some(u) => {
                let t = trimmed(u.as_str());
                if t.as_str().is_empty() {
                    owned("https://api.apify.com/v2/")
                } else {
                    u
                }
            },
            None => owned("https://api.apify.com/v2/"),
        };
        if !crate::text::ends_with_char(base.as_str(), '/') {
            base.append("/");
        }
        Client { base, token: trimmed(api_key) }
    }

    fn request(&self, method: Method, path: &str, body: Option<&serde_json::Value>) -> (res: Request)
        ensures
            res.method == method,
            res.url@ == self.base@ + strip_leading(path@, '/'),
            res.headers.deep_view() == request_headers(self.token@, body is Some),
            doc_view(res.body) == match body {
                Some(b) => Some(json::json_view(*b)),
                None => None,
            },
    {
        let mut url = self.base.clone();
        let clean_path = without_leading(path, '/');
        url.append(clean_path.as_str());
        let mut bearer = owned("Bearer ");
        bearer.append(self.token.as_str());
        let mut headers: Vec<(String, String)> = Vec::new();
        headers.push((owned("Authorization"), bearer));
        headers.push((owned("Accept"), owned("application/json")));
        let sent = match body {
            Some(b) => {
                headers.push((owned("Content-Type"), owned("application/json")));
                Some(json::duplicate(b))
            },
            None => None,
        };
        let ghost expected = request_headers(self.token@, body is Some);
        assert(headers.deep_view() =~= expected);
        Request { method, url, headers, body: sent }
    }

    /// A GET request for the path below the API base.
    pub fn get(&self, path: &str) -> (res: Request)
        ensures
            res.method == Method::Get,
            res.url@ == self.base@ + strip_leading(path@, '/'),
            res.headers.deep_view() == request_headers(self.token@, false),
            res.body is None,
    {
        self.request(Method::Get, path, None)
    }

    /// A POST request with a JSON body for the path below the API base.
    pub fn post(&self, path: &str, body: &serde_json::Value) -> (res: Request)
        ensures
            res.method == Method::Post,
            res.url@ == self.base@ + strip_leading(path@, '/'),
            res.headers.deep_view() == request_headers(self.token@, true),
            doc_view(res.body) == Some(json::json_view(*body)),
    {
        self.request(Method::Post, path, Some(body))
    }

    /// The request that runs the Apify TikTok scraper actor synchronously with the input
    /// `body` and returns its dataset items.
    pub fn scrape(&self, body: &serde_json::Value) -> (res: Request)
        ensures
            res.method == Method::Post,
            res.url@ == self.base@ + scrape_path(self.token@),
            res.headers.deep_view() == request_headers(self.token@, true),
            doc_view(res.body) == Some(json::json_view(*body)),
    {
        let mut endpoint = owned("acts/clockworks~tiktok-scraper/run-sync-get-dataset-items?token=");
        endpoint.append(self.token.as_str());
        proof {
            reveal_strlit("acts/clockworks~tiktok-scraper/run-sync-get-dataset-items?token=");
        }
        assert(strip_leading(endpoint@, '/') == endpoint@);
        self.post(endpoint.as_str(), body)
    }
}

// ---------------------------------------------------------------------------------------
// Responses and errors
// ---------------------------------------------------------------------------------------

/// The message an error body names, from its parsed JSON document (see `error_message_of`).
pub fn error_message(doc: &Option<serde_json::Value>) -> (res: Option<String>)
    ensures
        opt_text(res) == error_message_of(doc_view(*doc)),
{
    match doc {
        None => None,
        Some(v) => {
            let err = json::get(v, "error");
            match err {
                Some(e) => {
                    match json::as_object(e) {
                        Some(obj) => {
                            match json::map_get(obj, "message") {
                                Some(m) => {
                                    match json::as_str(m) {
                                        Some(s) => {
                                            return Some(owned(s));
                                        },
                                        None => {},
                                    }
                                },
                                None => {},
                            }
                        },
                        None => {},
                    }
                    match json::as_str(e) {
                        Some(s) => {
                            return Some(owned(s));
                        },
                        None => {},
                    }
                },
                None => {},
            }
            match json::get(v, "message") {
                Some(m) => match json::as_str(m) {
                    Some(s) => Some(owned(s)),
                    None => None,
                },
                None => None,
            }
        },
    }
}

/// The error for an HTTP status and response body, given the message the body names.
pub fn status_error_named(status: u16, body: &str, named: Option<String>) -> (res: Error)
    ensures
        res@ == status_error_view(status, body@, opt_text(named)),
{
    let mut detail = owned("HTTP ");
    detail.append(decimal_string(status as u64).as_str());
    if !body.is_empty() {
        detail.append(": ");
        detail.append(body);
    }
    let fallback = |m: Option<String>, default: &str| -> (r: String)
        ensures
            r@ == match m {
                Some(t) => t@,
                None => default@,
            },
        {
            match m {
                Some(t) => t,
                None => owned(default),
            }
        };
    let e = if status == 401 {
        Error::new(ErrorCode::AuthRequired, fallback(named, "The Apify API token was rejected.")).fix(
            owned("tiktok login"),
        )
    } else if status == 403 {
        Error::new(
            ErrorCode::AuthRequired,
            fallback(named, "The Apify API token does not have permission for this request."),
        ).fix(
            owned(
                "Check your Apify account permissions and billing at https://console.apify.com/billing",
            ),
        )
    } else if status == 404 {
        Error::new(ErrorCode::NotFound, fallback(named, "The requested resource was not found."))
    } else if status == 429 {
        Error::new(
            ErrorCode::RateLimited,
            fallback(named, "Rate limit or compute unit limit exceeded on Apify."),
        ).fix(
            owned(
                "Back off before retrying, or check your compute usage at https://console.apify.com/billing",
            ),
        )
    } else if status == 400 || status == 422 {
        Error::new(
            ErrorCode::InvalidInput,
            fallback(named, "The Apify API rejected the request parameters."),
        )
    } else if status >= 500 {
        Error::new(ErrorCode::Network, owned("The Apify API returned a server error.")).fix(
            owned("Retry once; if it persists, check https://status.apify.com"),
        )
    } else {
        Error::new(ErrorCode::Error, fallback(named, "The TikTok/Apify request failed."))
    };
    proof {
        reveal_strlit("HTTP ");
        reveal_strlit(": ");
    }
    e.detail(detail)
}

/// The error for an HTTP status and response body: the code follows from the status alone,
/// the message is the one the JSON body names (see `error_message_of`) or a default for the
/// status, and the detail quotes the status and the body.
pub fn status_error(status: u16, body: &str) -> (res: Error)
    ensures
        res@ == status_error_view(status, body@, error_message_of(json::json_text_parse(body@))),
        res.code == status_code(status),
{
    let doc = json::parse_text(body);
    let named = error_message(&doc);
    status_error_named(status, body, named)
}

/// Reads a response from its status and body bytes (see `read_view`).
pub fn read(status: u16, bytes: &[u8]) -> (res: Result<serde_json::Value, Error>)
    ensures
        match (res, read_view(status, bytes@)) {
            (Ok(v), Ok(d)) => json::json_view(v) == d,
            (Err(e), Err(ev)) => e@ == ev,
            _ => false,
        },
        200 <= status < 300 && !all_ascii_space(bytes@) ==> match json::json_bytes_parse(bytes@) {
            Some(d) => res matches Ok(v) && json::json_view(v) == d,
            None => res matches Ok(v) && json::json_view(v) == JsonView::Str(lossy_text(bytes@)),
        },
{
    if !(200 <= status && status < 300) {
        let text = from_utf8_lossy(bytes);
        let body = trimmed(text.as_str());
        return Err(status_error(status, body.as_str()));
    }
    if all_ascii_whitespace(bytes) {
        return Ok(json::object(json::new_map()));
    }
    match json::parse_bytes(bytes) {
        Some(v) => Ok(v),
        None => Ok(json::string(from_utf8_lossy(bytes))),
    }
}

/// What came back for a sent request: a response with its status and body, or a transport
/// failure (whether it timed out, and how it describes itself).
pub enum Reply {
    Response { status: u16, body: Vec<u8> },
    Failed { timed_out: bool, description: String },
}

/// What sending a request gives: the response read by `read`, or the error for the
/// transport failure (always `network`).
pub fn outcome(reply: Reply) -> (res: Result<serde_json::Value, Error>)
    ensures
        match reply {
            Reply::Response { status, body } => match (res, read_view(status, body@)) {
                (Ok(v), Ok(d)) => json::json_view(v) == d,
                (Err(e), Err(ev)) => e@ == ev,
                _ => false,
            },
            Reply::Failed { timed_out, description } => res matches Err(e) && e@
                == transport_error_view(timed_out, description@) && e.code == ErrorCode::Network,
        },
{
    match reply {
        Reply::Response { status, body } => read(status, body.as_slice()),
        Reply::Failed { timed_out, description } => Err(transport_error(timed_out, description)),
    }
}

/// The error for a transport failure: whether it was a timeout, and how the failure
/// describes itself.
pub fn transport_error(timed_out: bool, description: String) -> (res: Error)
    ensures
        res@ == transport_error_view(timed_out, description@),
{
    if timed_out {
        Error::new(ErrorCode::Network, owned("The request timed out.")).fix(
            owned("Retry once, or check actor progress on Apify."),
        )
    } else {
        Error::new(ErrorCode::Network, owned("Could not reach the Apify API.")).detail(
            description,
        ).fix(owned("Check your internet connection, APIFY_TOKEN, or TIKTOK_API_URL."))
    }
}

} // verus!
