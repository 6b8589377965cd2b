//! The decisions around one HTTP request: which method and URL to send,
//! what to report to the trace sink, and which value a template gets back.
//!
//! Sending the request is left to the caller. It first asks `prepare` (or
//! one of the per-method constructors) for a `Request`; an invalid method
//! or URL yields the finished `HttpResult` instead. After sending, it turns
//! the response into a value with `HttpResult::from_response`, or a failed
//! send with `HttpResult::request_failed`.
use vstd::prelude::*;
use vstd::utf8::encode_utf8;
use crate::headers::{collapse, collapse_headers, names_of, raw_view, table_map, table_view};
use crate::text::{joined_bytes, lemma_encode_concat};

verus! {

/// Status reported for every failure that leaves no response to report.
pub const ERROR_STATUS: u16 = 400;

/// Status the trace sink is told after any response arrived, whatever the
/// response's own status.
pub const TRACE_SENT_STATUS: u16 = 200;

/// Status the trace sink is told after a send failed.
pub const TRACE_FAILED_STATUS: u16 = 500;

/// A character allowed in a method token.
pub open spec fn is_token_char(c: char) -> bool {
    ('0' <= c <= '9') || ('a' <= c <= 'z') || ('A' <= c <= 'Z') || c == '!' || c == '#'
        || c == '$' || c == '%' || c == '&' || c == '\'' || c == '*' || c == '+' || c == '-'
        || c == '.' || c == '^' || c == '_' || c == '`' || c == '|' || c == '~'
}

/// A method name that parses: a non-empty token.
pub open spec fn is_method_token(s: Seq<char>) -> bool {
    s.len() > 0 && forall|i: int| 0 <= i < s.len() ==> is_token_char(#[trigger] s[i])
}

/// What the URL parser makes of a text: the serialized URL, or the name of
/// the parse error.
pub uninterp spec fn url_parse(s: Seq<char>) -> Result<Seq<char>, Seq<char>>;

/// Relies on `FromStr` for `reqwest::Method` (http's `Method::from_bytes`):
/// it accepts exactly the non-empty tokens, and the method's name is the
/// text given; the error prints as `InvalidMethod`.
#[verifier::external_body]
fn parse_method(s: &str) -> (r: Result<String, String>)
    ensures
        r is Ok <==> is_method_token(s@),
        r matches Ok(m) ==> m@ == s@,
        r matches Err(e) ==> e@ == "InvalidMethod"@,
{
    match s.parse::<reqwest::Method>() {
        Ok(m) => Ok(m.as_str().to_string()),
        Err(e) => Err(format!("{:#?}", e)),
    }
}

/// Relies on `FromStr` for `reqwest::Url` (url's `Url::parse`): on success
/// the serialized URL, on failure the error's name.
#[verifier::external_body]
fn parse_url(s: &str) -> (r: Result<String, String>)
    ensures
        match r {
            Ok(u) => url_parse(s@) == Ok::<Seq<char>, Seq<char>>(u@),
            Err(e) => url_parse(s@) == Err::<Seq<char>, Seq<char>>(e@),
        },
{
    match s.parse::<reqwest::Url>() {
        Ok(u) => Ok(u.to_string()),
        Err(e) => Err(format!("{:#?}", e)),
    }
}

/// What a template sees of a request: status, header table and body.
pub struct HttpResult {
    pub status: u16,
    pub headers: Vec<(String, String)>,
    pub body: Vec<u8>,
}

/// An `HttpResult` as plain values.
pub struct HttpResultModel {
    pub status: u16,
    pub headers: Seq<(Seq<char>, Seq<char>)>,
    pub body: Seq<u8>,
}

impl View for HttpResult {
    type V = HttpResultModel;

    open spec fn view(&self) -> HttpResultModel {
        HttpResultModel { status: self.status, headers: table_view(self.headers@), body: self.body@ }
    }
}

impl HttpResultModel {
    /// The headers as a map from name to text.
    pub open spec fn header_map(self) -> Map<Seq<char>, Seq<char>> {
        table_map(self.headers)
    }

    /// Each header name occurs once.
    pub open spec fn wf(self) -> bool {
        names_of(self.headers).no_duplicates()
    }
}

/// A request ready to send.
pub struct Request {
    pub method: String,
    pub url: String,
    pub body: Option<Vec<u8>>,
}

/// A `Request` as plain values.
pub struct RequestModel {
    pub method: Seq<char>,
    pub url: Seq<char>,
    pub body: Option<Seq<u8>>,
}

pub open spec fn bytes_view(b: Option<Vec<u8>>) -> Option<Seq<u8>> {
    match b {
        Some(v) => Some(v@),
        None => None,
    }
}

impl View for Request {
    type V = RequestModel;

    open spec fn view(&self) -> RequestModel {
        RequestModel { method: self.method@, url: self.url@, body: bytes_view(self.body) }
    }
}

/// The value for a failure: the error status, no headers, and the message
/// as body.
pub open spec fn failure(message: Seq<char>) -> HttpResultModel {
    HttpResultModel { status: ERROR_STATUS, headers: seq![], body: encode_utf8(message) }
}

pub open spec fn invalid_method_message() -> Seq<char> {
    "Invalid method!\nInvalidMethod"@
}

pub open spec fn invalid_url_message(error: Seq<char>) -> Seq<char> {
    "Invalid URL!\n"@ + error
}

pub open spec fn request_fail_message(error: Seq<char>) -> Seq<char> {
    "Request fail!\n"@ + error
}

/// What `prepare` decides for a method, a URL and an optional body.
pub open spec fn prepared(method: Seq<char>, url: Seq<char>, body: Option<Seq<u8>>) -> Result<
    RequestModel,
    HttpResultModel,
> {
    if !is_method_token(method) {
        Err(failure(invalid_method_message()))
    } else {
        match url_parse(url) {
            Err(e) => Err(failure(invalid_url_message(e))),
            Ok(u) => Ok(RequestModel { method, url: u, body }),
        }
    }
}

pub open spec fn plan_view(r: Result<Request, HttpResult>) -> Result<RequestModel, HttpResultModel> {
    match r {
        Ok(q) => Ok(q@),
        Err(e) => Err(e@),
    }
}

/// The value made from a response that arrived: its status, its header
/// table, and its body, or no body where reading it failed.
pub open spec fn received(status: u16, raw: Seq<(Seq<char>, Seq<u8>)>, body: Option<Seq<u8>>) -> HttpResultModel {
    HttpResultModel {
        status,
        headers: collapse_headers(raw),
        body: match body {
            Some(b) => b,
            None => seq![],
        },
    }
}

impl HttpResult {
    fn error_value(message: Vec<u8>) -> (r: HttpResult)
        ensures
            r.status == ERROR_STATUS,
            r.headers@.len() == 0,
            r.body@ == message@,
    {
        HttpResult { status: ERROR_STATUS, headers: Vec::new(), body: message }
    }

    /// The value for a send that failed, with the client's error text.
    pub fn request_failed(error: &str) -> (r: HttpResult)
        ensures
            r@ == failure(request_fail_message(error@)),
    {
        let r = HttpResult::error_value(joined_bytes("Request fail!\n", error));
        assert(table_view(r.headers@) =~= seq![]);
        r
    }

    /// The value for a response that arrived. `raw_headers` lists every
    /// header of the response in order, with the value's bytes; `body` is
    /// `None` where reading the body failed.
    pub fn from_response(status: u16, raw_headers: &Vec<(String, Vec<u8>)>, body: Option<Vec<u8>>) -> (r: HttpResult)
        ensures
            r@ == received(status, raw_view(raw_headers@), bytes_view(body)),
            r@.wf(),
    {
        let headers = collapse(raw_headers);
        proof { crate::headers::lemma_collapse_names(raw_view(raw_headers@)); }
        let body = match body {
            Some(b) => b,
            None => Vec::new(),
        };
        HttpResult { status, headers, body }
    }
}

/// Checks a method and a URL and builds the request to send, or the value
/// to hand back at once when either does not parse. No body is attached
/// where `body` is `None`.
pub fn prepare(method: &str, url: &str, body: Option<&Vec<u8>>) -> (r: Result<Request, HttpResult>)
    ensures
        plan_view(r) == prepared(method@, url@, match body {
            Some(b) => Some(b@),
            None => None,
        }),
{
    let method = match parse_method(method) {
        Ok(m) => m,
        Err(e) => {
            let r = HttpResult::error_value(joined_bytes("Invalid method!\n", e.as_str()));
            proof { reveal_strlit("Invalid method!\n"); reveal_strlit("InvalidMethod"); reveal_strlit("Invalid method!\nInvalidMethod"); }
            assert("Invalid method!\n"@ + e@ =~= invalid_method_message());
            assert(table_view(r.headers@) =~= seq![]);
            return Err(r);
        },
    };
    let url = match parse_url(url) {
        Ok(u) => u,
        Err(e) => {
            let r = HttpResult::error_value(joined_bytes("Invalid URL!\n", e.as_str()));
            assert(table_view(r.headers@) =~= seq![]);
            return Err(r);
        },
    };
    let body = match body {
        Some(b) => Some(vstd::slice::slice_to_vec(b.as_slice())),
        None => None,
    };
    Ok(Request { method, url, body })
}

/// One event for the trace sink: method, URL, the status reported (none
/// before the send) and a detail text.
pub struct TraceEvent {
    pub method: String,
    pub url: String,
    pub status: Option<u16>,
    pub detail: String,
}

impl Request {
    /// A GET request, with no body.
    pub fn get(url: &str) -> (r: Result<Request, HttpResult>)
        ensures
            plan_view(r) == prepared("GET"@, url@, None),
    {
        prepare("GET", url, None)
    }

    /// A POST request carrying `body`.
    pub fn post(url: &str, body: &Vec<u8>) -> (r: Result<Request, HttpResult>)
        ensures
            plan_view(r) == prepared("POST"@, url@, Some(body@)),
    {
        prepare("POST", url, Some(body))
    }

    /// A PUT request carrying `body`.
    pub fn put(url: &str, body: &Vec<u8>) -> (r: Result<Request, HttpResult>)
        ensures
            plan_view(r) == prepared("PUT"@, url@, Some(body@)),
    {
        prepare("PUT", url, Some(body))
    }

    /// A PATCH request carrying `body`.
    pub fn patch(url: &str, body: &Vec<u8>) -> (r: Result<Request, HttpResult>)
        ensures
            plan_view(r) == prepared("PATCH"@, url@, Some(body@)),
    {
        prepare("PATCH", url, Some(body))
    }

    /// A HEAD request, with no body.
    pub fn head(url: &str) -> (r: Result<Request, HttpResult>)
        ensures
            plan_view(r) == prepared("HEAD"@, url@, None),
    {
        prepare("HEAD", url, None)
    }

    /// An OPTIONS request, with no body.
    pub fn options(url: &str) -> (r: Result<Request, HttpResult>)
        ensures
            plan_view(r) == prepared("OPTIONS"@, url@, None),
    {
        prepare("OPTIONS", url, None)
    }

    /// A DELETE request, with no body.
    pub fn delete(url: &str) -> (r: Result<Request, HttpResult>)
        ensures
            plan_view(r) == prepared("DELETE"@, url@, None),
    {
        prepare("DELETE", url, None)
    }

    /// The event reported just before sending.
    pub fn trace_start(&self) -> (e: TraceEvent)
        ensures
            e.method@ == self.method@,
            e.url@ == self.url@,
            e.status is None,
            e.detail@ == Seq::<char>::empty(),
    {
        let detail = String::new();
        TraceEvent { method: self.method.clone(), url: self.url.clone(), status: None, detail }
    }

    /// The event reported once a response arrived. Its status is always
    /// `TRACE_SENT_STATUS`, whatever the response's status.
    pub fn trace_sent(&self) -> (e: TraceEvent)
        ensures
            e.method@ == self.method@,
            e.url@ == self.url@,
            e.status == Some(TRACE_SENT_STATUS),
            e.detail@ == Seq::<char>::empty(),
    {
        let detail = String::new();
        TraceEvent {
            method: self.method.clone(),
            url: self.url.clone(),
            status: Some(TRACE_SENT_STATUS),
            detail,
        }
    }

    /// The event reported after the send failed, with the error text.
    pub fn trace_failed(&self, error: &str) -> (e: TraceEvent)
        ensures
            e.method@ == self.method@,
            e.url@ == self.url@,
            e.status == Some(TRACE_FAILED_STATUS),
            e.detail@ == error@,
    {
        TraceEvent {
            method: self.method.clone(),
            url: self.url.clone(),
            status: Some(TRACE_FAILED_STATUS),
            detail: error.to_owned(),
        }
    }
}

/// A method that is not a token is refused before anything is sent: the
/// value has the error status and its body starts with "Invalid method!".
pub proof fn lemma_invalid_method_refused(method: Seq<char>, url: Seq<char>, body: Option<Seq<u8>>)
    requires
        !is_method_token(method),
    ensures
        prepared(method, url, body) matches Err(e) && e.status == ERROR_STATUS
            && encode_utf8("Invalid method!"@).is_prefix_of(e.body),
{
    reveal_strlit("Invalid method!");
    reveal_strlit("\nInvalidMethod");
    reveal_strlit("Invalid method!\nInvalidMethod");
    assert(invalid_method_message() =~= "Invalid method!"@ + "\nInvalidMethod"@);
    lemma_encode_concat("Invalid method!"@, "\nInvalidMethod"@);
}

/// With a valid method, a URL that does not parse is refused before
/// anything is sent: the value has the error status and its body starts
/// with "Invalid URL!".
pub proof fn lemma_invalid_url_refused(method: Seq<char>, url: Seq<char>, body: Option<Seq<u8>>)
    requires
        is_method_token(method),
        url_parse(url) is Err,
    ensures
        prepared(method, url, body) matches Err(e) && e.status == ERROR_STATUS
            && encode_utf8("Invalid URL!"@).is_prefix_of(e.body),
{
    reveal_strlit("Invalid URL!");
    reveal_strlit("\n");
    reveal_strlit("Invalid URL!\n");
    let error = url_parse(url)->Err_0;
    assert(invalid_url_message(error) =~= "Invalid URL!"@ + ("\n"@ + error));
    lemma_encode_concat("Invalid URL!"@, "\n"@ + error);
}

/// A failed send gives the error status, no headers, and a body that
/// starts with "Request fail!".
pub proof fn lemma_request_fail_reported(error: Seq<char>)
    ensures
        failure(request_fail_message(error)).status == ERROR_STATUS,
        failure(request_fail_message(error)).headers.len() == 0,
        encode_utf8("Request fail!"@).is_prefix_of(failure(request_fail_message(error)).body),
{
    reveal_strlit("Request fail!");
    reveal_strlit("\n");
    reveal_strlit("Request fail!\n");
    assert(request_fail_message(error) =~= "Request fail!"@ + ("\n"@ + error));
    lemma_encode_concat("Request fail!"@, "\n"@ + error);
}

/// A request with a valid method and URL carries exactly the body given,
/// and the body of a response that was read reaches the value unchanged.
pub proof fn lemma_body_carried(
    method: Seq<char>,
    url: Seq<char>,
    sent: Seq<u8>,
    status: u16,
    raw: Seq<(Seq<char>, Seq<u8>)>,
    answer: Seq<u8>,
)
    requires
        is_method_token(method),
        url_parse(url) is Ok,
    ensures
        prepared(method, url, Some(sent)) matches Ok(q) && q.body == Some(sent),
        received(status, raw, Some(answer)).body == answer,
{
}

/// Asking twice for the same thing gives the same answer: two plans made
/// from the same method, URL and body are equal, and two values made from
/// the same response are equal.
pub proof fn lemma_repeat_same_value(
    first_plan: Result<RequestModel, HttpResultModel>,
    second_plan: Result<RequestModel, HttpResultModel>,
    method: Seq<char>,
    url: Seq<char>,
    body: Option<Seq<u8>>,
    first: HttpResultModel,
    second: HttpResultModel,
    status: u16,
    raw: Seq<(Seq<char>, Seq<u8>)>,
    answer: Option<Seq<u8>>,
)
    requires
        first_plan == prepared(method, url, body),
        second_plan == prepared(method, url, body),
        first == received(status, raw, answer),
        second == received(status, raw, answer),
    ensures
        first_plan == second_plan,
        first == second,
{
}

/// A header whose first value is visible text is read with that text.
pub proof fn lemma_header_read(status: u16, raw: Seq<(Seq<char>, Seq<u8>)>, answer: Option<Seq<u8>>, i: int)
    requires
        0 <= i < raw.len(),
        !names_of(raw.take(i)).contains(raw[i].0),
        crate::headers::is_visible_text(raw[i].1),
    ensures
        received(status, raw, answer).header_map().contains_key(raw[i].0),
        received(status, raw, answer).header_map()[raw[i].0] == crate::headers::ascii_text(raw[i].1),
{
    crate::headers::lemma_first_value_kept(raw, i);
}

} // verus!
