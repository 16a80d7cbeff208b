//! Routing of HTTP requests: from the request line to what the hub does.

use vstd::prelude::*;
use vstd::utf8::{encode_utf8, encode_utf8_decode_utf8};

verus! {

/// Request method.
#[derive(Clone, Copy, Debug, PartialEq, Eq, Structural)]
pub enum Method {
    Options,
    Get,
    Post,
    Put,
    Delete,
    Head,
    Trace,
    Connect,
    Patch,
    /// Any method outside the standard ones.
    Extension,
}

/// Status of a response.
#[derive(Clone, Copy, Debug, PartialEq, Eq, Structural)]
pub enum StatusCode {
    /// 200 OK.
    Okay,
    NotFound,
    MethodNotAllowed,
    TooManyRequests,
    InternalServerError,
    NotImplemented,
}

impl StatusCode {
    /// The three-digit code of the status line.
    pub open spec fn number(self) -> u16 {
        match self {
            StatusCode::Okay => 200,
            StatusCode::NotFound => 404,
            StatusCode::MethodNotAllowed => 405,
            StatusCode::TooManyRequests => 429,
            StatusCode::InternalServerError => 500,
            StatusCode::NotImplemented => 501,
        }
    }

    /// The three-digit code of the status line.
    pub fn code(self) -> (n: u16)
        ensures
            n == self.number(),
    {
        match self {
            StatusCode::Okay => 200,
            StatusCode::NotFound => 404,
            StatusCode::MethodNotAllowed => 405,
            StatusCode::TooManyRequests => 429,
            StatusCode::InternalServerError => 500,
            StatusCode::NotImplemented => 501,
        }
    }
}

/// Version field of a request line.
#[derive(Clone, Copy, Debug, PartialEq, Eq, Structural)]
pub struct HttpVersion {
    pub major: u8,
    pub minor: u8,
}

impl HttpVersion {
    /// The version `major`.`minor`.
    pub fn from_parts(major: u8, minor: u8) -> (v: Self)
        ensures
            v == (HttpVersion { major, minor }),
    {
        HttpVersion { major, minor }
    }

    /// Whether this is the one version the hub speaks, HTTP/1.1.
    pub open spec fn supported(self) -> bool {
        self.major == 1 && self.minor == 1
    }
}

/// Available routes.
#[derive(Clone, Copy, Debug, PartialEq, Eq, Structural)]
pub enum Route {
    /// Subscribe to the event stream.
    Subscribe,
    /// Get or set the control channel frequency.
    CtlFreq,
}

/// The route that a path names, or the status for a path that names none.
pub open spec fn route_of(path: Seq<char>) -> Result<Route, StatusCode> {
    if path == "/subscribe"@ {
        Ok(Route::Subscribe)
    } else if path == "/ctlfreq"@ {
        Ok(Route::CtlFreq)
    } else {
        Err(StatusCode::NotFound)
    }
}

/// Two texts with the same encoding are the same text.
proof fn lemma_same_bytes_same_text(a: Seq<char>, b: Seq<char>)
    requires
        encode_utf8(a) == encode_utf8(b),
    ensures
        a == b,
{
    encode_utf8_decode_utf8(a);
    encode_utf8_decode_utf8(b);
}

fn bytes_eq(a: &[u8], b: &[u8]) -> (same: bool)
    ensures
        same == (a@ == b@),
{
    if a.len() != b.len() {
        return false;
    }
    let mut i: usize = 0;
    while i < a.len()
        invariant
            i <= a.len(),
            a.len() == b.len(),
            forall|k: int| 0 <= k < i ==> a@[k] == b@[k],
        decreases a.len() - i,
    {
        if a[i] != b[i] {
            return false;
        }
        i = i + 1;
    }
    assert(a@ =~= b@);
    true
}

fn text_eq(a: &str, b: &str) -> (same: bool)
    ensures
        same == (a@ == b@),
{
    let same = bytes_eq(a.as_bytes(), b.as_bytes());
    proof {
        if same {
            lemma_same_bytes_same_text(a@, b@);
        }
    }
    same
}

impl Route {
    /// Finds the route that `path` names.
    pub fn try_from(path: &str) -> (r: Result<Route, StatusCode>)
        ensures
            r == route_of(path@),
    {
        if text_eq(path, "/subscribe") {
            Ok(Route::Subscribe)
        } else if text_eq(path, "/ctlfreq") {
            Ok(Route::CtlFreq)
        } else {
            Err(StatusCode::NotFound)
        }
    }
}

/// What the hub does with a request it accepts.
#[derive(Clone, Copy, Debug, PartialEq, Eq, Structural)]
pub enum Plan {
    /// Take the connection as a subscriber.
    Subscribe,
    /// Report the control channel frequency.
    GetCtlFreq,
    /// Read a control channel frequency from the body and hand it to the
    /// receiver.
    PutCtlFreq,
    /// Answer with the headers that allow cross-origin use.
    Options,
}

/// The plan for a request line, or the status that rejects it.
///
/// Only HTTP/1.1 is spoken. `OPTIONS` is answered whatever the path. Any
/// other request has to name a route, and the method has to be one that
/// the route offers.
pub open spec fn plan_of(ver: HttpVersion, method: Method, path: Seq<char>) -> Result<
    Plan,
    StatusCode,
> {
    if !ver.supported() {
        Err(StatusCode::NotImplemented)
    } else if method == Method::Options {
        Ok(Plan::Options)
    } else {
        match route_of(path) {
            Err(status) => Err(status),
            Ok(route) => match (method, route) {
                (Method::Get, Route::Subscribe) => Ok(Plan::Subscribe),
                (Method::Get, Route::CtlFreq) => Ok(Plan::GetCtlFreq),
                (Method::Put, Route::CtlFreq) => Ok(Plan::PutCtlFreq),
                _ => Err(StatusCode::MethodNotAllowed),
            },
        }
    }
}

/// Decides what to do with a request line.
pub fn plan(ver: HttpVersion, method: Method, path: &str) -> (r: Result<Plan, StatusCode>)
    ensures
        r == plan_of(ver, method, path@),
{
    if ver.major != 1 || ver.minor != 1 {
        return Err(StatusCode::NotImplemented);
    }
    if let Method::Options = method {
        return Ok(Plan::Options);
    }
    let route = match Route::try_from(path) {
        Ok(route) => route,
        Err(status) => {
            return Err(status);
        },
    };
    match (method, route) {
        (Method::Get, Route::Subscribe) => Ok(Plan::Subscribe),
        (Method::Get, Route::CtlFreq) => Ok(Plan::GetCtlFreq),
        (Method::Put, Route::CtlFreq) => Ok(Plan::PutCtlFreq),
        _ => Err(StatusCode::MethodNotAllowed),
    }
}

/// Header line that marks a response as an event stream.
pub fn stream_header() -> (line: &'static str)
    ensures
        line@ == "Content-Type: text/event-stream"@,
{
    "Content-Type: text/event-stream"
}

/// Header lines that allow cross-origin use, in the order they are sent.
pub fn cors_headers() -> (lines: (&'static str, &'static str))
    ensures
        lines.0@ == "Access-Control-Allow-Methods: GET, PUT"@,
        lines.1@ == "Access-Control-Allow-Headers: Content-Type"@,
{
    ("Access-Control-Allow-Methods: GET, PUT", "Access-Control-Allow-Headers: Content-Type")
}

} // verus!
