//! The CORS policy every response goes out with.
use vstd::prelude::*;

use crate::status;

verus! {

/// The methods of an HTTP request.
#[derive(Debug, Clone, Copy, PartialEq, Eq, Structural)]
pub enum Method {
    Get,
    Put,
    Post,
    Delete,
    Options,
    Head,
    Trace,
    Connect,
    Patch,
}

/// When a fairing runs.
#[derive(Debug, Clone, Copy, PartialEq, Eq, Structural)]
pub enum FairingKind {
    Ignite,
    Liftoff,
    Request,
    Response,
    Shutdown,
}

/// A fairing's name and when it runs.
#[derive(Debug, Clone, PartialEq, Eq)]
pub struct FairingInfo {
    pub name: String,
    pub kind: FairingKind,
}

/// What a fairing does to a response: the status it sets, if any, and the
/// headers it sets, in order (a header set replaces one of the same name).
#[derive(Debug, Clone, PartialEq, Eq)]
pub struct ResponseEdit {
    pub status: Option<u16>,
    pub headers: Vec<(String, String)>,
}

/// The fairing that adds the CORS headers.
#[derive(Debug, Clone, Copy, PartialEq, Eq)]
pub struct CORS;

pub open spec fn header_views(headers: Seq<(String, String)>) -> Seq<(Seq<char>, Seq<char>)> {
    headers.map_values(|h: (String, String)| (h.0@, h.1@))
}

/// The headers a response to a request with `method` gets: a preflight
/// (`OPTIONS`) request learns the allowed methods and headers; every
/// response allows any origin, with credentials.
pub open spec fn cors_headers(method: Method) -> Seq<(Seq<char>, Seq<char>)> {
    let any_origin = seq![
        ("Access-Control-Allow-Origin"@, "*"@),
        ("Access-Control-Allow-Credentials"@, "true"@),
    ];
    if method == Method::Options {
        seq![
            ("Access-Control-Allow-Methods"@, "POST, GET, OPTIONS, DELETE"@),
            ("Access-Control-Allow-Headers"@, "Content-Type, Authorization"@),
        ] + any_origin
    } else {
        any_origin
    }
}

/// What the fairing does to the response to a request with `method`.
pub open spec fn on_response_holds(method: Method, e: ResponseEdit) -> bool {
    &&& e.status == (if method == Method::Options { Some(status::NO_CONTENT) } else { None::<u16> })
    &&& header_views(e.headers@) == cors_headers(method)
}

/// Every response allows any origin, with credentials, as its last two
/// headers; a preflight (`OPTIONS`) request alone is answered 204 and first
/// learns the allowed methods and headers.
pub proof fn lemma_cors_answers(method: Method, e: ResponseEdit)
    requires
        on_response_holds(method, e),
    ensures
        ({
            let h = header_views(e.headers@);
            &&& h.len() >= 2
            &&& h[h.len() - 2] == ("Access-Control-Allow-Origin"@, "*"@)
            &&& h[h.len() - 1] == ("Access-Control-Allow-Credentials"@, "true"@)
        }),
        method == Method::Options ==> (e.status == Some(204u16) && header_views(e.headers@).len() == 4
            && header_views(e.headers@)[0] == ("Access-Control-Allow-Methods"@, "POST, GET, OPTIONS, DELETE"@)
            && header_views(e.headers@)[1] == ("Access-Control-Allow-Headers"@, "Content-Type, Authorization"@)),
        method != Method::Options ==> (e.status is None && header_views(e.headers@).len() == 2),
{
}

fn header(name: &str, value: &str) -> (h: (String, String))
    ensures
        h.0@ == name@,
        h.1@ == value@,
{
    (String::from_str(name), String::from_str(value))
}

impl CORS {
    /// The fairing's name, and that it runs on responses.
    pub fn info(&self) -> (i: FairingInfo)
        ensures
            i.name@ == "Add CORS headers to responses"@,
            i.kind == FairingKind::Response,
    {
        FairingInfo { name: String::from_str("Add CORS headers to responses"), kind: FairingKind::Response }
    }

    /// What the fairing does to the response to a request with `method`: a
    /// preflight request is answered with no content.
    pub fn on_response(&self, method: Method) -> (e: ResponseEdit)
        ensures
            on_response_holds(method, e),
    {
        let mut headers: Vec<(String, String)> = Vec::new();
        let mut status = None;
        if method == Method::Options {
            status = Some(status::NO_CONTENT);
            headers.push(header("Access-Control-Allow-Methods", "POST, GET, OPTIONS, DELETE"));
            headers.push(header("Access-Control-Allow-Headers", "Content-Type, Authorization"));
        }
        headers.push(header("Access-Control-Allow-Origin", "*"));
        headers.push(header("Access-Control-Allow-Credentials", "true"));
        assert(header_views(headers@) =~= cors_headers(method));
        ResponseEdit { status, headers }
    }
}

} // verus!
