use vstd::prelude::*;

verus! {

/// An incoming request, as far as matching reads it.
#[derive(Clone, Debug)]
pub struct Request {
    pub method: String,
    pub path: String,
    pub body: Vec<u8>,
}

/// Conditions that a request must all meet; an absent condition always holds.
#[derive(Clone, Debug)]
pub struct Matcher {
    pub method: Option<String>,
    pub path: Option<String>,
}

impl Matcher {
    /// A matcher that accepts every request.
    pub fn any() -> (r: Matcher)
        ensures
            r.method is None,
            r.path is None,
    {
        Matcher { method: None, path: None }
    }

    pub open spec fn accepts(self, request: Request) -> bool {
        (match self.method {
            Some(m) => m@ == request.method@,
            None => true,
        }) && (match self.path {
            Some(p) => p@ == request.path@,
            None => true,
        })
    }

    pub fn matches(&self, request: &Request) -> (r: bool)
        ensures
            r == self.accepts(*request),
    {
        let method_ok = match &self.method {
            Some(m) => m.eq(&request.method),
            None => true,
        };
        let path_ok = match &self.path {
            Some(p) => p.eq(&request.path),
            None => true,
        };
        method_ok && path_ok
    }
}

/// A response as the transport will send it.
#[derive(Clone, Debug)]
pub struct Response {
    pub status: u16,
    pub body: Vec<u8>,
}

/// What a stub answers with, and after how long.
#[derive(Clone, Debug)]
pub struct ResponseTemplate {
    pub status: u16,
    pub body: Vec<u8>,
    /// An artificial delay before the response is sent, in milliseconds.
    pub delay_ms: Option<u64>,
}

impl ResponseTemplate {
    pub open spec fn rendered(self) -> Response {
        Response { status: self.status, body: self.body }
    }

    /// The response this template describes.
    pub fn generate_response(&self) -> (r: Response)
        ensures
            r.status == self.rendered().status,
            r.body@ == self.rendered().body@,
    {
        Response { status: self.status, body: self.body.clone() }
    }

    pub fn delay(&self) -> (r: Option<u64>)
        ensures
            r == self.delay_ms,
    {
        self.delay_ms
    }
}

/// A stub specification: what it matches, what it answers and how many calls
/// it expects.
#[derive(Clone, Debug)]
pub struct Mock {
    pub matcher: Matcher,
    pub response: ResponseTemplate,
    /// The fewest calls expected.
    pub expected_min: u64,
    /// The most calls expected, if bounded.
    pub expected_max: Option<u64>,
}

/// The status code of the answer to a request that no stub matches.
pub open spec fn not_found_status_spec() -> u16 {
    404
}

/// Relies on http_types::StatusCode: `NotFound` converts to the code 404.
#[verifier::external_body]
pub(crate) fn not_found_status() -> (r: u16)
    ensures
        r == not_found_status_spec(),
{
    u16::from(http_types::StatusCode::NotFound)
}

/// The answer to a request that no stub matches.
pub fn not_found_response() -> (r: Response)
    ensures
        r.status == not_found_status_spec(),
        r.body@.len() == 0,
{
    Response { status: not_found_status(), body: Vec::new() }
}

} // verus!
