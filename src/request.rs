//! The request executor: resolves a request into the exact outgoing call.
//!
//! Execution is split in two. The functions here decide everything about
//! the call (method, URL, every header, the JSON body or its absence) and
//! reject invalid headers and unknown methods before anything is sent; the
//! caller then performs the single network call the returned plan describes.
use vstd::prelude::*;
use crate::error::FesiError;
use crate::header::{header_name_accepted, header_value_accepted, is_header_name, is_header_value};
use crate::method::{carries_body, method_of, Method};

verus! {

/// One request as the executor sees it.
#[derive(Clone, Debug)]
pub struct Request {
    pub method: String,
    pub endpoint: String,
    pub body: Vec<(String, String)>,
    pub header: Vec<(String, String)>,
    pub name: Option<String>,
    pub save_response: bool,
}

/// The call to put on the wire: method, URL, headers in order, and the
/// fields to serialize as a JSON object, if the method carries a body.
#[derive(Clone, Debug)]
pub struct Outgoing {
    pub method: Method,
    pub url: String,
    pub headers: Vec<(String, String)>,
    pub json: Option<Vec<(String, String)>>,
}

/// A header pair with a valid name and a valid value.
pub open spec fn header_ok(p: (String, String)) -> bool {
    is_header_name(p.0@) && is_header_value(p.1@)
}

pub open spec fn all_headers_ok(h: Seq<(String, String)>) -> bool {
    forall|i: int| 0 <= i < h.len() ==> header_ok(#[trigger] h[i])
}

/// `e` reports the first invalid pair of `h`.
pub open spec fn reports_first_bad_header(h: Seq<(String, String)>, e: FesiError) -> bool {
    exists|i: int|
        0 <= i < h.len() && !header_ok(#[trigger] h[i]) && (forall|j: int|
            0 <= j < i ==> header_ok(#[trigger] h[j])) && e == FesiError::InvalidHeader {
            name: h[i].0,
            value: h[i].1,
        }
}

/// `o` is the call that `req` makes with method `m`: its URL, every header
/// pair unchanged and in order, and the body exactly when `m` carries one.
pub open spec fn is_call_for(req: Request, m: Method, o: Outgoing) -> bool {
    &&& o.method == m
    &&& o.url == req.endpoint
    &&& o.headers@ == req.header@
    &&& carries_body(m) ==> (o.json matches Some(b) && b@ == req.body@)
    &&& !carries_body(m) ==> o.json is None
}

/// What preparing `req` with method `m` yields: the call when every header
/// is valid, else the error naming the first invalid header.
pub open spec fn prepared_as(req: Request, m: Method, r: Result<Outgoing, FesiError>) -> bool {
    if all_headers_ok(req.header@) {
        r matches Ok(o) && is_call_for(req, m, o)
    } else {
        r matches Err(e) && reports_first_bad_header(req.header@, e)
    }
}

/// What executing `req` yields: an unsupported-method error for a method
/// outside the closed set, otherwise the call for the method it names.
pub open spec fn executed_as(req: Request, r: Result<Outgoing, FesiError>) -> bool {
    match method_of(req.method@) {
        None => r == Err::<Outgoing, FesiError>(FesiError::UnsupportedMethod(req.method)),
        Some(m) => prepared_as(req, m, r),
    }
}

/// The label under which a response is persisted: the name, or `response`.
pub open spec fn label_of(name: Option<String>) -> Seq<char> {
    match name {
        Some(n) => n@,
        None => seq!['r', 'e', 's', 'p', 'o', 'n', 's', 'e'],
    }
}

/// A copy of a list of pairs.
pub fn copy_pairs(v: &Vec<(String, String)>) -> (r: Vec<(String, String)>)
    ensures
        r@ == v@,
{
    let mut r: Vec<(String, String)> = Vec::new();
    let mut i: usize = 0;
    while i < v.len()
        invariant
            i <= v.len(),
            r@ == v@.subrange(0, i as int),
        decreases v.len() - i,
    {
        let k = v[i].0.clone();
        let x = v[i].1.clone();
        r.push((k, x));
        i = i + 1;
    }
    assert(r@ =~= v@);
    r
}

impl Request {
    pub fn new(
        method: String,
        endpoint: String,
        body: Vec<(String, String)>,
        header: Vec<(String, String)>,
        name: Option<String>,
        save_response: bool,
    ) -> (r: Request)
        ensures
            r.method == method,
            r.endpoint == endpoint,
            r.body == body,
            r.header == header,
            r.name == name,
            r.save_response == save_response,
    {
        Request { method, endpoint, body, header, name, save_response }
    }

    /// The label for persisting this request's response.
    pub fn label(&self) -> (r: String)
        ensures
            r@ == label_of(self.name),
    {
        match &self.name {
            Some(n) => n.clone(),
            None => {
                proof {
                    reveal_strlit("response");
                }
                String::from_str("response")
            },
        }
    }

    /// Checks every header pair, in order, and copies them when all are valid.
    fn checked_headers(&self) -> (r: Result<Vec<(String, String)>, FesiError>)
        ensures
            all_headers_ok(self.header@) ==> (r matches Ok(h) && h@ == self.header@),
            !all_headers_ok(self.header@) ==> (r matches Err(e) && reports_first_bad_header(
                self.header@,
                e,
            )),
    {
        let mut i: usize = 0;
        while i < self.header.len()
            invariant
                i <= self.header.len(),
                forall|j: int| 0 <= j < i ==> header_ok(#[trigger] self.header@[j]),
            decreases self.header.len() - i,
        {
            let ok = header_name_accepted(self.header[i].0.as_str())
                && header_value_accepted(self.header[i].1.as_str());
            if !ok {
                let e = FesiError::InvalidHeader {
                    name: self.header[i].0.clone(),
                    value: self.header[i].1.clone(),
                };
                assert(reports_first_bad_header(self.header@, e)) by {
                    assert(!header_ok(self.header@[i as int]));
                }
                return Err(e);
            }
            i = i + 1;
        }
        Ok(copy_pairs(&self.header))
    }

    /// Resolves this request into the call it makes with method `m`.
    pub fn prepare(&self, m: Method) -> (r: Result<Outgoing, FesiError>)
        ensures
            prepared_as(*self, m, r),
    {
        let headers = match self.checked_headers() {
            Ok(h) => h,
            Err(e) => return Err(e),
        };
        let json = if m.has_body() {
            Some(copy_pairs(&self.body))
        } else {
            None
        };
        Ok(Outgoing { method: m, url: self.endpoint.clone(), headers, json })
    }

    /// Executes the request: dispatches on its method, ignoring ASCII case.
    pub fn run(&self) -> (r: Result<Outgoing, FesiError>)
        ensures
            executed_as(*self, r),
    {
        match Method::parse(self.method.as_str()) {
            None => Err(FesiError::UnsupportedMethod(self.method.clone())),
            Some(Method::Get) => self.get(),
            Some(Method::Post) => self.post(),
            Some(Method::Put) => self.put(),
            Some(Method::Patch) => self.patch(),
            Some(Method::Delete) => self.delete(),
        }
    }

    /// A GET of the endpoint: headers, no body.
    pub fn get(&self) -> (r: Result<Outgoing, FesiError>)
        ensures
            prepared_as(*self, Method::Get, r),
    {
        self.prepare(Method::Get)
    }

    /// A POST of the endpoint: headers and the body as JSON.
    pub fn post(&self) -> (r: Result<Outgoing, FesiError>)
        ensures
            prepared_as(*self, Method::Post, r),
    {
        self.prepare(Method::Post)
    }

    /// A DELETE of the endpoint: headers, no body.
    pub fn delete(&self) -> (r: Result<Outgoing, FesiError>)
        ensures
            prepared_as(*self, Method::Delete, r),
    {
        self.prepare(Method::Delete)
    }

    /// A PUT of the endpoint: headers and the body as JSON.
    pub fn put(&self) -> (r: Result<Outgoing, FesiError>)
        ensures
            prepared_as(*self, Method::Put, r),
    {
        self.prepare(Method::Put)
    }

    /// A PATCH of the endpoint: headers and the body as JSON.
    pub fn patch(&self) -> (r: Result<Outgoing, FesiError>)
        ensures
            prepared_as(*self, Method::Patch, r),
    {
        self.prepare(Method::Patch)
    }
}

/// GET and DELETE never put a body on the wire, whatever the request's body holds.
pub proof fn lemma_bodyless_methods_send_no_body(req: Request, r: Result<Outgoing, FesiError>)
    requires
        method_of(req.method@) == Some(Method::Get) || method_of(req.method@) == Some(
            Method::Delete,
        ),
        executed_as(req, r),
    ensures
        r matches Ok(o) ==> o.json is None,
{
}

/// POST, PUT and PATCH send the body as a JSON object whose fields are
/// exactly the request's body pairs, so reading the payload back yields them.
pub proof fn lemma_body_sent_exactly(req: Request, r: Result<Outgoing, FesiError>)
    requires
        method_of(req.method@) matches Some(m) && carries_body(m),
        executed_as(req, r),
    ensures
        r matches Ok(o) ==> (o.json matches Some(b) && b@ == req.body@),
{
}

/// With valid headers every supported method succeeds and forwards each
/// header pair unchanged; one invalid pair makes execution fail with
/// `InvalidHeader` for the first such pair, so no call is made.
pub proof fn lemma_headers_forwarded_or_rejected(req: Request, r: Result<Outgoing, FesiError>)
    requires
        method_of(req.method@) is Some,
        executed_as(req, r),
    ensures
        all_headers_ok(req.header@) ==> (r matches Ok(o) && o.headers@ == req.header@),
        !all_headers_ok(req.header@) ==> (r matches Err(e) && e is InvalidHeader
            && reports_first_bad_header(req.header@, e)),
{
}

/// A method outside the closed set fails with `UnsupportedMethod`, so no call is made.
pub proof fn lemma_unsupported_method_rejected(req: Request, r: Result<Outgoing, FesiError>)
    requires
        method_of(req.method@) is None,
        executed_as(req, r),
    ensures
        r matches Err(e) && e == FesiError::UnsupportedMethod(req.method),
{
}

} // verus!
