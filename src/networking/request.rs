//! HTTP requests.
use super::client::HttpMethod;
use vstd::prelude::*;

verus! {

/// A request: method, address, headers in the order added, and an optional body.
#[derive(Debug, Clone)]
pub struct Request {
    method: HttpMethod,
    url: String,
    headers: Vec<(String, String)>,
    body: Option<Vec<u8>>,
}

impl Request {
    pub closed spec fn spec_method(&self) -> HttpMethod {
        self.method
    }

    pub closed spec fn spec_url(&self) -> Seq<char> {
        self.url@
    }

    pub closed spec fn spec_headers(&self) -> Seq<(String, String)> {
        self.headers@
    }

    pub closed spec fn spec_body(&self) -> Option<Seq<u8>> {
        match self.body {
            Some(b) => Some(b@),
            None => None,
        }
    }

    /// A `GET` of `url` without headers or body.
    pub fn get(url: &str) -> (r: Request)
        ensures
            r.spec_method() == HttpMethod::Get,
            r.spec_url() == url@,
            r.spec_headers().len() == 0,
            r.spec_body() is None,
    {
        Request { method: HttpMethod::Get, url: url.to_string(), headers: Vec::new(), body: None }
    }

    /// A `POST` of `body` to `url` without headers.
    pub fn post(url: &str, body: Vec<u8>) -> (r: Request)
        ensures
            r.spec_method() == HttpMethod::Post,
            r.spec_url() == url@,
            r.spec_headers().len() == 0,
            r.spec_body() == Some(body@),
    {
        Request { method: HttpMethod::Post, url: url.to_string(), headers: Vec::new(), body: Some(body) }
    }

    pub fn method(&self) -> (r: HttpMethod)
        ensures
            r == self.spec_method(),
    {
        self.method
    }

    pub fn url(&self) -> (r: &str)
        ensures
            r@ == self.spec_url(),
    {
        self.url.as_str()
    }

    /// The same request with one more header.
    pub fn header(self, name: &str, value: &str) -> (r: Request)
        ensures
            r.spec_method() == self.spec_method(),
            r.spec_url() == self.spec_url(),
            r.spec_body() == self.spec_body(),
            r.spec_headers().len() == self.spec_headers().len() + 1,
            r.spec_headers().drop_last() == self.spec_headers(),
            r.spec_headers().last().0@ == name@,
            r.spec_headers().last().1@ == value@,
    {
        let mut r = self;
        r.headers.push((name.to_string(), value.to_string()));
        proof {
            assert(r.headers@.drop_last() =~= self.headers@);
        }
        r
    }

    pub fn headers(&self) -> (r: &[(String, String)])
        ensures
            r@ == self.spec_headers(),
    {
        self.headers.as_slice()
    }

    pub fn body(&self) -> (r: Option<&[u8]>)
        ensures
            r is Some <==> self.spec_body() is Some,
            r is Some ==> r->0@ == self.spec_body()->0,
    {
        match &self.body {
            Some(b) => Some(b.as_slice()),
            None => None,
        }
    }
}

} // verus!
