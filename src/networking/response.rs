//! HTTP responses.
use crate::error::BrowserError;
use vstd::prelude::*;
use vstd::utf8::{decode_utf8, valid_utf8};

verus! {

/// Relies on `String::from_utf8`: the text the bytes encode when they are valid
/// UTF-8, and nothing otherwise.
#[verifier::external_body]
fn utf8_text(bytes: Vec<u8>) -> (r: Option<String>)
    ensures
        r is Some <==> valid_utf8(bytes@),
        r is Some ==> r->0@ == decode_utf8(bytes@),
{
    String::from_utf8(bytes).ok()
}

/// A response: status, headers and body.
#[derive(Debug)]
pub struct Response {
    status: u16,
    headers: Vec<(String, String)>,
    body: Vec<u8>,
}

/// The first value of the header `name`, if any.
pub open spec fn header_value(headers: Seq<(String, String)>, name: Seq<char>) -> Option<Seq<char>>
    decreases headers.len(),
{
    if headers.len() == 0 {
        None
    } else if headers[0].0@ == name {
        Some(headers[0].1@)
    } else {
        header_value(headers.skip(1), name)
    }
}

impl Response {
    pub closed spec fn spec_status(&self) -> u16 {
        self.status
    }

    pub closed spec fn spec_headers(&self) -> Seq<(String, String)> {
        self.headers@
    }

    pub closed spec fn spec_body(&self) -> Seq<u8> {
        self.body@
    }

    /// A response with the given status and body and no headers.
    pub fn new(status: u16, body: Vec<u8>) -> (r: Response)
        ensures
            r.spec_status() == status,
            r.spec_headers().len() == 0,
            r.spec_body() == body@,
    {
        Response { status, headers: Vec::new(), body }
    }

    pub fn status(&self) -> (r: u16)
        ensures
            r == self.spec_status(),
    {
        self.status
    }

    /// Whether the status is in the 2xx range.
    pub fn is_success(&self) -> (r: bool)
        ensures
            r == (200 <= self.spec_status() < 300),
    {
        200 <= self.status && self.status < 300
    }

    /// The first value of the header `name`, if any.
    pub fn header(&self, name: &str) -> (r: Option<&str>)
        ensures
            r is Some <==> header_value(self.spec_headers(), name@) is Some,
            r is Some ==> r->0@ == header_value(self.spec_headers(), name@)->0,
    {
        let key = name.to_string();
        let mut i: usize = 0;
        assert(self.headers@.skip(0) =~= self.headers@);
        while i < self.headers.len()
            invariant
                0 <= i <= self.headers@.len(),
                key@ == name@,
                header_value(self.headers@, name@) == header_value(self.headers@.skip(i as int), name@),
            decreases self.headers@.len() - i,
        {
            let ghost rest = self.headers@.skip(i as int);
            if self.headers[i].0 == key {
                return Some(self.headers[i].1.as_str());
            }
            assert(rest.skip(1) =~= self.headers@.skip(i + 1));
            i = i + 1;
        }
        None
    }

    pub fn body(&self) -> (r: &[u8])
        ensures
            r@ == self.spec_body(),
    {
        self.body.as_slice()
    }

    /// The body as text; refused when it is not valid UTF-8.
    pub fn body_string(&self) -> (r: Result<String, BrowserError>)
        ensures
            r is Ok <==> valid_utf8(self.spec_body()),
            r is Ok ==> r->Ok_0@ == decode_utf8(self.spec_body()),
            r is Err ==> r == Err::<String, BrowserError>(BrowserError::InvalidUtf8),
    {
        match utf8_text(self.body.clone()) {
            Some(s) => Ok(s),
            None => Err(BrowserError::InvalidUtf8),
        }
    }
}

} // verus!
