//! What an HTTP client is asked to do.
use super::request::Request;
use super::response::Response;
use crate::error::BrowserError;
use vstd::prelude::*;

verus! {

/// HTTP request methods.
#[derive(Debug, Clone, Copy, PartialEq, Eq, Structural)]
pub enum HttpMethod {
    Get,
    Post,
    Put,
    Delete,
    Head,
    Options,
    Patch,
}

impl HttpMethod {
    /// Whether a client sends requests of this method; only `GET` is sent.
    pub fn is_supported(&self) -> (r: bool)
        ensures
            r == (*self == HttpMethod::Get),
    {
        match self {
            HttpMethod::Get => true,
            _ => false,
        }
    }
}

/// Something that sends requests and hands back the responses.
pub trait Client {
    fn send(&self, request: Request) -> Result<Response, BrowserError>;
}

} // verus!
