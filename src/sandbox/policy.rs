//! What pages may do.
use crate::text::{begins_with, starts_with};
use vstd::prelude::*;

verus! {

/// Switches that limit what pages may do.
#[derive(Debug, Clone)]
pub struct SecurityPolicy {
    pub csp_enabled: bool,
    pub same_origin_policy: bool,
    pub allow_file_urls: bool,
    pub enable_wasm: bool,
    pub enable_javascript: bool,
    pub block_mixed_content: bool,
}

impl SecurityPolicy {
    /// The strict defaults: every protection on, local files refused.
    pub open spec fn is_strict(&self) -> bool {
        &&& self.csp_enabled
        &&& self.same_origin_policy
        &&& !self.allow_file_urls
        &&& self.enable_wasm
        &&& self.enable_javascript
        &&& self.block_mixed_content
    }

    /// The strict policy.
    pub fn new() -> (r: SecurityPolicy)
        ensures
            r.is_strict(),
    {
        SecurityPolicy {
            csp_enabled: true,
            same_origin_policy: true,
            allow_file_urls: false,
            enable_wasm: true,
            enable_javascript: true,
            block_mixed_content: true,
        }
    }

    /// A policy for development: protections off, local files allowed.
    pub fn permissive() -> (r: SecurityPolicy)
        ensures
            !r.csp_enabled,
            !r.same_origin_policy,
            r.allow_file_urls,
            r.enable_wasm,
            r.enable_javascript,
            !r.block_mixed_content,
    {
        SecurityPolicy {
            csp_enabled: false,
            same_origin_policy: false,
            allow_file_urls: true,
            enable_wasm: true,
            enable_javascript: true,
            block_mixed_content: false,
        }
    }

    /// Whether a page may load `url`: local files only when the policy allows them.
    pub fn allow_resource(&self, url: &str) -> (r: bool)
        ensures
            r == !(begins_with(url@, "file://"@) && !self.allow_file_urls),
    {
        if starts_with(url, "file://") && !self.allow_file_urls {
            return false;
        }
        true
    }
}

impl Default for SecurityPolicy {
    fn default() -> (r: SecurityPolicy)
        ensures
            r.is_strict(),
    {
        SecurityPolicy::new()
    }
}

} // verus!
