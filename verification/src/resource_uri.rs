//! Validated page addresses.
use vstd::prelude::*;
use crate::error::HtmlError;
use crate::text::{has_prefix, str_starts_with};

verus! {

/// An address accepted for fetching: it begins with `http://` or `https://`.
#[derive(Debug)]
pub struct ResourceUri {
    url: String,
}

/// Whether an address uses a web scheme.
pub open spec fn is_web_url(s: Seq<char>) -> bool {
    has_prefix(s, "http://"@) || has_prefix(s, "https://"@)
}

/// The error an unacceptable address draws.
pub open spec fn url_problem(s: Seq<char>, e: HtmlError) -> bool {
    &&& e matches HtmlError::InvalidUrl(m)
    &&& s.len() == 0 ==> e->InvalidUrl_0@ == "URL cannot be empty"@
    &&& s.len() > 0 ==> e->InvalidUrl_0@ == "URL must start with http:// or https://"@
}

/// An address is acceptable: non-empty, with a web scheme.
pub open spec fn url_ok(s: Seq<char>) -> bool {
    s.len() > 0 && is_web_url(s)
}

impl Clone for ResourceUri {
    fn clone(&self) -> (r: Self)
        ensures
            r == *self,
    {
        ResourceUri { url: self.url.clone() }
    }
}

impl ResourceUri {
    /// The address held.
    pub closed spec fn address(&self) -> Seq<char> {
        self.url@
    }

    /// Accepts `uri` when it is non-empty and begins with `http://` or
    /// `https://`.
    pub fn parse(uri: &str) -> (r: Result<Self, HtmlError>)
        ensures
            uri@.len() == 0 ==> r == Err::<Self, HtmlError>(
                HtmlError::InvalidUrl(r->Err_0->InvalidUrl_0),
            ) && r->Err_0->InvalidUrl_0@ == "URL cannot be empty"@,
            uri@.len() > 0 && !is_web_url(uri@) ==> r is Err && r->Err_0 is InvalidUrl
                && r->Err_0->InvalidUrl_0@ == "URL must start with http:// or https://"@,
            r is Ok <==> (uri@.len() > 0 && is_web_url(uri@)),
            r matches Ok(u) ==> u.address() == uri@,
            r matches Err(e) ==> url_problem(uri@, e),
    {
        if uri.is_empty() {
            return Err(HtmlError::InvalidUrl("URL cannot be empty".to_owned()));
        }
        if !str_starts_with(uri, "http://") && !str_starts_with(uri, "https://") {
            return Err(HtmlError::InvalidUrl("URL must start with http:// or https://".to_owned()));
        }
        Ok(ResourceUri { url: uri.to_owned() })
    }

    /// The validated address.
    pub fn url(&self) -> (r: &str)
        ensures
            r@ == self.address(),
    {
        self.url.as_str()
    }
}

} // verus!
