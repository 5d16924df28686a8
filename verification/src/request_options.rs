//! Extra cookies and headers to send with page requests.
use vstd::prelude::*;
use std::collections::HashMap;

verus! {

/// A cookie to set before navigation.
#[derive(Debug)]
pub struct Cookie {
    pub name: String,
    pub value: String,
    pub domain: Option<String>,
    pub path: Option<String>,
}

impl Clone for Cookie {
    fn clone(&self) -> (r: Self)
        ensures
            r == *self,
    {
        Cookie {
            name: self.name.clone(),
            value: self.value.clone(),
            domain: crate::form::clone_opt_string(&self.domain),
            path: crate::form::clone_opt_string(&self.path),
        }
    }
}

/// Cookies and headers applied before navigation.
#[derive(Debug)]
pub struct RequestOptions {
    pub cookies: Option<Vec<Cookie>>,
    pub headers: Option<HashMap<String, String>>,
}

impl Default for RequestOptions {
    fn default() -> (r: Self)
        ensures
            r.cookies is None,
            r.headers is None,
    {
        RequestOptions { cookies: None, headers: None }
    }
}

} // verus!
