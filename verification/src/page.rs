//! Page-level helpers: host extraction, cookie targets and field kinds.
use vstd::prelude::*;
use crate::error::HtmlError;
use crate::form::FormFieldType;
use crate::images::before_first;
use crate::request_options::Cookie;
use crate::text::{chars_of, find_char, has_prefix, seq_starts_with, string_from_range, vec_range};

verus! {

/// The host of an `http`/`https` address: what follows the scheme, up to the
/// first `/`, then up to the first `?`, then up to the first `:`.
pub open spec fn host_part(url: Seq<char>) -> Option<Seq<char>> {
    let rest = if has_prefix(url, "https://"@) {
        Some(url.skip(8))
    } else if has_prefix(url, "http://"@) {
        Some(url.skip(7))
    } else {
        None
    };
    match rest {
        Some(r) => Some(before_first(before_first(before_first(r, '/'), '?'), ':')),
        None => None,
    }
}

/// The error an address without a usable host draws.
pub open spec fn host_problem(url: Seq<char>, e: HtmlError) -> bool {
    match host_part(url) {
        None => e matches HtmlError::InvalidUrl(m) && m@ == "URL missing http/https scheme"@,
        Some(h) => h.len() == 0 && (e matches HtmlError::InvalidUrl(m) && m@ == "URL has no host"@),
    }
}

fn cut_at(v: Vec<char>, c: char) -> (r: Vec<char>)
    ensures
        r@ == before_first(v@, c),
{
    match find_char(v.as_slice(), c) {
        Some(p) => vec_range(v.as_slice(), 0, p),
        None => v,
    }
}

/// The host of an `http`/`https` address; an error for other schemes and
/// for an empty host.
pub fn extract_host(url: &str) -> (r: Result<String, HtmlError>)
    ensures
        host_part(url@) is None ==> (r matches Err(HtmlError::InvalidUrl(m)) && m@
            == "URL missing http/https scheme"@),
        host_part(url@) matches Some(h) ==> (if h.len() == 0 {
            r matches Err(HtmlError::InvalidUrl(m)) && m@ == "URL has no host"@
        } else {
            r matches Ok(s) && s@ == h
        }),
        r matches Err(e) ==> host_problem(url@, e),
{
    let u = chars_of(url);
    let https = chars_of("https://");
    let http = chars_of("http://");
    proof {
        reveal_strlit("https://");
        reveal_strlit("http://");
    }
    let n = u.len();
    let rest = if seq_starts_with(u.as_slice(), https.as_slice()) {
        vec_range(u.as_slice(), 8, n)
    } else if seq_starts_with(u.as_slice(), http.as_slice()) {
        vec_range(u.as_slice(), 7, n)
    } else {
        return Err(HtmlError::InvalidUrl("URL missing http/https scheme".to_owned()));
    };
    let a = cut_at(rest, '/');
    let b = cut_at(a, '?');
    let host = cut_at(b, ':');
    if host.len() == 0 {
        return Err(HtmlError::InvalidUrl("URL has no host".to_owned()));
    }
    let hn = host.len();
    Ok(string_from_range(host.as_slice(), 0, hn))
}

/// Where a cookie is set: its own domain or, failing that, the page's host;
/// its own path or, failing that, `/`.
pub fn cookie_target(url: &str, cookie: &Cookie) -> (r: Result<(String, String), HtmlError>)
    ensures
        cookie.domain matches Some(d) ==> (r matches Ok((dom, _)) && dom == d),
        cookie.domain is None ==> match r {
            Ok((dom, _)) => host_part(url@) == Some(dom@) && dom@.len() > 0,
            Err(e) => host_problem(url@, e),
        },
        r is Err ==> cookie.domain is None && !(host_part(url@) matches Some(h) && h.len() > 0),
        r matches Ok((_, p)) ==> match cookie.path {
            Some(q) => p == q,
            None => p@ == "/"@,
        },
{
    let domain = match &cookie.domain {
        Some(d) => d.clone(),
        None => match extract_host(url) {
            Ok(h) => h,
            Err(e) => return Err(e),
        },
    };
    let path = match &cookie.path {
        Some(p) => p.clone(),
        None => "/".to_owned(),
    };
    Ok((domain, path))
}

/// The field kind for the `type` reported by the page.
pub open spec fn field_type_of(s: Seq<char>) -> FormFieldType {
    if s == "email"@ {
        FormFieldType::Email
    } else if s == "password"@ {
        FormFieldType::Password
    } else if s == "select"@ {
        FormFieldType::Select
    } else if s == "checkbox"@ {
        FormFieldType::Checkbox
    } else if s == "textarea"@ {
        FormFieldType::Textarea
    } else if s == "text"@ {
        FormFieldType::Text
    } else {
        FormFieldType::Unknown
    }
}

fn same_chars(a: &[char], b: &str) -> (r: bool)
    ensures
        r == (a@ == b@),
{
    let bv = chars_of(b);
    if a.len() != bv.len() {
        return false;
    }
    let n = a.len();
    for i in 0..n
        invariant
            n == a@.len(),
            n == bv@.len(),
            bv@ == b@,
            forall|j: int| 0 <= j < i ==> a@[j] == bv@[j],
    {
        if a[i] != bv[i] {
            assert(a@[i as int] != bv@[i as int]);
            return false;
        }
    }
    assert(a@ =~= bv@);
    true
}

/// Maps a control's reported `type` to a field kind.
pub fn map_field_type(s: &str) -> (r: FormFieldType)
    ensures
        r == field_type_of(s@),
{
    let v = chars_of(s);
    let a = v.as_slice();
    if same_chars(a, "email") {
        FormFieldType::Email
    } else if same_chars(a, "password") {
        FormFieldType::Password
    } else if same_chars(a, "select") {
        FormFieldType::Select
    } else if same_chars(a, "checkbox") {
        FormFieldType::Checkbox
    } else if same_chars(a, "textarea") {
        FormFieldType::Textarea
    } else if same_chars(a, "text") {
        FormFieldType::Text
    } else {
        FormFieldType::Unknown
    }
}

/// The outcome of the submit script: done when it found a submit button or
/// a form to submit.
pub fn submit_outcome(submitted: bool) -> (r: Result<(), HtmlError>)
    ensures
        r is Ok <==> submitted,
        r matches Err(e) ==> (e matches HtmlError::SubmitFailed(m) && m@ == "no submit button or form found"@),
{
    if submitted {
        Ok(())
    } else {
        Err(HtmlError::SubmitFailed("no submit button or form found".to_owned()))
    }
}

/// The outcome of the click script for a button label.
pub fn click_outcome(label: &str, clicked: bool) -> (r: Result<(), HtmlError>)
    ensures
        r is Ok <==> clicked,
        r matches Err(e) ==> (e matches HtmlError::ButtonNotFound(m) && m@ == label@),
{
    if clicked {
        Ok(())
    } else {
        Err(HtmlError::ButtonNotFound(label.to_owned()))
    }
}

/// The outcome of the script that picks an option of a select control.
pub fn select_outcome(option: &str, selector: &str, selected: bool) -> (r: Result<(), HtmlError>)
    ensures
        r is Ok <==> selected,
        r matches Err(e) ==> (e matches HtmlError::SubmitFailed(m) && m@ == "could not select option '"@ + option@
            + "' in '"@ + selector@ + "'"@),
{
    if selected {
        Ok(())
    } else {
        Err(
            HtmlError::SubmitFailed(
                "could not select option '".to_owned().concat(option).concat("' in '").concat(selector).concat("'"),
            ),
        )
    }
}

} // verus!
