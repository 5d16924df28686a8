//! Fetched page content and images.
use vstd::prelude::*;

verus! {

/// An image of a page, base64-encoded.
#[derive(Debug)]
pub struct PageImage {
    pub url: String,
    pub data: String,
    pub mime_type: String,
}

impl Clone for PageImage {
    fn clone(&self) -> (r: Self)
        ensures
            r == *self,
    {
        PageImage { url: self.url.clone(), data: self.data.clone(), mime_type: self.mime_type.clone() }
    }
}

impl PageImage {
    pub fn new(url: String, data: String, mime_type: String) -> (r: Self)
        ensures
            r.url == url,
            r.data == data,
            r.mime_type == mime_type,
    {
        PageImage { url, data, mime_type }
    }

    pub fn url(&self) -> (r: &str)
        ensures
            r@ == self.url@,
    {
        self.url.as_str()
    }

    pub fn data(&self) -> (r: &str)
        ensures
            r@ == self.data@,
    {
        self.data.as_str()
    }

    pub fn mime_type(&self) -> (r: &str)
        ensures
            r@ == self.mime_type@,
    {
        self.mime_type.as_str()
    }
}

/// A rendered page: its URL, HTML and extracted readable text.
#[derive(Debug)]
pub struct HtmlContent {
    pub url: String,
    pub html: String,
    pub text: String,
}

impl Clone for HtmlContent {
    fn clone(&self) -> (r: Self)
        ensures
            r == *self,
    {
        HtmlContent { url: self.url.clone(), html: self.html.clone(), text: self.text.clone() }
    }
}

impl HtmlContent {
    pub fn new(url: String, html: String, text: String) -> (r: Self)
        ensures
            r.url == url,
            r.html == html,
            r.text == text,
    {
        HtmlContent { url, html, text }
    }

    pub fn url(&self) -> (r: &str)
        ensures
            r@ == self.url@,
    {
        self.url.as_str()
    }

    pub fn html(&self) -> (r: &str)
        ensures
            r@ == self.html@,
    {
        self.html.as_str()
    }

    pub fn text(&self) -> (r: &str)
        ensures
            r@ == self.text@,
    {
        self.text.as_str()
    }

    /// Length of the HTML in bytes (UTF-8).
    pub fn html_length(&self) -> (r: usize)
        ensures
            r == vstd::utf8::encode_utf8(self.html@).len() as usize,
    {
        self.html.as_str().len()
    }
}

} // verus!
