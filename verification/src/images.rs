//! Page images: data URIs, MIME types and base64 encoding.
use vstd::prelude::*;
use crate::html::{HtmlContent, PageImage};
use crate::parse::extract_text;
use crate::text::{
    chars_of, eq_ascii_ci, find_char, first_index_of, has_prefix, has_suffix, seq_ends_with, seq_eq_ignore_ascii_case, seq_starts_with, string_from_range, vec_range,
    last_index_of, rfind_char, trim, trim_chars, string_from_chars,
};

verus! {

/// Standard base64 alphabet value `v < 64`.
pub open spec fn b64_char(v: int) -> char {
    if v < 26 {
        (65 + v) as char
    } else if v < 52 {
        (97 + v - 26) as char
    } else if v < 62 {
        (48 + v - 52) as char
    } else if v == 62 {
        '+'
    } else {
        '/'
    }
}

/// Base64 (standard alphabet, `=` padding) of a byte sequence.
pub open spec fn base64_standard(b: Seq<u8>) -> Seq<char>
    decreases b.len(),
{
    if b.len() == 0 {
        seq![]
    } else if b.len() == 1 {
        seq![b64_char(b[0] as int / 4), b64_char((b[0] as int % 4) * 16), '=', '=']
    } else if b.len() == 2 {
        seq![
            b64_char(b[0] as int / 4),
            b64_char((b[0] as int % 4) * 16 + b[1] as int / 16),
            b64_char((b[1] as int % 16) * 4),
            '=',
        ]
    } else {
        seq![
            b64_char(b[0] as int / 4),
            b64_char((b[0] as int % 4) * 16 + b[1] as int / 16),
            b64_char((b[1] as int % 16) * 4 + b[2] as int / 64),
            b64_char(b[2] as int % 64),
        ] + base64_standard(b.skip(3))
    }
}

/// `base64::engine::general_purpose::STANDARD.encode`: the claim is that the
/// result is the standard padded base64 encoding of the bytes.
#[verifier::external_body]
fn base64_encode(bytes: &[u8]) -> (r: String)
    requires
        bytes@.len() <= usize::MAX / 2,
    ensures
        r@ == base64_standard(bytes@),
{
    base64::Engine::encode(&base64::engine::general_purpose::STANDARD, bytes)
}

/// Parts of a data URI body `<mime>;base64,<data>` whose MIME type is an image type.
pub open spec fn data_uri_parts(d: Seq<char>) -> Option<(Seq<char>, Seq<char>)> {
    match first_index_of(d, ',') {
        Some(p) => {
            let meta = d.take(p);
            let mime = meta.take(meta.len() - 7);
            if has_suffix(meta, ";base64"@) && has_prefix(mime, "image/"@) {
                Some((mime, d.skip(p + 1)))
            } else {
                None
            }
        },
        None => None,
    }
}

/// The MIME type of a data URI body.
pub open spec fn data_uri_mime(d: Seq<char>) -> Seq<char> {
    let (m, _) = data_uri_parts(d)->Some_0;
    m
}

/// The payload of a data URI body.
pub open spec fn data_uri_data(d: Seq<char>) -> Seq<char> {
    let (_, x) = data_uri_parts(d)->Some_0;
    x
}

/// An image from a data URI body (the text after `data:`): it must read
/// `<mime>;base64,<data>` with an `image/` MIME type; the image keeps the
/// full URL, the data and the MIME type.
pub fn parse_data_uri(original_url: &str, data_part: &str) -> (r: Option<PageImage>)
    ensures
        r is Some == data_uri_parts(data_part@) is Some,
        r matches Some(img) ==> img.url@ == original_url@ && img.mime_type@ == data_uri_mime(data_part@)
            && img.data@ == data_uri_data(data_part@),
{
    let d = chars_of(data_part);
    let dn = d.len();
    let p = match find_char(d.as_slice(), ',') {
        Some(p) => p,
        None => return None,
    };
    let meta = vec_range(d.as_slice(), 0, p);
    let suffix = chars_of(";base64");
    if !seq_ends_with(meta.as_slice(), suffix.as_slice()) {
        return None;
    }
    proof {
        reveal_strlit(";base64");
    }
    let mime_len = meta.len() - 7;
    let mime = string_from_range(meta.as_slice(), 0, mime_len);
    let mime_chars = chars_of(mime.as_str());
    let image = chars_of("image/");
    if !seq_starts_with(mime_chars.as_slice(), image.as_slice()) {
        return None;
    }
    let data = string_from_range(d.as_slice(), p + 1, dn);
    proof {
        assert(meta@ == d@.take(p as int));
        assert(mime@ == meta@.take(meta@.len() - 7));
        assert(data@ == d@.skip(p + 1));
    }
    Some(PageImage::new(original_url.to_owned(), data, mime))
}

/// The part of `s` before the first `c`, or all of `s`.
pub open spec fn before_first(s: Seq<char>, c: char) -> Seq<char> {
    match first_index_of(s, c) {
        Some(p) => s.take(p),
        None => s,
    }
}

/// The part of `s` after the last `c`, or all of `s`.
pub open spec fn after_last(s: Seq<char>, c: char) -> Seq<char> {
    match last_index_of(s, c) {
        Some(p) => s.skip(p + 1),
        None => s,
    }
}

/// The extension of a URL's path: what follows the last `.` before any `?`.
pub open spec fn url_extension(url: Seq<char>) -> Seq<char> {
    after_last(before_first(url, '?'), '.')
}

/// The image MIME type guessed from an extension, compared without ASCII
/// case; PNG when nothing matches.
pub open spec fn mime_for_extension(ext: Seq<char>) -> Seq<char> {
    if eq_ascii_ci(ext, "jpg"@) || eq_ascii_ci(ext, "jpeg"@) {
        "image/jpeg"@
    } else if eq_ascii_ci(ext, "gif"@) {
        "image/gif"@
    } else if eq_ascii_ci(ext, "webp"@) {
        "image/webp"@
    } else if eq_ascii_ci(ext, "svg"@) {
        "image/svg+xml"@
    } else {
        "image/png"@
    }
}

fn is_ext(ext: &[char], lit: &str) -> (r: bool)
    ensures
        r == eq_ascii_ci(ext@, lit@),
{
    let l = chars_of(lit);
    seq_eq_ignore_ascii_case(ext, l.as_slice())
}

/// The image MIME type implied by a URL's extension (the extension is
/// lowercased before matching; for these ASCII names that is matching up to
/// ASCII case).
pub fn mime_from_url(url: &str) -> (r: String)
    ensures
        r@ == mime_for_extension(url_extension(url@)),
{
    let u = chars_of(url);
    let path = match find_char(u.as_slice(), '?') {
        Some(q) => vec_range(u.as_slice(), 0, q),
        None => u,
    };
    let pn = path.len();
    let ext = match rfind_char(path.as_slice(), '.') {
        Some(d) => vec_range(path.as_slice(), d + 1, pn),
        None => path,
    };
    let e = ext.as_slice();
    if is_ext(e, "jpg") || is_ext(e, "jpeg") {
        "image/jpeg".to_owned()
    } else if is_ext(e, "gif") {
        "image/gif".to_owned()
    } else if is_ext(e, "webp") {
        "image/webp".to_owned()
    } else if is_ext(e, "svg") {
        "image/svg+xml".to_owned()
    } else {
        "image/png".to_owned()
    }
}

/// The MIME type of a fetched image: the `Content-Type` header up to its
/// first `;`, trimmed, when the header is present; otherwise the type implied
/// by the URL.
pub fn mime_from_content_type(content_type: Option<&str>, url: &str) -> (r: String)
    ensures
        content_type matches Some(h) ==> r@ == trim(before_first(h@, ';')),
        content_type is None ==> r@ == mime_for_extension(url_extension(url@)),
{
    match content_type {
        Some(h) => {
            let v = chars_of(h);
            let head = match find_char(v.as_slice(), ';') {
                Some(p) => vec_range(v.as_slice(), 0, p),
                None => v,
            };
            let t = trim_chars(head.as_slice());
            string_from_chars(t.as_slice())
        },
        None => mime_from_url(url),
    }
}

/// Where an image URL points.
pub enum ImageSource {
    /// A `data:` URI; the text after `data:`.
    DataUri(String),
    /// An `http://` or `https://` address.
    Web,
    /// Anything else; such images are skipped.
    Unsupported,
}

/// Classifies an image URL.
pub fn image_source(url: &str) -> (r: ImageSource)
    ensures
        has_prefix(url@, "data:"@) ==> (r matches ImageSource::DataUri(rest) && rest@ == url@.skip(5)),
        !has_prefix(url@, "data:"@) && (has_prefix(url@, "http://"@) || has_prefix(url@, "https://"@))
            ==> r is Web,
        !has_prefix(url@, "data:"@) && !(has_prefix(url@, "http://"@) || has_prefix(url@, "https://"@))
            ==> r is Unsupported,
{
    let u = chars_of(url);
    let data = chars_of("data:");
    if seq_starts_with(u.as_slice(), data.as_slice()) {
        proof {
            reveal_strlit("data:");
        }
        return ImageSource::DataUri(string_from_range(u.as_slice(), 5, u.len()));
    }
    let http = chars_of("http://");
    let https = chars_of("https://");
    if seq_starts_with(u.as_slice(), http.as_slice()) || seq_starts_with(u.as_slice(), https.as_slice()) {
        ImageSource::Web
    } else {
        ImageSource::Unsupported
    }
}

/// Whether a MIME type is an image type.
pub fn is_image_mime(mime: &str) -> (r: bool)
    ensures
        r == has_prefix(mime@, "image/"@),
{
    let m = chars_of(mime);
    let p = chars_of("image/");
    seq_starts_with(m.as_slice(), p.as_slice())
}

/// A fetched image: its URL, its bytes in standard base64, and its MIME type.
pub fn encode_image(url: &str, mime_type: String, bytes: &[u8]) -> (r: PageImage)
    requires
        bytes@.len() <= usize::MAX / 2,
    ensures
        r.url@ == url@,
        r.data@ == base64_standard(bytes@),
        r.mime_type == mime_type,
{
    PageImage::new(url.to_owned(), base64_encode(bytes), mime_type)
}

/// What to do for an image URL found on a page.
pub enum ImagePlan {
    /// A `data:` URI holding a base64 image: the image itself.
    Inline(PageImage),
    /// A web address: fetch it.
    Fetch,
    /// Anything else, or a `data:` URI that is not a base64 image: skip it.
    Skip,
}

/// The plan for an image URL: a `data:` URI is decoded in place as
/// `parse_data_uri` says (and skipped when that fails), a web address is
/// fetched, anything else is skipped.
pub fn plan_image(url: &str) -> (r: ImagePlan)
    ensures
        has_prefix(url@, "data:"@) ==> match data_uri_parts(url@.skip(5)) {
            Some(_) => r matches ImagePlan::Inline(img) && img.url@ == url@ && img.mime_type@ == data_uri_mime(
                url@.skip(5),
            ) && img.data@ == data_uri_data(url@.skip(5)),
            None => r is Skip,
        },
        !has_prefix(url@, "data:"@) && (has_prefix(url@, "http://"@) || has_prefix(url@, "https://"@))
            ==> r is Fetch,
        !has_prefix(url@, "data:"@) && !(has_prefix(url@, "http://"@) || has_prefix(url@, "https://"@))
            ==> r is Skip,
{
    match image_source(url) {
        ImageSource::DataUri(rest) => match parse_data_uri(url, rest.as_str()) {
            Some(img) => ImagePlan::Inline(img),
            None => ImagePlan::Skip,
        },
        ImageSource::Web => ImagePlan::Fetch,
        ImageSource::Unsupported => ImagePlan::Skip,
    }
}

/// The MIME type of a fetched image when it is an image type (from the
/// `Content-Type` header, else from the URL); `None` when the response is
/// not an image, in which case its body is not read.
pub fn response_mime(content_type: Option<&str>, url: &str) -> (r: Option<String>)
    ensures
        r is Some <==> has_prefix(
            (match content_type {
                Some(h) => trim(before_first(h@, ';')),
                None => mime_for_extension(url_extension(url@)),
            }),
            "image/"@,
        ),
        r matches Some(m) ==> m@ == (match content_type {
            Some(h) => trim(before_first(h@, ';')),
            None => mime_for_extension(url_extension(url@)),
        }),
{
    let mime = mime_from_content_type(content_type, url);
    if is_image_mime(mime.as_str()) {
        Some(mime)
    } else {
        None
    }
}

/// A rendered page with its readable text extracted.
pub fn page_content(url: &str, html: String) -> (r: HtmlContent)
    ensures
        r.url@ == url@,
        r.html == html,
        crate::parse::is_page_text(html@, r.text@),
{
    let text = extract_text(html.as_str());
    HtmlContent::new(url.to_owned(), html, text)
}

} // verus!
