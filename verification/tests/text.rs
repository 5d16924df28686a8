use mcp_web_porter::error::HtmlError;
use mcp_web_porter::images::{
    encode_image, image_source, mime_from_content_type, mime_from_url, parse_data_uri, plan_image,
    response_mime, ImagePlan, ImageSource,
};
use mcp_web_porter::page::{click_outcome, cookie_target, extract_host, map_field_type, select_outcome, submit_outcome};
use mcp_web_porter::parse::extract_text;
use mcp_web_porter::form::FormFieldType;
use mcp_web_porter::request_options::Cookie;

#[test]
fn test_title_extracted() {
    let html = "<html><head><title>My Page</title></head><body></body></html>";
    let result = extract_text(html);
    assert!(result.contains("# My Page"), "got: {}", result);
}

#[test]
fn test_h1_prefix() {
    let html = "<html><body><h1>Main Heading</h1></body></html>";
    let result = extract_text(html);
    assert!(result.contains("# Main Heading"), "got: {}", result);
}

#[test]
fn test_h2_prefix() {
    let html = "<html><body><h2>Sub Heading</h2></body></html>";
    let result = extract_text(html);
    assert!(result.contains("## Sub Heading"), "got: {}", result);
}

#[test]
fn test_h3_prefix() {
    let html = "<html><body><h3>Minor Heading</h3></body></html>";
    let result = extract_text(html);
    assert!(result.contains("### Minor Heading"), "got: {}", result);
}

#[test]
fn test_paragraph_no_prefix() {
    let html = "<html><body><p>Some paragraph text</p></body></html>";
    let result = extract_text(html);
    assert!(result.contains("Some paragraph text"), "got: {}", result);
    assert!(!result.contains("# Some"), "got: {}", result);
}

#[test]
fn test_li_prefix() {
    let html = "<html><body><ul><li>Item</li></ul></body></html>";
    let result = extract_text(html);
    assert!(result.contains("- Item"), "got: {}", result);
}

#[test]
fn test_script_excluded() {
    let html = "<html><body><script><p>Should not appear</p></script><p>Real</p></body></html>";
    let result = extract_text(html);
    assert!(!result.contains("Should not appear"), "got: {}", result);
    assert!(result.contains("Real"), "got: {}", result);
}

#[test]
fn test_style_excluded() {
    let html = "<html><head><style><p>CSS noise</p></style></head><body><p>Visible</p></body></html>";
    let result = extract_text(html);
    assert!(!result.contains("CSS noise"), "got: {}", result);
    assert!(result.contains("Visible"), "got: {}", result);
}

#[test]
fn test_nav_excluded() {
    let html = "<html><body><nav><li>Nav link</li></nav><p>Content</p></body></html>";
    let result = extract_text(html);
    assert!(!result.contains("Nav link"), "got: {}", result);
    assert!(result.contains("Content"), "got: {}", result);
}

#[test]
fn test_footer_excluded() {
    let html = "<html><body><footer><p>Footer text</p></footer><p>Main</p></body></html>";
    let result = extract_text(html);
    assert!(!result.contains("Footer text"), "got: {}", result);
    assert!(result.contains("Main"), "got: {}", result);
}

#[test]
fn test_header_excluded() {
    let html = "<html><body><header><h1>Site Title</h1></header><h1>Article</h1></body></html>";
    let result = extract_text(html);
    assert!(!result.contains("# Site Title"), "got: {}", result);
    assert!(result.contains("# Article"), "got: {}", result);
}

#[test]
fn test_aside_excluded() {
    let html = "<html><body><aside><p>Sidebar</p></aside><p>Body</p></body></html>";
    let result = extract_text(html);
    assert!(!result.contains("Sidebar"), "got: {}", result);
    assert!(result.contains("Body"), "got: {}", result);
}

#[test]
fn test_empty_elements_skipped() {
    let html = "<html><body><p></p><p>  </p><p>Real</p></body></html>";
    let result = extract_text(html);
    let lines: Vec<&str> = result.lines().collect();
    assert_eq!(lines.len(), 1);
    assert_eq!(lines[0], "Real");
}

#[test]
fn test_whitespace_normalized() {
    let html = "<html><body><p>  Hello   World  </p></body></html>";
    let result = extract_text(html);
    assert!(result.contains("Hello World"), "got: {}", result);
    assert!(!result.contains("  Hello"), "got: {}", result);
}

#[test]
fn test_empty_document() {
    let result = extract_text("");
    assert!(result.is_empty());
}

#[test]
fn test_multiple_headings_order_preserved() {
    let html = "<html><body><h1>First</h1><h2>Second</h2><h3>Third</h3></body></html>";
    let result = extract_text(html);
    let first_pos = result.find("# First").unwrap();
    let second_pos = result.find("## Second").unwrap();
    let third_pos = result.find("### Third").unwrap();
    assert!(first_pos < second_pos);
    assert!(second_pos < third_pos);
}

#[test]
fn extracted_text_exact_layout() {
    let html = "<html><head><title>T</title></head><body><h1>A</h1><p>b  c</p><ul><li>d</li></ul></body></html>";
    assert_eq!(extract_text(html), "# T\n# A\nb c\n- d");
}

#[test]
fn test_mime_from_url_jpeg() {
    assert_eq!(mime_from_url("https://example.com/photo.jpg"), "image/jpeg");
    assert_eq!(mime_from_url("https://example.com/photo.jpeg"), "image/jpeg");
}

#[test]
fn test_mime_from_url_gif() {
    assert_eq!(mime_from_url("https://example.com/anim.gif"), "image/gif");
}

#[test]
fn test_mime_from_url_webp() {
    assert_eq!(mime_from_url("https://example.com/img.webp"), "image/webp");
}

#[test]
fn test_mime_from_url_svg() {
    assert_eq!(mime_from_url("https://example.com/icon.svg"), "image/svg+xml");
}

#[test]
fn test_mime_from_url_unknown_defaults_to_png() {
    assert_eq!(mime_from_url("https://example.com/img.bmp"), "image/png");
    assert_eq!(mime_from_url("https://example.com/img"), "image/png");
}

#[test]
fn test_mime_from_url_ignores_query_string() {
    assert_eq!(mime_from_url("https://example.com/img.gif?v=1"), "image/gif");
}

#[test]
fn mime_from_url_ignores_extension_case() {
    assert_eq!(mime_from_url("https://example.com/PHOTO.JPG"), "image/jpeg");
}

#[test]
fn test_parse_data_uri_valid_png() {
    let uri = "data:image/png;base64,abc123==";
    let result = parse_data_uri(uri, "image/png;base64,abc123==");
    assert!(result.is_some());
    let img = result.unwrap();
    assert_eq!(img.mime_type(), "image/png");
    assert_eq!(img.data(), "abc123==");
    assert_eq!(img.url(), uri);
}

#[test]
fn test_parse_data_uri_valid_jpeg() {
    let uri = "data:image/jpeg;base64,/9j/xyz";
    let result = parse_data_uri(uri, "image/jpeg;base64,/9j/xyz");
    assert!(result.is_some());
    assert_eq!(result.unwrap().mime_type(), "image/jpeg");
}

#[test]
fn test_parse_data_uri_non_base64_returns_none() {
    let uri = "data:image/png,rawdata";
    let result = parse_data_uri(uri, "image/png,rawdata");
    assert!(result.is_none());
}

#[test]
fn test_parse_data_uri_non_image_returns_none() {
    let uri = "data:text/plain;base64,aGVsbG8=";
    let result = parse_data_uri(uri, "text/plain;base64,aGVsbG8=");
    assert!(result.is_none());
}

#[test]
fn test_parse_data_uri_malformed_returns_none() {
    let result = parse_data_uri("data:bad", "bad");
    assert!(result.is_none());
}

#[test]
fn test_fetch_single_image_data_uri_png() {
    let tiny_png = "data:image/png;base64,iVBORw0KGgo=";
    match plan_image(tiny_png) {
        ImagePlan::Inline(img) => {
            assert_eq!(img.mime_type(), "image/png");
            assert_eq!(img.data(), "iVBORw0KGgo=");
        }
        _ => panic!("expected an inline image"),
    }
}

#[test]
fn test_fetch_single_image_non_http_scheme_returns_none() {
    assert!(matches!(plan_image("ftp://example.com/img.png"), ImagePlan::Skip));
}

#[test]
fn test_fetch_page_images_skips_non_http() {
    let urls = vec!["ftp://example.com/img.png".to_string(), "blob:https://example.com/abc".to_string()];
    for u in &urls {
        assert!(matches!(plan_image(u), ImagePlan::Skip));
    }
}

#[test]
fn test_fetch_page_images_includes_data_uris() {
    let urls = vec!["data:image/png;base64,iVBORw0KGgo=".to_string(), "data:image/jpeg;base64,/9j/abc".to_string()];
    let mimes: Vec<String> = urls
        .iter()
        .filter_map(|u| match plan_image(u) {
            ImagePlan::Inline(img) => Some(img.mime_type().to_string()),
            _ => None,
        })
        .collect();
    assert_eq!(mimes, vec!["image/png", "image/jpeg"]);
}

#[test]
fn web_images_are_fetched() {
    assert!(matches!(plan_image("https://example.com/a.png"), ImagePlan::Fetch));
    assert!(matches!(plan_image("http://example.com/a"), ImagePlan::Fetch));
    assert!(matches!(plan_image("data:text/plain;base64,aGk="), ImagePlan::Skip));
    match image_source("data:xyz") {
        ImageSource::DataUri(rest) => assert_eq!(rest, "xyz"),
        _ => panic!("expected a data URI"),
    }
}

#[test]
fn response_mime_prefers_header() {
    assert_eq!(mime_from_content_type(Some(" image/webp ; q=1"), "https://x/a.png"), "image/webp");
    assert_eq!(mime_from_content_type(None, "https://x/a.gif"), "image/gif");
    assert_eq!(response_mime(Some("image/png"), "https://x/a"), Some("image/png".to_string()));
    assert_eq!(response_mime(Some("text/html; charset=utf-8"), "https://x/a.png"), None);
    assert_eq!(response_mime(None, "https://x/a.svg"), Some("image/svg+xml".to_string()));
}

#[test]
fn fetched_image_is_base64_encoded() {
    let img = encode_image("https://x/a.png", "image/png".to_string(), b"hello");
    assert_eq!(img.data(), "aGVsbG8=");
    assert_eq!(img.url(), "https://x/a.png");
    assert_eq!(img.mime_type(), "image/png");
    assert_eq!(encode_image("u", "image/png".into(), b"").data(), "");
    assert_eq!(encode_image("u", "image/png".into(), b"ab").data(), "YWI=");
    assert_eq!(encode_image("u", "image/png".into(), &[0xff, 0xfe, 0xfd]).data(), "//79");
}

#[test]
fn extract_host_https() {
    assert_eq!(extract_host("https://example.com/path?q=1").unwrap(), "example.com");
}

#[test]
fn extract_host_http_with_port() {
    assert_eq!(extract_host("http://example.com:8080/path").unwrap(), "example.com");
}

#[test]
fn extract_host_invalid_scheme() {
    assert!(extract_host("ftp://example.com").is_err());
}

#[test]
fn extract_host_errors_are_exact() {
    match extract_host("ftp://example.com") {
        Err(HtmlError::InvalidUrl(m)) => assert_eq!(m, "URL missing http/https scheme"),
        other => panic!("unexpected {:?}", other),
    }
    match extract_host("https:///path") {
        Err(HtmlError::InvalidUrl(m)) => assert_eq!(m, "URL has no host"),
        other => panic!("unexpected {:?}", other),
    }
    assert_eq!(extract_host("https://a.b?x=1").unwrap(), "a.b");
}

#[test]
fn cookie_defaults_to_page_host_and_root_path() {
    let c = Cookie { name: "k".into(), value: "v".into(), domain: None, path: None };
    assert_eq!(cookie_target("https://shop.example.com/cart", &c).unwrap(), ("shop.example.com".to_string(), "/".to_string()));
    let c = Cookie { name: "k".into(), value: "v".into(), domain: Some(".example.com".into()), path: Some("/api".into()) };
    assert_eq!(cookie_target("ftp://ignored", &c).unwrap(), (".example.com".to_string(), "/api".to_string()));
}

#[test]
fn field_types_map_from_dom_names() {
    assert_eq!(map_field_type("email"), FormFieldType::Email);
    assert_eq!(map_field_type("password"), FormFieldType::Password);
    assert_eq!(map_field_type("select"), FormFieldType::Select);
    assert_eq!(map_field_type("checkbox"), FormFieldType::Checkbox);
    assert_eq!(map_field_type("textarea"), FormFieldType::Textarea);
    assert_eq!(map_field_type("text"), FormFieldType::Text);
    assert_eq!(map_field_type("radio"), FormFieldType::Unknown);
    assert_eq!(map_field_type("Email"), FormFieldType::Unknown);
}

#[test]
fn page_script_outcomes() {
    assert!(submit_outcome(true).is_ok());
    match submit_outcome(false) {
        Err(HtmlError::SubmitFailed(m)) => assert_eq!(m, "no submit button or form found"),
        other => panic!("unexpected {:?}", other),
    }
    match click_outcome("Next", false) {
        Err(HtmlError::ButtonNotFound(m)) => assert_eq!(m, "Next"),
        other => panic!("unexpected {:?}", other),
    }
    match select_outcome("fr", "#lang", false) {
        Err(HtmlError::SubmitFailed(m)) => assert_eq!(m, "could not select option 'fr' in '#lang'"),
        other => panic!("unexpected {:?}", other),
    }
    assert!(select_outcome("fr", "#lang", true).is_ok());
}
