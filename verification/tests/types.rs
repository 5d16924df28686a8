use mcp_web_porter::error::HtmlError;
use mcp_web_porter::handlers::{ActHandler, FormHandler, HtmlResourceHandler, SessionHandler};
use mcp_web_porter::html::{HtmlContent, PageImage};
use mcp_web_porter::request_options::{Cookie, RequestOptions};
use mcp_web_porter::resource_uri::ResourceUri;

#[test]
fn test_field_not_found_display() {
    let e = HtmlError::FieldNotFound("email".to_string());
    assert!(e.message().contains("email"));
}

#[test]
fn test_invalid_field_value_display() {
    let e = HtmlError::InvalidFieldValue {
        field: "email".to_string(),
        reason: "not a valid email".to_string(),
    };
    let s = e.message();
    assert!(s.contains("email"));
    assert!(s.contains("not a valid email"));
}

#[test]
fn test_submit_failed_display() {
    let e = HtmlError::SubmitFailed("no submit button".to_string());
    assert!(e.message().contains("no submit button"));
}

#[test]
fn test_button_not_found_display() {
    let e = HtmlError::ButtonNotFound("Continue".to_string());
    assert!(e.message().contains("Continue"));
}

#[test]
fn error_messages_are_exact() {
    assert_eq!(HtmlError::FetchError("x".into()).message(), "Failed to fetch URL: x");
    assert_eq!(HtmlError::InvalidUrl("bad".into()).message(), "Invalid URL: bad");
    assert_eq!(HtmlError::HttpError(404).message(), "HTTP error: 404");
    assert_eq!(HtmlError::HttpError(0).message(), "HTTP error: 0");
    assert_eq!(HtmlError::BrowserError("b".into()).message(), "Browser error: b");
    assert_eq!(HtmlError::FieldNotFound("f".into()).message(), "Field not found: f");
    assert_eq!(
        HtmlError::InvalidFieldValue { field: "email".into(), reason: "bad".into() }.message(),
        "Invalid value for field 'email': bad"
    );
    assert_eq!(HtmlError::SubmitFailed("s".into()).message(), "Form submission failed: s");
    assert_eq!(HtmlError::ButtonNotFound("Go".into()).message(), "Button not found: 'Go'");
    assert_eq!(HtmlError::NoActions.message(), "No actions provided");
    assert_eq!(
        HtmlError::TooManyActions { count: 21, max: 20 }.message(),
        "Too many actions: 21 (max 20)"
    );
    assert_eq!(HtmlError::CookieExtractionError("c".into()).message(), "c");
    assert_eq!(HtmlError::SessionUnavailable("s".into()).message(), "Session unavailable: s");
}

#[test]
fn test_page_image_creation() {
    let img = PageImage::new(
        "https://example.com/img.png".to_string(),
        "abc123".to_string(),
        "image/png".to_string(),
    );
    assert_eq!(img.url(), "https://example.com/img.png");
    assert_eq!(img.data(), "abc123");
    assert_eq!(img.mime_type(), "image/png");
}

#[test]
fn test_html_content_creation() {
    let content = HtmlContent::new(
        "https://example.com".to_string(),
        "<html></html>".to_string(),
        "Hello world".to_string(),
    );
    assert_eq!(content.url(), "https://example.com");
    assert_eq!(content.html(), "<html></html>");
    assert_eq!(content.text(), "Hello world");
}

#[test]
fn test_html_content_length() {
    let content = HtmlContent::new(
        "https://example.com".to_string(),
        "<html></html>".to_string(),
        "".to_string(),
    );
    assert_eq!(content.html_length(), 13);
}

#[test]
fn html_length_counts_utf8_bytes() {
    let content = HtmlContent::new("https://example.com".to_string(), "é€".to_string(), String::new());
    assert_eq!(content.html_length(), 5);
}

#[test]
fn cookie_with_no_optional_fields_constructs() {
    let c = Cookie {
        name: "session".to_string(),
        value: "abc".to_string(),
        domain: None,
        path: None,
    };
    assert_eq!(c.name, "session");
    assert_eq!(c.value, "abc");
    assert!(c.domain.is_none());
    assert!(c.path.is_none());
}

#[test]
fn cookie_with_all_fields_constructs() {
    let c = Cookie {
        name: "auth".to_string(),
        value: "token123".to_string(),
        domain: Some("example.com".to_string()),
        path: Some("/api".to_string()),
    };
    assert_eq!(c.domain.as_deref(), Some("example.com"));
    assert_eq!(c.path.as_deref(), Some("/api"));
}

#[test]
fn request_options_default_has_none_fields() {
    let opts = RequestOptions::default();
    assert!(opts.cookies.is_none());
    assert!(opts.headers.is_none());
}

#[test]
fn test_resource_uri_parse_valid_https() {
    let result = ResourceUri::parse("https://example.com");
    assert!(result.is_ok());
    assert_eq!(result.unwrap().url(), "https://example.com");
}

#[test]
fn test_resource_uri_parse_valid_http() {
    let result = ResourceUri::parse("http://example.com");
    assert!(result.is_ok());
    assert_eq!(result.unwrap().url(), "http://example.com");
}

#[test]
fn test_resource_uri_parse_with_path() {
    let result = ResourceUri::parse("https://example.com/path/to/page");
    assert!(result.is_ok());
    assert_eq!(result.unwrap().url(), "https://example.com/path/to/page");
}

#[test]
fn test_resource_uri_parse_with_query_params() {
    let result = ResourceUri::parse("https://example.com/page?param=value&other=123");
    assert!(result.is_ok());
    assert_eq!(result.unwrap().url(), "https://example.com/page?param=value&other=123");
}

#[test]
fn test_resource_uri_parse_invalid_scheme() {
    let result = ResourceUri::parse("ftp://example.com");
    assert!(result.is_err());
    match result {
        Err(HtmlError::InvalidUrl(msg)) => {
            assert!(msg.contains("must start with http://"));
        }
        _ => panic!("Expected InvalidUrl error"),
    }
}

#[test]
fn test_resource_uri_parse_empty_url() {
    let result = ResourceUri::parse("");
    assert!(result.is_err());
    match result {
        Err(HtmlError::InvalidUrl(msg)) => {
            assert!(msg.contains("cannot be empty"));
        }
        _ => panic!("Expected InvalidUrl error for empty URL"),
    }
}

#[test]
fn test_resource_uri_parse_malformed_url() {
    let result = ResourceUri::parse("not-a-valid-url");
    assert!(result.is_err());
    match result {
        Err(HtmlError::InvalidUrl(msg)) => {
            assert!(msg.contains("must start with http://"));
        }
        _ => panic!("Expected InvalidUrl error"),
    }
}

#[test]
fn resource_uri_scheme_is_case_sensitive() {
    assert!(ResourceUri::parse("HTTPS://example.com").is_err());
    assert!(ResourceUri::parse("https:/example.com").is_err());
    assert!(ResourceUri::parse("https://").is_ok());
}

#[test]
fn handler_is_cloneable() {
    let a = ActHandler::default();
    let b = a.clone();
    drop((a, b));
}

#[test]
fn test_handler_is_cloneable() {
    let handler1 = SessionHandler::default();
    let handler2 = handler1.clone();
    drop((handler1, handler2));
}

#[test]
fn test_handler_defaults() {
    let _handler = SessionHandler::default();
}

#[test]
fn form_and_resource_handlers_construct() {
    let f = FormHandler::default();
    let g = f.clone();
    drop((f, g));
    let h = HtmlResourceHandler::new();
    let d = HtmlResourceHandler::default();
    drop((h, d));
}
