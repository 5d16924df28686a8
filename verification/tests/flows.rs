use std::collections::HashMap;

use mcp_web_porter::error::HtmlError;
use mcp_web_porter::flow::{option_flags, BrowserCommand, BrowserEvent, FlowStep};
use mcp_web_porter::form::{ButtonResolvedBy, FieldInput, FieldValue, FormButton, FormField, FormFieldType};
use mcp_web_porter::handlers::FormHandler;
use mcp_web_porter::request_options::{Cookie, RequestOptions};
use mcp_web_porter::tools::{ActFlow, DetectFlow, FetchFlow};

fn command_name(c: &BrowserCommand) -> &'static str {
    match c {
        BrowserCommand::Start => "start",
        BrowserCommand::SetCookies => "set_cookies",
        BrowserCommand::SetExtraHeaders => "set_extra_headers",
        BrowserCommand::Open => "open",
        BrowserCommand::Read { .. } => "read",
        BrowserCommand::DetectFields => "detect_fields",
        BrowserCommand::ReadFieldValue { .. } => "read_field_value",
        BrowserCommand::FillField { .. } => "fill_field",
        BrowserCommand::SubmitForm => "submit_form",
        BrowserCommand::ClickButton { .. } => "click_button",
        BrowserCommand::ClickButtonByIdOrLabel { .. } => "click_button_by_id_or_label",
        BrowserCommand::GetImageUrls => "get_image_urls",
        BrowserCommand::RunActions { .. } => "run_actions",
    }
}

/// Runs a protocol against a scripted browser; returns the result and the
/// names of the commands issued, in order.
fn drive<T>(
    first: FlowStep<T>,
    mut advance: impl FnMut(BrowserEvent) -> FlowStep<T>,
    mut browser: impl FnMut(&BrowserCommand) -> BrowserEvent,
) -> (Result<T, HtmlError>, Vec<&'static str>) {
    let mut log = Vec::new();
    let mut step = first;
    for _ in 0..200 {
        match step {
            FlowStep::Finished(r) => return (r, log),
            FlowStep::Run(c) => {
                log.push(command_name(&c));
                let ev = browser(&c);
                step = advance(ev);
            }
        }
    }
    panic!("the protocol did not finish");
}

fn browser_error(m: &str) -> BrowserEvent {
    BrowserEvent::Failed(HtmlError::BrowserError(m.to_string()))
}

/// The page setup answers of a browser that works.
fn setup_ok(c: &BrowserCommand) -> Option<BrowserEvent> {
    match c {
        BrowserCommand::Start | BrowserCommand::SetCookies | BrowserCommand::SetExtraHeaders | BrowserCommand::Open => {
            Some(BrowserEvent::Done)
        }
        BrowserCommand::Read { .. } => Some(BrowserEvent::Html("<html/>".to_string())),
        _ => None,
    }
}

fn make_text_field(name: &str) -> FormField {
    FormField {
        selector: format!("[name=\"{}\"]", name),
        field_type: FormFieldType::Text,
        name: Some(name.to_string()),
        id: None,
        label: None,
        placeholder: None,
        required: false,
        options: vec![],
    }
}

fn make_email_field(name: &str) -> FormField {
    FormField {
        selector: format!("[name=\"{}\"]", name),
        field_type: FormFieldType::Email,
        name: Some(name.to_string()),
        id: None,
        label: None,
        placeholder: None,
        required: false,
        options: vec![],
    }
}

fn detected_fields() -> Vec<FormField> {
    vec![make_text_field("custname"), make_text_field("custtel"), make_email_field("custemail")]
}

fn cookie_options() -> RequestOptions {
    RequestOptions {
        cookies: Some(vec![Cookie { name: "s".to_string(), value: "v".to_string(), domain: None, path: None }]),
        headers: None,
    }
}

fn header_options() -> RequestOptions {
    let mut h = HashMap::new();
    h.insert("Authorization".to_string(), "Bearer x".to_string());
    RequestOptions { cookies: None, headers: Some(h) }
}

fn both_options() -> RequestOptions {
    let mut h = HashMap::new();
    h.insert("X-Api-Key".to_string(), "secret".to_string());
    RequestOptions {
        cookies: Some(vec![Cookie { name: "k".to_string(), value: "v".to_string(), domain: None, path: None }]),
        headers: Some(h),
    }
}

fn fetch(
    images: bool,
    options: Option<&RequestOptions>,
    browser: impl FnMut(&BrowserCommand) -> BrowserEvent,
) -> (Result<(String, Vec<String>), HtmlError>, Vec<&'static str>) {
    let (cookies, headers) = option_flags(options);
    let mut flow = FetchFlow::new(0, images, cookies, headers);
    let first = FlowStep::Run(flow.begin());
    drive(first, |e| flow.advance(e), browser)
}

fn detect(browser: impl FnMut(&BrowserCommand) -> BrowserEvent) -> (Result<mcp_web_porter::form::FormStep, HtmlError>, Vec<&'static str>) {
    let mut flow = DetectFlow::new(false, false);
    let first = FlowStep::Run(flow.begin());
    drive(first, |e| flow.advance(e), browser)
}

fn fill(
    inputs: Vec<FieldInput>,
    auto_submit: bool,
    label: Option<&str>,
    dry_run: bool,
    options: Option<&RequestOptions>,
    browser: impl FnMut(&BrowserCommand) -> BrowserEvent,
) -> (Result<mcp_web_porter::form::FormFillResult, HtmlError>, Vec<&'static str>) {
    let handler = FormHandler::default();
    let (mut flow, c) = handler
        .start_fill("https://example.com", inputs, auto_submit, label.map(|s| s.to_string()), dry_run, options)
        .unwrap();
    drive(FlowStep::Run(c), |e| flow.advance(e), browser)
}

fn click(
    button_id: Option<&str>,
    label: Option<&str>,
    browser: impl FnMut(&BrowserCommand) -> BrowserEvent,
) -> (Result<mcp_web_porter::form::ClickButtonResult, HtmlError>, Vec<&'static str>) {
    let handler = FormHandler::default();
    let (mut flow, first) = handler
        .start_click(
            "https://example.com",
            button_id.map(|s| s.to_string()),
            label.map(|s| s.to_string()),
            None,
        )
        .unwrap();
    drive(first, |e| flow.advance(e), browser)
}

fn alice() -> Vec<FieldInput> {
    vec![FieldInput { identifier: "custname".to_string(), value: FieldValue::Text("Alice".to_string()) }]
}

#[test]
fn test_start_error_propagates() {
    let (r, log) = fetch(false, None, |_| browser_error("config build failed"));
    assert!(matches!(r, Err(HtmlError::BrowserError(_))));
    assert_eq!(log, vec!["start"]);
}

#[test]
fn test_open_error_propagates() {
    let (r, _) = fetch(false, None, |c| match c {
        BrowserCommand::Open => browser_error("new_page failed"),
        _ => setup_ok(c).unwrap(),
    });
    assert!(matches!(r, Err(HtmlError::BrowserError(_))));
}

#[test]
fn test_read_error_propagates() {
    let (r, _) = fetch(false, None, |c| match c {
        BrowserCommand::Read { .. } => browser_error("page content failed"),
        _ => setup_ok(c).unwrap(),
    });
    assert!(matches!(r, Err(HtmlError::BrowserError(_))));
}

#[test]
fn fetch_returns_the_page_read_after_the_wait() {
    let (cookies, headers) = option_flags(None);
    let mut flow = FetchFlow::new(1500, false, cookies, headers);
    let first = FlowStep::Run(flow.begin());
    let mut waits = Vec::new();
    let (r, log) = drive(first, |e| flow.advance(e), |c| match c {
        BrowserCommand::Read { wait_ms } => {
            waits.push(*wait_ms);
            BrowserEvent::Html("<p>x</p>".to_string())
        }
        _ => setup_ok(c).unwrap(),
    });
    let (html, urls) = r.unwrap();
    assert_eq!(html, "<p>x</p>");
    assert!(urls.is_empty());
    assert_eq!(log, vec!["start", "open", "read"]);
    assert_eq!(waits, vec![1500]);
}

#[test]
fn test_detect_fields_error_propagates() {
    let (r, _) = detect(|c| match c {
        BrowserCommand::DetectFields => browser_error("detect failed"),
        _ => setup_ok(c).unwrap(),
    });
    assert!(matches!(r, Err(HtmlError::BrowserError(_))));
}

fn detect_with_buttons(buttons: Vec<FormButton>) -> Vec<FormButton> {
    let mut once = Some(buttons);
    let (r, _) = detect(move |c| match c {
        BrowserCommand::DetectFields => BrowserEvent::Fields(vec![], once.take().unwrap()),
        _ => setup_ok(c).unwrap(),
    });
    r.unwrap().buttons
}

#[test]
fn test_detect_aria_label_button_flows_through() {
    let buttons =
        detect_with_buttons(vec![FormButton { label: "Search".to_string(), selector: "#search-btn".to_string() }]);
    assert_eq!(buttons.len(), 1);
    assert_eq!(buttons[0].label, "Search");
    assert_eq!(buttons[0].selector, "#search-btn");
}

#[test]
fn test_detect_svg_title_button_flows_through() {
    let buttons = detect_with_buttons(vec![FormButton {
        label: "Close".to_string(),
        selector: "button:nth-of-type(1)".to_string(),
    }]);
    assert_eq!(buttons.len(), 1);
    assert_eq!(buttons[0].label, "Close");
}

#[test]
fn test_detect_img_alt_button_flows_through() {
    let buttons =
        detect_with_buttons(vec![FormButton { label: "Cart".to_string(), selector: "a:nth-of-type(1)".to_string() }]);
    assert_eq!(buttons.len(), 1);
    assert_eq!(buttons[0].label, "Cart");
}

#[test]
fn test_detect_no_label_button_excluded() {
    let buttons = detect_with_buttons(vec![]);
    assert!(buttons.is_empty());
}

#[test]
fn test_set_cookies_error_propagates_before_open() {
    let opts = cookie_options();
    let (r, log) = fetch(false, Some(&opts), |c| match c {
        BrowserCommand::SetCookies => browser_error("set_cookies failed"),
        _ => setup_ok(c).unwrap(),
    });
    assert!(matches!(r, Err(HtmlError::BrowserError(_))));
    assert_eq!(log, vec!["start", "set_cookies"]);
}

#[test]
fn test_set_extra_headers_error_propagates_before_open() {
    let opts = header_options();
    let (r, log) = fetch(false, Some(&opts), |c| match c {
        BrowserCommand::SetExtraHeaders => browser_error("set_headers failed"),
        _ => setup_ok(c).unwrap(),
    });
    assert!(matches!(r, Err(HtmlError::BrowserError(_))));
    assert_eq!(log, vec!["start", "set_extra_headers"]);
}

#[test]
fn test_apply_request_options_none_calls_nothing() {
    let (r, log) = fetch(false, None, |c| setup_ok(c).unwrap());
    assert!(r.is_ok());
    assert_eq!(log, vec!["start", "open", "read"]);
}

#[test]
fn test_apply_request_options_only_cookies() {
    let opts = cookie_options();
    let (r, log) = fetch(false, Some(&opts), |c| setup_ok(c).unwrap());
    assert!(r.is_ok());
    assert_eq!(log, vec!["start", "set_cookies", "open", "read"]);
}

#[test]
fn test_apply_request_options_only_headers() {
    let opts = header_options();
    let (r, log) = fetch(false, Some(&opts), |c| setup_ok(c).unwrap());
    assert!(r.is_ok());
    assert_eq!(log, vec!["start", "set_extra_headers", "open", "read"]);
}

#[test]
fn test_apply_request_options_both_called_in_order() {
    let opts = both_options();
    let (r, log) = fetch(false, Some(&opts), |c| setup_ok(c).unwrap());
    assert!(r.is_ok());
    assert_eq!(log, vec!["start", "set_cookies", "set_extra_headers", "open", "read"]);
}

#[test]
fn test_fetch_with_images_ops_success() {
    let (r, log) = fetch(true, None, |c| match c {
        BrowserCommand::Read { .. } => {
            BrowserEvent::Html("<html><img src='https://example.com/a.png'/></html>".to_string())
        }
        BrowserCommand::GetImageUrls => BrowserEvent::ImageUrls(vec!["https://example.com/a.png".to_string()]),
        _ => setup_ok(c).unwrap(),
    });
    let (html, urls) = r.unwrap();
    assert!(html.contains("<img"));
    assert_eq!(urls, vec!["https://example.com/a.png"]);
    assert_eq!(log, vec!["start", "open", "read", "get_image_urls"]);
}

#[test]
fn test_fetch_with_images_ops_no_images() {
    let (r, _) = fetch(true, None, |c| match c {
        BrowserCommand::Read { .. } => BrowserEvent::Html("<html><p>No images here.</p></html>".to_string()),
        BrowserCommand::GetImageUrls => BrowserEvent::ImageUrls(vec![]),
        _ => setup_ok(c).unwrap(),
    });
    let (_, urls) = r.unwrap();
    assert!(urls.is_empty());
}

#[test]
fn test_fetch_with_images_ops_get_image_urls_error() {
    let (r, _) = fetch(true, None, |c| match c {
        BrowserCommand::GetImageUrls => browser_error("evaluate failed"),
        _ => setup_ok(c).unwrap(),
    });
    assert!(matches!(r, Err(HtmlError::BrowserError(_))));
}

#[test]
fn test_fetch_with_images_ops_read_error() {
    let (r, log) = fetch(true, None, |c| match c {
        BrowserCommand::Read { .. } => browser_error("content failed"),
        _ => setup_ok(c).unwrap(),
    });
    assert!(matches!(r, Err(HtmlError::BrowserError(_))));
    assert_eq!(log, vec!["start", "open", "read"]);
}

#[test]
fn unexpected_outcome_ends_the_protocol() {
    let (r, _) = fetch(false, None, |_| BrowserEvent::Html("early".to_string()));
    match r {
        Err(HtmlError::BrowserError(m)) => assert_eq!(m, "unexpected browser event"),
        _ => panic!("expected a protocol error"),
    }
}

#[test]
fn test_detect_error_in_fill_propagates() {
    let (r, _) = fill(vec![], false, None, false, None, |c| match c {
        BrowserCommand::DetectFields => browser_error("detect failed"),
        _ => setup_ok(c).unwrap(),
    });
    assert!(matches!(r, Err(HtmlError::BrowserError(_))));
}

#[test]
fn form_handler_test_fill_field_error_propagates() {
    let (r, _) = fill(alice(), false, None, false, None, |c| match c {
        BrowserCommand::DetectFields => BrowserEvent::Fields(detected_fields(), vec![]),
        BrowserCommand::FillField { .. } => browser_error("fill failed"),
        _ => setup_ok(c).unwrap(),
    });
    assert!(matches!(r, Err(HtmlError::BrowserError(_))));
}

#[test]
fn form_handler_test_submit_form_error_propagates() {
    let (r, _) = fill(alice(), true, None, false, None, |c| match c {
        BrowserCommand::DetectFields => BrowserEvent::Fields(detected_fields(), vec![]),
        BrowserCommand::FillField { .. } => BrowserEvent::Done,
        BrowserCommand::SubmitForm => BrowserEvent::Failed(HtmlError::SubmitFailed("no form".to_string())),
        _ => setup_ok(c).unwrap(),
    });
    assert!(matches!(r, Err(HtmlError::SubmitFailed(_))));
}

#[test]
fn test_click_button_not_found_propagates() {
    let (r, _) = fill(alice(), false, Some("Continue"), false, None, |c| match c {
        BrowserCommand::DetectFields => BrowserEvent::Fields(detected_fields(), vec![]),
        BrowserCommand::FillField { .. } => BrowserEvent::Done,
        BrowserCommand::ClickButton { .. } => {
            BrowserEvent::Failed(HtmlError::ButtonNotFound("Continue".to_string()))
        }
        _ => setup_ok(c).unwrap(),
    });
    assert!(matches!(r, Err(HtmlError::ButtonNotFound(_))));
}

#[test]
fn test_dry_run_read_field_error_propagates() {
    let (r, _) = fill(alice(), false, None, true, None, |c| match c {
        BrowserCommand::DetectFields => BrowserEvent::Fields(detected_fields(), vec![]),
        BrowserCommand::ReadFieldValue { .. } => browser_error("read failed"),
        _ => setup_ok(c).unwrap(),
    });
    assert!(matches!(r, Err(HtmlError::BrowserError(_))));
}

#[test]
fn test_detect_set_cookies_error_propagates() {
    let handler = FormHandler::default();
    let opts = cookie_options();
    let (mut flow, c) = handler.start_detect("https://example.com", Some(&opts)).unwrap();
    let (r, log) = drive(FlowStep::Run(c), |e| flow.advance(e), |c| match c {
        BrowserCommand::SetCookies => browser_error("set_cookies failed"),
        _ => setup_ok(c).unwrap(),
    });
    assert!(matches!(r, Err(HtmlError::BrowserError(_))));
    assert_eq!(log, vec!["start", "set_cookies"]);
}

#[test]
fn test_fill_set_extra_headers_error_propagates() {
    let opts = header_options();
    let (r, log) = fill(vec![], false, None, false, Some(&opts), |c| match c {
        BrowserCommand::SetExtraHeaders => browser_error("headers failed"),
        _ => setup_ok(c).unwrap(),
    });
    assert!(matches!(r, Err(HtmlError::BrowserError(_))));
    assert_eq!(log, vec!["start", "set_extra_headers"]);
}

#[test]
fn test_click_button_options_none_no_cookie_calls() {
    let (r, log) = click(None, None, |c| setup_ok(c).unwrap());
    assert!(matches!(r, Err(HtmlError::ButtonNotFound(_))));
    assert!(log.is_empty());
}

#[test]
fn test_click_button_both_none_returns_error() {
    let (r, log) = click(None, None, |_| panic!("no browser operation expected"));
    assert!(matches!(r, Err(HtmlError::ButtonNotFound(_))));
    assert!(log.is_empty());
}

#[test]
fn test_click_button_by_id_or_label_error_propagates() {
    let (r, _) = click(Some("btn"), None, |c| match c {
        BrowserCommand::ClickButtonByIdOrLabel { .. } => {
            BrowserEvent::Failed(HtmlError::ButtonNotFound("by id 'btn'".to_string()))
        }
        _ => setup_ok(c).unwrap(),
    });
    assert!(matches!(r, Err(HtmlError::ButtonNotFound(_))));
}

#[test]
fn test_click_button_read_after_click_error() {
    let mut reads = 0;
    let (r, _) = click(Some("go"), None, |c| match c {
        BrowserCommand::Read { .. } => {
            reads += 1;
            if reads == 1 {
                BrowserEvent::Html("<html/>".to_string())
            } else {
                browser_error("read failed")
            }
        }
        BrowserCommand::ClickButtonByIdOrLabel { .. } => BrowserEvent::Clicked(
            FormButton { label: "Go".to_string(), selector: "#go".to_string() },
            ButtonResolvedBy::Id,
        ),
        _ => setup_ok(c).unwrap(),
    });
    assert!(matches!(r, Err(HtmlError::BrowserError(_))));
    assert_eq!(reads, 2);
}

#[test]
fn test_click_button_detect_after_click_error() {
    let (r, _) = click(None, Some("Go"), |c| match c {
        BrowserCommand::ClickButtonByIdOrLabel { .. } => BrowserEvent::Clicked(
            FormButton { label: "Go".to_string(), selector: "#go".to_string() },
            ButtonResolvedBy::Label,
        ),
        BrowserCommand::DetectFields => browser_error("detect failed"),
        _ => setup_ok(c).unwrap(),
    });
    assert!(matches!(r, Err(HtmlError::BrowserError(_))));
}

#[test]
fn test_click_button_returns_next_step_when_fields_present() {
    let (r, _) = click(Some("next"), None, |c| match c {
        BrowserCommand::ClickButtonByIdOrLabel { .. } => BrowserEvent::Clicked(
            FormButton { label: "Next".to_string(), selector: "#next".to_string() },
            ButtonResolvedBy::Id,
        ),
        BrowserCommand::DetectFields => BrowserEvent::Fields(vec![make_text_field("step2_name")], vec![]),
        _ => setup_ok(c).unwrap(),
    });
    let r = r.unwrap();
    assert!(r.next_step.is_some());
}

#[test]
fn test_click_button_returns_no_next_step_when_no_fields() {
    let (r, _) = click(None, Some("Submit"), |c| match c {
        BrowserCommand::ClickButtonByIdOrLabel { .. } => BrowserEvent::Clicked(
            FormButton { label: "Submit".to_string(), selector: "button".to_string() },
            ButtonResolvedBy::Label,
        ),
        BrowserCommand::DetectFields => BrowserEvent::Fields(vec![], vec![]),
        _ => setup_ok(c).unwrap(),
    });
    let r = r.unwrap();
    assert!(r.next_step.is_none());
}

#[test]
fn click_reports_button_text_and_resolution() {
    let mut waits = Vec::new();
    let (r, log) = click(Some("go"), Some("Go"), |c| match c {
        BrowserCommand::ClickButtonByIdOrLabel { button_id, label } => {
            assert_eq!(button_id.as_deref(), Some("go"));
            assert_eq!(label.as_deref(), Some("Go"));
            BrowserEvent::Clicked(FormButton { label: "Go on".to_string(), selector: "#go".to_string() }, ButtonResolvedBy::Id)
        }
        BrowserCommand::Read { wait_ms } => {
            waits.push(*wait_ms);
            BrowserEvent::Html("<html><body><h1>Done</h1><p>Thanks</p></body></html>".to_string())
        }
        BrowserCommand::DetectFields => BrowserEvent::Fields(vec![], vec![]),
        _ => setup_ok(c).unwrap(),
    });
    let r = r.unwrap();
    assert_eq!(r.clicked_button.label, "Go on");
    assert_eq!(r.resolved_by, ButtonResolvedBy::Id);
    assert_eq!(r.page_text_after, "# Done\nThanks");
    assert_eq!(waits, vec![1500, 1000]);
    assert_eq!(log, vec!["start", "open", "read", "click_button_by_id_or_label", "read", "detect_fields"]);
}

#[test]
fn fill_without_submit_reports_filled_fields() {
    let mut filled = Vec::new();
    let inputs = vec![
        FieldInput { identifier: "custname".into(), value: FieldValue::Text("Alice".into()) },
        FieldInput { identifier: "CUSTEMAIL".into(), value: FieldValue::Text("a@b.co".into()) },
    ];
    let (r, log) = fill(inputs, false, None, false, None, |c| match c {
        BrowserCommand::DetectFields => BrowserEvent::Fields(detected_fields(), vec![]),
        BrowserCommand::FillField { selector, value } => {
            filled.push((selector.clone(), value.clone()));
            BrowserEvent::Done
        }
        _ => setup_ok(c).unwrap(),
    });
    let r = r.unwrap();
    assert!(!r.submitted);
    assert!(r.page_text_after.is_none() && r.next_step.is_none() && r.preview.is_none());
    assert_eq!(r.fields_filled.len(), 2);
    assert_eq!(r.fields_filled[1].identifier, "CUSTEMAIL");
    assert_eq!(r.fields_filled[1].field_type, FormFieldType::Email);
    assert_eq!(filled.len(), 2);
    assert_eq!(filled[0].0, "[name=\"custname\"]");
    assert_eq!(filled[1].0, "[name=\"custemail\"]");
    assert_eq!(log, vec!["start", "open", "read", "detect_fields", "fill_field", "fill_field"]);
}

#[test]
fn fill_with_auto_submit_reads_the_result_page() {
    let (r, log) = fill(alice(), true, None, false, None, |c| match c {
        BrowserCommand::DetectFields => BrowserEvent::Fields(detected_fields(), vec![]),
        BrowserCommand::FillField { .. } | BrowserCommand::SubmitForm => BrowserEvent::Done,
        BrowserCommand::Read { wait_ms: 1000 } => BrowserEvent::Html("<p>Order received</p>".to_string()),
        _ => setup_ok(c).unwrap(),
    });
    let r = r.unwrap();
    assert!(r.submitted);
    assert_eq!(r.page_text_after.as_deref(), Some("Order received"));
    assert_eq!(log, vec!["start", "open", "read", "detect_fields", "fill_field", "submit_form", "read"]);
}

#[test]
fn fill_with_continuation_button_reports_next_step() {
    let (r, log) = fill(alice(), true, Some("Next"), false, None, |c| match c {
        BrowserCommand::DetectFields => BrowserEvent::Fields(detected_fields(), vec![]),
        BrowserCommand::FillField { .. } => BrowserEvent::Done,
        BrowserCommand::ClickButton { label } => {
            assert_eq!(label, "Next");
            BrowserEvent::Done
        }
        _ => setup_ok(c).unwrap(),
    });
    let r = r.unwrap();
    assert!(!r.submitted);
    assert!(r.next_step.is_some());
    assert_eq!(
        log,
        vec!["start", "open", "read", "detect_fields", "fill_field", "click_button", "read", "detect_fields"]
    );
}

#[test]
fn dry_run_previews_without_filling() {
    let inputs = vec![
        FieldInput { identifier: "custname".into(), value: FieldValue::Text("Alice".into()) },
        FieldInput { identifier: "custtel".into(), value: FieldValue::Text("123".into()) },
    ];
    let (r, log) = fill(inputs, true, None, true, None, |c| match c {
        BrowserCommand::DetectFields => BrowserEvent::Fields(detected_fields(), vec![]),
        BrowserCommand::ReadFieldValue { selector } => {
            BrowserEvent::FieldValue(if selector.contains("custname") { Some("Bob".into()) } else { None })
        }
        BrowserCommand::FillField { .. } | BrowserCommand::SubmitForm => panic!("a dry run must not touch the page"),
        _ => setup_ok(c).unwrap(),
    });
    let r = r.unwrap();
    assert!(r.fields_filled.is_empty());
    assert!(!r.submitted);
    let p = r.preview.unwrap();
    assert_eq!(p.entries.len(), 2);
    assert_eq!(p.entries[0].current_value.as_deref(), Some("Bob"));
    assert_eq!(p.entries[1].current_value, None);
    assert_eq!(log, vec!["start", "open", "read", "detect_fields", "read_field_value", "read_field_value"]);
}

#[test]
fn fill_rejects_bad_input_before_touching_fields() {
    let inputs = vec![FieldInput { identifier: "custemail".into(), value: FieldValue::Text("not-an-email".into()) }];
    let (r, log) = fill(inputs, false, None, false, None, |c| match c {
        BrowserCommand::DetectFields => BrowserEvent::Fields(detected_fields(), vec![]),
        _ => setup_ok(c).unwrap(),
    });
    assert!(matches!(r, Err(HtmlError::InvalidFieldValue { .. })));
    assert_eq!(log, vec!["start", "open", "read", "detect_fields"]);
    let inputs = vec![FieldInput { identifier: "nonexistent_field_xyz".into(), value: FieldValue::Text("x".into()) }];
    let (r, _) = fill(inputs, false, None, false, None, |c| match c {
        BrowserCommand::DetectFields => BrowserEvent::Fields(detected_fields(), vec![]),
        _ => setup_ok(c).unwrap(),
    });
    assert!(matches!(r, Err(HtmlError::FieldNotFound(_))));
}

#[test]
fn batch_protocol_runs_actions_then_reads_page() {
    let mut flow = ActFlow::new(false, false);
    let first = FlowStep::Run(flow.begin());
    let mut detections = 0;
    let (r, log) = drive(first, |e| flow.advance(e), |c| match c {
        BrowserCommand::DetectFields => {
            detections += 1;
            if detections == 1 {
                BrowserEvent::Fields(detected_fields(), vec![])
            } else {
                BrowserEvent::Fields(vec![make_text_field("next")], vec![])
            }
        }
        BrowserCommand::RunActions { fields } => {
            assert_eq!(fields.len(), 3);
            BrowserEvent::ActionResults(vec![])
        }
        BrowserCommand::Read { wait_ms } => {
            assert_eq!(*wait_ms, 1500);
            BrowserEvent::Html("<p>after</p>".to_string())
        }
        _ => setup_ok(c).unwrap(),
    });
    let r = r.unwrap();
    assert_eq!(r.page_text_after, "after");
    assert!(r.next_step.is_some());
    assert_eq!(log, vec!["start", "open", "read", "detect_fields", "run_actions", "read", "detect_fields"]);
}

#[test]
fn batch_on_open_page_starts_with_detection() {
    let (mut flow, c) = ActFlow::on_open_page();
    let (r, log) = drive(FlowStep::Run(c), |e| flow.advance(e), |c| match c {
        BrowserCommand::DetectFields => BrowserEvent::Fields(vec![], vec![]),
        BrowserCommand::RunActions { .. } => BrowserEvent::ActionResults(vec![]),
        BrowserCommand::Read { .. } => BrowserEvent::Html(String::new()),
        _ => panic!("no setup on an open page"),
    });
    let r = r.unwrap();
    assert!(r.next_step.is_none());
    assert_eq!(r.page_text_after, "");
    assert_eq!(log, vec!["detect_fields", "run_actions", "read", "detect_fields"]);
}
