use mcp_web_porter::act::{assemble_results, dispatch_plan, fail, finish};
use mcp_web_porter::action::{ActionResult, PageAction};
use mcp_web_porter::action_run::{ActionTask, TaskCommand, TaskEvent, TaskStep};
use mcp_web_porter::button::{ButtonSearch, SearchCommand, SearchEvent, SearchStep};
use mcp_web_porter::error::HtmlError;
use mcp_web_porter::form::{ButtonResolvedBy, FieldValue, FormButton, FormField, FormFieldType};

fn field(name: &str, kind: FormFieldType) -> FormField {
    FormField {
        selector: format!("#{}", name),
        field_type: kind,
        name: Some(name.to_string()),
        id: None,
        label: None,
        placeholder: None,
        required: false,
        options: vec![],
    }
}

/// Runs a button search against scripted page answers.
fn search(
    button_id: Option<&str>,
    label: Option<&str>,
    mut page: impl FnMut(&SearchCommand) -> SearchEvent,
) -> (Result<(FormButton, ButtonResolvedBy), HtmlError>, Vec<String>) {
    let mut s = ButtonSearch::new(button_id.map(|x| x.to_string()), label.map(|x| x.to_string()));
    let mut log = Vec::new();
    let mut step = s.begin();
    loop {
        match step {
            SearchStep::Finished(r) => return (r, log),
            SearchStep::Run(c) => {
                log.push(format!("{:?}", c));
                let ev = page(&c);
                step = s.advance(ev);
            }
        }
    }
}

#[test]
fn test_click_by_id_error_propagates() {
    let (r, _) = search(Some("submit-btn"), None, |_| SearchEvent::IdClicked(None));
    match r {
        Err(HtmlError::ButtonNotFound(m)) => assert_eq!(m, "by id 'submit-btn'"),
        _ => panic!("expected ButtonNotFound"),
    }
}

#[test]
fn test_click_by_label_fallback_error_propagates() {
    let (r, _) = search(None, Some("Continue"), |_| SearchEvent::LabelClicked(None));
    match r {
        Err(HtmlError::ButtonNotFound(m)) => assert_eq!(m, "by label 'Continue'"),
        _ => panic!("expected ButtonNotFound"),
    }
}

#[test]
fn test_click_both_none_error_propagates() {
    let (r, log) = search(None, None, |_| panic!("no page operation expected"));
    match r {
        Err(HtmlError::ButtonNotFound(m)) => assert_eq!(m, "button_id and label are both None"),
        _ => panic!("expected ButtonNotFound"),
    }
    assert!(log.is_empty());
}

#[test]
fn search_by_id_reports_text_and_selector() {
    let (r, log) = search(Some("go"), Some("Go"), |c| match c {
        SearchCommand::ClickById { .. } => SearchEvent::IdClicked(Some("Go on".to_string())),
        SearchCommand::Wait { ms } => {
            assert_eq!(*ms, 1000);
            SearchEvent::Waited
        }
        _ => panic!("the label must not be tried"),
    });
    let (b, by) = r.unwrap();
    assert_eq!(b.label, "Go on");
    assert_eq!(b.selector, "#go");
    assert_eq!(by, ButtonResolvedBy::Id);
    assert_eq!(log.len(), 2);
}

#[test]
fn search_falls_back_to_label() {
    let (r, _) = search(Some("missing"), Some("Next"), |c| match c {
        SearchCommand::ClickById { .. } => SearchEvent::IdClicked(None),
        SearchCommand::ClickByLabel { label } => {
            assert_eq!(label, "Next");
            SearchEvent::LabelClicked(Some(FormButton { label: "Next step".into(), selector: "button".into() }))
        }
        SearchCommand::Wait { .. } => SearchEvent::Waited,
    });
    let (b, by) = r.unwrap();
    assert_eq!(b.label, "Next step");
    assert_eq!(by, ButtonResolvedBy::Label);
    let (r, _) = search(Some("missing"), Some("Next"), |c| match c {
        SearchCommand::ClickById { .. } => SearchEvent::IdClicked(None),
        _ => SearchEvent::LabelClicked(None),
    });
    match r {
        Err(HtmlError::ButtonNotFound(m)) => assert_eq!(m, "by id 'missing' or label 'Next'"),
        _ => panic!("expected ButtonNotFound"),
    }
}

/// Runs one action against scripted page answers.
fn run_task(
    action: PageAction,
    timeout_ms: u64,
    detected: &[FormField],
    mut page: impl FnMut(&TaskCommand) -> TaskEvent,
) -> (ActionResult, Vec<String>) {
    let mut t = ActionTask::new(action, timeout_ms);
    let mut log = Vec::new();
    let mut step = t.begin(detected);
    for _ in 0..1000 {
        match step {
            TaskStep::Finished(r) => return (r, log),
            TaskStep::Run(c) => {
                log.push(match &c {
                    TaskCommand::CheckReady { .. } => "check".to_string(),
                    TaskCommand::StartTimer => "timer".to_string(),
                    TaskCommand::Sleep { ms } => format!("sleep {}", ms),
                    TaskCommand::DetectFields => "detect".to_string(),
                    TaskCommand::Fill { .. } => "fill".to_string(),
                    TaskCommand::Search(_) => "search".to_string(),
                });
                let ev = page(&c);
                step = t.advance(ev);
            }
        }
    }
    panic!("the action did not finish");
}

#[test]
fn page_test_fill_field_error_propagates() {
    let detected = vec![field("email", FormFieldType::Email)];
    let action = PageAction::Fill { identifier: "email".into(), value: "x".into() };
    let (r, _) = run_task(action, 2000, &detected, |c| match c {
        TaskCommand::CheckReady { .. } => TaskEvent::Ready(true),
        TaskCommand::Fill { .. } => TaskEvent::Failed(HtmlError::FieldNotFound("email".to_string())),
        _ => panic!("unexpected command"),
    });
    assert!(!r.success);
    assert_eq!(r.error.as_deref(), Some("Field not found: email"));
}

#[test]
fn ready_field_is_filled_at_once() {
    let detected = vec![field("name", FormFieldType::Text)];
    let action = PageAction::Fill { identifier: "NAME".into(), value: "Alice".into() };
    let mut filled = None;
    let (r, log) = run_task(action, 2000, &detected, |c| match c {
        TaskCommand::CheckReady { selector } => {
            assert_eq!(selector, "#name");
            TaskEvent::Ready(true)
        }
        TaskCommand::Fill { selector, value } => {
            filled = Some((selector.clone(), value.clone()));
            TaskEvent::Filled
        }
        _ => panic!("unexpected command"),
    });
    assert!(r.success);
    assert!(r.error.is_none());
    assert_eq!(log, vec!["check", "fill"]);
    let (sel, v) = filled.unwrap();
    assert_eq!(sel, "#name");
    assert!(matches!(v, FieldValue::Text(ref s) if s == "Alice"));
}

#[test]
fn password_values_are_hidden_in_results() {
    let detected = vec![field("pw", FormFieldType::Password)];
    let action = PageAction::Fill { identifier: "pw".into(), value: "secret".into() };
    let (r, _) = run_task(action, 0, &detected, |c| match c {
        TaskCommand::CheckReady { .. } => TaskEvent::Ready(true),
        TaskCommand::Fill { value, .. } => {
            assert!(matches!(value, FieldValue::Text(s) if s == "secret"));
            TaskEvent::Filled
        }
        _ => panic!("unexpected command"),
    });
    assert!(r.success);
    match r.action {
        PageAction::Fill { identifier, value } => {
            assert_eq!(identifier, "pw");
            assert_eq!(value, "[REDACTED]");
        }
        _ => panic!("expected Fill"),
    }
}

#[test]
fn missing_field_without_wait_fails_at_once() {
    let action = PageAction::Check { identifier: "tos".into(), checked: true };
    let (r, log) = run_task(action, 0, &[], |_| panic!("no page operation expected"));
    assert!(!r.success);
    assert_eq!(r.error.as_deref(), Some("Field not found: Field not found or still disabled: tos"));
    assert!(log.is_empty());
}

#[test]
fn waiting_for_a_field_backs_off_until_the_timeout() {
    let action = PageAction::Select { identifier: "country".into(), value: "fr".into() };
    let mut elapsed = 0u64;
    let (r, log) = run_task(action, 1000, &[], |c| match c {
        TaskCommand::StartTimer => TaskEvent::TimerStarted,
        TaskCommand::Sleep { ms } => {
            elapsed += ms;
            TaskEvent::Elapsed(elapsed)
        }
        TaskCommand::DetectFields => TaskEvent::Fields(vec![]),
        _ => panic!("unexpected command"),
    });
    assert!(!r.success);
    assert_eq!(
        r.error.as_deref(),
        Some("Field not found: Field not found or still disabled after 1000ms: country")
    );
    assert_eq!(
        log,
        vec!["timer", "sleep 100", "detect", "sleep 200", "detect", "sleep 400", "detect", "sleep 500"]
    );
}

#[test]
fn field_appearing_later_is_filled() {
    let action = PageAction::Select { identifier: "country".into(), value: "fr".into() };
    let mut probes = 0;
    let (r, log) = run_task(action, 5000, &[], |c| match c {
        TaskCommand::StartTimer => TaskEvent::TimerStarted,
        TaskCommand::Sleep { .. } => TaskEvent::Elapsed(10),
        TaskCommand::DetectFields => TaskEvent::Fields(vec![field("country", FormFieldType::Select)]),
        TaskCommand::CheckReady { .. } => {
            probes += 1;
            TaskEvent::Ready(probes > 1)
        }
        TaskCommand::Fill { value, .. } => {
            assert!(matches!(value, FieldValue::Selected(s) if s == "fr"));
            TaskEvent::Filled
        }
        _ => panic!("unexpected command"),
    });
    assert!(r.success);
    assert_eq!(log, vec!["timer", "sleep 100", "detect", "check", "sleep 200", "detect", "check", "fill"]);
}

#[test]
fn detection_failure_while_waiting_ends_the_action() {
    let action = PageAction::Fill { identifier: "a".into(), value: "b".into() };
    let (r, _) = run_task(action, 500, &[], |c| match c {
        TaskCommand::StartTimer => TaskEvent::TimerStarted,
        TaskCommand::Sleep { .. } => TaskEvent::Elapsed(0),
        TaskCommand::DetectFields => TaskEvent::Failed(HtmlError::BrowserError("gone".into())),
        _ => panic!("unexpected command"),
    });
    assert!(!r.success);
    assert_eq!(r.error.as_deref(), Some("Browser error: gone"));
}

#[test]
fn click_action_runs_button_search() {
    let action = PageAction::Click { label: Some("Send".into()), id: None };
    let (r, log) = run_task(action, 2000, &[], |c| match c {
        TaskCommand::Search(SearchCommand::ClickByLabel { label }) => {
            assert_eq!(label, "Send");
            TaskEvent::Search(SearchEvent::LabelClicked(Some(FormButton { label: "Send".into(), selector: "button".into() })))
        }
        TaskCommand::Search(SearchCommand::Wait { .. }) => TaskEvent::Search(SearchEvent::Waited),
        _ => panic!("unexpected command"),
    });
    assert!(r.success);
    assert_eq!(log, vec!["search", "search"]);
    let action = PageAction::Click { label: None, id: Some("x".into()) };
    let (r, _) = run_task(action, 2000, &[], |_| TaskEvent::Search(SearchEvent::IdClicked(None)));
    assert!(!r.success);
    assert_eq!(r.error.as_deref(), Some("Button not found: 'by id 'x''"));
}

#[test]
fn results_keep_the_order_of_the_actions() {
    let actions = vec![
        PageAction::Click { label: Some("A".into()), id: None },
        PageAction::Fill { identifier: "x".into(), value: "1".into() },
        PageAction::Click { label: None, id: Some("b".into()) },
        PageAction::Check { identifier: "c".into(), checked: true },
    ];
    let plan = dispatch_plan(&actions);
    let concurrent: Vec<ActionResult> = plan.concurrent.iter().map(|&i| finish(actions[i].clone(), Ok(()))).collect();
    let sequential: Vec<ActionResult> = plan
        .sequential
        .iter()
        .map(|&i| fail(actions[i].clone(), HtmlError::ButtonNotFound(format!("{}", i))))
        .collect();
    let results = assemble_results(&actions, concurrent, sequential);
    assert_eq!(results.len(), 4);
    assert!(matches!(results[0].action, PageAction::Click { .. }) && !results[0].success);
    assert!(matches!(results[1].action, PageAction::Fill { .. }) && results[1].success);
    assert_eq!(results[2].error.as_deref(), Some("Button not found: '2'"));
    assert!(matches!(results[3].action, PageAction::Check { .. }) && results[3].success);
}

#[test]
fn pauses_stay_at_half_a_second_after_the_third() {
    let action = PageAction::Check { identifier: "tos".into(), checked: true };
    let mut elapsed = 0u64;
    let (r, log) = run_task(action, 2000, &[], |c| match c {
        TaskCommand::StartTimer => TaskEvent::TimerStarted,
        TaskCommand::Sleep { ms } => {
            elapsed += ms;
            TaskEvent::Elapsed(elapsed)
        }
        TaskCommand::DetectFields => TaskEvent::Fields(vec![]),
        _ => panic!("unexpected command"),
    });
    assert!(!r.success);
    assert_eq!(r.error.as_deref(), Some("Field not found: Field not found or still disabled after 2000ms: tos"));
    let sleeps: Vec<&str> = log.iter().map(|s| s.as_str()).filter(|s| s.starts_with("sleep")).collect();
    assert_eq!(sleeps, vec!["sleep 100", "sleep 200", "sleep 400", "sleep 500", "sleep 500", "sleep 500"]);
}
