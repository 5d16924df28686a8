//! Page actions dispatched in one call and their per-action results.
use vstd::prelude::*;
use crate::form::FormStep;

verus! {

/// One interaction with a page.
#[derive(Debug)]
pub enum PageAction {
    Fill { identifier: String, value: String },
    Select { identifier: String, value: String },
    Click { label: Option<String>, id: Option<String> },
    Check { identifier: String, checked: bool },
}

impl Clone for PageAction {
    fn clone(&self) -> (r: Self)
        ensures
            r == *self,
    {
        match self {
            PageAction::Fill { identifier, value } => PageAction::Fill {
                identifier: identifier.clone(),
                value: value.clone(),
            },
            PageAction::Select { identifier, value } => PageAction::Select {
                identifier: identifier.clone(),
                value: value.clone(),
            },
            PageAction::Click { label, id } => PageAction::Click {
                label: crate::form::clone_opt_string(label),
                id: crate::form::clone_opt_string(id),
            },
            PageAction::Check { identifier, checked } => PageAction::Check {
                identifier: identifier.clone(),
                checked: *checked,
            },
        }
    }
}

/// The outcome of one action.
#[derive(Debug)]
pub struct ActionResult {
    pub action: PageAction,
    pub success: bool,
    pub error: Option<String>,
}

/// The outcome of a batch of actions.
#[derive(Debug)]
pub struct ActResult {
    pub action_results: Vec<ActionResult>,
    pub page_text_after: String,
    pub next_step: Option<FormStep>,
}

/// Safety cap on the number of actions in one call.
pub const DEFAULT_MAX_ACTIONS: usize = 20;

/// Upper bound accepted for the per-action field timeout, in milliseconds.
pub const MAX_FIELD_TIMEOUT_MS: u64 = 30000;

} // verus!
