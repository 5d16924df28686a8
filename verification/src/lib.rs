//! Verified core of a web-automation server: URL and input validation,
//! text extraction, form-filling and page-action planning, and Chrome
//! cookie handling, with the browser protocols of the tools as state
//! machines.
use vstd::prelude::*;

pub mod text;
pub mod error;
pub mod form;
pub mod action;
pub mod html;
pub mod resource_uri;
pub mod request_options;
pub mod validate;
pub mod act;
pub mod parse;
pub mod images;
pub mod cookies;
pub mod page;
pub mod flow;
pub mod fill_flow;
pub mod button;
pub mod action_run;
pub mod tools;
pub mod session;
pub mod handlers;

verus! {
}
