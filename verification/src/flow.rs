//! The browser protocol of the form tools, as state machines.
//!
//! A flow never touches a browser itself. It hands out one
//! `BrowserCommand` at a time; the caller performs it and reports the
//! outcome as a `BrowserEvent`; the flow then names the next command or
//! finishes with the tool's result. The first failure reported ends the flow
//! with that error.
use vstd::prelude::*;
use crate::action::ActionResult;
use crate::error::HtmlError;
use crate::form::{ButtonResolvedBy, FieldValue, FormButton, FormField};
use crate::request_options::RequestOptions;

verus! {

/// One browser operation.
#[derive(Debug)]
#[allow(inconsistent_fields)]
pub enum BrowserCommand {
    /// Launch the browser.
    Start,
    /// Set the request's cookies.
    SetCookies,
    /// Set the request's extra headers.
    SetExtraHeaders,
    /// Open the page.
    Open,
    /// Wait this long, then read the page's HTML.
    Read { wait_ms: u64 },
    /// Detect the page's form fields and buttons.
    DetectFields,
    /// Read the current value of a control.
    ReadFieldValue { selector: String },
    /// Put a value into a control.
    FillField { selector: String, value: FieldValue },
    /// Submit the page's form.
    SubmitForm,
    /// Click the first button whose text contains the label.
    ClickButton { label: String },
    /// Click a button by id, falling back to its label.
    ClickButtonByIdOrLabel { button_id: Option<String>, label: Option<String> },
    /// List the page's image URLs.
    GetImageUrls,
    /// Run a batch of actions against the detected fields.
    RunActions { fields: Vec<FormField> },
}

/// The outcome of a browser operation.
#[derive(Debug)]
pub enum BrowserEvent {
    Done,
    Html(String),
    Fields(Vec<FormField>, Vec<FormButton>),
    FieldValue(Option<String>),
    Clicked(FormButton, ButtonResolvedBy),
    ImageUrls(Vec<String>),
    ActionResults(Vec<ActionResult>),
    Failed(HtmlError),
}

/// What a flow asks for next.
#[derive(Debug)]
pub enum FlowStep<T> {
    Run(BrowserCommand),
    Finished(Result<T, HtmlError>),
}

/// The error a flow ends with when an outcome does not fit the command.
pub open spec fn is_protocol_error(e: HtmlError) -> bool {
    e matches HtmlError::BrowserError(m) && m@ == "unexpected browser event"@
}

/// The error for an outcome that does not fit the awaited command.
pub fn protocol_error() -> (e: HtmlError)
    ensures
        is_protocol_error(e),
{
    HtmlError::BrowserError("unexpected browser event".to_owned())
}

/// Where page setup stands: the command awaiting its outcome.
#[derive(Debug, Clone, Copy, PartialEq, Eq, Structural)]
pub enum SetupStage {
    Idle,
    Start,
    Cookies,
    Headers,
    Open,
    Read,
    Ready,
}

/// The command issued at a setup stage.
pub open spec fn setup_command(stage: SetupStage, wait_ms: u64) -> BrowserCommand {
    match stage {
        SetupStage::Cookies => BrowserCommand::SetCookies,
        SetupStage::Headers => BrowserCommand::SetExtraHeaders,
        SetupStage::Open => BrowserCommand::Open,
        SetupStage::Read => BrowserCommand::Read { wait_ms },
        _ => BrowserCommand::Start,
    }
}

/// The setup stage after a command completed: cookies (when there are
/// any), then headers (when there are any), then opening, then reading.
pub open spec fn setup_after(stage: SetupStage, cookies: bool, headers: bool) -> SetupStage {
    match stage {
        SetupStage::Start => if cookies {
            SetupStage::Cookies
        } else if headers {
            SetupStage::Headers
        } else {
            SetupStage::Open
        },
        SetupStage::Cookies => if headers {
            SetupStage::Headers
        } else {
            SetupStage::Open
        },
        SetupStage::Headers => SetupStage::Open,
        SetupStage::Open => SetupStage::Read,
        _ => SetupStage::Ready,
    }
}

/// The position of a setup stage in the order of operations.
pub open spec fn setup_rank(stage: SetupStage) -> int {
    match stage {
        SetupStage::Idle => 0,
        SetupStage::Start => 1,
        SetupStage::Cookies => 2,
        SetupStage::Headers => 3,
        SetupStage::Open => 4,
        SetupStage::Read => 5,
        SetupStage::Ready => 6,
    }
}

/// Request options are applied in order, before the page is opened: the
/// browser starts first, cookies are set before headers, each only when
/// given, and the page is read only once it is open.
pub proof fn law_setup_order(stage: SetupStage, cookies: bool, headers: bool)
    requires
        stage != SetupStage::Idle && stage != SetupStage::Ready,
    ensures
        setup_rank(setup_after(stage, cookies, headers)) > setup_rank(stage),
        setup_after(stage, cookies, headers) == SetupStage::Cookies ==> cookies,
        setup_after(stage, cookies, headers) == SetupStage::Headers ==> headers,
        stage == SetupStage::Start && cookies ==> setup_after(stage, cookies, headers) == SetupStage::Cookies,
        (stage == SetupStage::Start || stage == SetupStage::Cookies) && headers ==> setup_rank(
            setup_after(stage, cookies, headers),
        ) <= setup_rank(SetupStage::Headers),
        setup_rank(setup_after(stage, cookies, headers)) <= setup_rank(SetupStage::Open) || stage
            == SetupStage::Open || stage == SetupStage::Read,
{
}

/// The outcome completes a setup command before the page is read.
pub open spec fn setup_continues(s: Setup, event: BrowserEvent) -> bool {
    event is Done && 1 <= setup_rank(s.stage) <= 4
}

/// The outcome is the page read at the end of setup.
pub open spec fn setup_completes(s: Setup, event: BrowserEvent) -> bool {
    event is Html && s.stage == SetupStage::Read
}

/// The setup command that follows the awaited one.
pub open spec fn setup_next(s: Setup) -> BrowserCommand {
    setup_command(setup_after(s.stage, s.cookies, s.headers), s.wait_ms)
}

/// Setup began: the browser is starting, with the options unchanged.
pub open spec fn setup_started(old: Setup, new: Setup) -> bool {
    &&& new.cookies == old.cookies && new.headers == old.headers && new.wait_ms == old.wait_ms
    &&& new.stage == SetupStage::Start
}

/// Setup moved on by the outcome `event`, with the options unchanged.
pub open spec fn setup_moved(old: Setup, new: Setup, event: BrowserEvent) -> bool {
    &&& new.cookies == old.cookies && new.headers == old.headers && new.wait_ms == old.wait_ms
    &&& setup_continues(old, event) ==> new.stage == setup_after(old.stage, old.cookies, old.headers)
}

/// Setup is under way, awaiting the outcome of a command.
pub open spec fn setup_running(s: Setup) -> bool {
    1 <= setup_rank(s.stage) <= 5
}

/// Which request options there are to apply: cookies, then headers.
pub fn option_flags(options: Option<&RequestOptions>) -> (r: (bool, bool))
    ensures
        r.0 == (options matches Some(o) && o.cookies is Some),
        r.1 == (options matches Some(o) && o.headers is Some),
{
    match options {
        Some(o) => (o.cookies.is_some(), o.headers.is_some()),
        None => (false, false),
    }
}

/// Page setup: start the browser, apply the request options, open the page
/// and read it after a wait.
#[derive(Debug)]
pub struct Setup {
    pub cookies: bool,
    pub headers: bool,
    pub wait_ms: u64,
    pub stage: SetupStage,
}

/// What page setup asks for next.
pub enum SetupStep {
    Run(BrowserCommand),
    Ready(String),
    Failed(HtmlError),
}

impl Setup {
    /// Setup that has not begun.
    pub fn new(cookies: bool, headers: bool, wait_ms: u64) -> (r: Self)
        ensures
            r.cookies == cookies,
            r.headers == headers,
            r.wait_ms == wait_ms,
            r.stage == SetupStage::Idle,
    {
        Setup { cookies, headers, wait_ms, stage: SetupStage::Idle }
    }

    /// The first command: start the browser.
    pub fn begin(&mut self) -> (c: BrowserCommand)
        ensures
            c == BrowserCommand::Start,
            final(self).stage == SetupStage::Start,
            final(self).cookies == old(self).cookies,
            final(self).headers == old(self).headers,
            final(self).wait_ms == old(self).wait_ms,
    {
        self.stage = SetupStage::Start;
        BrowserCommand::Start
    }

    /// The step after the outcome of the awaited command.
    pub fn advance(&mut self, event: BrowserEvent) -> (r: SetupStep)
        ensures
            final(self).cookies == old(self).cookies,
            final(self).headers == old(self).headers,
            final(self).wait_ms == old(self).wait_ms,
            event matches BrowserEvent::Failed(e) ==> r == SetupStep::Failed(e),
            (event is Done && setup_rank(old(self).stage) >= 1 && setup_rank(old(self).stage) <= 4) ==> (
            final(self).stage == setup_after(old(self).stage, old(self).cookies, old(self).headers)
                && r == SetupStep::Run(setup_command(final(self).stage, old(self).wait_ms))),
            (event is Html && old(self).stage == SetupStage::Read) ==> (r == SetupStep::Ready(
                event->Html_0,
            ) && final(self).stage == SetupStage::Ready),
            !(event is Failed) && !(event is Done && setup_rank(old(self).stage) >= 1 && setup_rank(
                old(self).stage,
            ) <= 4) && !(event is Html && old(self).stage == SetupStage::Read) ==> (r matches SetupStep::Failed(e)
                && is_protocol_error(e)),
    {
        match event {
            BrowserEvent::Failed(e) => SetupStep::Failed(e),
            BrowserEvent::Done => {
                let next = match self.stage {
                    SetupStage::Start => if self.cookies {
                        SetupStage::Cookies
                    } else if self.headers {
                        SetupStage::Headers
                    } else {
                        SetupStage::Open
                    },
                    SetupStage::Cookies => if self.headers {
                        SetupStage::Headers
                    } else {
                        SetupStage::Open
                    },
                    SetupStage::Headers => SetupStage::Open,
                    SetupStage::Open => SetupStage::Read,
                    _ => return SetupStep::Failed(protocol_error()),
                };
                self.stage = next;
                let cmd = match next {
                    SetupStage::Cookies => BrowserCommand::SetCookies,
                    SetupStage::Headers => BrowserCommand::SetExtraHeaders,
                    SetupStage::Open => BrowserCommand::Open,
                    _ => BrowserCommand::Read { wait_ms: self.wait_ms },
                };
                SetupStep::Run(cmd)
            },
            BrowserEvent::Html(h) => {
                if self.stage == SetupStage::Read {
                    self.stage = SetupStage::Ready;
                    SetupStep::Ready(h)
                } else {
                    SetupStep::Failed(protocol_error())
                }
            },
            _ => SetupStep::Failed(protocol_error()),
        }
    }
}

} // verus!
