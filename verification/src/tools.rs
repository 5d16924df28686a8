//! The browser protocol of the reading, detecting, clicking and acting tools.
use vstd::prelude::*;
use crate::action::{ActResult, ActionResult};
use crate::error::HtmlError;
use crate::fill_flow::{AFTER_SUBMIT_WAIT_MS, FILL_PAGE_WAIT_MS};
use crate::flow::{
    is_protocol_error, protocol_error, setup_completes, setup_continues, setup_moved, setup_next, setup_running, setup_started,
    BrowserCommand, BrowserEvent, FlowStep, Setup, SetupStep,
};
use crate::form::{clone_opt_string, ButtonResolvedBy, ClickButtonResult, FormButton, FormField, FormStep};
use crate::parse::{extract_text, is_page_text};

verus! {

/// Where a tool's protocol stands: the command whose outcome is awaited.
#[derive(Debug, Clone, Copy, PartialEq, Eq, Structural)]
pub enum ToolStage {
    Idle,
    Setup,
    Images,
    Detect,
    Click,
    ReadAfterClick,
    RunActions,
    ReadAfterActions,
    DetectAfter,
    Done,
}

/// How far a tool's protocol has come: each command it issues moves this
/// forward, and it never exceeds 10, so the tool ends after a bounded number
/// of browser operations.
pub open spec fn tool_progress(stage: ToolStage, setup: Setup) -> int {
    match stage {
        ToolStage::Idle => 0,
        ToolStage::Setup => crate::flow::setup_rank(setup.stage),
        ToolStage::Images | ToolStage::Detect | ToolStage::Click => 6,
        ToolStage::RunActions | ToolStage::ReadAfterClick => 7,
        ToolStage::ReadAfterActions => 8,
        ToolStage::DetectAfter => 9,
        ToolStage::Done => 10,
    }
}

/// The next step while setup runs: the next setup command, or the failure.
pub open spec fn setup_phase(s: Setup, event: BrowserEvent, r_is_next: bool, r_is_protocol_error: bool) -> bool {
    &&& setup_continues(s, event) ==> r_is_next
    &&& !(event is Failed) && !setup_continues(s, event) && !setup_completes(s, event) ==> r_is_protocol_error
}

/// The step for an outcome that does not fit the awaited command.
pub open spec fn protocol_failure<T>(r: FlowStep<T>) -> bool {
    r matches FlowStep::Finished(Err(e)) && is_protocol_error(e)
}

/// Reading a page: set it up, read it after `wait_ms`, and, when asked, list
/// its image URLs.
pub struct FetchFlow {
    pub setup: Setup,
    pub images: bool,
    pub stage: ToolStage,
    pub html: String,
}

impl FetchFlow {
    /// The bookkeeping agrees with the stage.
    pub open spec fn wf(&self) -> bool {
        &&& self.stage == ToolStage::Setup ==> setup_running(self.setup)
        &&& self.stage == ToolStage::Images ==> self.images
        &&& self.stage == ToolStage::Idle || self.stage == ToolStage::Setup || self.stage == ToolStage::Images
            || self.stage == ToolStage::Done
    }

    /// A read that has not begun.
    pub fn new(wait_ms: u64, images: bool, cookies: bool, headers: bool) -> (r: Self)
        ensures
            r.wf(),
            r.stage == ToolStage::Idle,
            r.images == images,
            r.setup.wait_ms == wait_ms,
            r.setup.cookies == cookies,
            r.setup.headers == headers,
    {
        FetchFlow { setup: Setup::new(cookies, headers, wait_ms), images, stage: ToolStage::Idle, html: String::new() }
    }

    /// The first command: start the browser.
    pub fn begin(&mut self) -> (c: BrowserCommand)
        requires
            old(self).wf(),
            old(self).stage == ToolStage::Idle,
        ensures
            final(self).wf(),
            final(self).images == old(self).images,
            final(self).stage == ToolStage::Setup,
            setup_started(old(self).setup, final(self).setup),
            c == BrowserCommand::Start,
    {
        self.stage = ToolStage::Setup;
        self.setup.begin()
    }

    /// The step after the outcome of the awaited command. The page's HTML is
    /// the result, with the page's image URLs when they were asked for and
    /// none otherwise.
    pub fn advance(&mut self, event: BrowserEvent) -> (r: FlowStep<(String, Vec<String>)>)
        requires
            old(self).wf(),
        ensures
            final(self).wf(),
            r is Run ==> tool_progress(final(self).stage, final(self).setup) > tool_progress(old(self).stage, old(self).setup),
            0 <= tool_progress(final(self).stage, final(self).setup) <= 10,
            final(self).images == old(self).images,
            event matches BrowserEvent::Failed(e) ==> r == FlowStep::<(String, Vec<String>)>::Finished(Err(e)),
            old(self).stage == ToolStage::Setup ==> {
                &&& setup_moved(old(self).setup, final(self).setup, event)
                &&& setup_continues(old(self).setup, event) ==> final(self).stage == ToolStage::Setup
                &&& setup_phase(
                    old(self).setup,
                    event,
                    r == FlowStep::<(String, Vec<String>)>::Run(setup_next(old(self).setup)),
                    protocol_failure(r),
                )
                &&& setup_completes(old(self).setup, event) ==> if old(self).images {
                    r == FlowStep::<(String, Vec<String>)>::Run(BrowserCommand::GetImageUrls)
                        && final(self).html == event->Html_0 && final(self).stage == ToolStage::Images
                } else {
                    r matches FlowStep::Finished(Ok((h, urls))) && h == event->Html_0 && urls@.len() == 0
                }
            },
            old(self).stage == ToolStage::Images ==> match event {
                BrowserEvent::ImageUrls(urls) => r == FlowStep::<(String, Vec<String>)>::Finished(
                    Ok((old(self).html, urls)),
                ),
                BrowserEvent::Failed(_) => true,
                _ => protocol_failure(r),
            },
            (old(self).stage == ToolStage::Idle || old(self).stage == ToolStage::Done) && !(event is Failed)
                ==> protocol_failure(r),
    {
        if let BrowserEvent::Failed(e) = event {
            self.stage = ToolStage::Done;
            return FlowStep::Finished(Err(e));
        }
        let stage = self.stage;
        if stage == ToolStage::Setup {
            proof {
                if crate::flow::setup_rank(self.setup.stage) <= 4 {
                    crate::flow::law_setup_order(self.setup.stage, self.setup.cookies, self.setup.headers);
                }
            }
            return match self.setup.advance(event) {
                SetupStep::Run(c) => FlowStep::Run(c),
                SetupStep::Ready(h) => {
                    if self.images {
                        self.html = h;
                        self.stage = ToolStage::Images;
                        FlowStep::Run(BrowserCommand::GetImageUrls)
                    } else {
                        self.stage = ToolStage::Done;
                        FlowStep::Finished(Ok((h, Vec::new())))
                    }
                },
                SetupStep::Failed(e) => {
                    self.stage = ToolStage::Done;
                    FlowStep::Finished(Err(e))
                },
            };
        }
        if stage == ToolStage::Images {
            if let BrowserEvent::ImageUrls(urls) = event {
                self.stage = ToolStage::Done;
                let mut html = String::new();
                std::mem::swap(&mut html, &mut self.html);
                return FlowStep::Finished(Ok((html, urls)));
            }
        }
        self.stage = ToolStage::Done;
        FlowStep::Finished(Err(protocol_error()))
    }
}

/// Detecting a page's form: set the page up, read it after 1.5 s, then
/// report its fields and buttons.
pub struct DetectFlow {
    pub setup: Setup,
    pub stage: ToolStage,
}

impl DetectFlow {
    /// The bookkeeping agrees with the stage.
    pub open spec fn wf(&self) -> bool {
        &&& self.stage == ToolStage::Setup ==> setup_running(self.setup)
        &&& self.setup.wait_ms == FILL_PAGE_WAIT_MS
    }

    /// A detection that has not begun.
    pub fn new(cookies: bool, headers: bool) -> (r: Self)
        ensures
            r.wf(),
            r.stage == ToolStage::Idle,
            r.setup.cookies == cookies,
            r.setup.headers == headers,
    {
        DetectFlow { setup: Setup::new(cookies, headers, FILL_PAGE_WAIT_MS), stage: ToolStage::Idle }
    }

    /// The first command: start the browser.
    pub fn begin(&mut self) -> (c: BrowserCommand)
        requires
            old(self).wf(),
            old(self).stage == ToolStage::Idle,
        ensures
            final(self).wf(),
            final(self).stage == ToolStage::Setup,
            setup_started(old(self).setup, final(self).setup),
            c == BrowserCommand::Start,
    {
        self.stage = ToolStage::Setup;
        self.setup.begin()
    }

    /// The step after the outcome of the awaited command: once the page is
    /// read its fields are detected, and they are the result.
    pub fn advance(&mut self, event: BrowserEvent) -> (r: FlowStep<FormStep>)
        requires
            old(self).wf(),
        ensures
            final(self).wf(),
            r is Run ==> tool_progress(final(self).stage, final(self).setup) > tool_progress(old(self).stage, old(self).setup),
            0 <= tool_progress(final(self).stage, final(self).setup) <= 10,
            event matches BrowserEvent::Failed(e) ==> r == FlowStep::<FormStep>::Finished(Err(e)),
            old(self).stage == ToolStage::Setup ==> {
                &&& setup_moved(old(self).setup, final(self).setup, event)
                &&& setup_continues(old(self).setup, event) ==> final(self).stage == ToolStage::Setup
                &&& setup_phase(
                    old(self).setup,
                    event,
                    r == FlowStep::<FormStep>::Run(setup_next(old(self).setup)),
                    protocol_failure(r),
                )
                &&& setup_completes(old(self).setup, event) ==> r == FlowStep::<FormStep>::Run(
                    BrowserCommand::DetectFields,
                ) && final(self).stage == ToolStage::Detect
            },
            old(self).stage == ToolStage::Detect ==> match event {
                BrowserEvent::Fields(fields, buttons) => r == FlowStep::<FormStep>::Finished(
                    Ok(FormStep { fields, buttons }),
                ),
                BrowserEvent::Failed(_) => true,
                _ => protocol_failure(r),
            },
            old(self).stage != ToolStage::Setup && old(self).stage != ToolStage::Detect && !(event is Failed)
                ==> protocol_failure(r),
    {
        if let BrowserEvent::Failed(e) = event {
            self.stage = ToolStage::Done;
            return FlowStep::Finished(Err(e));
        }
        let stage = self.stage;
        if stage == ToolStage::Setup {
            proof {
                if crate::flow::setup_rank(self.setup.stage) <= 4 {
                    crate::flow::law_setup_order(self.setup.stage, self.setup.cookies, self.setup.headers);
                }
            }
            return match self.setup.advance(event) {
                SetupStep::Run(c) => FlowStep::Run(c),
                SetupStep::Ready(_) => {
                    self.stage = ToolStage::Detect;
                    FlowStep::Run(BrowserCommand::DetectFields)
                },
                SetupStep::Failed(e) => {
                    self.stage = ToolStage::Done;
                    FlowStep::Finished(Err(e))
                },
            };
        }
        if stage == ToolStage::Detect {
            if let BrowserEvent::Fields(fields, buttons) = event {
                self.stage = ToolStage::Done;
                return FlowStep::Finished(Ok(FormStep { fields, buttons }));
            }
        }
        self.stage = ToolStage::Done;
        FlowStep::Finished(Err(protocol_error()))
    }
}

/// The fields found after an operation, as the next step of a multi-page
/// form: none when the page has no fields.
pub open spec fn next_step_of(fields: Vec<FormField>, buttons: Vec<FormButton>, step: Option<FormStep>) -> bool {
    if fields@.len() == 0 {
        step is None
    } else {
        step == Some(FormStep { fields, buttons })
    }
}

/// The next step reported after an operation is the page as detected: no
/// step when no fields were found, else a step holding exactly the detected
/// fields and exactly the detected buttons, in their order.
pub proof fn law_next_step_is_detected_page(fields: Vec<FormField>, buttons: Vec<FormButton>, step: Option<FormStep>)
    requires
        next_step_of(fields, buttons, step),
    ensures
        fields@.len() == 0 <==> step is None,
        step matches Some(s) ==> s.fields@ == fields@ && s.buttons@ == buttons@ && s.fields@.len() > 0,
{
}

fn next_step(fields: Vec<FormField>, buttons: Vec<FormButton>) -> (r: Option<FormStep>)
    ensures
        next_step_of(fields, buttons, r),
{
    if fields.len() == 0 {
        None
    } else {
        Some(FormStep { fields, buttons })
    }
}

/// The error when a click names neither a button id nor a label.
pub open spec fn nothing_to_click(e: HtmlError) -> bool {
    e matches HtmlError::ButtonNotFound(m) && m@ == "button_id and label are both None"@
}

/// Clicking a button: set the page up, click the button by id or label,
/// read the page after 1 s, and report its text and its next form step.
pub struct ClickFlow {
    pub setup: Setup,
    pub button_id: Option<String>,
    pub label: Option<String>,
    pub stage: ToolStage,
    pub clicked: Option<(FormButton, ButtonResolvedBy)>,
    pub text: String,
}

impl ClickFlow {
    /// The bookkeeping agrees with the stage.
    pub open spec fn wf(&self) -> bool {
        &&& self.stage == ToolStage::Setup ==> setup_running(self.setup)
        &&& self.setup.wait_ms == FILL_PAGE_WAIT_MS
        &&& (self.stage == ToolStage::ReadAfterClick || self.stage == ToolStage::DetectAfter) ==> self.clicked is Some
    }

    /// A click that has not begun.
    pub fn new(button_id: Option<String>, label: Option<String>, cookies: bool, headers: bool) -> (r: Self)
        ensures
            r.wf(),
            r.stage == ToolStage::Idle,
            r.button_id == button_id,
            r.label == label,
            r.setup.cookies == cookies,
            r.setup.headers == headers,
    {
        ClickFlow {
            setup: Setup::new(cookies, headers, FILL_PAGE_WAIT_MS),
            button_id,
            label,
            stage: ToolStage::Idle,
            clicked: None,
            text: String::new(),
        }
    }

    /// The first step: without a button id and a label the click fails
    /// before any browser is started; otherwise the browser starts.
    pub fn begin(&mut self) -> (r: FlowStep<ClickButtonResult>)
        requires
            old(self).wf(),
            old(self).stage == ToolStage::Idle,
        ensures
            final(self).wf(),
            final(self).button_id == old(self).button_id,
            final(self).label == old(self).label,
            final(self).setup.cookies == old(self).setup.cookies,
            final(self).setup.headers == old(self).setup.headers,
            old(self).button_id is None && old(self).label is None ==> (r matches FlowStep::Finished(Err(e))
                && nothing_to_click(e) && final(self).stage == ToolStage::Done),
            !(old(self).button_id is None && old(self).label is None) ==> (r
                == FlowStep::<ClickButtonResult>::Run(BrowserCommand::Start) && final(self).stage
                == ToolStage::Setup && setup_started(old(self).setup, final(self).setup)),
    {
        if self.button_id.is_none() && self.label.is_none() {
            self.stage = ToolStage::Done;
            return FlowStep::Finished(Err(HtmlError::ButtonNotFound("button_id and label are both None".to_owned())));
        }
        self.stage = ToolStage::Setup;
        FlowStep::Run(self.setup.begin())
    }

    /// The step after the outcome of the awaited command: the click follows
    /// setup; after the click the page is read, its text kept, its fields
    /// detected, and the result reports the clicked button, how it was
    /// found, the text and the next step.
    pub fn advance(&mut self, event: BrowserEvent) -> (r: FlowStep<ClickButtonResult>)
        requires
            old(self).wf(),
        ensures
            final(self).wf(),
            r is Run ==> tool_progress(final(self).stage, final(self).setup) > tool_progress(old(self).stage, old(self).setup),
            0 <= tool_progress(final(self).stage, final(self).setup) <= 10,
            final(self).button_id == old(self).button_id,
            final(self).label == old(self).label,
            event matches BrowserEvent::Failed(e) ==> r == FlowStep::<ClickButtonResult>::Finished(Err(e)),
            old(self).stage == ToolStage::Setup ==> {
                &&& setup_moved(old(self).setup, final(self).setup, event)
                &&& setup_continues(old(self).setup, event) ==> final(self).stage == ToolStage::Setup
                &&& setup_phase(
                    old(self).setup,
                    event,
                    r == FlowStep::<ClickButtonResult>::Run(setup_next(old(self).setup)),
                    protocol_failure(r),
                )
                &&& setup_completes(old(self).setup, event) ==> r == FlowStep::<ClickButtonResult>::Run(
                    BrowserCommand::ClickButtonByIdOrLabel { button_id: old(self).button_id, label: old(self).label },
                ) && final(self).stage == ToolStage::Click
            },
            old(self).stage == ToolStage::Click ==> match event {
                BrowserEvent::Clicked(b, by) => r == FlowStep::<ClickButtonResult>::Run(
                    BrowserCommand::Read { wait_ms: AFTER_SUBMIT_WAIT_MS },
                ) && final(self).clicked == Some((b, by)) && final(self).stage == ToolStage::ReadAfterClick,
                BrowserEvent::Failed(_) => true,
                _ => protocol_failure(r),
            },
            old(self).stage == ToolStage::ReadAfterClick ==> match event {
                BrowserEvent::Html(h) => r == FlowStep::<ClickButtonResult>::Run(BrowserCommand::DetectFields)
                    && is_page_text(h@, final(self).text@) && final(self).clicked == old(self).clicked
                    && final(self).stage == ToolStage::DetectAfter,
                BrowserEvent::Failed(_) => true,
                _ => protocol_failure(r),
            },
            old(self).stage == ToolStage::DetectAfter ==> match event {
                BrowserEvent::Fields(fields, buttons) => r matches FlowStep::Finished(Ok(res)) && Some((
                    res.clicked_button,
                    res.resolved_by,
                )) == old(self).clicked && res.page_text_after == old(self).text && next_step_of(
                    fields,
                    buttons,
                    res.next_step,
                ),
                BrowserEvent::Failed(_) => true,
                _ => protocol_failure(r),
            },
            (old(self).stage == ToolStage::Idle || old(self).stage == ToolStage::Done) && !(event is Failed)
                ==> protocol_failure(r),
    {
        if let BrowserEvent::Failed(e) = event {
            self.stage = ToolStage::Done;
            return FlowStep::Finished(Err(e));
        }
        let stage = self.stage;
        if stage == ToolStage::Setup {
            proof {
                if crate::flow::setup_rank(self.setup.stage) <= 4 {
                    crate::flow::law_setup_order(self.setup.stage, self.setup.cookies, self.setup.headers);
                }
            }
            return match self.setup.advance(event) {
                SetupStep::Run(c) => FlowStep::Run(c),
                SetupStep::Ready(_) => {
                    self.stage = ToolStage::Click;
                    FlowStep::Run(
                        BrowserCommand::ClickButtonByIdOrLabel {
                            button_id: clone_opt_string(&self.button_id),
                            label: clone_opt_string(&self.label),
                        },
                    )
                },
                SetupStep::Failed(e) => {
                    self.stage = ToolStage::Done;
                    FlowStep::Finished(Err(e))
                },
            };
        }
        if stage == ToolStage::Click {
            if let BrowserEvent::Clicked(b, by) = event {
                self.clicked = Some((b, by));
                self.stage = ToolStage::ReadAfterClick;
                return FlowStep::Run(BrowserCommand::Read { wait_ms: AFTER_SUBMIT_WAIT_MS });
            }
        }
        if stage == ToolStage::ReadAfterClick {
            if let BrowserEvent::Html(h) = event {
                self.text = extract_text(h.as_str());
                self.stage = ToolStage::DetectAfter;
                return FlowStep::Run(BrowserCommand::DetectFields);
            }
        }
        if stage == ToolStage::DetectAfter {
            if let BrowserEvent::Fields(fields, buttons) = event {
                self.stage = ToolStage::Done;
                let mut clicked = None;
                std::mem::swap(&mut clicked, &mut self.clicked);
                let mut text = String::new();
                std::mem::swap(&mut text, &mut self.text);
                return match clicked {
                    Some((clicked_button, resolved_by)) => FlowStep::Finished(
                        Ok(
                            ClickButtonResult {
                                clicked_button,
                                resolved_by,
                                page_text_after: text,
                                next_step: next_step(fields, buttons),
                            },
                        ),
                    ),
                    None => FlowStep::Finished(Err(protocol_error())),
                };
            }
        }
        self.stage = ToolStage::Done;
        FlowStep::Finished(Err(protocol_error()))
    }
}

/// Running a batch of actions on a page: detect its fields, run the actions
/// against them, read the page after 1.5 s, and report the actions' results,
/// the page's text and its next form step. A flow made with `new` first
/// sets the page up itself; one made with `on_open_page` starts on a page
/// that is already open.
pub struct ActFlow {
    pub setup: Setup,
    pub stage: ToolStage,
    pub results: Vec<ActionResult>,
    pub text: String,
}

/// The wait before a page is read, both on opening and after the actions.
pub const ACT_SETTLE_MS: u64 = 1500;

impl ActFlow {
    /// The bookkeeping agrees with the stage.
    pub open spec fn wf(&self) -> bool {
        &&& self.stage == ToolStage::Setup ==> setup_running(self.setup)
        &&& self.setup.wait_ms == ACT_SETTLE_MS
    }

    /// A batch that sets up its own page and has not begun.
    pub fn new(cookies: bool, headers: bool) -> (r: Self)
        ensures
            r.wf(),
            r.stage == ToolStage::Idle,
            r.setup.cookies == cookies,
            r.setup.headers == headers,
    {
        ActFlow { setup: Setup::new(cookies, headers, ACT_SETTLE_MS), stage: ToolStage::Idle, results: Vec::new(), text: String::new() }
    }

    /// The first command: start the browser.
    pub fn begin(&mut self) -> (c: BrowserCommand)
        requires
            old(self).wf(),
            old(self).stage == ToolStage::Idle,
        ensures
            final(self).wf(),
            final(self).stage == ToolStage::Setup,
            setup_started(old(self).setup, final(self).setup),
            c == BrowserCommand::Start,
    {
        self.stage = ToolStage::Setup;
        self.setup.begin()
    }

    /// A batch on a page that is already open, with its first command: detect
    /// the page's fields.
    pub fn on_open_page() -> (r: (Self, BrowserCommand))
        ensures
            r.0.wf(),
            r.0.stage == ToolStage::Detect,
            r.1 == BrowserCommand::DetectFields,
    {
        (
            ActFlow {
                setup: Setup::new(false, false, ACT_SETTLE_MS),
                stage: ToolStage::Detect,
                results: Vec::new(),
                text: String::new(),
            },
            BrowserCommand::DetectFields,
        )
    }

    /// The step after the outcome of the awaited command: the detected fields
    /// are handed to the actions; their results are kept; the page is read
    /// after 1.5 s, its text kept and its fields detected; the result reports
    /// the actions' results, the text and the next step.
    pub fn advance(&mut self, event: BrowserEvent) -> (r: FlowStep<ActResult>)
        requires
            old(self).wf(),
        ensures
            final(self).wf(),
            r is Run ==> tool_progress(final(self).stage, final(self).setup) > tool_progress(old(self).stage, old(self).setup),
            0 <= tool_progress(final(self).stage, final(self).setup) <= 10,
            event matches BrowserEvent::Failed(e) ==> r == FlowStep::<ActResult>::Finished(Err(e)),
            old(self).stage == ToolStage::Setup ==> {
                &&& setup_moved(old(self).setup, final(self).setup, event)
                &&& setup_continues(old(self).setup, event) ==> final(self).stage == ToolStage::Setup
                &&& setup_phase(
                    old(self).setup,
                    event,
                    r == FlowStep::<ActResult>::Run(setup_next(old(self).setup)),
                    protocol_failure(r),
                )
                &&& setup_completes(old(self).setup, event) ==> r == FlowStep::<ActResult>::Run(
                    BrowserCommand::DetectFields,
                ) && final(self).stage == ToolStage::Detect
            },
            old(self).stage == ToolStage::Detect ==> match event {
                BrowserEvent::Fields(fields, _) => r == FlowStep::<ActResult>::Run(
                    BrowserCommand::RunActions { fields },
                ) && final(self).stage == ToolStage::RunActions,
                BrowserEvent::Failed(_) => true,
                _ => protocol_failure(r),
            },
            old(self).stage == ToolStage::RunActions ==> match event {
                BrowserEvent::ActionResults(results) => r == FlowStep::<ActResult>::Run(
                    BrowserCommand::Read { wait_ms: ACT_SETTLE_MS },
                ) && final(self).results == results && final(self).stage == ToolStage::ReadAfterActions,
                BrowserEvent::Failed(_) => true,
                _ => protocol_failure(r),
            },
            old(self).stage == ToolStage::ReadAfterActions ==> match event {
                BrowserEvent::Html(h) => r == FlowStep::<ActResult>::Run(BrowserCommand::DetectFields)
                    && is_page_text(h@, final(self).text@) && final(self).results == old(self).results
                    && final(self).stage == ToolStage::DetectAfter,
                BrowserEvent::Failed(_) => true,
                _ => protocol_failure(r),
            },
            old(self).stage == ToolStage::DetectAfter ==> match event {
                BrowserEvent::Fields(fields, buttons) => r matches FlowStep::Finished(Ok(res))
                    && res.action_results == old(self).results && res.page_text_after == old(self).text
                    && next_step_of(fields, buttons, res.next_step),
                BrowserEvent::Failed(_) => true,
                _ => protocol_failure(r),
            },
            (old(self).stage == ToolStage::Idle || old(self).stage == ToolStage::Done || old(self).stage
                == ToolStage::Images || old(self).stage == ToolStage::Click || old(self).stage
                == ToolStage::ReadAfterClick) && !(event is Failed) ==> protocol_failure(r),
    {
        if let BrowserEvent::Failed(e) = event {
            self.stage = ToolStage::Done;
            return FlowStep::Finished(Err(e));
        }
        let stage = self.stage;
        if stage == ToolStage::Setup {
            proof {
                if crate::flow::setup_rank(self.setup.stage) <= 4 {
                    crate::flow::law_setup_order(self.setup.stage, self.setup.cookies, self.setup.headers);
                }
            }
            return match self.setup.advance(event) {
                SetupStep::Run(c) => FlowStep::Run(c),
                SetupStep::Ready(_) => {
                    self.stage = ToolStage::Detect;
                    FlowStep::Run(BrowserCommand::DetectFields)
                },
                SetupStep::Failed(e) => {
                    self.stage = ToolStage::Done;
                    FlowStep::Finished(Err(e))
                },
            };
        }
        if stage == ToolStage::Detect {
            if let BrowserEvent::Fields(fields, _) = event {
                self.stage = ToolStage::RunActions;
                return FlowStep::Run(BrowserCommand::RunActions { fields });
            }
        }
        if stage == ToolStage::RunActions {
            if let BrowserEvent::ActionResults(results) = event {
                self.results = results;
                self.stage = ToolStage::ReadAfterActions;
                return FlowStep::Run(BrowserCommand::Read { wait_ms: ACT_SETTLE_MS });
            }
        }
        if stage == ToolStage::ReadAfterActions {
            if let BrowserEvent::Html(h) = event {
                self.text = extract_text(h.as_str());
                self.stage = ToolStage::DetectAfter;
                return FlowStep::Run(BrowserCommand::DetectFields);
            }
        }
        if stage == ToolStage::DetectAfter {
            if let BrowserEvent::Fields(fields, buttons) = event {
                self.stage = ToolStage::Done;
                let mut action_results = Vec::new();
                std::mem::swap(&mut action_results, &mut self.results);
                let mut text = String::new();
                std::mem::swap(&mut text, &mut self.text);
                return FlowStep::Finished(
                    Ok(ActResult { action_results, page_text_after: text, next_step: next_step(fields, buttons) }),
                );
            }
        }
        self.stage = ToolStage::Done;
        FlowStep::Finished(Err(protocol_error()))
    }
}

} // verus!
