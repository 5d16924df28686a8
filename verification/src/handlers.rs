//! The tools' entry points: each checks its request before any browser is
//! started and hands back the protocol that carries the request out.
use vstd::prelude::*;
use crate::act::{batch_ok, batch_problem, validate_actions};
use crate::action::{PageAction, DEFAULT_MAX_ACTIONS};
use crate::error::HtmlError;
use crate::fill_flow::{FillFlow, FillStage};
use crate::flow::{option_flags, BrowserCommand, FlowStep, SetupStage};
use crate::form::{ClickButtonResult, FieldInput};
use crate::request_options::RequestOptions;
use crate::resource_uri::{url_ok, url_problem, ResourceUri};
use crate::session::{acquire_command, SessionCommand, SessionRead, SessionSetup, TabStage};
use crate::tools::{nothing_to_click, ActFlow, ClickFlow, DetectFlow, FetchFlow, ToolStage};

verus! {

/// The wait for a field when a request names none, in milliseconds.
pub const DEFAULT_FIELD_TIMEOUT_MS: u64 = 2000;

/// The wait before a page fetched for a resource is read, in milliseconds.
pub const RESOURCE_WAIT_MS: u64 = 1500;

/// Whether the request's options hold cookies.
pub open spec fn cookies_given(options: Option<&RequestOptions>) -> bool {
    options matches Some(o) && o.cookies is Some
}

/// Whether the request's options hold headers.
pub open spec fn headers_given(options: Option<&RequestOptions>) -> bool {
    options matches Some(o) && o.headers is Some
}

/// The batch tool: fills, selects, checks and clicks in one call.
#[derive(Clone, Copy)]
pub struct ActHandler;

impl Default for ActHandler {
    fn default() -> (r: Self)
        ensures
            r == ActHandler,
    {
        ActHandler
    }
}

/// The limits of a batch: the cap on its size and the wait for each field.
pub open spec fn batch_limits(max_actions: Option<usize>, field_timeout_ms: Option<u64>) -> (usize, u64) {
    (
        match max_actions {
            Some(m) => m,
            None => DEFAULT_MAX_ACTIONS,
        },
        match field_timeout_ms {
            Some(t) => t,
            None => DEFAULT_FIELD_TIMEOUT_MS,
        },
    )
}

/// A batch request is acceptable: its address, then the batch within its limits.
pub open spec fn act_request_ok(url: Seq<char>, actions: Seq<PageAction>, max_actions: Option<usize>, field_timeout_ms: Option<u64>) -> bool {
    url_ok(url) && batch_ok(actions, batch_limits(max_actions, field_timeout_ms).0, batch_limits(max_actions, field_timeout_ms).1)
}

/// `e` is the error of an unacceptable batch request.
pub open spec fn act_request_problem(url: Seq<char>, actions: Seq<PageAction>, max_actions: Option<usize>, field_timeout_ms: Option<u64>, e: HtmlError) -> bool {
    if !url_ok(url) {
        url_problem(url, e)
    } else {
        batch_problem(actions, batch_limits(max_actions, field_timeout_ms).0, batch_limits(max_actions, field_timeout_ms).1, e)
    }
}

/// A debugging port is acceptable: none, or one between 1 and 65535.
pub open spec fn port_ok(port: Option<u16>) -> bool {
    port matches Some(p) ==> p >= 1
}

/// The error an unacceptable debugging port draws.
pub open spec fn port_problem(e: HtmlError) -> bool {
    e == HtmlError::InvalidDebugPort
}

/// Checks a debugging port: none, or one between 1 and 65535.
pub fn check_debug_port(port: Option<u16>) -> (r: Result<(), HtmlError>)
    ensures
        r is Ok <==> port_ok(port),
        r matches Err(e) ==> port_problem(e),
{
    match port {
        Some(0) => Err(HtmlError::InvalidDebugPort),
        _ => Ok(()),
    }
}

impl ActHandler {
    /// Checks a batch request: the address first, then the batch against its
    /// cap (20 when none is given) and field wait (2 s when none is given);
    /// the field wait is returned.
    pub fn check_request(&self, url: &str, actions: &[PageAction], max_actions: Option<usize>, field_timeout_ms: Option<u64>) -> (r: Result<u64, HtmlError>)
        ensures
            r is Ok <==> act_request_ok(url@, actions@, max_actions, field_timeout_ms),
            r matches Ok(t) ==> t == batch_limits(max_actions, field_timeout_ms).1,
            r matches Err(e) ==> act_request_problem(url@, actions@, max_actions, field_timeout_ms, e),
    {
        match ResourceUri::parse(url) {
            Ok(_) => {},
            Err(e) => return Err(e),
        }
        let max = match max_actions {
            Some(m) => m,
            None => DEFAULT_MAX_ACTIONS,
        };
        let timeout = match field_timeout_ms {
            Some(t) => t,
            None => DEFAULT_FIELD_TIMEOUT_MS,
        };
        match validate_actions(actions, max, timeout) {
            Ok(()) => Ok(timeout),
            Err(e) => Err(e),
        }
    }

    /// Starts a batch in a browser of its own: the request is checked first;
    /// only an acceptable request starts the browser. Returned are the
    /// protocol, its first command and the field wait.
    pub fn start_act(
        &self,
        url: &str,
        actions: &[PageAction],
        max_actions: Option<usize>,
        field_timeout_ms: Option<u64>,
        options: Option<&RequestOptions>,
    ) -> (r: Result<(ActFlow, BrowserCommand, u64), HtmlError>)
        ensures
            r is Ok <==> act_request_ok(url@, actions@, max_actions, field_timeout_ms),
            r matches Err(e) ==> act_request_problem(url@, actions@, max_actions, field_timeout_ms, e),
            r matches Ok((flow, c, t)) ==> {
                &&& c == BrowserCommand::Start
                &&& t == batch_limits(max_actions, field_timeout_ms).1
                &&& flow.wf()
                &&& flow.stage == ToolStage::Setup
                &&& flow.setup.stage == SetupStage::Start
                &&& flow.setup.cookies == cookies_given(options)
                &&& flow.setup.headers == headers_given(options)
            },
    {
        let t = match self.check_request(url, actions, max_actions, field_timeout_ms) {
            Ok(t) => t,
            Err(e) => return Err(e),
        };
        let (cookies, headers) = option_flags(options);
        let mut flow = ActFlow::new(cookies, headers);
        let c = flow.begin();
        Ok((flow, c, t))
    }

    /// Starts a batch in the shared session, or in the Chrome on
    /// `debug_port` when one is given: the request is checked first (the
    /// address, the batch, then the port); only an acceptable request takes a
    /// browser. `headers` says whether there are extra headers to set.
    /// Returned are the tab's setup, its first operation and the field wait.
    pub fn start_act_with_session(
        &self,
        url: &str,
        actions: &[PageAction],
        max_actions: Option<usize>,
        field_timeout_ms: Option<u64>,
        headers: bool,
        debug_port: Option<u16>,
    ) -> (r: Result<(SessionSetup, SessionCommand, u64), HtmlError>)
        ensures
            r is Ok <==> act_request_ok(url@, actions@, max_actions, field_timeout_ms) && port_ok(debug_port),
            r matches Err(e) ==> if act_request_ok(url@, actions@, max_actions, field_timeout_ms) {
                port_problem(e)
            } else {
                act_request_problem(url@, actions@, max_actions, field_timeout_ms, e)
            },
            r matches Ok((tab, c, t)) ==> {
                &&& c == acquire_command(debug_port)
                &&& t == batch_limits(max_actions, field_timeout_ms).1
                &&& tab.wf()
                &&& tab.stage == TabStage::Acquire
                &&& tab.headers == headers
                &&& tab.port == debug_port
            },
    {
        let t = match self.check_request(url, actions, max_actions, field_timeout_ms) {
            Ok(t) => t,
            Err(e) => return Err(e),
        };
        match check_debug_port(debug_port) {
            Ok(()) => {},
            Err(e) => return Err(e),
        }
        let mut tab = SessionSetup::new(headers, debug_port);
        let c = tab.begin();
        Ok((tab, c, t))
    }
}

/// The form tools: detect, fill and click.
#[derive(Clone, Copy)]
pub struct FormHandler;

impl Default for FormHandler {
    fn default() -> (r: Self)
        ensures
            r == FormHandler,
    {
        FormHandler
    }
}

impl FormHandler {
    /// Starts a form detection; only an acceptable address starts the browser.
    pub fn start_detect(&self, url: &str, options: Option<&RequestOptions>) -> (r: Result<(DetectFlow, BrowserCommand), HtmlError>)
        ensures
            r is Ok <==> url_ok(url@),
            r matches Err(e) ==> url_problem(url@, e),
            r matches Ok((flow, c)) ==> {
                &&& c == BrowserCommand::Start
                &&& flow.wf()
                &&& flow.stage == ToolStage::Setup
                &&& flow.setup.stage == SetupStage::Start
                &&& flow.setup.cookies == cookies_given(options)
                &&& flow.setup.headers == headers_given(options)
            },
    {
        match ResourceUri::parse(url) {
            Ok(_) => {},
            Err(e) => return Err(e),
        }
        let (cookies, headers) = option_flags(options);
        let mut flow = DetectFlow::new(cookies, headers);
        let c = flow.begin();
        Ok((flow, c))
    }

    /// Starts a button click; only an acceptable address gets this far, and a
    /// click naming neither an id nor a label fails before any browser starts.
    pub fn start_click(
        &self,
        url: &str,
        button_id: Option<String>,
        label: Option<String>,
        options: Option<&RequestOptions>,
    ) -> (r: Result<(ClickFlow, FlowStep<ClickButtonResult>), HtmlError>)
        ensures
            r is Ok <==> url_ok(url@),
            r matches Err(e) ==> url_problem(url@, e),
            r matches Ok((flow, step)) ==> {
                &&& flow.wf()
                &&& flow.button_id == button_id
                &&& flow.label == label
                &&& flow.setup.cookies == cookies_given(options)
                &&& flow.setup.headers == headers_given(options)
                &&& button_id is None && label is None ==> (step matches FlowStep::Finished(Err(e))
                    && nothing_to_click(e))
                &&& !(button_id is None && label is None) ==> (step == FlowStep::<ClickButtonResult>::Run(
                    BrowserCommand::Start,
                ) && flow.stage == ToolStage::Setup && flow.setup.stage == SetupStage::Start)
            },
    {
        match ResourceUri::parse(url) {
            Ok(_) => {},
            Err(e) => return Err(e),
        }
        let (cookies, headers) = option_flags(options);
        let mut flow = ClickFlow::new(button_id, label, cookies, headers);
        let step = flow.begin();
        Ok((flow, step))
    }

    /// Starts a form fill; only an acceptable address starts the browser.
    pub fn start_fill(
        &self,
        url: &str,
        inputs: Vec<FieldInput>,
        auto_submit: bool,
        submit_button_label: Option<String>,
        dry_run: bool,
        options: Option<&RequestOptions>,
    ) -> (r: Result<(FillFlow, BrowserCommand), HtmlError>)
        ensures
            r is Ok <==> url_ok(url@),
            r matches Err(e) ==> url_problem(url@, e),
            r matches Ok((flow, c)) ==> {
                &&& c == BrowserCommand::Start
                &&& flow.wf()
                &&& flow.stage == FillStage::Setup
                &&& flow.inputs == inputs
                &&& flow.auto_submit == auto_submit
                &&& flow.submit_button_label == submit_button_label
                &&& flow.dry_run == dry_run
                &&& flow.setup.stage == SetupStage::Start
                &&& flow.setup.cookies == cookies_given(options)
                &&& flow.setup.headers == headers_given(options)
            },
    {
        match ResourceUri::parse(url) {
            Ok(_) => {},
            Err(e) => return Err(e),
        }
        let (cookies, headers) = option_flags(options);
        let mut flow = FillFlow::new(inputs, auto_submit, submit_button_label, dry_run, cookies, headers);
        let c = flow.begin();
        Ok((flow, c))
    }
}

/// The page resource: reads a page by its address.
#[derive(Clone, Copy)]
pub struct HtmlResourceHandler;

impl Default for HtmlResourceHandler {
    fn default() -> (r: Self)
        ensures
            r == HtmlResourceHandler,
    {
        HtmlResourceHandler::new()
    }
}

impl HtmlResourceHandler {
    /// The handler.
    pub fn new() -> (r: Self)
        ensures
            r == HtmlResourceHandler,
    {
        HtmlResourceHandler
    }

    /// Starts reading the page at `uri` (no request options, 1.5 s wait, no
    /// images); only an acceptable address starts the browser. Returned are
    /// the checked address, the protocol and its first command.
    pub fn start_read(&self, uri: &str) -> (r: Result<(ResourceUri, FetchFlow, BrowserCommand), HtmlError>)
        ensures
            r is Ok <==> url_ok(uri@),
            r matches Err(e) ==> url_problem(uri@, e),
            r matches Ok((u, flow, c)) ==> {
                &&& u.address() == uri@
                &&& c == BrowserCommand::Start
                &&& flow.wf()
                &&& flow.stage == ToolStage::Setup
                &&& !flow.images
                &&& flow.setup.stage == SetupStage::Start
                &&& flow.setup.wait_ms == RESOURCE_WAIT_MS
                &&& !flow.setup.cookies
                &&& !flow.setup.headers
            },
    {
        let u = match ResourceUri::parse(uri) {
            Ok(u) => u,
            Err(e) => return Err(e),
        };
        let mut flow = FetchFlow::new(RESOURCE_WAIT_MS, false, false, false);
        let c = flow.begin();
        Ok((u, flow, c))
    }
}

/// The session tool: reads a page in the shared browser session.
#[derive(Clone, Copy)]
pub struct SessionHandler;

impl Default for SessionHandler {
    fn default() -> (r: Self)
        ensures
            r == SessionHandler,
    {
        SessionHandler
    }
}

impl SessionHandler {
    /// Starts a session read, in the shared session or, when `debug_port` is
    /// given, in the Chrome on that port (then the cookie store is never
    /// read). The address is checked, then the port; only an acceptable
    /// request takes a browser. `headers` says whether there are extra
    /// headers to set.
    pub fn start_read_with_session(
        &self,
        url: &str,
        include_images: bool,
        headers: bool,
        debug_port: Option<u16>,
    ) -> (r: Result<(SessionRead, SessionCommand), HtmlError>)
        ensures
            r is Ok <==> url_ok(url@) && port_ok(debug_port),
            r matches Err(e) ==> if url_ok(url@) {
                port_problem(e)
            } else {
                url_problem(url@, e)
            },
            r matches Ok((flow, c)) ==> {
                &&& c == acquire_command(debug_port)
                &&& flow.wf()
                &&& flow.include_images == include_images
                &&& flow.tab.headers == headers
                &&& flow.tab.port == debug_port
                &&& flow.tab.stage == TabStage::Acquire
            },
    {
        match ResourceUri::parse(url) {
            Ok(_) => {},
            Err(e) => return Err(e),
        }
        match check_debug_port(debug_port) {
            Ok(()) => {},
            Err(e) => return Err(e),
        }
        Ok(SessionRead::start(include_images, headers, debug_port))
    }
}

} // verus!
