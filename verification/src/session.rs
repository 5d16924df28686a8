//! The protocol of the tools that work in the shared browser session: a new
//! tab carrying the user's Chrome cookies for the page.
use vstd::prelude::*;
use crate::cookies::ChromeCookie;
use crate::error::HtmlError;
use crate::parse::{extract_text, is_page_text};
use crate::text::{decimal, push_decimal};

verus! {

/// The wait after navigating, before the page is used.
pub const SESSION_SETTLE_MS: u64 = 1500;

/// One operation in the shared session.
#[derive(Debug)]
pub enum SessionCommand {
    /// Take the shared browser session, launching it when there is none.
    AcquireSession,
    /// Connect to the Chrome already running with remote debugging on this
    /// port, instead of the shared session.
    ConnectBrowser { port: u16 },
    /// Open a blank tab in the session.
    OpenTab,
    /// Read the stored Chrome cookies for the page's host.
    ExtractCookies,
    /// Set one cookie in the tab.
    SetCookie(ChromeCookie),
    /// Set the request's extra headers in the tab.
    SetHeaders,
    /// Navigate the tab to the page.
    Navigate,
    /// Wait this long.
    Wait { ms: u64 },
    /// Read the tab's HTML.
    ReadContent,
    /// List the tab's image URLs.
    ListImages,
}

/// The outcome of a session operation.
#[derive(Debug)]
pub enum SessionEvent {
    Done,
    /// The session slot was still empty after it was taken, or nothing
    /// answered on the debugging port.
    NoSession,
    Cookies(Vec<ChromeCookie>),
    Html(String),
    /// The image URLs, or nothing when they could not be listed.
    ImageUrls(Option<Vec<String>>),
    Failed(HtmlError),
}

/// What a session protocol asks for next.
#[derive(Debug)]
pub enum SessionStep<T> {
    Run(SessionCommand),
    Finished(Result<T, HtmlError>),
}

/// Where a session tab's setup stands.
#[derive(Debug, Clone, Copy, PartialEq, Eq, Structural)]
pub enum TabStage {
    Idle,
    Acquire,
    Tab,
    Cookies,
    SetCookie(usize),
    Headers,
    Navigate,
    Settle,
    Ready,
    Done,
}

/// Preparing a tab in the shared session: take the session, open a tab, set
/// each stored cookie of the page's host, set the extra headers when there
/// are any (a failure there is ignored), navigate, and wait 1.5 s. With a
/// debugging port, the Chrome on that port is used instead and the cookie
/// store is never read: that browser carries its own cookies.
pub struct SessionSetup {
    pub headers: bool,
    pub port: Option<u16>,
    pub stage: TabStage,
    pub cookies: Vec<ChromeCookie>,
}

/// How far a tab's setup has come: each operation it asks for moves this
/// forward, and it never exceeds `8 + cookies`.
pub open spec fn tab_progress(s: SessionSetup) -> int {
    let n = s.cookies@.len() as int;
    match s.stage {
        TabStage::Idle => 0,
        TabStage::Acquire => 1,
        TabStage::Tab => 2,
        TabStage::Cookies => 3,
        TabStage::SetCookie(i) => 4 + i,
        TabStage::Headers => 4 + n,
        TabStage::Navigate => 5 + n,
        TabStage::Settle => 6 + n,
        TabStage::Ready => 7 + n,
        TabStage::Done => 8 + n,
    }
}

/// The message when nothing answers on the debugging port.
pub open spec fn no_chrome_message(port: u16) -> Seq<char> {
    "No Chrome instance found on port "@ + decimal(port as nat)
        + ". Make sure Chrome is running with --remote-debugging-port="@ + decimal(port as nat) + "."@
}

/// The error when the browser cannot be had: the empty session slot, or
/// nothing on the debugging port.
pub open spec fn no_browser_error(port: Option<u16>, e: HtmlError) -> bool {
    match port {
        Some(p) => e matches HtmlError::SessionUnavailable(m) && m@ == no_chrome_message(p),
        None => no_session_error(e),
    }
}

/// The first operation of a tab setup.
pub open spec fn acquire_command(port: Option<u16>) -> SessionCommand {
    match port {
        Some(p) => SessionCommand::ConnectBrowser { port: p },
        None => SessionCommand::AcquireSession,
    }
}

/// The error when the session slot is empty.
pub open spec fn no_session_error(e: HtmlError) -> bool {
    e matches HtmlError::SessionUnavailable(m) && m@ == "Failed to acquire session"@
}

/// The command after the cookies from index `i` on were handled.
pub open spec fn after_cookie(s: SessionSetup, i: int) -> SessionCommand {
    if i < s.cookies@.len() {
        SessionCommand::SetCookie(s.cookies@[i])
    } else if s.headers {
        SessionCommand::SetHeaders
    } else {
        SessionCommand::Navigate
    }
}

/// The stage that awaits `after_cookie(s, i)`.
pub open spec fn after_cookie_stage(s: SessionSetup, i: int) -> TabStage {
    if i < s.cookies@.len() {
        TabStage::SetCookie(i as usize)
    } else if s.headers {
        TabStage::Headers
    } else {
        TabStage::Navigate
    }
}

/// One step of tab setup: each completed operation leads to the next; the
/// session slot found empty, or a failure other than of the headers, ends it.
pub open spec fn tab_step(old: SessionSetup, new: SessionSetup, event: SessionEvent, r: SessionStep<()>) -> bool {
    match (old.stage, event) {
        (TabStage::Acquire, SessionEvent::Done) => r == SessionStep::<()>::Run(SessionCommand::OpenTab) && new.stage
            == TabStage::Tab,
        (TabStage::Acquire, SessionEvent::NoSession) => r matches SessionStep::Finished(Err(e)) && no_browser_error(
            old.port,
            e,
        ),
        (TabStage::Tab, SessionEvent::Done) => if old.port is None {
            r == SessionStep::<()>::Run(SessionCommand::ExtractCookies) && new.stage == TabStage::Cookies
        } else {
            r == SessionStep::<()>::Run(after_cookie(old, 0)) && new.stage == after_cookie_stage(old, 0)
        },
        (TabStage::Cookies, SessionEvent::Cookies(v)) => new.cookies == v && r == SessionStep::<()>::Run(
            after_cookie(new, 0),
        ) && new.stage == after_cookie_stage(new, 0),
        (TabStage::SetCookie(i), SessionEvent::Done) => r == SessionStep::<()>::Run(after_cookie(old, i + 1))
            && new.stage == after_cookie_stage(old, i + 1),
        (TabStage::Headers, SessionEvent::Done) | (TabStage::Headers, SessionEvent::Failed(_)) => r
            == SessionStep::<()>::Run(SessionCommand::Navigate) && new.stage == TabStage::Navigate,
        (TabStage::Navigate, SessionEvent::Done) => r == SessionStep::<()>::Run(
            SessionCommand::Wait { ms: SESSION_SETTLE_MS },
        ) && new.stage == TabStage::Settle,
        (TabStage::Settle, SessionEvent::Done) => r == SessionStep::<()>::Finished(Ok(())) && new.stage
            == TabStage::Ready,
        (_, SessionEvent::Failed(e)) => r == SessionStep::<()>::Finished(Err(e)),
        _ => r matches SessionStep::Finished(Err(e)) && crate::flow::is_protocol_error(e),
    }
}

/// A failure reported for any operation of a tab setup but setting the
/// extra headers (opening the tab, reading or setting cookies, navigating,
/// settling) ends the setup with that very error; a failure to set the
/// headers is passed over and the tab is navigated all the same.
pub proof fn law_tab_failures(old: SessionSetup, new: SessionSetup, e: HtmlError, r: SessionStep<()>)
    requires
        tab_step(old, new, SessionEvent::Failed(e), r),
    ensures
        old.stage != TabStage::Headers ==> r == SessionStep::<()>::Finished(Err(e)),
        old.stage == TabStage::Headers ==> r == SessionStep::<()>::Run(SessionCommand::Navigate),
{
}

fn no_chrome(port: u16) -> (m: String)
    ensures
        m@ == no_chrome_message(port),
{
    let mut m = "No Chrome instance found on port ".to_owned();
    push_decimal(&mut m, port as u64);
    m.append(". Make sure Chrome is running with --remote-debugging-port=");
    push_decimal(&mut m, port as u64);
    m.append(".");
    m
}

impl SessionSetup {
    /// The bookkeeping agrees with the stage.
    pub open spec fn wf(&self) -> bool {
        &&& self.stage matches TabStage::SetCookie(i) ==> i < self.cookies@.len()
        &&& self.port is Some ==> self.cookies@.len() == 0 && self.stage != TabStage::Cookies
    }

    /// A tab setup that has not begun; `headers` says whether there are extra
    /// headers to set, `port` which debugging port to use, if any.
    pub fn new(headers: bool, port: Option<u16>) -> (r: Self)
        ensures
            r.wf(),
            r.headers == headers,
            r.port == port,
            r.stage == TabStage::Idle,
    {
        SessionSetup { headers, port, stage: TabStage::Idle, cookies: Vec::new() }
    }

    /// The first operation: connect to the Chrome on the debugging port when
    /// one is given, else take the shared session.
    pub fn begin(&mut self) -> (c: SessionCommand)
        requires
            old(self).wf(),
        ensures
            final(self).wf(),
            final(self).headers == old(self).headers,
            final(self).port == old(self).port,
            final(self).cookies == old(self).cookies,
            final(self).stage == TabStage::Acquire,
            c == acquire_command(old(self).port),
    {
        self.stage = TabStage::Acquire;
        match self.port {
            Some(p) => SessionCommand::ConnectBrowser { port: p },
            None => SessionCommand::AcquireSession,
        }
    }

    fn cookie_or_next(&mut self, i: usize) -> (r: SessionStep<()>)
        requires
            i <= old(self).cookies@.len(),
            old(self).port is Some ==> old(self).cookies@.len() == 0,
        ensures
            final(self).wf(),
            final(self).headers == old(self).headers,
            final(self).port == old(self).port,
            final(self).cookies == old(self).cookies,
            r == SessionStep::<()>::Run(after_cookie(*old(self), i as int)),
            final(self).stage == after_cookie_stage(*old(self), i as int),
    {
        if i < self.cookies.len() {
            self.stage = TabStage::SetCookie(i);
            return SessionStep::Run(SessionCommand::SetCookie(self.cookies[i].clone()));
        }
        if self.headers {
            self.stage = TabStage::Headers;
            SessionStep::Run(SessionCommand::SetHeaders)
        } else {
            self.stage = TabStage::Navigate;
            SessionStep::Run(SessionCommand::Navigate)
        }
    }

    /// The step after the outcome of the awaited operation, as `tab_step`
    /// describes; a finished setup leaves the tab ready for the page's tool.
    pub fn advance(&mut self, event: SessionEvent) -> (r: SessionStep<()>)
        requires
            old(self).wf(),
        ensures
            final(self).wf(),
            final(self).headers == old(self).headers,
            final(self).port == old(self).port,
            old(self).port is Some ==> !(r matches SessionStep::Run(SessionCommand::ExtractCookies)),
            old(self).stage != TabStage::Headers ==> (event matches SessionEvent::Failed(e) ==> r
                == SessionStep::<()>::Finished(Err(e))),
            tab_step(*old(self), *final(self), event, r),
            r is Run ==> final(self).stage != TabStage::Ready && final(self).stage != TabStage::Done
                && final(self).stage != TabStage::Idle,
            r matches SessionStep::Finished(Ok(_)) <==> final(self).stage == TabStage::Ready,
            r matches SessionStep::Finished(Err(_)) ==> final(self).stage == TabStage::Done,
            r is Run ==> tab_progress(*final(self)) > tab_progress(*old(self)),
            0 <= tab_progress(*final(self)) <= 8 + final(self).cookies@.len(),
            old(self).stage != TabStage::Cookies ==> final(self).cookies == old(self).cookies,
    {
        let stage = self.stage;
        match (stage, event) {
            (TabStage::Acquire, SessionEvent::Done) => {
                self.stage = TabStage::Tab;
                SessionStep::Run(SessionCommand::OpenTab)
            },
            (TabStage::Acquire, SessionEvent::NoSession) => {
                self.stage = TabStage::Done;
                let m = match self.port {
                    Some(p) => no_chrome(p),
                    None => "Failed to acquire session".to_owned(),
                };
                SessionStep::Finished(Err(HtmlError::SessionUnavailable(m)))
            },
            (TabStage::Tab, SessionEvent::Done) => {
                if self.port.is_none() {
                    self.stage = TabStage::Cookies;
                    SessionStep::Run(SessionCommand::ExtractCookies)
                } else {
                    self.cookie_or_next(0)
                }
            },
            (TabStage::Cookies, SessionEvent::Cookies(v)) => {
                self.cookies = v;
                self.cookie_or_next(0)
            },
            (TabStage::SetCookie(i), SessionEvent::Done) => {
                assert(i < self.cookies.len());
                self.cookie_or_next(i + 1)
            },
            (TabStage::Headers, SessionEvent::Done) | (TabStage::Headers, SessionEvent::Failed(_)) => {
                self.stage = TabStage::Navigate;
                SessionStep::Run(SessionCommand::Navigate)
            },
            (TabStage::Navigate, SessionEvent::Done) => {
                self.stage = TabStage::Settle;
                SessionStep::Run(SessionCommand::Wait { ms: SESSION_SETTLE_MS })
            },
            (TabStage::Settle, SessionEvent::Done) => {
                self.stage = TabStage::Ready;
                SessionStep::Finished(Ok(()))
            },
            (_, SessionEvent::Failed(e)) => {
                self.stage = TabStage::Done;
                SessionStep::Finished(Err(e))
            },
            _ => {
                self.stage = TabStage::Done;
                SessionStep::Finished(Err(crate::flow::protocol_error()))
            },
        }
    }
}

/// Where a session read stands.
#[derive(Debug, Clone, Copy, PartialEq, Eq, Structural)]
pub enum ReadStage {
    Setup,
    Content,
    Images,
    Done,
}

/// Reading a page in the shared session: prepare a tab, read its HTML and
/// keep its text, and list its images when asked (their absence is no
/// failure: no images are reported then).
pub struct SessionRead {
    pub tab: SessionSetup,
    pub include_images: bool,
    pub stage: ReadStage,
    pub text: String,
}

/// The tab-setup step that a step of a session tool stands for.
pub open spec fn tab_part<T>(r: SessionStep<T>) -> SessionStep<()> {
    match r {
        SessionStep::Run(c) => SessionStep::<()>::Run(c),
        SessionStep::Finished(Err(e)) => SessionStep::<()>::Finished(Err(e)),
        SessionStep::Finished(Ok(_)) => SessionStep::<()>::Finished(Ok(())),
    }
}

/// How far a session read has come: each operation it asks for moves this
/// forward, and it never exceeds `10 + cookies`.
pub open spec fn read_progress(r: SessionRead) -> int {
    let n = r.tab.cookies@.len() as int;
    match r.stage {
        ReadStage::Setup => tab_progress(r.tab),
        ReadStage::Content => 8 + n,
        ReadStage::Images => 9 + n,
        ReadStage::Done => 10 + n,
    }
}

impl SessionRead {
    /// The bookkeeping agrees with the stage.
    pub open spec fn wf(&self) -> bool {
        &&& self.tab.wf()
        &&& self.stage == ReadStage::Images ==> self.include_images
    }

    /// A session read with its first operation: take the session.
    pub fn start(include_images: bool, headers: bool, port: Option<u16>) -> (r: (Self, SessionCommand))
        ensures
            r.0.wf(),
            r.0.include_images == include_images,
            r.0.tab.headers == headers,
            r.0.tab.port == port,
            r.0.tab.stage == TabStage::Acquire,
            r.0.stage == ReadStage::Setup,
            r.1 == acquire_command(port),
    {
        let mut tab = SessionSetup::new(headers, port);
        let c = tab.begin();
        (SessionRead { tab, include_images, stage: ReadStage::Setup, text: String::new() }, c)
    }

    /// The step after the outcome of the awaited operation: the tab is set up
    /// as `tab_step` describes; once it is ready its HTML is read; the result
    /// is the page's text with the image URLs when they were asked for and
    /// could be listed, else with none.
    pub fn advance(&mut self, event: SessionEvent) -> (r: SessionStep<(String, Vec<String>)>)
        requires
            old(self).wf(),
        ensures
            final(self).wf(),
            final(self).include_images == old(self).include_images,
            final(self).tab.port == old(self).tab.port,
            final(self).tab.headers == old(self).tab.headers,
            old(self).tab.port is Some ==> !(r matches SessionStep::Run(SessionCommand::ExtractCookies)),
            (old(self).stage == ReadStage::Setup && old(self).tab.stage != TabStage::Headers) ==> (
            event matches SessionEvent::Failed(e) ==> r == SessionStep::<(String, Vec<String>)>::Finished(Err(e))),
            r is Run ==> read_progress(*final(self)) > read_progress(*old(self)),
            old(self).stage == ReadStage::Setup ==> if final(self).tab.stage == TabStage::Ready {
                &&& tab_step(old(self).tab, final(self).tab, event, SessionStep::<()>::Finished(Ok(())))
                &&& r == SessionStep::<(String, Vec<String>)>::Run(SessionCommand::ReadContent)
                &&& final(self).stage == ReadStage::Content
            } else {
                &&& tab_step(old(self).tab, final(self).tab, event, tab_part(r))
                &&& !(r matches SessionStep::Finished(Ok(_)))
                &&& r is Run ==> final(self).stage == ReadStage::Setup
            },
            old(self).stage == ReadStage::Content ==> match event {
                SessionEvent::Html(h) => if old(self).include_images {
                    r == SessionStep::<(String, Vec<String>)>::Run(SessionCommand::ListImages) && is_page_text(
                        h@,
                        final(self).text@,
                    ) && final(self).stage == ReadStage::Images
                } else {
                    r matches SessionStep::Finished(Ok((t, urls))) && is_page_text(h@, t@) && urls@.len() == 0
                },
                SessionEvent::Failed(e) => r == SessionStep::<(String, Vec<String>)>::Finished(Err(e)),
                _ => r matches SessionStep::Finished(Err(e)) && crate::flow::is_protocol_error(e),
            },
            old(self).stage == ReadStage::Images ==> match event {
                SessionEvent::ImageUrls(Some(urls)) => r == SessionStep::<(String, Vec<String>)>::Finished(
                    Ok((old(self).text, urls)),
                ),
                SessionEvent::ImageUrls(None) | SessionEvent::Failed(_) => r matches SessionStep::Finished(
                    Ok((t, urls)),
                ) && t == old(self).text && urls@.len() == 0,
                _ => r matches SessionStep::Finished(Err(e)) && crate::flow::is_protocol_error(e),
            },
            old(self).stage == ReadStage::Done ==> (r matches SessionStep::Finished(Err(e)) && crate::flow::is_protocol_error(e)),
    {
        let stage = self.stage;
        if stage == ReadStage::Setup {
            return match self.tab.advance(event) {
                SessionStep::Run(c) => SessionStep::Run(c),
                SessionStep::Finished(Ok(())) => {
                    self.stage = ReadStage::Content;
                    SessionStep::Run(SessionCommand::ReadContent)
                },
                SessionStep::Finished(Err(e)) => {
                    self.stage = ReadStage::Done;
                    SessionStep::Finished(Err(e))
                },
            };
        }
        if stage == ReadStage::Content {
            return match event {
                SessionEvent::Html(h) => {
                    let text = extract_text(h.as_str());
                    if self.include_images {
                        self.text = text;
                        self.stage = ReadStage::Images;
                        SessionStep::Run(SessionCommand::ListImages)
                    } else {
                        self.stage = ReadStage::Done;
                        SessionStep::Finished(Ok((text, Vec::new())))
                    }
                },
                SessionEvent::Failed(e) => {
                    self.stage = ReadStage::Done;
                    SessionStep::Finished(Err(e))
                },
                _ => {
                    self.stage = ReadStage::Done;
                    SessionStep::Finished(Err(crate::flow::protocol_error()))
                },
            };
        }
        if stage == ReadStage::Images {
            let mut text = String::new();
            std::mem::swap(&mut text, &mut self.text);
            self.stage = ReadStage::Done;
            return match event {
                SessionEvent::ImageUrls(Some(urls)) => SessionStep::Finished(Ok((text, urls))),
                SessionEvent::ImageUrls(None) | SessionEvent::Failed(_) => SessionStep::Finished(Ok((text, Vec::new()))),
                _ => SessionStep::Finished(Err(crate::flow::protocol_error())),
            };
        }
        SessionStep::Finished(Err(crate::flow::protocol_error()))
    }
}

} // verus!
