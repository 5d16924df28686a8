//! Running one page action: waiting for its field, then filling or clicking.
use vstd::prelude::*;
use crate::act::{action_field_value, fail, field_not_ready, field_timed_out, finish, next_retry_delay, redact_if_password};
use crate::action::{ActionResult, PageAction};
use crate::button::{ButtonSearch, SearchCommand, SearchEvent, SearchStage, SearchStep};
use crate::error::{error_message, HtmlError};
use crate::form::{FieldValue, FormField, FormFieldType};
use crate::text::decimal;
use crate::validate::{first_matching, resolve_field};

verus! {

/// The first pause between two probes of a missing or disabled field.
pub const FIRST_RETRY_DELAY_MS: u64 = 100;

/// One page operation of an action.
#[derive(Debug)]
pub enum TaskCommand {
    /// Report whether the control is present and enabled.
    CheckReady { selector: String },
    /// Start measuring the time spent waiting for the field.
    StartTimer,
    /// Wait this long, then report the time since the timer started.
    Sleep { ms: u64 },
    /// Detect the page's fields again.
    DetectFields,
    /// Put a value into a control.
    Fill { selector: String, value: FieldValue },
    /// A step of a button search.
    Search(SearchCommand),
}

/// The outcome of an action's page operation.
#[derive(Debug)]
pub enum TaskEvent {
    Ready(bool),
    TimerStarted,
    Elapsed(u64),
    Fields(Vec<FormField>),
    Filled,
    Failed(HtmlError),
    Search(SearchEvent),
}

/// What an action asks for next.
#[derive(Debug)]
pub enum TaskStep {
    Run(TaskCommand),
    Finished(ActionResult),
}

/// Where an action stands.
#[derive(Debug, Clone, Copy, PartialEq, Eq, Structural)]
pub enum TaskStage {
    Idle,
    FirstCheck,
    Timer,
    Sleeping,
    Detecting,
    Checking,
    Filling,
    Clicking,
    Done,
}

/// One action of a batch on its way through the page.
pub struct ActionTask {
    pub action: PageAction,
    pub timeout_ms: u64,
    pub delay_ms: u64,
    pub stage: TaskStage,
    pub candidate: Option<FormField>,
    pub search: ButtonSearch,
}

/// The identifier a field action addresses.
pub open spec fn action_identifier(a: PageAction) -> Seq<char> {
    match a {
        PageAction::Fill { identifier, .. } => identifier@,
        PageAction::Select { identifier, .. } => identifier@,
        PageAction::Check { identifier, .. } => identifier@,
        PageAction::Click { .. } => Seq::empty(),
    }
}

/// The value a field action puts into its control.
pub open spec fn action_value(a: PageAction) -> FieldValue {
    match a {
        PageAction::Fill { value, .. } => FieldValue::Text(value),
        PageAction::Select { value, .. } => FieldValue::Selected(value),
        PageAction::Check { checked, .. } => FieldValue::Checked(checked),
        PageAction::Click { .. } => FieldValue::Checked(false),
    }
}

/// `r` reports `action` with the page operation's `outcome`.
pub open spec fn reports(r: ActionResult, action: PageAction, outcome: Result<(), HtmlError>) -> bool {
    &&& r.action == action
    &&& r.success == outcome is Ok
    &&& outcome is Ok ==> r.error is None
    &&& outcome matches Err(e) ==> r.error matches Some(m) && m@ == error_message(e)
}

/// `r` is `action` as reported for a control of kind `kind`: a fill of a
/// password field with its value hidden, every other action as it was.
pub open spec fn reported_action(r: PageAction, action: PageAction, kind: FormFieldType) -> bool {
    if kind == FormFieldType::Password && action is Fill {
        r matches PageAction::Fill { identifier, value } && identifier == action->Fill_identifier
            && value@ == "[REDACTED]"@
    } else {
        r == action
    }
}

/// Two descriptions of a control agree on its selector and kind.
pub open spec fn same_control(a: FormField, b: FormField) -> bool {
    a.selector == b.selector && a.field_type == b.field_type
}

/// `r` reports a failure with message `m`.
pub open spec fn failed_with(r: ActionResult, action: PageAction, m: Seq<char>) -> bool {
    &&& r.action == action
    &&& !r.success
    &&& r.error matches Some(x) && x@ == m
}

/// The message of a result for an outcome that does not fit the awaited
/// operation.
pub open spec fn protocol_message() -> Seq<char> {
    "Browser error: "@ + "unexpected browser event"@
}

/// The message of a field that is missing or disabled when no wait is allowed.
pub open spec fn not_ready_message(id: Seq<char>) -> Seq<char> {
    "Field not found: "@ + ("Field not found or still disabled: "@ + id)
}

/// The message of a field that stayed missing or disabled for the timeout.
pub open spec fn timed_out_message(timeout_ms: u64, id: Seq<char>) -> Seq<char> {
    "Field not found: "@ + ("Field not found or still disabled after "@ + decimal(timeout_ms as nat) + "ms: "@
        + id)
}

impl ActionTask {
    /// The bookkeeping agrees with the stage.
    pub open spec fn wf(&self) -> bool {
        &&& self.stage == TaskStage::Clicking ==> self.action is Click
        &&& (self.stage != TaskStage::Idle && self.stage != TaskStage::Clicking && self.stage != TaskStage::Done)
            ==> !(self.action is Click)
        &&& self.action matches PageAction::Click { label, id } ==> self.search.button_id == id
            && self.search.label == label
        &&& (self.stage == TaskStage::FirstCheck || self.stage == TaskStage::Checking || self.stage
            == TaskStage::Filling) ==> self.candidate is Some
        &&& self.delay_ms <= 500
        &&& self.stage == TaskStage::Clicking ==> {
            &&& self.search.stage == SearchStage::ById || self.search.stage == SearchStage::ByLabel
                || self.search.stage == SearchStage::Settle
            &&& self.search.stage == SearchStage::ById ==> self.search.button_id is Some
            &&& self.search.stage == SearchStage::ByLabel ==> self.search.label is Some
            &&& self.search.stage == SearchStage::Settle ==> self.search.found is Some
        }
        &&& self.stage == TaskStage::Idle ==> self.search.stage == SearchStage::Idle
    }

    /// An action that has not begun; `timeout_ms` bounds the wait for its field.
    pub fn new(action: PageAction, timeout_ms: u64) -> (r: Self)
        ensures
            r.wf(),
            r.action == action,
            r.timeout_ms == timeout_ms,
            r.stage == TaskStage::Idle,
    {
        let (id, label) = match &action {
            PageAction::Click { label, id } => (crate::form::clone_opt_string(id), crate::form::clone_opt_string(
                label,
            )),
            _ => (None, None),
        };
        ActionTask {
            action,
            timeout_ms,
            delay_ms: FIRST_RETRY_DELAY_MS,
            stage: TaskStage::Idle,
            candidate: None,
            search: ButtonSearch::new(id, label),
        }
    }

    /// After the field was not found ready at once: give up when no wait is
    /// allowed, else start waiting.
    fn after_first_miss(&mut self) -> (r: TaskStep)
        requires
            !(old(self).action is Click),
            old(self).delay_ms <= 500,
            old(self).stage != TaskStage::Idle,
        ensures
            final(self).wf(),
            final(self).action == old(self).action,
            final(self).timeout_ms == old(self).timeout_ms,
            old(self).timeout_ms == 0 ==> (r matches TaskStep::Finished(res) && failed_with(
                res,
                old(self).action,
                not_ready_message(action_identifier(old(self).action)),
            )),
            old(self).timeout_ms > 0 ==> r == TaskStep::Run(TaskCommand::StartTimer) && final(self).stage
                == TaskStage::Timer,
    {
        if self.timeout_ms == 0 {
            self.stage = TaskStage::Done;
            let id = match &self.action {
                PageAction::Fill { identifier, .. } => identifier.as_str(),
                PageAction::Select { identifier, .. } => identifier.as_str(),
                PageAction::Check { identifier, .. } => identifier.as_str(),
                PageAction::Click { .. } => "",
            };
            let e = field_not_ready(id);
            let res = fail(self.action.clone(), e);
            return TaskStep::Finished(res);
        }
        self.stage = TaskStage::Timer;
        TaskStep::Run(TaskCommand::StartTimer)
    }

    /// The fill of the resolved field.
    fn fill_candidate(&mut self) -> (r: TaskStep)
        requires
            !(old(self).action is Click),
            old(self).candidate is Some,
            old(self).delay_ms <= 500,
        ensures
            final(self).wf(),
            final(self).action == old(self).action,
            final(self).timeout_ms == old(self).timeout_ms,
            final(self).candidate == old(self).candidate,
            final(self).stage == TaskStage::Filling,
            r == TaskStep::Run(
                TaskCommand::Fill {
                    selector: old(self).candidate->Some_0.selector,
                    value: action_value(old(self).action),
                },
            ),
    {
        self.stage = TaskStage::Filling;
        let value = match action_field_value(&self.action) {
            Some(v) => v,
            None => FieldValue::Checked(false),
        };
        let selector = match &self.candidate {
            Some(f) => f.selector.clone(),
            None => String::new(),
        };
        TaskStep::Run(TaskCommand::Fill { selector, value })
    }

    /// The first step: a click starts its button search; a field action
    /// checks the first detected field it addresses, or, with none, waits for
    /// one as `after_first_miss` says.
    pub fn begin(&mut self, detected: &[FormField]) -> (r: TaskStep)
        requires
            old(self).wf(),
            old(self).stage == TaskStage::Idle,
        ensures
            final(self).wf(),
            final(self).action == old(self).action,
            final(self).timeout_ms == old(self).timeout_ms,
            old(self).action matches PageAction::Click { label, id } ==> {
                &&& id matches Some(i) ==> r == TaskStep::Run(TaskCommand::Search(SearchCommand::ClickById { id: i }))
                &&& id is None ==> (label matches Some(l) ==> r == TaskStep::Run(
                    TaskCommand::Search(SearchCommand::ClickByLabel { label: l }),
                ))
                &&& id is None && label is None ==> (r matches TaskStep::Finished(res) && failed_with(
                    res,
                    old(self).action,
                    "Button not found: '"@ + "button_id and label are both None"@ + "'"@,
                ))
            },
            !(old(self).action is Click) ==> match first_matching(detected@, action_identifier(old(self).action)) {
                Some(k) => r == TaskStep::Run(TaskCommand::CheckReady { selector: detected@[k].selector })
                    && final(self).stage == TaskStage::FirstCheck && (final(self).candidate matches Some(f)
                    && same_control(f, detected@[k])),
                None => if old(self).timeout_ms == 0 {
                    r matches TaskStep::Finished(res) && failed_with(
                        res,
                        old(self).action,
                        not_ready_message(action_identifier(old(self).action)),
                    )
                } else {
                    r == TaskStep::Run(TaskCommand::StartTimer) && final(self).stage == TaskStage::Timer
                },
            },
    {
        if let PageAction::Click { .. } = &self.action {
            return match self.search.begin() {
                SearchStep::Run(c) => {
                    self.stage = TaskStage::Clicking;
                    TaskStep::Run(TaskCommand::Search(c))
                },
                SearchStep::Finished(Ok(_)) => {
                    self.stage = TaskStage::Done;
                    TaskStep::Finished(finish(self.action.clone(), Ok(())))
                },
                SearchStep::Finished(Err(e)) => {
                    self.stage = TaskStage::Done;
                    TaskStep::Finished(finish(self.action.clone(), Err(e)))
                },
            };
        }
        let found = match &self.action {
            PageAction::Fill { identifier, .. } => resolve_field(detected, identifier.as_str()),
            PageAction::Select { identifier, .. } => resolve_field(detected, identifier.as_str()),
            PageAction::Check { identifier, .. } => resolve_field(detected, identifier.as_str()),
            PageAction::Click { .. } => None,
        };
        proof {
            crate::validate::lemma_first_matching_props(detected@, action_identifier(self.action));
        }
        match found {
            Some(f) => {
                let f2 = f.clone();
                let selector = f.selector.clone();
                self.candidate = Some(f2);
                self.stage = TaskStage::FirstCheck;
                TaskStep::Run(TaskCommand::CheckReady { selector })
            },
            None => {
                self.stage = TaskStage::FirstCheck;
                self.after_first_miss()
            },
        }
    }
}


impl ActionTask {
    /// The identifier of the field action, as a string slice.
    fn identifier(&self) -> (r: &str)
        requires
            !(self.action is Click),
        ensures
            r@ == action_identifier(self.action),
    {
        match &self.action {
            PageAction::Fill { identifier, .. } => identifier.as_str(),
            PageAction::Select { identifier, .. } => identifier.as_str(),
            PageAction::Check { identifier, .. } => identifier.as_str(),
            PageAction::Click { .. } => "",
        }
    }

    /// Ends the action with a failure to reach its field.
    fn give_up(&mut self, e: HtmlError) -> (r: TaskStep)
        ensures
            final(self).action == old(self).action,
            final(self).timeout_ms == old(self).timeout_ms,
            final(self).delay_ms == old(self).delay_ms,
            final(self).search == old(self).search,
            final(self).stage == TaskStage::Done,
            r matches TaskStep::Finished(res) && failed_with(res, old(self).action, error_message(e)),
    {
        self.stage = TaskStage::Done;
        TaskStep::Finished(fail(self.action.clone(), e))
    }

    /// Waits before the next probe, twice as long as before, at most 500 ms.
    fn wait_again(&mut self) -> (r: TaskStep)
        requires
            !(old(self).action is Click),
            old(self).delay_ms <= 500,
        ensures
            final(self).wf(),
            final(self).action == old(self).action,
            final(self).timeout_ms == old(self).timeout_ms,
            final(self).stage == TaskStage::Sleeping,
            final(self).delay_ms == if 2 * old(self).delay_ms < 500 { 2 * old(self).delay_ms } else { 500 },
            r == TaskStep::Run(TaskCommand::Sleep { ms: final(self).delay_ms }),
    {
        self.delay_ms = next_retry_delay(self.delay_ms);
        self.stage = TaskStage::Sleeping;
        TaskStep::Run(TaskCommand::Sleep { ms: self.delay_ms })
    }

    fn on_probe(&mut self, event: TaskEvent) -> (r: TaskStep)
        requires
            old(self).wf(),
            old(self).stage == TaskStage::FirstCheck || old(self).stage == TaskStage::Timer || old(self).stage
                == TaskStage::Sleeping || old(self).stage == TaskStage::Detecting || old(self).stage
                == TaskStage::Checking,
        ensures
            final(self).wf(),
            final(self).action == old(self).action,
            final(self).timeout_ms == old(self).timeout_ms,
            probe_step(*old(self), *final(self), event, r),
            r is Run ==> final(self).stage != TaskStage::Idle && final(self).stage != TaskStage::Done,
    {
        let stage = self.stage;
        match event {
            TaskEvent::Failed(e) => self.give_up(e),
            TaskEvent::Ready(true) => {
                if stage == TaskStage::FirstCheck || stage == TaskStage::Checking {
                    self.fill_candidate()
                } else {
                    self.give_up(crate::flow::protocol_error())
                }
            },
            TaskEvent::Ready(false) => {
                if stage == TaskStage::FirstCheck {
                    self.after_first_miss()
                } else if stage == TaskStage::Checking {
                    self.wait_again()
                } else {
                    self.give_up(crate::flow::protocol_error())
                }
            },
            TaskEvent::TimerStarted => {
                if stage == TaskStage::Timer {
                    self.delay_ms = FIRST_RETRY_DELAY_MS;
                    self.stage = TaskStage::Sleeping;
                    TaskStep::Run(TaskCommand::Sleep { ms: FIRST_RETRY_DELAY_MS })
                } else {
                    self.give_up(crate::flow::protocol_error())
                }
            },
            TaskEvent::Elapsed(t) => {
                if stage != TaskStage::Sleeping {
                    return self.give_up(crate::flow::protocol_error());
                }
                if t >= self.timeout_ms {
                    let e = field_timed_out(self.timeout_ms, self.identifier());
                    return self.give_up(e);
                }
                self.stage = TaskStage::Detecting;
                TaskStep::Run(TaskCommand::DetectFields)
            },
            TaskEvent::Fields(fields) => {
                if stage != TaskStage::Detecting {
                    return self.give_up(crate::flow::protocol_error());
                }
                proof {
                    crate::validate::lemma_first_matching_props(fields@, action_identifier(self.action));
                }
                let found = resolve_field(fields.as_slice(), self.identifier());
                match found {
                    Some(f) => {
                        let selector = f.selector.clone();
                        self.candidate = Some(f.clone());
                        self.stage = TaskStage::Checking;
                        TaskStep::Run(TaskCommand::CheckReady { selector })
                    },
                    None => self.wait_again(),
                }
            },
            _ => self.give_up(crate::flow::protocol_error()),
        }
    }

    fn on_fill(&mut self, event: TaskEvent) -> (r: TaskStep)
        requires
            old(self).wf(),
            old(self).stage == TaskStage::Filling,
        ensures
            final(self).wf(),
            final(self).action == old(self).action,
            final(self).timeout_ms == old(self).timeout_ms,
            fill_outcome_step(*old(self), event, r),
    {
        self.stage = TaskStage::Done;
        let kind = match &self.candidate {
            Some(f) => f.field_type.clone(),
            None => FormFieldType::Unknown,
        };
        let reported = redact_if_password(self.action.clone(), &kind);
        match event {
            TaskEvent::Filled => TaskStep::Finished(finish(reported, Ok(()))),
            TaskEvent::Failed(e) => TaskStep::Finished(finish(reported, Err(e))),
            _ => TaskStep::Finished(fail(reported, crate::flow::protocol_error())),
        }
    }

    fn on_click(&mut self, event: TaskEvent) -> (r: TaskStep)
        requires
            old(self).wf(),
            old(self).stage == TaskStage::Clicking,
        ensures
            final(self).wf(),
            final(self).action == old(self).action,
            final(self).timeout_ms == old(self).timeout_ms,
            click_step(*old(self), *final(self), event, r),
            r is Run ==> final(self).stage == TaskStage::Clicking,
    {
        let ev = match event {
            TaskEvent::Search(ev) => ev,
            TaskEvent::Failed(e) => SearchEvent::Failed(e),
            _ => {
                self.stage = TaskStage::Done;
                return TaskStep::Finished(fail(self.action.clone(), crate::flow::protocol_error()));
            },
        };
        match self.search.advance(ev) {
            SearchStep::Run(c) => TaskStep::Run(TaskCommand::Search(c)),
            SearchStep::Finished(Ok(_)) => {
                self.stage = TaskStage::Done;
                TaskStep::Finished(finish(self.action.clone(), Ok(())))
            },
            SearchStep::Finished(Err(e)) => {
                self.stage = TaskStage::Done;
                TaskStep::Finished(finish(self.action.clone(), Err(e)))
            },
        }
    }

    /// The step after the outcome of the awaited operation, as
    /// `task_advance` describes it.
    pub fn advance(&mut self, event: TaskEvent) -> (r: TaskStep)
        requires
            old(self).wf(),
            old(self).stage != TaskStage::Idle,
            old(self).stage != TaskStage::Done,
        ensures
            task_advance(*old(self), event, *final(self), r),
    {
        let stage = self.stage;
        if stage == TaskStage::Filling {
            return self.on_fill(event);
        }
        if stage == TaskStage::Clicking {
            return self.on_click(event);
        }
        self.on_probe(event)
    }
}

/// One step of an action, as `ActionTask::advance` takes it: the action
/// stays well formed with its action and timeout, each command leaves it
/// waiting on that command, and it proceeds as `probe_step`,
/// `fill_outcome_step` and `click_step` describe for the stage it is in.
pub open spec fn task_advance(old: ActionTask, event: TaskEvent, new: ActionTask, r: TaskStep) -> bool {
    &&& new.wf()
    &&& new.action == old.action
    &&& new.timeout_ms == old.timeout_ms
    &&& r is Run ==> new.stage != TaskStage::Idle && new.stage != TaskStage::Done
    &&& old.stage == TaskStage::Filling ==> fill_outcome_step(old, event, r)
    &&& old.stage == TaskStage::Clicking ==> click_step(old, new, event, r)
    &&& old.stage != TaskStage::Filling && old.stage != TaskStage::Clicking ==> probe_step(old, new, event, r)
}

/// A result of action task `t`: success exactly when there is no error, and
/// the action reported as it was given, but for the fill of a password
/// control, which is reported with its value hidden.
pub open spec fn task_result(t: ActionTask, res: ActionResult) -> bool {
    &&& res.success <==> res.error is None
    &&& if t.stage == TaskStage::Filling {
        reported_action(res.action, t.action, t.candidate->Some_0.field_type)
    } else {
        res.action == t.action
    }
}

/// Every result an action step gives is one `task_result` describes.
pub proof fn law_task_step(old: ActionTask, event: TaskEvent, new: ActionTask, r: TaskStep)
    requires
        old.wf(),
        old.stage != TaskStage::Idle,
        old.stage != TaskStage::Done,
        task_advance(old, event, new, r),
    ensures
        r matches TaskStep::Finished(res) ==> task_result(old, res),
{
}

/// A field action whose field is found ready puts into that field exactly
/// what the action asks for: a fill its text, a select its option, a check
/// the very state `checked` it names (ticked for `true`, unticked for
/// `false`).
pub proof fn law_task_fills_requested_value(old: ActionTask, new: ActionTask, r: TaskStep)
    requires
        old.wf(),
        old.stage == TaskStage::FirstCheck || old.stage == TaskStage::Checking,
        task_advance(old, TaskEvent::Ready(true), new, r),
    ensures
        r matches TaskStep::Run(TaskCommand::Fill { selector, value }) && selector == old.candidate->Some_0.selector
            && match old.action {
            PageAction::Fill { value: text, .. } => value == FieldValue::Text(text),
            PageAction::Select { value: option, .. } => value == FieldValue::Selected(option),
            PageAction::Check { checked, .. } => value == FieldValue::Checked(checked),
            PageAction::Click { .. } => false,
        },
{
}

/// A run of an action after it began: `states[i]` takes `events[i]`,
/// answers `steps[i]` and becomes `states[i + 1]`; every step but the last
/// asks for another operation.
pub open spec fn task_run(states: Seq<ActionTask>, events: Seq<TaskEvent>, steps: Seq<TaskStep>) -> bool {
    &&& states.len() == events.len() + 1
    &&& steps.len() == events.len()
    &&& forall|i: int| 0 <= i < steps.len() ==> task_advance(states[i], events[i], states[i + 1], #[trigger] steps[i])
    &&& forall|i: int| 0 <= i < steps.len() - 1 ==> (#[trigger] steps[i]) is Run
}

/// Over a whole run of an action: the action never changes, and its result
/// reports it with success exactly when there is no error; the action is
/// reported as given, but for a fill into a password control, which is
/// reported as the same fill with the value "[REDACTED]", so the value typed
/// into a password field never appears in the result.
pub proof fn law_task_run(states: Seq<ActionTask>, events: Seq<TaskEvent>, steps: Seq<TaskStep>)
    requires
        task_run(states, events, steps),
        states[0].wf(),
        states[0].stage != TaskStage::Idle,
        states[0].stage != TaskStage::Done,
    ensures
        forall|i: int| 0 <= i < states.len() ==> (#[trigger] states[i]).action == states[0].action,
        forall|i: int|
            0 <= i < steps.len() ==> (#[trigger] steps[i] matches TaskStep::Finished(res) ==> task_result(
                states[i],
                res,
            )),
        forall|i: int|
            0 <= i < steps.len() ==> (#[trigger] steps[i] matches TaskStep::Finished(res) ==> {
                &&& res.success <==> res.error is None
                &&& res.action == states[0].action || (states[0].action is Fill && res.action is Fill
                    && res.action->Fill_identifier == states[0].action->Fill_identifier
                    && res.action->Fill_value@ == "[REDACTED]"@)
                &&& (states[i].stage == TaskStage::Filling && states[0].action is Fill
                    && states[i].candidate->Some_0.field_type == FormFieldType::Password)
                    ==> res.action->Fill_value@ == "[REDACTED]"@
            }),
{
    assert forall|i: int| 0 <= i < states.len() implies {
        &&& (#[trigger] states[i]).action == states[0].action
        &&& states[i].wf()
        &&& (i < steps.len() ==> states[i].stage != TaskStage::Idle && states[i].stage != TaskStage::Done)
    } by {
        lemma_task_run_state(states, events, steps, i);
    }
    assert forall|i: int| 0 <= i < steps.len() implies (#[trigger] steps[i] matches TaskStep::Finished(res)
        ==> task_result(states[i], res)) by {
        assert(states[i].wf());
        law_task_step(states[i], events[i], states[i + 1], steps[i]);
    }
}

proof fn lemma_task_run_state(states: Seq<ActionTask>, events: Seq<TaskEvent>, steps: Seq<TaskStep>, i: int)
    requires
        task_run(states, events, steps),
        states[0].wf(),
        states[0].stage != TaskStage::Idle,
        states[0].stage != TaskStage::Done,
        0 <= i < states.len(),
    ensures
        states[i].action == states[0].action,
        states[i].wf(),
        i < steps.len() ==> states[i].stage != TaskStage::Idle && states[i].stage != TaskStage::Done,
    decreases i,
{
    if i > 0 {
        lemma_task_run_state(states, events, steps, i - 1);
        assert(task_advance(states[i - 1], events[i - 1], states[i], steps[i - 1]));
        if i < steps.len() {
            assert(steps[i - 1] is Run);
        }
    }
}

/// The pause before probing again after the `k`-th miss: 100 ms, doubled
/// each time, at most 500 ms.
pub open spec fn retry_delay(k: nat) -> u64
    decreases k,
{
    if k == 0 {
        FIRST_RETRY_DELAY_MS
    } else {
        let d = retry_delay((k - 1) as nat);
        if 2 * d < 500 {
            (2 * d) as u64
        } else {
            500
        }
    }
}

/// How many of the first `i` steps are pauses.
pub open spec fn sleeps_before(steps: Seq<TaskStep>, i: int) -> nat
    decreases i,
{
    if i <= 0 {
        0
    } else {
        sleeps_before(steps, i - 1) + if steps[i - 1] matches TaskStep::Run(TaskCommand::Sleep { .. }) {
            1nat
        } else {
            0nat
        }
    }
}

/// Where a field action's wait stands after `c` pauses: before the first
/// pause it is still at its first probe or starting its timer; after it, the
/// last pause was `retry_delay(c - 1)`.
pub open spec fn wait_state(t: ActionTask, c: nat) -> bool {
    &&& t.stage != TaskStage::Clicking
    &&& (t.stage == TaskStage::FirstCheck || t.stage == TaskStage::Timer) ==> c == 0
    &&& (t.stage == TaskStage::Sleeping || t.stage == TaskStage::Detecting || t.stage == TaskStage::Checking)
        ==> c > 0 && t.delay_ms == retry_delay((c - 1) as nat)
}

proof fn lemma_retry_delay_bound(k: nat)
    ensures
        retry_delay(k) <= 500,
        k >= 1 ==> retry_delay(k) == (if 2 * retry_delay((k - 1) as nat) < 500 {
            2 * retry_delay((k - 1) as nat)
        } else {
            500
        }),
    decreases k,
{
    if k > 0 {
        lemma_retry_delay_bound((k - 1) as nat);
    }
}

/// The pauses run 100, 200 and 400 ms, then 500 ms each.
pub proof fn law_retry_delays(k: nat)
    ensures
        retry_delay(0) == 100,
        retry_delay(1) == 200,
        retry_delay(2) == 400,
        k >= 3 ==> retry_delay(k) == 500,
    decreases k,
{
    reveal_with_fuel(retry_delay, 4);
    if k > 3 {
        law_retry_delays((k - 1) as nat);
    }
}

proof fn lemma_wait_step(old: ActionTask, event: TaskEvent, new: ActionTask, r: TaskStep, c: nat)
    requires
        old.wf(),
        old.stage != TaskStage::Idle,
        old.stage != TaskStage::Done,
        task_advance(old, event, new, r),
        wait_state(old, c),
    ensures
        r matches TaskStep::Run(TaskCommand::Sleep { ms }) ==> ms == retry_delay(c),
        r is Run ==> wait_state(
            new,
            c + if r matches TaskStep::Run(TaskCommand::Sleep { .. }) {
                1nat
            } else {
                0nat
            },
        ),
{
    lemma_retry_delay_bound(c);
    lemma_retry_delay_bound(c + 1);
}

proof fn lemma_wait_run(states: Seq<ActionTask>, events: Seq<TaskEvent>, steps: Seq<TaskStep>, i: int)
    requires
        task_run(states, events, steps),
        states[0].wf(),
        states[0].stage == TaskStage::FirstCheck || states[0].stage == TaskStage::Timer,
        0 <= i < states.len(),
    ensures
        states[i].wf(),
        states[i].timeout_ms == states[0].timeout_ms,
        i < steps.len() ==> states[i].stage != TaskStage::Idle && states[i].stage != TaskStage::Done,
        i < steps.len() ==> wait_state(states[i], sleeps_before(steps, i)),
    decreases i,
{
    if i > 0 {
        lemma_wait_run(states, events, steps, i - 1);
        assert(task_advance(states[i - 1], events[i - 1], states[i], steps[i - 1]));
        if i < steps.len() {
            assert(steps[i - 1] is Run);
            lemma_wait_step(states[i - 1], events[i - 1], states[i], steps[i - 1], sleeps_before(steps, i - 1));
        }
    }
}

/// Waiting for a field over a whole run of a field action: the `k`-th pause
/// lasts `retry_delay(k)` (100, 200, 400, then 500 ms), and after a pause
/// the wait gives up exactly when the time reported since it began has
/// reached the timeout.
pub proof fn law_task_retry(states: Seq<ActionTask>, events: Seq<TaskEvent>, steps: Seq<TaskStep>)
    requires
        task_run(states, events, steps),
        states[0].wf(),
        states[0].stage == TaskStage::FirstCheck || states[0].stage == TaskStage::Timer,
    ensures
        forall|i: int|
            0 <= i < steps.len() ==> (#[trigger] steps[i] matches TaskStep::Run(TaskCommand::Sleep { ms }) ==> ms
                == retry_delay(sleeps_before(steps, i))),
        forall|i: int|
            0 <= i < steps.len() && states[i].stage == TaskStage::Sleeping ==> (#[trigger] events[i] matches TaskEvent::Elapsed(
                t,
            ) ==> (steps[i] is Finished <==> t >= states[0].timeout_ms)),
{
    assert forall|i: int| 0 <= i < steps.len() implies {
        &&& (#[trigger] steps[i] matches TaskStep::Run(TaskCommand::Sleep { ms }) ==> ms == retry_delay(
            sleeps_before(steps, i),
        ))
        &&& (states[i].stage == TaskStage::Sleeping ==> (events[i] matches TaskEvent::Elapsed(t) ==> (steps[i] is Finished
            <==> t >= states[0].timeout_ms)))
    } by {
        lemma_wait_run(states, events, steps, i);
        lemma_wait_step(states[i], events[i], states[i + 1], steps[i], sleeps_before(steps, i));
    }
}

/// Waiting for the field: a ready field is filled; a field that is missing
/// or disabled at first is waited for (unless no wait is allowed), probing
/// again after pauses of 100 ms, doubling to at most 500 ms, until the time
/// since the wait began reaches the timeout. A failure ends the action with
/// that error.
pub open spec fn probe_step(old: ActionTask, new: ActionTask, event: TaskEvent, r: TaskStep) -> bool {
    let id = action_identifier(old.action);
    match event {
        TaskEvent::Failed(e) => r matches TaskStep::Finished(res) && failed_with(res, old.action, error_message(e)),
        TaskEvent::Ready(ready) => if ready && (old.stage == TaskStage::FirstCheck || old.stage
            == TaskStage::Checking) {
            r == TaskStep::Run(
                TaskCommand::Fill { selector: old.candidate->Some_0.selector, value: action_value(old.action) },
            ) && new.stage == TaskStage::Filling && new.candidate == old.candidate
        } else if !ready && old.stage == TaskStage::FirstCheck {
            if old.timeout_ms == 0 {
                r matches TaskStep::Finished(res) && failed_with(res, old.action, not_ready_message(id))
            } else {
                r == TaskStep::Run(TaskCommand::StartTimer) && new.stage == TaskStage::Timer
            }
        } else if !ready && old.stage == TaskStage::Checking {
            &&& new.delay_ms == if 2 * old.delay_ms < 500 { 2 * old.delay_ms } else { 500 }
            &&& r == TaskStep::Run(TaskCommand::Sleep { ms: new.delay_ms })
            &&& new.stage == TaskStage::Sleeping
        } else {
            r matches TaskStep::Finished(res) && failed_with(res, old.action, protocol_message())
        },
        TaskEvent::TimerStarted => if old.stage == TaskStage::Timer {
            r == TaskStep::Run(TaskCommand::Sleep { ms: FIRST_RETRY_DELAY_MS }) && new.delay_ms
                == FIRST_RETRY_DELAY_MS && new.stage == TaskStage::Sleeping
        } else {
            r matches TaskStep::Finished(res) && failed_with(res, old.action, protocol_message())
        },
        TaskEvent::Elapsed(t) => if old.stage != TaskStage::Sleeping {
            r matches TaskStep::Finished(res) && failed_with(res, old.action, protocol_message())
        } else if t >= old.timeout_ms {
            r matches TaskStep::Finished(res) && failed_with(res, old.action, timed_out_message(old.timeout_ms, id))
        } else {
            r == TaskStep::Run(TaskCommand::DetectFields) && new.stage == TaskStage::Detecting && new.delay_ms
                == old.delay_ms
        },
        TaskEvent::Fields(fields) => if old.stage != TaskStage::Detecting {
            r matches TaskStep::Finished(res) && failed_with(res, old.action, protocol_message())
        } else {
            match first_matching(fields@, id) {
                Some(k) => r == TaskStep::Run(TaskCommand::CheckReady { selector: fields@[k].selector })
                    && new.stage == TaskStage::Checking && new.delay_ms == old.delay_ms && (
                new.candidate matches Some(f) && same_control(f, fields@[k])),
                None => {
                    &&& new.delay_ms == if 2 * old.delay_ms < 500 { 2 * old.delay_ms } else { 500 }
                    &&& r == TaskStep::Run(TaskCommand::Sleep { ms: new.delay_ms })
                    &&& new.stage == TaskStage::Sleeping
                },
            }
        },
        _ => r matches TaskStep::Finished(res) && failed_with(res, old.action, protocol_message()),
    }
}

/// The fill's outcome is the action's result; a fill of a password field is
/// reported with its value hidden.
pub open spec fn fill_outcome_step(old: ActionTask, event: TaskEvent, r: TaskStep) -> bool {
    let kind = old.candidate->Some_0.field_type;
    &&& r matches TaskStep::Finished(res)
    &&& reported_action(r->Finished_0.action, old.action, kind)
    &&& match event {
        TaskEvent::Filled => r->Finished_0.success && r->Finished_0.error is None,
        TaskEvent::Failed(e) => !r->Finished_0.success && (r->Finished_0.error matches Some(m) && m@
            == error_message(e)),
        _ => !r->Finished_0.success && (r->Finished_0.error matches Some(m) && m@ == protocol_message()),
    }
}

/// A click runs its button search; the search's outcome is the action's result.
pub open spec fn click_step(old: ActionTask, new: ActionTask, event: TaskEvent, r: TaskStep) -> bool {
    let not_found = "Button not found: '"@ + crate::button::not_found_message(old.search.button_id, old.search.label)
        + "'"@;
    match event {
        TaskEvent::Search(SearchEvent::Failed(e)) | TaskEvent::Failed(e) => r matches TaskStep::Finished(res)
            && reports(res, old.action, Err(e)),
        TaskEvent::Search(ev) => match (old.search.stage, ev) {
            (SearchStage::Settle, SearchEvent::Waited) => r matches TaskStep::Finished(res) && reports(
                res,
                old.action,
                Ok(()),
            ),
            (SearchStage::ById, SearchEvent::IdClicked(Some(_))) | (
                SearchStage::ByLabel,
                SearchEvent::LabelClicked(Some(_)),
            ) => r == TaskStep::Run(TaskCommand::Search(SearchCommand::Wait { ms: crate::button::CLICK_SETTLE_MS }))
                && new.search.stage == SearchStage::Settle,
            (SearchStage::ById, SearchEvent::IdClicked(None)) => match old.search.label {
                Some(l) => r == TaskStep::Run(TaskCommand::Search(SearchCommand::ClickByLabel { label: l }))
                    && new.search.stage == SearchStage::ByLabel,
                None => r matches TaskStep::Finished(res) && failed_with(res, old.action, not_found),
            },
            (SearchStage::ByLabel, SearchEvent::LabelClicked(None)) => r matches TaskStep::Finished(res)
                && failed_with(res, old.action, not_found),
            _ => r matches TaskStep::Finished(res) && failed_with(res, old.action, protocol_message()),
        },
        _ => r matches TaskStep::Finished(res) && failed_with(res, old.action, protocol_message()),
    }
}

} // verus!
