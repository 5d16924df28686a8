//! Filling a form: the protocol behind the form-filling tool.
use vstd::prelude::*;
use crate::flow::{
    is_protocol_error, setup_after, setup_command, setup_rank, BrowserCommand, BrowserEvent, FlowStep,
    Setup, SetupStage, SetupStep,
};
use crate::form::{
    FieldInput, FieldPreview, FieldValue, FilledField, FormField, FormFieldType, FormFillResult,
    FormPreview, FormStep,
};
use crate::parse::{extract_text, is_page_text};
use crate::validate::{first_matching, input_problem, input_valid, resolve_field, validate_inputs};

verus! {

/// The wait before the first read of the page.
pub const FILL_PAGE_WAIT_MS: u64 = 1500;

/// The wait after a click or a submit before reading the page.
pub const AFTER_SUBMIT_WAIT_MS: u64 = 1000;

/// Where a fill stands: the command whose outcome is awaited.
#[derive(Debug, Clone, Copy, PartialEq, Eq, Structural)]
pub enum FillStage {
    Idle,
    Setup,
    Detect,
    Preview(usize),
    Fill(usize),
    Click,
    ReadAfterClick,
    DetectAfterClick,
    Submit,
    ReadAfterSubmit,
    Done,
}

/// Filling a form: open the page, detect its fields, check the inputs, then
/// either read the current values (dry run) or fill each input in order, and
/// finally click a continuation button or submit the form when asked.
pub struct FillFlow {
    pub setup: Setup,
    pub inputs: Vec<FieldInput>,
    pub auto_submit: bool,
    pub submit_button_label: Option<String>,
    pub dry_run: bool,
    pub stage: FillStage,
    pub detected: Ghost<Seq<FormField>>,
    pub selectors: Vec<String>,
    pub kinds: Vec<FormFieldType>,
    pub entries: Vec<FieldPreview>,
    pub filled: Vec<FilledField>,
}

/// The first `k` filled fields are the first `k` inputs with their fields' kinds.
pub open spec fn filled_matches(filled: Seq<FilledField>, inputs: Seq<FieldInput>, kinds: Seq<FormFieldType>, k: int) -> bool {
    &&& filled.len() == k
    &&& forall|i: int|
        0 <= i < k ==> #[trigger] filled[i] == FilledField {
            identifier: inputs[i].identifier,
            field_type: kinds[i],
            value: inputs[i].value,
        }
}

/// The first `k` preview entries describe the first `k` inputs.
pub open spec fn entries_match(entries: Seq<FieldPreview>, inputs: Seq<FieldInput>, kinds: Seq<FormFieldType>, k: int) -> bool {
    &&& entries.len() == k
    &&& forall|i: int|
        0 <= i < k ==> {
            &&& (#[trigger] entries[i]).identifier == inputs[i].identifier
            &&& entries[i].field_type == kinds[i]
            &&& entries[i].planned_value == inputs[i].value
        }
}

/// The preview entry of input `k` when its control currently holds `v`.
pub open spec fn preview_entry(f: FillFlow, k: int, v: Option<String>) -> FieldPreview {
    FieldPreview {
        identifier: f.inputs@[k].identifier,
        field_type: f.kinds@[k],
        current_value: v,
        planned_value: f.inputs@[k].value,
    }
}

/// The step after the last input was filled: a click on the continuation
/// button when one is named, else a submit when asked, else the result.
pub open spec fn tail_step(old: FillFlow, r: FlowStep<FormFillResult>) -> bool {
    &&& (old.submit_button_label matches Some(l) ==> r == FlowStep::<FormFillResult>::Run(
        BrowserCommand::ClickButton { label: l },
    ))
    &&& (old.submit_button_label is None && old.auto_submit ==> r == FlowStep::<FormFillResult>::Run(
        BrowserCommand::SubmitForm,
    ))
    &&& (old.submit_button_label is None && !old.auto_submit ==> (r matches FlowStep::Finished(Ok(res))
        && filled_matches(res.fields_filled@, old.inputs@, old.kinds@, old.inputs@.len() as int)
        && !res.submitted && res.page_text_after is None && res.next_step is None && res.preview is None))
}

/// How far a fill has come: each command it issues moves this forward, and
/// it never exceeds `10 + inputs`, so a fill ends after a bounded number of
/// browser operations.
pub open spec fn fill_progress(f: FillFlow) -> int {
    let n = f.inputs@.len() as int;
    match f.stage {
        FillStage::Idle => 0,
        FillStage::Setup => setup_rank(f.setup.stage),
        FillStage::Detect => 6,
        FillStage::Preview(k) => 7 + k,
        FillStage::Fill(k) => 7 + k,
        FillStage::Click | FillStage::Submit => 7 + n,
        FillStage::ReadAfterClick | FillStage::ReadAfterSubmit => 8 + n,
        FillStage::DetectAfterClick => 9 + n,
        FillStage::Done => 10 + n,
    }
}

/// The stage after the last input was filled, as `tail_step` goes on.
pub open spec fn tail_stage(old: FillFlow, new: FillFlow) -> bool {
    &&& old.submit_button_label is Some ==> new.stage == FillStage::Click
    &&& old.submit_button_label is None && old.auto_submit ==> new.stage == FillStage::Submit
    &&& old.submit_button_label is None && !old.auto_submit ==> new.stage == FillStage::Done
}

impl FillFlow {
    /// The field each input resolved to, by selector and kind.
    pub open spec fn targets_resolved(&self) -> bool {
        &&& self.selectors@.len() == self.inputs@.len()
        &&& self.kinds@.len() == self.inputs@.len()
        &&& forall|i: int|
            0 <= i < self.inputs@.len() ==> {
                let k = first_matching(self.detected@, (#[trigger] self.inputs@[i]).identifier@);
                &&& k is Some
                &&& 0 <= k->Some_0 < self.detected@.len()
                &&& self.selectors@[i] == self.detected@[k->Some_0].selector
                &&& self.kinds@[i] == self.detected@[k->Some_0].field_type
            }
    }

    /// The flow's bookkeeping agrees with its stage.
    pub open spec fn wf(&self) -> bool {
        &&& self.setup.wait_ms == FILL_PAGE_WAIT_MS
        &&& (self.stage == FillStage::Idle ==> self.setup.stage == SetupStage::Idle)
        &&& (self.stage == FillStage::Setup ==> setup_rank(self.setup.stage) >= 1 && setup_rank(self.setup.stage) <= 5)
        &&& match self.stage {
            FillStage::Preview(k) => {
                &&& self.dry_run
                &&& self.targets_resolved()
                &&& k < self.inputs@.len()
                &&& entries_match(self.entries@, self.inputs@, self.kinds@, k as int)
            },
            FillStage::Fill(k) => {
                &&& !self.dry_run
                &&& self.targets_resolved()
                &&& k < self.inputs@.len()
                &&& filled_matches(self.filled@, self.inputs@, self.kinds@, k as int)
            },
            FillStage::Click | FillStage::ReadAfterClick | FillStage::DetectAfterClick => {
                &&& !self.dry_run
                &&& self.submit_button_label is Some
                &&& self.targets_resolved()
                &&& filled_matches(self.filled@, self.inputs@, self.kinds@, self.inputs@.len() as int)
            },
            FillStage::Submit | FillStage::ReadAfterSubmit => {
                &&& !self.dry_run
                &&& self.submit_button_label is None
                &&& self.auto_submit
                &&& self.targets_resolved()
                &&& filled_matches(self.filled@, self.inputs@, self.kinds@, self.inputs@.len() as int)
            },
            _ => true,
        }
    }

    /// A fill of `inputs` that has not begun.
    pub fn new(
        inputs: Vec<FieldInput>,
        auto_submit: bool,
        submit_button_label: Option<String>,
        dry_run: bool,
        cookies: bool,
        headers: bool,
    ) -> (r: Self)
        ensures
            r.wf(),
            r.stage == FillStage::Idle,
            r.inputs == inputs,
            r.auto_submit == auto_submit,
            r.submit_button_label == submit_button_label,
            r.dry_run == dry_run,
            r.setup.cookies == cookies,
            r.setup.headers == headers,
    {
        FillFlow {
            setup: Setup::new(cookies, headers, FILL_PAGE_WAIT_MS),
            inputs,
            auto_submit,
            submit_button_label,
            dry_run,
            stage: FillStage::Idle,
            detected: Ghost(Seq::empty()),
            selectors: Vec::new(),
            kinds: Vec::new(),
            entries: Vec::new(),
            filled: Vec::new(),
        }
    }

    /// The first command: start the browser.
    pub fn begin(&mut self) -> (c: BrowserCommand)
        requires
            old(self).wf(),
            old(self).stage == FillStage::Idle,
        ensures
            final(self).wf(),
            c == BrowserCommand::Start,
            final(self).stage == FillStage::Setup,
            crate::flow::setup_started(old(self).setup, final(self).setup),
            final(self).inputs == old(self).inputs,
            final(self).same_request(old(self)),
    {
        self.stage = FillStage::Setup;
        self.setup.begin()
    }

    /// After the last input was filled: click the continuation button, else
    /// submit, else finish.
    fn after_fills(&mut self) -> (r: FlowStep<FormFillResult>)
        requires
            old(self).targets_resolved(),
            !old(self).dry_run,
            old(self).setup.wait_ms == FILL_PAGE_WAIT_MS,
            filled_matches(old(self).filled@, old(self).inputs@, old(self).kinds@, old(self).inputs@.len() as int),
        ensures
            final(self).wf(),
            final(self).inputs == old(self).inputs,
            final(self).auto_submit == old(self).auto_submit,
            final(self).submit_button_label == old(self).submit_button_label,
            final(self).dry_run == old(self).dry_run,
            final(self).kinds == old(self).kinds,
            final(self).selectors == old(self).selectors,
            final(self).detected == old(self).detected,
            old(self).submit_button_label matches Some(l) ==> (r == FlowStep::<FormFillResult>::Run(
                BrowserCommand::ClickButton { label: l },
            ) && final(self).stage == FillStage::Click),
            old(self).submit_button_label is None && old(self).auto_submit ==> (r == FlowStep::<
                FormFillResult,
            >::Run(BrowserCommand::SubmitForm) && final(self).stage == FillStage::Submit),
            old(self).submit_button_label is None && !old(self).auto_submit ==> final(self).stage
                == FillStage::Done,
            tail_step(*old(self), r),
    {
        let lbl = crate::form::clone_opt_string(&self.submit_button_label);
        if let Some(label) = lbl {
            self.stage = FillStage::Click;
            return FlowStep::Run(BrowserCommand::ClickButton { label });
        }
        if self.auto_submit {
            self.stage = FillStage::Submit;
            return FlowStep::Run(BrowserCommand::SubmitForm);
        }
        self.stage = FillStage::Done;
        let mut fields_filled: Vec<FilledField> = Vec::new();
        std::mem::swap(&mut fields_filled, &mut self.filled);
        FlowStep::Finished(
            Ok(
                FormFillResult {
                    fields_filled,
                    submitted: false,
                    page_text_after: None,
                    next_step: None,
                    preview: None,
                },
            ),
        )
    }

    /// Resolves every (validated) input to its field.
    fn resolve_targets(&mut self, fields: &Vec<FormField>)
        requires
            forall|i: int| 0 <= i < old(self).inputs@.len() ==> input_valid(fields@, #[trigger] old(self).inputs@[i]),
        ensures
            final(self).inputs == old(self).inputs,
            final(self).auto_submit == old(self).auto_submit,
            final(self).submit_button_label == old(self).submit_button_label,
            final(self).dry_run == old(self).dry_run,
            final(self).setup == old(self).setup,
            final(self).stage == old(self).stage,
            final(self).detected@ == fields@,
            final(self).targets_resolved(),
            final(self).entries@.len() == 0,
            final(self).filled@.len() == 0,
    {
        self.detected = Ghost(fields@);
        self.selectors = Vec::new();
        self.kinds = Vec::new();
        self.entries = Vec::new();
        self.filled = Vec::new();
        let n = self.inputs.len();
        for i in 0..n
            invariant
                n == self.inputs@.len(),
                self.detected@ == fields@,
                self.selectors@.len() == i,
                self.kinds@.len() == i,
                self.entries@.len() == 0,
                self.filled@.len() == 0,
                self.inputs == old(self).inputs,
                self.auto_submit == old(self).auto_submit,
                self.submit_button_label == old(self).submit_button_label,
                self.dry_run == old(self).dry_run,
                self.setup == old(self).setup,
                self.stage == old(self).stage,
                forall|j: int| 0 <= j < n ==> input_valid(fields@, #[trigger] self.inputs@[j]),
                forall|j: int|
                    0 <= j < i ==> {
                        let k = first_matching(self.detected@, (#[trigger] self.inputs@[j]).identifier@);
                        &&& k is Some
                        &&& 0 <= k->Some_0 < self.detected@.len()
                        &&& self.selectors@[j] == self.detected@[k->Some_0].selector
                        &&& self.kinds@[j] == self.detected@[k->Some_0].field_type
                    },
        {
            assert(input_valid(fields@, self.inputs@[i as int]));
            let f = match resolve_field(fields.as_slice(), self.inputs[i].identifier.as_str()) {
                Some(f) => f,
                None => {
                    assert(false);
                    return ;
                },
            };
            proof {
                crate::validate::lemma_first_matching_props(fields@, self.inputs@[i as int].identifier@);
            }
            self.selectors.push(f.selector.clone());
            self.kinds.push(f.field_type.clone());
        }
    }

    /// The command for input `k`: read its current value (dry run) or fill it.
    pub open spec fn input_command(&self, k: int) -> BrowserCommand {
        if self.dry_run {
            BrowserCommand::ReadFieldValue { selector: self.selectors@[k] }
        } else {
            BrowserCommand::FillField { selector: self.selectors@[k], value: self.inputs@[k].value }
        }
    }

    /// The fill's parameters are unchanged.
    pub open spec fn same_request(&self, other: &FillFlow) -> bool {
        &&& self.inputs == other.inputs
        &&& self.dry_run == other.dry_run
        &&& self.auto_submit == other.auto_submit
        &&& self.submit_button_label == other.submit_button_label
    }

    fn on_setup(&mut self, event: BrowserEvent) -> (r: FlowStep<FormFillResult>)
        requires
            old(self).wf(),
            old(self).stage == FillStage::Setup,
            !(event is Failed),
        ensures
            final(self).wf(),
            final(self).same_request(old(self)),
            setup_step(*old(self), *final(self), event, r),
            r is Run ==> fill_progress(*final(self)) > fill_progress(*old(self)),
    {
        proof {
            if setup_rank(self.setup.stage) <= 4 {
                crate::flow::law_setup_order(self.setup.stage, self.setup.cookies, self.setup.headers);
            }
        }
        match self.setup.advance(event) {
            SetupStep::Run(c) => FlowStep::Run(c),
            SetupStep::Ready(_) => {
                self.stage = FillStage::Detect;
                FlowStep::Run(BrowserCommand::DetectFields)
            },
            SetupStep::Failed(e) => {
                self.stage = FillStage::Done;
                FlowStep::Finished(Err(e))
            },
        }
    }

    fn on_detect(&mut self, event: BrowserEvent) -> (r: FlowStep<FormFillResult>)
        requires
            old(self).wf(),
            old(self).stage == FillStage::Detect,
            !(event is Failed),
        ensures
            final(self).wf(),
            final(self).same_request(old(self)),
            detect_step(*old(self), *final(self), event, r),
            r is Run ==> fill_progress(*final(self)) > fill_progress(*old(self)),
    {
        let fields = match event {
            BrowserEvent::Fields(fields, _) => fields,
            _ => {
                self.stage = FillStage::Done;
                return FlowStep::Finished(Err(crate::flow::protocol_error()));
            },
        };
        match validate_inputs(fields.as_slice(), self.inputs.as_slice()) {
            Err(e) => {
                self.stage = FillStage::Done;
                return FlowStep::Finished(Err(e));
            },
            Ok(()) => {},
        }
        self.resolve_targets(&fields);
        let n = self.inputs.len();
        if n == 0 {
            if self.dry_run {
                self.stage = FillStage::Done;
                return FlowStep::Finished(
                    Ok(
                        FormFillResult {
                            fields_filled: Vec::new(),
                            submitted: false,
                            page_text_after: None,
                            next_step: None,
                            preview: Some(FormPreview { entries: Vec::new() }),
                        },
                    ),
                );
            }
            return self.after_fills();
        }
        if self.dry_run {
            self.stage = FillStage::Preview(0);
            return FlowStep::Run(BrowserCommand::ReadFieldValue { selector: self.selectors[0].clone() });
        }
        self.stage = FillStage::Fill(0);
        FlowStep::Run(
            BrowserCommand::FillField { selector: self.selectors[0].clone(), value: self.inputs[0].value.clone() },
        )
    }

    fn on_preview(&mut self, k: usize, event: BrowserEvent) -> (r: FlowStep<FormFillResult>)
        requires
            old(self).wf(),
            old(self).stage == FillStage::Preview(k),
            !(event is Failed),
        ensures
            final(self).wf(),
            final(self).same_request(old(self)),
            preview_step(*old(self), *final(self), k as int, event, r),
            r is Run ==> fill_progress(*final(self)) > fill_progress(*old(self)),
    {
        let v = match event {
            BrowserEvent::FieldValue(v) => v,
            _ => {
                self.stage = FillStage::Done;
                return FlowStep::Finished(Err(crate::flow::protocol_error()));
            },
        };
        let entry = FieldPreview {
            identifier: self.inputs[k].identifier.clone(),
            field_type: self.kinds[k].clone(),
            current_value: v,
            planned_value: self.inputs[k].value.clone(),
        };
        let n = self.inputs.len();
        self.entries.push(entry);
        proof {
            assert forall|i: int| 0 <= i < k + 1 implies {
                &&& (#[trigger] self.entries@[i]).identifier == self.inputs@[i].identifier
                &&& self.entries@[i].field_type == self.kinds@[i]
                &&& self.entries@[i].planned_value == self.inputs@[i].value
            } by {
                if i < k {
                    assert(self.entries@[i] == old(self).entries@[i]);
                }
            }
        }
        if k + 1 < n {
            self.stage = FillStage::Preview(k + 1);
            return FlowStep::Run(BrowserCommand::ReadFieldValue { selector: self.selectors[k + 1].clone() });
        }
        self.stage = FillStage::Done;
        let mut entries: Vec<FieldPreview> = Vec::new();
        std::mem::swap(&mut entries, &mut self.entries);
        FlowStep::Finished(
            Ok(
                FormFillResult {
                    fields_filled: Vec::new(),
                    submitted: false,
                    page_text_after: None,
                    next_step: None,
                    preview: Some(FormPreview { entries }),
                },
            ),
        )
    }

    #[verifier::rlimit(40)]
    fn on_fill(&mut self, k: usize, event: BrowserEvent) -> (r: FlowStep<FormFillResult>)
        requires
            old(self).wf(),
            old(self).stage == FillStage::Fill(k),
            !(event is Failed),
        ensures
            final(self).wf(),
            final(self).same_request(old(self)),
            fill_step(*old(self), *final(self), k as int, event, r),
            r is Run ==> fill_progress(*final(self)) > fill_progress(*old(self)),
    {
        match event {
            BrowserEvent::Done => {},
            _ => {
                self.stage = FillStage::Done;
                return FlowStep::Finished(Err(crate::flow::protocol_error()));
            },
        }
        let done = FilledField {
            identifier: self.inputs[k].identifier.clone(),
            field_type: self.kinds[k].clone(),
            value: self.inputs[k].value.clone(),
        };
        let n = self.inputs.len();
        self.filled.push(done);
        proof {
            assert forall|i: int| 0 <= i < k + 1 implies #[trigger] self.filled@[i] == FilledField {
                identifier: self.inputs@[i].identifier,
                field_type: self.kinds@[i],
                value: self.inputs@[i].value,
            } by {
                if i < k {
                    assert(self.filled@[i] == old(self).filled@[i]);
                }
            }
        }
        if k + 1 < n {
            self.stage = FillStage::Fill(k + 1);
            return FlowStep::Run(
                BrowserCommand::FillField {
                    selector: self.selectors[k + 1].clone(),
                    value: self.inputs[k + 1].value.clone(),
                },
            );
        }
        self.after_fills()
    }

    fn on_late(&mut self, event: BrowserEvent) -> (r: FlowStep<FormFillResult>)
        requires
            old(self).wf(),
            old(self).stage != FillStage::Setup,
            old(self).stage != FillStage::Detect,
            !(old(self).stage is Preview),
            !(old(self).stage is Fill),
            !(event is Failed),
        ensures
            final(self).wf(),
            final(self).same_request(old(self)),
            late_step(*old(self), *final(self), event, r),
            r is Run ==> fill_progress(*final(self)) > fill_progress(*old(self)),
    {
        let stage = self.stage;
        match (stage, event) {
            (FillStage::Click, BrowserEvent::Done) => {
                self.stage = FillStage::ReadAfterClick;
                FlowStep::Run(BrowserCommand::Read { wait_ms: AFTER_SUBMIT_WAIT_MS })
            },
            (FillStage::ReadAfterClick, BrowserEvent::Html(_)) => {
                self.stage = FillStage::DetectAfterClick;
                FlowStep::Run(BrowserCommand::DetectFields)
            },
            (FillStage::DetectAfterClick, BrowserEvent::Fields(fields, buttons)) => {
                self.stage = FillStage::Done;
                let mut fields_filled: Vec<FilledField> = Vec::new();
                std::mem::swap(&mut fields_filled, &mut self.filled);
                FlowStep::Finished(
                    Ok(
                        FormFillResult {
                            fields_filled,
                            submitted: false,
                            page_text_after: None,
                            next_step: Some(FormStep { fields, buttons }),
                            preview: None,
                        },
                    ),
                )
            },
            (FillStage::Submit, BrowserEvent::Done) => {
                self.stage = FillStage::ReadAfterSubmit;
                FlowStep::Run(BrowserCommand::Read { wait_ms: AFTER_SUBMIT_WAIT_MS })
            },
            (FillStage::ReadAfterSubmit, BrowserEvent::Html(h)) => {
                self.stage = FillStage::Done;
                let text = extract_text(h.as_str());
                let mut fields_filled: Vec<FilledField> = Vec::new();
                std::mem::swap(&mut fields_filled, &mut self.filled);
                FlowStep::Finished(
                    Ok(
                        FormFillResult {
                            fields_filled,
                            submitted: true,
                            page_text_after: Some(text),
                            next_step: None,
                            preview: None,
                        },
                    ),
                )
            },
            _ => {
                self.stage = FillStage::Done;
                FlowStep::Finished(Err(crate::flow::protocol_error()))
            },
        }
    }

    /// The step after the outcome of the awaited command. The first failure
    /// reported ends the fill with that error; otherwise the fill proceeds as
    /// `setup_step`, `detect_step`, `preview_step`, `fill_step` and
    /// `late_step` describe for the stage it is in.
    pub fn advance(&mut self, event: BrowserEvent) -> (r: FlowStep<FormFillResult>)
        requires
            old(self).wf(),
        ensures
            fill_advance(*old(self), event, *final(self), r),
    {
        reveal(fill_advance);
        if let BrowserEvent::Failed(e) = event {
            self.stage = FillStage::Done;
            return FlowStep::Finished(Err(e));
        }
        let stage = self.stage;
        if stage == FillStage::Setup {
            return self.on_setup(event);
        }
        if stage == FillStage::Detect {
            return self.on_detect(event);
        }
        if let FillStage::Preview(k) = stage {
            return self.on_preview(k, event);
        }
        if let FillStage::Fill(k) = stage {
            return self.on_fill(k, event);
        }
        self.on_late(event)
    }
}

/// One step of a fill, as `FillFlow::advance` takes it: the flow stays
/// well formed and keeps its request, each command it issues moves it
/// forward, the first failure reported ends it with that error, and
/// otherwise it proceeds as `setup_step`, `detect_step`, `preview_step`,
/// `fill_step` and `late_step` describe for the stage it is in.
#[verifier::opaque]
pub open spec fn fill_advance(old: FillFlow, event: BrowserEvent, new: FillFlow, r: FlowStep<FormFillResult>) -> bool {
    &&& new.wf()
    &&& new.same_request(&old)
    &&& r is Run ==> fill_progress(new) > fill_progress(old)
    &&& 0 <= fill_progress(new) <= 10 + new.inputs@.len()
    &&& event matches BrowserEvent::Failed(e) ==> (r == FlowStep::<FormFillResult>::Finished(Err(e))
        && new.stage == FillStage::Done)
    &&& !(event is Failed) ==> {
        &&& old.stage == FillStage::Setup ==> setup_step(old, new, event, r)
        &&& old.stage == FillStage::Detect ==> detect_step(old, new, event, r)
        &&& old.stage matches FillStage::Preview(k) ==> preview_step(old, new, k as int, event, r)
        &&& old.stage matches FillStage::Fill(k) ==> fill_step(old, new, k as int, event, r)
        &&& (old.stage != FillStage::Setup && old.stage != FillStage::Detect
            && !(old.stage is Preview) && !(old.stage is Fill)) ==> late_step(old, new, event, r)
    }
}

/// A dry run previews without touching the page: in every state it reaches,
/// a dry run is never filling, and the command it issues for any input reads
/// the control's current value.
pub proof fn law_dry_run_never_fills(f: FillFlow, k: int)
    requires
        f.wf(),
        f.dry_run,
    ensures
        !(f.stage is Fill),
        f.input_command(k) is ReadFieldValue,
{
}

/// Page setup: each completed command leads to the next setup command; the
/// page's HTML leads to field detection.
pub open spec fn setup_step(old: FillFlow, new: FillFlow, event: BrowserEvent, r: FlowStep<FormFillResult>) -> bool {
    &&& crate::flow::setup_moved(old.setup, new.setup, event)
    &&& (event is Done && setup_rank(old.setup.stage) <= 4) ==> {
        &&& r == FlowStep::<FormFillResult>::Run(
            setup_command(setup_after(old.setup.stage, old.setup.cookies, old.setup.headers), FILL_PAGE_WAIT_MS),
        )
        &&& new.stage == FillStage::Setup
    }
    &&& (event is Html && old.setup.stage == SetupStage::Read) ==> {
        &&& r == FlowStep::<FormFillResult>::Run(BrowserCommand::DetectFields)
        &&& new.stage == FillStage::Detect
    }
    &&& !(event is Done && setup_rank(old.setup.stage) <= 4) && !(event is Html && old.setup.stage
        == SetupStage::Read) ==> (r matches FlowStep::Finished(Err(e)) && is_protocol_error(e))
}

/// Field detection: every input must address a field and carry an
/// acceptable value; the first that does not ends the fill with its error.
/// Otherwise each input is resolved to its field and the first input's
/// command follows (with no inputs: an empty preview, or the final step).
pub open spec fn detect_step(old: FillFlow, new: FillFlow, event: BrowserEvent, r: FlowStep<FormFillResult>) -> bool {
    match event {
        BrowserEvent::Fields(fields, _) => {
            if !(forall|i: int| 0 <= i < old.inputs@.len() ==> input_valid(fields@, #[trigger] old.inputs@[i])) {
                &&& new.stage == FillStage::Done
                &&& r matches FlowStep::Finished(Err(e))
                &&& exists|i: int|
                    0 <= i < old.inputs@.len() && input_problem(fields@, #[trigger] old.inputs@[i], e)
                        && forall|j: int| 0 <= j < i ==> input_valid(fields@, #[trigger] old.inputs@[j])
            } else {
                &&& new.detected@ == fields@
                &&& new.targets_resolved()
                &&& old.inputs@.len() > 0 ==> r == FlowStep::<FormFillResult>::Run(new.input_command(0))
                    && new.stage == (if old.dry_run { FillStage::Preview(0) } else { FillStage::Fill(0) })
                &&& old.inputs@.len() == 0 && old.dry_run ==> {
                    &&& r matches FlowStep::Finished(Ok(res))
                    &&& res.fields_filled@.len() == 0
                    &&& !res.submitted
                    &&& res.page_text_after is None
                    &&& res.next_step is None
                    &&& res.preview matches Some(p)
                    &&& p.entries@.len() == 0
                }
                &&& old.inputs@.len() == 0 && !old.dry_run ==> tail_step(new, r) && tail_stage(old, new)
            }
        },
        _ => r matches FlowStep::Finished(Err(e)) && is_protocol_error(e),
    }
}

/// Dry run: each current value read is recorded next to its planned value;
/// after the last input the preview is the result and nothing is filled.
pub open spec fn preview_step(old: FillFlow, new: FillFlow, k: int, event: BrowserEvent, r: FlowStep<FormFillResult>) -> bool {
    match event {
        BrowserEvent::FieldValue(v) => {
            &&& new.selectors == old.selectors
            &&& new.kinds == old.kinds
            &&& if k + 1 < old.inputs@.len() {
                &&& r == FlowStep::<FormFillResult>::Run(new.input_command(k + 1))
                &&& new.stage == FillStage::Preview((k + 1) as usize)
                &&& new.entries@ == old.entries@.push(preview_entry(old, k, v))
            } else {
                &&& r matches FlowStep::Finished(Ok(res))
                &&& res.fields_filled@.len() == 0
                &&& !res.submitted
                &&& res.page_text_after is None
                &&& res.next_step is None
                &&& res.preview matches Some(p)
                &&& entries_match(p.entries@, old.inputs@, old.kinds@, old.inputs@.len() as int)
                &&& p.entries@ == old.entries@.push(preview_entry(old, k, v))
            }
        },
        _ => r matches FlowStep::Finished(Err(e)) && is_protocol_error(e),
    }
}

/// Filling: the inputs are filled one after another, in order; after the
/// last one comes the final step.
pub open spec fn fill_step(old: FillFlow, new: FillFlow, k: int, event: BrowserEvent, r: FlowStep<FormFillResult>) -> bool {
    match event {
        BrowserEvent::Done => if k + 1 < old.inputs@.len() {
            &&& r == FlowStep::<FormFillResult>::Run(new.input_command(k + 1))
            &&& new.selectors == old.selectors
            &&& new.kinds == old.kinds
            &&& new.stage == FillStage::Fill((k + 1) as usize)
        } else {
            &&& new.kinds == old.kinds
            &&& tail_step(new, r)
            &&& tail_stage(old, new)
        },
        _ => r matches FlowStep::Finished(Err(e)) && is_protocol_error(e),
    }
}

/// After a continuation click the page is read and its fields are the next
/// step; after a submit the page is read and its text is the result.
pub open spec fn late_step(old: FillFlow, new: FillFlow, event: BrowserEvent, r: FlowStep<FormFillResult>) -> bool {
    match (old.stage, event) {
        (FillStage::Click, BrowserEvent::Done) => r == FlowStep::<FormFillResult>::Run(
            BrowserCommand::Read { wait_ms: AFTER_SUBMIT_WAIT_MS },
        ) && new.stage == FillStage::ReadAfterClick,
        (FillStage::ReadAfterClick, BrowserEvent::Html(_)) => r == FlowStep::<FormFillResult>::Run(
            BrowserCommand::DetectFields,
        ) && new.stage == FillStage::DetectAfterClick,
        (FillStage::DetectAfterClick, BrowserEvent::Fields(fields, buttons)) => {
            &&& r matches FlowStep::Finished(Ok(res))
            &&& filled_matches(res.fields_filled@, old.inputs@, old.kinds@, old.inputs@.len() as int)
            &&& !res.submitted
            &&& res.page_text_after is None
            &&& res.next_step == Some(FormStep { fields, buttons })
            &&& res.preview is None
        },
        (FillStage::Submit, BrowserEvent::Done) => r == FlowStep::<FormFillResult>::Run(
            BrowserCommand::Read { wait_ms: AFTER_SUBMIT_WAIT_MS },
        ) && new.stage == FillStage::ReadAfterSubmit,
        (FillStage::ReadAfterSubmit, BrowserEvent::Html(h)) => {
            &&& r matches FlowStep::Finished(Ok(res))
            &&& filled_matches(res.fields_filled@, old.inputs@, old.kinds@, old.inputs@.len() as int)
            &&& res.submitted
            &&& res.next_step is None
            &&& res.preview is None
            &&& res.page_text_after matches Some(t)
            &&& is_page_text(h@, t@)
        },
        _ => r matches FlowStep::Finished(Err(e)) && is_protocol_error(e),
    }
}

/// What a fill may ask for, by its request: only a fill that is not a dry
/// run fills a control; the continuation button is clicked only when one is
/// named, and with its label; the form is submitted only when no button is
/// named and submitting was asked for.
pub open spec fn fill_commands_allowed(f: FillFlow, r: FlowStep<FormFillResult>) -> bool {
    &&& (r matches FlowStep::Run(BrowserCommand::FillField { .. }) ==> !f.dry_run)
    &&& (r matches FlowStep::Run(BrowserCommand::ClickButton { label }) ==> !f.dry_run
        && f.submit_button_label == Some(label))
    &&& (r matches FlowStep::Run(BrowserCommand::SubmitForm) ==> !f.dry_run && f.submit_button_label is None
        && f.auto_submit)
}

/// A fill's result, by its request: a dry run gives the preview of every
/// input and fills nothing; otherwise every input is reported filled, and
/// the result carries the next step's fields and buttons (a button was
/// named), the text of the page after submitting (submit), or nothing more.
pub open spec fn fill_outcome(f: FillFlow, event: BrowserEvent, res: FormFillResult) -> bool {
    let n = f.inputs@.len() as int;
    if f.dry_run {
        &&& res.fields_filled@.len() == 0
        &&& !res.submitted
        &&& res.page_text_after is None
        &&& res.next_step is None
        &&& res.preview matches Some(p)
        &&& entries_match(p.entries@, f.inputs@, f.kinds@, n)
    } else {
        &&& filled_matches(res.fields_filled@, f.inputs@, f.kinds@, n)
        &&& res.preview is None
        &&& match f.submit_button_label {
            Some(_) => {
                &&& !res.submitted
                &&& res.page_text_after is None
                &&& event matches BrowserEvent::Fields(fields, buttons)
                &&& res.next_step == Some(FormStep { fields, buttons })
            },
            None => if f.auto_submit {
                &&& res.submitted
                &&& res.next_step is None
                &&& event matches BrowserEvent::Html(h)
                &&& res.page_text_after matches Some(t)
                &&& is_page_text(h@, t@)
            } else {
                &&& !res.submitted
                &&& res.page_text_after is None
                &&& res.next_step is None
            },
        }
    }
}

/// The stage a command leaves the fill in: a fill of input `k` is that
/// input's command, a click leaves it waiting on the click, a submit on the
/// submit.
pub open spec fn fill_command_stage(new: FillFlow, r: FlowStep<FormFillResult>) -> bool {
    &&& (r matches FlowStep::Run(BrowserCommand::FillField { .. }) ==> new.stage is Fill
        && r == FlowStep::<FormFillResult>::Run(new.input_command(new.stage->Fill_0 as int)))
    &&& (r matches FlowStep::Run(BrowserCommand::ClickButton { .. }) ==> new.stage == FillStage::Click)
    &&& (r matches FlowStep::Run(BrowserCommand::SubmitForm) ==> new.stage == FillStage::Submit)
}

/// Each step of a fill issues only what its request allows, gives only the
/// result its request calls for, and leaves the stage its command names.
pub proof fn law_fill_step(old: FillFlow, event: BrowserEvent, new: FillFlow, r: FlowStep<FormFillResult>)
    requires
        old.wf(),
        fill_advance(old, event, new, r),
    ensures
        fill_commands_allowed(old, r),
        fill_command_stage(new, r),
        r matches FlowStep::Finished(Ok(res)) ==> fill_outcome(old, event, res),
{
    reveal(fill_advance);
    if !(event is Failed) {
        match old.stage {
            FillStage::Setup => lemma_setup_case(old, event, new, r),
            FillStage::Detect => lemma_detect_case(old, event, new, r),
            FillStage::Preview(k) => lemma_preview_case(old, event, new, r, k as int),
            FillStage::Fill(k) => lemma_fill_case(old, event, new, r, k),
            _ => lemma_late_case(old, event, new, r),
        }
    }
}

proof fn lemma_setup_case(old: FillFlow, event: BrowserEvent, new: FillFlow, r: FlowStep<FormFillResult>)
    requires
        setup_step(old, new, event, r),
    ensures
        fill_commands_allowed(old, r),
        fill_command_stage(new, r),
        !(r matches FlowStep::Finished(Ok(_))),
{
}

proof fn lemma_detect_case(old: FillFlow, event: BrowserEvent, new: FillFlow, r: FlowStep<FormFillResult>)
    requires
        detect_step(old, new, event, r),
        new.same_request(&old),
    ensures
        fill_commands_allowed(old, r),
        fill_command_stage(new, r),
        r matches FlowStep::Finished(Ok(res)) ==> fill_outcome(old, event, res),
{
}

proof fn lemma_preview_case(old: FillFlow, event: BrowserEvent, new: FillFlow, r: FlowStep<FormFillResult>, k: int)
    requires
        old.dry_run,
        preview_step(old, new, k, event, r),
        new.same_request(&old),
    ensures
        fill_commands_allowed(old, r),
        fill_command_stage(new, r),
        r matches FlowStep::Finished(Ok(res)) ==> fill_outcome(old, event, res),
{
}

proof fn lemma_fill_case(old: FillFlow, event: BrowserEvent, new: FillFlow, r: FlowStep<FormFillResult>, k: usize)
    requires
        !old.dry_run,
        fill_step(old, new, k as int, event, r),
        new.same_request(&old),
    ensures
        fill_commands_allowed(old, r),
        fill_command_stage(new, r),
        r matches FlowStep::Finished(Ok(res)) ==> fill_outcome(old, event, res),
{
    assert(old.inputs@.len() == old.inputs.len());
}

proof fn lemma_late_case(old: FillFlow, event: BrowserEvent, new: FillFlow, r: FlowStep<FormFillResult>)
    requires
        old.wf(),
        old.stage != FillStage::Setup,
        old.stage != FillStage::Detect,
        !(old.stage is Preview),
        !(old.stage is Fill),
        late_step(old, new, event, r),
    ensures
        fill_commands_allowed(old, r),
        fill_command_stage(new, r),
        r matches FlowStep::Finished(Ok(res)) ==> fill_outcome(old, event, res),
{
}

/// A run of a fill: `states[i]` takes `events[i]`, answers `steps[i]` and
/// becomes `states[i + 1]`; every step but the last asks for another
/// operation.
pub open spec fn fill_run(states: Seq<FillFlow>, events: Seq<BrowserEvent>, steps: Seq<FlowStep<FormFillResult>>) -> bool {
    &&& states.len() == events.len() + 1
    &&& steps.len() == events.len()
    &&& forall|i: int| 0 <= i < steps.len() ==> fill_advance(states[i], events[i], states[i + 1], #[trigger] steps[i])
    &&& forall|i: int| 0 <= i < steps.len() - 1 ==> (#[trigger] steps[i]) is Run
}

/// A step keeps the flow well formed and its request, and each command
/// moves it forward.
pub proof fn law_fill_advance_keeps(old: FillFlow, event: BrowserEvent, new: FillFlow, r: FlowStep<FormFillResult>)
    requires
        fill_advance(old, event, new, r),
    ensures
        new.wf(),
        new.same_request(&old),
        r is Run ==> fill_progress(new) > fill_progress(old),
        0 <= fill_progress(new) <= 10 + new.inputs@.len(),
        event matches BrowserEvent::Failed(e) ==> r == FlowStep::<FormFillResult>::Finished(Err(e)),
{
    reveal(fill_advance);
}

proof fn lemma_fill_run_request(states: Seq<FillFlow>, events: Seq<BrowserEvent>, steps: Seq<FlowStep<FormFillResult>>, i: int)
    requires
        fill_run(states, events, steps),
        0 <= i < states.len(),
    ensures
        states[i].same_request(&states[0]),
    decreases i,
{
    if i > 0 {
        lemma_fill_run_request(states, events, steps, i - 1);
        law_fill_advance_keeps(states[i - 1], events[i - 1], states[i], steps[i - 1]);
    }
}

proof fn lemma_fill_run_progress(states: Seq<FillFlow>, events: Seq<BrowserEvent>, steps: Seq<FlowStep<FormFillResult>>, i: int, j: int)
    requires
        fill_run(states, events, steps),
        0 <= i < j < steps.len(),
        steps[j] is Run,
    ensures
        fill_progress(states[i + 1]) < fill_progress(states[j + 1]),
    decreases j - i,
{
    law_fill_advance_keeps(states[j], events[j], states[j + 1], steps[j]);
    if j > i + 1 {
        assert(steps[j - 1] is Run);
        lemma_fill_run_progress(states, events, steps, i, j - 1);
    }
}

/// Over a whole fill: every state is well formed and keeps the request; a
/// reported failure ends the fill with that very error; no
/// step issues what the request does not allow (a dry run never fills,
/// clicks or submits; only the named button is clicked; the form is
/// submitted only when asked and no button is named); a result is the one
/// the request calls for; the inputs are filled in order, each with its
/// value into the control it resolved to; and once the button is clicked or
/// the form submitted, every input has been filled and nothing is filled,
/// clicked or submitted again.
pub proof fn law_fill_run(states: Seq<FillFlow>, events: Seq<BrowserEvent>, steps: Seq<FlowStep<FormFillResult>>)
    requires
        fill_run(states, events, steps),
        states[0].wf(),
    ensures
        forall|i: int| 0 <= i < states.len() ==> (#[trigger] states[i]).wf() && states[i].same_request(&states[0]),
        forall|i: int| 0 <= i < steps.len() ==> fill_commands_allowed(states[0], #[trigger] steps[i]),
        forall|i: int|
            0 <= i < steps.len() ==> (#[trigger] events[i] matches BrowserEvent::Failed(e) ==> steps[i]
                == FlowStep::<FormFillResult>::Finished(Err(e))),
        forall|i: int|
            0 <= i < steps.len() ==> (#[trigger] steps[i] matches FlowStep::Finished(Ok(res)) ==> fill_outcome(
                states[i],
                events[i],
                res,
            )),
        forall|i: int|
            0 <= i < steps.len() && (#[trigger] steps[i] matches FlowStep::Run(BrowserCommand::FillField { .. }))
                ==> states[i + 1].stage is Fill && steps[i] == FlowStep::<FormFillResult>::Run(
                states[i + 1].input_command(states[i + 1].stage->Fill_0 as int),
            ),
        forall|i: int, j: int|
            0 <= i < j < steps.len() && (#[trigger] steps[i] matches FlowStep::Run(BrowserCommand::FillField { .. }))
                && (#[trigger] steps[j] matches FlowStep::Run(BrowserCommand::FillField { .. }))
                ==> states[i + 1].stage->Fill_0 < states[j + 1].stage->Fill_0,
        forall|i: int|
            0 <= i < steps.len() && ((#[trigger] steps[i] matches FlowStep::Run(BrowserCommand::ClickButton { .. }))
                || steps[i] matches FlowStep::Run(BrowserCommand::SubmitForm)) ==> filled_matches(
                states[i + 1].filled@,
                states[0].inputs@,
                states[i + 1].kinds@,
                states[0].inputs@.len() as int,
            ),
        forall|i: int, j: int|
            0 <= i < j < steps.len() && ((#[trigger] steps[i] matches FlowStep::Run(BrowserCommand::ClickButton { .. }))
                || steps[i] matches FlowStep::Run(BrowserCommand::SubmitForm)) ==> {
                &&& !(#[trigger] steps[j] matches FlowStep::Run(BrowserCommand::FillField { .. }))
                &&& !(steps[j] matches FlowStep::Run(BrowserCommand::ClickButton { .. }))
                &&& !(steps[j] matches FlowStep::Run(BrowserCommand::SubmitForm))
            },
{
    assert forall|i: int| 0 <= i < states.len() implies (#[trigger] states[i]).wf() && states[i].same_request(&states[0]) by {
        lemma_fill_run_request(states, events, steps, i);
        if i > 0 {
            law_fill_advance_keeps(states[i - 1], events[i - 1], states[i], steps[i - 1]);
        }
    }
    assert forall|i: int| 0 <= i < steps.len() implies {
        &&& fill_commands_allowed(states[0], #[trigger] steps[i])
        &&& fill_command_stage(states[i + 1], steps[i])
        &&& (steps[i] matches FlowStep::Finished(Ok(res)) ==> fill_outcome(states[i], events[i], res))
    } by {
        assert(states[i].wf() && states[i].same_request(&states[0]));
        law_fill_step(states[i], events[i], states[i + 1], steps[i]);
    }
    assert forall|i: int| 0 <= i < steps.len() implies (#[trigger] events[i] matches BrowserEvent::Failed(e)
        ==> steps[i] == FlowStep::<FormFillResult>::Finished(Err(e))) by {
        law_fill_advance_keeps(states[i], events[i], states[i + 1], steps[i]);
    }
    assert forall|i: int, j: int|
        0 <= i < j < steps.len() && (#[trigger] steps[i] matches FlowStep::Run(BrowserCommand::FillField { .. }))
            && (#[trigger] steps[j] matches FlowStep::Run(BrowserCommand::FillField { .. }))
        implies states[i + 1].stage->Fill_0 < states[j + 1].stage->Fill_0 by {
        assert(fill_command_stage(states[i + 1], steps[i]));
        assert(fill_command_stage(states[j + 1], steps[j]));
        lemma_fill_run_progress(states, events, steps, i, j);
    }
    assert forall|i: int|
        0 <= i < steps.len() && ((#[trigger] steps[i] matches FlowStep::Run(BrowserCommand::ClickButton { .. }))
            || steps[i] matches FlowStep::Run(BrowserCommand::SubmitForm)) implies filled_matches(
            states[i + 1].filled@,
            states[0].inputs@,
            states[i + 1].kinds@,
            states[0].inputs@.len() as int,
        ) by {
        assert(fill_command_stage(states[i + 1], steps[i]));
        assert(states[i + 1].wf() && states[i + 1].same_request(&states[0]));
    }
    assert forall|i: int, j: int|
        0 <= i < j < steps.len() && ((#[trigger] steps[i] matches FlowStep::Run(BrowserCommand::ClickButton { .. }))
            || steps[i] matches FlowStep::Run(BrowserCommand::SubmitForm)) implies {
            &&& !(#[trigger] steps[j] matches FlowStep::Run(BrowserCommand::FillField { .. }))
            &&& !(steps[j] matches FlowStep::Run(BrowserCommand::ClickButton { .. }))
            &&& !(steps[j] matches FlowStep::Run(BrowserCommand::SubmitForm))
        } by {
        assert(fill_command_stage(states[i + 1], steps[i]));
        assert(fill_command_stage(states[j + 1], steps[j]));
        assert(states[i + 1].same_request(&states[0]));
        assert(states[j + 1].same_request(&states[0]));
        assert(states[j + 1].wf());
        if steps[j] is Run {
            lemma_fill_run_progress(states, events, steps, i, j);
        }
    }
}

} // verus!
