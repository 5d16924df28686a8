//! Finding and clicking a button by its id, falling back to its label.
use vstd::prelude::*;
use crate::error::HtmlError;
use crate::form::{clone_opt_string, ButtonResolvedBy, FormButton};

verus! {

/// The pause after a successful click, before the page is used again.
pub const CLICK_SETTLE_MS: u64 = 1000;

/// One page operation of a button search.
#[derive(Debug)]
pub enum SearchCommand {
    /// Click the element with this id if it is a button, a link or a
    /// submit/button input; report its text, or nothing when there is none.
    ClickById { id: String },
    /// Click the first button or link whose text contains the label, ignoring
    /// case; report the clicked button, or nothing when there is none.
    ClickByLabel { label: String },
    /// Wait this long.
    Wait { ms: u64 },
}

/// The outcome of a search operation.
#[derive(Debug)]
pub enum SearchEvent {
    IdClicked(Option<String>),
    LabelClicked(Option<FormButton>),
    Waited,
    Failed(HtmlError),
}

/// What a search asks for next.
#[derive(Debug)]
pub enum SearchStep {
    Run(SearchCommand),
    Finished(Result<(FormButton, ButtonResolvedBy), HtmlError>),
}

/// Where a search stands.
#[derive(Debug, Clone, Copy, PartialEq, Eq, Structural)]
pub enum SearchStage {
    Idle,
    ById,
    ByLabel,
    Settle,
    Done,
}

/// How far a search has come: each operation it asks for moves this forward.
pub open spec fn search_progress(stage: SearchStage) -> int {
    match stage {
        SearchStage::Idle => 0,
        SearchStage::ById => 1,
        SearchStage::ByLabel => 2,
        SearchStage::Settle => 3,
        SearchStage::Done => 4,
    }
}

/// A search for a button by id, then by label.
pub struct ButtonSearch {
    pub button_id: Option<String>,
    pub label: Option<String>,
    pub stage: SearchStage,
    pub found: Option<(FormButton, ButtonResolvedBy)>,
}

/// The error when neither an id nor a label was given.
pub open spec fn nothing_to_search(e: HtmlError) -> bool {
    e matches HtmlError::ButtonNotFound(m) && m@ == "button_id and label are both None"@
}

/// The message when no button matched.
pub open spec fn not_found_message(button_id: Option<String>, label: Option<String>) -> Seq<char> {
    match (button_id, label) {
        (Some(id), None) => "by id '"@ + id@ + "'"@,
        (Some(id), Some(l)) => "by id '"@ + id@ + "' or label '"@ + l@ + "'"@,
        (None, Some(l)) => "by label '"@ + l@ + "'"@,
        (None, None) => "button_id and label are both None"@,
    }
}

impl ButtonSearch {
    /// A search that has not begun.
    pub fn new(button_id: Option<String>, label: Option<String>) -> (r: Self)
        ensures
            r.button_id == button_id,
            r.label == label,
            r.stage == SearchStage::Idle,
            r.found is None,
    {
        ButtonSearch { button_id, label, stage: SearchStage::Idle, found: None }
    }

    /// The first operation: by id when an id is given, else by label; with
    /// neither, the search fails at once.
    pub fn begin(&mut self) -> (r: SearchStep)
        requires
            old(self).stage == SearchStage::Idle,
        ensures
            final(self).button_id == old(self).button_id,
            final(self).label == old(self).label,
            old(self).button_id matches Some(id) ==> (r == SearchStep::Run(SearchCommand::ClickById { id })
                && final(self).stage == SearchStage::ById),
            old(self).button_id is None ==> (old(self).label matches Some(l) ==> (r == SearchStep::Run(
                SearchCommand::ClickByLabel { label: l },
            ) && final(self).stage == SearchStage::ByLabel)),
            old(self).button_id is None && old(self).label is None ==> (r matches SearchStep::Finished(Err(e))
                && nothing_to_search(e) && final(self).stage == SearchStage::Done),
    {
        if let Some(id) = clone_opt_string(&self.button_id) {
            self.stage = SearchStage::ById;
            return SearchStep::Run(SearchCommand::ClickById { id });
        }
        if let Some(l) = clone_opt_string(&self.label) {
            self.stage = SearchStage::ByLabel;
            return SearchStep::Run(SearchCommand::ClickByLabel { label: l });
        }
        self.stage = SearchStage::Done;
        SearchStep::Finished(Err(HtmlError::ButtonNotFound("button_id and label are both None".to_owned())))
    }

    /// The step after the outcome of the awaited operation. A button found by
    /// id is reported with its text and `#id`; with no such button the label
    /// is tried when given. A button found by label is reported as found.
    /// After a click comes a pause, then the result; a search that found
    /// nothing fails with a message naming what was tried.
    pub fn advance(&mut self, event: SearchEvent) -> (r: SearchStep)
        requires
            old(self).stage == SearchStage::ById || old(self).stage == SearchStage::ByLabel || old(self).stage
                == SearchStage::Settle,
            old(self).stage == SearchStage::ById ==> old(self).button_id is Some,
            old(self).stage == SearchStage::ByLabel ==> old(self).label is Some,
            old(self).stage == SearchStage::Settle ==> old(self).found is Some,
        ensures
            final(self).button_id == old(self).button_id,
            final(self).label == old(self).label,
            event matches SearchEvent::Failed(e) ==> r == SearchStep::Finished(Err(e)),
            old(self).stage == SearchStage::ById ==> match event {
                SearchEvent::IdClicked(Some(text)) => {
                    &&& r == SearchStep::Run(SearchCommand::Wait { ms: CLICK_SETTLE_MS })
                    &&& final(self).stage == SearchStage::Settle
                    &&& final(self).found matches Some((b, by))
                    &&& b.label == text
                    &&& b.selector@ == "#"@ + old(self).button_id->Some_0@
                    &&& by == ButtonResolvedBy::Id
                },
                SearchEvent::IdClicked(None) => match old(self).label {
                    Some(l) => r == SearchStep::Run(SearchCommand::ClickByLabel { label: l })
                        && final(self).stage == SearchStage::ByLabel,
                    None => r matches SearchStep::Finished(Err(HtmlError::ButtonNotFound(m)))
                        && m@ == not_found_message(old(self).button_id, old(self).label),
                },
                SearchEvent::Failed(_) => true,
                _ => r matches SearchStep::Finished(Err(e)) && crate::flow::is_protocol_error(e),
            },
            old(self).stage == SearchStage::ByLabel ==> match event {
                SearchEvent::LabelClicked(Some(b)) => {
                    &&& r == SearchStep::Run(SearchCommand::Wait { ms: CLICK_SETTLE_MS })
                    &&& final(self).stage == SearchStage::Settle
                    &&& final(self).found == Some((b, ButtonResolvedBy::Label))
                },
                SearchEvent::LabelClicked(None) => r matches SearchStep::Finished(
                    Err(HtmlError::ButtonNotFound(m)),
                ) && m@ == not_found_message(old(self).button_id, old(self).label),
                SearchEvent::Failed(_) => true,
                _ => r matches SearchStep::Finished(Err(e)) && crate::flow::is_protocol_error(e),
            },
            old(self).stage == SearchStage::Settle ==> match event {
                SearchEvent::Waited => r == SearchStep::Finished(Ok(old(self).found->Some_0)),
                SearchEvent::Failed(_) => true,
                _ => r matches SearchStep::Finished(Err(e)) && crate::flow::is_protocol_error(e),
            },
            r is Run ==> (final(self).stage == SearchStage::ByLabel ==> final(self).label is Some)
                && (final(self).stage == SearchStage::Settle ==> final(self).found is Some)
                && final(self).stage != SearchStage::ById,
            r is Finished ==> final(self).stage == SearchStage::Done,
            r is Run ==> search_progress(final(self).stage) > search_progress(old(self).stage),
    {
        if let SearchEvent::Failed(e) = event {
            self.stage = SearchStage::Done;
            return SearchStep::Finished(Err(e));
        }
        let stage = self.stage;
        if stage == SearchStage::ById {
            match event {
                SearchEvent::IdClicked(Some(text)) => {
                    let id = match &self.button_id {
                        Some(id) => id,
                        None => {
                            assert(false);
                            return SearchStep::Finished(Err(crate::flow::protocol_error()));
                        },
                    };
                    let selector = "#".to_owned().concat(id.as_str());
                    self.found = Some((FormButton { label: text, selector }, ButtonResolvedBy::Id));
                    self.stage = SearchStage::Settle;
                    return SearchStep::Run(SearchCommand::Wait { ms: CLICK_SETTLE_MS });
                },
                SearchEvent::IdClicked(None) => {
                    if let Some(l) = clone_opt_string(&self.label) {
                        self.stage = SearchStage::ByLabel;
                        return SearchStep::Run(SearchCommand::ClickByLabel { label: l });
                    }
                    self.stage = SearchStage::Done;
                    let m = self.not_found();
                    return SearchStep::Finished(Err(HtmlError::ButtonNotFound(m)));
                },
                _ => {
                    self.stage = SearchStage::Done;
                    return SearchStep::Finished(Err(crate::flow::protocol_error()));
                },
            }
        }
        if stage == SearchStage::ByLabel {
            match event {
                SearchEvent::LabelClicked(Some(b)) => {
                    self.found = Some((b, ButtonResolvedBy::Label));
                    self.stage = SearchStage::Settle;
                    return SearchStep::Run(SearchCommand::Wait { ms: CLICK_SETTLE_MS });
                },
                SearchEvent::LabelClicked(None) => {
                    self.stage = SearchStage::Done;
                    let m = self.not_found();
                    return SearchStep::Finished(Err(HtmlError::ButtonNotFound(m)));
                },
                _ => {
                    self.stage = SearchStage::Done;
                    return SearchStep::Finished(Err(crate::flow::protocol_error()));
                },
            }
        }
        match event {
            SearchEvent::Waited => {
                self.stage = SearchStage::Done;
                let mut found = None;
                std::mem::swap(&mut found, &mut self.found);
                match found {
                    Some(f) => SearchStep::Finished(Ok(f)),
                    None => SearchStep::Finished(Err(crate::flow::protocol_error())),
                }
            },
            _ => {
                self.stage = SearchStage::Done;
                SearchStep::Finished(Err(crate::flow::protocol_error()))
            },
        }
    }

    /// The message naming what was tried.
    fn not_found(&self) -> (m: String)
        ensures
            m@ == not_found_message(self.button_id, self.label),
    {
        match (&self.button_id, &self.label) {
            (Some(id), None) => "by id '".to_owned().concat(id.as_str()).concat("'"),
            (Some(id), Some(l)) => "by id '".to_owned().concat(id.as_str()).concat("' or label '").concat(
                l.as_str(),
            ).concat("'"),
            (None, Some(l)) => "by label '".to_owned().concat(l.as_str()).concat("'"),
            (None, None) => "button_id and label are both None".to_owned(),
        }
    }
}

} // verus!
