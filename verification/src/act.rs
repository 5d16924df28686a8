//! Planning and checking batches of page actions.
use vstd::prelude::*;
use crate::action::{ActionResult, PageAction, MAX_FIELD_TIMEOUT_MS};
use crate::error::{error_message, HtmlError};
use crate::form::{FieldValue, FormFieldType};
use crate::text::{chars_of, decimal, push_decimal};

verus! {

/// Characters that would turn an identifier into a CSS combinator or pseudo-class.
pub open spec fn forbidden_char(c: char) -> bool {
    c == '>' || c == '~' || c == '+' || c == ':'
}

/// Index of the first forbidden character of `s`.
pub open spec fn first_forbidden(s: Seq<char>) -> Option<int> {
    if exists|i: int| 0 <= i < s.len() && forbidden_char(s[i]) {
        Some(
            choose|i: int|
                0 <= i < s.len() && forbidden_char(s[i]) && forall|j: int|
                    0 <= j < i ==> !forbidden_char(#[trigger] s[j]),
        )
    } else {
        None
    }
}

/// The error an identifier draws, if any.
pub open spec fn identifier_problem(id: Seq<char>, e: HtmlError) -> bool {
    if id.len() == 0 {
        e matches HtmlError::FieldNotFound(m) && m@ == "identifier must not be empty"@
    } else {
        match first_forbidden(id) {
            Some(k) => {
                &&& e matches HtmlError::InvalidFieldValue { field, reason }
                &&& field@ == id
                &&& reason@ == "Invalid identifier: contains CSS selector character '"@ + seq![id[k]]
                    + "'"@
            },
            None => false,
        }
    }
}

/// An identifier is acceptable: non-empty, with no forbidden character.
pub open spec fn identifier_ok(id: Seq<char>) -> bool {
    id.len() > 0 && first_forbidden(id) is None
}

/// Rejects empty identifiers and identifiers holding `>`, `~`, `+` or `:`.
pub fn validate_identifier(id: &str) -> (r: Result<(), HtmlError>)
    ensures
        r is Ok <==> identifier_ok(id@),
        r matches Err(e) ==> identifier_problem(id@, e),
{
    if id.is_empty() {
        return Err(HtmlError::FieldNotFound("identifier must not be empty".to_owned()));
    }
    let cs = chars_of(id);
    let n = cs.len();
    for i in 0..n
        invariant
            n == cs@.len(),
            cs@ == id@,
            forall|j: int| 0 <= j < i ==> !forbidden_char(#[trigger] cs@[j]),
    {
        let c = cs[i];
        if c == '>' || c == '~' || c == '+' || c == ':' {
            proof {
                let k = choose|k: int|
                    0 <= k < id@.len() && forbidden_char(id@[k]) && forall|j: int|
                        0 <= j < k ==> !forbidden_char(#[trigger] id@[j]);
                assert(0 <= i < id@.len() && forbidden_char(id@[i as int]));
                if k < i {
                    assert(!forbidden_char(cs@[k]));
                } else if k > i {
                    assert(!forbidden_char(id@[i as int]));
                }
                assert(k == i);
            }
            let mut reason = "Invalid identifier: contains CSS selector character '".to_owned();
            reason.push(c);
            reason.append("'");
            assert(first_forbidden(id@) == Some(i as int));
            assert(c == id@[i as int]);
            assert(reason@ == "Invalid identifier: contains CSS selector character '"@ + seq![id@[i as int]] + "'"@);
            return Err(HtmlError::InvalidFieldValue { field: id.to_owned(), reason });
        }
    }
    assert(first_forbidden(id@) is None) by {
        if exists|i: int| 0 <= i < id@.len() && forbidden_char(id@[i]) {
            let w = choose|i: int| 0 <= i < id@.len() && forbidden_char(id@[i]);
            assert(!forbidden_char(cs@[w]));
        }
    }
    Ok(())
}

/// An action is acceptable on its own.
pub open spec fn action_ok(a: PageAction) -> bool {
    match a {
        PageAction::Click { label, id } => !(label is None && id is None),
        PageAction::Fill { identifier, .. } => identifier_ok(identifier@),
        PageAction::Check { identifier, .. } => identifier_ok(identifier@),
        PageAction::Select { identifier, value } => identifier_ok(identifier@) && value@.len() > 0,
    }
}

/// `e` is the error an unacceptable action draws.
pub open spec fn action_problem(a: PageAction, e: HtmlError) -> bool {
    match a {
        PageAction::Click { label, id } => label is None && id is None && (e matches HtmlError::ButtonNotFound(m)
            && m@ == "Click action requires at least one of: label, id"@),
        PageAction::Fill { identifier, .. } => identifier_problem(identifier@, e),
        PageAction::Check { identifier, .. } => identifier_problem(identifier@, e),
        PageAction::Select { identifier, value } => if !identifier_ok(identifier@) {
            identifier_problem(identifier@, e)
        } else {
            &&& value@.len() == 0
            &&& e matches HtmlError::InvalidFieldValue { field, reason }
            &&& field@ == identifier@
            &&& reason@ == "Select value must be a non-empty string"@
        },
    }
}

/// A batch is acceptable: the timeout within bounds, at least one and at
/// most `max_actions` actions, each acceptable.
pub open spec fn batch_ok(actions: Seq<PageAction>, max_actions: usize, field_timeout_ms: u64) -> bool {
    &&& field_timeout_ms <= MAX_FIELD_TIMEOUT_MS
    &&& 0 < actions.len() <= max_actions
    &&& forall|i: int| 0 <= i < actions.len() ==> action_ok(#[trigger] actions[i])
}

/// `e` is the error an unacceptable batch draws: the first of the checks
/// that fails, in the order timeout, emptiness, size, then each action.
pub open spec fn batch_problem(actions: Seq<PageAction>, max_actions: usize, field_timeout_ms: u64, e: HtmlError) -> bool {
    if field_timeout_ms > MAX_FIELD_TIMEOUT_MS {
        e matches HtmlError::InvalidFieldValue { field, reason } && field@ == "field_timeout_ms"@ && reason@
            == "must be between 0 and "@ + decimal(MAX_FIELD_TIMEOUT_MS as nat)
    } else if actions.len() == 0 {
        e == HtmlError::NoActions
    } else if actions.len() > max_actions {
        e == HtmlError::TooManyActions { count: actions.len() as usize, max: max_actions }
    } else {
        exists|i: int|
            0 <= i < actions.len() && action_problem(#[trigger] actions[i], e) && forall|j: int|
                0 <= j < i ==> action_ok(#[trigger] actions[j])
    }
}

/// Checks a batch before any page is touched: the timeout bound first, then
/// that the batch is non-empty and within `max_actions`, then each action in
/// order.
pub fn validate_actions(actions: &[PageAction], max_actions: usize, field_timeout_ms: u64) -> (r: Result<(), HtmlError>)
    ensures
        r is Ok <==> batch_ok(actions@, max_actions, field_timeout_ms),
        r matches Err(e) ==> batch_problem(actions@, max_actions, field_timeout_ms, e),
{
    if field_timeout_ms > MAX_FIELD_TIMEOUT_MS {
        let mut reason = "must be between 0 and ".to_owned();
        push_decimal(&mut reason, MAX_FIELD_TIMEOUT_MS);
        return Err(HtmlError::InvalidFieldValue { field: "field_timeout_ms".to_owned(), reason });
    }
    if actions.len() == 0 {
        return Err(HtmlError::NoActions);
    }
    if actions.len() > max_actions {
        return Err(HtmlError::TooManyActions { count: actions.len(), max: max_actions });
    }
    let n = actions.len();
    for i in 0..n
        invariant
            n == actions@.len(),
            field_timeout_ms <= MAX_FIELD_TIMEOUT_MS,
            0 < n <= max_actions,
            forall|j: int| 0 <= j < i ==> action_ok(#[trigger] actions@[j]),
    {
        match &actions[i] {
            PageAction::Click { label: None, id: None } => {
                let e = HtmlError::ButtonNotFound("Click action requires at least one of: label, id".to_owned());
                assert(action_problem(actions@[i as int], e));
                return Err(e);
            },
            PageAction::Fill { identifier, .. } | PageAction::Check { identifier, .. } => {
                match validate_identifier(identifier.as_str()) {
                    Ok(()) => {},
                    Err(e) => {
                        assert(action_problem(actions@[i as int], e));
                        return Err(e);
                    },
                }
            },
            PageAction::Select { identifier, value } => {
                match validate_identifier(identifier.as_str()) {
                    Ok(()) => {},
                    Err(e) => {
                        assert(action_problem(actions@[i as int], e));
                        return Err(e);
                    },
                }
                if value.as_str().is_empty() {
                    let e = HtmlError::InvalidFieldValue {
                        field: identifier.clone(),
                        reason: "Select value must be a non-empty string".to_owned(),
                    };
                    assert(action_problem(actions@[i as int], e));
                    return Err(e);
                }
            },
            PageAction::Click { .. } => {},
        }
        assert(action_ok(actions@[i as int]));
    }
    Ok(())
}

/// The result of an action whose page operation ended with `outcome`.
pub fn finish(action: PageAction, outcome: Result<(), HtmlError>) -> (r: ActionResult)
    ensures
        r.action == action,
        r.success == outcome is Ok,
        outcome is Ok ==> r.error is None,
        outcome matches Err(e) ==> r.error matches Some(m) && m@ == error_message(e),
{
    match outcome {
        Ok(()) => ActionResult { action, success: true, error: None },
        Err(e) => ActionResult { action, success: false, error: Some(e.message()) },
    }
}

/// The result of an action that could not be attempted.
pub fn fail(action: PageAction, err: HtmlError) -> (r: ActionResult)
    ensures
        r.action == action,
        !r.success,
        r.error matches Some(m) && m@ == error_message(err),
{
    ActionResult { action, success: false, error: Some(err.message()) }
}

/// Replaces the value of a `Fill` aimed at a password field by `[REDACTED]`;
/// every other action is returned unchanged.
pub fn redact_if_password(action: PageAction, ft: &FormFieldType) -> (r: PageAction)
    ensures
        (*ft == FormFieldType::Password && action is Fill) ==> (r matches PageAction::Fill { identifier, value }
            && identifier == action->Fill_identifier && value@ == "[REDACTED]"@),
        !(*ft == FormFieldType::Password && action is Fill) ==> r == action,
{
    if let (FormFieldType::Password, PageAction::Fill { identifier, .. }) = (ft, &action) {
        return PageAction::Fill { identifier: identifier.clone(), value: "[REDACTED]".to_owned() };
    }
    action
}

/// The value a non-click action puts into its field.
pub fn action_field_value(action: &PageAction) -> (r: Option<FieldValue>)
    ensures
        match *action {
            PageAction::Fill { value, .. } => r == Some(FieldValue::Text(value)),
            PageAction::Select { value, .. } => r == Some(FieldValue::Selected(value)),
            PageAction::Check { checked, .. } => r == Some(FieldValue::Checked(checked)),
            PageAction::Click { .. } => r is None,
        },
{
    match action {
        PageAction::Fill { value, .. } => Some(FieldValue::Text(value.clone())),
        PageAction::Select { value, .. } => Some(FieldValue::Selected(value.clone())),
        PageAction::Check { checked, .. } => Some(FieldValue::Checked(*checked)),
        PageAction::Click { .. } => None,
    }
}

/// Indices below `n` of the actions that are (`clicks`) or are not clicks, in order.
pub open spec fn phase_indices(actions: Seq<PageAction>, n: int, clicks: bool) -> Seq<usize>
    decreases n,
{
    if n <= 0 {
        seq![]
    } else {
        let rest = phase_indices(actions, n - 1, clicks);
        if (actions[n - 1] is Click) == clicks {
            rest.push((n - 1) as usize)
        } else {
            rest
        }
    }
}

/// The order in which actions run: every non-click action in the first,
/// concurrent phase, then every click, one after another, each phase in the
/// order given.
pub struct DispatchPlan {
    pub concurrent: Vec<usize>,
    pub sequential: Vec<usize>,
}

/// Splits a batch into its concurrent and sequential phases.
pub fn dispatch_plan(actions: &[PageAction]) -> (r: DispatchPlan)
    ensures
        r.concurrent@ == phase_indices(actions@, actions@.len() as int, false),
        r.sequential@ == phase_indices(actions@, actions@.len() as int, true),
{
    let mut concurrent: Vec<usize> = Vec::new();
    let mut sequential: Vec<usize> = Vec::new();
    let n = actions.len();
    for i in 0..n
        invariant
            n == actions@.len(),
            concurrent@ == phase_indices(actions@, i as int, false),
            sequential@ == phase_indices(actions@, i as int, true),
    {
        if let PageAction::Click { .. } = &actions[i] {
            sequential.push(i);
        } else {
            concurrent.push(i);
        }
    }
    DispatchPlan { concurrent, sequential }
}

/// Membership in a phase: index `i` is listed exactly when it is below `n`
/// and its action's kind matches the phase.
pub proof fn lemma_phase_membership(actions: Seq<PageAction>, n: int, clicks: bool, i: int)
    requires
        0 <= n <= actions.len(),
        n <= usize::MAX,
    ensures
        phase_indices(actions, n, clicks).contains(i as usize) && 0 <= i <= usize::MAX <==> (0 <= i < n
            && (actions[i] is Click) == clicks),
        forall|k: int| 0 <= k < phase_indices(actions, n, clicks).len() ==> #[trigger] phase_indices(actions, n, clicks)[k] < n,
    decreases n,
{
    if n > 0 {
        lemma_phase_membership(actions, n - 1, clicks, i);
        let rest = phase_indices(actions, n - 1, clicks);
        if (actions[n - 1] is Click) == clicks {
            let q = rest.push((n - 1) as usize);
            assert(q[rest.len() as int] == (n - 1) as usize);
            if q.contains(i as usize) && 0 <= i <= usize::MAX {
                let k = choose|k: int| 0 <= k < q.len() && #[trigger] q[k] == i as usize;
                if k < rest.len() {
                    assert(rest[k] == i as usize);
                    assert(rest.contains(i as usize));
                }
            }
            if 0 <= i < n - 1 && (actions[i] is Click) == clicks {
                let k = choose|k: int| 0 <= k < rest.len() && #[trigger] rest[k] == i as usize;
                assert(q[k] == i as usize);
            }
            if i == n - 1 {
                assert(q.contains(i as usize));
            }
            assert forall|k: int| 0 <= k < q.len() implies #[trigger] q[k] < n by {
                if k < rest.len() {
                    assert(q[k] == rest[k]);
                }
            }
        } else {
            if i == n - 1 && rest.contains(i as usize) {
                let k = choose|k: int| 0 <= k < rest.len() && #[trigger] rest[k] == i as usize;
                assert(rest[k] < n - 1);
            }
        }
    }
}

/// Every action of a batch is dispatched exactly once, and every click is
/// dispatched in the sequential phase after the concurrent one.
pub proof fn law_dispatch_partitions(actions: Seq<PageAction>, i: int)
    requires
        0 <= i < actions.len(),
        actions.len() <= usize::MAX,
    ensures
        phase_indices(actions, actions.len() as int, false).contains(i as usize) != phase_indices(
            actions,
            actions.len() as int,
            true,
        ).contains(i as usize),
        phase_indices(actions, actions.len() as int, true).contains(i as usize) <==> actions[i] is Click,
{
    lemma_phase_membership(actions, actions.len() as int, false, i);
    lemma_phase_membership(actions, actions.len() as int, true, i);
}

/// A phase listed up to `m` is the start of the phase listed up to `n`.
pub proof fn lemma_phase_prefix(actions: Seq<PageAction>, m: int, n: int, clicks: bool)
    requires
        0 <= m <= n <= actions.len(),
    ensures
        phase_indices(actions, m, clicks).len() <= phase_indices(actions, n, clicks).len(),
        phase_indices(actions, n, clicks).take(phase_indices(actions, m, clicks).len() as int) == phase_indices(
            actions,
            m,
            clicks,
        ),
    decreases n - m,
{
    if m < n {
        lemma_phase_prefix(actions, m, n - 1, clicks);
        let p = phase_indices(actions, n - 1, clicks);
        let q = phase_indices(actions, n, clicks);
        let k = phase_indices(actions, m, clicks).len() as int;
        if (actions[n - 1] is Click) == clicks {
            assert(q.take(k) =~= p.take(k));
        }
    } else {
        let q = phase_indices(actions, n, clicks);
        assert(q.take(q.len() as int) =~= q);
    }
}

/// `r` holds the batch's results in the order of its actions: the k-th
/// result of the concurrent phase in the slot of the k-th non-click action,
/// the k-th of the sequential phase in that of the k-th click.
pub open spec fn batch_assembled(
    actions: Seq<PageAction>,
    concurrent: Seq<ActionResult>,
    sequential: Seq<ActionResult>,
    r: Seq<ActionResult>,
) -> bool {
    &&& r.len() == actions.len()
    &&& forall|k: int|
        0 <= k < concurrent.len() ==> r[#[trigger] phase_indices(actions, actions.len() as int, false)[k] as int]
            == concurrent[k]
    &&& forall|k: int|
        0 <= k < sequential.len() ==> r[#[trigger] phase_indices(actions, actions.len() as int, true)[k] as int]
            == sequential[k]
}

/// A result reports action `a`: it is that action, or, for a fill, the same
/// fill with its value hidden.
pub open spec fn reports_action(res: ActionResult, a: PageAction) -> bool {
    res.action == a || (a is Fill && res.action is Fill && res.action->Fill_identifier == a->Fill_identifier
        && res.action->Fill_value@ == "[REDACTED]"@)
}

/// A phase lists its actions in the order given.
pub proof fn lemma_phase_increasing(actions: Seq<PageAction>, n: int, clicks: bool)
    requires
        0 <= n <= actions.len(),
        n <= usize::MAX,
    ensures
        forall|a: int, b: int|
            0 <= a < b < phase_indices(actions, n, clicks).len() ==> #[trigger] phase_indices(actions, n, clicks)[a]
                < #[trigger] phase_indices(actions, n, clicks)[b],
    decreases n,
{
    if n > 0 {
        lemma_phase_increasing(actions, n - 1, clicks);
        lemma_phase_membership(actions, n - 1, clicks, 0);
        let rest = phase_indices(actions, n - 1, clicks);
        let q = phase_indices(actions, n, clicks);
        if (actions[n - 1] is Click) == clicks {
            assert forall|a: int, b: int| 0 <= a < b < q.len() implies #[trigger] q[a] < #[trigger] q[b] by {
                assert(q[a] == rest[a]);
                if b < rest.len() {
                    assert(q[b] == rest[b]);
                } else {
                    assert(rest[a] < n - 1);
                }
            }
        }
    }
}

/// The results of a batch, put together from its two phases: there is one
/// result per action, in the order of the actions; each slot holds the
/// result of its own action's run (the concurrent phase's for a field
/// action, the sequential phase's for a click), so a failing action sets
/// only its own slot's outcome; and each result reports the action of its
/// slot. The clicks of the sequential phase run in the order given.
pub proof fn law_batch_results(
    actions: Seq<PageAction>,
    concurrent: Seq<ActionResult>,
    sequential: Seq<ActionResult>,
    r: Seq<ActionResult>,
)
    requires
        actions.len() <= usize::MAX,
        concurrent.len() == phase_indices(actions, actions.len() as int, false).len(),
        sequential.len() == phase_indices(actions, actions.len() as int, true).len(),
        forall|k: int|
            0 <= k < concurrent.len() ==> reports_action(
                #[trigger] concurrent[k],
                actions[phase_indices(actions, actions.len() as int, false)[k] as int],
            ),
        forall|k: int|
            0 <= k < sequential.len() ==> reports_action(
                #[trigger] sequential[k],
                actions[phase_indices(actions, actions.len() as int, true)[k] as int],
            ),
        batch_assembled(actions, concurrent, sequential, r),
    ensures
        r.len() == actions.len(),
        forall|i: int| 0 <= i < actions.len() ==> reports_action(#[trigger] r[i], actions[i]),
        forall|i: int|
            #![trigger actions[i]]
            0 <= i < actions.len() && !(actions[i] is Click) ==> exists|k: int|
                #![trigger concurrent[k]]
                0 <= k < concurrent.len() && phase_indices(actions, actions.len() as int, false)[k] == i && r[i]
                    == concurrent[k],
        forall|i: int|
            #![trigger actions[i]]
            0 <= i < actions.len() && actions[i] is Click ==> exists|k: int|
                #![trigger sequential[k]]
                0 <= k < sequential.len() && phase_indices(actions, actions.len() as int, true)[k] == i && r[i]
                    == sequential[k],
        forall|a: int, b: int|
            0 <= a < b < sequential.len() ==> #[trigger] phase_indices(actions, actions.len() as int, true)[a]
                < #[trigger] phase_indices(actions, actions.len() as int, true)[b],
{
    let n = actions.len() as int;
    let pc = phase_indices(actions, n, false);
    let ps = phase_indices(actions, n, true);
    assert forall|i: int| #![trigger r[i]] #![trigger actions[i]] 0 <= i < actions.len() implies {
        &&& reports_action(r[i], actions[i])
        &&& !(actions[i] is Click) ==> exists|k: int|
            #![trigger concurrent[k]]
            0 <= k < concurrent.len() && phase_indices(actions, actions.len() as int, false)[k] == i && r[i]
                == concurrent[k]
        &&& actions[i] is Click ==> exists|k: int|
            #![trigger sequential[k]]
            0 <= k < sequential.len() && phase_indices(actions, actions.len() as int, true)[k] == i && r[i]
                == sequential[k]
    } by {
        law_dispatch_partitions(actions, i);
        lemma_phase_membership(actions, n, false, i);
        lemma_phase_membership(actions, n, true, i);
        if actions[i] is Click {
            let k = choose|k: int| 0 <= k < ps.len() && #[trigger] ps[k] == i as usize;
            assert(0 <= k < sequential.len());
            assert(ps[k] as int == i);
            assert(r[ps[k] as int] == sequential[k]);
            assert(r[i] == sequential[k]);
            assert(reports_action(sequential[k], actions[ps[k] as int]));
        } else {
            let k = choose|k: int| 0 <= k < pc.len() && #[trigger] pc[k] == i as usize;
            assert(0 <= k < concurrent.len());
            assert(pc[k] as int == i);
            assert(r[pc[k] as int] == concurrent[k]);
            assert(r[i] == concurrent[k]);
            assert(reports_action(concurrent[k], actions[pc[k] as int]));
        }
    }
    lemma_phase_increasing(actions, n, true);
}

/// The results of a batch, in the order of its actions: `concurrent` holds
/// the results of the non-click actions and `sequential` those of the
/// clicks, each in the order its phase ran them.
pub fn assemble_results(actions: &[PageAction], concurrent: Vec<ActionResult>, sequential: Vec<ActionResult>) -> (r: Vec<ActionResult>)
    requires
        concurrent@.len() == phase_indices(actions@, actions@.len() as int, false).len(),
        sequential@.len() == phase_indices(actions@, actions@.len() as int, true).len(),
    ensures
        batch_assembled(actions@, concurrent@, sequential@, r@),
{
    let ghost all_c = concurrent@;
    let ghost all_s = sequential@;
    let ghost n = actions@.len() as int;
    let ghost pc = phase_indices(actions@, n, false);
    let ghost ps = phase_indices(actions@, n, true);
    let mut concurrent = concurrent;
    let mut sequential = sequential;
    let mut out: Vec<ActionResult> = Vec::new();
    let len = actions.len();
    proof {
        lemma_phase_membership(actions@, n, false, 0);
        lemma_phase_membership(actions@, n, true, 0);
    }
    for i in 0..len
        invariant
            len == actions@.len(),
            n == len,
            pc == phase_indices(actions@, n, false),
            ps == phase_indices(actions@, n, true),
            all_c.len() == pc.len(),
            all_s.len() == ps.len(),
            out@.len() == i,
            concurrent@ == all_c.subrange(phase_indices(actions@, i as int, false).len() as int, all_c.len() as int),
            sequential@ == all_s.subrange(phase_indices(actions@, i as int, true).len() as int, all_s.len() as int),
            phase_indices(actions@, i as int, false).len() + phase_indices(actions@, i as int, true).len() == i,
            forall|k: int|
                0 <= k < phase_indices(actions@, i as int, false).len() ==> pc[k] < i && out@[#[trigger] pc[k] as int]
                    == all_c[k],
            forall|k: int|
                0 <= k < phase_indices(actions@, i as int, true).len() ==> ps[k] < i && out@[#[trigger] ps[k] as int]
                    == all_s[k],
    {
        proof {
            lemma_phase_prefix(actions@, i as int, n, false);
            lemma_phase_prefix(actions@, i as int, n, true);
            lemma_phase_prefix(actions@, i + 1, n, false);
            lemma_phase_prefix(actions@, i + 1, n, true);
        }
        let ghost a = phase_indices(actions@, i as int, false).len() as int;
        let ghost b = phase_indices(actions@, i as int, true).len() as int;
        let ghost before = out@;
        if let PageAction::Click { .. } = &actions[i] {
            proof {
                assert(phase_indices(actions@, i + 1, true) == phase_indices(actions@, i as int, true).push(i as usize));
                assert(ps.take(b + 1) == phase_indices(actions@, i + 1, true));
                assert(ps[b] == ps.take(b + 1)[b]);
                assert(b < ps.len());
            }
            let res = sequential.remove(0);
            out.push(res);
            proof {
                assert(ps[b] == i);
                assert forall|k: int| 0 <= k < phase_indices(actions@, i + 1, false).len() implies pc[k] < i + 1
                    && out@[#[trigger] pc[k] as int] == all_c[k] by {
                    assert(out@[pc[k] as int] == before[pc[k] as int]);
                }
                assert forall|k: int| 0 <= k < phase_indices(actions@, i + 1, true).len() implies ps[k] < i + 1
                    && out@[#[trigger] ps[k] as int] == all_s[k] by {
                    if k < b {
                        assert(out@[ps[k] as int] == before[ps[k] as int]);
                    }
                }
            }
        } else {
            proof {
                assert(phase_indices(actions@, i + 1, false) == phase_indices(actions@, i as int, false).push(i as usize));
                assert(pc.take(a + 1) == phase_indices(actions@, i + 1, false));
                assert(pc[a] == pc.take(a + 1)[a]);
                assert(a < pc.len());
            }
            let res = concurrent.remove(0);
            out.push(res);
            proof {
                assert(pc[a] == i);
                assert forall|k: int| 0 <= k < phase_indices(actions@, i + 1, false).len() implies pc[k] < i + 1
                    && out@[#[trigger] pc[k] as int] == all_c[k] by {
                    if k < a {
                        assert(out@[pc[k] as int] == before[pc[k] as int]);
                    }
                }
                assert forall|k: int| 0 <= k < phase_indices(actions@, i + 1, true).len() implies ps[k] < i + 1
                    && out@[#[trigger] ps[k] as int] == all_s[k] by {
                    assert(out@[ps[k] as int] == before[ps[k] as int]);
                }
            }
        }
    }
    out
}

/// The waiting time before the next probe of a field: doubled, at most 500 ms.
pub fn next_retry_delay(delay_ms: u64) -> (r: u64)
    requires
        delay_ms <= u64::MAX / 2,
    ensures
        r == if 2 * delay_ms < 500 { 2 * delay_ms } else { 500 },
{
    let d = delay_ms * 2;
    if d < 500 { d } else { 500 }
}

/// The error for a field that is missing or disabled when no waiting is allowed.
pub fn field_not_ready(identifier: &str) -> (r: HtmlError)
    ensures
        r matches HtmlError::FieldNotFound(m) && m@ == "Field not found or still disabled: "@ + identifier@,
{
    HtmlError::FieldNotFound("Field not found or still disabled: ".to_owned().concat(identifier))
}

/// The error for a field that stayed missing or disabled for the whole timeout.
pub fn field_timed_out(timeout_ms: u64, identifier: &str) -> (r: HtmlError)
    ensures
        r matches HtmlError::FieldNotFound(m) && m@ == "Field not found or still disabled after "@ + decimal(
            timeout_ms as nat,
        ) + "ms: "@ + identifier@,
{
    let mut m = "Field not found or still disabled after ".to_owned();
    push_decimal(&mut m, timeout_ms);
    m.append("ms: ");
    m.append(identifier);
    HtmlError::FieldNotFound(m)
}

} // verus!
