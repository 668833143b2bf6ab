//! The two-phase save of one evaluation.
//!
//! A submission is `Pending` until the portal has answered the trial save.
//! That answer carries a fresh token, which replaces the token of the page:
//! the submission is then `TrialSubmitted` with it. The answer to the final
//! save ends the submission. A trial that fails ends it too, and no final
//! save is sent.

use vstd::prelude::*;
use vstd::string::*;
use crate::answers::{answers, answers_of, resolve_slots, Slot, SlotNames};
use crate::catalog::{EvaluationRecord, RecordView};
use crate::endpoints::{save_url, SAVE_URL};
use crate::form::{form_view, put, FormField};
use crate::json::{Json, Reply};
use crate::page::{extract, field_names_of, form_token_of, MalformedPage};
use crate::text::string_views;

verus! {

/// The member of the trial answer that carries the fresh token.
pub const TOKEN_KEY: &'static str = "token";

/// The member of the final answer that tells how the save went.
pub const RESULT_KEY: &'static str = "result";

/// The result of a save that was accepted.
pub const ACCEPTED: &'static str = "ok";

/// The two saves of a submission.
#[derive(Debug, Clone, Copy, PartialEq, Eq, Structural)]
pub enum Phase {
    Trial,
    Final,
}

/// Why a submission was not accepted.
#[derive(Debug, Clone, Copy, PartialEq, Eq, Structural)]
pub enum RejectReason {
    /// The trial save got no answer that could be read.
    TrialFailed,
    /// The answer to the trial save carries no token.
    TokenMissing,
    /// The final save got no answer that could be read.
    FinalFailed,
    /// The answer to the final save does not say that it was accepted.
    NotAccepted,
}

/// How a submission ended.
#[derive(Debug, Clone, Copy, PartialEq, Eq, Structural)]
pub enum SubmissionOutcome {
    Success,
    Rejected(RejectReason),
}

/// Where a submission stands.
pub enum SubmissionState {
    /// Nothing has been answered yet.
    Pending,
    /// The trial save was answered with this token.
    TrialSubmitted(String),
    /// The submission has ended.
    Finalized(SubmissionOutcome),
}

/// What a `SubmissionState` holds, the token as a text.
pub enum StateView {
    Pending,
    TrialSubmitted(Seq<char>),
    Finalized(SubmissionOutcome),
}

impl View for SubmissionState {
    type V = StateView;

    open spec fn view(&self) -> StateView {
        match self {
            SubmissionState::Pending => StateView::Pending,
            SubmissionState::TrialSubmitted(token) => StateView::TrialSubmitted(token@),
            SubmissionState::Finalized(outcome) => StateView::Finalized(*outcome),
        }
    }
}

/// What is needed to send the two saves of one course: the record, the
/// token of its page and the input names of the questions.
pub struct Draft {
    pub record: EvaluationRecord,
    pub page_token: String,
    pub slots: SlotNames,
}

/// One save, ready to be sent: the address and the form body.
pub struct SaveRequest {
    pub url: String,
    pub form: Vec<FormField>,
}

/// What the form calls the phase.
pub open spec fn phase_mark(phase: Phase) -> Seq<char> {
    match phase {
        Phase::Trial => "0"@,
        Phase::Final => "1"@,
    }
}

/// The fields of one question: its input name with each of its answers.
pub open spec fn slot_fields(slots: SlotNames, slot: Slot) -> Seq<(Seq<char>, Seq<char>)> {
    Seq::new(answers_of(slot).len(), |k: int| (slots.name_of(slot), answers_of(slot)[k]))
}

/// The fields that every save begins with.
pub open spec fn leading_fields(phase: Phase, record: RecordView, token: Seq<char>) -> Seq<
    (Seq<char>, Seq<char>),
> {
    seq![
        ("tjcs"@, phase_mark(phase)),
        ("wjbm"@, record.form_definition_id),
        ("ktid"@, record.course_session_id),
        ("tokenValue"@, token),
    ]
}

/// The form body of a save: the phase, the identifiers of the record, the
/// token, the answers to the questions in the order of the page, and an empty
/// `compare`.
pub open spec fn save_form(phase: Phase, record: RecordView, token: Seq<char>, slots: SlotNames) -> Seq<
    (Seq<char>, Seq<char>),
> {
    leading_fields(phase, record, token) + slot_fields(slots, Slot::Score) + slot_fields(
        slots,
        Slot::Conformity,
    ) + slot_fields(slots, Slot::FirstAgreement) + slot_fields(slots, Slot::SecondAgreement)
        + slot_fields(slots, Slot::Feedback) + slot_fields(slots, Slot::Strengths) + slot_fields(
        slots,
        Slot::Requirement,
    ) + slot_fields(slots, Slot::Comment) + seq![("compare"@, ""@)]
}

/// The token that the answer to the trial save carries.
pub open spec fn trial_token_of(body: Json) -> Option<Seq<char>> {
    body.member_text(TOKEN_KEY@)
}

/// The answer to the final save says that it was accepted.
pub open spec fn is_accepted(body: Json) -> bool {
    body.member_text(RESULT_KEY@) == Some(ACCEPTED@)
}

/// How the answer to the final save is read.
pub open spec fn final_outcome(body: Json) -> SubmissionOutcome {
    if is_accepted(body) {
        SubmissionOutcome::Success
    } else {
        SubmissionOutcome::Rejected(RejectReason::NotAccepted)
    }
}

/// Where a submission stands after a reply.
pub open spec fn next_state(state: StateView, reply: Reply) -> StateView {
    match state {
        StateView::Pending => match reply {
            Reply::Failed => StateView::Finalized(
                SubmissionOutcome::Rejected(RejectReason::TrialFailed),
            ),
            Reply::Answer(body) => match trial_token_of(body) {
                Some(token) => StateView::TrialSubmitted(token),
                None => StateView::Finalized(SubmissionOutcome::Rejected(RejectReason::TokenMissing)),
            },
        },
        StateView::TrialSubmitted(_) => match reply {
            Reply::Failed => StateView::Finalized(
                SubmissionOutcome::Rejected(RejectReason::FinalFailed),
            ),
            Reply::Answer(body) => StateView::Finalized(final_outcome(body)),
        },
        StateView::Finalized(outcome) => StateView::Finalized(outcome),
    }
}

/// The phase and the token of the save that a state asks for; none once the
/// submission has ended.
pub open spec fn pending_save(state: StateView, page_token: Seq<char>) -> Option<
    (Phase, Seq<char>),
> {
    match state {
        StateView::Pending => Some((Phase::Trial, page_token)),
        StateView::TrialSubmitted(token) => Some((Phase::Final, token)),
        StateView::Finalized(_) => None,
    }
}

/// The final save carries the token of the trial answer, in its address and
/// in its form, whatever the token of the page was.
pub proof fn lemma_final_save_carries_fresh_token(page_token: Seq<char>, body: Json, fresh: Seq<char>)
    requires
        trial_token_of(body) == Some(fresh),
    ensures
        next_state(StateView::Pending, Reply::Answer(body)) == StateView::TrialSubmitted(fresh),
        pending_save(next_state(StateView::Pending, Reply::Answer(body)), page_token) == Some(
            (Phase::Final, fresh),
        ),
        forall|record: RecordView, slots: SlotNames|
            #![trigger save_form(Phase::Final, record, fresh, slots)]
            save_form(Phase::Final, record, fresh, slots)[3] == ("tokenValue"@, fresh),
{
}

/// A trial that fails ends the submission as rejected, and a submission that
/// has ended asks for no save and stays as it is.
pub proof fn lemma_failed_trial_ends_submission(page_token: Seq<char>, reply: Reply, later: Reply)
    requires
        reply is Failed || (reply matches Reply::Answer(body) && trial_token_of(body) is None),
    ensures
        next_state(StateView::Pending, reply) matches StateView::Finalized(
            SubmissionOutcome::Rejected(_),
        ),
        pending_save(next_state(StateView::Pending, reply), page_token) is None,
        next_state(next_state(StateView::Pending, reply), later) == next_state(
            StateView::Pending,
            reply,
        ),
{
}

/// The final answer counts as a success exactly when its `result` is the
/// text `ok`.
pub proof fn lemma_success_iff_accepted(token: Seq<char>, body: Json)
    ensures
        next_state(StateView::TrialSubmitted(token), Reply::Answer(body)) == StateView::Finalized(
            SubmissionOutcome::Success,
        ) <==> body.member_text(RESULT_KEY@) == Some(ACCEPTED@),
        !is_accepted(body) ==> next_state(StateView::TrialSubmitted(token), Reply::Answer(body))
            == StateView::Finalized(SubmissionOutcome::Rejected(RejectReason::NotAccepted)),
{
}

/// A submission that has not been sent anything.
pub fn start() -> (state: SubmissionState)
    ensures
        state@ == StateView::Pending,
{
    SubmissionState::Pending
}

/// Reads the page of a course and prepares its two saves.
pub fn prepare(record: &EvaluationRecord, page: &str) -> (r: Result<Draft, MalformedPage>)
    ensures
        match r {
            Ok(draft) => {
                &&& draft.record@ == record@
                &&& form_token_of(page@) == Some(draft.page_token@)
                &&& field_names_of(page@).len() >= crate::answers::MIN_FIELDS
                &&& draft.slots.resolves(field_names_of(page@))
            },
            Err(MalformedPage::TokenMissing) => form_token_of(page@) is None,
            Err(MalformedPage::TooFewFields) => form_token_of(page@) is Some && field_names_of(
                page@,
            ).len() < crate::answers::MIN_FIELDS,
        },
{
    match extract(page) {
        Err(e) => Err(e),
        Ok(form) => match resolve_slots(&form.field_names) {
            Err(e) => Err(e),
            Ok(slots) => Ok(
                Draft {
                    record: EvaluationRecord {
                        course_session_id: record.course_session_id.clone(),
                        course_name: record.course_name.clone(),
                        form_definition_id: record.form_definition_id.clone(),
                    },
                    page_token: form.token,
                    slots,
                },
            ),
        },
    }
}

/// Appends the fields of one question to a form body.
pub fn put_slot(form: &mut Vec<FormField>, slots: &SlotNames, slot: Slot)
    ensures
        form_view(final(form)@) == form_view(old(form)@) + slot_fields(*slots, slot),
{
    let values = answers(slot);
    let name = slots.name(slot);
    let ghost before = form_view(form@);
    let mut k: usize = 0;
    assert(before + slot_fields(*slots, slot).take(0) =~= before);
    while k < values.len()
        invariant
            k <= values.len(),
            name@ == slots.name_of(slot),
            values@.len() == answers_of(slot).len(),
            forall|m: int| 0 <= m < values@.len() ==> (#[trigger] values@[m])@ == answers_of(slot)[m],
            form_view(form@) == before + slot_fields(*slots, slot).take(k as int),
        decreases values.len() - k,
    {
        put(form, name.as_str(), values[k]);
        assert(form_view(form@) =~= before + slot_fields(*slots, slot).take(k + 1));
        k += 1;
    }
    assert(slot_fields(*slots, slot).take(k as int) =~= slot_fields(*slots, slot));
}

/// Builds the form body of a save.
pub fn build_save_form(phase: Phase, record: &EvaluationRecord, token: &str, slots: &SlotNames) -> (form:
    Vec<FormField>)
    ensures
        form_view(form@) == save_form(phase, record@, token@, *slots),
{
    let mut form: Vec<FormField> = Vec::new();
    assert(form_view(form@) =~= Seq::empty());
    match phase {
        Phase::Trial => {
            put(&mut form, "tjcs", "0");
        },
        Phase::Final => {
            put(&mut form, "tjcs", "1");
        },
    }
    put(&mut form, "wjbm", record.form_definition_id.as_str());
    put(&mut form, "ktid", record.course_session_id.as_str());
    put(&mut form, "tokenValue", token);
    assert(form_view(form@) =~= leading_fields(phase, record@, token@));
    put_slot(&mut form, slots, Slot::Score);
    put_slot(&mut form, slots, Slot::Conformity);
    put_slot(&mut form, slots, Slot::FirstAgreement);
    put_slot(&mut form, slots, Slot::SecondAgreement);
    put_slot(&mut form, slots, Slot::Feedback);
    put_slot(&mut form, slots, Slot::Strengths);
    put_slot(&mut form, slots, Slot::Requirement);
    put_slot(&mut form, slots, Slot::Comment);
    put(&mut form, "compare", "");
    assert(form_view(form@) =~= save_form(phase, record@, token@, *slots));
    form
}

/// The save that a submission asks for next: the trial save with the token
/// of the page while it is pending, the final save with the token of the
/// trial answer after that, none once it has ended.
pub fn next_request(state: &SubmissionState, draft: &Draft) -> (r: Option<SaveRequest>)
    ensures
        match r {
            Some(request) => {
                &&& pending_save(state@, draft.page_token@) matches Some((phase, token))
                &&& request.url@ == SAVE_URL@ + token
                &&& form_view(request.form@) == save_form(phase, draft.record@, token, draft.slots)
            },
            None => pending_save(state@, draft.page_token@) is None,
        },
{
    match state {
        SubmissionState::Pending => {
            let token = draft.page_token.as_str();
            Some(
                SaveRequest {
                    url: save_url(token),
                    form: build_save_form(Phase::Trial, &draft.record, token, &draft.slots),
                },
            )
        },
        SubmissionState::TrialSubmitted(fresh) => {
            let token = fresh.as_str();
            Some(
                SaveRequest {
                    url: save_url(token),
                    form: build_save_form(Phase::Final, &draft.record, token, &draft.slots),
                },
            )
        },
        SubmissionState::Finalized(_) => None,
    }
}

/// Reads the fresh token from the answer to the trial save.
pub fn trial_token(body: &Json) -> (r: Option<String>)
    ensures
        match r {
            Some(token) => trial_token_of(*body) == Some(token@),
            None => trial_token_of(*body) is None,
        },
{
    match body.get_text(TOKEN_KEY) {
        Some(token) => Some(token.clone()),
        None => None,
    }
}

/// Reads the answer to the final save.
pub fn classify_final(body: &Json) -> (outcome: SubmissionOutcome)
    ensures
        outcome == final_outcome(*body),
        outcome == SubmissionOutcome::Success <==> body.member_text(RESULT_KEY@) == Some(
            ACCEPTED@,
        ),
{
    match body.get_text(RESULT_KEY) {
        Some(result) => {
            let accepted = String::from_str(ACCEPTED);
            if *result == accepted {
                SubmissionOutcome::Success
            } else {
                SubmissionOutcome::Rejected(RejectReason::NotAccepted)
            }
        },
        None => SubmissionOutcome::Rejected(RejectReason::NotAccepted),
    }
}

/// Moves a submission on by one reply.
pub fn advance(state: SubmissionState, reply: &Reply) -> (next: SubmissionState)
    ensures
        next@ == next_state(state@, *reply),
{
    match state {
        SubmissionState::Pending => match reply {
            Reply::Failed => SubmissionState::Finalized(
                SubmissionOutcome::Rejected(RejectReason::TrialFailed),
            ),
            Reply::Answer(body) => match trial_token(body) {
                Some(token) => SubmissionState::TrialSubmitted(token),
                None => SubmissionState::Finalized(
                    SubmissionOutcome::Rejected(RejectReason::TokenMissing),
                ),
            },
        },
        SubmissionState::TrialSubmitted(_) => match reply {
            Reply::Failed => SubmissionState::Finalized(
                SubmissionOutcome::Rejected(RejectReason::FinalFailed),
            ),
            Reply::Answer(body) => SubmissionState::Finalized(classify_final(body)),
        },
        SubmissionState::Finalized(outcome) => SubmissionState::Finalized(outcome),
    }
}

/// How a submission ended, once it has.
pub fn outcome_of(state: &SubmissionState) -> (r: Option<SubmissionOutcome>)
    ensures
        match r {
            Some(outcome) => state@ == StateView::Finalized(outcome),
            None => !(state@ is Finalized),
        },
{
    match state {
        SubmissionState::Finalized(outcome) => Some(*outcome),
        _ => None,
    }
}

} // verus!
