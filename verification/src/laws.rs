//! What holds of the dialog and of a submission as a whole.

use vstd::prelude::*;

use crate::email::email_is_valid;
use crate::modal::{
    count_is_valid, counted, discard_effects, editor_effects, effects_of, opened, EmailBorder,
    FeedbackEditorEvent, FeedbackModalView, LabelColor,
};
use crate::prompt::{failure_prompt, is_yes};
use crate::state::{
    CannotSubmitReason, SubmissionState,
};
use crate::submission::{
    is_reply, next, request_body, ClientDescriptionView, ModalUpdate, ReportView,
    SubmissionActionView, SubmissionEventView, SubmissionOutcomeView, SubmissionStepView,
    SubmissionView,
};
use crate::text::{decimal, decimal_nat};
use crate::transport::{
    feedback_request, is_success, post_request_error, SubmissionErrorView,
    CONTENT_TYPE_NAME, CONTENT_TYPE_VALUE,
};

verus! {

/// Anything that changes a dialog.
pub ghost enum ModalEvent {
    EditorChanged(FeedbackEditorEvent),
    Assessed { valid_email_address: bool },
    Updated(ModalUpdate),
    DiscardAnswered(Option<usize>),
}

/// The dialog after one event.
pub open spec fn after<S>(modal: FeedbackModalView<S>, event: ModalEvent) -> FeedbackModalView<S> {
    match event {
        ModalEvent::EditorChanged(event) => modal.editor_changed(event),
        ModalEvent::Assessed { valid_email_address } => modal.assessed(valid_email_address),
        ModalEvent::Updated(update) => modal.updated(update),
        ModalEvent::DiscardAnswered(answer) => modal.discard_answered(answer),
    }
}

/// The dialog after a sequence of events.
pub open spec fn after_all<S>(
    modal: FeedbackModalView<S>,
    events: Seq<ModalEvent>,
) -> FeedbackModalView<S>
    decreases events.len(),
{
    if events.len() == 0 {
        modal
    } else {
        after(after_all(modal, events.drop_last()), events.last())
    }
}

/// The dialog's invariant: its count is a 32-bit number, and where it is known to be invalid, one
/// of the two reasons is given and no other bit is set.
pub open spec fn well_formed<S>(modal: FeedbackModalView<S>) -> bool {
    &&& i32::MIN <= modal.character_count <= i32::MAX
    &&& (modal.submission_state matches Some(
        SubmissionState::CannotSubmit { reason: CannotSubmitReason::InvalidState { flags } },
    ) ==> flags.bits == 1 || flags.bits == 2 || flags.bits == 3)
}

/// Whatever happens to a dialog, its invariant holds and its description of the system stays what
/// it was opened with.
pub proof fn law_invariant<S>(system_specs: S, events: Seq<ModalEvent>)
    ensures
        well_formed(after_all(opened(system_specs), events)),
        after_all(opened(system_specs), events).system_specs == system_specs,
    decreases events.len(),
{
    assert(1u8 | 2u8 == 3u8) by (bit_vector);
    if events.len() > 0 {
        law_invariant(system_specs, events.drop_last());
    }
}

/// A look at the contents of a dialog that is not submitting allows submission exactly if the email
/// address and the character count are valid, and each of the two is found invalid exactly if it
/// is.
pub proof fn law_assessed_exactly<S>(modal: FeedbackModalView<S>, valid_email_address: bool)
    requires
        !modal.awaiting_submission(),
    ensures
        modal.assessed(valid_email_address).can_submit() <==> valid_email_address && count_is_valid(
            modal.character_count,
        ),
        modal.assessed(valid_email_address).valid_email_address() <==> valid_email_address,
        modal.assessed(valid_email_address).valid_character_count() <==> count_is_valid(
            modal.character_count,
        ),
        !modal.assessed(valid_email_address).awaiting_submission(),
{
    assert((1u8 | 2u8) & 1u8 == 1u8 && (1u8 | 2u8) & 2u8 == 2u8 && 1u8 & 2u8 == 0u8 && 2u8 & 1u8
        == 0u8 && 1u8 & 1u8 == 1u8 && 2u8 & 2u8 == 2u8) by (bit_vector);
}

/// After a look at its contents, a dialog may be submitted, is submitting, or has an invalid email
/// address or character count: one of the three, and never two of them.
pub proof fn law_assessed_trichotomy<S>(modal: FeedbackModalView<S>, valid_email_address: bool)
    ensures
        ({
            let seen = modal.assessed(valid_email_address);
            let invalid = !seen.valid_email_address() || !seen.valid_character_count();
            &&& seen.can_submit() || seen.awaiting_submission() || invalid
            &&& !(seen.can_submit() && seen.awaiting_submission())
            &&& !(seen.can_submit() && invalid)
            &&& !(seen.awaiting_submission() && invalid)
        }),
{
    if !modal.awaiting_submission() {
        law_assessed_exactly(modal, valid_email_address);
    }
}

/// A second look at the same contents changes nothing.
pub proof fn law_assessed_idempotent<S>(modal: FeedbackModalView<S>, valid_email_address: bool)
    ensures
        modal.assessed(valid_email_address).assessed(valid_email_address) == modal.assessed(
            valid_email_address,
        ),
{
}

/// Looking at the contents changes neither what was typed nor whether the dialog may close.
pub proof fn law_assessed_frame<S>(modal: FeedbackModalView<S>, valid_email_address: bool)
    ensures
        modal.assessed(valid_email_address).character_count == modal.character_count,
        modal.assessed(valid_email_address).dismiss_modal == modal.dismiss_modal,
        modal.assessed(valid_email_address).system_specs == modal.system_specs,
{
}

/// A submission that is under way stays so, whatever else happens, until it fails.
pub proof fn law_awaiting_persists<S>(modal: FeedbackModalView<S>, events: Seq<ModalEvent>)
    requires
        modal.awaiting_submission(),
        forall|i: int|
            0 <= i < events.len() ==> #[trigger] events[i] != ModalEvent::Updated(
                ModalUpdate::SubmissionFailed,
            ),
    ensures
        after_all(modal, events).awaiting_submission(),
    decreases events.len(),
{
    if events.len() > 0 {
        assert(events.last() == events[events.len() - 1]);
        assert forall|i: int| 0 <= i < events.drop_last().len() implies #[trigger]
        events.drop_last()[i] != ModalEvent::Updated(ModalUpdate::SubmissionFailed) by {
            assert(events.drop_last()[i] == events[i]);
        }
        law_awaiting_persists(modal, events.drop_last());
    }
}

/// A dialog that may close keeps that permission, and closes without asking whatever it holds.
pub proof fn law_dismissal_persists<S>(
    modal: FeedbackModalView<S>,
    events: Seq<ModalEvent>,
    has_feedback: bool,
)
    requires
        modal.dismiss_modal,
    ensures
        after_all(modal, events).dismiss_modal,
        after_all(modal, events).closes_at_once(has_feedback),
    decreases events.len(),
{
    if events.len() > 0 {
        law_dismissal_persists(modal, events.drop_last(), has_feedback);
    }
}

/// A dialog with a report closes without asking only if its report was submitted or the user
/// agreed to discard it.
pub proof fn law_report_is_not_lost<S>(system_specs: S, events: Seq<ModalEvent>)
    requires
        after_all(opened(system_specs), events).closes_at_once(true),
    ensures
        exists|i: int|
            0 <= i < events.len() && (#[trigger] events[i] == ModalEvent::Updated(
                ModalUpdate::Submitted,
            ) || events[i] == ModalEvent::DiscardAnswered(Some(0usize))),
    decreases events.len(),
{
    if events.len() > 0 {
        let rest = events.drop_last();
        if after_all(opened(system_specs), rest).closes_at_once(true) {
            law_report_is_not_lost(system_specs, rest);
            let i = choose|i: int|
                0 <= i < rest.len() && (#[trigger] rest[i] == ModalEvent::Updated(
                    ModalUpdate::Submitted,
                ) || rest[i] == ModalEvent::DiscardAnswered(Some(0usize)));
            assert(events[i] == rest[i]);
        } else {
            assert(events.last() == events[events.len() - 1]);
        }
    }
}

/// The submit button is enabled exactly if the report may be submitted, and then nothing is marked
/// as wrong. While a submission is under way the button is disabled, says so, and nothing is marked
/// as wrong either.
pub proof fn law_appearance<S>(modal: FeedbackModalView<S>)
    ensures
        modal.appearance().submit_button_disabled <==> !modal.can_submit(),
        modal.appearance().submit_button_text == "Submitting..."@ <==> modal.awaiting_submission(),
        modal.awaiting_submission() ==> modal.appearance().submit_button_disabled,
        modal.can_submit() || modal.awaiting_submission() ==> modal.appearance().count_label_color
            == LabelColor::Success && modal.appearance().email_border == EmailBorder::Normal,
{
    reveal_strlit("Submitting...");
    reveal_strlit("Submit");
    assert("Submitting..."@.len() == 13 && "Submit"@.len() == 6);
}

/// The email address is optional: without one, the character count alone decides.
pub proof fn law_email_is_optional<S>(modal: FeedbackModalView<S>)
    requires
        !modal.awaiting_submission(),
    ensures
        modal.assessed(email_is_valid(None)).can_submit() <==> count_is_valid(
            modal.character_count,
        ),
        modal.assessed(email_is_valid(None)).valid_email_address(),
{
    law_assessed_exactly(modal, email_is_valid(None));
}

/// The label asks for more characters exactly if there are fewer than ten.
pub proof fn law_count_label<S>(modal: FeedbackModalView<S>)
    ensures
        modal.appearance().count_label == "Feedback must be at least 10 characters."@
            <==> modal.character_count < 10,
{
    reveal_strlit("Feedback must be at least 10 characters.");
    reveal_strlit("Feedback must be at least ");
    reveal_strlit(" characters.");
    reveal_strlit("Characters: ");
    reveal_with_fuel(decimal_nat, 3);
    assert(decimal(10) =~= seq!['1', '0']);
    assert("Feedback must be at least "@ + decimal(10) + " characters."@
        =~= "Feedback must be at least 10 characters."@);
    if modal.character_count >= 10 {
        assert(modal.appearance().count_label[0] == 'C');
    }
}

/// An edit sets the count to the length of the whole text, and the dialog is drawn anew. Any other
/// event of the editor changes nothing and has no effect. Neither touches the rest of the dialog,
/// closes it or asks anything.
pub proof fn law_only_edits_count<S>(modal: FeedbackModalView<S>, event: FeedbackEditorEvent)
    ensures
        modal.editor_changed(event).character_count == (match event {
            FeedbackEditorEvent::Edited { len } => counted(len as int),
            FeedbackEditorEvent::Other => modal.character_count,
        }),
        editor_effects(event).notify <==> event is Edited,
        event is Other ==> modal.editor_changed(event) == modal,
        modal.editor_changed(event).submission_state == modal.submission_state,
        modal.editor_changed(event).dismiss_modal == modal.dismiss_modal,
        modal.editor_changed(event).system_specs == modal.system_specs,
        !editor_effects(event).dismiss,
        editor_effects(event).prompt is None,
{
}

/// The last edit alone decides the count, whatever the editor reported before it.
pub proof fn law_last_edit_counts<S>(
    modal: FeedbackModalView<S>,
    earlier: FeedbackEditorEvent,
    len: usize,
)
    ensures
        modal.editor_changed(earlier).editor_changed(FeedbackEditorEvent::Edited { len })
            == modal.editor_changed(FeedbackEditorEvent::Edited { len }),
{
}

/// Agreeing to discard the report closes the dialog, with no further question; any other answer
/// changes nothing and has no effect.
pub proof fn law_discarding<S>(
    modal: FeedbackModalView<S>,
    answer: Option<usize>,
    has_feedback: bool,
)
    ensures
        discard_effects(answer).dismiss <==> is_yes(answer),
        !discard_effects(answer).notify,
        discard_effects(answer).prompt is None,
        is_yes(answer) ==> modal.discard_answered(answer).closes_at_once(has_feedback),
        !is_yes(answer) ==> modal.discard_answered(answer) == modal,
{
}

/// A report of up to `i32::MAX` characters is counted exactly.
pub proof fn law_counted_exactly(len: int)
    requires
        0 <= len <= i32::MAX,
    ensures
        counted(len) == len,
{
}

/// A failed submission is reported and can be tried again at once, and the dialog stays open with
/// what was typed.
pub proof fn law_failure_allows_retry<S>(modal: FeedbackModalView<S>)
    ensures
        modal.updated(ModalUpdate::SubmissionFailed).can_submit(),
        !modal.updated(ModalUpdate::SubmissionFailed).appearance().submit_button_disabled,
        modal.updated(ModalUpdate::SubmissionFailed).dismiss_modal == modal.dismiss_modal,
        modal.updated(ModalUpdate::SubmissionFailed).character_count == modal.character_count,
        modal.updated(ModalUpdate::SubmissionFailed).system_specs == modal.system_specs,
        !effects_of(ModalUpdate::SubmissionFailed).dismiss,
        effects_of(ModalUpdate::SubmissionFailed).prompt == Some(failure_prompt()),
{
}

/// A submitted report closes the dialog, and no question is asked on the way.
pub proof fn law_success_closes<S>(modal: FeedbackModalView<S>, has_feedback: bool)
    ensures
        effects_of(ModalUpdate::Submitted).dismiss,
        effects_of(ModalUpdate::Submitted).prompt is None,
        modal.updated(ModalUpdate::Submitted).closes_at_once(has_feedback),
{
}

/// The steps that a sequence of events takes a submission through, or `None` where one of the
/// events is not what the submission waits for.
pub open spec fn run<S>(submission: SubmissionView<S>, events: Seq<SubmissionEventView>) -> Option<
    Seq<SubmissionStepView<S>>,
>
    decreases events.len(),
{
    if events.len() == 0 {
        Some(Seq::empty())
    } else {
        match next(submission, events.first()) {
            None => None,
            Some(step) => match run(step.submission, events.drop_first()) {
                None => None,
                Some(steps) => Some(seq![step] + steps),
            },
        }
    }
}

/// The dialog after the changes that these steps bring about.
pub open spec fn modal_after<S>(
    modal: FeedbackModalView<S>,
    steps: Seq<SubmissionStepView<S>>,
) -> FeedbackModalView<S>
    decreases steps.len(),
{
    if steps.len() == 0 {
        modal
    } else {
        modal_after(
            match steps.first().update {
                Some(update) => modal.updated(update),
                None => modal,
            },
            steps.drop_first(),
        )
    }
}

/// The greatest number of events that a submission still waits for.
pub open spec fn events_left<S>(submission: SubmissionView<S>) -> nat {
    match submission {
        SubmissionView::Confirming { .. } => 4,
        SubmissionView::Describing { .. } => 3,
        SubmissionView::Encoding { .. } => 2,
        SubmissionView::Sending => 1,
        SubmissionView::Simulating => 1,
        SubmissionView::Finished => 0,
    }
}

/// The user agreed to submit.
pub open spec fn says_yes(event: SubmissionEventView) -> bool {
    match event {
        SubmissionEventView::Answered(answer) => is_yes(answer),
        _ => false,
    }
}

/// The events of a submission from the client's description on, where all went well.
pub open spec fn went_well(events: Seq<SubmissionEventView>) -> bool {
    &&& events.len() == 3
    &&& events[0] is Described
    &&& events[1] is Encoded
    &&& events[1]->Encoded_0 is Ok
    &&& post_request_error(
        events[0]->Described_0.endpoint,
        CONTENT_TYPE_NAME@,
        CONTENT_TYPE_VALUE@,
    ) is None
    &&& events[2] is Responded
    &&& events[2]->Responded_0 is Ok
    &&& is_success(events[2]->Responded_0->Ok_0)
}

/// The steps of a run that ended.
pub open spec fn ended<S>(steps: Seq<SubmissionStepView<S>>) -> bool {
    steps.len() > 0 && steps.last().submission is Finished
}

/// A submission comes to an end: each step brings it nearer, and a run has one step per event.
pub proof fn law_run_is_bounded<S>(
    submission: SubmissionView<S>,
    events: Seq<SubmissionEventView>,
)
    requires
        run(submission, events) is Some,
    ensures
        run(submission, events)->0.len() == events.len(),
        events.len() <= events_left(submission),
    decreases events.len(),
{
    if events.len() > 0 {
        let step = next(submission, events.first())->0;
        law_run_is_bounded(step.submission, events.drop_first());
    }
}

/// A submission waits for exactly what its last action brings: a host that performs the action and
/// reports what came of it is never refused.
pub proof fn law_action_is_answered<S>(
    submission: SubmissionView<S>,
    event: SubmissionEventView,
    reply: SubmissionEventView,
)
    requires
        next(submission, event) is Some,
    ensures
        ({
            let step = next(submission, event)->0;
            next(step.submission, reply) is Some <==> match step.action {
                SubmissionActionView::Wait { .. } => reply is WaitOver,
                SubmissionActionView::Describe { .. } => reply is Described,
                SubmissionActionView::Encode(_) => reply is Encoded,
                SubmissionActionView::Send(_) => reply is Responded && is_reply(
                    reply->Responded_0,
                ),
                SubmissionActionView::Finish(_) => false,
            }
        }),
{
}

/// A step tells the dialog that a submission is under way exactly if the user just said yes, that
/// it succeeded exactly if it ends so, and that it failed exactly if it ends so.
pub proof fn law_updates_match<S>(submission: SubmissionView<S>, event: SubmissionEventView)
    requires
        next(submission, event) is Some,
    ensures
        ({
            let step = next(submission, event)->0;
            &&& step.update == Some(ModalUpdate::AwaitSubmission) <==> says_yes(event)
            &&& step.update == Some(ModalUpdate::Submitted) <==> step.action
                == SubmissionActionView::<S>::Finish(SubmissionOutcomeView::Submitted)
            &&& step.update == Some(ModalUpdate::SubmissionFailed) <==> (step.action is Finish
                && step.action->Finish_0 is Failed)
            &&& step.submission is Finished <==> step.action is Finish
        }),
{
}

/// Nothing is done for a submission unless the user's first answer was yes, and a development
/// build describes, encodes and sends nothing at all.
pub proof fn law_consent<S>(
    report: ReportView<S>,
    dev_mode: bool,
    events: Seq<SubmissionEventView>,
    i: int,
)
    requires
        run(SubmissionView::Confirming { report, dev_mode }, events) is Some,
        0 <= i < events.len(),
    ensures
        ({
            let action = run(SubmissionView::Confirming { report, dev_mode }, events)->0[i].action;
            &&& action !is Finish ==> says_yes(events[0])
            &&& action is Describe || action is Encode || action is Send ==> !dev_mode
        }),
{
    let start = SubmissionView::Confirming { report, dev_mode };
    law_run_is_bounded(start, events);
    let step = next(start, events.first())->0;
    let rest = events.drop_first();
    law_run_is_bounded(step.submission, rest);
    let steps = run(step.submission, rest)->0;
    assert(run(start, events)->0 == seq![step] + steps);
    if dev_mode && i > 0 {
        let last = next(step.submission, rest.first())->0;
        law_run_is_bounded(last.submission, rest.drop_first());
        assert(run(start, events)->0[i] == steps[i - 1]);
        assert(steps[0] == last);
    }
}

/// From the moment the user said yes, a run that ends leaves the dialog as its outcome demands,
/// whatever the dialog was before.
proof fn lemma_ended_run_updates<S>(
    submission: SubmissionView<S>,
    events: Seq<SubmissionEventView>,
    modal: FeedbackModalView<S>,
)
    requires
        run(submission, events) is Some,
        ended(run(submission, events)->0),
        !(submission is Confirming),
    ensures
        ({
            let steps = run(submission, events)->0;
            match steps.last().action {
                SubmissionActionView::Finish(SubmissionOutcomeView::Submitted) => modal_after(
                    modal,
                    steps,
                ) == modal.updated(ModalUpdate::Submitted),
                SubmissionActionView::Finish(SubmissionOutcomeView::Failed(_)) => modal_after(
                    modal,
                    steps,
                ) == modal.updated(ModalUpdate::SubmissionFailed),
                _ => false,
            }
        }),
    decreases events.len(),
{
    law_run_is_bounded(submission, events);
    let step = next(submission, events.first())->0;
    let rest = events.drop_first();
    let steps = run(step.submission, rest)->0;
    let all = run(submission, events)->0;
    assert(all == seq![step] + steps);
    assert(all.drop_first() =~= steps);
    law_run_is_bounded(step.submission, rest);
    if rest.len() > 0 {
        assert(all.last() == steps.last());
        lemma_ended_run_updates(step.submission, rest, modal);
    } else {
        assert(all.last() == step);
        reveal_with_fuel(modal_after, 2);
    }
}

/// What a whole submission does to the dialog: one that is declined leaves it alone; one that
/// succeeds leaves it ready to close; one that fails leaves it ready to submit again. Neither
/// changes what was typed nor the description of the system.
pub proof fn law_whole_submission<S>(
    report: ReportView<S>,
    dev_mode: bool,
    events: Seq<SubmissionEventView>,
    modal: FeedbackModalView<S>,
)
    requires
        run(SubmissionView::Confirming { report, dev_mode }, events) is Some,
        ended(run(SubmissionView::Confirming { report, dev_mode }, events)->0),
    ensures
        ({
            let steps = run(SubmissionView::Confirming { report, dev_mode }, events)->0;
            match steps.last().action {
                SubmissionActionView::Finish(SubmissionOutcomeView::Declined) => modal_after(
                    modal,
                    steps,
                ) == modal,
                SubmissionActionView::Finish(SubmissionOutcomeView::Submitted) => {
                    &&& modal_after(modal, steps) == modal.updated(
                        ModalUpdate::AwaitSubmission,
                    ).updated(ModalUpdate::Submitted)
                    &&& modal_after(modal, steps).dismiss_modal
                    &&& modal_after(modal, steps).awaiting_submission()
                },
                SubmissionActionView::Finish(SubmissionOutcomeView::Failed(_)) => {
                    &&& modal_after(modal, steps) == modal.updated(
                        ModalUpdate::AwaitSubmission,
                    ).updated(ModalUpdate::SubmissionFailed)
                    &&& modal_after(modal, steps).can_submit()
                    &&& modal_after(modal, steps).dismiss_modal == modal.dismiss_modal
                },
                _ => false,
            }
        }),
        ({
            let steps = run(SubmissionView::Confirming { report, dev_mode }, events)->0;
            &&& modal_after(modal, steps).character_count == modal.character_count
            &&& modal_after(modal, steps).system_specs == modal.system_specs
        }),
{
    let start = SubmissionView::Confirming { report, dev_mode };
    law_run_is_bounded(start, events);
    let step = next(start, events.first())->0;
    let rest = events.drop_first();
    let steps = run(step.submission, rest)->0;
    let all = run(start, events)->0;
    assert(all == seq![step] + steps);
    assert(all.drop_first() =~= steps);
    law_run_is_bounded(step.submission, rest);
    if rest.len() > 0 {
        assert(all.last() == steps.last());
        lemma_ended_run_updates(
            step.submission,
            rest,
            modal.updated(ModalUpdate::AwaitSubmission),
        );
    } else {
        assert(all.last() == step);
        reveal_with_fuel(modal_after, 2);
    }
}

/// What reaches the wire: the body to encode is made of the report and the client's description,
/// and the encoded body goes to the client's endpoint as it is, unless no request can be made for
/// that endpoint.
pub proof fn law_report_reaches_the_wire<S>(
    report: ReportView<S>,
    answer: Option<usize>,
    client: ClientDescriptionView,
    json: Seq<u8>,
)
    requires
        is_yes(answer),
    ensures
        ({
            let start = SubmissionView::Confirming { report, dev_mode: false };
            let events = seq![
                SubmissionEventView::Answered(answer),
                SubmissionEventView::Described(client),
                SubmissionEventView::Encoded(Ok(json)),
            ];
            let steps = run(start, events)->0;
            &&& run(start, events) is Some
            &&& steps.len() == 3
            &&& steps[1].action == SubmissionActionView::Encode(request_body(report, client))
            &&& match post_request_error(client.endpoint, CONTENT_TYPE_NAME@, CONTENT_TYPE_VALUE@) {
                None => steps[2].action == SubmissionActionView::<S>::Send(
                    feedback_request(client.endpoint, json),
                ),
                Some(text) => steps[2].action == SubmissionActionView::<S>::Finish(
                    SubmissionOutcomeView::Failed(SubmissionErrorView::Request(text)),
                ),
            }
        }),
{
    let first = SubmissionEventView::Answered(answer);
    let second = SubmissionEventView::Described(client);
    let third = SubmissionEventView::Encoded(Ok(json));
    let events = seq![first, second, third];
    reveal_with_fuel(run, 4);
    assert(events.drop_first() =~= seq![second, third]);
    assert(seq![second, third].drop_first() =~= seq![third]);
    assert(seq![third].drop_first() =~= Seq::empty());
}

/// A report that is really sent counts as submitted exactly if its body was encoded, a request
/// could be made for the endpoint, and a reply with a success status was read.
pub proof fn law_submitted_exactly<S>(
    report: ReportView<S>,
    events: Seq<SubmissionEventView>,
)
    requires
        run(SubmissionView::Describing { report }, events) is Some,
        ended(run(SubmissionView::Describing { report }, events)->0),
    ensures
        run(SubmissionView::Describing { report }, events)->0.last().action
            == SubmissionActionView::<S>::Finish(SubmissionOutcomeView::Submitted) <==> went_well(
            events,
        ),
{
    let start = SubmissionView::Describing { report };
    law_run_is_bounded(start, events);
    let first = next(start, events.first())->0;
    let rest = events.drop_first();
    let steps = run(first.submission, rest)->0;
    law_run_is_bounded(first.submission, rest);
    assert(run(start, events)->0 == seq![first] + steps);
    if rest.len() > 0 {
        let second = next(first.submission, rest.first())->0;
        let tail = rest.drop_first();
        let last = run(second.submission, tail)->0;
        law_run_is_bounded(second.submission, tail);
        assert(steps == seq![second] + last);
        assert(rest.first() == events[1]);
        if tail.len() > 0 {
            let third = next(second.submission, tail.first())->0;
            law_run_is_bounded(third.submission, tail.drop_first());
            assert(tail.first() == events[2]);
            assert(last == seq![third] + run(third.submission, tail.drop_first())->0);
        }
    }
}

} // verus!
