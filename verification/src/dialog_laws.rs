//! What the dialog decides and shows, told by what it holds.

use vstd::prelude::*;

use crate::email::{email_is_valid, law_email_validity, regex_is_match};
use crate::modal::{
    begins, count_is_valid, counted, discard_effects, editor_effects, effects_of, opened, Appearance,
    DismissDecision, DismissDecisionView, EmailBorder, FeedbackEditorEvent, FeedbackModalView,
    LabelColor, ModalEffects, FEEDBACK_CHAR_MAX, FEEDBACK_CHAR_MIN,
};
use crate::state::{
    has_bit, law_assessed_state, CannotSubmitReason, InvalidStateFlags, SubmissionState,
};
use crate::submission::{ModalUpdate, SubmissionView};
use crate::text::{
    decimal, is_blank, is_white_space, law_decimal_injective, law_trimmed_is_the_middle,
};

verus! {

/// A new dialog has an empty report, no judgement on its contents and no permission to close, and
/// keeps the description of the system that it was given.
pub proof fn law_new_dialog<S>(system_specs: S)
    ensures
        opened(system_specs).system_specs == system_specs,
        opened(system_specs).submission_state is None,
        !opened(system_specs).dismiss_modal,
        opened(system_specs).character_count == 0,
{
}

/// The judgement on a dialog that is not submitting: the report may be submitted exactly if the email
/// field is valid and there are 10 to 5000 characters. Each part is found invalid exactly if it is,
/// whatever the other one is.
pub proof fn law_judgement<S>(modal: FeedbackModalView<S>, valid_email_address: bool)
    requires
        !modal.awaiting_submission(),
    ensures
        ({
            let seen = modal.assessed(valid_email_address);
            &&& seen.can_submit() <==> valid_email_address && 10 <= modal.character_count <= 5000
            &&& seen.valid_email_address() <==> valid_email_address
            &&& seen.valid_character_count() <==> 10 <= modal.character_count <= 5000
            &&& !seen.awaiting_submission()
            &&& seen.submission_state is Some
        }),
{
    law_assessed_state(valid_email_address, 10 <= modal.character_count <= 5000);
    law_queries(modal.assessed(valid_email_address), InvalidStateFlags { bits: 1 });
}

/// While a submission is under way, a look at the contents changes nothing at all.
pub proof fn law_no_judgement_while_submitting<S>(
    modal: FeedbackModalView<S>,
    valid_email_address: bool,
)
    requires
        modal.submission_state == Some(
            SubmissionState::CannotSubmit { reason: CannotSubmitReason::AwaitingSubmission },
        ),
    ensures
        modal.assessed(valid_email_address) == modal,
{
}

/// Two dialogs with reports of any good length get the same judgement: within the limits the length
/// does not matter. Between a good length and one outside the limits it always does.
pub proof fn law_judgement_by_limits_alone<S>(
    modal: FeedbackModalView<S>,
    other: FeedbackModalView<S>,
    valid_email_address: bool,
)
    requires
        !modal.awaiting_submission(),
        !other.awaiting_submission(),
        10 <= modal.character_count <= 5000,
    ensures
        10 <= other.character_count <= 5000 ==> modal.assessed(
            valid_email_address,
        ).submission_state == other.assessed(valid_email_address).submission_state,
        !(10 <= other.character_count <= 5000) ==> modal.assessed(
            valid_email_address,
        ).submission_state != other.assessed(valid_email_address).submission_state,
{
    law_judgement(modal, valid_email_address);
    law_judgement(other, valid_email_address);
}

/// The limits on a report's length.
pub proof fn law_limits(count: int)
    ensures
        FEEDBACK_CHAR_MIN == 10,
        FEEDBACK_CHAR_MAX == 5000,
        count_is_valid(count) <==> 10 <= count <= 5000,
{
}

/// The questions about a dialog's state, each told by the state itself. A part of the contents is
/// taken for valid unless its bit is set.
pub proof fn law_queries<S>(modal: FeedbackModalView<S>, flag: InvalidStateFlags)
    ensures
        ({
            let state = modal.submission_state->0;
            let invalid = modal.submission_state is Some && state is CannotSubmit
                && state->reason is InvalidState;
            let bits = state->reason->flags.bits;
            &&& modal.can_submit() <==> modal.submission_state is Some && state is CanSubmit
            &&& modal.awaiting_submission() <==> modal.submission_state is Some
                && state is CannotSubmit && state->reason is AwaitingSubmission
            &&& modal.in_invalid_state(flag) <==> invalid && bits & flag.bits == flag.bits
            &&& modal.valid_email_address() <==> !(invalid && has_bit(bits, 0))
            &&& modal.valid_character_count() <==> !(invalid && has_bit(bits, 1))
        }),
{
    let bits = modal.submission_state->0->reason->flags.bits;
    assert((bits & 1 == 1 <==> (bits >> 0u8) & 1 == 1) && (bits & 2 == 2 <==> (bits >> 1u8) & 1
        == 1)) by (bit_vector);
}

/// Without feedback every dialog closes at once; with feedback exactly one that has the permission
/// does.
pub proof fn law_closing<S>(modal: FeedbackModalView<S>)
    ensures
        modal.closes_at_once(false),
        modal.closes_at_once(true) <==> modal.dismiss_modal,
{
}

/// Neither a look at the contents nor an edit has a say in whether the dialog closes.
pub proof fn law_closing_ignores_contents<S>(
    modal: FeedbackModalView<S>,
    valid_email_address: bool,
    event: FeedbackEditorEvent,
    has_feedback: bool,
)
    ensures
        modal.assessed(valid_email_address).closes_at_once(has_feedback) == modal.closes_at_once(
            has_feedback,
        ),
        modal.editor_changed(event).closes_at_once(has_feedback) == modal.closes_at_once(
            has_feedback,
        ),
{
}

/// What a dialog marks as wrong: the email field exactly if the address is known to be invalid, the
/// counter exactly if the count is. The button is enabled exactly if the report may be submitted,
/// and says so exactly if a submission is under way.
pub proof fn law_marks<S>(modal: FeedbackModalView<S>)
    ensures
        modal.appearance().email_border == EmailBorder::Error <==> !modal.valid_email_address(),
        modal.appearance().email_border == EmailBorder::Normal <==> modal.valid_email_address(),
        modal.appearance().count_label_color == LabelColor::Error
            <==> !modal.valid_character_count(),
        modal.appearance().count_label_color == LabelColor::Success
            <==> modal.valid_character_count(),
        modal.appearance().submit_button_disabled <==> modal.submission_state != Some(
            SubmissionState::CanSubmit,
        ),
        modal.awaiting_submission() ==> modal.appearance().submit_button_text == "Submitting..."@,
        !modal.awaiting_submission() ==> modal.appearance().submit_button_text == "Submit"@,
{
}

/// What is drawn after a look at a dialog that is not submitting: the border is red exactly if the
/// email field is invalid, the counter exactly if there are not 10 to 5000 characters, and the
/// button is enabled exactly if neither is.
pub proof fn law_drawn_after_a_look<S>(modal: FeedbackModalView<S>, valid_email_address: bool)
    requires
        !modal.awaiting_submission(),
    ensures
        ({
            let drawn = modal.assessed(valid_email_address).appearance();
            &&& drawn.email_border == EmailBorder::Error <==> !valid_email_address
            &&& drawn.count_label_color == LabelColor::Error <==> !(10 <= modal.character_count
                <= 5000)
            &&& drawn.submit_button_disabled <==> drawn.email_border == EmailBorder::Error
                || drawn.count_label_color == LabelColor::Error
            &&& drawn.submit_button_text == "Submit"@
        }),
{
    law_judgement(modal, valid_email_address);
}

/// What is drawn while a submission is under way, whatever the contents.
pub proof fn law_drawn_while_submitting<S>(modal: FeedbackModalView<S>, valid_email_address: bool)
    requires
        modal.awaiting_submission(),
    ensures
        ({
            let drawn = modal.assessed(valid_email_address).appearance();
            &&& drawn.email_border == EmailBorder::Normal
            &&& drawn.count_label_color == LabelColor::Success
            &&& drawn.submit_button_disabled
            &&& drawn.submit_button_text == "Submitting..."@
        }),
{
}

/// The counter's label: a demand for ten characters below ten, and from ten on the number of
/// characters that are left up to 5000, negative where there are too many.
pub proof fn law_counter_text<S>(modal: FeedbackModalView<S>)
    ensures
        modal.character_count < 10 ==> modal.appearance().count_label
            == "Feedback must be at least "@ + decimal(10) + " characters."@,
        modal.character_count >= 10 ==> modal.appearance().count_label == "Characters: "@ + decimal(
            5000 - modal.character_count,
        ),
{
}

/// From ten characters on, the counter tells any two lengths apart.
pub proof fn law_counter_tells_lengths_apart<S>(
    modal: FeedbackModalView<S>,
    other: FeedbackModalView<S>,
)
    requires
        modal.character_count >= 10,
        other.character_count >= 10,
        modal.appearance().count_label == other.appearance().count_label,
    ensures
        modal.character_count == other.character_count,
{
    let m = decimal(5000 - modal.character_count);
    let n = decimal(5000 - other.character_count);
    let prefix = "Characters: "@;
    assert((prefix + m).skip(prefix.len() as int) =~= m);
    assert((prefix + n).skip(prefix.len() as int) =~= n);
    law_decimal_injective(5000 - modal.character_count, 5000 - other.character_count);
}

/// The count that an edit leaves is the length itself where it fits 32 signed bits, and otherwise
/// the one number that fits and differs from it by a multiple of 2 to the 32nd.
pub proof fn law_count_of_length<S>(modal: FeedbackModalView<S>, len: usize)
    ensures
        ({
            let count = modal.editor_changed(FeedbackEditorEvent::Edited { len }).character_count;
            &&& len <= 0x7fff_ffff ==> count == len
            &&& -0x8000_0000 <= count <= 0x7fff_ffff
            &&& (len - count) % 0x1_0000_0000 == 0
            &&& count == counted(len as int)
        }),
{
}

/// What the editor of the report can change: an edit the count, anything else nothing.
pub proof fn law_editor_frame<S>(modal: FeedbackModalView<S>, event: FeedbackEditorEvent)
    ensures
        event is Other ==> modal.editor_changed(event) == modal,
        modal.editor_changed(event).submission_state == modal.submission_state,
        modal.editor_changed(event).dismiss_modal == modal.dismiss_modal,
        modal.editor_changed(event).system_specs == modal.system_specs,
        editor_effects(event).notify <==> event is Edited,
        !editor_effects(event).dismiss,
        editor_effects(event).prompt is None,
{
}

/// What a submission's progress changes: its start the state alone, its success the permission to
/// close alone, its failure the state alone.
pub proof fn law_progress<S>(modal: FeedbackModalView<S>, update: ModalUpdate)
    ensures
        ({
            let new = modal.updated(update);
            &&& new.character_count == modal.character_count
            &&& new.system_specs == modal.system_specs
            &&& update is AwaitSubmission ==> new.awaiting_submission() && new.dismiss_modal
                == modal.dismiss_modal
            &&& update is Submitted ==> new.submission_state == modal.submission_state
                && new.dismiss_modal
            &&& update is SubmissionFailed ==> new.can_submit() && new.dismiss_modal
                == modal.dismiss_modal
        }),
{
}

/// What the user sees of a submission's progress: each has the dialog drawn anew, success alone
/// closes it, and failure alone puts a prompt up, which tells of the failure.
pub proof fn law_progress_effects(update: ModalUpdate)
    ensures
        effects_of(update).notify,
        effects_of(update).dismiss <==> update is Submitted,
        effects_of(update).prompt is Some <==> update is SubmissionFailed,
        update is SubmissionFailed ==> effects_of(update).prompt->0.message
            == "Feedback failed to submit, see error log for details."@,
{
}

/// What the answer to the question whether to discard the report changes: the first answer gives
/// the permission to close and closes; no answer takes it away, and nothing else changes.
pub proof fn law_discard_answer<S>(modal: FeedbackModalView<S>, answer: Option<usize>)
    ensures
        modal.discard_answered(answer).dismiss_modal <==> modal.dismiss_modal || answer == Some(
            0usize,
        ),
        modal.discard_answered(answer).submission_state == modal.submission_state,
        modal.discard_answered(answer).character_count == modal.character_count,
        modal.discard_answered(answer).system_specs == modal.system_specs,
        discard_effects(answer).dismiss <==> answer == Some(0usize),
        !discard_effects(answer).notify,
        discard_effects(answer).prompt is None,
{
}

/// Looks, effects and decisions are seen with every part as it is.
pub proof fn law_dialog_views(
    looks: Appearance,
    effects: ModalEffects,
    decision: DismissDecision,
)
    ensures
        looks@.count_label == looks.count_label@,
        looks@.count_label_color == looks.count_label_color,
        looks@.email_border == looks.email_border,
        looks@.submit_button_text == looks.submit_button_text@,
        looks@.submit_button_disabled == looks.submit_button_disabled,
        effects@.notify == effects.notify,
        effects@.dismiss == effects.dismiss,
        effects@.prompt is Some <==> effects.prompt is Some,
        effects.prompt is Some ==> effects@.prompt->0 == effects.prompt->0@,
        decision is Dismiss ==> decision@ == DismissDecisionView::Dismiss(decision->Dismiss_0),
        decision is Pending ==> decision@ == DismissDecisionView::Pending(decision->Pending_0@),
{
}

/// A look at the contents of a dialog that is not submitting: with an address in the email field
/// the report may be submitted exactly if the email pattern matches the address and there are 10 to
/// 5000 characters; with an empty field the number of characters alone decides. The address is
/// found invalid exactly if the pattern does not match it.
pub proof fn law_looked_at<S>(modal: FeedbackModalView<S>, address: Seq<char>)
    requires
        !modal.awaiting_submission(),
    ensures
        ({
            let matches = regex_is_match(
                r"\b[A-Za-z0-9._%+-]+@[A-Za-z0-9.-]+\.[A-Z|a-z]{2,}\b"@,
                address,
            );
            let good_length = 10 <= modal.character_count <= 5000;
            &&& modal.looked_at(Some(address)).can_submit() <==> matches && good_length
            &&& modal.looked_at(Some(address)).valid_email_address() <==> matches
            &&& modal.looked_at(Some(address)).valid_character_count() <==> good_length
            &&& modal.looked_at(None).can_submit() <==> good_length
            &&& modal.looked_at(None).valid_email_address()
            &&& modal.looked_at(None).valid_character_count() <==> good_length
        }),
{
    law_email_validity(address);
    law_judgement(modal, email_is_valid(Some(address)));
    law_judgement(modal, email_is_valid(None));
}

/// A look at the contents leaves all but the judgement alone, and all of it while a submission is
/// under way.
pub proof fn law_looked_at_frame<S>(modal: FeedbackModalView<S>, email: Option<Seq<char>>)
    ensures
        modal.looked_at(email).character_count == modal.character_count,
        modal.looked_at(email).dismiss_modal == modal.dismiss_modal,
        modal.looked_at(email).system_specs == modal.system_specs,
        modal.awaiting_submission() ==> modal.looked_at(email) == modal,
{
}

/// A request to close is granted at once without feedback or with the permission to close, and is
/// otherwise answered by the question whether to discard the feedback. It is never refused.
pub proof fn law_dismiss_decision<S>(modal: FeedbackModalView<S>, has_feedback: bool)
    ensures
        ({
            let decision = modal.dismiss_decision(has_feedback);
            &&& decision is Dismiss <==> !has_feedback || modal.dismiss_modal
            &&& decision is Dismiss ==> decision->Dismiss_0
            &&& decision is Pending ==> decision->Pending_0.message == "Discard feedback?"@
        }),
{
}

/// A submission begins with the question whether to submit. It holds the text without the white
/// space at its ends, the email address and a clone of the system description, and pretends exactly
/// if it was told to.
pub proof fn law_begins<S: Clone>(
    system_specs: S,
    before: Seq<char>,
    inner: Seq<char>,
    after: Seq<char>,
    email: Option<Seq<char>>,
    dev_mode: bool,
    submission: SubmissionView<S>,
)
    requires
        is_blank(before),
        is_blank(after),
        inner.len() > 0 ==> !is_white_space(inner.first()) && !is_white_space(inner.last()),
        begins(system_specs, before + inner + after, email, dev_mode, submission),
    ensures
        submission is Confirming,
        submission->Confirming_report.feedback_text == inner,
        submission->Confirming_report.email == email,
        submission->dev_mode == dev_mode,
        cloned(system_specs, submission->Confirming_report.system_specs),
{
    law_trimmed_is_the_middle(before, inner, after);
}

} // verus!
