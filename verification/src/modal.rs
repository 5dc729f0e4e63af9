//! The dialog itself: what it knows, what it shows and when it may close.

use vstd::prelude::*;

use crate::dialog_laws::law_judgement;
use crate::email::{email_is_valid, option_str, valid_email};
use crate::prompt::{
    answered_yes, discard_prompt, failure_prompt, is_yes, submit_prompt, Prompt, PromptView,
};
use crate::state::{
    assess, assessed_state, CannotSubmitReason, InvalidStateFlags, SubmissionState,
    CHARACTER_COUNT_BIT, EMAIL_ADDRESS_BIT,
};
use crate::store::{email_update, update_email_in_store, StoreUpdate};
use crate::submission::{ModalUpdate, Report, Submission, SubmissionView};
use crate::text::{decimal, option_text, to_decimal, trim, trimmed};

verus! {

/// The least number of characters that a report may have.
pub const FEEDBACK_CHAR_MIN: i32 = 10;

/// The greatest number of characters that a report may have.
pub const FEEDBACK_CHAR_MAX: i32 = 5000;

/// A dialog for a report, which carries along a description `S` of the system.
#[derive(Debug)]
pub struct FeedbackModal<S> {
    system_specs: S,
    submission_state: Option<SubmissionState>,
    dismiss_modal: bool,
    character_count: i32,
}

/// A dialog as a mathematical value.
pub ghost struct FeedbackModalView<S> {
    pub system_specs: S,
    pub submission_state: Option<SubmissionState>,
    pub dismiss_modal: bool,
    pub character_count: int,
}

impl<S> View for FeedbackModal<S> {
    type V = FeedbackModalView<S>;

    closed spec fn view(&self) -> FeedbackModalView<S> {
        FeedbackModalView {
            system_specs: self.system_specs,
            submission_state: self.submission_state,
            dismiss_modal: self.dismiss_modal,
            character_count: self.character_count as int,
        }
    }
}

/// The dialog as it opens.
pub open spec fn opened<S>(system_specs: S) -> FeedbackModalView<S> {
    FeedbackModalView {
        system_specs,
        submission_state: None,
        dismiss_modal: false,
        character_count: 0,
    }
}

/// A report's length as a 32-bit signed number. Lengths of up to `i32::MAX` count as they are,
/// greater ones wrap around.
pub open spec fn counted(len: int) -> int {
    (len + 0x8000_0000) % 0x1_0000_0000 - 0x8000_0000
}

/// Whether a report of `count` characters may be submitted.
pub open spec fn count_is_valid(count: int) -> bool {
    FEEDBACK_CHAR_MIN <= count <= FEEDBACK_CHAR_MAX
}

impl<S> FeedbackModalView<S> {
    /// A submission is under way.
    pub open spec fn awaiting_submission(self) -> bool {
        self.submission_state == Some(
            SubmissionState::CannotSubmit { reason: CannotSubmitReason::AwaitingSubmission },
        )
    }

    /// The report may be submitted.
    pub open spec fn can_submit(self) -> bool {
        self.submission_state == Some(SubmissionState::CanSubmit)
    }

    /// The dialog is known to be invalid for (at least) the reasons in `flag`.
    pub open spec fn in_invalid_state(self, flag: InvalidStateFlags) -> bool {
        match self.submission_state {
            Some(
                SubmissionState::CannotSubmit { reason: CannotSubmitReason::InvalidState { flags } },
            ) => flags.includes(flag),
            _ => false,
        }
    }

    /// The email address is not known to be invalid.
    pub open spec fn valid_email_address(self) -> bool {
        !self.in_invalid_state(InvalidStateFlags { bits: EMAIL_ADDRESS_BIT })
    }

    /// The character count is not known to be invalid.
    pub open spec fn valid_character_count(self) -> bool {
        !self.in_invalid_state(InvalidStateFlags { bits: CHARACTER_COUNT_BIT })
    }

    /// The dialog after something happened in the editor of the report: an edit sets the count,
    /// anything else changes nothing.
    pub open spec fn editor_changed(self, event: FeedbackEditorEvent) -> Self {
        match event {
            FeedbackEditorEvent::Edited { len } => FeedbackModalView {
                character_count: counted(len as int),
                ..self
            },
            FeedbackEditorEvent::Other => self,
        }
    }

    /// The dialog after a look at its contents. While a submission is under way nothing changes.
    pub open spec fn assessed(self, valid_email_address: bool) -> Self {
        if self.awaiting_submission() {
            self
        } else {
            FeedbackModalView {
                submission_state: Some(
                    assessed_state(valid_email_address, count_is_valid(self.character_count)),
                ),
                ..self
            }
        }
    }

    /// The dialog after a look at its contents, of which `email` is what the email field holds.
    pub open spec fn looked_at(self, email: Option<Seq<char>>) -> Self {
        self.assessed(email_is_valid(email))
    }

    /// The dialog after a submission made progress.
    pub open spec fn updated(self, update: ModalUpdate) -> Self {
        match update {
            ModalUpdate::AwaitSubmission => FeedbackModalView {
                submission_state: Some(
                    SubmissionState::CannotSubmit {
                        reason: CannotSubmitReason::AwaitingSubmission,
                    },
                ),
                ..self
            },
            ModalUpdate::Submitted => FeedbackModalView { dismiss_modal: true, ..self },
            ModalUpdate::SubmissionFailed => FeedbackModalView {
                submission_state: Some(SubmissionState::CanSubmit),
                ..self
            },
        }
    }

    /// The dialog after the question whether to discard the report was answered.
    pub open spec fn discard_answered(self, answer: Option<usize>) -> Self {
        if is_yes(answer) {
            FeedbackModalView { dismiss_modal: true, ..self }
        } else {
            self
        }
    }

    /// What the dialog shows.
    pub open spec fn appearance(self) -> AppearanceView {
        AppearanceView {
            count_label: if self.character_count < FEEDBACK_CHAR_MIN {
                "Feedback must be at least "@ + decimal(FEEDBACK_CHAR_MIN as int) + " characters."@
            } else {
                "Characters: "@ + decimal(FEEDBACK_CHAR_MAX - self.character_count)
            },
            count_label_color: if self.valid_character_count() {
                LabelColor::Success
            } else {
                LabelColor::Error
            },
            email_border: if self.valid_email_address() {
                EmailBorder::Normal
            } else {
                EmailBorder::Error
            },
            submit_button_text: if self.awaiting_submission() {
                "Submitting..."@
            } else {
                "Submit"@
            },
            submit_button_disabled: !self.can_submit(),
        }
    }

    /// Whether the dialog may close without asking.
    pub open spec fn closes_at_once(self, has_feedback: bool) -> bool {
        self.dismiss_modal || !has_feedback
    }

    /// The answer to a request to close the dialog.
    pub open spec fn dismiss_decision(self, has_feedback: bool) -> DismissDecisionView {
        if self.closes_at_once(has_feedback) {
            DismissDecisionView::Dismiss(true)
        } else {
            DismissDecisionView::Pending(discard_prompt())
        }
    }
}

/// `submission` is one that waits for the answer to the question whether to submit this report.
pub open spec fn begins<S: Clone>(
    system_specs: S,
    feedback_text: Seq<char>,
    email: Option<Seq<char>>,
    dev_mode: bool,
    submission: SubmissionView<S>,
) -> bool {
    match submission {
        SubmissionView::Confirming { report, dev_mode: pretend } => {
            &&& pretend == dev_mode
            &&& report.feedback_text == trimmed(feedback_text)
            &&& report.email == email
            &&& cloned(system_specs, report.system_specs)
        },
        _ => false,
    }
}

/// What the user sees after something happened in the editor of the report: an edit has the dialog
/// drawn anew, anything else has no effect.
pub open spec fn editor_effects(event: FeedbackEditorEvent) -> ModalEffectsView {
    ModalEffectsView { notify: event is Edited, dismiss: false, prompt: None }
}

/// What the user sees after the question whether to discard the report was answered.
pub open spec fn discard_effects(answer: Option<usize>) -> ModalEffectsView {
    ModalEffectsView { notify: false, dismiss: is_yes(answer), prompt: None }
}

/// What the user sees after a submission made progress.
pub open spec fn effects_of(update: ModalUpdate) -> ModalEffectsView {
    match update {
        ModalUpdate::AwaitSubmission => ModalEffectsView {
            notify: true,
            dismiss: false,
            prompt: None,
        },
        ModalUpdate::Submitted => ModalEffectsView { notify: true, dismiss: true, prompt: None },
        ModalUpdate::SubmissionFailed => ModalEffectsView {
            notify: true,
            dismiss: false,
            prompt: Some(failure_prompt()),
        },
    }
}

/// Something that happened in the editor of the report.
#[derive(Debug, Clone, Copy, PartialEq, Eq, Structural)]
pub enum FeedbackEditorEvent {
    /// The text was edited, and its length is now `len`.
    Edited { len: usize },
    /// Anything else.
    Other,
}

/// The color of the label that counts characters.
#[derive(Debug, Clone, Copy, PartialEq, Eq, Structural)]
pub enum LabelColor {
    Success,
    Error,
}

/// The border around the email field.
#[derive(Debug, Clone, Copy, PartialEq, Eq, Structural)]
pub enum EmailBorder {
    Normal,
    Error,
}

/// The parts of the dialog's looks that depend on its state.
#[derive(Debug)]
pub struct Appearance {
    pub count_label: String,
    pub count_label_color: LabelColor,
    pub email_border: EmailBorder,
    pub submit_button_text: &'static str,
    pub submit_button_disabled: bool,
}

/// The dialog's looks as a mathematical value.
pub ghost struct AppearanceView {
    pub count_label: Seq<char>,
    pub count_label_color: LabelColor,
    pub email_border: EmailBorder,
    pub submit_button_text: Seq<char>,
    pub submit_button_disabled: bool,
}

impl View for Appearance {
    type V = AppearanceView;

    open spec fn view(&self) -> AppearanceView {
        AppearanceView {
            count_label: self.count_label@,
            count_label_color: self.count_label_color,
            email_border: self.email_border,
            submit_button_text: self.submit_button_text@,
            submit_button_disabled: self.submit_button_disabled,
        }
    }
}

/// What the host does after the dialog changed: draw it anew, close it, put a prompt up.
#[derive(Debug)]
pub struct ModalEffects {
    pub notify: bool,
    pub dismiss: bool,
    pub prompt: Option<Prompt>,
}

/// What the host does after the dialog changed, as a mathematical value.
pub ghost struct ModalEffectsView {
    pub notify: bool,
    pub dismiss: bool,
    pub prompt: Option<PromptView>,
}

impl View for ModalEffects {
    type V = ModalEffectsView;

    open spec fn view(&self) -> ModalEffectsView {
        ModalEffectsView {
            notify: self.notify,
            dismiss: self.dismiss,
            prompt: match self.prompt {
                Some(prompt) => Some(prompt@),
                None => None,
            },
        }
    }
}

/// The answer to a request to close the dialog.
#[derive(Debug)]
pub enum DismissDecision {
    /// It closes, or stays.
    Dismiss(bool),
    /// It stays until this prompt is answered.
    Pending(Prompt),
}

/// The answer to a request to close the dialog, as a mathematical value.
pub ghost enum DismissDecisionView {
    Dismiss(bool),
    Pending(PromptView),
}

impl View for DismissDecision {
    type V = DismissDecisionView;

    open spec fn view(&self) -> DismissDecisionView {
        match self {
            DismissDecision::Dismiss(dismiss) => DismissDecisionView::Dismiss(*dismiss),
            DismissDecision::Pending(prompt) => DismissDecisionView::Pending(prompt@),
        }
    }
}

impl<S> FeedbackModal<S> {
    /// Opens a dialog.
    pub fn new(system_specs: S) -> (result: Self)
        ensures
            result@ == opened(system_specs),
    {
        FeedbackModal {
            system_specs,
            submission_state: None,
            dismiss_modal: false,
            character_count: 0,
        }
    }

    /// Takes note of what happened in the editor of the report.
    pub fn on_editor_event(&mut self, event: FeedbackEditorEvent) -> (result: ModalEffects)
        ensures
            final(self)@ == old(self)@.editor_changed(event),
            result@ == editor_effects(event),
    {
        match event {
            FeedbackEditorEvent::Edited { len } => {
                assert((len as i32) == (len + 0x8000_0000) % 0x1_0000_0000 - 0x8000_0000)
                    by (bit_vector);
                self.character_count = #[verifier::truncate] (len as i32);
                ModalEffects { notify: true, dismiss: false, prompt: None }
            },
            FeedbackEditorEvent::Other => {
                ModalEffects { notify: false, dismiss: false, prompt: None }
            },
        }
    }

    /// Begins a submission of the report in `feedback_text`. The host puts the prompt up and
    /// feeds its answer to the submission. `dev_mode` says whether to pretend only.
    pub fn submit(&self, feedback_text: &str, email: Option<String>, dev_mode: bool) -> (result: (
        Submission<S>,
        Prompt,
    )) where S: Clone
        ensures
            result.1@ == submit_prompt(),
            begins(self@.system_specs, feedback_text@, option_text(email), dev_mode, result.0@),
    {
        let report = Report {
            feedback_text: trim(feedback_text).to_string(),
            email,
            system_specs: self.system_specs.clone(),
        };
        (Submission::Confirming { report, dev_mode }, Prompt::submit())
    }

    /// Takes note of a submission's progress.
    pub fn apply(&mut self, update: ModalUpdate) -> (result: ModalEffects)
        ensures
            final(self)@ == old(self)@.updated(update),
            result@ == effects_of(update),
    {
        match update {
            ModalUpdate::AwaitSubmission => {
                self.submission_state = Some(
                    SubmissionState::CannotSubmit {
                        reason: CannotSubmitReason::AwaitingSubmission,
                    },
                );
                ModalEffects { notify: true, dismiss: false, prompt: None }
            },
            ModalUpdate::Submitted => {
                self.dismiss_modal = true;
                ModalEffects { notify: true, dismiss: true, prompt: None }
            },
            ModalUpdate::SubmissionFailed => {
                self.submission_state = Some(SubmissionState::CanSubmit);
                ModalEffects { notify: true, dismiss: false, prompt: Some(Prompt::failure()) }
            },
        }
    }

    /// Looks at the dialog's contents, given whether the email field is valid.
    pub fn assess(&mut self, valid_email_address: bool)
        ensures
            final(self)@ == old(self)@.assessed(valid_email_address),
            !old(self)@.awaiting_submission() ==> (final(self)@.can_submit() <==> valid_email_address
                && 10 <= old(self)@.character_count <= 5000),
            old(self)@.awaiting_submission() ==> final(self)@ == old(self)@,
    {
        if self.awaiting_submission() {
            return;
        }
        let valid_character_count = FEEDBACK_CHAR_MIN <= self.character_count
            && self.character_count <= FEEDBACK_CHAR_MAX;
        self.submission_state = Some(assess(valid_email_address, valid_character_count));
    }

    /// Looks at the dialog's contents, of which `email` is what the email field holds.
    pub fn update_submission_state(&mut self, email: Option<&str>)
        ensures
            final(self)@ == old(self)@.looked_at(option_str(email)),
            !old(self)@.awaiting_submission() && email is Some && !email->0@.contains('@')
                ==> !final(self)@.can_submit() && !final(self)@.valid_email_address(),
            !old(self)@.awaiting_submission() && email is None
                ==> final(self)@.valid_email_address(),
    {
        if self.awaiting_submission() {
            return;
        }
        let valid_email_address = valid_email(email);
        proof {
            law_judgement(self@, valid_email_address);
        }
        self.assess(valid_email_address);
    }

    /// What the dialog shows, as it was last looked at.
    pub fn appearance(&self) -> (result: Appearance)
        ensures
            result@ == self@.appearance(),
    {
        let count_label = if self.character_count < FEEDBACK_CHAR_MIN {
            "Feedback must be at least ".to_string().concat(
                to_decimal(FEEDBACK_CHAR_MIN).as_str(),
            ).concat(" characters.")
        } else {
            "Characters: ".to_string().concat(
                to_decimal(FEEDBACK_CHAR_MAX - self.character_count).as_str(),
            )
        };
        Appearance {
            count_label,
            count_label_color: if self.valid_character_count() {
                LabelColor::Success
            } else {
                LabelColor::Error
            },
            email_border: if self.valid_email_address() {
                EmailBorder::Normal
            } else {
                EmailBorder::Error
            },
            submit_button_text: if self.awaiting_submission() {
                "Submitting..."
            } else {
                "Submit"
            },
            submit_button_disabled: !self.can_submit(),
        }
    }

    /// Looks at the dialog's contents and says what to show.
    pub fn render(&mut self, email: Option<&str>) -> (result: Appearance)
        ensures
            final(self)@ == old(self)@.looked_at(option_str(email)),
            result@ == final(self)@.appearance(),
            !old(self)@.awaiting_submission() && email is Some && !email->0@.contains('@')
                ==> result.email_border == EmailBorder::Error && result.submit_button_disabled,
    {
        self.update_submission_state(email);
        self.appearance()
    }

    /// Decides on a request to close the dialog. The host always makes the change to the store.
    pub fn on_before_dismiss(&self, email: Option<String>, has_feedback: bool) -> (result: (
        StoreUpdate,
        DismissDecision,
    ))
        ensures
            result.0@ == email_update(option_text(email)),
            result.1@ == self@.dismiss_decision(has_feedback),
            !has_feedback || self@.dismiss_modal ==> result.1 is Dismiss && result.1->Dismiss_0,
            has_feedback && !self@.dismiss_modal ==> result.1 is Pending,
    {
        let update = update_email_in_store(email);
        if self.dismiss_modal {
            return (update, DismissDecision::Dismiss(true));
        }
        if !has_feedback {
            return (update, DismissDecision::Dismiss(true));
        }
        (update, DismissDecision::Pending(Prompt::discard()))
    }

    /// Takes note of the answer to the question whether to discard the report.
    pub fn discard_answered(&mut self, answer: Option<usize>) -> (result: ModalEffects)
        ensures
            final(self)@ == old(self)@.discard_answered(answer),
            result@ == discard_effects(answer),
    {
        let dismiss = answered_yes(answer);
        if dismiss {
            self.dismiss_modal = true;
        }
        ModalEffects { notify: false, dismiss, prompt: None }
    }

    /// Whether the email address is not known to be invalid.
    pub fn valid_email_address(&self) -> (result: bool)
        ensures
            result == self@.valid_email_address(),
    {
        !self.in_invalid_state(InvalidStateFlags::email_address())
    }

    /// Whether the character count is not known to be invalid.
    pub fn valid_character_count(&self) -> (result: bool)
        ensures
            result == self@.valid_character_count(),
    {
        !self.in_invalid_state(InvalidStateFlags::character_count())
    }

    /// Whether the dialog is known to be invalid for (at least) the reasons in `flag`.
    pub fn in_invalid_state(&self, flag: InvalidStateFlags) -> (result: bool)
        ensures
            result == self@.in_invalid_state(flag),
    {
        match &self.submission_state {
            Some(
                SubmissionState::CannotSubmit { reason: CannotSubmitReason::InvalidState { flags } },
            ) => flags.contains(flag),
            _ => false,
        }
    }

    /// Whether a submission is under way.
    pub fn awaiting_submission(&self) -> (result: bool)
        ensures
            result == self@.awaiting_submission(),
    {
        matches!(
            self.submission_state,
            Some(SubmissionState::CannotSubmit { reason: CannotSubmitReason::AwaitingSubmission })
        )
    }

    /// Whether the report may be submitted.
    pub fn can_submit(&self) -> (result: bool)
        ensures
            result == self@.can_submit(),
    {
        matches!(self.submission_state, Some(SubmissionState::CanSubmit))
    }
}

/// A dialog is seen with every field as it is.
proof fn law_modal_view<S>(modal: FeedbackModal<S>)
    ensures
        modal@.system_specs == modal.system_specs,
        modal@.submission_state == modal.submission_state,
        modal@.dismiss_modal == modal.dismiss_modal,
        modal@.character_count == modal.character_count,
{
}

} // verus!
