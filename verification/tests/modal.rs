use bitflags::Flags;
use feedback_modal::email::valid_email;
use feedback_modal::modal::{
    DismissDecision, EmailBorder, FeedbackEditorEvent, FeedbackModal, LabelColor,
};
use feedback_modal::prompt::PromptLevel;
use feedback_modal::state::{
    assess, CannotSubmitReason, InvalidStateFlags, SubmissionState, CHARACTER_COUNT_BIT,
    EMAIL_ADDRESS_BIT,
};
use feedback_modal::store::{restored_email, update_email_in_store, StoreUpdate, DATABASE_KEY_NAME};
use feedback_modal::submission::{ModalUpdate, Submission};
use feedback_modal::text::to_decimal;

fn modal() -> FeedbackModal<String> {
    FeedbackModal::new("specs".to_string())
}

fn edit(modal: &mut FeedbackModal<String>, len: usize) {
    let effects = modal.on_editor_event(FeedbackEditorEvent::Edited { len });
    assert!(effects.notify && !effects.dismiss && effects.prompt.is_none());
}

fn modal_of(len: usize) -> FeedbackModal<String> {
    let mut modal = modal();
    edit(&mut modal, len);
    modal
}

fn submitted_text(text: &str) -> String {
    match modal().submit(text, None, false).0 {
        Submission::Confirming { report, .. } => report.feedback_text,
        other => panic!("unexpected stage {:?}", other),
    }
}

struct Reference(u8);

impl bitflags::Flags for Reference {
    const FLAGS: &'static [bitflags::Flag<Self>] = &[];
    type Bits = u8;

    fn bits(&self) -> u8 {
        self.0
    }

    fn from_bits_retain(bits: u8) -> Self {
        Reference(bits)
    }
}

#[test]
fn flags_agree_with_bitflags() {
    for a in 0..=255u8 {
        assert_eq!(InvalidStateFlags { bits: a }.is_empty(), Reference(a).is_empty());
        for b in 0..=255u8 {
            let ours = InvalidStateFlags { bits: a };
            let theirs = Reference(a);
            assert_eq!(
                ours.contains(InvalidStateFlags { bits: b }),
                theirs.contains(Reference(b))
            );
            let mut ours = ours;
            let mut theirs = theirs;
            ours.insert(InvalidStateFlags { bits: b });
            theirs.insert(Reference(b));
            assert_eq!(ours.bits, theirs.0);
        }
    }
}

#[test]
fn flags_have_their_own_bits() {
    assert_eq!(InvalidStateFlags::empty().bits, 0);
    assert_eq!(InvalidStateFlags::email_address().bits, 0b01);
    assert_eq!(InvalidStateFlags::character_count().bits, 0b10);
    assert_eq!(EMAIL_ADDRESS_BIT, 0b01);
    assert_eq!(CHARACTER_COUNT_BIT, 0b10);
}

#[test]
fn assessment_names_each_reason() {
    let invalid = |bits: u8| SubmissionState::CannotSubmit {
        reason: CannotSubmitReason::InvalidState { flags: InvalidStateFlags { bits } },
    };
    assert_eq!(assess(true, true), SubmissionState::CanSubmit);
    assert_eq!(assess(false, true), invalid(1));
    assert_eq!(assess(true, false), invalid(2));
    assert_eq!(assess(false, false), invalid(3));
}

#[test]
fn email_pattern() {
    assert!(valid_email(None));
    assert!(valid_email(Some("someone@example.com")));
    assert!(valid_email(Some("first.last+tag@sub.example.org")));
    assert!(valid_email(Some("write to someone@example.com please")));
    assert!(valid_email(Some("a@b.|c")));
    assert!(!valid_email(Some("")));
    assert!(!valid_email(Some("someone")));
    assert!(!valid_email(Some("someone@example")));
    assert!(!valid_email(Some("someone@example.c")));
    assert!(!valid_email(Some("@example.com")));
    assert!(!valid_email(Some("someone@")));
}

#[test]
fn a_new_modal_is_undecided() {
    let modal = modal();
    assert!(!modal.can_submit());
    assert!(!modal.awaiting_submission());
    assert!(modal.valid_email_address());
    assert!(modal.valid_character_count());
}

#[test]
fn character_limits() {
    for (len, valid) in [(0, false), (9, false), (10, true), (5000, true), (5001, false)] {
        let mut modal = modal_of(len);
        modal.update_submission_state(None);
        assert_eq!(modal.can_submit(), valid);
        assert_eq!(modal.valid_character_count(), valid);
        assert!(modal.valid_email_address());
    }
}

#[test]
fn a_bad_address_blocks_submission() {
    let mut modal = modal_of(100);
    modal.update_submission_state(Some("nobody"));
    assert!(!modal.can_submit());
    assert!(!modal.valid_email_address());
    assert!(modal.valid_character_count());
    modal.update_submission_state(Some("somebody@example.com"));
    assert!(modal.can_submit());
    assert!(modal.valid_email_address());
}

#[test]
fn both_reasons_at_once() {
    let mut modal = modal_of(3);
    modal.update_submission_state(Some("nobody"));
    assert!(!modal.valid_email_address());
    assert!(!modal.valid_character_count());
    assert!(modal.in_invalid_state(InvalidStateFlags { bits: 3 }));
    assert!(!modal.in_invalid_state(InvalidStateFlags { bits: 4 }));
}

#[test]
fn lengths_wrap_around() {
    let mut modal = modal_of(i32::MAX as usize);
    assert_eq!(modal.render(None).count_label, "Characters: -2147478647");
    edit(&mut modal, i32::MAX as usize + 1);
    assert_eq!(modal.render(None).count_label, "Feedback must be at least 10 characters.");
    if let Ok(len) = usize::try_from(0x1_0000_000au64) {
        edit(&mut modal, len);
        assert_eq!(modal.render(None).count_label, "Characters: 4990");
    }
}

#[test]
fn other_editor_events_do_nothing() {
    let mut modal = modal_of(20);
    modal.update_submission_state(None);
    let before = format!("{:?}", modal);
    let effects = modal.on_editor_event(FeedbackEditorEvent::Other);
    assert!(!effects.notify && !effects.dismiss && effects.prompt.is_none());
    assert_eq!(format!("{:?}", modal), before);
}

#[test]
fn the_last_edit_counts() {
    let mut modal = modal_of(20);
    edit(&mut modal, 3000);
    edit(&mut modal, 15);
    assert_eq!(modal.appearance().count_label, "Characters: 4985");
    assert!(!modal.can_submit());
    modal.update_submission_state(None);
    assert!(modal.can_submit());
}

#[test]
fn appearance_of_a_short_report() {
    let shown = modal_of(9).render(None);
    assert_eq!(shown.count_label, "Feedback must be at least 10 characters.");
    assert_eq!(shown.count_label_color, LabelColor::Error);
    assert_eq!(shown.email_border, EmailBorder::Normal);
    assert_eq!(shown.submit_button_text, "Submit");
    assert!(shown.submit_button_disabled);
}

#[test]
fn appearance_of_a_good_report() {
    let shown = modal_of(10).render(Some("somebody@example.com"));
    assert_eq!(shown.count_label, "Characters: 4990");
    assert_eq!(shown.count_label_color, LabelColor::Success);
    assert_eq!(shown.email_border, EmailBorder::Normal);
    assert_eq!(shown.submit_button_text, "Submit");
    assert!(!shown.submit_button_disabled);
}

#[test]
fn appearance_of_a_full_report() {
    let shown = modal_of(5000).render(None);
    assert_eq!(shown.count_label, "Characters: 0");
    assert_eq!(shown.count_label_color, LabelColor::Success);
    assert!(!shown.submit_button_disabled);
}

#[test]
fn appearance_of_a_long_report() {
    let shown = modal_of(5001).render(Some("nobody"));
    assert_eq!(shown.count_label, "Characters: -1");
    assert_eq!(shown.count_label_color, LabelColor::Error);
    assert_eq!(shown.email_border, EmailBorder::Error);
    assert!(shown.submit_button_disabled);
}

#[test]
fn appearance_while_submitting() {
    let mut modal = modal_of(3);
    modal.apply(ModalUpdate::AwaitSubmission);
    let shown = modal.render(Some("nobody"));
    assert_eq!(shown.count_label_color, LabelColor::Success);
    assert_eq!(shown.email_border, EmailBorder::Normal);
    assert_eq!(shown.submit_button_text, "Submitting...");
    assert!(shown.submit_button_disabled);
    assert!(modal.awaiting_submission());
}

#[test]
fn appearance_before_the_first_look() {
    let shown = modal().appearance();
    assert_eq!(shown.count_label, "Feedback must be at least 10 characters.");
    assert_eq!(shown.count_label_color, LabelColor::Success);
    assert!(shown.submit_button_disabled);
}

#[test]
fn a_second_look_changes_nothing() {
    let mut modal = modal_of(20);
    modal.assess(false);
    let first = format!("{:?}", modal);
    modal.assess(false);
    assert_eq!(format!("{:?}", modal), first);
}

#[test]
fn awaiting_outlasts_everything_but_failure() {
    let mut modal = modal_of(20);
    modal.apply(ModalUpdate::AwaitSubmission);
    edit(&mut modal, 3);
    modal.update_submission_state(Some("nobody"));
    modal.discard_answered(Some(0));
    modal.apply(ModalUpdate::Submitted);
    assert!(modal.awaiting_submission());
    modal.apply(ModalUpdate::SubmissionFailed);
    assert!(!modal.awaiting_submission());
    assert!(modal.can_submit());
}

#[test]
fn failure_prompts_and_allows_retry() {
    let mut modal = modal_of(20);
    let effects = modal.apply(ModalUpdate::AwaitSubmission);
    assert!(effects.notify && !effects.dismiss && effects.prompt.is_none());
    let effects = modal.apply(ModalUpdate::SubmissionFailed);
    assert!(effects.notify);
    assert!(!effects.dismiss);
    let prompt = effects.prompt.unwrap();
    assert_eq!(prompt.level, PromptLevel::Critical);
    assert_eq!(prompt.message, "Feedback failed to submit, see error log for details.");
    assert_eq!(prompt.answers, ["OK"]);
    assert!(modal.can_submit());
    assert!(!modal.appearance().submit_button_disabled);
    assert!(matches!(modal.on_before_dismiss(None, true).1, DismissDecision::Pending(_)));
}

#[test]
fn success_closes_without_asking() {
    let mut modal = modal_of(20);
    let effects = modal.apply(ModalUpdate::Submitted);
    assert!(effects.notify && effects.dismiss && effects.prompt.is_none());
    assert!(matches!(modal.on_before_dismiss(None, true).1, DismissDecision::Dismiss(true)));
}

#[test]
fn closing_an_empty_dialog() {
    let (update, decision) = modal().on_before_dismiss(None, false);
    assert!(matches!(decision, DismissDecision::Dismiss(true)));
    assert!(matches!(update, StoreUpdate::Delete { key } if key == "email_address"));
}

#[test]
fn closing_with_a_report_asks_first() {
    let mut modal = modal_of(20);
    let (update, decision) = modal.on_before_dismiss(Some("a@b.cd".to_string()), true);
    match update {
        StoreUpdate::Write { key, value } => {
            assert_eq!(key, "email_address");
            assert_eq!(value, "a@b.cd");
        }
        other => panic!("unexpected update {:?}", other),
    }
    match decision {
        DismissDecision::Pending(prompt) => {
            assert_eq!(prompt.level, PromptLevel::Info);
            assert_eq!(prompt.message, "Discard feedback?");
            assert_eq!(prompt.answers, ["Yes", "No"]);
        }
        other => panic!("unexpected decision {:?}", other),
    }
    assert!(!modal.discard_answered(None).dismiss);
    assert!(!modal.discard_answered(Some(1)).dismiss);
    assert!(matches!(modal.on_before_dismiss(None, true).1, DismissDecision::Pending(_)));
    let effects = modal.discard_answered(Some(0));
    assert!(effects.dismiss && !effects.notify && effects.prompt.is_none());
    assert!(matches!(modal.on_before_dismiss(None, true).1, DismissDecision::Dismiss(true)));
    edit(&mut modal, 40);
    modal.update_submission_state(None);
    assert!(matches!(modal.on_before_dismiss(None, true).1, DismissDecision::Dismiss(true)));
}

#[test]
fn the_email_address_is_remembered() {
    let mut store = std::collections::HashMap::new();
    store.insert("other".to_string(), "kept".to_string());
    for email in [Some("a@b.cd"), Some("anything"), None, Some("e@f.gh")] {
        match update_email_in_store(email.map(|email| email.to_string())) {
            StoreUpdate::Write { key, value } => {
                store.insert(key, value);
            }
            StoreUpdate::Delete { key } => {
                store.remove(&key);
            }
        }
        let stored: Result<Option<String>, String> = Ok(store.get(DATABASE_KEY_NAME).cloned());
        assert_eq!(restored_email(stored).as_deref(), email);
        assert_eq!(store.get("other").map(|value| value.as_str()), Some("kept"));
    }
}

#[test]
fn a_failed_read_restores_nothing() {
    let stored: Result<Option<String>, String> = Err("unreadable".to_string());
    assert_eq!(restored_email(stored), None);
}

#[test]
fn submit_asks_and_captures_the_report() {
    let (submission, prompt) = modal().submit("\n  great work \t", Some("a@b.cd".to_string()), true);
    assert_eq!(prompt.level, PromptLevel::Info);
    assert_eq!(prompt.message, "Ready to submit your feedback?");
    assert_eq!(prompt.answers, ["Yes, Submit!", "No"]);
    match submission {
        Submission::Confirming { report, dev_mode } => {
            assert!(dev_mode);
            assert_eq!(report.feedback_text, "great work");
            assert_eq!(report.email.as_deref(), Some("a@b.cd"));
            assert_eq!(report.system_specs, "specs");
        }
        other => panic!("unexpected stage {:?}", other),
    }
}

#[test]
fn white_space_is_what_unicode_lists() {
    let listed = |code: u32| {
        matches!(
            code,
            0x9..=0xd
                | 0x20
                | 0x85
                | 0xa0
                | 0x1680
                | 0x2000..=0x200a
                | 0x2028
                | 0x2029
                | 0x202f
                | 0x205f
                | 0x3000
        )
    };
    for code in 0..=0x10ffffu32 {
        if let Some(c) = char::from_u32(code) {
            assert_eq!(c.is_whitespace(), listed(code), "U+{:04X}", code);
        }
    }
}

#[test]
fn trimming() {
    assert_eq!(submitted_text(""), "");
    assert_eq!(submitted_text(" \t\r\n"), "");
    assert_eq!(submitted_text("a b"), "a b");
    assert_eq!(submitted_text("\u{2003}\u{85}a b\u{3000}\u{a0}"), "a b");
    assert_eq!(submitted_text("\u{200b}a\u{200b}"), "\u{200b}a\u{200b}");
    assert_eq!(submitted_text(&submitted_text("  twice ")), "twice");
}

#[test]
fn decimals() {
    for n in [0, 7, 10, 99, 100, 4990, -1, -10, -2147478647, i32::MAX, i32::MIN] {
        assert_eq!(to_decimal(n), n.to_string());
    }
}

#[test]
fn every_short_history_keeps_the_invariant() {
    let apply = |modal: &mut FeedbackModal<String>, event: usize| match event {
        0 => edit(modal, 9),
        1 => edit(modal, 10),
        2 => modal.assess(true),
        3 => modal.assess(false),
        4 => drop(modal.apply(ModalUpdate::AwaitSubmission)),
        5 => drop(modal.apply(ModalUpdate::Submitted)),
        6 => drop(modal.apply(ModalUpdate::SubmissionFailed)),
        _ => drop(modal.discard_answered(Some(0))),
    };
    for history in 0..8usize.pow(4) {
        let mut modal = modal();
        let mut may_close = false;
        for i in 0..4 {
            let event = history / 8usize.pow(i) % 8;
            apply(&mut modal, event);
            may_close = may_close || event == 5 || event == 7;
            assert!(!modal.in_invalid_state(InvalidStateFlags { bits: 4 }));
            let closes = matches!(
                modal.on_before_dismiss(None, true).1,
                DismissDecision::Dismiss(true)
            );
            assert_eq!(closes, may_close);
        }
        modal.assess(true);
        let invalid = !modal.valid_email_address() || !modal.valid_character_count();
        let states = [modal.can_submit(), modal.awaiting_submission(), invalid];
        assert_eq!(states.iter().filter(|state| **state).count(), 1);
        assert!(format!("{:?}", modal).contains("specs"));
    }
}
