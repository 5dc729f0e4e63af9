//! The questions that the dialog puts to its user.

use vstd::prelude::*;

verus! {

/// How a prompt presents itself.
#[derive(Debug, Clone, Copy, PartialEq, Eq, Structural)]
pub enum PromptLevel {
    Info,
    Critical,
}

/// A question with its possible answers, which are counted from 0.
#[derive(Debug)]
pub struct Prompt {
    pub level: PromptLevel,
    pub message: &'static str,
    pub answers: Vec<&'static str>,
}

/// A prompt as a mathematical value.
pub ghost struct PromptView {
    pub level: PromptLevel,
    pub message: Seq<char>,
    pub answers: Seq<Seq<char>>,
}

impl View for Prompt {
    type V = PromptView;

    open spec fn view(&self) -> PromptView {
        PromptView {
            level: self.level,
            message: self.message@,
            answers: Seq::new(self.answers@.len(), |i: int| self.answers@[i]@),
        }
    }
}

/// Whether the first answer was given. A prompt that went away unanswered gives `None`.
pub open spec fn is_yes(answer: Option<usize>) -> bool {
    answer == Some(0usize)
}

/// Asks whether to submit.
pub open spec fn submit_prompt() -> PromptView {
    PromptView {
        level: PromptLevel::Info,
        message: "Ready to submit your feedback?"@,
        answers: seq!["Yes, Submit!"@, "No"@],
    }
}

/// Asks whether to throw the report away.
pub open spec fn discard_prompt() -> PromptView {
    PromptView {
        level: PromptLevel::Info,
        message: "Discard feedback?"@,
        answers: seq!["Yes"@, "No"@],
    }
}

/// Tells that the report could not be submitted.
pub open spec fn failure_prompt() -> PromptView {
    PromptView {
        level: PromptLevel::Critical,
        message: "Feedback failed to submit, see error log for details."@,
        answers: seq!["OK"@],
    }
}

impl Prompt {
    /// Asks whether to submit.
    pub fn submit() -> (result: Prompt)
        ensures
            result@ == submit_prompt(),
    {
        let result = Prompt {
            level: PromptLevel::Info,
            message: "Ready to submit your feedback?",
            answers: vec!["Yes, Submit!", "No"],
        };
        assert(result@.answers =~= submit_prompt().answers);
        result
    }

    /// Asks whether to throw the report away.
    pub fn discard() -> (result: Prompt)
        ensures
            result@ == discard_prompt(),
    {
        let result = Prompt {
            level: PromptLevel::Info,
            message: "Discard feedback?",
            answers: vec!["Yes", "No"],
        };
        assert(result@.answers =~= discard_prompt().answers);
        result
    }

    /// Tells that the report could not be submitted.
    pub fn failure() -> (result: Prompt)
        ensures
            result@ == failure_prompt(),
    {
        let result = Prompt {
            level: PromptLevel::Critical,
            message: "Feedback failed to submit, see error log for details.",
            answers: vec!["OK"],
        };
        assert(result@.answers =~= failure_prompt().answers);
        result
    }
}

/// Whether the first answer was given.
pub fn answered_yes(answer: Option<usize>) -> (result: bool)
    ensures
        result == is_yes(answer),
{
    match answer {
        Some(index) => index == 0,
        None => false,
    }
}

/// Only the first answer is a yes: neither another answer nor none is.
pub proof fn law_only_the_first_answer_is_yes(answer: Option<usize>)
    ensures
        is_yes(answer) <==> answer is Some && answer->0 < 1,
{
}

/// A prompt is seen with its level, its whole message and all its answers in their order.
pub proof fn law_prompt_view(prompt: Prompt, i: int)
    ensures
        prompt@.level == prompt.level,
        prompt@.message == prompt.message@,
        prompt@.answers.len() == prompt.answers@.len(),
        0 <= i < prompt.answers@.len() ==> prompt@.answers[i] == prompt.answers@[i]@,
{
}

/// The two questions can be declined by their second answer and are no alarm; the report of a
/// failure is one, and can only be acknowledged.
pub proof fn law_prompt_texts()
    ensures
        submit_prompt().level == PromptLevel::Info,
        submit_prompt().message == "Ready to submit your feedback?"@,
        submit_prompt().answers.len() == 2,
        submit_prompt().answers[0] == "Yes, Submit!"@,
        submit_prompt().answers[1] == "No"@,
        discard_prompt().level == PromptLevel::Info,
        discard_prompt().message == "Discard feedback?"@,
        discard_prompt().answers.len() == 2,
        discard_prompt().answers[0] == "Yes"@,
        discard_prompt().answers[1] == "No"@,
        failure_prompt().level == PromptLevel::Critical,
        failure_prompt().message == "Feedback failed to submit, see error log for details."@,
        failure_prompt().answers.len() == 1,
        failure_prompt().answers[0] == "OK"@,
{
}

} // verus!
