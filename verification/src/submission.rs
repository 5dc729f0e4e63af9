//! The course of one submission, from the question whether to submit to its outcome.
//!
//! The host holds a [`Submission`], performs the [`SubmissionAction`] that a step asks for, and
//! feeds what came of it back in as the next [`SubmissionEvent`].

use vstd::prelude::*;

use crate::prompt::{answered_yes, is_yes};
use crate::text::option_text;
use crate::transport::{
    build_request, built_request, check_status, is_status_code, request_view, result_view,
    simulated, simulated_result, status_display, status_result, PostRequest, PostRequestView, SubmissionError,
    SubmissionErrorView, FEEDBACK_PATH, SEND_SECONDS_IN_DEV_MODE, SEND_SUCCESS_IN_DEV_MODE,
};

verus! {

/// What the user wants to send, and the description of the system it was written on.
#[derive(Debug)]
pub struct Report<S> {
    pub feedback_text: String,
    pub email: Option<String>,
    pub system_specs: S,
}

/// A report as a mathematical value.
pub ghost struct ReportView<S> {
    pub feedback_text: Seq<char>,
    pub email: Option<Seq<char>>,
    pub system_specs: S,
}

impl<S> View for Report<S> {
    type V = ReportView<S>;

    open spec fn view(&self) -> ReportView<S> {
        ReportView {
            feedback_text: self.feedback_text@,
            email: option_text(self.email),
            system_specs: self.system_specs,
        }
    }
}

/// What the host knows about itself and about the service.
#[derive(Debug)]
pub struct ClientDescription {
    pub installation_id: Option<String>,
    pub metrics_id: Option<String>,
    pub is_staff: Option<bool>,
    /// The URL of the service's feedback path.
    pub endpoint: String,
}

/// A client description as a mathematical value.
pub ghost struct ClientDescriptionView {
    pub installation_id: Option<Seq<char>>,
    pub metrics_id: Option<Seq<char>>,
    pub is_staff: Option<bool>,
    pub endpoint: Seq<char>,
}

impl View for ClientDescription {
    type V = ClientDescriptionView;

    open spec fn view(&self) -> ClientDescriptionView {
        ClientDescriptionView {
            installation_id: option_text(self.installation_id),
            metrics_id: option_text(self.metrics_id),
            is_staff: self.is_staff,
            endpoint: self.endpoint@,
        }
    }
}

/// The body of a feedback request, before it is encoded.
#[derive(Debug)]
pub struct FeedbackRequestBody<S> {
    pub feedback_text: String,
    pub email: Option<String>,
    pub installation_id: Option<String>,
    pub metrics_id: Option<String>,
    pub system_specs: S,
    pub is_staff: bool,
}

/// The body of a feedback request as a mathematical value.
pub ghost struct FeedbackRequestBodyView<S> {
    pub feedback_text: Seq<char>,
    pub email: Option<Seq<char>>,
    pub installation_id: Option<Seq<char>>,
    pub metrics_id: Option<Seq<char>>,
    pub system_specs: S,
    pub is_staff: bool,
}

impl<S> View for FeedbackRequestBody<S> {
    type V = FeedbackRequestBodyView<S>;

    open spec fn view(&self) -> FeedbackRequestBodyView<S> {
        FeedbackRequestBodyView {
            feedback_text: self.feedback_text@,
            email: option_text(self.email),
            installation_id: option_text(self.installation_id),
            metrics_id: option_text(self.metrics_id),
            system_specs: self.system_specs,
            is_staff: self.is_staff,
        }
    }
}

/// The body that carries `report` from `client`. A client that does not know whether its user is
/// staff says that they are not.
pub open spec fn request_body<S>(
    report: ReportView<S>,
    client: ClientDescriptionView,
) -> FeedbackRequestBodyView<S> {
    FeedbackRequestBodyView {
        feedback_text: report.feedback_text,
        email: report.email,
        installation_id: client.installation_id,
        metrics_id: client.metrics_id,
        system_specs: report.system_specs,
        is_staff: client.is_staff == Some(true),
    }
}

/// A change to the dialog that a submission brings about.
#[derive(Debug, Clone, Copy, PartialEq, Eq, Structural)]
pub enum ModalUpdate {
    /// The submission is under way.
    AwaitSubmission,
    /// The submission succeeded.
    Submitted,
    /// The submission failed.
    SubmissionFailed,
}

/// How a submission ended.
#[derive(Debug)]
pub enum SubmissionOutcome {
    /// The user did not want to submit after all.
    Declined,
    /// The report was submitted.
    Submitted,
    /// The report could not be submitted.
    Failed(SubmissionError),
}

/// How a submission ended, as a mathematical value.
pub ghost enum SubmissionOutcomeView {
    Declined,
    Submitted,
    Failed(SubmissionErrorView),
}

impl View for SubmissionOutcome {
    type V = SubmissionOutcomeView;

    open spec fn view(&self) -> SubmissionOutcomeView {
        match self {
            SubmissionOutcome::Declined => SubmissionOutcomeView::Declined,
            SubmissionOutcome::Submitted => SubmissionOutcomeView::Submitted,
            SubmissionOutcome::Failed(error) => SubmissionOutcomeView::Failed(error@),
        }
    }
}

/// What a submission waits for.
#[derive(Debug)]
pub enum Submission<S> {
    /// The answer to the question whether to submit.
    Confirming { report: Report<S>, dev_mode: bool },
    /// The end of a simulated submission.
    Simulating,
    /// The client's description of itself.
    Describing { report: Report<S> },
    /// The JSON form of the request's body.
    Encoding { endpoint: String },
    /// The service's reply.
    Sending,
    /// Nothing more.
    Finished,
}

/// What a submission waits for, as a mathematical value.
pub ghost enum SubmissionView<S> {
    Confirming { report: ReportView<S>, dev_mode: bool },
    Simulating,
    Describing { report: ReportView<S> },
    Encoding { endpoint: Seq<char> },
    Sending,
    Finished,
}

impl<S> View for Submission<S> {
    type V = SubmissionView<S>;

    open spec fn view(&self) -> SubmissionView<S> {
        match self {
            Submission::Confirming { report, dev_mode } => SubmissionView::Confirming {
                report: report@,
                dev_mode: *dev_mode,
            },
            Submission::Simulating => SubmissionView::Simulating,
            Submission::Describing { report } => SubmissionView::Describing { report: report@ },
            Submission::Encoding { endpoint } => SubmissionView::Encoding { endpoint: endpoint@ },
            Submission::Sending => SubmissionView::Sending,
            Submission::Finished => SubmissionView::Finished,
        }
    }
}

/// Something that happened to a submission.
#[derive(Debug)]
pub enum SubmissionEvent {
    /// The user answered, or the question went away.
    Answered(Option<usize>),
    /// The wait is over.
    WaitOver,
    /// The client described itself.
    Described(ClientDescription),
    /// The body was encoded, or could not be.
    Encoded(Result<Vec<u8>, String>),
    /// A reply came and was read to its end, and this is its status code; or that failed.
    Responded(Result<u16, String>),
}

/// Something that happened to a submission, as a mathematical value.
pub ghost enum SubmissionEventView {
    Answered(Option<usize>),
    WaitOver,
    Described(ClientDescriptionView),
    Encoded(Result<Seq<u8>, Seq<char>>),
    Responded(Result<u16, Seq<char>>),
}

impl View for SubmissionEvent {
    type V = SubmissionEventView;

    open spec fn view(&self) -> SubmissionEventView {
        match self {
            SubmissionEvent::Answered(answer) => SubmissionEventView::Answered(*answer),
            SubmissionEvent::WaitOver => SubmissionEventView::WaitOver,
            SubmissionEvent::Described(client) => SubmissionEventView::Described(client@),
            SubmissionEvent::Encoded(Ok(json)) => SubmissionEventView::Encoded(Ok(json@)),
            SubmissionEvent::Encoded(Err(text)) => SubmissionEventView::Encoded(Err(text@)),
            SubmissionEvent::Responded(Ok(code)) => SubmissionEventView::Responded(Ok(*code)),
            SubmissionEvent::Responded(Err(text)) => SubmissionEventView::Responded(Err(text@)),
        }
    }
}

/// What the host has to do next.
#[derive(Debug)]
pub enum SubmissionAction<S> {
    /// Let this much time pass.
    Wait { seconds: u64 },
    /// Describe the client, with the URL of `path`.
    Describe { path: &'static str },
    /// Encode this body as JSON.
    Encode(FeedbackRequestBody<S>),
    /// Send this request and read the reply.
    Send(PostRequest),
    /// Nothing: this is how it ended.
    Finish(SubmissionOutcome),
}

/// What the host has to do next, as a mathematical value.
pub ghost enum SubmissionActionView<S> {
    Wait { seconds: u64 },
    Describe { path: Seq<char> },
    Encode(FeedbackRequestBodyView<S>),
    Send(PostRequestView),
    Finish(SubmissionOutcomeView),
}

impl<S> View for SubmissionAction<S> {
    type V = SubmissionActionView<S>;

    open spec fn view(&self) -> SubmissionActionView<S> {
        match self {
            SubmissionAction::Wait { seconds } => SubmissionActionView::Wait { seconds: *seconds },
            SubmissionAction::Describe { path } => SubmissionActionView::Describe { path: path@ },
            SubmissionAction::Encode(body) => SubmissionActionView::Encode(body@),
            SubmissionAction::Send(request) => SubmissionActionView::Send(request@),
            SubmissionAction::Finish(outcome) => SubmissionActionView::Finish(outcome@),
        }
    }
}

/// What follows an event: what the submission waits for then, how the dialog changes first, and
/// what the host does.
#[derive(Debug)]
pub struct SubmissionStep<S> {
    pub submission: Submission<S>,
    pub update: Option<ModalUpdate>,
    pub action: SubmissionAction<S>,
}

/// What follows an event, as a mathematical value.
pub ghost struct SubmissionStepView<S> {
    pub submission: SubmissionView<S>,
    pub update: Option<ModalUpdate>,
    pub action: SubmissionActionView<S>,
}

impl<S> View for SubmissionStep<S> {
    type V = SubmissionStepView<S>;

    open spec fn view(&self) -> SubmissionStepView<S> {
        SubmissionStepView {
            submission: self.submission@,
            update: self.update,
            action: self.action@,
        }
    }
}

/// The first step once the user said yes: a development build only pretends to submit.
pub open spec fn started<S>(report: ReportView<S>, dev_mode: bool) -> SubmissionStepView<S> {
    if dev_mode {
        SubmissionStepView {
            submission: SubmissionView::Simulating,
            update: Some(ModalUpdate::AwaitSubmission),
            action: SubmissionActionView::Wait { seconds: SEND_SECONDS_IN_DEV_MODE },
        }
    } else {
        SubmissionStepView {
            submission: SubmissionView::Describing { report },
            update: Some(ModalUpdate::AwaitSubmission),
            action: SubmissionActionView::Describe { path: FEEDBACK_PATH@ },
        }
    }
}

/// The last step of a submission that the user declined.
pub open spec fn declined<S>() -> SubmissionStepView<S> {
    SubmissionStepView {
        submission: SubmissionView::Finished,
        update: None,
        action: SubmissionActionView::Finish(SubmissionOutcomeView::Declined),
    }
}

/// The last step of a submission that was under way.
pub open spec fn finished<S>(result: Result<(), SubmissionErrorView>) -> SubmissionStepView<S> {
    match result {
        Ok(_) => SubmissionStepView {
            submission: SubmissionView::Finished,
            update: Some(ModalUpdate::Submitted),
            action: SubmissionActionView::Finish(SubmissionOutcomeView::Submitted),
        },
        Err(error) => SubmissionStepView {
            submission: SubmissionView::Finished,
            update: Some(ModalUpdate::SubmissionFailed),
            action: SubmissionActionView::Finish(SubmissionOutcomeView::Failed(error)),
        },
    }
}

/// The step after the request was built, or not.
pub open spec fn sent_or_failed<S>(
    request: Result<PostRequestView, SubmissionErrorView>,
) -> SubmissionStepView<S> {
    match request {
        Err(error) => finished(Err(error)),
        Ok(request) => SubmissionStepView {
            submission: SubmissionView::Sending,
            update: None,
            action: SubmissionActionView::Send(request),
        },
    }
}

/// The step after the body was encoded.
pub open spec fn encoded<S>(
    endpoint: Seq<char>,
    json: Result<Seq<u8>, Seq<char>>,
) -> SubmissionStepView<S> {
    match json {
        Err(text) => finished(Err(SubmissionErrorView::Encoding(text))),
        Ok(body) => sent_or_failed(built_request(endpoint, body)),
    }
}

/// A reply, or the text of the error that came in its place. A number that is no status code is
/// neither.
pub open spec fn is_reply(reply: Result<u16, Seq<char>>) -> bool {
    match reply {
        Ok(code) => is_status_code(code),
        Err(_) => true,
    }
}

/// The outcome that a reply means.
pub open spec fn reply_result(reply: Result<u16, Seq<char>>) -> Result<(), SubmissionErrorView> {
    match reply {
        Err(text) => Err(SubmissionErrorView::Transport(text)),
        Ok(code) => status_result(code, status_display(code)),
    }
}

/// The course of a submission: what follows `event`, or `None` where it is not what the submission
/// waits for.
pub open spec fn next<S>(submission: SubmissionView<S>, event: SubmissionEventView) -> Option<
    SubmissionStepView<S>,
> {
    match (submission, event) {
        (
            SubmissionView::Confirming { report, dev_mode },
            SubmissionEventView::Answered(answer),
        ) => Some(
            if is_yes(answer) {
                started(report, dev_mode)
            } else {
                declined()
            },
        ),
        (SubmissionView::Simulating, SubmissionEventView::WaitOver) => Some(
            finished(simulated(SEND_SUCCESS_IN_DEV_MODE)),
        ),
        (SubmissionView::Describing { report }, SubmissionEventView::Described(client)) => Some(
            SubmissionStepView {
                submission: SubmissionView::Encoding { endpoint: client.endpoint },
                update: None,
                action: SubmissionActionView::Encode(request_body(report, client)),
            },
        ),
        (SubmissionView::Encoding { endpoint }, SubmissionEventView::Encoded(json)) => Some(
            encoded(endpoint, json),
        ),
        (SubmissionView::Sending, SubmissionEventView::Responded(reply)) => if is_reply(reply) {
            Some(finished(reply_result(reply)))
        } else {
            None
        },
        _ => None,
    }
}

/// The body that carries `report` from `client`, and the URL it goes to.
pub fn describe<S>(report: Report<S>, client: ClientDescription) -> (result: (
    FeedbackRequestBody<S>,
    String,
))
    ensures
        result.0@ == request_body(report@, client@),
        result.1@ == client@.endpoint,
        result.0.feedback_text == report.feedback_text,
        result.0.email == report.email,
        result.0.installation_id == client.installation_id,
        result.0.metrics_id == client.metrics_id,
        result.0.system_specs == report.system_specs,
        result.0.is_staff <==> client.is_staff == Some(true),
        result.1 == client.endpoint,
{
    let is_staff = match client.is_staff {
        Some(is_staff) => is_staff,
        None => false,
    };
    let body = FeedbackRequestBody {
        feedback_text: report.feedback_text,
        email: report.email,
        installation_id: client.installation_id,
        metrics_id: client.metrics_id,
        system_specs: report.system_specs,
        is_staff,
    };
    (body, client.endpoint)
}

/// The first step of a confirmed submission.
pub fn submit_feedback<S>(report: Report<S>, dev_mode: bool) -> (result: SubmissionStep<S>)
    ensures
        result@ == started(report@, dev_mode),
{
    if dev_mode {
        SubmissionStep {
            submission: Submission::Simulating,
            update: Some(ModalUpdate::AwaitSubmission),
            action: SubmissionAction::Wait { seconds: SEND_SECONDS_IN_DEV_MODE },
        }
    } else {
        SubmissionStep {
            submission: Submission::Describing { report },
            update: Some(ModalUpdate::AwaitSubmission),
            action: SubmissionAction::Describe { path: FEEDBACK_PATH },
        }
    }
}

/// The last step of a submission that was under way.
pub fn finish<S>(outcome: Result<(), SubmissionError>) -> (result: SubmissionStep<S>)
    ensures
        result@ == finished::<S>(result_view(outcome)),
{
    match outcome {
        Ok(_) => SubmissionStep {
            submission: Submission::Finished,
            update: Some(ModalUpdate::Submitted),
            action: SubmissionAction::Finish(SubmissionOutcome::Submitted),
        },
        Err(error) => SubmissionStep {
            submission: Submission::Finished,
            update: Some(ModalUpdate::SubmissionFailed),
            action: SubmissionAction::Finish(SubmissionOutcome::Failed(error)),
        },
    }
}

/// The step after the body was encoded and its request built, or not.
pub fn send_or_fail<S>(request: Result<PostRequest, SubmissionError>) -> (result: SubmissionStep<S>)
    ensures
        result@ == sent_or_failed::<S>(request_view(request)),
{
    match request {
        Err(error) => finish(Err(error)),
        Ok(request) => SubmissionStep {
            submission: Submission::Sending,
            update: None,
            action: SubmissionAction::Send(request),
        },
    }
}

impl<S> Submission<S> {
    /// Takes the submission one step further. An event that it does not wait for leaves it as it
    /// is.
    pub fn step(self, event: SubmissionEvent) -> (result: Result<SubmissionStep<S>, Submission<S>>)
        ensures
            match result {
                Ok(step) => next(self@, event@) == Some(step@),
                Err(submission) => next(self@, event@) is None && submission == self,
            },
    {
        match (self, event) {
            (
                Submission::Confirming { report, dev_mode },
                SubmissionEvent::Answered(answer),
            ) => if answered_yes(answer) {
                Ok(submit_feedback(report, dev_mode))
            } else {
                Ok(
                    SubmissionStep {
                        submission: Submission::Finished,
                        update: None,
                        action: SubmissionAction::Finish(SubmissionOutcome::Declined),
                    },
                )
            },
            (Submission::Simulating, SubmissionEvent::WaitOver) => Ok(
                finish(simulated_result(SEND_SUCCESS_IN_DEV_MODE)),
            ),
            (Submission::Describing { report }, SubmissionEvent::Described(client)) => {
                let (body, endpoint) = describe(report, client);
                Ok(
                    SubmissionStep {
                        submission: Submission::Encoding { endpoint },
                        update: None,
                        action: SubmissionAction::Encode(body),
                    },
                )
            },
            (Submission::Encoding { endpoint }, SubmissionEvent::Encoded(Ok(json))) => Ok(
                send_or_fail(build_request(endpoint, json)),
            ),
            (Submission::Encoding { endpoint: _ }, SubmissionEvent::Encoded(Err(text))) => Ok(
                finish(Err(SubmissionError::Encoding(text))),
            ),
            (Submission::Sending, SubmissionEvent::Responded(Ok(code))) => if 100 <= code && code
                <= 999 {
                Ok(finish(check_status(code)))
            } else {
                Err(Submission::Sending)
            },
            (Submission::Sending, SubmissionEvent::Responded(Err(text))) => Ok(
                finish(Err(SubmissionError::Transport(text))),
            ),
            (submission, _) => Err(submission),
        }
    }
}

} // verus!
