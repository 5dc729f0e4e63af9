//! What each step of a submission asks for, told by what goes into it and what comes out.

use vstd::prelude::*;

use crate::submission::{
    finished, is_reply, next, reply_result, request_body, sent_or_failed, started,
    ClientDescription, ClientDescriptionView, FeedbackRequestBody, ModalUpdate, Report, ReportView,
    Submission, SubmissionAction, SubmissionActionView, SubmissionEvent, SubmissionEventView,
    SubmissionOutcome, SubmissionOutcomeView, SubmissionStep, SubmissionView,
};
use crate::transport::{
    law_built_request, post_request_error, status_display, PostRequestView, SubmissionErrorView,
};

verus! {

/// The answer to the question whether to submit. A yes has the dialog await the outcome; a
/// development build then waits two seconds, any other goes on with the very report that was
/// confirmed and asks for the URL of the service. Any other answer ends the submission, and the
/// dialog is left alone.
pub proof fn law_step_answered<S>(report: ReportView<S>, dev_mode: bool, answer: Option<usize>)
    ensures
        ({
            let result = next(
                SubmissionView::Confirming { report, dev_mode },
                SubmissionEventView::Answered(answer),
            );
            let step = result->0;
            &&& result is Some
            &&& answer == Some(0usize) ==> step.update == Some(ModalUpdate::AwaitSubmission)
            &&& answer == Some(0usize) && dev_mode ==> {
                &&& step.submission is Simulating
                &&& step.action is Wait
                &&& step.action->seconds == 2
            }
            &&& answer == Some(0usize) && !dev_mode ==> {
                &&& step.submission is Describing
                &&& step.submission->Describing_report == report
                &&& step.action is Describe
                &&& step.action->path == "/api/feedback"@
            }
            &&& answer != Some(0usize) ==> {
                &&& step.submission is Finished
                &&& step.update is None
                &&& step.action is Finish
                &&& step.action->Finish_0 is Declined
            }
        }),
{
}

/// A simulated submission succeeds when its time is over.
pub proof fn law_step_waited<S>()
    ensures
        ({
            let result = next(SubmissionView::<S>::Simulating, SubmissionEventView::WaitOver);
            &&& result is Some
            &&& result->0.submission is Finished
            &&& result->0.update == Some(ModalUpdate::Submitted)
            &&& result->0.action is Finish
            &&& result->0.action->Finish_0 is Submitted
        }),
{
}

/// The body to encode holds the report's text, email address and system description and the
/// client's two ids, each as it is; its user is staff exactly if the client said so. The endpoint
/// is kept for the request, and the dialog is left alone.
pub proof fn law_step_described<S>(report: ReportView<S>, client: ClientDescriptionView)
    ensures
        ({
            let result = next(
                SubmissionView::Describing { report },
                SubmissionEventView::Described(client),
            );
            let step = result->0;
            let body = step.action->Encode_0;
            &&& result is Some
            &&& step.update is None
            &&& step.submission is Encoding
            &&& step.submission->endpoint == client.endpoint
            &&& step.action is Encode
            &&& body.feedback_text == report.feedback_text
            &&& body.email == report.email
            &&& body.system_specs == report.system_specs
            &&& body.installation_id == client.installation_id
            &&& body.metrics_id == client.metrics_id
            &&& body.is_staff <==> client.is_staff is Some && client.is_staff->0
        }),
{
}

/// The body made of a report and a client holds what each of them gave, field by field.
pub proof fn law_request_body<S>(report: ReportView<S>, client: ClientDescriptionView)
    ensures
        request_body(report, client).feedback_text == report.feedback_text,
        request_body(report, client).email == report.email,
        request_body(report, client).system_specs == report.system_specs,
        request_body(report, client).installation_id == client.installation_id,
        request_body(report, client).metrics_id == client.metrics_id,
        client.is_staff is None ==> !request_body(report, client).is_staff,
        client.is_staff is Some ==> request_body(report, client).is_staff == client.is_staff->0,
{
}

/// Two reports or clients that differ in anything but the endpoint, and in more than an unsaid and
/// a denied staff flag, give different bodies: nothing is lost on the way to the encoder.
pub proof fn law_request_body_loses_nothing<S>(
    report: ReportView<S>,
    client: ClientDescriptionView,
    other_report: ReportView<S>,
    other_client: ClientDescriptionView,
)
    requires
        request_body(report, client) == request_body(other_report, other_client),
    ensures
        report == other_report,
        client.installation_id == other_client.installation_id,
        client.metrics_id == other_client.metrics_id,
        client.is_staff == Some(true) <==> other_client.is_staff == Some(true),
{
    assert(report.feedback_text == other_report.feedback_text);
    assert(report.email == other_report.email);
    assert(report.system_specs == other_report.system_specs);
}

/// A body that was encoded is sent, byte for byte, to the endpoint that the client gave, with a JSON
/// content type, unless the builder objects to such a request. That objection, or the encoder's
/// error, ends the submission as a failure which keeps its text.
pub proof fn law_step_encoded<S>(endpoint: Seq<char>, json: Result<Seq<u8>, Seq<char>>)
    ensures
        ({
            let result = next(
                SubmissionView::<S>::Encoding { endpoint },
                SubmissionEventView::Encoded(json),
            );
            let step = result->0;
            let objection = post_request_error(endpoint, "content-type"@, "application/json"@);
            &&& result is Some
            &&& json is Ok && objection is None ==> {
                &&& step.submission is Sending
                &&& step.update is None
                &&& step.action is Send
                &&& step.action->Send_0.endpoint == endpoint
                &&& step.action->Send_0.header_name == "content-type"@
                &&& step.action->Send_0.header_value == "application/json"@
                &&& step.action->Send_0.body == json->Ok_0
            }
            &&& json is Err || objection is Some ==> {
                &&& step.submission is Finished
                &&& step.update == Some(ModalUpdate::SubmissionFailed)
                &&& step.action is Finish
                &&& step.action->Finish_0 is Failed
                &&& json is Err ==> step.action->Finish_0->Failed_0
                    == SubmissionErrorView::Encoding(json->Err_0)
                &&& json is Ok ==> step.action->Finish_0->Failed_0 == SubmissionErrorView::Request(
                    objection->0,
                )
            }
        }),
{
    if json is Ok {
        law_built_request(endpoint, json->Ok_0);
    }
}

/// A request that was built is sent as it is; one that was not ends the submission with the reason.
pub proof fn law_sent_or_failed<S>(
    request: Result<PostRequestView, SubmissionErrorView>,
)
    ensures
        ({
            let step = sent_or_failed::<S>(request);
            &&& request is Ok ==> {
                &&& step.submission is Sending
                &&& step.update is None
                &&& step.action is Send
                &&& step.action->Send_0 == request->Ok_0
            }
            &&& request is Err ==> {
                &&& step.submission is Finished
                &&& step.update == Some(ModalUpdate::SubmissionFailed)
                &&& step.action is Finish
                &&& step.action->Finish_0 == SubmissionOutcomeView::Failed(request->Err_0)
            }
        }),
{
}

/// A reply ends the submission: as a success exactly if it was read and its code is one of the two
/// hundreds, else as a failure that keeps the text of the error or of the status.
pub proof fn law_step_replied<S>(reply: Result<u16, Seq<char>>)
    requires
        reply is Ok ==> 100 <= reply->Ok_0 <= 999,
    ensures
        ({
            let result = next(
                SubmissionView::<S>::Sending,
                SubmissionEventView::Responded(reply),
            );
            let step = result->0;
            let success = reply is Ok && 200 <= reply->Ok_0 <= 299;
            &&& result is Some
            &&& step.submission is Finished
            &&& step.action is Finish
            &&& success ==> {
                &&& step.update == Some(ModalUpdate::Submitted)
                &&& step.action->Finish_0 is Submitted
            }
            &&& !success ==> {
                &&& step.update == Some(ModalUpdate::SubmissionFailed)
                &&& step.action->Finish_0 is Failed
                &&& reply is Ok ==> step.action->Finish_0->Failed_0 == SubmissionErrorView::Status(
                    status_display(reply->Ok_0),
                )
                &&& reply is Err ==> step.action->Finish_0->Failed_0
                    == SubmissionErrorView::Transport(reply->Err_0)
            }
        }),
{
}

/// A submission takes exactly the event that its stage is named for; at its end it takes none.
pub proof fn law_step_fits<S>(submission: SubmissionView<S>, event: SubmissionEventView)
    ensures
        submission is Confirming ==> (next(submission, event) is Some <==> event is Answered),
        submission is Simulating ==> (next(submission, event) is Some <==> event is WaitOver),
        submission is Describing ==> (next(submission, event) is Some <==> event is Described),
        submission is Encoding ==> (next(submission, event) is Some <==> event is Encoded),
        submission is Sending ==> (next(submission, event) is Some <==> event is Responded && (
        event->Responded_0 is Ok ==> 100 <= event->Responded_0->Ok_0 <= 999)),
        submission is Finished ==> next(submission, event) is None,
{
}

/// The first step of a confirmed submission, the last of one under way, and the meaning of a reply,
/// each told by what it is given.
pub proof fn law_step_parts<S>(
    report: ReportView<S>,
    dev_mode: bool,
    result: Result<(), SubmissionErrorView>,
    reply: Result<u16, Seq<char>>,
)
    ensures
        started(report, dev_mode).update == Some(ModalUpdate::AwaitSubmission),
        dev_mode ==> started(report, dev_mode).submission is Simulating && started(
            report,
            dev_mode,
        ).action is Wait && started(report, dev_mode).action->seconds == 2,
        !dev_mode ==> started(report, dev_mode).submission is Describing && started(
            report,
            dev_mode,
        ).submission->Describing_report == report && started(report, dev_mode).action is Describe
            && started(report, dev_mode).action->path == "/api/feedback"@,
        finished::<S>(result).submission is Finished,
        finished::<S>(result).action is Finish,
        result is Ok ==> finished::<S>(result).update == Some(ModalUpdate::Submitted)
            && finished::<S>(result).action->Finish_0 is Submitted,
        result is Err ==> finished::<S>(result).update == Some(ModalUpdate::SubmissionFailed)
            && finished::<S>(result).action->Finish_0 == SubmissionOutcomeView::Failed(
            result->Err_0,
        ),
        is_reply(reply) <==> reply is Err || 100 <= reply->Ok_0 <= 999,
        reply_result(reply) is Ok <==> reply is Ok && 200 <= reply->Ok_0 <= 299,
        reply is Err ==> reply_result(reply)->Err_0 == SubmissionErrorView::Transport(reply->Err_0),
{
}

/// A report, a client's description and a request's body are seen with every field as it is.
pub proof fn law_report_views<S>(
    report: Report<S>,
    client: ClientDescription,
    body: FeedbackRequestBody<S>,
)
    ensures
        report@.feedback_text == report.feedback_text@,
        report@.email is Some <==> report.email is Some,
        report.email is Some ==> report@.email->0 == report.email->0@,
        report@.system_specs == report.system_specs,
        client@.installation_id is Some <==> client.installation_id is Some,
        client.installation_id is Some ==> client@.installation_id->0 == client.installation_id->0@,
        client@.metrics_id is Some <==> client.metrics_id is Some,
        client.metrics_id is Some ==> client@.metrics_id->0 == client.metrics_id->0@,
        client@.is_staff == client.is_staff,
        client@.endpoint == client.endpoint@,
        body@.feedback_text == body.feedback_text@,
        body@.email is Some <==> body.email is Some,
        body.email is Some ==> body@.email->0 == body.email->0@,
        body@.installation_id is Some <==> body.installation_id is Some,
        body.installation_id is Some ==> body@.installation_id->0 == body.installation_id->0@,
        body@.metrics_id is Some <==> body.metrics_id is Some,
        body.metrics_id is Some ==> body@.metrics_id->0 == body.metrics_id->0@,
        body@.system_specs == body.system_specs,
        body@.is_staff == body.is_staff,
{
}

/// A submission is seen in the stage that it is in, with all that the stage holds.
pub proof fn law_submission_view<S>(submission: Submission<S>)
    ensures
        submission is Confirming ==> submission@ == (SubmissionView::Confirming {
            report: submission->Confirming_report@,
            dev_mode: submission->dev_mode,
        }),
        submission is Simulating ==> submission@ is Simulating,
        submission is Describing ==> submission@ == (SubmissionView::Describing {
            report: submission->Describing_report@,
        }),
        submission is Encoding ==> submission@ == (SubmissionView::<S>::Encoding {
            endpoint: submission->endpoint@,
        }),
        submission is Sending ==> submission@ is Sending,
        submission is Finished ==> submission@ is Finished,
{
}

/// An event is seen as what it is, with all that it brings.
pub proof fn law_event_view(event: SubmissionEvent)
    ensures
        event is Answered ==> event@ == SubmissionEventView::Answered(event->Answered_0),
        event is WaitOver ==> event@ is WaitOver,
        event is Described ==> event@ == SubmissionEventView::Described(event->Described_0@),
        event is Encoded ==> event@ is Encoded,
        event is Encoded && event->Encoded_0 is Ok ==> event@ == SubmissionEventView::Encoded(
            Ok(event->Encoded_0->Ok_0@),
        ),
        event is Encoded && event->Encoded_0 is Err ==> event@ == SubmissionEventView::Encoded(
            Err(event->Encoded_0->Err_0@),
        ),
        event is Responded && event->Responded_0 is Ok ==> event@ == SubmissionEventView::Responded(
            Ok(event->Responded_0->Ok_0),
        ),
        event is Responded && event->Responded_0 is Err ==> event@
            == SubmissionEventView::Responded(Err(event->Responded_0->Err_0@)),
{
}

/// An action and an outcome are seen as what they are, with all that they ask or tell.
pub proof fn law_action_view<S>(action: SubmissionAction<S>, outcome: SubmissionOutcome)
    ensures
        action is Wait ==> action@ == (SubmissionActionView::<S>::Wait { seconds: action->seconds }),
        action is Describe ==> action@ == (SubmissionActionView::<S>::Describe {
            path: action->path@,
        }),
        action is Encode ==> action@ == SubmissionActionView::Encode(action->Encode_0@),
        action is Send ==> action@ == SubmissionActionView::<S>::Send(action->Send_0@),
        action is Finish ==> action@ == SubmissionActionView::<S>::Finish(action->Finish_0@),
        outcome is Declined ==> outcome@ is Declined,
        outcome is Submitted ==> outcome@ is Submitted,
        outcome is Failed ==> outcome@ == SubmissionOutcomeView::Failed(outcome->Failed_0@),
{
}

/// A step is seen with its stage, its change to the dialog and its action.
pub proof fn law_step_view<S>(step: SubmissionStep<S>)
    ensures
        step@.submission == step.submission@,
        step@.update == step.update,
        step@.action == step.action@,
{
}

} // verus!
