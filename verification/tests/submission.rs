use feedback_modal::modal::{FeedbackEditorEvent, FeedbackModal};
use feedback_modal::submission::{
    finish, send_or_fail, ClientDescription, FeedbackRequestBody, ModalUpdate, Submission,
    SubmissionAction, SubmissionEvent, SubmissionOutcome, SubmissionStep,
};
use feedback_modal::transport::{
    build_request, check_status, request_unless_error, simulated_result, status_outcome,
    PostRequest, SubmissionError,
};

const ENDPOINT: &str = "https://example.com/api/feedback";

fn start(dev_mode: bool) -> Submission<u32> {
    FeedbackModal::new(7u32).submit(" the report ", Some("a@b.cd".to_string()), dev_mode).0
}

fn client(is_staff: Option<bool>, endpoint: &str) -> ClientDescription {
    ClientDescription {
        installation_id: Some("installation".to_string()),
        metrics_id: None,
        is_staff,
        endpoint: endpoint.to_string(),
    }
}

fn step(submission: Submission<u32>, event: SubmissionEvent) -> SubmissionStep<u32> {
    match submission.step(event) {
        Ok(step) => step,
        Err(submission) => panic!("refused in {:?}", submission),
    }
}

fn describing() -> Submission<u32> {
    step(start(false), SubmissionEvent::Answered(Some(0))).submission
}

fn encoding(endpoint: &str) -> Submission<u32> {
    step(describing(), SubmissionEvent::Described(client(None, endpoint))).submission
}

fn sending() -> Submission<u32> {
    step(encoding(ENDPOINT), SubmissionEvent::Encoded(Ok(b"{}".to_vec()))).submission
}

fn outcome(step: SubmissionStep<u32>) -> SubmissionOutcome {
    assert!(matches!(step.submission, Submission::Finished));
    match step.action {
        SubmissionAction::Finish(outcome) => outcome,
        other => panic!("unexpected action {:?}", other),
    }
}

fn failure(step: SubmissionStep<u32>) -> SubmissionError {
    assert_eq!(step.update, Some(ModalUpdate::SubmissionFailed));
    match outcome(step) {
        SubmissionOutcome::Failed(error) => error,
        other => panic!("unexpected outcome {:?}", other),
    }
}

fn body_of(is_staff: Option<bool>) -> FeedbackRequestBody<u32> {
    let step = step(describing(), SubmissionEvent::Described(client(is_staff, ENDPOINT)));
    assert_eq!(step.update, None);
    match step.action {
        SubmissionAction::Encode(body) => body,
        other => panic!("unexpected action {:?}", other),
    }
}

#[test]
fn declining_does_nothing() {
    for answer in [None, Some(1), Some(2)] {
        for dev_mode in [false, true] {
            let step = step(start(dev_mode), SubmissionEvent::Answered(answer));
            assert_eq!(step.update, None);
            assert!(matches!(outcome(step), SubmissionOutcome::Declined));
        }
    }
}

#[test]
fn a_development_build_only_waits() {
    let first = step(start(true), SubmissionEvent::Answered(Some(0)));
    assert_eq!(first.update, Some(ModalUpdate::AwaitSubmission));
    assert!(matches!(first.action, SubmissionAction::Wait { seconds: 2 }));
    let last = step(first.submission, SubmissionEvent::WaitOver);
    assert_eq!(last.update, Some(ModalUpdate::Submitted));
    assert!(matches!(outcome(last), SubmissionOutcome::Submitted));
}

#[test]
fn a_release_build_describes_itself_first() {
    let first = step(start(false), SubmissionEvent::Answered(Some(0)));
    assert_eq!(first.update, Some(ModalUpdate::AwaitSubmission));
    assert!(matches!(first.action, SubmissionAction::Describe { path: "/api/feedback" }));
}

#[test]
fn the_body_holds_report_and_client() {
    let body = body_of(Some(true));
    assert_eq!(body.feedback_text, "the report");
    assert_eq!(body.email.as_deref(), Some("a@b.cd"));
    assert_eq!(body.installation_id.as_deref(), Some("installation"));
    assert_eq!(body.metrics_id, None);
    assert_eq!(body.system_specs, 7);
    assert!(body.is_staff);
    assert!(!body_of(Some(false)).is_staff);
    assert!(!body_of(None).is_staff);
}

#[test]
fn the_encoded_body_is_sent_as_it_is() {
    let step = step(encoding(ENDPOINT), SubmissionEvent::Encoded(Ok(b"{\"a\":1}".to_vec())));
    assert_eq!(step.update, None);
    match step.action {
        SubmissionAction::Send(request) => {
            assert_eq!(request.endpoint, ENDPOINT);
            assert_eq!(request.header_name, "content-type");
            assert_eq!(request.header_value, "application/json");
            assert_eq!(request.body, b"{\"a\":1}");
        }
        other => panic!("unexpected action {:?}", other),
    }
}

#[test]
fn a_success_status_ends_well() {
    for code in [200, 204, 299] {
        let step = step(sending(), SubmissionEvent::Responded(Ok(code)));
        assert_eq!(step.update, Some(ModalUpdate::Submitted));
        assert!(matches!(outcome(step), SubmissionOutcome::Submitted));
    }
}

#[test]
fn any_other_status_fails() {
    for (code, text) in [
        (100, "100 Continue"),
        (199, "199 <unknown status code>"),
        (300, "300 Multiple Choices"),
        (404, "404 Not Found"),
        (500, "500 Internal Server Error"),
        (999, "999 <unknown status code>"),
    ] {
        let error = failure(step(sending(), SubmissionEvent::Responded(Ok(code))));
        assert!(matches!(&error, SubmissionError::Status(status) if status == text));
        assert_eq!(error.message(), format!("Feedback API failed with error: {}", text));
    }
}

#[test]
fn an_encoding_error_fails() {
    let event = SubmissionEvent::Encoded(Err("no JSON".to_string()));
    let error = failure(step(encoding(ENDPOINT), event));
    assert!(matches!(error, SubmissionError::Encoding(_)));
    assert_eq!(error.message(), "no JSON");
}

#[test]
fn an_unusable_endpoint_fails() {
    for endpoint in ["", "not a url", "https://"] {
        let event = SubmissionEvent::Encoded(Ok(Vec::new()));
        let error = failure(step(encoding(endpoint), event));
        assert!(matches!(error, SubmissionError::Request(_)));
        let expected = http::Uri::try_from(endpoint).unwrap_err().to_string();
        assert_eq!(error.message(), expected);
    }
}

#[test]
fn a_transport_error_fails() {
    let event = SubmissionEvent::Responded(Err("connection reset".to_string()));
    let error = failure(step(sending(), event));
    assert!(matches!(error, SubmissionError::Transport(_)));
    assert_eq!(error.message(), "connection reset");
}

#[test]
fn unexpected_events_are_refused() {
    assert!(matches!(
        start(false).step(SubmissionEvent::WaitOver),
        Err(Submission::Confirming { .. })
    ));
    assert!(matches!(
        describing().step(SubmissionEvent::Answered(Some(0))),
        Err(Submission::Describing { .. })
    ));
    assert!(matches!(
        encoding(ENDPOINT).step(SubmissionEvent::Responded(Ok(200))),
        Err(Submission::Encoding { endpoint }) if endpoint == ENDPOINT
    ));
    for code in [0, 99, 1000] {
        assert!(matches!(
            sending().step(SubmissionEvent::Responded(Ok(code))),
            Err(Submission::Sending)
        ));
    }
    assert!(matches!(
        Submission::<u32>::Finished.step(SubmissionEvent::WaitOver),
        Err(Submission::Finished)
    ));
}

#[test]
fn a_whole_submission_changes_the_modal() {
    let mut modal = FeedbackModal::new(7u32);
    modal.on_editor_event(FeedbackEditorEvent::Edited { len: 100 });
    modal.update_submission_state(None);
    for (code, dismissed) in [(503, false), (200, true)] {
        let (mut submission, _) = modal.submit("a long enough report", None, false);
        let events = [
            SubmissionEvent::Answered(Some(0)),
            SubmissionEvent::Described(client(None, ENDPOINT)),
            SubmissionEvent::Encoded(Ok(Vec::new())),
            SubmissionEvent::Responded(Ok(code)),
        ];
        let mut closed = false;
        for event in events {
            let step = step(submission, event);
            if let Some(update) = step.update {
                closed = modal.apply(update).dismiss;
            }
            submission = step.submission;
        }
        assert!(matches!(submission, Submission::Finished));
        assert_eq!(closed, dismissed);
        assert_eq!(modal.can_submit(), !dismissed);
        assert_eq!(modal.awaiting_submission(), dismissed);
        assert_eq!(modal.appearance().count_label, "Characters: 4900");
    }
}

#[test]
fn simulations() {
    assert!(simulated_result(true).is_ok());
    let error = simulated_result(false).unwrap_err();
    assert!(matches!(error, SubmissionError::Simulated));
    assert_eq!(error.message(), "Error submitting feedback");
    assert!(matches!(failure(finish(Err(error))), SubmissionError::Simulated));
}

#[test]
fn requests_and_their_errors() {
    assert!(build_request(ENDPOINT.to_string(), vec![1, 2]).is_ok());
    assert!(build_request("/relative".to_string(), Vec::new()).is_ok());
    assert!(build_request("spaces are wrong".to_string(), Vec::new()).is_err());
    let request = request_unless_error(ENDPOINT.to_string(), vec![3], None).unwrap();
    assert_eq!(request.endpoint, ENDPOINT);
    assert_eq!(request.body, [3]);
    let error = request_unless_error(ENDPOINT.to_string(), vec![3], Some("bad".to_string()));
    assert_eq!(error.unwrap_err().message(), "bad");
}

#[test]
fn statuses_and_their_texts() {
    assert!(check_status(200).is_ok());
    assert_eq!(
        check_status(418).unwrap_err().message(),
        "Feedback API failed with error: 418 I'm a teapot"
    );
    assert!(status_outcome(250, "ignored".to_string()).is_ok());
    assert_eq!(
        status_outcome(300, "my text".to_string()).unwrap_err().message(),
        "Feedback API failed with error: my text"
    );
}

#[test]
fn a_request_that_was_not_built_is_not_sent() {
    let error = SubmissionError::Request("bad".to_string());
    assert_eq!(failure(send_or_fail(Err(error))).message(), "bad");
    let request = PostRequest {
        endpoint: ENDPOINT.to_string(),
        header_name: "a",
        header_value: "b",
        body: vec![1],
    };
    let step: SubmissionStep<u32> = send_or_fail(Ok(request));
    assert!(matches!(step.submission, Submission::Sending));
    assert!(matches!(step.action, SubmissionAction::Send(request) if request.body == [1]));
}
