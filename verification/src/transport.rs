//! What goes over the wire: the request, and what its reply means.

use vstd::prelude::*;

use crate::text::{decimal, is_number, law_decimal_reads_back, number_of, option_text};

verus! {

/// The path of the feedback service.
pub const FEEDBACK_PATH: &'static str = "/api/feedback";

/// The header that every request carries.
pub const CONTENT_TYPE_NAME: &'static str = "content-type";

/// The value of that header.
pub const CONTENT_TYPE_VALUE: &'static str = "application/json";

/// Whether the simulated submission of development builds succeeds.
pub const SEND_SUCCESS_IN_DEV_MODE: bool = true;

/// How long that simulation takes, in seconds.
pub const SEND_SECONDS_IN_DEV_MODE: u64 = 2;

/// Why a submission failed.
#[derive(Debug)]
pub enum SubmissionError {
    /// The simulation was set to fail.
    Simulated,
    /// The report could not be turned into JSON.
    Encoding(String),
    /// No request could be made for the endpoint.
    Request(String),
    /// The request could not be sent, or its reply not read.
    Transport(String),
    /// The service refused, with this status line.
    Status(String),
}

/// Why a submission failed, as a mathematical value.
pub ghost enum SubmissionErrorView {
    Simulated,
    Encoding(Seq<char>),
    Request(Seq<char>),
    Transport(Seq<char>),
    Status(Seq<char>),
}

impl View for SubmissionError {
    type V = SubmissionErrorView;

    open spec fn view(&self) -> SubmissionErrorView {
        match self {
            SubmissionError::Simulated => SubmissionErrorView::Simulated,
            SubmissionError::Encoding(text) => SubmissionErrorView::Encoding(text@),
            SubmissionError::Request(text) => SubmissionErrorView::Request(text@),
            SubmissionError::Transport(text) => SubmissionErrorView::Transport(text@),
            SubmissionError::Status(text) => SubmissionErrorView::Status(text@),
        }
    }
}

impl SubmissionErrorView {
    /// The line that goes to the error log.
    pub open spec fn message(self) -> Seq<char> {
        match self {
            SubmissionErrorView::Simulated => "Error submitting feedback"@,
            SubmissionErrorView::Encoding(text) => text,
            SubmissionErrorView::Request(text) => text,
            SubmissionErrorView::Transport(text) => text,
            SubmissionErrorView::Status(text) => "Feedback API failed with error: "@ + text,
        }
    }
}

impl SubmissionError {
    /// The line that goes to the error log.
    pub fn message(&self) -> (result: String)
        ensures
            result@ == self@.message(),
    {
        match self {
            SubmissionError::Simulated => "Error submitting feedback".to_string(),
            SubmissionError::Encoding(text) => text.clone(),
            SubmissionError::Request(text) => text.clone(),
            SubmissionError::Transport(text) => text.clone(),
            SubmissionError::Status(text) => {
                "Feedback API failed with error: ".to_string().concat(text.as_str())
            },
        }
    }
}

/// The outcome of a stage as a mathematical value.
pub open spec fn result_view(result: Result<(), SubmissionError>) -> Result<
    (),
    SubmissionErrorView,
> {
    match result {
        Ok(_) => Ok(()),
        Err(error) => Err(error@),
    }
}

/// A POST request with one header.
#[derive(Debug)]
pub struct PostRequest {
    pub endpoint: String,
    pub header_name: &'static str,
    pub header_value: &'static str,
    pub body: Vec<u8>,
}

/// A POST request as a mathematical value.
pub ghost struct PostRequestView {
    pub endpoint: Seq<char>,
    pub header_name: Seq<char>,
    pub header_value: Seq<char>,
    pub body: Seq<u8>,
}

impl View for PostRequest {
    type V = PostRequestView;

    open spec fn view(&self) -> PostRequestView {
        PostRequestView {
            endpoint: self.endpoint@,
            header_name: self.header_name@,
            header_value: self.header_value@,
            body: self.body@,
        }
    }
}

/// The request that carries `body` to `endpoint`.
pub open spec fn feedback_request(endpoint: Seq<char>, body: Seq<u8>) -> PostRequestView {
    PostRequestView {
        endpoint,
        header_name: CONTENT_TYPE_NAME@,
        header_value: CONTENT_TYPE_VALUE@,
        body,
    }
}

/// The text of the error that `http`'s request builder gives for a POST request to `endpoint` with
/// one header, or `None` where it builds the request.
pub uninterp spec fn post_request_error(
    endpoint: Seq<char>,
    header_name: Seq<char>,
    header_value: Seq<char>,
) -> Option<Seq<char>>;

/// The reason phrase that `http` writes behind the number where it displays a status code.
pub uninterp spec fn status_reason(code: u16) -> Seq<char>;

/// The text by which `http` displays a status code: its number, a space and its reason phrase.
pub open spec fn status_display(code: u16) -> Seq<char> {
    decimal(code as int) + " "@ + status_reason(code)
}

/// The numbers that are HTTP status codes.
pub open spec fn is_status_code(code: u16) -> bool {
    100 <= code <= 999
}

/// The status codes that mean success.
pub open spec fn is_success(code: u16) -> bool {
    200 <= code <= 299
}

/// Calls `http::Request::post`, and `header` and `body` of the builder that it returns.
///
/// Believed of them: whether the request can be built, and the text of the error if not, depend on
/// the endpoint and the header alone. Which endpoints are accepted is not stated.
#[verifier::external_body]
fn try_post_request(endpoint: &str, header_name: &str, header_value: &str) -> (result: Option<
    String,
>)
    ensures
        option_text(result) == post_request_error(endpoint@, header_name@, header_value@),
{
    match http::Request::post(endpoint).header(header_name, header_value).body(()) {
        Ok(_) => None,
        Err(error) => Some(error.to_string()),
    }
}

/// Calls `http::StatusCode::is_success`.
///
/// Believed of it: it holds of the codes from 200 to 299 and of no other.
#[verifier::external_body]
fn status_is_success(code: u16) -> (result: bool)
    requires
        is_status_code(code),
    ensures
        result == is_success(code),
{
    http::StatusCode::from_u16(code).unwrap().is_success()
}

/// Calls `to_string` on an `http::StatusCode`.
///
/// Believed of it: the text is the number, a space and a reason phrase that depends on the code
/// alone. Which phrase belongs to which code is not stated.
#[verifier::external_body]
fn status_to_string(code: u16) -> (result: String)
    requires
        is_status_code(code),
    ensures
        result@ == decimal(code as int) + " "@ + status_reason(code),
{
    http::StatusCode::from_u16(code).unwrap().to_string()
}

/// The outcome of a simulated submission.
pub open spec fn simulated(send_success: bool) -> Result<(), SubmissionErrorView> {
    if send_success {
        Ok(())
    } else {
        Err(SubmissionErrorView::Simulated)
    }
}

/// The outcome of a simulated submission.
pub fn simulated_result(send_success: bool) -> (result: Result<(), SubmissionError>)
    ensures
        result_view(result) == simulated(send_success),
{
    if send_success {
        Ok(())
    } else {
        Err(SubmissionError::Simulated)
    }
}

/// The outcome of building a request, as a mathematical value.
pub open spec fn request_view(result: Result<PostRequest, SubmissionError>) -> Result<
    PostRequestView,
    SubmissionErrorView,
> {
    match result {
        Ok(request) => Ok(request@),
        Err(error) => Err(error@),
    }
}

/// The request for an encoded report, given the text of the error that building it ran into.
pub open spec fn request_unless(
    endpoint: Seq<char>,
    body: Seq<u8>,
    error: Option<Seq<char>>,
) -> Result<PostRequestView, SubmissionErrorView> {
    match error {
        Some(text) => Err(SubmissionErrorView::Request(text)),
        None => Ok(feedback_request(endpoint, body)),
    }
}

/// The request for an encoded report, given the text of the error that building it ran into.
pub fn request_unless_error(endpoint: String, body: Vec<u8>, error: Option<String>) -> (result:
    Result<PostRequest, SubmissionError>)
    ensures
        request_view(result) == request_unless(endpoint@, body@, option_text(error)),
{
    match error {
        Some(text) => Err(SubmissionError::Request(text)),
        None => Ok(
            PostRequest {
                endpoint,
                header_name: CONTENT_TYPE_NAME,
                header_value: CONTENT_TYPE_VALUE,
                body,
            },
        ),
    }
}

/// The request for an encoded report.
pub open spec fn built_request(endpoint: Seq<char>, body: Seq<u8>) -> Result<
    PostRequestView,
    SubmissionErrorView,
> {
    request_unless(
        endpoint,
        body,
        post_request_error(endpoint, CONTENT_TYPE_NAME@, CONTENT_TYPE_VALUE@),
    )
}

/// The request for an encoded report, or why there is none for this endpoint.
pub fn build_request(endpoint: String, body: Vec<u8>) -> (result: Result<
    PostRequest,
    SubmissionError,
>)
    ensures
        request_view(result) == built_request(endpoint@, body@),
{
    let error = try_post_request(endpoint.as_str(), CONTENT_TYPE_NAME, CONTENT_TYPE_VALUE);
    request_unless_error(endpoint, body, error)
}

/// What a status code means for the submission, given the text that displays it.
pub open spec fn status_result(code: u16, text: Seq<char>) -> Result<(), SubmissionErrorView> {
    if is_success(code) {
        Ok(())
    } else {
        Err(SubmissionErrorView::Status(text))
    }
}

/// What a reply's status code means for the submission, given the text that displays it.
pub fn status_outcome(code: u16, text: String) -> (result: Result<(), SubmissionError>)
    requires
        is_status_code(code),
    ensures
        result_view(result) == status_result(code, text@),
{
    if status_is_success(code) {
        Ok(())
    } else {
        Err(SubmissionError::Status(text))
    }
}

/// What a reply's status code means for the submission.
pub fn check_status(code: u16) -> (result: Result<(), SubmissionError>)
    requires
        is_status_code(code),
    ensures
        result_view(result) == status_result(code, status_display(code)),
{
    let text = status_to_string(code);
    status_outcome(code, text)
}

/// Success is the codes of the two hundreds, and a status code has three digits, the first of them
/// not zero.
pub proof fn law_success_codes(code: u16)
    ensures
        is_success(code) <==> code / 100 == 2,
        is_status_code(code) <==> 1 <= code / 100 <= 9,
        is_success(code) ==> is_status_code(code),
{
}

/// A status is a success or a failure by its code alone; a failure carries the text that displays
/// the status, whole and unchanged.
pub proof fn law_status_result(code: u16, text: Seq<char>)
    ensures
        status_result(code, text) is Ok <==> 200 <= code < 300,
        status_result(code, text) is Err ==> status_result(code, text)->Err_0
            == SubmissionErrorView::Status(text),
{
}

/// A status is displayed by a number that reads back as its code, a space, and then its reason
/// phrase to the end.
pub proof fn law_status_display(code: u16)
    ensures
        ({
            let text = status_display(code);
            let n = text.len() - status_reason(code).len() - 1;
            &&& 0 < n < text.len()
            &&& is_number(text.take(n))
            &&& number_of(text.take(n)) == code
            &&& text[n] == ' '
            &&& text.skip(n + 1) == status_reason(code)
        }),
{
    reveal_strlit(" ");
    law_decimal_reads_back(code as int);
    let text = status_display(code);
    let n = decimal(code as int).len() as int;
    assert(text.take(n) =~= decimal(code as int));
    assert(text.skip(n + 1) =~= status_reason(code));
}

/// A request for an endpoint is made exactly if the builder has no objection to a POST request
/// there with a JSON content type. It goes to that endpoint, with that header and with the body
/// unchanged; otherwise the builder's objection is what is reported.
pub proof fn law_built_request(endpoint: Seq<char>, body: Seq<u8>)
    ensures
        ({
            let objection = post_request_error(
                endpoint,
                "content-type"@,
                "application/json"@,
            );
            let result = built_request(endpoint, body);
            &&& result is Ok <==> objection is None
            &&& result is Ok ==> {
                &&& result->Ok_0.endpoint == endpoint
                &&& result->Ok_0.header_name == "content-type"@
                &&& result->Ok_0.header_value == "application/json"@
                &&& result->Ok_0.body == body
            }
            &&& result is Err ==> result->Err_0 == SubmissionErrorView::Request(objection->0)
        }),
{
}

/// What a request for an endpoint comes to, for any objection that building it may have met.
pub proof fn law_request_unless(endpoint: Seq<char>, body: Seq<u8>, objection: Option<Seq<char>>)
    ensures
        ({
            let result = request_unless(endpoint, body, objection);
            &&& result is Ok <==> objection is None
            &&& result is Ok ==> {
                &&& result->Ok_0.endpoint == endpoint
                &&& result->Ok_0.header_name == "content-type"@
                &&& result->Ok_0.header_value == "application/json"@
                &&& result->Ok_0.body == body
            }
            &&& result is Err ==> result->Err_0 == SubmissionErrorView::Request(objection->0)
        }),
{
}

/// The error log gets the texts of outside errors as they are, the status behind an introduction,
/// and a fixed line for a simulated failure.
pub proof fn law_error_messages(text: Seq<char>)
    ensures
        SubmissionErrorView::Simulated.message() == "Error submitting feedback"@,
        SubmissionErrorView::Encoding(text).message() == text,
        SubmissionErrorView::Request(text).message() == text,
        SubmissionErrorView::Transport(text).message() == text,
        SubmissionErrorView::Status(text).message() == "Feedback API failed with error: "@ + text,
{
}

/// An error is seen with its kind and its whole text.
pub proof fn law_error_view(error: SubmissionError)
    ensures
        error@ is Simulated <==> error is Simulated,
        error is Encoding ==> error@ == SubmissionErrorView::Encoding(error->Encoding_0@),
        error is Request ==> error@ == SubmissionErrorView::Request(error->Request_0@),
        error is Transport ==> error@ == SubmissionErrorView::Transport(error->Transport_0@),
        error is Status ==> error@ == SubmissionErrorView::Status(error->Status_0@),
{
}

/// An outcome is seen as a success exactly if it is one, and otherwise with its error.
pub proof fn law_result_views(
    result: Result<(), SubmissionError>,
    request: Result<PostRequest, SubmissionError>,
)
    ensures
        result_view(result) is Ok <==> result is Ok,
        result is Err ==> result_view(result)->Err_0 == result->Err_0@,
        request_view(request) is Ok <==> request is Ok,
        request is Ok ==> request_view(request)->Ok_0 == request->Ok_0@,
        request is Err ==> request_view(request)->Err_0 == request->Err_0@,
{
}

/// A request is seen with its whole endpoint, header and body.
pub proof fn law_request_view(request: PostRequest)
    ensures
        request@.endpoint == request.endpoint@,
        request@.header_name == request.header_name@,
        request@.header_value == request.header_value@,
        request@.body == request.body@,
{
}

/// The fixed parts of a submission: the service's path, the header, and a simulation that succeeds
/// after two seconds.
pub proof fn law_transport_constants()
    ensures
        FEEDBACK_PATH@ == "/api/feedback"@,
        CONTENT_TYPE_NAME@ == "content-type"@,
        CONTENT_TYPE_VALUE@ == "application/json"@,
        SEND_SUCCESS_IN_DEV_MODE,
        SEND_SECONDS_IN_DEV_MODE == 2,
{
}

/// A simulation ends as it was set to end.
pub proof fn law_simulated(send_success: bool)
    ensures
        simulated(send_success) is Ok <==> send_success,
        !send_success ==> simulated(send_success)->Err_0 is Simulated,
{
}

} // verus!
