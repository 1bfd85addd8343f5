//! The request handler: adapts a generation outcome into an HTTP response.
//! Success becomes a `200` with a JSON body; failure becomes a `500` whose
//! plain-text body wraps the reason in a context phrase.

use vstd::prelude::*;
use crate::generator::{GenerationError, failure_reason, generate_message, welcome_text};

verus! {

/// The media type of a response body: JSON for the welcome message,
/// plain text for the error body.
pub enum ContentType {
    Json,
    PlainText,
}

/// An HTTP response as the handler shapes it: a status code, the body's
/// media type, and the body itself.
pub struct HttpResponse {
    pub status: u16,
    pub content_type: ContentType,
    pub body: String,
}

/// The phrase the handler prepends to a generation failure's reason.
pub open spec fn context_phrase() -> Seq<char> {
    "failed to generate message"@
}

/// The body of a success response: the JSON object `{"message": <text>}`,
/// with the text standing verbatim between the quotes.
pub open spec fn json_message_body(text: Seq<char>) -> Seq<char> {
    "{\"message\":\""@ + text + "\"}"@
}

/// The body of an error response: the context phrase, a separator, and the
/// failure's reason.
pub open spec fn error_body(reason: Seq<char>) -> Seq<char> {
    context_phrase() + ": "@ + reason
}

/// An error fit for rendering as an HTTP response; its message becomes the
/// body of a `500` response.
pub struct AppError {
    pub message: String,
}

impl AppError {
    /// Wraps a generation failure with a context phrase, the way the
    /// handler reports it: `<context>: <reason>`.
    pub fn with_context(context: &str, e: GenerationError) -> (r: AppError)
        ensures
            r.message@ == context@ + ": "@ + e.reason@,
    {
        let mut message = String::from_str(context);
        message.append(": ");
        message.append(e.reason.as_str());
        AppError { message }
    }

    /// Renders the error as the response sent to the client: status `500`,
    /// plain text, the message as the body.
    pub fn into_response(self) -> (r: HttpResponse)
        ensures
            r.status == 500,
            r.content_type is PlainText,
            r.body@ == self.message@,
    {
        HttpResponse { status: 500, content_type: ContentType::PlainText, body: self.message }
    }
}

/// Serializes the success body for a given message text.
pub fn json_message(text: &str) -> (r: String)
    ensures
        r@ == json_message_body(text@),
{
    let mut body = String::from_str("{\"message\":\"");
    body.append(text);
    body.append("\"}");
    body
}

/// The plain route handler: always the welcome text.
pub fn home() -> (r: &'static str)
    ensures
        r@ == welcome_text(),
{
    "Welcome to Axum Play!"
}

/// Adapts any generation outcome into its HTTP response: success becomes a
/// `200` with the JSON body for that text, failure a `500` whose body wraps
/// that reason with the context phrase. Exactly those two statuses can come
/// out, and each body is pinned by the outcome alone.
pub fn respond_to(outcome: Result<&'static str, GenerationError>) -> (r: HttpResponse)
    ensures
        r.status == 200 || r.status == 500,
        outcome matches Ok(text) ==> r.status == 200 && r.content_type is Json
            && r.body@ == json_message_body(text@),
        outcome matches Err(e) ==> r.status == 500 && r.content_type is PlainText
            && r.body@ == error_body(e.reason@),
{
    match outcome {
        Ok(text) => HttpResponse {
            status: 200,
            content_type: ContentType::Json,
            body: json_message(text),
        },
        Err(e) => AppError::with_context("failed to generate message", e).into_response(),
    }
}

/// The JSON route handler: generates a message and hands back either the
/// success response or the error to be rendered.
pub fn home_json() -> (r: Result<HttpResponse, AppError>)
    ensures
        r matches Ok(resp) ==> resp.status == 200 && resp.content_type is Json
            && resp.body@ == json_message_body(welcome_text()),
        r matches Err(e) ==> e.message@ == error_body(failure_reason()),
{
    match generate_message() {
        Ok(text) => Ok(HttpResponse {
            status: 200,
            content_type: ContentType::Json,
            body: json_message(text),
        }),
        Err(e) => Err(AppError::with_context("failed to generate message", e)),
    }
}

/// Handles `GET /`: every response has status `200` or `500` and no other;
/// a `200` carries the JSON welcome body, a `500` carries the wrapped
/// failure reason.
pub fn handle_root_request() -> (r: HttpResponse)
    ensures
        r.status == 200 || r.status == 500,
        r.status == 200 ==> r.content_type is Json
            && r.body@ == json_message_body(welcome_text()),
        r.status == 500 ==> r.content_type is PlainText
            && r.body@ == error_body(failure_reason()),
{
    respond_to(generate_message())
}

/// The success body on the generator's own text is, letter for letter, the
/// JSON object `{"message":"Welcome to Axum Play!"}`.
pub proof fn lemma_success_body_is_literal()
    ensures
        json_message_body(welcome_text()) == "{\"message\":\"Welcome to Axum Play!\"}"@,
{
    reveal_strlit("{\"message\":\"");
    reveal_strlit("Welcome to Axum Play!");
    reveal_strlit("\"}");
    reveal_strlit("{\"message\":\"Welcome to Axum Play!\"}");
    assert(json_message_body(welcome_text()) =~= "{\"message\":\"Welcome to Axum Play!\"}"@);
}

/// The error body on the generator's own failure reason is, letter for
/// letter, `failed to generate message: no message for you!`.
pub proof fn lemma_error_body_is_literal()
    ensures
        error_body(failure_reason()) == "failed to generate message: no message for you!"@,
{
    reveal_strlit("failed to generate message");
    reveal_strlit(": ");
    reveal_strlit("no message for you!");
    reveal_strlit("failed to generate message: no message for you!");
    assert(error_body(failure_reason()) =~= "failed to generate message: no message for you!"@);
}

} // verus!
