//! What the server answers: the response to each request and to each outcome
//! of a reading.

use vstd::prelude::*;
use crate::body::{is_load_object, json_object, Rendered};
use crate::reading::LoadError;
use crate::route::{
    lemma_only_get_loadavg_is_routed, lookup, probe_routes, route, Handler, Method, Route,
};

verus! {

/// The request was answered with a body.
pub const STATUS_OK: u16 = 200;

/// No route accepts the request.
pub const STATUS_NOT_FOUND: u16 = 404;

/// The handler could not produce its answer.
pub const STATUS_INTERNAL_SERVER_ERROR: u16 = 500;

/// The media types a response body can have.
#[derive(Clone, Copy, Debug, PartialEq, Eq, Structural)]
pub enum ContentType {
    /// `application/json`
    Json,
}

impl ContentType {
    /// The media type as it is written in the `Content-Type` header.
    pub fn mime(&self) -> (text: &'static str)
        ensures
            text@ == "application/json"@,
    {
        match self {
            ContentType::Json => "application/json",
        }
    }
}

/// A response: the status code, the media type of the body if there is a
/// body, and the body.
#[derive(Debug)]
pub struct Response {
    pub status: u16,
    pub content_type: Option<ContentType>,
    pub body: String,
}

/// A response as contracts speak of it.
pub struct ResponseView {
    pub status: u16,
    pub content_type: Option<ContentType>,
    pub body: Seq<char>,
}

impl View for Response {
    type V = ResponseView;

    open spec fn view(&self) -> ResponseView {
        ResponseView { status: self.status, content_type: self.content_type, body: self.body@ }
    }
}

/// The response that carries nothing but a status.
pub open spec fn bare(status: u16) -> ResponseView {
    ResponseView { status, content_type: None, body: Seq::empty() }
}

/// The successful response that carries a JSON body.
pub open spec fn json(body: Seq<char>) -> ResponseView {
    ResponseView { status: STATUS_OK, content_type: Some(ContentType::Json), body }
}

/// The load-average handler's answer to the outcome of a reading: the
/// snapshot as a JSON object, or a server error without a body.
pub open spec fn loadavg_response(reading: Result<Rendered, LoadError>) -> ResponseView {
    match reading {
        Ok(rendered) => json(rendered.body()),
        Err(LoadError::UnsupportedPlatform) => bare(STATUS_INTERNAL_SERVER_ERROR),
    }
}

/// What becomes of a request: the handler that the table names for it, or
/// the not-found response when the table names none.
pub open spec fn dispatched(table: Seq<Route>, method: Method, path: Seq<char>) -> Result<
    Handler,
    ResponseView,
> {
    match lookup(table, method, path) {
        Some(handler) => Ok(handler),
        None => Err(bare(STATUS_NOT_FOUND)),
    }
}

/// The response that carries nothing but a status.
fn reply(status: u16) -> (response: Response)
    ensures
        response@ == bare(status),
{
    Response { status, content_type: None, body: String::new() }
}

/// Decides what becomes of a request: `Ok` with the handler to run, or `Err`
/// with the response to send when no route accepts the request.
pub fn dispatch(table: &[Route], method: Method, path: &str) -> (r: Result<Handler, Response>)
    ensures
        match r {
            Ok(handler) => dispatched(table@, method, path@) == Ok::<Handler, ResponseView>(handler),
            Err(response) => dispatched(table@, method, path@) == Err::<Handler, ResponseView>(
                response@,
            ),
        },
{
    match route(table, method, path) {
        Some(handler) => Ok(handler),
        None => Err(reply(STATUS_NOT_FOUND)),
    }
}

/// The load-average handler: turns the outcome of a reading into the
/// response. A snapshot is answered with status 200 and its JSON object; a
/// failed reading with status 500 and no body.
pub fn loadavg(reading: Result<Rendered, LoadError>) -> (response: Response)
    ensures
        response@ == loadavg_response(reading),
        response.status == STATUS_OK <==> reading is Ok,
        reading is Err ==> 500 <= response.status <= 599 && response.body@.len() == 0,
        reading matches Ok(rendered) ==> (rendered.numeric() ==> is_load_object(response.body@)),
{
    match reading {
        Ok(rendered) => Response {
            status: STATUS_OK,
            content_type: Some(ContentType::Json),
            body: rendered.to_json(),
        },
        Err(LoadError::UnsupportedPlatform) => reply(STATUS_INTERNAL_SERVER_ERROR),
    }
}

/// Route isolation: with the probe's table, `GET /loadavg` reaches the
/// load-average handler, and every other request, whether it differs in the
/// method or in the path, is answered at once with a status other than 200.
pub proof fn lemma_route_isolation(method: Method, path: Seq<char>)
    ensures
        method == Method::Get && path == "/loadavg"@ ==> dispatched(probe_routes(), method, path)
            == Ok::<Handler, ResponseView>(Handler::LoadAvg),
        !(method == Method::Get && path == "/loadavg"@) ==> (dispatched(
            probe_routes(),
            method,
            path,
        ) matches Err(response) && response.status != STATUS_OK),
{
    lemma_only_get_loadavg_is_routed(method, path);
}

/// Failure mapping: whatever the reading failed with, the handler's answer
/// is a server error, and it has no body.
pub proof fn lemma_failure_is_server_error(error: LoadError)
    ensures
        500 <= loadavg_response(Err(error)).status <= 599,
        loadavg_response(Err(error)).body.len() == 0,
{
}

/// Shape of a successful body: when the three texts that were rendered for a
/// snapshot are JSON numbers that are not below zero, the handler's answer is
/// a success whose body is declared as JSON and is a load object. A text that
/// is no such number, as `null` is, goes into the body as it came.
pub proof fn lemma_success_is_load_object(rendered: Rendered)
    requires
        rendered.numeric(),
    ensures
        loadavg_response(Ok(rendered)).status == STATUS_OK,
        loadavg_response(Ok(rendered)).content_type == Some(ContentType::Json),
        is_load_object(loadavg_response(Ok(rendered)).body),
{
}

/// Shape: the handler answers with success exactly when the reading
/// succeeded, and the body of a successful answer is the object with the keys
/// `last`, `last5` and `last15`, each followed by the text that was rendered
/// for it, and is declared as JSON.
pub proof fn lemma_success_has_object_body(reading: Result<Rendered, LoadError>)
    ensures
        loadavg_response(reading).status == STATUS_OK <==> reading is Ok,
        reading matches Ok(rendered) ==> loadavg_response(reading).body == json_object(
            rendered.last@,
            rendered.last5@,
            rendered.last15@,
        ) && loadavg_response(reading).content_type == Some(ContentType::Json),
{
}

} // verus!
