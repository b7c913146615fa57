//! The front door's decision logic, one pair of functions per route.
//!
//! Each route is split into two verified steps. The handler step inspects the
//! inbound request and either rejects it outright (an empty identifier) or
//! yields the one outbound request to make; a rejection is decided before any
//! outbound request exists. The respond step maps the outcome of that
//! outbound call to the uniform envelope returned to the caller.

use vstd::prelude::*;

use crate::model::{
    APIErrorResponse, APIErrorResponseView, APIResponse, APIResponseView, Project, ProjectRequest,
    ProjectRequestView, ProjectResponse, ProjectResponseView, ProjectView,
};
use crate::xata_service::{
    spec_delete_confirmation, spec_headers, spec_row_url, spec_table_url, Config, OutboundRequest,
    XataService,
};

verus! {

/// The reply a route hands back to the caller: a success envelope behind an
/// Accepted transport status, or an error envelope behind Bad Request or
/// Internal Server Error.
#[derive(Debug, Clone)]
pub enum HandlerReply<T> {
    Accepted(APIResponse<T>),
    BadRequest(APIErrorResponse),
    InternalError(APIErrorResponse),
}

/// Mathematical image of a [`HandlerReply`], over the payload's own view.
pub enum ReplyView<T> {
    Accepted(APIResponseView<T>),
    BadRequest(APIErrorResponseView),
    InternalError(APIErrorResponseView),
}

impl<T: View> View for HandlerReply<T> {
    type V = ReplyView<T::V>;

    open spec fn view(&self) -> ReplyView<T::V> {
        match self {
            HandlerReply::Accepted(env) => ReplyView::Accepted(env@),
            HandlerReply::BadRequest(env) => ReplyView::BadRequest(env@),
            HandlerReply::InternalError(env) => ReplyView::InternalError(env@),
        }
    }
}

impl<T> HandlerReply<T> {
    /// The HTTP status the transport layer sends with this reply.
    pub open spec fn spec_http_status(&self) -> u16 {
        match self {
            HandlerReply::Accepted(_) => 202,
            HandlerReply::BadRequest(_) => 400,
            HandlerReply::InternalError(_) => 500,
        }
    }

    /// Returns the HTTP status the transport layer sends with this reply.
    pub fn http_status(&self) -> (s: u16)
        ensures
            s == self.spec_http_status(),
    {
        match self {
            HandlerReply::Accepted(_) => 202,
            HandlerReply::BadRequest(_) => 400,
            HandlerReply::InternalError(_) => 500,
        }
    }
}

/// What a handler decides on an inbound request: reply at once, or make the
/// given outbound call and then map its outcome to a reply.
#[derive(Debug, Clone)]
pub enum HandlerStep<T> {
    Reply(HandlerReply<T>),
    CallUpstream(OutboundRequest),
}

/// The success envelope: the operation's status code, the text `success`,
/// and the payload.
pub open spec fn spec_success<T>(code: u16, data: T) -> APIResponseView<T> {
    APIResponseView { status: code, message: "success"@, data: Some(data) }
}

/// The failure envelope for an upstream failure: status 500, the text
/// `failure`, and the error's text as the only diagnostic detail.
pub open spec fn spec_internal_error(detail: Seq<char>) -> APIErrorResponseView {
    APIErrorResponseView { status: 500, message: "failure"@, data: Some(detail) }
}

/// The rejection envelope for an empty identifier: status 400, the text
/// `failure`, and the detail `invalid ID`.
pub open spec fn spec_invalid_id() -> APIErrorResponseView {
    APIErrorResponseView { status: 400, message: "failure"@, data: Some("invalid ID"@) }
}

/// The view of an upstream outcome: the payload's view on success, the
/// error text on failure.
pub open spec fn outcome_view<T: View>(outcome: Result<T, String>) -> Result<T::V, Seq<char>> {
    match outcome {
        Ok(t) => Ok(t@),
        Err(e) => Err(e@),
    }
}

/// The reply to a create once its outbound call has an outcome: a created
/// acknowledgment, or the failure envelope.
pub open spec fn spec_create_reply(
    outcome: Result<ProjectResponseView, Seq<char>>,
) -> ReplyView<ProjectResponseView> {
    match outcome {
        Ok(data) => ReplyView::Accepted(spec_success(201u16, data)),
        Err(detail) => ReplyView::InternalError(spec_internal_error(detail)),
    }
}

/// The reply to a fetch once its outbound call has an outcome: the upstream
/// Project verbatim, or the failure envelope.
pub open spec fn spec_get_reply(outcome: Result<ProjectView, Seq<char>>) -> ReplyView<ProjectView> {
    match outcome {
        Ok(data) => ReplyView::Accepted(spec_success(200u16, data)),
        Err(detail) => ReplyView::InternalError(spec_internal_error(detail)),
    }
}

/// The reply to an update once its outbound call has an outcome: the updated
/// acknowledgment, or the failure envelope.
pub open spec fn spec_update_reply(
    outcome: Result<ProjectResponseView, Seq<char>>,
) -> ReplyView<ProjectResponseView> {
    match outcome {
        Ok(data) => ReplyView::Accepted(spec_success(200u16, data)),
        Err(detail) => ReplyView::InternalError(spec_internal_error(detail)),
    }
}

/// The reply to a delete once its outbound call has an outcome: a
/// confirmation embedding the requested identifier, or the failure envelope.
pub open spec fn spec_delete_reply(
    id: Seq<char>,
    outcome: Result<(), Seq<char>>,
) -> ReplyView<Seq<char>> {
    match outcome {
        Ok(_) => ReplyView::Accepted(spec_success(202u16, spec_delete_confirmation(id))),
        Err(detail) => ReplyView::InternalError(spec_internal_error(detail)),
    }
}

/// The rejection envelope sent when a route's identifier is empty.
pub fn invalid_id_response() -> (e: APIErrorResponse)
    ensures
        e@ == spec_invalid_id(),
{
    APIErrorResponse {
        status: 400,
        message: "failure".to_owned(),
        data: Some("invalid ID".to_owned()),
    }
}

/// The failure envelope sent when the outbound call fails.
pub fn internal_error_response(detail: String) -> (e: APIErrorResponse)
    ensures
        e@ == spec_internal_error(detail@),
{
    APIErrorResponse { status: 500, message: "failure".to_owned(), data: Some(detail) }
}

/// Decides the create route: a create carries no identifier, so it always
/// proceeds to the one outbound POST.
pub fn create_project_handler(config: &Config, new_project: ProjectRequest) -> (step: HandlerStep<
    ProjectResponse,
>)
    ensures
        step matches HandlerStep::CallUpstream(req) && {
            &&& req.method is Post
            &&& req.url@ == spec_table_url(config.database_url@)
            &&& spec_headers(req.headers, config.api_key@)
            &&& req.body matches Some(b) && b@ == new_project@
        },
{
    HandlerStep::CallUpstream(XataService::create_project(config, new_project))
}

/// Decides the fetch route: an empty identifier is rejected with the 400
/// envelope before any outbound request exists; otherwise the one outbound
/// GET proceeds.
pub fn get_project_handler(config: &Config, id: &String) -> (step: HandlerStep<Project>)
    ensures
        id@.len() == 0 ==> (step matches HandlerStep::Reply(r) && r@ == ReplyView::<ProjectView>::BadRequest(
            spec_invalid_id(),
        )),
        id@.len() != 0 ==> (step matches HandlerStep::CallUpstream(req) && {
            &&& req.method is Get
            &&& req.url@ == spec_row_url(config.database_url@, id@)
            &&& spec_headers(req.headers, config.api_key@)
            &&& req.body is None
        }),
{
    if id.as_str().is_empty() {
        HandlerStep::Reply(HandlerReply::BadRequest(invalid_id_response()))
    } else {
        HandlerStep::CallUpstream(XataService::get_project(config, id))
    }
}

/// Decides the update route: an empty identifier is rejected with the 400
/// envelope before any outbound request exists; otherwise the one outbound
/// PUT proceeds.
pub fn update_project_handler(
    config: &Config,
    updated_project: ProjectRequest,
    id: &String,
) -> (step: HandlerStep<ProjectResponse>)
    ensures
        id@.len() == 0 ==> (step matches HandlerStep::Reply(r) && r@ == ReplyView::<ProjectResponseView>::BadRequest(
            spec_invalid_id(),
        )),
        id@.len() != 0 ==> (step matches HandlerStep::CallUpstream(req) && {
            &&& req.method is Put
            &&& req.url@ == spec_row_url(config.database_url@, id@)
            &&& spec_headers(req.headers, config.api_key@)
            &&& req.body matches Some(b) && b@ == updated_project@
        }),
{
    if id.as_str().is_empty() {
        HandlerStep::Reply(HandlerReply::BadRequest(invalid_id_response()))
    } else {
        HandlerStep::CallUpstream(XataService::update_project(config, updated_project, id))
    }
}

/// Decides the delete route: an empty identifier is rejected with the 400
/// envelope before any outbound request exists; otherwise the one outbound
/// DELETE proceeds.
pub fn delete_project_handler(config: &Config, id: &String) -> (step: HandlerStep<String>)
    ensures
        id@.len() == 0 ==> (step matches HandlerStep::Reply(r) && r@ == ReplyView::<Seq<char>>::BadRequest(
            spec_invalid_id(),
        )),
        id@.len() != 0 ==> (step matches HandlerStep::CallUpstream(req) && {
            &&& req.method is Delete
            &&& req.url@ == spec_row_url(config.database_url@, id@)
            &&& spec_headers(req.headers, config.api_key@)
            &&& req.body is None
        }),
{
    if id.as_str().is_empty() {
        HandlerStep::Reply(HandlerReply::BadRequest(invalid_id_response()))
    } else {
        HandlerStep::CallUpstream(XataService::delete_project(config, id))
    }
}

/// Maps the outcome of the create's outbound call to the caller's reply.
pub fn create_project_respond(outcome: Result<ProjectResponse, String>) -> (r: HandlerReply<
    ProjectResponse,
>)
    ensures
        r@ == spec_create_reply(outcome_view(outcome)),
{
    match outcome {
        Ok(data) => HandlerReply::Accepted(
            APIResponse { status: 201, message: "success".to_owned(), data: Some(data) },
        ),
        Err(error) => HandlerReply::InternalError(internal_error_response(error)),
    }
}

/// Maps the outcome of the fetch's outbound call to the caller's reply; on
/// success the upstream Project is relayed verbatim.
pub fn get_project_respond(outcome: Result<Project, String>) -> (r: HandlerReply<Project>)
    ensures
        r@ == spec_get_reply(outcome_view(outcome)),
{
    match outcome {
        Ok(data) => HandlerReply::Accepted(
            APIResponse { status: 200, message: "success".to_owned(), data: Some(data) },
        ),
        Err(error) => HandlerReply::InternalError(internal_error_response(error)),
    }
}

/// Maps the outcome of the update's outbound call to the caller's reply.
pub fn update_project_respond(outcome: Result<ProjectResponse, String>) -> (r: HandlerReply<
    ProjectResponse,
>)
    ensures
        r@ == spec_update_reply(outcome_view(outcome)),
{
    match outcome {
        Ok(data) => HandlerReply::Accepted(
            APIResponse { status: 200, message: "success".to_owned(), data: Some(data) },
        ),
        Err(error) => HandlerReply::InternalError(internal_error_response(error)),
    }
}

/// Maps the outcome of the delete's outbound call to the caller's reply; on
/// success the reply carries a confirmation embedding the identifier.
pub fn delete_project_respond(id: &String, outcome: Result<(), String>) -> (r: HandlerReply<
    String,
>)
    ensures
        r@ == spec_delete_reply(
            id@,
            match outcome {
                Ok(_) => Ok(()),
                Err(e) => Err(e@),
            },
        ),
{
    match outcome {
        Ok(_) => HandlerReply::Accepted(
            APIResponse {
                status: 202,
                message: "success".to_owned(),
                data: Some(XataService::delete_confirmation(id)),
            },
        ),
        Err(error) => HandlerReply::InternalError(internal_error_response(error)),
    }
}

/// Law: every route maps a failed outbound call to the same failure
/// envelope, whose status is 500 and whose diagnostic detail is the error's
/// text; a non-empty error therefore yields a non-empty detail.
pub proof fn lemma_failure_reply_nonempty(detail: Seq<char>)
    requires
        detail.len() > 0,
    ensures
        spec_create_reply(Err(detail)) == ReplyView::<ProjectResponseView>::InternalError(spec_internal_error(detail)),
        spec_get_reply(Err(detail)) == ReplyView::<ProjectView>::InternalError(spec_internal_error(detail)),
        spec_update_reply(Err(detail)) == ReplyView::<ProjectResponseView>::InternalError(spec_internal_error(detail)),
        forall|id: Seq<char>|
            #[trigger] spec_delete_reply(id, Err(detail)) == ReplyView::<Seq<char>>::InternalError(
                spec_internal_error(detail),
            ),
        spec_internal_error(detail).status == 500,
        spec_internal_error(detail).data matches Some(d) && d.len() > 0,
{
}

/// Law: the confirmation text of a successful delete contains the requested
/// identifier as a contiguous segment.
pub proof fn lemma_delete_confirmation_contains_id(id: Seq<char>)
    ensures
        exists|i: int|
            0 <= i && i + id.len() <= spec_delete_confirmation(id).len()
                && #[trigger] spec_delete_confirmation(id).subrange(i, i + id.len()) == id,
{
    let prefix = "Project with ID: "@;
    let conf = spec_delete_confirmation(id);
    let start = prefix.len() as int;
    assert(conf.subrange(start, start + id.len()) =~= id);
}

/// Law: posting a project and then fetching it under the assigned identifier
/// yields a Project whose fields match the submitted request, provided the
/// upstream stores what was posted under the identifier it assigned.
pub proof fn lemma_post_then_get_round_trip(request: ProjectRequestView, assigned: Seq<char>)
    ensures
        spec_create_reply(Ok(ProjectResponseView { id: assigned })) == ReplyView::Accepted(
            spec_success(201u16, ProjectResponseView { id: assigned }),
        ),
        ({
            let stored = ProjectView {
                id: assigned,
                name: request.name,
                description: request.description,
                status: request.status,
            };
            &&& spec_get_reply(Ok(stored)) matches ReplyView::Accepted(env)
            &&& env.data matches Some(fetched)
            &&& fetched.id == assigned
            &&& fetched.name == request.name
            &&& fetched.description == request.description
            &&& fetched.status == request.status
        }),
{
}

} // verus!

