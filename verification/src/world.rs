//! A model of the caller's side: the regular files by path and the bytes
//! still to come on the connection. It says what a faithful caller reports
//! for each action, runs the handler against it, and states what each kind of
//! request does to the files and which response it gets.

use crate::auth::{authorized, ConfigurationView};
use crate::handler::{
    changed_response, file_response, not_allowed_response, not_found_response, route_spec,
    step_spec, target_spec, unauthorized_response, ActionView, Change, EventView, HandlerError,
    StateView,
};
use crate::request::{parse_spec, utf8_lossy, Method, RequestView};
use crate::response::{ResponseView, Status};
use vstd::prelude::*;

verus! {

/// The regular files, each path with its contents.
pub type Files = Map<Seq<char>, Seq<u8>>;

/// The handling of one connection at some point: the files as they are, the
/// handler's state, and the action it asked for last.
pub struct Run {
    pub files: Files,
    pub state: StateView,
    pub action: ActionView,
}

/// Whether `action` ends a connection.
pub open spec fn is_final(action: ActionView) -> bool {
    action is Respond || action is Abort
}

/// What a faithful caller does for `action`: the files afterwards and the
/// event it reports. `pending` holds the bytes that the connection still
/// delivers. Creating a file and writing to one that exists succeed.
/// Appending to a file that is not there fails and creates nothing; reading
/// more bytes than are to come fails too.
pub open spec fn perform(files: Files, pending: Seq<u8>, action: ActionView) -> (Files, EventView) {
    match action {
        ActionView::ReadFile { path } => if files.contains_key(path) {
            (files, EventView::FileContents { contents: files[path] })
        } else {
            (files, EventView::NotAFile)
        },
        ActionView::ReadBody { length } => if length <= pending.len() {
            (files, EventView::Body { bytes: pending.subrange(0, length as int) })
        } else {
            (files, EventView::Failed)
        },
        ActionView::CreateFile { path, body } => (files.insert(path, body), EventView::Done),
        ActionView::AppendFile { path, body } => if files.contains_key(path) {
            (files.insert(path, files[path] + body), EventView::Done)
        } else {
            (files, EventView::Failed)
        },
        ActionView::RemoveFile { path } => if files.contains_key(path) {
            (files.remove(path), EventView::Done)
        } else {
            (files, EventView::NotAFile)
        },
        _ => (files, EventView::Failed),
    }
}

/// One round: the caller performs the action, the handler takes its step.
/// Nothing happens once the connection has ended.
pub open spec fn advance(config: ConfigurationView, pending: Seq<u8>, run: Run) -> Run {
    if is_final(run.action) {
        run
    } else {
        let (files, event) = perform(run.files, pending, run.action);
        let (state, action) = step_spec(config, run.state, event);
        Run { files, state, action }
    }
}

/// The handling of one request to its end: the first decision, then three
/// rounds, which is as many as the longest exchange takes.
pub open spec fn serve_request(
    config: ConfigurationView,
    files: Files,
    request: RequestView,
    pending: Seq<u8>,
) -> Run {
    let (state, action) = route_spec(config, request);
    advance(
        config,
        pending,
        advance(config, pending, advance(config, pending, Run { files, state, action })),
    )
}

/// The handling of one connection from its first bytes to its end.
pub open spec fn serve(
    config: ConfigurationView,
    files: Files,
    received: Seq<u8>,
    pending: Seq<u8>,
) -> Run {
    let (state, action) = step_spec(
        config,
        StateView::Start,
        EventView::Received { bytes: received },
    );
    advance(
        config,
        pending,
        advance(config, pending, advance(config, pending, Run { files, state, action })),
    )
}

/// The file that `request` is about.
pub open spec fn target_of(config: ConfigurationView, request: RequestView) -> Seq<char> {
    target_spec(config.root_directory, request.path)
}

/// Whether `request` asks for a change of files.
pub open spec fn asks_for_change(request: RequestView) -> bool {
    let method = request.method;
    method == Method::Post || method == Method::Put || method == Method::Delete
}

/// Whether `request` may change files: a secret is configured and the
/// request has the authorization line that it calls for.
pub open spec fn may_change(config: ConfigurationView, request: RequestView) -> bool {
    authorized(config, request.authorization)
}

/// A run that has ended with `response`, over `files`.
pub open spec fn ended_with(run: Run, files: Files, response: ResponseView) -> bool {
    run.files == files && run.state == StateView::Closed && run.action == (ActionView::Respond {
        response,
    })
}

/// A run that was dropped for `error`, over `files`.
pub open spec fn dropped_for(run: Run, files: Files, error: HandlerError) -> bool {
    run.files == files && run.state == StateView::Closed && run.action == (ActionView::Abort {
        error,
    })
}

/// A connection is handled as the request that its first bytes hold.
pub proof fn serve_goes_by_the_request(
    config: ConfigurationView,
    files: Files,
    received: Seq<u8>,
    pending: Seq<u8>,
)
    ensures
        serve(config, files, received, pending) == serve_request(
            config,
            files,
            parse_spec(utf8_lossy(received)),
            pending,
        ),
{
}

/// Every request comes to an end: after the rounds of `serve_request` the
/// last action is a response or an abort, and the handler is closed.
pub proof fn serve_ends(
    config: ConfigurationView,
    files: Files,
    request: RequestView,
    pending: Seq<u8>,
)
    ensures
        is_final(serve_request(config, files, request, pending).action),
        serve_request(config, files, request, pending).state == StateView::Closed,
{
}


/// GET of a file that exists answers with its exact contents under the
/// content type of its path, and leaves the files as they were.
pub proof fn get_serves_file(
    config: ConfigurationView,
    files: Files,
    request: RequestView,
    pending: Seq<u8>,
)
    requires
        request.method == Method::Get,
        files.contains_key(target_of(config, request)),
    ensures
        ended_with(
            serve_request(config, files, request, pending),
            files,
            file_response(target_of(config, request), files[target_of(config, request)]),
        ),
{
}

/// GET of a path without a regular file answers 404 and leaves the files as
/// they were.
pub proof fn get_missing_is_not_found(
    config: ConfigurationView,
    files: Files,
    request: RequestView,
    pending: Seq<u8>,
)
    requires
        request.method == Method::Get,
        !files.contains_key(target_of(config, request)),
    ensures
        ended_with(serve_request(config, files, request, pending), files, not_found_response()),
{
}

/// `/` and `/index.html` stand for the same file, so two requests with the
/// same method, body length and authorization line, one for each of the two
/// paths, are handled alike.
pub proof fn root_is_index(
    config: ConfigurationView,
    files: Files,
    first: RequestView,
    second: RequestView,
    pending: Seq<u8>,
)
    requires
        first.path == "/"@,
        second.path == "/index.html"@,
        first.method == second.method,
        first.content_length == second.content_length,
        first.authorization == second.authorization,
    ensures
        target_of(config, first) == target_of(config, second),
        serve_request(config, files, first, pending) == serve_request(config, files, second, pending),
{
    reveal_strlit("/");
    reveal_strlit("/index.html");
    assert("/index.html"@.len() != "/"@.len());
}

/// POST with the right authorization line writes exactly the body to the
/// target, in place of whatever was there, and answers 201.
pub proof fn post_writes_body(
    config: ConfigurationView,
    files: Files,
    request: RequestView,
    pending: Seq<u8>,
)
    requires
        request.method == Method::Post,
        may_change(config, request),
        request.content_length <= pending.len(),
    ensures
        ended_with(
            serve_request(config, files, request, pending),
            files.insert(
                target_of(config, request),
                pending.subrange(0, request.content_length as int),
            ),
            changed_response(Change::Create),
        ),
        changed_response(Change::Create).status == Status::Created,
{
}

/// PUT with the right authorization line on a file that exists appends the
/// body to its contents and answers 200.
pub proof fn put_appends_body(
    config: ConfigurationView,
    files: Files,
    request: RequestView,
    pending: Seq<u8>,
)
    requires
        request.method == Method::Put,
        may_change(config, request),
        request.content_length <= pending.len(),
        files.contains_key(target_of(config, request)),
    ensures
        ended_with(
            serve_request(config, files, request, pending),
            files.insert(
                target_of(config, request),
                files[target_of(config, request)] + pending.subrange(
                    0,
                    request.content_length as int,
                ),
            ),
            changed_response(Change::Append),
        ),
        changed_response(Change::Append).status == Status::Success,
{
}

/// PUT on a target that does not exist fails: the connection is dropped and
/// no file is created.
pub proof fn put_creates_nothing(
    config: ConfigurationView,
    files: Files,
    request: RequestView,
    pending: Seq<u8>,
)
    requires
        request.method == Method::Put,
        may_change(config, request),
        request.content_length <= pending.len(),
        !files.contains_key(target_of(config, request)),
    ensures
        dropped_for(serve_request(config, files, request, pending), files, HandlerError::Io),
{
}

/// A POST or PUT whose body does not arrive in full is dropped and changes
/// no file.
pub proof fn short_body_changes_nothing(
    config: ConfigurationView,
    files: Files,
    request: RequestView,
    pending: Seq<u8>,
)
    requires
        request.method == Method::Post || request.method == Method::Put,
        may_change(config, request),
        request.content_length > pending.len(),
    ensures
        dropped_for(serve_request(config, files, request, pending), files, HandlerError::Io),
{
}

/// DELETE with the right authorization line removes a file that exists and
/// answers 200.
pub proof fn delete_removes_file(
    config: ConfigurationView,
    files: Files,
    request: RequestView,
    pending: Seq<u8>,
)
    requires
        request.method == Method::Delete,
        may_change(config, request),
        files.contains_key(target_of(config, request)),
    ensures
        ended_with(
            serve_request(config, files, request, pending),
            files.remove(target_of(config, request)),
            changed_response(Change::Remove),
        ),
        changed_response(Change::Remove).status == Status::Success,
        !serve_request(config, files, request, pending).files.contains_key(target_of(config, request)),
{
}

/// DELETE with the right authorization line on a path without a regular
/// file answers 404 and leaves the files as they were.
pub proof fn delete_missing_is_not_found(
    config: ConfigurationView,
    files: Files,
    request: RequestView,
    pending: Seq<u8>,
)
    requires
        request.method == Method::Delete,
        may_change(config, request),
        !files.contains_key(target_of(config, request)),
    ensures
        ended_with(serve_request(config, files, request, pending), files, not_found_response()),
{
}

/// POST, PUT or DELETE without the right authorization line answers 401
/// where a secret is configured, and leaves every file as it was.
pub proof fn unauthorized_changes_nothing(
    config: ConfigurationView,
    files: Files,
    request: RequestView,
    pending: Seq<u8>,
)
    requires
        asks_for_change(request),
        config.secret_token is Some,
        !may_change(config, request),
    ensures
        ended_with(serve_request(config, files, request, pending), files, unauthorized_response()),
        unauthorized_response().status == Status::Unauthorized,
{
}

/// Without a configured secret no request changes a file: POST, PUT and
/// DELETE are dropped, whatever authorization line they carry.
pub proof fn missing_secret_fails_closed(
    config: ConfigurationView,
    files: Files,
    request: RequestView,
    pending: Seq<u8>,
)
    requires
        asks_for_change(request),
        config.secret_token is None,
    ensures
        dropped_for(serve_request(config, files, request, pending), files, HandlerError::MissingSecret),
{
}

/// A method other than GET, POST, PUT and DELETE answers 405 and leaves
/// every file as it was.
pub proof fn other_method_is_refused(
    config: ConfigurationView,
    files: Files,
    request: RequestView,
    pending: Seq<u8>,
)
    requires
        request.method == Method::Other,
    ensures
        ended_with(serve_request(config, files, request, pending), files, not_allowed_response()),
        not_allowed_response().status == Status::MethodNotAllowed,
{
}

/// A request changes files only if it is a POST, PUT or DELETE that carries
/// the authorization line of the configured secret.
pub proof fn only_authorized_requests_change_files(
    config: ConfigurationView,
    files: Files,
    request: RequestView,
    pending: Seq<u8>,
)
    requires
        serve_request(config, files, request, pending).files != files,
    ensures
        asks_for_change(request),
        may_change(config, request),
{
}

} // verus!
