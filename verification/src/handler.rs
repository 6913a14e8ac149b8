//! The per-connection handler as a decision procedure. The caller owns the
//! connection and the files: it hands in what happened as an [`Event`], and
//! gets back the next [`State`] and the [`Action`] to perform. A connection
//! ends with [`Action::Respond`] or [`Action::Abort`].

use crate::auth::{authorized, is_authorized, ConfigError, Configuration, ConfigurationView};
use crate::content_type::{content_type_for, content_type_of};
use crate::request::{parse_request, parse_spec, utf8_lossy, Method, Request, RequestView};
use crate::response::{Response, ResponseView, Status};
use vstd::prelude::*;
use vstd::string::StringExecFns;
use vstd::utf8::encode_utf8;

verus! {

/// A change to a file.
#[derive(Clone, Copy, Debug, PartialEq, Eq, Structural)]
pub enum Change {
    Create,
    Append,
    Remove,
}

/// Why a connection is dropped without a response.
#[derive(Clone, Copy, Debug, PartialEq, Eq, Structural)]
pub enum HandlerError {
    /// A request asked for a change and no secret is configured.
    MissingSecret,
    /// The caller reported that reading or writing failed.
    Io,
    /// The body that was handed in has not the announced length.
    ShortBody,
    /// The event does not answer the action that was asked for.
    UnexpectedEvent,
}

/// Where the handling of a connection stands.
#[derive(Debug)]
pub enum State {
    /// Nothing was read yet.
    Start,
    /// The file at `path` is being read for a GET.
    Reading { path: String },
    /// The body of a POST or PUT is awaited.
    AwaitingBody { append: bool, path: String, length: usize },
    /// A change to a file is under way.
    Changing { change: Change },
    /// The connection is done with.
    Closed,
}

/// What the caller reports.
#[derive(Debug)]
pub enum Event {
    /// The first bytes of the connection.
    Received { bytes: Vec<u8> },
    /// The whole contents of the regular file that was asked for.
    FileContents { contents: Vec<u8> },
    /// The bytes of the body that was asked for.
    Body { bytes: Vec<u8> },
    /// The change was made.
    Done,
    /// There is no regular file at the path.
    NotAFile,
    /// Reading or writing failed.
    Failed,
}

/// What the caller is to do next.
#[derive(Debug)]
pub enum Action {
    /// Read the regular file at `path` whole; report `FileContents`, or
    /// `NotAFile`.
    ReadFile { path: String },
    /// Read exactly `length` more bytes from the connection; report `Body`.
    ReadBody { length: usize },
    /// Create the file at `path`, or empty it, and write `body` to it.
    CreateFile { path: String, body: Vec<u8> },
    /// Append `body` to the file at `path`, which must exist.
    AppendFile { path: String, body: Vec<u8> },
    /// Remove the regular file at `path`; report `NotAFile` if there is none.
    RemoveFile { path: String },
    /// Send the response and close.
    Respond { response: Response },
    /// Close without a response.
    Abort { error: HandlerError },
}

/// A state as plain values.
pub enum StateView {
    Start,
    Reading { path: Seq<char> },
    AwaitingBody { append: bool, path: Seq<char>, length: usize },
    Changing { change: Change },
    Closed,
}

/// An event as plain values.
pub enum EventView {
    Received { bytes: Seq<u8> },
    FileContents { contents: Seq<u8> },
    Body { bytes: Seq<u8> },
    Done,
    NotAFile,
    Failed,
}

/// An action as plain values.
pub enum ActionView {
    ReadFile { path: Seq<char> },
    ReadBody { length: usize },
    CreateFile { path: Seq<char>, body: Seq<u8> },
    AppendFile { path: Seq<char>, body: Seq<u8> },
    RemoveFile { path: Seq<char> },
    Respond { response: ResponseView },
    Abort { error: HandlerError },
}

impl View for State {
    type V = StateView;

    open spec fn view(&self) -> StateView {
        match *self {
            State::Start => StateView::Start,
            State::Reading { path } => StateView::Reading { path: path@ },
            State::AwaitingBody { append, path, length } => StateView::AwaitingBody {
                append,
                path: path@,
                length,
            },
            State::Changing { change } => StateView::Changing { change },
            State::Closed => StateView::Closed,
        }
    }
}

impl View for Event {
    type V = EventView;

    open spec fn view(&self) -> EventView {
        match *self {
            Event::Received { bytes } => EventView::Received { bytes: bytes@ },
            Event::FileContents { contents } => EventView::FileContents { contents: contents@ },
            Event::Body { bytes } => EventView::Body { bytes: bytes@ },
            Event::Done => EventView::Done,
            Event::NotAFile => EventView::NotAFile,
            Event::Failed => EventView::Failed,
        }
    }
}

impl View for Action {
    type V = ActionView;

    open spec fn view(&self) -> ActionView {
        match *self {
            Action::ReadFile { path } => ActionView::ReadFile { path: path@ },
            Action::ReadBody { length } => ActionView::ReadBody { length },
            Action::CreateFile { path, body } => ActionView::CreateFile { path: path@, body: body@ },
            Action::AppendFile { path, body } => ActionView::AppendFile { path: path@, body: body@ },
            Action::RemoveFile { path } => ActionView::RemoveFile { path: path@ },
            Action::Respond { response } => ActionView::Respond { response: response@ },
            Action::Abort { error } => ActionView::Abort { error },
        }
    }
}

/// The file that a request path stands for: the path under the root, with
/// `/` standing for `/index.html`. Nothing else about the path is changed.
pub open spec fn target_spec(root: Seq<char>, path: Seq<char>) -> Seq<char> {
    if path == "/"@ {
        root + "/index.html"@
    } else {
        root + path
    }
}

/// A response with a status, no content type and `note` as its body.
pub open spec fn note_response(status: Status, note: Seq<char>) -> ResponseView {
    ResponseView { status, content_type: None, body: encode_utf8(note) }
}

/// The response to a request without the right authorization line.
pub open spec fn unauthorized_response() -> ResponseView {
    note_response(Status::Unauthorized, "Unauthorized"@)
}

/// The response where there is no regular file at the path.
pub open spec fn not_found_response() -> ResponseView {
    note_response(Status::NotFound, ""@)
}

/// The response to a method that the server does not have.
pub open spec fn not_allowed_response() -> ResponseView {
    note_response(Status::MethodNotAllowed, ""@)
}

/// The response to a GET of the file at `path` with the given contents.
pub open spec fn file_response(path: Seq<char>, contents: Seq<u8>) -> ResponseView {
    ResponseView {
        status: Status::Success,
        content_type: Some(content_type_of(path)),
        body: contents,
    }
}

/// The response after a change was made.
pub open spec fn changed_response(change: Change) -> ResponseView {
    match change {
        Change::Create => note_response(
            Status::Created,
            "POST request received and data saved"@,
        ),
        Change::Append => note_response(Status::Success, "PUT request received and data updated"@),
        Change::Remove => note_response(
            Status::Success,
            "DELETE request received and file deleted"@,
        ),
    }
}

/// The end of a connection with a response.
pub open spec fn respond(response: ResponseView) -> (StateView, ActionView) {
    (StateView::Closed, ActionView::Respond { response })
}

/// The end of a connection without a response.
pub open spec fn abort(error: HandlerError) -> (StateView, ActionView) {
    (StateView::Closed, ActionView::Abort { error })
}

/// What a request that changes files leads to once it is authorized.
pub open spec fn start_change(request: RequestView, target: Seq<char>) -> (StateView, ActionView) {
    if request.method == Method::Delete {
        (StateView::Changing { change: Change::Remove }, ActionView::RemoveFile { path: target })
    } else {
        (
            StateView::AwaitingBody {
                append: request.method == Method::Put,
                path: target,
                length: request.content_length,
            },
            ActionView::ReadBody { length: request.content_length },
        )
    }
}

/// The first decision, on the parsed request. A method that the server does
/// not have is refused; GET reads the file; POST, PUT and DELETE go on only
/// with the right authorization line, and are dropped where no secret is
/// configured.
pub open spec fn route_spec(config: ConfigurationView, request: RequestView) -> (
    StateView,
    ActionView,
) {
    let target = target_spec(config.root_directory, request.path);
    match request.method {
        Method::Other => respond(not_allowed_response()),
        Method::Get => (StateView::Reading { path: target }, ActionView::ReadFile { path: target }),
        _ => if config.secret_token is None {
            abort(HandlerError::MissingSecret)
        } else if authorized(config, request.authorization) {
            start_change(request, target)
        } else {
            respond(unauthorized_response())
        },
    }
}

/// The decision procedure: the next state and the action to perform, from
/// the state and what the caller reports.
pub open spec fn step_spec(config: ConfigurationView, state: StateView, event: EventView) -> (
    StateView,
    ActionView,
) {
    match (state, event) {
        (StateView::Start, EventView::Received { bytes }) => route_spec(
            config,
            parse_spec(utf8_lossy(bytes)),
        ),
        (StateView::Reading { path }, EventView::FileContents { contents }) => respond(
            file_response(path, contents),
        ),
        (StateView::Reading { path }, EventView::NotAFile) => respond(not_found_response()),
        (StateView::AwaitingBody { append, path, length }, EventView::Body { bytes }) => {
            if bytes.len() != length {
                abort(HandlerError::ShortBody)
            } else if append {
                (
                    StateView::Changing { change: Change::Append },
                    ActionView::AppendFile { path, body: bytes },
                )
            } else {
                (
                    StateView::Changing { change: Change::Create },
                    ActionView::CreateFile { path, body: bytes },
                )
            }
        },
        (StateView::Changing { change }, EventView::Done) => respond(changed_response(change)),
        (StateView::Changing { change }, EventView::NotAFile) => {
            if change == Change::Remove {
                respond(not_found_response())
            } else {
                abort(HandlerError::UnexpectedEvent)
            }
        },
        (StateView::Closed, _) => abort(HandlerError::UnexpectedEvent),
        (_, EventView::Failed) => abort(HandlerError::Io),
        _ => abort(HandlerError::UnexpectedEvent),
    }
}

/// Resolves a request path to the file it stands for.
pub fn target_path(root: &str, path: &str) -> (target: String)
    ensures
        target@ == target_spec(root@, path@),
{
    let mut target = String::from_str(root);
    if path.to_owned() == "/".to_owned() {
        target.append("/index.html");
    } else {
        target.append(path);
    }
    target
}

/// Makes the first decision on a parsed request.
pub fn route(config: &Configuration, request: Request) -> (r: (State, Action))
    ensures
        r.0@ == route_spec(config@, request@).0,
        r.1@ == route_spec(config@, request@).1,
{
    let target = target_path(config.root_directory.as_str(), request.path.as_str());
    match request.method {
        Method::Other => (
            State::Closed,
            Action::Respond { response: Response::with_note(Status::MethodNotAllowed, "") },
        ),
        Method::Get => {
            let path = target.clone();
            (State::Reading { path }, Action::ReadFile { path: target })
        },
        method => {
            let verdict = match &request.authorization {
                Some(line) => is_authorized(line.as_str(), config),
                None => match &config.secret_token {
                    Some(_) => Ok(false),
                    None => Err(ConfigError::MissingSecret),
                },
            };
            match verdict {
                Err(_) => (State::Closed, Action::Abort { error: HandlerError::MissingSecret }),
                Ok(false) => (
                    State::Closed,
                    Action::Respond {
                        response: Response::with_note(Status::Unauthorized, "Unauthorized"),
                    },
                ),
                Ok(true) => {
                    if method == Method::Delete {
                        (
                            State::Changing { change: Change::Remove },
                            Action::RemoveFile { path: target },
                        )
                    } else {
                        let length = request.content_length;
                        (
                            State::AwaitingBody { append: method == Method::Put, path: target, length },
                            Action::ReadBody { length },
                        )
                    }
                },
            }
        },
    }
}

/// The response after a change was made.
pub fn response_to_change(change: Change) -> (r: Response)
    ensures
        r@ == changed_response(change),
{
    match change {
        Change::Create => Response::with_note(
            Status::Created,
            "POST request received and data saved",
        ),
        Change::Append => Response::with_note(
            Status::Success,
            "PUT request received and data updated",
        ),
        Change::Remove => Response::with_note(
            Status::Success,
            "DELETE request received and file deleted",
        ),
    }
}

/// Takes one step: from the state and what the caller reports to the next
/// state and the action to perform.
pub fn step(config: &Configuration, state: State, event: Event) -> (r: (State, Action))
    ensures
        r.0@ == step_spec(config@, state@, event@).0,
        r.1@ == step_spec(config@, state@, event@).1,
{
    match (state, event) {
        (State::Start, Event::Received { bytes }) => {
            let request = parse_request(bytes.as_slice());
            route(config, request)
        },
        (State::Reading { path }, Event::FileContents { contents }) => {
            let mime = content_type_for(path.as_str());
            let response = Response { status: Status::Success, content_type: Some(mime), body: contents };
            (State::Closed, Action::Respond { response })
        },
        (State::Reading { path }, Event::NotAFile) => (
            State::Closed,
            Action::Respond { response: Response::with_note(Status::NotFound, "") },
        ),
        (State::AwaitingBody { append, path, length }, Event::Body { bytes }) => {
            if bytes.len() != length {
                (State::Closed, Action::Abort { error: HandlerError::ShortBody })
            } else if append {
                (State::Changing { change: Change::Append }, Action::AppendFile { path, body: bytes })
            } else {
                (State::Changing { change: Change::Create }, Action::CreateFile { path, body: bytes })
            }
        },
        (State::Changing { change }, Event::Done) => (
            State::Closed,
            Action::Respond { response: response_to_change(change) },
        ),
        (State::Changing { change }, Event::NotAFile) => {
            if change == Change::Remove {
                (State::Closed, Action::Respond { response: Response::with_note(Status::NotFound, "") })
            } else {
                (State::Closed, Action::Abort { error: HandlerError::UnexpectedEvent })
            }
        },
        (State::Closed, _) => (State::Closed, Action::Abort { error: HandlerError::UnexpectedEvent }),
        (_, Event::Failed) => (State::Closed, Action::Abort { error: HandlerError::Io }),
        _ => (State::Closed, Action::Abort { error: HandlerError::UnexpectedEvent }),
    }
}

} // verus!
