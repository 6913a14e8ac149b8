use static_server::auth::{is_authorized, ConfigError, Configuration};
use static_server::handler::{
    response_to_change, route, step, target_path, Action, Change, Event, HandlerError, State,
};
use static_server::request::parse_request;
use static_server::response::{Response, Status};
use std::collections::HashMap;

type Files = HashMap<String, Vec<u8>>;

fn config(secret: Option<&str>) -> Configuration {
    Configuration {
        secret_token: secret.map(|s| s.to_string()),
        root_directory: "public".to_string(),
    }
}

/// Plays the caller: performs each action on `files` and reports the event.
fn serve(config: &Configuration, files: &mut Files, received: &[u8], pending: &[u8]) -> Action {
    let first = Event::Received { bytes: received.to_vec() };
    let (mut state, mut action) = step(config, State::Start, first);
    loop {
        let event = match action {
            Action::ReadFile { path } => match files.get(&path) {
                Some(contents) => Event::FileContents { contents: contents.clone() },
                None => Event::NotAFile,
            },
            Action::ReadBody { length } => {
                if length <= pending.len() {
                    Event::Body { bytes: pending[..length].to_vec() }
                } else {
                    Event::Failed
                }
            }
            Action::CreateFile { path, body } => {
                files.insert(path, body);
                Event::Done
            }
            Action::AppendFile { path, body } => match files.get_mut(&path) {
                Some(contents) => {
                    contents.extend_from_slice(&body);
                    Event::Done
                }
                None => Event::Failed,
            },
            Action::RemoveFile { path } => {
                if files.remove(&path).is_some() {
                    Event::Done
                } else {
                    Event::NotAFile
                }
            }
            last => {
                assert!(matches!(state, State::Closed));
                return last;
            }
        };
        let next = step(config, state, event);
        state = next.0;
        action = next.1;
    }
}

fn response_of(action: Action) -> Response {
    match action {
        Action::Respond { response } => response,
        other => panic!("no response: {:?}", other),
    }
}

fn error_of(action: Action) -> HandlerError {
    match action {
        Action::Abort { error } => error,
        other => panic!("no abort: {:?}", other),
    }
}

fn request(method: &str, path: &str, token: Option<&str>, body: &[u8]) -> Vec<u8> {
    let mut text = format!("{} {} HTTP/1.1\r\nHost: localhost\r\n", method, path);
    if let Some(token) = token {
        text.push_str(&format!("Authorization: Bearer {}\r\n", token));
    }
    text.push_str(&format!("Content-Length: {}\r\n\r\n", body.len()));
    text.into_bytes()
}

#[test]
fn create_append_read_and_guarded_delete() {
    let config = config(Some("xyz"));
    let mut files = Files::new();

    let r = response_of(serve(&config, &mut files, &request("GET", "/missing.txt", None, b""), b""));
    assert_eq!(r.status, Status::NotFound);

    let r = response_of(serve(
        &config,
        &mut files,
        &request("POST", "/a.txt", Some("xyz"), b"hello"),
        b"hello",
    ));
    assert_eq!(r.status, Status::Created);
    assert_eq!(files.get("public/a.txt").map(|v| v.as_slice()), Some(&b"hello"[..]));

    let r = response_of(serve(
        &config,
        &mut files,
        &request("PUT", "/a.txt", Some("xyz"), b" world"),
        b" world",
    ));
    assert_eq!(r.status, Status::Success);
    assert_eq!(files.get("public/a.txt").map(|v| v.as_slice()), Some(&b"hello world"[..]));

    let r = response_of(serve(&config, &mut files, &request("GET", "/a.txt", None, b""), b""));
    assert_eq!(r.status, Status::Success);
    assert_eq!(r.body, b"hello world");
    assert_eq!(r.content_type, Some("text/plain"));

    let r = response_of(serve(
        &config,
        &mut files,
        &request("DELETE", "/a.txt", Some("wrong"), b""),
        b"",
    ));
    assert_eq!(r.status, Status::Unauthorized);
    assert!(files.contains_key("public/a.txt"));
}

#[test]
fn get_returns_the_exact_bytes_and_the_type() {
    let config = config(Some("s"));
    let mut files = Files::new();
    files.insert("public/pic.png".to_string(), vec![0x89, 0x50, 0x00, 0xFF, 0x0A]);
    let before = files.clone();
    let r = response_of(serve(&config, &mut files, &request("GET", "/pic.png", None, b""), b""));
    assert_eq!(r.status, Status::Success);
    assert_eq!(r.body, vec![0x89, 0x50, 0x00, 0xFF, 0x0A]);
    assert_eq!(r.content_type, Some("image/png"));
    assert_eq!(files, before);
}

#[test]
fn get_root_is_get_index() {
    let config = config(None);
    let mut files = Files::new();
    files.insert("public/index.html".to_string(), b"<p>home</p>".to_vec());
    let a = response_of(serve(&config, &mut files, &request("GET", "/", None, b""), b""));
    let b = response_of(serve(&config, &mut files, &request("GET", "/index.html", None, b""), b""));
    assert_eq!(a.status, Status::Success);
    assert_eq!(a.body, b"<p>home</p>");
    assert_eq!(a.content_type, Some("text/html"));
    assert_eq!(a.status, b.status);
    assert_eq!(a.body, b.body);
    assert_eq!(a.content_type, b.content_type);
    assert_eq!(target_path("public", "/"), "public/index.html");
    assert_eq!(target_path("public", "/index.html"), "public/index.html");
}

#[test]
fn target_is_root_followed_by_the_path() {
    assert_eq!(target_path("public", "/a/b.txt"), "public/a/b.txt");
    assert_eq!(target_path("public", "//"), "public//");
    assert_eq!(target_path("public", "x"), "publicx");
    assert_eq!(target_path("", "/"), "/index.html");
    assert_eq!(target_path("www", "/../secret"), "www/../secret");
}

#[test]
fn get_needs_no_authorization() {
    let config = config(None);
    let mut files = Files::new();
    files.insert("public/a.txt".to_string(), b"x".to_vec());
    let r = response_of(serve(&config, &mut files, &request("GET", "/a.txt", None, b""), b""));
    assert_eq!(r.status, Status::Success);
}

#[test]
fn post_overwrites_what_was_there() {
    let config = config(Some("k"));
    let mut files = Files::new();
    files.insert("public/a.txt".to_string(), b"a much longer old text".to_vec());
    files.insert("public/b.txt".to_string(), b"other".to_vec());
    let r = response_of(serve(
        &config,
        &mut files,
        &request("POST", "/a.txt", Some("k"), b"new"),
        b"new and what follows",
    ));
    assert_eq!(r.status, Status::Created);
    assert_eq!(r.body, b"POST request received and data saved");
    assert_eq!(r.content_type, None);
    assert_eq!(files.get("public/a.txt").map(|v| v.as_slice()), Some(&b"new"[..]));
    assert_eq!(files.get("public/b.txt").map(|v| v.as_slice()), Some(&b"other"[..]));
    assert_eq!(files.len(), 2);
}

#[test]
fn post_without_or_with_wrong_authorization_changes_nothing() {
    let config = config(Some("k"));
    let mut files = Files::new();
    files.insert("public/a.txt".to_string(), b"old".to_vec());
    let before = files.clone();
    for token in [None, Some("K"), Some("k "), Some("kk"), Some("")] {
        let r = response_of(serve(
            &config,
            &mut files,
            &request("POST", "/a.txt", token, b"new"),
            b"new",
        ));
        assert_eq!(r.status, Status::Unauthorized);
        assert_eq!(r.body, b"Unauthorized");
        assert_eq!(files, before);
    }
}

#[test]
fn put_on_a_missing_file_creates_nothing() {
    let config = config(Some("k"));
    let mut files = Files::new();
    let e = error_of(serve(&config, &mut files, &request("PUT", "/a.txt", Some("k"), b"x"), b"x"));
    assert_eq!(e, HandlerError::Io);
    assert!(files.is_empty());
}

#[test]
fn put_appends_to_the_end() {
    let config = config(Some("k"));
    let mut files = Files::new();
    files.insert("public/log".to_string(), b"one\n".to_vec());
    let r = response_of(serve(
        &config,
        &mut files,
        &request("PUT", "/log", Some("k"), b"two\n"),
        b"two\n",
    ));
    assert_eq!(r.status, Status::Success);
    assert_eq!(r.body, b"PUT request received and data updated");
    assert_eq!(files.get("public/log").map(|v| v.as_slice()), Some(&b"one\ntwo\n"[..]));
}

#[test]
fn delete_removes_an_existing_file() {
    let config = config(Some("k"));
    let mut files = Files::new();
    files.insert("public/a.txt".to_string(), b"x".to_vec());
    let r = response_of(serve(&config, &mut files, &request("DELETE", "/a.txt", Some("k"), b""), b""));
    assert_eq!(r.status, Status::Success);
    assert_eq!(r.body, b"DELETE request received and file deleted");
    assert!(files.is_empty());
}

#[test]
fn delete_of_a_missing_file_is_not_found() {
    let config = config(Some("k"));
    let mut files = Files::new();
    let r = response_of(serve(&config, &mut files, &request("DELETE", "/a.txt", Some("k"), b""), b""));
    assert_eq!(r.status, Status::NotFound);
    assert!(r.body.is_empty());
}

#[test]
fn delete_without_authorization_keeps_the_file() {
    let config = config(Some("k"));
    let mut files = Files::new();
    files.insert("public/a.txt".to_string(), b"x".to_vec());
    let r = response_of(serve(&config, &mut files, &request("DELETE", "/a.txt", None, b""), b""));
    assert_eq!(r.status, Status::Unauthorized);
    assert!(files.contains_key("public/a.txt"));
    let r = response_of(serve(&config, &mut files, &request("DELETE", "/none", None, b""), b""));
    assert_eq!(r.status, Status::Unauthorized);
}

#[test]
fn other_methods_are_refused_and_change_nothing() {
    let config = config(Some("k"));
    let mut files = Files::new();
    files.insert("public/a.txt".to_string(), b"x".to_vec());
    let before = files.clone();
    for method in ["PATCH", "HEAD", "OPTIONS", "get", "post", ""] {
        let r = response_of(serve(
            &config,
            &mut files,
            &request(method, "/a.txt", Some("k"), b"zz"),
            b"zz",
        ));
        assert_eq!(r.status, Status::MethodNotAllowed);
        assert!(r.body.is_empty());
        assert_eq!(files, before);
    }
}

#[test]
fn missing_secret_fails_closed() {
    let config = config(None);
    let mut files = Files::new();
    files.insert("public/a.txt".to_string(), b"x".to_vec());
    let before = files.clone();
    for method in ["POST", "PUT", "DELETE"] {
        for token in [None, Some(""), Some("k")] {
            let e = error_of(serve(&config, &mut files, &request(method, "/a.txt", token, b"y"), b"y"));
            assert_eq!(e, HandlerError::MissingSecret);
            assert_eq!(files, before);
        }
    }
}

#[test]
fn short_body_is_an_error() {
    let config = config(Some("k"));
    let mut files = Files::new();
    let e = error_of(serve(&config, &mut files, &request("POST", "/a.txt", Some("k"), b"hello"), b"he"));
    assert_eq!(e, HandlerError::Io);
    assert!(files.is_empty());

    let state = State::AwaitingBody { append: false, path: "public/a.txt".to_string(), length: 5 };
    let (state, action) = step(&config, state, Event::Body { bytes: b"he".to_vec() });
    assert!(matches!(state, State::Closed));
    assert_eq!(error_of(action), HandlerError::ShortBody);
}

#[test]
fn body_is_cut_at_the_announced_length() {
    let config = config(Some("k"));
    let state = State::AwaitingBody { append: true, path: "public/a.txt".to_string(), length: 3 };
    let (state, action) = step(&config, state, Event::Body { bytes: b"abc".to_vec() });
    assert!(matches!(state, State::Changing { change: Change::Append }));
    match action {
        Action::AppendFile { path, body } => {
            assert_eq!(path, "public/a.txt");
            assert_eq!(body, b"abc");
        }
        other => panic!("unexpected action: {:?}", other),
    }
}

#[test]
fn an_event_out_of_turn_ends_the_connection() {
    let config = config(Some("k"));
    let (state, action) = step(&config, State::Start, Event::Done);
    assert!(matches!(state, State::Closed));
    assert_eq!(error_of(action), HandlerError::UnexpectedEvent);
    let (_, action) = step(&config, State::Closed, Event::Received { bytes: b"GET /".to_vec() });
    assert_eq!(error_of(action), HandlerError::UnexpectedEvent);
    let (_, action) = step(&config, State::Changing { change: Change::Create }, Event::NotAFile);
    assert_eq!(error_of(action), HandlerError::UnexpectedEvent);
    let (_, action) =
        step(&config, State::Reading { path: "public/a".to_string() }, Event::Body { bytes: vec![] });
    assert_eq!(error_of(action), HandlerError::UnexpectedEvent);
}

#[test]
fn a_reported_failure_ends_the_connection() {
    let config = config(Some("k"));
    let (state, action) = step(&config, State::Start, Event::Failed);
    assert!(matches!(state, State::Closed));
    assert_eq!(error_of(action), HandlerError::Io);
    let (_, action) = step(&config, State::Reading { path: "public/a".to_string() }, Event::Failed);
    assert_eq!(error_of(action), HandlerError::Io);
    let (_, action) = step(&config, State::Changing { change: Change::Remove }, Event::Failed);
    assert_eq!(error_of(action), HandlerError::Io);
}

#[test]
fn first_step_asks_for_the_right_action() {
    let config = config(Some("xyz"));
    let (state, action) = route(&config, parse_request(b"GET /docs/a.css HTTP/1.1\r\n\r\n"));
    assert!(matches!(&state, State::Reading { path } if path == "public/docs/a.css"));
    assert!(matches!(&action, Action::ReadFile { path } if path == "public/docs/a.css"));

    let post = b"POST /n HTTP/1.1\r\nAuthorization: Bearer xyz\r\nContent-Length: 12\r\n\r\n";
    let (state, action) = route(&config, parse_request(post));
    assert!(matches!(
        &state,
        State::AwaitingBody { append: false, path, length: 12 } if path == "public/n"
    ));
    assert!(matches!(action, Action::ReadBody { length: 12 }));

    let put = b"PUT /n HTTP/1.1\r\nAuthorization: Bearer xyz\r\n\r\n";
    let (state, action) = route(&config, parse_request(put));
    assert!(matches!(&state, State::AwaitingBody { append: true, length: 0, .. }));
    assert!(matches!(action, Action::ReadBody { length: 0 }));

    let delete = b"DELETE /n HTTP/1.1\r\nAuthorization: Bearer xyz\r\n\r\n";
    let (state, action) = route(&config, parse_request(delete));
    assert!(matches!(state, State::Changing { change: Change::Remove }));
    assert!(matches!(&action, Action::RemoveFile { path } if path == "public/n"));
}

#[test]
fn authorization_line_must_match_exactly() {
    let config = config(Some("xyz"));
    assert_eq!(is_authorized("Authorization: Bearer xyz", &config), Ok(true));
    assert_eq!(is_authorized("Authorization: Bearer xyz ", &config), Ok(false));
    assert_eq!(is_authorized("authorization: Bearer xyz", &config), Ok(false));
    assert_eq!(is_authorized("Authorization:  Bearer xyz", &config), Ok(false));
    assert_eq!(is_authorized("Authorization: Bearer xy", &config), Ok(false));
    assert_eq!(is_authorized("Authorization: Bearer ", &config), Ok(false));
    assert_eq!(is_authorized("Bearer xyz", &config), Ok(false));
    assert_eq!(is_authorized("xyz", &config), Ok(false));
    assert_eq!(is_authorized("", &config), Ok(false));
}

#[test]
fn empty_secret_is_a_secret() {
    let config = config(Some(""));
    assert_eq!(is_authorized("Authorization: Bearer ", &config), Ok(true));
    assert_eq!(is_authorized("", &config), Ok(false));
}

#[test]
fn no_secret_is_an_error() {
    let config = config(None);
    assert_eq!(is_authorized("Authorization: Bearer xyz", &config), Err(ConfigError::MissingSecret));
    assert_eq!(is_authorized("", &config), Err(ConfigError::MissingSecret));
}

#[test]
fn lower_case_header_name_reaches_the_authorizer_and_fails() {
    let config = config(Some("xyz"));
    let mut files = Files::new();
    let received = b"POST /a HTTP/1.1\r\nauthorization: Bearer xyz\r\nContent-Length: 1\r\n\r\n";
    let r = response_of(serve(&config, &mut files, received, b"x"));
    assert_eq!(r.status, Status::Unauthorized);
    assert!(files.is_empty());
}

#[test]
fn responses_after_changes() {
    assert_eq!(response_to_change(Change::Create).status, Status::Created);
    assert_eq!(response_to_change(Change::Append).status, Status::Success);
    assert_eq!(response_to_change(Change::Remove).status, Status::Success);
}
