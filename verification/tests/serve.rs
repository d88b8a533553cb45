use fontserve::serve::{serve_font_finish, serve_font_start, FileOutcome, HttpReply, ServeStep};

fn expect_reply(step: ServeStep) -> HttpReply {
    match step {
        ServeStep::Reply(reply) => reply,
        ServeStep::ReadFile(path, mime) => {
            panic!("expected an immediate reply, got a read of {} as {}", path, mime)
        }
    }
}

#[test]
fn missing_path_parameter_is_bad_request() {
    let reply = expect_reply(serve_font_start(None));
    assert_eq!(reply.status, 400);
    assert_eq!(reply.content_type, None);
    assert_eq!(reply.body, b"Missing file path".to_vec());
}

#[test]
fn invalid_path_is_bad_request() {
    let relative = String::from("relative.ttf");
    let reply = expect_reply(serve_font_start(Some(&relative)));
    assert_eq!(reply.status, 400);
    assert_eq!(reply.content_type, None);
    assert_eq!(reply.body, b"Invalid file path".to_vec());

    let wrong_ext = String::from("/tmp/not-a-font.txt");
    let reply = expect_reply(serve_font_start(Some(&wrong_ext)));
    assert_eq!(reply.status, 400);
    assert_eq!(reply.body, b"Invalid file path".to_vec());
}

#[test]
fn servable_path_is_passed_on_with_its_mime_type() {
    let upper = String::from("/tmp/test.TTF");
    match serve_font_start(Some(&upper)) {
        ServeStep::ReadFile(path, mime) => {
            assert_eq!(path, "/tmp/test.TTF");
            assert_eq!(mime, "font/ttf");
        }
        ServeStep::Reply(reply) => panic!("unexpected refusal with status {}", reply.status),
    }
}

#[test]
fn found_file_streams_with_status_200() {
    let bytes = vec![0u8, 1, 2, 3, 255];
    let reply = serve_font_finish(String::from("font/ttf"), FileOutcome::Content(bytes.clone()));
    assert_eq!(reply.status, 200);
    assert_eq!(reply.content_type.as_deref(), Some("font/ttf"));
    assert_eq!(reply.body, bytes);
}

#[test]
fn unopenable_file_is_not_found() {
    let reply = serve_font_finish(String::from("font/otf"), FileOutcome::NotFound);
    assert_eq!(reply.status, 404);
    assert_eq!(reply.content_type, None);
    assert_eq!(reply.body, b"File not found".to_vec());
}

#[test]
fn read_failure_after_open_is_a_server_error() {
    let reply = serve_font_finish(String::from("font/ttf"), FileOutcome::ReadFailed);
    assert_eq!(reply.status, 500);
    assert_eq!(reply.content_type, None);
    assert_eq!(reply.body, b"Failed to read file".to_vec());
}
