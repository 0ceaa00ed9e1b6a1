use nano_upload::encode::EncodeError;
use nano_upload::pipeline::{
    begin, dispatch, file_read, on_file_read, on_reply, on_written, prepare_image,
    request_for_image, success_message, Action, Event, Failure, Outcome, PipelineRun, Stage,
    NOTIFICATION_TITLE,
};
use nano_upload::snapshot::{ClipboardSnapshot, ContentClass, RawImage};
use nano_upload::upload::{
    ContentType, HttpReply, Payload, UploadError, UploadKind, UploadRequest,
};

const ENDPOINT: &str = "https://share.example";

fn start() -> PipelineRun {
    PipelineRun::start(ENDPOINT.to_string())
}

fn received(status: u16, body: &str) -> Event {
    Event::Replied(HttpReply::Received { status, body: body.to_string() })
}

fn decode(file: &[u8]) -> Vec<u8> {
    let decoder = png::Decoder::new(file);
    let mut reader = decoder.read_info().unwrap();
    let mut pixels = vec![0; reader.output_buffer_size()];
    let info = reader.next_frame(&mut pixels).unwrap();
    pixels.truncate(info.buffer_size());
    pixels
}

#[test]
fn link_on_the_clipboard_is_shortened() {
    let run = start();
    assert_eq!(run.stage, Stage::AwaitingSnapshot);
    assert!(!run.is_finished());

    let snapshot = ClipboardSnapshot::from_text("https://example.com/page".to_string());
    let (run, action) = run.step(Event::Captured(snapshot));
    assert_eq!(run.stage, Stage::AwaitingReply { kind: UploadKind::Link });
    let request = match action {
        Action::Send { url, request } => {
            assert_eq!(url, "https://share.example/create");
            request
        }
        other => panic!("unexpected action {:?}", other),
    };
    assert_eq!(
        request.json_body(),
        Some("{\"payload\":\"https://example.com/page\",\"type\":\"l\"}".to_string())
    );

    let (run, action) = run.step(received(200, "{\"url\":\"/abc123\"}"));
    assert_eq!(action, Action::WriteClipboard("https://share.example/abc123".to_string()));
    assert_eq!(
        run.stage,
        Stage::AwaitingWriteback {
            kind: UploadKind::Link,
            link: "https://share.example/abc123".to_string()
        }
    );

    let (run, action) = run.step(Event::Written(true));
    assert_eq!(
        action,
        Action::Finish(Outcome::Shared {
            kind: UploadKind::Link,
            link: "https://share.example/abc123".to_string()
        })
    );
    assert!(run.is_finished());
    assert_eq!(run.endpoint, ENDPOINT);
}

#[test]
fn file_on_the_clipboard_is_uploaded() {
    let class = ContentClass::FilePath("/tmp/report.pdf".to_string());
    let snapshot = ClipboardSnapshot::from_text("/tmp/report.pdf".to_string());
    let (stage, action) = begin(&snapshot, class, ENDPOINT);
    assert_eq!(stage, Stage::AwaitingFile { path: "/tmp/report.pdf".to_string() });
    assert_eq!(action, Action::ReadFile("/tmp/report.pdf".to_string()));

    let run = PipelineRun { endpoint: ENDPOINT.to_string(), stage };
    let (run, action) = run.step(Event::FileRead(Some(vec![37, 80, 68, 70])));
    assert_eq!(run.stage, Stage::AwaitingReply { kind: UploadKind::File });
    match action {
        Action::Send { url, request } => {
            assert_eq!(url, "https://share.example/upload");
            assert_eq!(request.kind.type_code(), "f");
            assert_eq!(request.extension, Some("pdf".to_string()));
            assert_eq!(request.content_type, ContentType::Multipart);
            assert_eq!(request.payload, Payload::Bytes(vec![37, 80, 68, 70]));
        }
        other => panic!("unexpected action {:?}", other),
    }

    let (run, action) = run.step(received(200, "{\"url\":\"/f1\"}"));
    assert_eq!(action, Action::WriteClipboard("https://share.example/f1".to_string()));
    let (run, action) = run.step(Event::Written(true));
    assert_eq!(
        action,
        Action::Finish(Outcome::Shared {
            kind: UploadKind::File,
            link: "https://share.example/f1".to_string()
        })
    );
    assert!(run.is_finished());
}

#[test]
fn existing_path_asks_for_the_file() {
    let (run, action) = start().step(Event::Captured(ClipboardSnapshot::from_text("/".to_string())));
    assert_eq!(action, Action::ReadFile("/".to_string()));
    assert_eq!(run.stage, Stage::AwaitingFile { path: "/".to_string() });
}

#[test]
fn empty_clipboard_ends_the_run_at_once() {
    let (run, action) = start().step(Event::Captured(ClipboardSnapshot::empty()));
    assert_eq!(action, Action::Finish(Outcome::Nothing));
    assert!(run.is_finished());

    let (run, action) = start().step(Event::Captured(ClipboardSnapshot::from_text(String::new())));
    assert_eq!(action, Action::Finish(Outcome::Nothing));
    assert!(run.is_finished());
}

#[test]
fn server_error_leaves_the_clipboard_alone() {
    let snapshot = ClipboardSnapshot::from_text("some words to share".to_string());
    let (run, action) = start().step(Event::Captured(snapshot));
    assert!(matches!(action, Action::Send { .. }));
    let (run, action) = run.step(received(500, "Internal Server Error"));
    assert_eq!(
        action,
        Action::Finish(Outcome::Failed(Failure::Upload(UploadError::Status(500))))
    );
    assert!(run.is_finished());
    let (run, action) = run.step(Event::Written(true));
    assert_eq!(action, Action::Ignore);
    assert!(run.is_finished());
}

#[test]
fn network_failure_ends_the_run() {
    let (stage, action) = on_reply(UploadKind::Text, &HttpReply::Failed, ENDPOINT);
    assert_eq!(stage, Stage::Finished);
    assert_eq!(action, Action::Finish(Outcome::Failed(Failure::Upload(UploadError::Network))));
}

#[test]
fn reply_without_result_ends_the_run() {
    let reply = HttpReply::Received { status: 200, body: "{\"id\":3}".to_string() };
    let (stage, action) = on_reply(UploadKind::Image, &reply, ENDPOINT);
    assert_eq!(stage, Stage::Finished);
    assert_eq!(
        action,
        Action::Finish(Outcome::Failed(Failure::Upload(UploadError::MissingField)))
    );
    let reply = HttpReply::Received { status: 200, body: "<html>".to_string() };
    let (_, action) = on_reply(UploadKind::Image, &reply, ENDPOINT);
    assert_eq!(
        action,
        Action::Finish(Outcome::Failed(Failure::Upload(UploadError::MalformedJson)))
    );
}

#[test]
fn plain_text_is_shared_as_text() {
    let snapshot = ClipboardSnapshot::from_text("some words to share".to_string());
    let (run, action) = start().step(Event::Captured(snapshot));
    assert_eq!(run.stage, Stage::AwaitingReply { kind: UploadKind::Text });
    match action {
        Action::Send { url, request } => {
            assert_eq!(url, "https://share.example/create");
            assert_eq!(
                request.json_body(),
                Some("{\"payload\":\"some words to share\",\"type\":\"t\"}".to_string())
            );
        }
        other => panic!("unexpected action {:?}", other),
    }
}

#[test]
fn image_is_encoded_sniffed_and_uploaded() {
    let pixels = vec![255, 0, 0, 255, 0, 255, 0, 128, 0, 0, 255, 0, 1, 2, 3, 4];
    let image = RawImage { width: 2, height: 2, bytes: pixels.clone() };
    let (run, action) = start().step(Event::Captured(ClipboardSnapshot::from_image(image)));
    assert_eq!(run.stage, Stage::AwaitingReply { kind: UploadKind::Image });
    match action {
        Action::Send { url, request } => {
            assert_eq!(url, "https://share.example/upload");
            assert_eq!(request.kind.type_code(), "i");
            assert_eq!(request.extension, Some("png".to_string()));
            assert_eq!(request.content_type, ContentType::Multipart);
            match request.payload {
                Payload::Bytes(file) => assert_eq!(decode(&file), pixels),
                other => panic!("unexpected payload {:?}", other),
            }
        }
        other => panic!("unexpected action {:?}", other),
    }
}

#[test]
fn inconsistent_image_ends_the_run() {
    let image = RawImage { width: 2, height: 2, bytes: vec![0; 3] };
    assert_eq!(prepare_image(&image), Err(Failure::Encoding(EncodeError::BufferSize)));
    let (run, action) = start().step(Event::Captured(ClipboardSnapshot::from_image(image)));
    assert_eq!(
        action,
        Action::Finish(Outcome::Failed(Failure::Encoding(EncodeError::BufferSize)))
    );
    assert!(run.is_finished());
}

#[test]
fn unrecognised_content_is_not_uploaded() {
    assert_eq!(request_for_image(vec![1, 2, 3], None), Err(Failure::UnknownContent));
    assert_eq!(
        request_for_image(vec![1, 2, 3], Some("png".to_string())),
        Ok(UploadRequest::image(vec![1, 2, 3], "png".to_string()))
    );
}

#[test]
fn image_class_without_an_image_sends_nothing() {
    let (stage, action) = begin(&ClipboardSnapshot::empty(), ContentClass::Image, ENDPOINT);
    assert_eq!(stage, Stage::Finished);
    assert_eq!(action, Action::Finish(Outcome::Nothing));
}

#[test]
fn dispatch_sends_or_fails() {
    let (stage, action) = dispatch(Ok(UploadRequest::text("a".to_string())), ENDPOINT);
    assert_eq!(stage, Stage::AwaitingReply { kind: UploadKind::Text });
    assert_eq!(
        action,
        Action::Send {
            url: "https://share.example/create".to_string(),
            request: UploadRequest::text("a".to_string())
        }
    );
    let (stage, action) = dispatch(Err(Failure::Io), ENDPOINT);
    assert_eq!(stage, Stage::Finished);
    assert_eq!(action, Action::Finish(Outcome::Failed(Failure::Io)));
}

#[test]
fn unreadable_file_ends_the_run() {
    let (stage, action) = on_file_read("/tmp/report.pdf", None, ENDPOINT);
    assert_eq!(stage, Stage::Finished);
    assert_eq!(action, Action::Finish(Outcome::Failed(Failure::Io)));
}

#[test]
fn file_without_extension_is_uploaded_as_txt() {
    let (_, action) = on_file_read("/etc/hostname", Some(vec![104, 105]), ENDPOINT);
    assert_eq!(
        action,
        Action::Send {
            url: "https://share.example/upload".to_string(),
            request: UploadRequest::file(vec![104, 105], "txt".to_string())
        }
    );
}

#[test]
fn file_read_uses_the_extension_it_is_given() {
    let (stage, action) = file_read(Some(vec![1]), "bin".to_string(), ENDPOINT);
    assert_eq!(stage, Stage::AwaitingReply { kind: UploadKind::File });
    assert_eq!(
        action,
        Action::Send {
            url: "https://share.example/upload".to_string(),
            request: UploadRequest::file(vec![1], "bin".to_string())
        }
    );
    let (stage, action) = file_read(None, "bin".to_string(), ENDPOINT);
    assert_eq!(stage, Stage::Finished);
    assert_eq!(action, Action::Finish(Outcome::Failed(Failure::Io)));
}

#[test]
fn unreadable_clipboard_ends_the_run() {
    let (run, action) = start().step(Event::CaptureFailed);
    assert_eq!(action, Action::Finish(Outcome::Failed(Failure::Clipboard)));
    assert!(run.is_finished());
    let waiting = PipelineRun {
        endpoint: ENDPOINT.to_string(),
        stage: Stage::AwaitingReply { kind: UploadKind::Link },
    };
    let (run, action) = waiting.clone().step(Event::CaptureFailed);
    assert_eq!(action, Action::Ignore);
    assert_eq!(run, waiting);
}

#[test]
fn failed_clipboard_write_is_reported() {
    let (stage, action) = on_written(UploadKind::Text, "https://share.example/x".to_string(), false);
    assert_eq!(stage, Stage::Finished);
    assert_eq!(action, Action::Finish(Outcome::Failed(Failure::Clipboard)));
}

#[test]
fn events_out_of_turn_are_ignored() {
    let (run, action) = start().step(Event::Written(true));
    assert_eq!(action, Action::Ignore);
    assert_eq!(run, start());
    let (run, action) = run.step(received(200, "{\"url\":\"/a\"}"));
    assert_eq!(action, Action::Ignore);
    assert_eq!(run, start());
    let (run, action) = run.step(Event::FileRead(Some(vec![1])));
    assert_eq!(action, Action::Ignore);
    assert_eq!(run, start());

    let waiting = PipelineRun {
        endpoint: ENDPOINT.to_string(),
        stage: Stage::AwaitingReply { kind: UploadKind::Link },
    };
    let (run, action) = waiting.clone().step(Event::Captured(ClipboardSnapshot::empty()));
    assert_eq!(action, Action::Ignore);
    assert_eq!(run, waiting);
}

#[test]
fn run_keeps_the_endpoint_it_started_with() {
    let snapshot = ClipboardSnapshot::from_text("https://example.com/".to_string());
    let (run, _) = PipelineRun::start("http://first".to_string()).step(Event::Captured(snapshot));
    let (run, action) = run.step(received(200, "{\"url\":\"/z\"}"));
    assert_eq!(action, Action::WriteClipboard("http://first/z".to_string()));
    assert_eq!(run.endpoint, "http://first");
}

#[test]
fn success_is_announced_per_kind() {
    assert_eq!(NOTIFICATION_TITLE, "NanoUpload");
    assert_eq!(
        success_message(UploadKind::Image),
        "Image uploaded successfully, the link has been copied to your clipboard."
    );
    assert_eq!(
        success_message(UploadKind::File),
        "File uploaded successfully, the link has been copied to your clipboard."
    );
    assert_eq!(
        success_message(UploadKind::Link),
        "Shortlink created successfully, the link has been copied to your clipboard."
    );
    assert_eq!(
        success_message(UploadKind::Text),
        "Text uploaded successfully, the link has been copied to your clipboard."
    );
}

#[test]
fn image_is_sent_whatever_text_accompanies_it() {
    let snapshot = ClipboardSnapshot {
        image: Some(RawImage { width: 1, height: 1, bytes: vec![5, 6, 7, 8] }),
        text: Some("https://example.com/page".to_string()),
    };
    let (run, action) = PipelineRun::start("https://nano.rayhanadev.com".to_string())
        .step(Event::Captured(snapshot));
    assert_eq!(run.stage, Stage::AwaitingReply { kind: UploadKind::Image });
    match action {
        Action::Send { url, request } => {
            assert_eq!(url, "https://nano.rayhanadev.com/upload");
            assert_eq!(request.kind.type_code(), "i");
            assert_eq!(request.extension, Some("png".to_string()));
            assert_eq!(request.json_body(), None);
            match request.payload {
                Payload::Bytes(file) => {
                    assert_eq!(&file[..8], &[137, 80, 78, 71, 13, 10, 26, 10]);
                    assert_eq!(decode(&file), vec![5, 6, 7, 8]);
                }
                other => panic!("unexpected payload {:?}", other),
            }
        }
        other => panic!("unexpected action {:?}", other),
    }
}

#[test]
fn image_without_pixels_is_refused_by_the_encoder() {
    let snapshot = ClipboardSnapshot::from_image(RawImage { width: 0, height: 4, bytes: vec![] });
    let (run, action) = start().step(Event::Captured(snapshot));
    assert_eq!(
        action,
        Action::Finish(Outcome::Failed(Failure::Encoding(EncodeError::Rejected)))
    );
    assert!(run.is_finished());
}
