use live_server::error::ErrorKind;
use live_server::files::{
    chunk_buffer, disposition, file_handler, first_with_prefix, make_head, next_chunk,
    prefix_fallback, FileOutcome, StreamStep, CHUNK_SIZE,
};
use live_server::path::{ServePath, ServeRoot};
use live_server::reply::{error_message, Disposition, FileHead, Reply};
use live_server::router::{handler, Route};

fn at(request: &str) -> ServePath {
    ServeRoot::new("/srv/www").unwrap().resolve(request).unwrap()
}

fn names(list: &[&str]) -> Vec<String> {
    list.iter().map(|s| s.to_string()).collect()
}

#[test]
fn query_download_asks_for_an_attachment() {
    let head = make_head(&at("a.txt"), "download", Some(12));
    assert_eq!(head.disposition, Disposition::Attachment);
    let head = make_head(&at("a.txt"), "", Some(12));
    assert_eq!(head.disposition, Disposition::Inline);
}

#[test]
fn query_must_be_download_exactly() {
    assert_eq!(disposition("download"), Disposition::Attachment);
    assert_eq!(disposition(""), Disposition::Inline);
    assert_eq!(disposition("Download"), Disposition::Inline);
    assert_eq!(disposition("download=1"), Disposition::Inline);
    assert_eq!(disposition("x&download"), Disposition::Inline);
    assert_eq!(disposition("downloa"), Disposition::Inline);
}

#[test]
fn head_of_a_file_response() {
    assert_eq!(
        make_head(&at("docs/a.txt"), "", Some(12)),
        FileHead {
            content_type: "text/plain; charset=utf-8".to_string(),
            disposition: Disposition::Inline,
            file_name: Some("a.txt".to_string()),
            content_length: Some(12),
        }
    );
    assert_eq!(
        make_head(&at("photo.png"), "download", None),
        FileHead {
            content_type: "image/png".to_string(),
            disposition: Disposition::Attachment,
            file_name: Some("photo.png".to_string()),
            content_length: None,
        }
    );
    assert_eq!(
        make_head(&ServePath::root(), "", Some(0)),
        FileHead {
            content_type: "application/octet-stream".to_string(),
            disposition: Disposition::Inline,
            file_name: None,
            content_length: Some(0),
        }
    );
}

#[test]
fn same_request_gives_the_same_head() {
    let first = file_handler(&at("docs/a.txt"), "", Ok(Some(2048)));
    let second = file_handler(&at("docs/a.txt"), "", Ok(Some(2048)));
    assert_eq!(first, second);
    match first {
        FileOutcome::Serve(head) => assert_eq!(head.content_length, Some(2048)),
        other => panic!("{:?}", other),
    }
}

#[test]
fn open_file_is_served() {
    assert_eq!(
        file_handler(&at("index.html"), "", Ok(Some(5))),
        FileOutcome::Serve(FileHead {
            content_type: "text/html; charset=utf-8".to_string(),
            disposition: Disposition::Inline,
            file_name: Some("index.html".to_string()),
            content_length: Some(5),
        })
    );
}

#[test]
fn missing_file_starts_a_search_beside_it() {
    assert_eq!(
        file_handler(&at("docs/report"), "", Err(ErrorKind::NotFound)),
        FileOutcome::Search { dir: at("docs"), wanted: "report".to_string() }
    );
    assert_eq!(
        file_handler(&at("report"), "download", Err(ErrorKind::NotFound)),
        FileOutcome::Search { dir: ServePath::root(), wanted: "report".to_string() }
    );
    assert_eq!(
        file_handler(&ServePath::root(), "", Err(ErrorKind::NotFound)),
        FileOutcome::Fail(ErrorKind::NotFound)
    );
}

#[test]
fn other_failures_are_passed_on() {
    assert_eq!(
        file_handler(&at("a.txt"), "", Err(ErrorKind::PermissionDenied)),
        FileOutcome::Fail(ErrorKind::PermissionDenied)
    );
    assert_eq!(
        file_handler(&at("a.txt"), "", Err(ErrorKind::Unknown)),
        FileOutcome::Fail(ErrorKind::Unknown)
    );
}

#[test]
fn missing_report_is_redirected_to_report_pdf() {
    let reply = prefix_fallback(&ServePath::root(), "report", &names(&["report.PDF"]));
    assert_eq!(reply, Ok(Reply::Redirect { location: "/report.PDF".to_string() }));
    assert_eq!(reply.unwrap().status(), 301);
}

#[test]
fn fallback_ignores_case_on_both_sides() {
    let dir = at("docs");
    assert_eq!(
        prefix_fallback(&dir, "REPORT", &names(&["notes.txt", "report.pdf"])),
        Ok(Reply::Redirect { location: "/docs/report.pdf".to_string() })
    );
    assert_eq!(
        prefix_fallback(&dir, "R\u{c9}SUM\u{c9}", &names(&["r\u{e9}sum\u{e9}.txt"])),
        Ok(Reply::Redirect { location: "/docs/r\u{e9}sum\u{e9}.txt".to_string() })
    );
}

#[test]
fn fallback_takes_the_first_match() {
    let found = names(&["zebra", "Readme.md", "readme.txt", "read"]);
    assert_eq!(
        prefix_fallback(&ServePath::root(), "readme", &found),
        Ok(Reply::Redirect { location: "/Readme.md".to_string() })
    );
    assert_eq!(
        prefix_fallback(&ServePath::root(), "", &found),
        Ok(Reply::Redirect { location: "/zebra".to_string() })
    );
}

#[test]
fn search_finds_the_first_text_with_the_prefix() {
    let candidates = names(&["zebra", "readme.md", "readme.txt", "read"]);
    assert_eq!(first_with_prefix("readme", &candidates), Some(1));
    assert_eq!(first_with_prefix("read", &candidates), Some(1));
    assert_eq!(first_with_prefix("readme.t", &candidates), Some(2));
    assert_eq!(first_with_prefix("", &candidates), Some(0));
    assert_eq!(first_with_prefix("Readme", &candidates), None);
    assert_eq!(first_with_prefix("readme.txt.bak", &candidates), None);
    assert_eq!(first_with_prefix("", &Vec::new()), None);
}

#[test]
fn fallback_without_a_match_is_not_found() {
    assert_eq!(
        prefix_fallback(&ServePath::root(), "report", &names(&["repor", "xreport.pdf"])),
        Err(ErrorKind::NotFound)
    );
    assert_eq!(prefix_fallback(&ServePath::root(), "report", &Vec::new()), Err(ErrorKind::NotFound));
}

#[test]
fn chunks_are_cut_from_the_buffer() {
    let buffer = chunk_buffer();
    assert_eq!(buffer.len(), CHUNK_SIZE);
    assert_eq!(CHUNK_SIZE, 1024);
    assert!(buffer.iter().all(|b| *b == 0));
    assert_eq!(next_chunk(vec![1, 2, 3, 4], Ok(3)), StreamStep::Chunk(vec![1, 2, 3]));
    assert_eq!(next_chunk(vec![1, 2, 3, 4], Ok(4)), StreamStep::Chunk(vec![1, 2, 3, 4]));
    assert_eq!(next_chunk(vec![1, 2, 3, 4], Ok(9)), StreamStep::Chunk(vec![1, 2, 3, 4]));
    assert_eq!(next_chunk(vec![1, 2, 3, 4], Ok(0)), StreamStep::End);
    assert_eq!(
        next_chunk(vec![1, 2, 3, 4], Err(ErrorKind::Interrupted)),
        StreamStep::Failed(ErrorKind::Interrupted)
    );
}

#[test]
fn chunks_of_a_body_give_the_body_back() {
    let body: Vec<u8> = (0..2500u32).map(|i| (i % 251) as u8).collect();
    let mut sent: Vec<u8> = Vec::new();
    let mut offset = 0;
    let mut steps = 0;
    loop {
        let mut buffer = chunk_buffer();
        let n = (body.len() - offset).min(buffer.len());
        buffer[..n].copy_from_slice(&body[offset..offset + n]);
        offset += n;
        match next_chunk(buffer, Ok(n)) {
            StreamStep::Chunk(bytes) => {
                assert!(bytes.len() <= CHUNK_SIZE);
                sent.extend(bytes);
            }
            StreamStep::End => break,
            StreamStep::Failed(kind) => panic!("{:?}", kind),
        }
        steps += 1;
    }
    assert_eq!(steps, 3);
    assert_eq!(sent, body);
}

#[test]
fn router_sends_directories_to_the_lister() {
    assert_eq!(handler(at("docs"), true), Route::Directory(at("docs")));
    assert_eq!(handler(at("docs"), false), Route::File(at("docs")));
    assert_eq!(handler(ServePath::root(), true), Route::Directory(ServePath::root()));
}

#[test]
fn router_refuses_what_lies_outside() {
    let root = ServeRoot::new("/srv/www").unwrap();
    assert_eq!(root.resolve("../../etc/passwd"), Err(ErrorKind::PermissionDenied));
    assert_eq!(root.resolve("/etc/passwd"), Err(ErrorKind::PermissionDenied));
    assert_eq!(root.resolve("a/b").map(|p| p.to_url()), Ok("/a/b".to_string()));
    let reply = error_message(ErrorKind::PermissionDenied, None);
    assert_eq!(reply.status(), 403);
    assert_eq!(reply, Reply::Plain { status: 403, body: "Permission Denied".to_string() });
}

#[test]
fn error_replies_carry_the_page_or_the_label() {
    assert_eq!(
        error_message(ErrorKind::NotFound, Some("<p>Not Found</p>".to_string())),
        Reply::Html { status: 404, body: "<p>Not Found</p>".to_string() }
    );
    assert_eq!(
        error_message(ErrorKind::NotFound, None),
        Reply::Plain { status: 404, body: "Not Found".to_string() }
    );
}

#[test]
fn replies_name_their_status_and_content_type() {
    let page = Reply::Html { status: 200, body: String::new() };
    assert_eq!(page.status(), 200);
    assert_eq!(page.content_type(), Some("text/html"));
    let line = Reply::Plain { status: 500, body: String::new() };
    assert_eq!(line.status(), 500);
    assert_eq!(line.content_type(), None);
    let moved = Reply::Redirect { location: "/a".to_string() };
    assert_eq!(moved.status(), 301);
    assert_eq!(moved.content_type(), None);
}

#[test]
fn error_kinds_have_their_status_and_label() {
    let table = [
        (ErrorKind::NotFound, "Not Found", 404),
        (ErrorKind::PermissionDenied, "Permission Denied", 403),
        (ErrorKind::ConnectionRefused, "Connection Refused", 502),
        (ErrorKind::ConnectionReset, "Connection Reset", 503),
        (ErrorKind::ConnectionAborted, "Connection Aborted", 503),
        (ErrorKind::NotConnected, "Not Connected", 503),
        (ErrorKind::AddrInUse, "Address In Use", 409),
        (ErrorKind::AddrNotAvailable, "Address Not Available", 404),
        (ErrorKind::BrokenPipe, "Broken Pipe", 500),
        (ErrorKind::AlreadyExists, "Already Exists", 409),
        (ErrorKind::WouldBlock, "Operation Would Block", 403),
        (ErrorKind::InvalidInput, "Invalid Input", 400),
        (ErrorKind::InvalidData, "Invalid Data", 422),
        (ErrorKind::TimedOut, "Timed Out", 504),
        (ErrorKind::WriteZero, "Write Zero", 500),
        (ErrorKind::Interrupted, "Operation Interrupted", 500),
        (ErrorKind::Unsupported, "Unsupported", 501),
        (ErrorKind::UnexpectedEof, "Unexpected EOF", 500),
        (ErrorKind::OutOfMemory, "Out Of Memory", 500),
        (ErrorKind::Other, "Other Error", 500),
        (ErrorKind::Unknown, "Unknown Error", 500),
    ];
    for (kind, label, status) in table {
        assert_eq!(kind.label(), label);
        assert_eq!(kind.status(), status);
        assert_eq!(error_message(kind, None), Reply::Plain { status, body: label.to_string() });
    }
}
