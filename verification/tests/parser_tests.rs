use server_assistant::parser::{collect_events, parse, EventKind, ParseError};

fn line(s: &str) -> Vec<u8> {
    s.as_bytes().to_vec()
}

#[test]
fn parses_request_started_line() {
    let ev = parse(&line(
        "[2024-01-15 10:30:00.123] [INFO] llama-api-server in src/main.rs:42: endpoint: /v1/chat/completions",
    ))
    .expect("line matches the grammar");
    // 2024-01-15 00:00 is day 885302 of the encoding (19737 days after the
    // Unix epoch, which is day 865565); 10:30:00.123 adds 37800123 ms.
    assert_eq!(ev.timestamp_millis, 76_490_130_600_123);
    match ev.kind {
        EventKind::RequestStarted { endpoint } => {
            assert_eq!(endpoint, b"/v1/chat/completions".to_vec());
        }
        _ => panic!("expected a request start"),
    }
}

#[test]
fn parses_response_completed_line() {
    let ev = parse(&line(
        "[2024-01-15 10:30:01.000] [INFO] llama-api-server in src/main.rs:99: response_status: 200",
    ))
    .expect("line matches the grammar");
    match ev.kind {
        EventKind::ResponseCompleted { status_code } => {
            assert_eq!(status_code, b"200".to_vec());
        }
        _ => panic!("expected a response completion"),
    }
}

#[test]
fn status_is_last_whitespace_delimited_token() {
    let ev = parse(&line(
        "[2024-01-15 10:30:01.000] [WARN] svc in a.rs:1: response_status: something 500",
    ))
    .unwrap();
    match ev.kind {
        EventKind::ResponseCompleted { status_code } => {
            assert_eq!(status_code, b"500".to_vec());
        }
        _ => panic!("expected a response completion"),
    }
}

#[test]
fn unmarked_message_is_other() {
    let ev = parse(&line(
        "[2024-01-15 10:30:01.000] [INFO] svc in a.rs:1: model loaded in 3 seconds",
    ))
    .unwrap();
    assert!(matches!(ev.kind, EventKind::Other));
}

#[test]
fn marker_requires_whitespace_after_colon() {
    let ev = parse(&line(
        "[2024-01-15 10:30:01.000] [INFO] svc in a.rs:1: endpoint:/v1/embeddings",
    ))
    .unwrap();
    assert!(matches!(ev.kind, EventKind::Other));
}

#[test]
fn marker_requires_a_token_after_it() {
    let ev = parse(&line("[2024-01-15 10:30:01.000] [INFO] svc in a.rs:1: endpoint:   "))
        .unwrap();
    assert!(matches!(ev.kind, EventKind::Other));
}

#[test]
fn empty_message_is_other() {
    let ev = parse(&line("[2024-01-15 10:30:01.000] [INFO] svc in a.rs:1: ")).unwrap();
    assert!(matches!(ev.kind, EventKind::Other));
}

#[test]
fn level_may_contain_spaces_and_file_may_contain_dots() {
    let ev = parse(&line(
        "[2024-01-15 10:30:01.000] [L V L] svc in my file.rs:7: endpoint: /x",
    ))
    .unwrap();
    match ev.kind {
        EventKind::RequestStarted { endpoint } => assert_eq!(endpoint, b"/x".to_vec()),
        _ => panic!("expected a request start"),
    }
}

#[test]
fn service_field_cannot_contain_whitespace() {
    // The first whitespace ends the service; what follows must be " in ".
    assert_eq!(
        parse(&line("[2024-01-15 10:30:01.000] [INFO] a b in c.rs:7: hello")),
        Err(ParseError::MalformedLine)
    );
}

#[test]
fn rejects_line_without_leading_bracket() {
    assert_eq!(
        parse(&line("2024-01-15 10:30:01.000 [INFO] svc in a.rs:1: hello")),
        Err(ParseError::MalformedLine)
    );
}

#[test]
fn rejects_empty_line() {
    assert_eq!(parse(&line("")), Err(ParseError::MalformedLine));
}

#[test]
fn rejects_line_without_service_field() {
    assert_eq!(
        parse(&line("[2024-01-15 10:30:01.000] [INFO] hello")),
        Err(ParseError::MalformedLine)
    );
}

#[test]
fn rejects_line_without_line_number() {
    assert_eq!(
        parse(&line("[2024-01-15 10:30:01.000] [INFO] svc in a.rs:x: hello")),
        Err(ParseError::MalformedLine)
    );
}

#[test]
fn rejects_unparsable_timestamp_without_panicking() {
    assert_eq!(
        parse(&line("[not a timestamp] [INFO] svc in a.rs:1: hello")),
        Err(ParseError::InvalidTimestamp)
    );
}

#[test]
fn rejects_timestamp_denoting_no_real_day() {
    assert_eq!(
        parse(&line("[2023-02-29 10:30:01.000] [INFO] svc in a.rs:1: hello")),
        Err(ParseError::InvalidTimestamp)
    );
}

#[test]
fn rejects_timestamp_without_millisecond_field() {
    assert_eq!(
        parse(&line("[2024-01-15 10:30:01] [INFO] svc in a.rs:1: hello")),
        Err(ParseError::InvalidTimestamp)
    );
}

#[test]
fn collect_events_drops_invalid_lines() {
    let lines: Vec<Vec<u8>> = vec![
        line("garbage that matches nothing"),
        line("[2024-01-15 10:30:00.000] [INFO] svc in a.rs:1: endpoint: /v1/models"),
        line("[bad stamp] [INFO] svc in a.rs:1: response_status: 200"),
        line("[2024-01-15 10:30:01.000] [INFO] svc in a.rs:2: response_status: 200"),
    ];
    let evs = collect_events(&lines);
    assert_eq!(evs.len(), 2);
    assert!(matches!(evs[0].kind, EventKind::RequestStarted { .. }));
    assert!(matches!(evs[1].kind, EventKind::ResponseCompleted { .. }));
}

#[test]
fn collect_events_strips_trailing_carriage_return() {
    let lines: Vec<Vec<u8>> = vec![line(
        "[2024-01-15 10:30:01.000] [INFO] svc in a.rs:1: response_status: 200\r",
    )];
    let evs = collect_events(&lines);
    assert_eq!(evs.len(), 1);
    match &evs[0].kind {
        EventKind::ResponseCompleted { status_code } => {
            assert_eq!(status_code, &b"200".to_vec());
        }
        _ => panic!("expected a response completion"),
    }
}
