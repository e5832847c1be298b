use unai::sse::{is_done_marker, parse_sse_line, SseFramer, SseStep};

#[test]
fn test_parse_sse_line() {
    assert_eq!(parse_sse_line("data: hello"), Some("hello"));
    assert_eq!(
        parse_sse_line("data: {\"key\": \"value\"}"),
        Some("{\"key\": \"value\"}")
    );
    assert_eq!(parse_sse_line("data:   spaces  "), Some("spaces"));
    assert_eq!(parse_sse_line("invalid"), None);
    assert_eq!(parse_sse_line(""), None);
}

#[test]
fn test_is_done_marker() {
    assert!(is_done_marker("[DONE]"));
    assert!(!is_done_marker(""));
    assert!(!is_done_marker("data"));
    assert!(!is_done_marker("{\"key\": \"value\"}"));
}

#[test]
fn parse_sse_line_needs_the_space_after_the_colon() {
    assert_eq!(parse_sse_line("data:hello"), None);
    assert_eq!(parse_sse_line("data: "), Some(""));
    assert_eq!(parse_sse_line(" data: x"), None);
    assert_eq!(parse_sse_line("data: \u{3000}x\u{00a0}"), Some("x"));
}

#[test]
fn framer_hands_out_events_line_by_line() {
    let mut framer = SseFramer::new();
    assert_eq!(framer.next(), SseStep::NeedMore);
    framer.push("data: one\n\ndata: tw");
    assert_eq!(framer.next(), SseStep::Event("one".to_string()));
    assert_eq!(framer.next(), SseStep::NeedMore);
    framer.push("o\r\nevent: ignored\ndata: three\n");
    assert_eq!(framer.next(), SseStep::Event("two".to_string()));
    assert_eq!(framer.next(), SseStep::Event("three".to_string()));
    assert_eq!(framer.next(), SseStep::NeedMore);
}

#[test]
fn framer_stops_at_the_done_marker() {
    let mut framer = SseFramer::new();
    framer.push("data: one\ndata: [DONE]\ndata: late\n");
    assert_eq!(framer.next(), SseStep::Event("one".to_string()));
    assert_eq!(framer.next(), SseStep::Finished);
    assert_eq!(framer.next(), SseStep::Finished);
    framer.push("data: later\n");
    assert_eq!(framer.next(), SseStep::Finished);
}

#[test]
fn framer_hands_out_the_incomplete_last_line_at_the_end() {
    let mut framer = SseFramer::new();
    framer.push("data: one\ndata: last");
    assert_eq!(framer.next(), SseStep::Event("one".to_string()));
    assert_eq!(framer.next(), SseStep::NeedMore);
    framer.end();
    assert_eq!(framer.next(), SseStep::Event("last".to_string()));
    assert_eq!(framer.next(), SseStep::Finished);
}

#[test]
fn framer_drops_a_last_line_that_is_no_event() {
    let mut framer = SseFramer::new();
    framer.push("garbage");
    framer.end();
    assert_eq!(framer.next(), SseStep::Finished);
    let mut other = SseFramer::new();
    other.push("data: [DONE]");
    other.end();
    assert_eq!(other.next(), SseStep::Finished);
}
