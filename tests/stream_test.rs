use replicate::framing::EventBuffer;
use replicate::pump::{PumpAction, PumpInput, StreamPump, RECONNECT_DELAY_MS};
use replicate::{InvalidUTF8DataError, SSEEvent};

fn events_of(actions: &[PumpAction]) -> Vec<SSEEvent> {
    actions
        .iter()
        .filter_map(|a| match a {
            PumpAction::Publish(e) => Some(e.clone()),
            _ => None,
        })
        .collect()
}

#[test]
fn decode_output_event() {
    let e = SSEEvent::decode("event: output\nid: 1\ndata: hello").unwrap();
    assert_eq!(e.event_type, "output");
    assert_eq!(e.id, "1");
    assert_eq!(e.data, "hello");
}

#[test]
fn decode_joins_data_lines() {
    let e = SSEEvent::decode("data: a\ndata:b\r\nretry: 5\ndata:   c").unwrap();
    assert_eq!(e.data, "a\nb\nc");
    assert_eq!(e.event_type, "");
    assert_eq!(e.id, "");
}

#[test]
fn decode_ignores_lines_without_colon() {
    let e = SSEEvent::decode("event: logs\nnonsense\nid:7:8").unwrap();
    assert_eq!(e.event_type, "logs");
    assert_eq!(e.id, "7:8");
}

#[test]
fn decode_rejects_non_ascii_data() {
    assert!(matches!(SSEEvent::decode("data: héllo"), Err(InvalidUTF8DataError)));
    assert_eq!(InvalidUTF8DataError.to_string(), "invalid UTF-8 data");
    let e = SSEEvent::decode("event: é\ndata:").unwrap();
    assert_eq!(e.event_type, "é");
}

#[test]
fn feed_whole_event() {
    let mut buf = EventBuffer::new();
    let blocks = buf.feed(b"event: output\nid: 1\ndata: hello\n\n");
    assert_eq!(blocks, vec![b"event: output\nid: 1\ndata: hello".to_vec()]);
}

#[test]
fn feed_split_at_every_offset() {
    let bytes: &[u8] = b"event: output\nid: 1\ndata: hello\n\n";
    for cut in 0..=bytes.len() {
        let mut pump = StreamPump::new(None);
        let mut actions = pump.handle(PumpInput::Chunk(bytes[..cut].to_vec()));
        actions.extend(pump.handle(PumpInput::Chunk(bytes[cut..].to_vec())));
        let events = events_of(&actions);
        assert_eq!(events.len(), 1, "cut at {}", cut);
        assert_eq!(events[0].event_type, "output");
        assert_eq!(events[0].id, "1");
        assert_eq!(events[0].data, "hello");
    }
}

#[test]
fn feed_split_inside_multibyte_character() {
    let bytes = "data: ok\nid: é\n\n".as_bytes();
    let cut = bytes.len() - 3;
    let mut pump = StreamPump::new(None);
    let mut actions = pump.handle(PumpInput::Chunk(bytes[..cut].to_vec()));
    actions.extend(pump.handle(PumpInput::Chunk(bytes[cut..].to_vec())));
    let events = events_of(&actions);
    assert_eq!(events.len(), 1);
    assert_eq!(events[0].id, "é");
}

#[test]
fn pump_stops_after_done() {
    let mut pump = StreamPump::new(None);
    let actions = pump.handle(PumpInput::Chunk(
        b"event: output\ndata: a\n\nevent: done\ndata: {}\n\nevent: output\ndata: b\n\n".to_vec(),
    ));
    assert_eq!(actions.len(), 3);
    assert!(matches!(actions[2], PumpAction::Stop));
    assert!(pump.is_stopped_now());
    assert!(pump.handle(PumpInput::StreamEnded).is_empty());
}

#[test]
fn pump_publishes_decode_errors_and_goes_on() {
    let mut pump = StreamPump::new(None);
    let actions = pump.handle(PumpInput::Chunk("data: ü\n\ndata: x\n\n".as_bytes().to_vec()));
    assert_eq!(actions.len(), 2);
    assert!(matches!(&actions[0], PumpAction::PublishError(m) if m == "invalid UTF-8 data"));
    assert!(matches!(&actions[1], PumpAction::Publish(e) if e.data == "x"));
    assert!(!pump.is_stopped_now());
}

#[test]
fn pump_read_error_reports_once_then_reconnects_after_a_second() {
    let mut pump = StreamPump::new(None);
    assert!(pump.handle(PumpInput::Connected).is_empty());
    let partial = pump.handle(PumpInput::Chunk(b"data: half".to_vec()));
    assert!(partial.is_empty());
    let actions = pump.handle(PumpInput::ReadFailed("reset".to_string()));
    assert_eq!(actions.len(), 3);
    assert!(matches!(&actions[0], PumpAction::PublishError(m) if m == "Error reading stream: reset"));
    assert!(matches!(actions[1], PumpAction::Pause(ms) if ms == 1000));
    assert_eq!(RECONNECT_DELAY_MS, 1000);
    assert!(matches!(actions[2], PumpAction::Reconnect));
    assert!(!pump.is_stopped_now());
    let after = pump.handle(PumpInput::Chunk(b"data: new\n\n".to_vec()));
    let events = events_of(&after);
    assert_eq!(events.len(), 1);
    assert_eq!(events[0].data, "new");
}

#[test]
fn pump_stops_on_failed_connection() {
    let mut pump = StreamPump::new(None);
    let actions = pump.handle(PumpInput::ConnectFailed("refused".to_string()));
    assert!(matches!(&actions[0], PumpAction::PublishError(m) if m == "Failed to send request: refused"));
    assert!(matches!(actions[1], PumpAction::Stop));
    let mut pump = StreamPump::new(None);
    let actions = pump.handle(PumpInput::BadStatus("404 Not Found".to_string()));
    assert!(matches!(&actions[0], PumpAction::PublishError(m) if m == "Received invalid status code: 404 Not Found"));
    assert!(pump.is_stopped_now());
}

#[test]
fn pump_send_failure_and_cancel_stop() {
    let mut pump = StreamPump::new(None);
    let actions = pump.handle(PumpInput::SendFailed("closed".to_string()));
    assert!(matches!(&actions[0], PumpAction::PublishError(m) if m == "Failed to send SSE event: closed"));
    assert!(matches!(actions[1], PumpAction::Stop));
    let mut pump = StreamPump::new(None);
    let actions = pump.handle(PumpInput::Cancelled);
    assert_eq!(actions.len(), 1);
    assert!(pump.is_stopped_now());
}

#[test]
fn pump_reconnects_when_stream_ends() {
    let mut pump = StreamPump::new(None);
    let actions = pump.handle(PumpInput::StreamEnded);
    assert_eq!(actions.len(), 1);
    assert!(matches!(actions[0], PumpAction::Reconnect));
}

#[test]
fn pump_headers_carry_resume_id() {
    let last = SSEEvent::decode("id: 42").unwrap();
    let pump = StreamPump::new(Some(&last));
    let h = pump.request_headers();
    assert_eq!(h.len(), 4);
    assert_eq!(h[0], ("Accept".to_string(), "text/event-stream".to_string()));
    assert_eq!(h[1], ("Cache-Control".to_string(), "no-cache".to_string()));
    assert_eq!(h[2], ("Connection".to_string(), "keep-alive".to_string()));
    assert_eq!(h[3], ("Last-Event-ID".to_string(), "42".to_string()));
    assert_eq!(StreamPump::new(None).request_headers().len(), 3);
}

#[test]
fn event_text_shows_output_data_only() {
    let out = SSEEvent::decode("event: output\ndata: hi").unwrap();
    assert_eq!(out.to_string(), "hi");
    let logs = SSEEvent::decode("event: logs\ndata: hi").unwrap();
    assert_eq!(logs.to_string(), "");
}
