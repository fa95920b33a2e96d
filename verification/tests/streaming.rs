use kiro_notebook::engine::AcpError;
use kiro_notebook::frame::decode_frame;
use kiro_notebook::frame::Frame;
use kiro_notebook::requests::cancel_request;
use kiro_notebook::stream::{run_stream, stream_begin, stream_step, StreamEvent, StreamStep};

fn chunk_line(text: &str) -> String {
    format!(
        "{{\"method\":\"session/update\",\"params\":{{\"update\":{{\"sessionUpdate\":\"agent_message_chunk\",\"content\":{{\"text\":{}}}}}}}}}",
        serde_json::to_string(text).unwrap()
    )
}

fn frames_of(lines: &[&str]) -> Vec<Frame> {
    let mut v = Vec::new();
    for l in lines {
        v.push(decode_frame(l));
    }
    v
}

#[test]
fn hello_world_streams_in_order() {
    let l1 = chunk_line("Hello ");
    let l2 = chunk_line("world");
    let frames = frames_of(&[l1.as_str(), l2.as_str(), "{\"id\":1,\"result\":null}"]);
    let (events, out) = run_stream(1, &frames);
    assert_eq!(out.ok().as_deref(), Some("Hello world"));
    assert_eq!(events.len(), 3);
    match &events[0] {
        StreamEvent::Chunk { text } => assert_eq!(text, "Hello "),
        _ => panic!("first event must be the first chunk"),
    }
    match &events[1] {
        StreamEvent::Chunk { text } => assert_eq!(text, "world"),
        _ => panic!("second event must be the second chunk"),
    }
    assert!(matches!(events[2], StreamEvent::Done));
}

#[test]
fn close_with_no_chunks_is_terminal_error() {
    let frames = frames_of(&["noise", "{\"id\":9,\"result\":null}"]);
    let (events, out) = run_stream(1, &frames);
    assert!(events.is_empty());
    assert!(matches!(out, Err(AcpError::StreamClosed)));
}

#[test]
fn close_after_chunks_returns_partial_text() {
    let l1 = chunk_line("partial ");
    let l2 = chunk_line("answer");
    let frames = frames_of(&[l1.as_str(), l2.as_str()]);
    let (events, out) = run_stream(1, &frames);
    assert_eq!(out.ok().as_deref(), Some("partial answer"));
    assert_eq!(events.len(), 2);
    assert!(events.iter().all(|e| matches!(e, StreamEvent::Chunk { .. })));
}

#[test]
fn tool_call_defaults_and_updates() {
    let frames = frames_of(&[
        "{\"method\":\"session/update\",\"params\":{\"update\":{\"sessionUpdate\":\"tool_call\"}}}",
        "{\"method\":\"session/update\",\"params\":{\"update\":{\"sessionUpdate\":\"tool_call\",\"title\":\"Searching\",\"status\":\"running\"}}}",
        "{\"method\":\"session/update\",\"params\":{\"update\":{\"sessionUpdate\":\"tool_call_update\",\"status\":\"done\"}}}",
        "{\"method\":\"session/update\",\"params\":{\"update\":{\"sessionUpdate\":\"tool_call_update\"}}}",
    ]);
    let (events, _) = run_stream(1, &frames);
    assert_eq!(events.len(), 4);
    match &events[0] {
        StreamEvent::ToolCall { title, status } => {
            assert_eq!(title, "Working");
            assert_eq!(status, "pending");
        },
        _ => panic!("a tool_call update must be forwarded as a tool-call event"),
    }
    match &events[1] {
        StreamEvent::ToolCall { title, status } => {
            assert_eq!(title, "Searching");
            assert_eq!(status, "running");
        },
        _ => panic!("a tool_call update must carry its own title and status"),
    }
    match &events[2] {
        StreamEvent::ToolUpdate { status } => assert_eq!(status, "done"),
        _ => panic!("a tool_call_update must be forwarded as a status event"),
    }
    match &events[3] {
        StreamEvent::ToolUpdate { status } => assert_eq!(status, ""),
        _ => panic!("a tool_call_update without status defaults to empty"),
    }
}

#[test]
fn unknown_updates_and_chunkless_chunks_are_ignored() {
    let frames = frames_of(&[
        "{\"method\":\"session/update\",\"params\":{\"update\":{\"sessionUpdate\":\"something_else\"}}}",
        "{\"method\":\"session/update\",\"params\":{\"update\":{\"sessionUpdate\":\"agent_message_chunk\"}}}",
        "{\"method\":\"session/update\",\"params\":{}}",
    ]);
    let (events, out) = run_stream(1, &frames);
    assert!(events.is_empty());
    assert!(matches!(out, Err(AcpError::StreamClosed)));
}

#[test]
fn matching_id_with_error_resolves_as_protocol_error() {
    let l1 = chunk_line("kept");
    let frames = frames_of(&[l1.as_str(), "{\"id\":1,\"error\":{\"code\":1}}"]);
    let (events, out) = run_stream(1, &frames);
    match out {
        Err(AcpError::Protocol { message }) => assert_eq!(message, "ACP error: {\"code\":1}"),
        _ => panic!("an error payload on the matching frame must resolve as a protocol error"),
    }
    assert!(matches!(events.last(), Some(StreamEvent::Done)));
}

#[test]
fn cancel_builds_while_stream_is_mid_flight() {
    let mut st = stream_begin(2);
    let f = decode_frame(chunk_line("working on it").as_str());
    assert!(matches!(stream_step(&mut st, &f), StreamStep::Emit(_)));
    // The cancellation line depends on no engine or stream state, so it can
    // be produced and written while the call above is still pending.
    let line = cancel_request("sid");
    assert_eq!(
        line,
        "{\"id\":99999,\"jsonrpc\":\"2.0\",\"method\":\"session/cancel\",\"params\":{\"sessionId\":\"sid\"}}"
    );
    let done = decode_frame("{\"id\":2,\"result\":null}");
    match stream_step(&mut st, &done) {
        StreamStep::Finished { outcome } => {
            assert_eq!(outcome.ok().as_deref(), Some("working on it"))
        },
        _ => panic!("the matching id must finish the stream"),
    }
}
