use kiro_notebook::engine::{correlate_step, run_correlation, AcpError, CallStep, Engine};
use kiro_notebook::frame::{decode_frame, Frame};
use kiro_notebook::requests::cancel_request;

fn frames_of(lines: &[&str]) -> Vec<Frame> {
    let mut v = Vec::new();
    for l in lines {
        v.push(decode_frame(l));
    }
    v
}

#[test]
fn decode_response_frame() {
    let f = decode_frame("{\"id\":3,\"result\":{\"sessionId\":\"abc\"}}");
    assert_eq!(f.response_id, Some(3));
    assert!(f.error.is_none());
    assert_eq!(f.result.as_deref(), Some("{\"sessionId\":\"abc\"}"));
    assert!(f.update.is_none());
}

#[test]
fn decode_noise_frames() {
    let f = decode_frame("this is not json");
    assert_eq!(f.response_id, None);
    assert!(f.error.is_none() && f.result.is_none() && f.update.is_none());

    let f = decode_frame("{\"method\":\"log\",\"params\":{}}");
    assert_eq!(f.response_id, None);
    assert!(f.update.is_none());

    let f = decode_frame("{\"id\":\"abc\"}");
    assert_eq!(f.response_id, None);
}

#[test]
fn correlation_is_strictly_by_id() {
    let frames = frames_of(&[
        "garbage line",
        "{\"method\":\"session/update\",\"params\":{\"update\":{\"sessionUpdate\":\"agent_message_chunk\",\"content\":{\"text\":\"x\"}}}}",
        "{\"id\":7,\"result\":\"other\"}",
        "{\"id\":5,\"result\":\"mine\"}",
    ]);
    let out = run_correlation(5, &frames);
    match out {
        Some(Ok(res)) => assert_eq!(res, "\"mine\""),
        _ => panic!("call did not resolve to the id-5 result"),
    }
    assert!(run_correlation(9, &frames).is_none());
}

#[test]
fn pending_until_matching_id() {
    let noise = decode_frame("{\"id\":4,\"result\":1}");
    assert!(matches!(correlate_step(5, &noise), CallStep::Pending));
    let hit = decode_frame("{\"id\":5}");
    match correlate_step(5, &hit) {
        CallStep::Resolved(Ok(res)) => assert_eq!(res, "null"),
        _ => panic!("matching id must resolve, with the null result"),
    }
}

#[test]
fn error_resolves_as_protocol_error() {
    let f = decode_frame("{\"id\":0,\"error\":{\"code\":5}}");
    match correlate_step(0, &f) {
        CallStep::Resolved(Err(AcpError::Protocol { message })) => {
            assert_eq!(message, "ACP error: {\"code\":5}");
        },
        _ => panic!("an error payload must resolve as a protocol error"),
    }
}

#[test]
fn request_ids_strictly_increase() {
    let mut e = Engine::new();
    let (i0, _) = e.initialize_request();
    let (i1, _) = e.new_session_request("/tmp/ws");
    let (i2, _) = e.prompt_request("s1", "hi");
    assert_eq!((i0, i1, i2), (0, 1, 2));
    assert!(i0 < i1 && i1 < i2);
}

#[test]
fn initialize_request_line_exact() {
    let mut e = Engine::new();
    let (_, line) = e.initialize_request();
    assert_eq!(
        line,
        "{\"id\":0,\"jsonrpc\":\"2.0\",\"method\":\"initialize\",\"params\":{\"clientCapabilities\":{},\"clientInfo\":{\"name\":\"kiro-notebook\",\"version\":\"0.1.0\"},\"protocolVersion\":1}}"
    );
}

#[test]
fn prompt_request_escapes_text() {
    let mut e = Engine::new();
    let (_, line) = e.prompt_request("s\"1", "say \"hi\"\nplease\t");
    let v: serde_json::Value = serde_json::from_str(&line).expect("request line must be JSON");
    assert_eq!(v.pointer("/method").and_then(|m| m.as_str()), Some("session/prompt"));
    assert_eq!(
        v.pointer("/params/prompt/0/text").and_then(|t| t.as_str()),
        Some("say \"hi\"\nplease\t")
    );
    assert_eq!(v.pointer("/params/sessionId").and_then(|s| s.as_str()), Some("s\"1"));
}

#[test]
fn load_and_set_model_request_lines() {
    let mut e = Engine::new();
    let (_, load) = e.load_session_request("sid-1", "/ws");
    assert_eq!(
        load,
        "{\"id\":0,\"jsonrpc\":\"2.0\",\"method\":\"session/load\",\"params\":{\"cwd\":\"/ws\",\"mcpServers\":[],\"sessionId\":\"sid-1\"}}"
    );
    let (_, sm) = e.set_model_request("sid-1", "model-a");
    assert_eq!(
        sm,
        "{\"id\":1,\"jsonrpc\":\"2.0\",\"method\":\"session/set_model\",\"params\":{\"modelId\":\"model-a\",\"sessionId\":\"sid-1\"}}"
    );
}

#[test]
fn new_session_result_is_accepted() {
    let mut e = Engine::new();
    let sid = e.accept_new_session("{\"sessionId\":\"s42\"}").expect("sessionId present");
    assert_eq!(sid, "s42");
    assert_eq!(e.session_id.as_deref(), Some("s42"));
    match e.accept_new_session("{}") {
        Err(AcpError::Protocol { message }) => assert_eq!(message, "No sessionId in response"),
        _ => panic!("a result without sessionId must be a protocol error"),
    }
}

#[test]
fn control_characters_are_escaped() {
    let mut e = Engine::new();
    let (_, line) = e.prompt_request("s1", "a\u{1}b\u{1f}c");
    let v: serde_json::Value = serde_json::from_str(&line).expect("request line must be JSON");
    assert_eq!(
        v.pointer("/params/prompt/0/text").and_then(|t| t.as_str()),
        Some("a\u{1}b\u{1f}c")
    );
    assert!(line.contains("a\\u0001b\\u001fc"));
}

#[test]
fn decimal_rendering_is_exact() {
    assert_eq!(kiro_notebook::text::u64_to_string(0), "0");
    assert_eq!(kiro_notebook::text::u64_to_string(90210), "90210");
    assert_eq!(kiro_notebook::text::u64_to_string(u64::MAX), "18446744073709551615");
}

#[test]
fn error_messages_surface_their_text() {
    let e = AcpError::Protocol { message: "ACP error: x".to_string() };
    assert_eq!(e.message(), "ACP error: x");
    assert_eq!(AcpError::StreamClosed.message(), "ACP process closed");
    let e = AcpError::Spawn { message: "no executable".to_string() };
    assert_eq!(e.message(), "no executable");
}

#[test]
fn cancel_request_line_exact() {
    assert_eq!(
        cancel_request("sid-9"),
        "{\"id\":99999,\"jsonrpc\":\"2.0\",\"method\":\"session/cancel\",\"params\":{\"sessionId\":\"sid-9\"}}"
    );
}
