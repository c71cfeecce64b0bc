use admin_client::frame::{encode_frame, MAX_FRAME_LEN};
use admin_client::protocol::{LogLevel, Response};
use admin_client::session::{render_output, run_responses, AdminError, AdminSession, Effect, Outcome, Phase, Step};

fn json(text: &str) -> serde_json::Value {
    serde_json::from_str(text).unwrap()
}

fn log(level: LogLevel, msg: &str) -> Response {
    Response::Log { level, msg: msg.to_string(), ts: "2024-01-01T00:00:00Z".to_string() }
}

fn log_effect(level: LogLevel, msg: &str) -> Effect {
    Effect::Log { level, msg: msg.to_string(), ts: "2024-01-01T00:00:00Z".to_string() }
}

fn started() -> AdminSession {
    let mut s = AdminSession::new();
    s.start(br#"{"Ping":null}"#).unwrap();
    s
}

#[test]
fn success_alone_has_no_effects() {
    let o = run_responses(vec![Response::Success]);
    assert_eq!(o, Outcome { effects: vec![], consumed: 1, result: Ok(()) });
}

#[test]
fn logs_then_success_emit_in_order() {
    let o = run_responses(vec![log(LogLevel::Info, "a"), log(LogLevel::Warn, "b"), Response::Success]);
    assert_eq!(o.effects, vec![log_effect(LogLevel::Info, "a"), log_effect(LogLevel::Warn, "b")]);
    assert_eq!(o.consumed, 3);
    assert_eq!(o.result, Ok(()));
}

#[test]
fn data_then_error_stops_reading() {
    let o = run_responses(vec![
        Response::Data(json(r#"{"x":1}"#)),
        Response::Error { msg: "boom".to_string() },
        Response::Success,
        log(LogLevel::Info, "never"),
    ]);
    assert_eq!(o.effects, vec![Effect::Output(json(r#"{"x":1}"#))]);
    assert_eq!(o.consumed, 2);
    assert_eq!(o.result, Err(AdminError::Remote { msg: "boom".to_string() }));
}

#[test]
fn empty_stream_is_no_response() {
    let o = run_responses(vec![]);
    assert_eq!(o, Outcome { effects: vec![], consumed: 0, result: Err(AdminError::NoResponse) });
}

#[test]
fn stream_without_terminal_is_no_response() {
    let o = run_responses(vec![log(LogLevel::Debug, "x"), Response::Data(json("[1,[2],{}]"))]);
    assert_eq!(o.effects.len(), 2);
    assert_eq!(o.consumed, 2);
    assert_eq!(o.result, Err(AdminError::NoResponse));
}

#[test]
fn every_level_passes_through() {
    let levels = [LogLevel::Trace, LogLevel::Debug, LogLevel::Info, LogLevel::Warn, LogLevel::Error];
    let mut rs: Vec<Response> = levels.iter().map(|l| log(*l, "")).collect();
    rs.push(Response::Success);
    let o = run_responses(rs);
    let expected: Vec<Effect> = levels.iter().map(|l| log_effect(*l, "")).collect();
    assert_eq!(o.effects, expected);
    assert_eq!(o.result, Ok(()));
}

#[test]
fn empty_error_message_is_kept() {
    let o = run_responses(vec![Response::Error { msg: String::new() }]);
    assert_eq!(o.result, Err(AdminError::Remote { msg: String::new() }));
}

#[test]
fn start_frames_command() {
    let mut s = AdminSession::new();
    assert_eq!(s.phase(), Phase::Idle);
    let f = s.start(b"cmd").unwrap();
    assert_eq!(f, encode_frame(b"cmd").unwrap());
    assert_eq!(s.phase(), Phase::Awaiting);
}

#[test]
fn start_refuses_oversized_command() {
    let mut s = AdminSession::new();
    let big = vec![b' '; MAX_FRAME_LEN + 1];
    assert_eq!(s.start(&big), Err(AdminError::FrameTooLarge));
    assert_eq!(s.phase(), Phase::Finished);
}

#[test]
fn session_reads_frames_then_terminal() {
    let mut s = started();
    let mut bytes = encode_frame(b"one").unwrap();
    bytes.extend_from_slice(&encode_frame(b"two").unwrap());
    s.receive(&bytes);
    assert_eq!(s.next_frame(), Ok(Some(b"one".to_vec())));
    assert_eq!(s.on_response(log(LogLevel::Info, "a")), Step::Emit(log_effect(LogLevel::Info, "a")));
    assert_eq!(s.phase(), Phase::Awaiting);
    assert_eq!(s.next_frame(), Ok(Some(b"two".to_vec())));
    assert_eq!(s.on_response(Response::Success), Step::Done(Ok(())));
    assert_eq!(s.phase(), Phase::Finished);
}

#[test]
fn session_rejects_oversized_frame() {
    let mut s = started();
    s.receive(&((MAX_FRAME_LEN as u32) + 1).to_be_bytes());
    s.receive(b"{}");
    assert_eq!(s.next_frame(), Err(AdminError::FrameTooLarge));
    assert_eq!(s.phase(), Phase::Finished);
}

#[test]
fn close_with_nothing_pending_is_no_response() {
    let mut s = started();
    assert_eq!(s.next_frame(), Ok(None));
    assert_eq!(s.on_closed(), Step::Done(Err(AdminError::NoResponse)));
    assert_eq!(s.phase(), Phase::Finished);
}

#[test]
fn close_inside_a_frame_is_truncated() {
    let mut s = started();
    s.receive(&[0, 0, 0, 9, b'x']);
    assert_eq!(s.next_frame(), Ok(None));
    assert_eq!(s.on_closed(), Step::Done(Err(AdminError::Truncated)));
}

#[test]
fn outside_failure_ends_command() {
    let mut s = started();
    let err = || AdminError::Decode { msg: "expected value".to_string() };
    assert_eq!(s.on_failure(err()), Step::Done(Err(err())));
    assert_eq!(s.phase(), Phase::Finished);
}

#[test]
fn nested_data_is_carried_unchanged() {
    let v = json(r#"{"rows":[[1,"a"],[null,true]],"meta":{"n":2}}"#);
    let mut s = started();
    assert_eq!(s.on_response(Response::Data(v.clone())), Step::Emit(Effect::Output(v)));
}

#[test]
fn log_levels_are_ordered_by_severity() {
    assert!(LogLevel::Trace < LogLevel::Debug);
    assert!(LogLevel::Debug < LogLevel::Info);
    assert!(LogLevel::Info < LogLevel::Warn);
    assert!(LogLevel::Warn < LogLevel::Error);
}

#[test]
fn data_renders_as_indented_json() {
    assert_eq!(render_output(&json(r#"{"x":1}"#)), Ok("{\n  \"x\": 1\n}".to_string()));
}

#[test]
fn nested_data_renders_every_level() {
    let text = render_output(&json(r#"{"a":[1,{"b":[]}]}"#)).unwrap();
    assert_eq!(text, "{\n  \"a\": [\n    1,\n    {\n      \"b\": []\n    }\n  ]\n}");
}
