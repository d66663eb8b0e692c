use pbui::json::{flag_member, list_member, text_member, unsigned_member};
use pbui::requests::{
    get_current_state, read_document, read_state, read_success, reset_state, state_from,
    update_state, Method, Reply,
};
use serde_json::Value;

fn json(text: &str) -> Value {
    serde_json::from_str(text).unwrap()
}

fn body(text: &str) -> Reply {
    Reply::Body(text.as_bytes().to_vec())
}

#[test]
fn update_is_a_post_of_the_wire_document() {
    let states = json(r#"{"h1": {"passed": true, "score": 0.93}, "h2": null}"#);
    let call = update_state(states.clone(), 7);
    assert_eq!(call.method, Method::Post);
    assert_eq!(call.url, "https://api.pbui.net/api/update");
    assert_eq!(call.content_type.as_deref(), Some("application/json"));
    let sent = call.body.unwrap();
    let members = sent.as_object().unwrap();
    assert_eq!(members.len(), 2);
    assert_eq!(members.get("songStates"), Some(&states));
    assert_eq!(members.get("currentFlowStep"), Some(&Value::from(7u32)));
    assert!(members.get("song_states").is_none());
    assert!(members.get("current_flow_step").is_none());
}

#[test]
fn update_document_as_it_goes_over_the_wire() {
    let call = update_state(json(r#"["a", 1]"#), 4294967295);
    let wire = serde_json::to_string(&call.body.unwrap()).unwrap();
    let back: Value = serde_json::from_str(&wire).unwrap();
    assert_eq!(back, json(r#"{"songStates": ["a", 1], "currentFlowStep": 4294967295}"#));
    assert!(wire.contains("\"songStates\":[\"a\",1]"));
    assert!(wire.contains("\"currentFlowStep\":4294967295"));
}

#[test]
fn update_passes_any_song_states_through() {
    for text in ["null", "0", "\"text\"", "[]", "{}", r#"{"songStates": 1}"#] {
        let call = update_state(json(text), 0);
        let sent = call.body.unwrap();
        assert_eq!(sent.get("songStates"), Some(&json(text)));
        assert_eq!(sent.get("currentFlowStep").and_then(Value::as_u64), Some(0));
    }
}

#[test]
fn two_updates_do_not_touch_each_other() {
    let first = update_state(json(r#"{"a": 1}"#), 1);
    let second = update_state(json(r#"{"b": 2}"#), 2);
    let second_done = read_success(body(r#"{"success": false}"#));
    let first_done = read_success(body(r#"{"success": true}"#));
    assert_eq!(first_done, Ok(true));
    assert_eq!(second_done, Ok(false));
    assert_eq!(first.body.unwrap(), json(r#"{"songStates": {"a": 1}, "currentFlowStep": 1}"#));
    assert_eq!(second.body.unwrap(), json(r#"{"songStates": {"b": 2}, "currentFlowStep": 2}"#));
}

#[test]
fn reset_is_a_post_without_a_body() {
    let call = reset_state();
    assert_eq!(call.method, Method::Post);
    assert_eq!(call.url, "https://api.pbui.net/api/reset");
    assert_eq!(call.content_type.as_deref(), Some("application/json"));
    assert!(call.body.is_none());
}

#[test]
fn fetch_is_a_plain_get() {
    let call = get_current_state();
    assert_eq!(call.method, Method::Get);
    assert_eq!(call.url, "https://api.pbui.net/api/state");
    assert!(call.content_type.is_none());
    assert!(call.body.is_none());
}

#[test]
fn reset_reply_gives_the_flag_or_an_error() {
    assert_eq!(read_success(body(r#"{"success": true}"#)), Ok(true));
    assert_eq!(read_success(body(r#"{"success": false}"#)), Ok(false));
    let message = read_success(body("<html>Bad Gateway</html>")).unwrap_err();
    assert!(message.starts_with("JSON parse error: "));
}

#[test]
fn body_that_is_not_json_carries_the_parsers_message() {
    let text = "<html>Bad Gateway</html>";
    let reason = serde_json::from_slice::<Value>(text.as_bytes()).unwrap_err().to_string();
    assert!(!reason.is_empty());
    assert_eq!(read_success(body(text)), Err(format!("JSON parse error: {reason}")));
    assert_eq!(read_state(body(text)).unwrap_err(), format!("JSON parse error: {reason}"));
    assert_eq!(read_document(body(text)).unwrap_err(), format!("JSON parse error: {reason}"));

    let empty = serde_json::from_slice::<Value>(b"").unwrap_err().to_string();
    assert_eq!(read_success(Reply::Body(vec![])), Err(format!("JSON parse error: {empty}")));

    let bytes = vec![b'"', 0xff, b'"'];
    let broken = serde_json::from_slice::<Value>(&bytes).unwrap_err().to_string();
    assert_eq!(read_success(Reply::Body(bytes)), Err(format!("JSON parse error: {broken}")));
}

#[test]
fn success_must_be_a_boolean_member() {
    let refused = Err("JSON parse error: the document has no boolean `success`".to_string());
    assert_eq!(read_success(body("{}")), refused);
    assert_eq!(read_success(body("true")), refused);
    assert_eq!(read_success(body("[true]")), refused);
    assert_eq!(read_success(body(r#"{"success": "true"}"#)), refused);
    assert_eq!(read_success(body(r#"{"success": 1}"#)), refused);
    assert_eq!(read_success(body(r#"{"success": null}"#)), refused);
    assert_eq!(read_success(body(r#"{"Success": true}"#)), refused);
    assert_eq!(read_success(body(r#"{"success": true, "note": "extra"}"#)), Ok(true));
    assert_eq!(read_success(body(" \n{\"success\":false}\n ")), Ok(false));
}

#[test]
fn transport_failure_is_an_error_for_every_command() {
    let refused = || Reply::SendFailed("error sending request: connection refused".to_string());
    let message = "Request error: error sending request: connection refused".to_string();
    assert_eq!(read_success(refused()), Err(message.clone()));
    assert_eq!(read_state(refused()).unwrap_err(), message);
    assert_eq!(read_document(refused()).unwrap_err(), message);
    assert_eq!(read_success(Reply::SendFailed(String::new())), Err("Request error: ".to_string()));
}

#[test]
fn body_that_breaks_off_is_a_parse_error() {
    let cut = || Reply::BodyFailed("connection closed before message completed".to_string());
    let message = "JSON parse error: connection closed before message completed".to_string();
    assert_eq!(read_success(cut()), Err(message.clone()));
    assert_eq!(read_state(cut()).unwrap_err(), message);
}

#[test]
fn fetch_reply_gives_the_state() {
    let text = r#"{"song_states": {"h1": {"done": true, "tries": [1, 2.5, -3]}}, "current_flow_step": 3}"#;
    let state = read_state(body(text)).unwrap();
    assert_eq!(state.song_states, json(r#"{"h1": {"done": true, "tries": [1, 2.5, -3]}}"#));
    assert_eq!(state.current_flow_step, 3);
}

#[test]
fn song_states_may_be_any_value() {
    for text in ["null", "false", "12", "\"s\"", "[]", "[1, [2]]", "{}"] {
        let reply = body(&format!(r#"{{"current_flow_step": 0, "song_states": {text}}}"#));
        let state = read_state(reply).unwrap();
        assert_eq!(state.song_states, json(text));
        assert_eq!(state.current_flow_step, 0);
    }
}

#[test]
fn flow_step_is_a_whole_number_of_32_bits() {
    let with_step = |step: &str| body(&format!(r#"{{"song_states": null, "current_flow_step": {step}}}"#));
    let refused = "JSON parse error: the document does not have the shape of a progress state";
    assert_eq!(read_state(with_step("0")).unwrap().current_flow_step, 0);
    assert_eq!(read_state(with_step("4294967295")).unwrap().current_flow_step, u32::MAX);
    assert_eq!(read_state(with_step("4294967296")).unwrap_err(), refused);
    assert_eq!(read_state(with_step("18446744073709551615")).unwrap_err(), refused);
    assert_eq!(read_state(with_step("18446744073709551616")).unwrap_err(), refused);
    assert_eq!(read_state(with_step("-1")).unwrap_err(), refused);
    assert_eq!(read_state(with_step("1.5")).unwrap_err(), refused);
    assert_eq!(read_state(with_step("1.0")).unwrap_err(), refused);
    assert_eq!(read_state(with_step("1e2")).unwrap_err(), refused);
    assert_eq!(read_state(with_step("\"3\"")).unwrap_err(), refused);
    assert_eq!(read_state(with_step("null")).unwrap_err(), refused);
}

#[test]
fn state_needs_both_members() {
    let refused = "JSON parse error: the document does not have the shape of a progress state";
    assert_eq!(read_state(body(r#"{"current_flow_step": 1}"#)).unwrap_err(), refused);
    assert_eq!(read_state(body(r#"{"song_states": {}}"#)).unwrap_err(), refused);
    assert_eq!(read_state(body(r#"{"songStates": {}, "currentFlowStep": 1}"#)).unwrap_err(), refused);
    assert_eq!(read_state(body(r#"[{}, 1]"#)).unwrap_err(), refused);
    assert_eq!(read_state(body("null")).unwrap_err(), refused);
    let extra = r#"{"song_states": [], "current_flow_step": 9, "updated": "today"}"#;
    assert_eq!(read_state(body(extra)).unwrap().current_flow_step, 9);
}

#[test]
fn state_from_reads_a_value() {
    let state = state_from(&json(r#"{"song_states": [1, 2], "current_flow_step": 5}"#)).unwrap();
    assert_eq!(state.song_states, json("[1, 2]"));
    assert_eq!(state.current_flow_step, 5);
    assert!(state_from(&json(r#"{"song_states": [1, 2]}"#)).is_none());
    assert!(state_from(&json("5")).is_none());
}

#[test]
fn read_document_hands_the_body_over() {
    let text = r#"{"a": [1, {"b": null}], "c": "d"}"#;
    assert_eq!(read_document(body(text)).unwrap(), json(text));
    assert_eq!(read_document(body("17")).unwrap(), json("17"));
}

#[test]
fn members_are_read_by_kind() {
    let value = json(r#"{"t": "text", "l": [1, "two"], "n": 18446744073709551615, "f": true,
        "neg": -4, "real": 2.0, "nil": null}"#);
    assert_eq!(text_member(&value, "t"), Some("text".to_string()));
    assert_eq!(text_member(&value, "l"), None);
    assert_eq!(text_member(&value, "nil"), None);
    assert_eq!(text_member(&value, "missing"), None);
    assert_eq!(list_member(&value, "l"), Some(&vec![json("1"), json("\"two\"")]));
    assert_eq!(list_member(&value, "t"), None);
    assert_eq!(unsigned_member(&value, "n"), Some(u64::MAX));
    assert_eq!(unsigned_member(&value, "neg"), None);
    assert_eq!(unsigned_member(&value, "real"), None);
    assert_eq!(unsigned_member(&value, "t"), None);
    assert_eq!(flag_member(&value, "f"), Some(true));
    assert_eq!(flag_member(&value, "n"), None);
    assert_eq!(flag_member(&value, "missing"), None);
    let list = json(r#"["t", "l"]"#);
    assert_eq!(text_member(&list, "t"), None);
    assert_eq!(text_member(&json("\"t\""), "t"), None);
}
