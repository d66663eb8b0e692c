//! The three calls to the remote service that keeps the progress state.
//!
//! Each command has two halves. The first describes the call to make, as a
//! [`RemoteCall`]. Whoever owns the connection makes the call and reports what
//! happened as a [`Reply`]. The second half reads the reply.

use crate::json::{
    error_message, error_text, flag_at, flag_member, member, member_at, number, object,
    members_of, parse_bytes, parsed_bytes, shape_of, unsigned_at, unsigned_member, Shape,
};
use vstd::prelude::*;
use vstd::string::*;

verus! {

/// The progress that the remote service keeps. The song states are the
/// service's own business and pass through unread.
#[derive(Debug, Clone)]
pub struct PBState {
    pub song_states: serde_json::Value,
    pub current_flow_step: u32,
}

/// The HTTP method of a call.
#[derive(Debug, Clone, Copy, PartialEq, Eq)]
pub enum Method {
    Get,
    Post,
}

/// One call to the remote service, ready to be made.
#[derive(Debug, Clone)]
pub struct RemoteCall {
    pub method: Method,
    /// The full address.
    pub url: String,
    /// The `Content-Type` header, where the call sets one.
    pub content_type: Option<String>,
    /// The JSON document to send as the body, where the call has one.
    pub body: Option<serde_json::Value>,
}

/// What became of a call.
#[derive(Debug, Clone)]
pub enum Reply {
    /// The call could not be made, or no response arrived; the transport's
    /// message says why.
    SendFailed(String),
    /// A response arrived and its body could not be read to the end; the
    /// transport's message says why.
    BodyFailed(String),
    /// The bytes of the response body.
    Body(Vec<u8>),
}

/// Whether `body` is the document that an update sends: an object with the
/// two members `songStates` and `currentFlowStep` and no other, the first
/// holding the song states as they were given, the second the step.
pub open spec fn is_update_body(
    body: serde_json::Value,
    song_states: serde_json::Value,
    current_flow_step: u32,
) -> bool {
    &&& shape_of(body) matches Shape::Object(members)
    &&& members.dom() =~= set!["songStates"@, "currentFlowStep"@]
    &&& members["songStates"@] == song_states
    &&& shape_of(members["currentFlowStep"@]) == Shape::Unsigned(current_flow_step as u64)
}

/// The call that replaces the remote state: a POST of the update document to
/// the update address, announced as JSON. [`read_success`] reads its reply.
pub fn update_state(song_states: serde_json::Value, current_flow_step: u32) -> (call: RemoteCall)
    ensures
        call.method == Method::Post,
        call.url@ == "https://api.pbui.net/api/update"@,
        call.content_type matches Some(t) && t@ == "application/json"@,
        call.body matches Some(body) && is_update_body(body, song_states, current_flow_step),
{
    let mut entries: Vec<(String, serde_json::Value)> = Vec::new();
    entries.push(("songStates".to_owned(), song_states));
    entries.push(("currentFlowStep".to_owned(), number(current_flow_step)));
    proof {
        reveal_strlit("songStates");
        reveal_strlit("currentFlowStep");
        assert("songStates"@.len() != "currentFlowStep"@.len());
        let first = entries@.drop_last();
        assert(first.drop_last() =~= Seq::empty());
        assert(members_of(first) == Map::<Seq<char>, serde_json::Value>::empty().insert(
            "songStates"@,
            song_states,
        )) by {
            reveal_with_fuel(members_of, 2);
        }
    }
    let body = object(entries);
    RemoteCall {
        method: Method::Post,
        url: "https://api.pbui.net/api/update".to_owned(),
        content_type: Some("application/json".to_owned()),
        body: Some(body),
    }
}

/// The call that resets the remote state: a POST to the reset address,
/// announced as JSON, with no body. [`read_success`] reads its reply.
pub fn reset_state() -> (call: RemoteCall)
    ensures
        call.method == Method::Post,
        call.url@ == "https://api.pbui.net/api/reset"@,
        call.content_type matches Some(t) && t@ == "application/json"@,
        call.body is None,
{
    RemoteCall {
        method: Method::Post,
        url: "https://api.pbui.net/api/reset".to_owned(),
        content_type: Some("application/json".to_owned()),
        body: None,
    }
}

/// The call that fetches the remote state: a GET of the state address, with no
/// header of its own and no body. [`read_state`] reads its reply.
pub fn get_current_state() -> (call: RemoteCall)
    ensures
        call.method == Method::Get,
        call.url@ == "https://api.pbui.net/api/state"@,
        call.content_type is None,
        call.body is None,
{
    RemoteCall {
        method: Method::Get,
        url: "https://api.pbui.net/api/state".to_owned(),
        content_type: None,
        body: None,
    }
}

/// The progress state that a JSON value stands for: an object whose member
/// `song_states` is any value at all, `null` too, and whose member
/// `current_flow_step` is a whole number from 0 to 2^32 - 1. Other members are
/// passed over. A value holds each key once: where the text of a reply wrote a
/// key twice, the value has what was written last.
pub open spec fn state_of(v: serde_json::Value) -> Option<PBState> {
    match (member_at(v, "song_states"@), unsigned_at(v, "current_flow_step"@)) {
        (Some(song_states), Some(n)) => if n <= u32::MAX {
            Some(PBState { song_states, current_flow_step: n as u32 })
        } else {
            None
        },
        _ => None,
    }
}

/// What is said of a body that is sound JSON and holds no boolean `success`.
pub open spec fn no_success_flag() -> Seq<char> {
    "the document has no boolean `success`"@
}

/// What is said of a body that is sound JSON and still no progress state.
pub open spec fn not_a_state() -> Seq<char> {
    "the document does not have the shape of a progress state"@
}

/// The JSON document that a reply carries, or the message of the failure: a
/// request error where no response arrived, a parse error where the body
/// could not be read or is not JSON.
pub open spec fn document_of(reply: Reply) -> Result<serde_json::Value, Seq<char>> {
    match reply {
        Reply::SendFailed(reason) => Err("Request error: "@ + reason@),
        Reply::BodyFailed(reason) => Err("JSON parse error: "@ + reason@),
        Reply::Body(bytes) => match parsed_bytes(bytes@) {
            Err(e) => Err("JSON parse error: "@ + error_message(e)),
            Ok(v) => Ok(v),
        },
    }
}

/// What the reply to an update or a reset yields: the `success` flag of the
/// document, or the message of the failure. Other members of the document are
/// passed over. A value holds each key once: where the text of a reply wrote
/// `success` twice, the flag is what was written last.
pub open spec fn success_of(reply: Reply) -> Result<bool, Seq<char>> {
    match document_of(reply) {
        Err(message) => Err(message),
        Ok(v) => match flag_at(v, "success"@) {
            Some(flag) => Ok(flag),
            None => Err("JSON parse error: "@ + no_success_flag()),
        },
    }
}

/// What the reply to a fetch yields: the progress state that the document
/// stands for, or the message of the failure.
pub open spec fn fetched_state_of(reply: Reply) -> Result<PBState, Seq<char>> {
    match document_of(reply) {
        Err(message) => Err(message),
        Ok(v) => match state_of(v) {
            Some(state) => Ok(state),
            None => Err("JSON parse error: "@ + not_a_state()),
        },
    }
}

/// Reads a JSON value as a progress state.
pub fn state_from(v: &serde_json::Value) -> (r: Option<PBState>)
    ensures
        r == state_of(*v),
{
    let song_states = match member(v, "song_states") {
        Some(x) => x.clone(),
        None => return None,
    };
    let n = match unsigned_member(v, "current_flow_step") {
        Some(n) => n,
        None => return None,
    };
    if n > 0xffff_ffff {
        return None;
    }
    Some(PBState { song_states, current_flow_step: n as u32 })
}

/// Takes the JSON document out of a reply.
pub fn read_document(reply: Reply) -> (r: Result<serde_json::Value, String>)
    ensures
        match r {
            Ok(v) => document_of(reply) == Ok::<serde_json::Value, Seq<char>>(v),
            Err(message) => document_of(reply) == Err::<serde_json::Value, Seq<char>>(message@),
        },
{
    match reply {
        Reply::SendFailed(reason) => {
            let mut message = "Request error: ".to_owned();
            message.append(reason.as_str());
            Err(message)
        },
        Reply::BodyFailed(reason) => {
            let mut message = "JSON parse error: ".to_owned();
            message.append(reason.as_str());
            Err(message)
        },
        Reply::Body(bytes) => match parse_bytes(bytes.as_slice()) {
            Err(e) => {
                let mut message = "JSON parse error: ".to_owned();
                message.append(error_text(&e).as_str());
                Err(message)
            },
            Ok(v) => Ok(v),
        },
    }
}

/// Reads the reply to an update or a reset: the `success` flag that the
/// service sent. A call that failed in transit, and a body that is no JSON
/// object with a boolean `success`, give an error and never a flag.
pub fn read_success(reply: Reply) -> (r: Result<bool, String>)
    ensures
        match r {
            Ok(flag) => success_of(reply) == Ok::<bool, Seq<char>>(flag),
            Err(message) => success_of(reply) == Err::<bool, Seq<char>>(message@),
        },
        reply is SendFailed || reply is BodyFailed ==> r is Err,
{
    let v = match read_document(reply) {
        Ok(v) => v,
        Err(message) => return Err(message),
    };
    match flag_member(&v, "success") {
        Some(flag) => Ok(flag),
        None => {
            let mut message = "JSON parse error: ".to_owned();
            message.append("the document has no boolean `success`");
            Err(message)
        },
    }
}

/// Reads the reply to a fetch: the progress state that the service sent. A
/// call that failed in transit, and a body that is no JSON object of that
/// shape, give an error and never a state.
pub fn read_state(reply: Reply) -> (r: Result<PBState, String>)
    ensures
        match r {
            Ok(state) => fetched_state_of(reply) == Ok::<PBState, Seq<char>>(state),
            Err(message) => fetched_state_of(reply) == Err::<PBState, Seq<char>>(message@),
        },
        reply is SendFailed || reply is BodyFailed ==> r is Err,
{
    let v = match read_document(reply) {
        Ok(v) => v,
        Err(message) => return Err(message),
    };
    match state_from(&v) {
        Some(state) => Ok(state),
        None => {
            let mut message = "JSON parse error: ".to_owned();
            message.append("the document does not have the shape of a progress state");
            Err(message)
        },
    }
}

/// A call that failed in transit is an error to every command, with the
/// transport's own message in it: no reply of that kind yields a flag or a
/// state.
pub proof fn transport_failure_is_an_error(reason: String)
    ensures
        success_of(Reply::SendFailed(reason)) == Err::<bool, Seq<char>>(
            "Request error: "@ + reason@,
        ),
        fetched_state_of(Reply::SendFailed(reason)) == Err::<PBState, Seq<char>>(
            "Request error: "@ + reason@,
        ),
        success_of(Reply::BodyFailed(reason)) == Err::<bool, Seq<char>>(
            "JSON parse error: "@ + reason@,
        ),
        fetched_state_of(Reply::BodyFailed(reason)) == Err::<PBState, Seq<char>>(
            "JSON parse error: "@ + reason@,
        ),
{
}

/// The update document has its two members under the names that the service
/// reads, and none under the names that a [`PBState`] gives them.
pub proof fn update_body_uses_the_wire_names(
    body: serde_json::Value,
    song_states: serde_json::Value,
    current_flow_step: u32,
)
    requires
        is_update_body(body, song_states, current_flow_step),
    ensures
        member_at(body, "songStates"@) == Some(song_states),
        unsigned_at(body, "currentFlowStep"@) == Some(current_flow_step as u64),
        member_at(body, "song_states"@) is None,
        member_at(body, "current_flow_step"@) is None,
{
    reveal_strlit("songStates");
    reveal_strlit("currentFlowStep");
    reveal_strlit("song_states");
    reveal_strlit("current_flow_step");
    assert("song_states"@[4] == '_');
    assert("current_flow_step"@[7] == '_');
}

} // verus!
