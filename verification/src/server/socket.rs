//! The decisions of the WebSocket endpoints: whose tasks a stream follows,
//! when it starts, and when it stops.
use vstd::prelude::*;

use crate::server::router::{
    check_client_key_pattern, is_key_field, lemma_user_pattern_accepted, user_pattern,
};
use crate::text::is_user_tasks_pattern;

verus! {

/// The first message of a task stream.
pub const STREAM_GREETING: &'static str = "{\"status\": \"PING\"}";

/// The first message of the echo endpoint.
pub const ECHO_GREETING: &'static str = "Hello from the server!";

/// The kinds of WebSocket message that the endpoints tell apart.
#[derive(Clone, Copy, Debug, PartialEq, Eq, Structural)]
pub enum MessageKind {
    Text,
    Close,
    Other,
}

/// The pattern that a stream follows, given the text of the client's first
/// message (`None` when that message is not a text): the text itself when it
/// is an accepted `user_id:*` pattern; otherwise there is no stream and the
/// connection ends.
pub fn stream_pattern(first_text: Option<&str>) -> (r: Option<String>)
    ensures
        r is Some <==> (first_text matches Some(t) && is_user_tasks_pattern(t@)),
        r matches Some(p) ==> first_text matches Some(t) && p@ == t@,
{
    match first_text {
        Some(t) => if check_client_key_pattern(t) {
            Some(t.to_owned())
        } else {
            None
        },
        None => None,
    }
}

/// A stream that the client asks for with `user_id:*` follows exactly that
/// pattern, for any user without ':'.
pub proof fn lemma_stream_follows_requested_user(u: Seq<char>)
    ensures
        is_user_tasks_pattern(user_pattern(u)) <==> is_key_field(u),
{
    lemma_user_pattern_accepted(u);
}

/// What happens while a stream runs.
#[derive(Clone, Copy, Debug, PartialEq, Eq, Structural)]
pub enum StreamEvent {
    /// The one-second interval has elapsed.
    Tick,
    /// The tasks were read (`true`) or the read failed (`false`).
    Fetched(bool),
    /// The tasks were sent (`true`) or the send failed (`false`).
    Sent(bool),
    /// The client sent a message.
    Received(MessageKind),
}

/// What a running stream does next.
#[derive(Clone, Copy, Debug, PartialEq, Eq, Structural)]
pub enum StreamAction {
    /// Read the tasks under the stream's pattern.
    Fetch,
    /// Send the tasks just read.
    Send,
    /// Wait for the next tick or message.
    Wait,
    /// End the stream.
    Stop,
}

/// The next action of a stream after an event.
pub open spec fn stream_reaction(e: StreamEvent) -> StreamAction {
    match e {
        StreamEvent::Tick => StreamAction::Fetch,
        StreamEvent::Fetched(true) => StreamAction::Send,
        StreamEvent::Fetched(false) => StreamAction::Wait,
        StreamEvent::Sent(true) => StreamAction::Wait,
        StreamEvent::Sent(false) => StreamAction::Stop,
        StreamEvent::Received(MessageKind::Close) => StreamAction::Stop,
        StreamEvent::Received(_) => StreamAction::Wait,
    }
}

/// Every tick reads the tasks; a read that fails is let pass and the stream
/// waits for the next tick; tasks read are sent; a failed send or a close
/// from the client ends the stream, and any other message is ignored.
pub fn stream_step(event: StreamEvent) -> (r: StreamAction)
    ensures
        r == stream_reaction(event),
{
    match event {
        StreamEvent::Tick => StreamAction::Fetch,
        StreamEvent::Fetched(ok) => if ok {
            StreamAction::Send
        } else {
            StreamAction::Wait
        },
        StreamEvent::Sent(ok) => if ok {
            StreamAction::Wait
        } else {
            StreamAction::Stop
        },
        StreamEvent::Received(MessageKind::Close) => StreamAction::Stop,
        StreamEvent::Received(_) => StreamAction::Wait,
    }
}

/// A stream ends only on a failed send or a close from the client.
pub proof fn lemma_stream_stops_only_on_close_or_lost_client(e: StreamEvent)
    ensures
        stream_reaction(e) == StreamAction::Stop <==> (e == StreamEvent::Sent(false) || e
            == StreamEvent::Received(MessageKind::Close)),
{
}

/// The echo endpoint's answer to a text message.
pub fn echo_reply(msg: &str) -> (r: String)
    ensures
        r@ == "Echo: "@ + msg@,
{
    String::from_str("Echo: ").concat(msg)
}

/// The echo endpoint answers texts, ignores other messages and ends on a
/// close.
pub fn echo_continues(kind: MessageKind) -> (r: bool)
    ensures
        r == (kind != MessageKind::Close),
{
    match kind {
        MessageKind::Close => false,
        _ => true,
    }
}

} // verus!
