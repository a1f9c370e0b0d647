//! Web Socket Actor: the messages it forwards to the page, and its
//! decisions on channel changes, heartbeats and incoming frames.
use vstd::prelude::*;
use vstd::string::*;

verus! {

/// How often heartbeat pings are sent, in seconds.
pub const HEARTBEAT_INTERVAL_SECS: u64 = 5;

/// How long before lack of client response causes a timeout, in seconds.
pub const CLIENT_TIMEOUT_SECS: u64 = 10;

/// Text of a file-change event before the hashed name.
pub const FILE_CHANGE_HEAD: &'static str = "{\n                    \"event\":\"FileChange\",\n                    \"hashed_name\":\"";

/// Text of a file-change event after the hashed name.
pub const FILE_CHANGE_TAIL: &'static str = "\"\n                }";

/// Text of a message that carries no event.
pub const EMPTY_EVENT: &'static str = "{}";

/// The JSON text sent to the page for a file change.
pub open spec fn file_change_text(hashed_name: Seq<char>) -> Seq<char> {
    FILE_CHANGE_HEAD@ + hashed_name + FILE_CHANGE_TAIL@
}

/// The JSON text of a file-change event.
pub fn file_change_json(hashed_name: &String) -> (res: String)
    ensures
        res@ == file_change_text(hashed_name@),
{
    let mut s = String::from_str(FILE_CHANGE_HEAD);
    s.append(hashed_name.as_str());
    s.append(FILE_CHANGE_TAIL);
    s
}

/// Msg sent to WS Actor
#[derive(Debug, Clone, PartialEq, Eq)]
pub enum WsActorMsg {
    FileChange(String),
    Empty,
}

impl WsActorMsg {
    pub open spec fn text(&self) -> Seq<char> {
        match self {
            WsActorMsg::FileChange(name) => file_change_text(name@),
            WsActorMsg::Empty => EMPTY_EVENT@,
        }
    }

    /// The JSON text sent to the page.
    pub fn to_string(&self) -> (res: String)
        ensures
            res@ == self.text(),
    {
        match self {
            WsActorMsg::FileChange(hashed_name) => file_change_json(hashed_name),
            WsActorMsg::Empty => String::from_str(EMPTY_EVENT),
        }
    }
}

/// What the actor does on a change of the build channel, given whether it
/// has already seen the channel's first value: the first value is skipped,
/// and after it every message but `Empty` is sent to the page. Returns the new
/// "seen" flag and whether to send.
pub fn on_channel_change(seen_first: bool, msg: &WsActorMsg) -> (res: (bool, bool))
    ensures
        res.0,
        res.1 == (seen_first && !(*msg is Empty)),
{
    if seen_first {
        match msg {
            WsActorMsg::Empty => (true, false),
            _ => (true, true),
        }
    } else {
        (true, false)
    }
}

/// What the heartbeat timer does.
#[derive(Debug, Clone, Copy, PartialEq, Eq)]
pub enum HeartbeatAction {
    /// Ping the client.
    Ping,
    /// The client has not answered for too long: stop the actor.
    Disconnect,
}

/// The heartbeat decision, from the time since the client last answered.
pub fn heartbeat_action(elapsed_nanos: u128) -> (res: HeartbeatAction)
    ensures
        res == (if elapsed_nanos > CLIENT_TIMEOUT_SECS * 1_000_000_000 {
            HeartbeatAction::Disconnect
        } else {
            HeartbeatAction::Ping
        }),
{
    if elapsed_nanos > (CLIENT_TIMEOUT_SECS as u128) * 1_000_000_000 {
        HeartbeatAction::Disconnect
    } else {
        HeartbeatAction::Ping
    }
}

/// Why a web-socket is being closed.
#[derive(Debug, Clone, PartialEq, Eq)]
pub struct CloseInfo {
    pub code: u16,
    pub description: Option<String>,
}

/// A frame received from the client, or a protocol error.
#[derive(Debug, Clone, PartialEq, Eq)]
pub enum WsFrame {
    Ping(Vec<u8>),
    Pong,
    Text(String),
    Binary(Vec<u8>),
    Close(Option<CloseInfo>),
    /// A continuation frame, a no-op, or a protocol error.
    Other,
}

/// What the actor does in answer to a frame.
#[derive(Debug, Clone, PartialEq, Eq)]
pub enum WsAction {
    Pong(Vec<u8>),
    Text(String),
    Binary(Vec<u8>),
    /// Close with the given reason, then stop the actor.
    CloseAndStop(Option<CloseInfo>),
    Stop,
    Nothing,
}

/// The answer to a frame: whether the client counts as alive now, and the
/// action to take. Pings are answered with a pong of the same payload, text
/// and binary frames are echoed, a close is returned and the actor stops,
/// anything else stops the actor.
pub fn answer_frame(frame: WsFrame) -> (res: (bool, WsAction))
    ensures
        res == match frame {
            WsFrame::Ping(p) => (true, WsAction::Pong(p)),
            WsFrame::Pong => (true, WsAction::Nothing),
            WsFrame::Text(t) => (false, WsAction::Text(t)),
            WsFrame::Binary(b) => (false, WsAction::Binary(b)),
            WsFrame::Close(r) => (false, WsAction::CloseAndStop(r)),
            WsFrame::Other => (false, WsAction::Stop),
        },
{
    match frame {
        WsFrame::Ping(p) => (true, WsAction::Pong(p)),
        WsFrame::Pong => (true, WsAction::Nothing),
        WsFrame::Text(t) => (false, WsAction::Text(t)),
        WsFrame::Binary(b) => (false, WsAction::Binary(b)),
        WsFrame::Close(r) => (false, WsAction::CloseAndStop(r)),
        WsFrame::Other => (false, WsAction::Stop),
    }
}

} // verus!
