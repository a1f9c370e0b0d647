//! Messages from the web pipeline to the page's web-socket.
use vstd::prelude::*;
use vstd::string::*;

use crate::pipelines::web::server::ws_actor::{EMPTY_EVENT, file_change_json, file_change_text};

verus! {

/// Msg sent to WS Actor
#[derive(Debug, Clone, PartialEq, Eq)]
pub enum ActorMsg {
    FileChange(String),
    Empty,
}

impl ActorMsg {
    pub open spec fn text(&self) -> Seq<char> {
        match self {
            ActorMsg::FileChange(name) => file_change_text(name@),
            ActorMsg::Empty => EMPTY_EVENT@,
        }
    }

    /// The JSON text sent to the page.
    pub fn to_string(&self) -> (res: String)
        ensures
            res@ == self.text(),
    {
        match self {
            ActorMsg::FileChange(hashed_name) => file_change_json(hashed_name),
            ActorMsg::Empty => String::from_str(EMPTY_EVENT),
        }
    }
}

/// What the actor does on a change of the build channel: the first value is
/// skipped, and after it every message but `Empty` is sent to the page.
/// Returns the new "seen" flag and whether to send.
pub fn on_actor_channel_change(seen_first: bool, msg: &ActorMsg) -> (res: (bool, bool))
    ensures
        res.0,
        res.1 == (seen_first && !(*msg is Empty)),
{
    if seen_first {
        match msg {
            ActorMsg::Empty => (true, false),
            _ => (true, true),
        }
    } else {
        (true, false)
    }
}

} // verus!
