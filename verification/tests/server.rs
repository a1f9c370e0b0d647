use gxib::pipelines::web::server::ws::{resolve_request, ServedFile};
use gxib::pipelines::web::server::ws_actor::{
    answer_frame, heartbeat_action, on_channel_change, CloseInfo, HeartbeatAction, WsAction,
    WsActorMsg, WsFrame,
};
use gxib::pipelines::web::ws_actor::{on_actor_channel_change, ActorMsg};

fn expected_json(hashed_name: &str) -> String {
    format!(
        r#"{{
                    "event":"FileChange",
                    "hashed_name":"{}"
                }}"#,
        hashed_name
    )
}

#[test]
fn messages_as_json() {
    assert_eq!(WsActorMsg::FileChange("index-1".to_string()).to_string(), expected_json("index-1"));
    assert_eq!(WsActorMsg::Empty.to_string(), "{}");
    assert_eq!(ActorMsg::FileChange("index-2".to_string()).to_string(), expected_json("index-2"));
    assert_eq!(ActorMsg::Empty.to_string(), "{}");
}

#[test]
fn channel_changes() {
    let msg = WsActorMsg::FileChange("x".to_string());
    assert_eq!(on_channel_change(false, &msg), (true, false));
    assert_eq!(on_channel_change(true, &msg), (true, true));
    assert_eq!(on_channel_change(true, &WsActorMsg::Empty), (true, false));
    assert_eq!(on_actor_channel_change(false, &ActorMsg::FileChange("x".to_string())), (true, false));
    assert_eq!(on_actor_channel_change(true, &ActorMsg::FileChange("x".to_string())), (true, true));
    assert_eq!(on_actor_channel_change(true, &ActorMsg::Empty), (true, false));
}

#[test]
fn heartbeats() {
    assert_eq!(heartbeat_action(0), HeartbeatAction::Ping);
    assert_eq!(heartbeat_action(10_000_000_000), HeartbeatAction::Ping);
    assert_eq!(heartbeat_action(10_000_000_001), HeartbeatAction::Disconnect);
}

#[test]
fn frames() {
    assert_eq!(answer_frame(WsFrame::Ping(vec![1, 2])), (true, WsAction::Pong(vec![1, 2])));
    assert_eq!(answer_frame(WsFrame::Pong), (true, WsAction::Nothing));
    assert_eq!(answer_frame(WsFrame::Text("hi".to_string())), (false, WsAction::Text("hi".to_string())));
    assert_eq!(answer_frame(WsFrame::Binary(vec![3])), (false, WsAction::Binary(vec![3])));
    let reason = Some(CloseInfo { code: 1000, description: None });
    assert_eq!(answer_frame(WsFrame::Close(reason.clone())), (false, WsAction::CloseAndStop(reason)));
    assert_eq!(answer_frame(WsFrame::Other), (false, WsAction::Stop));
}

#[test]
fn request_routing() {
    assert_eq!(resolve_request(None, false, false), ServedFile::IndexHtml);
    assert_eq!(resolve_request(Some("html"), true, true), ServedFile::IndexHtml);
    assert_eq!(resolve_request(Some("css"), true, true), ServedFile::OutputFile);
    assert_eq!(resolve_request(Some("css"), false, true), ServedFile::PublicFile);
    assert_eq!(resolve_request(Some("css"), false, false), ServedFile::NotFound);
    assert_eq!(resolve_request(Some(""), false, false), ServedFile::NotFound);
}
