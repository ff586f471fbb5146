use bgm_controller::command::{inject_command, InjectRequest, TabTarget};
use bgm_controller::frame::{decode_frame, ByteOrder};
use bgm_controller::hub::{AppState, Outbound};
use bgm_controller::message::{decode_message, encode_message, MessageKind};
use bgm_controller::store::Script;

#[test]
fn inject_reaches_peer_and_result_reaches_history() {
    let mut app = AppState::new();
    let writer = app.bus.subscribe();
    let req = InjectRequest { tab_id: TabTarget::Id(5), script: "alert(1)".to_string() };
    assert!(app.publish(inject_command(&req)));
    let frame = match app.next_frame(writer, ByteOrder::Little) {
        Outbound::Frame(f) => f,
        other => panic!("expected a frame, got {:?}", other),
    };
    let (body, _) = decode_frame(&frame, ByteOrder::Little).unwrap();
    let sent: serde_json::Value = serde_json::from_slice(&body).unwrap();
    let want: serde_json::Value =
        serde_json::from_str("{\"type\":\"inject\",\"tabId\":5,\"script\":\"alert(1)\"}").unwrap();
    assert_eq!(sent, want);
    assert!(matches!(app.next_frame(writer, ByteOrder::Little), Outbound::Idle));

    let reply = "{\"type\":\"injection_result\", \"tabId\":5, \"ok\":true}";
    let peer = encode_message(reply, ByteOrder::Little).unwrap();
    let (m, _) = decode_message(&peer, ByteOrder::Little).unwrap();
    assert_eq!(m.kind, MessageKind::InjectionResult);
    app.ingest(m.kind, None, m.text);
    assert_eq!(app.store.results(), vec![reply.to_string()]);
}

#[test]
fn unknown_peer_message_is_dropped() {
    let mut app = AppState::new();
    let peer = encode_message("{\"type\":\"unknown_xyz\"}", ByteOrder::Big).unwrap();
    let (m, _) = decode_message(&peer, ByteOrder::Big).unwrap();
    assert_eq!(m.kind, MessageKind::Other);
    app.ingest(m.kind, None, m.text);
    assert!(app.store.results().is_empty());
    assert!(app.store.tabs().is_empty());
    assert!(app.store.scripts().is_empty());
}

#[test]
fn connect_sends_known_scripts_first() {
    let mut app = AppState::new();
    let s = Script { id: "a".to_string(), content: "1".to_string(), path: "a.js".to_string() };
    app.sync_script(s);
    let (id, snapshot) = app.connect().unwrap();
    assert_eq!(
        snapshot,
        vec!["{\"type\":\"sync_script\",\"id\":\"a\",\"content\":\"1\",\"path\":\"a.js\"}".to_string()]
    );
    assert!(matches!(app.next_frame(id, ByteOrder::Little), Outbound::Idle));
    app.sync_script(Script { id: "a".to_string(), content: "2".to_string(), path: "a.js".to_string() });
    assert_eq!(app.store.scripts().len(), 1);
    match app.next_frame(id, ByteOrder::Little) {
        Outbound::Frame(f) => assert!(f.ends_with(b"\"content\":\"2\",\"path\":\"a.js\"}")),
        other => panic!("expected a frame, got {:?}", other),
    }
}
