use hutopia::chat::client::{chat_line, connect_packets, received_message, send_msg_packet, ws_address};
use hutopia::chat::config::config_file_path;
use hutopia::chat::messages::{ClientActorMessage, Connect, Disconnect, ServeMessages, StoredMessage};
use hutopia::chat::plugin::{self as chat_plugin, ChatPlugin};
use hutopia::chat::protocol::{ClientBoundPacket, ProtocolMessage, ServerBoundPacket};
use hutopia::chat::server::Chat;
use hutopia::chat::websocket::{WsAction, WsConn};
use hutopia::console::{self, ConsolePlugin};
use hutopia::example;
use hutopia::plugin_server::{auth_request, auth_user, internal_auth_url, parse_auth_answer, plugin_config_path, widget_ws_path};
use hutopia::uuid_protocol::SerializableUuid;

fn serve(id: u128, text: &str) -> ProtocolMessage {
    ProtocolMessage::ClientBound(ClientBoundPacket::ServeMsg(SerializableUuid(id), text.to_string()))
}

#[test]
fn plugin_server_paths() {
    assert_eq!(plugin_config_path("chat"), "./plugins/chat.toml");
    assert_eq!(widget_ws_path("chat"), "/widget/chat/ws");
    assert_eq!(internal_auth_url("alice", "tok"), "http://127.0.0.1:8080/internal/auth/alice/tok");
    assert_eq!(parse_auth_answer("{\"authenticated\":true}"), Some(true));
    assert_eq!(auth_user("alice".into(), Some(true)), Some("alice".to_string()));
    assert_eq!(auth_user("alice".into(), Some(false)), None);
    assert_eq!(auth_user("alice".into(), None), None);
    assert_eq!(config_file_path(), "plugins/chat.toml");
}

#[test]
fn chat_broadcast_reaches_everyone_once() {
    let mut chat = Chat::new();
    chat.connect(Connect { addr: 10, id: 1 });
    chat.connect(Connect { addr: 20, id: 2 });
    let mut out = chat.broadcast(&ClientActorMessage { id: 1, msg: "hi".into() });
    out.sort_by_key(|d| d.to);
    assert_eq!(out.len(), 2);
    assert_eq!((out[0].to, out[0].socket), (1, 10));
    assert_eq!((out[1].to, out[1].socket), (2, 20));
    assert!(out.iter().all(|d| d.packet == serve(1, "hi")));
    chat.disconnect(Disconnect { id: 2 });
    let out = chat.broadcast(&ClientActorMessage { id: 1, msg: "bye".into() });
    assert_eq!(out.len(), 1);
    assert_eq!(out[0].to, 1);
}

#[test]
fn chat_reconnect_keeps_latest_socket() {
    let mut chat = Chat::new();
    chat.connect(Connect { addr: 10, id: 1 });
    chat.connect(Connect { addr: 11, id: 1 });
    let out = chat.broadcast(&ClientActorMessage { id: 1, msg: "x".into() });
    assert_eq!(out.len(), 1);
    assert_eq!(out[0].socket, 11);
}

#[test]
fn chat_serves_stored_messages_in_order() {
    let mut chat = Chat::new();
    chat.connect(Connect { addr: 5, id: 7 });
    let stored = vec![
        StoredMessage { user_id: 1, message_text: "a".into() },
        StoredMessage { user_id: 2, message_text: "b".into() },
    ];
    let out = chat.serve_messages(&ServeMessages { id: 7 }, &stored);
    assert_eq!(out.len(), 2);
    assert_eq!(out[0].packet, serve(1, "a"));
    assert_eq!(out[1].packet, serve(2, "b"));
    assert!(out.iter().all(|d| d.to == 7 && d.socket == 5));
    assert!(chat.serve_messages(&ServeMessages { id: 8 }, &stored).is_empty());
}

#[test]
fn websocket_needs_connect_first() {
    let mut ws = WsConn::new();
    assert!(matches!(ws.handle_binary_msg(send_msg_packet("early".into())), WsAction::Nothing));
    assert!(matches!(
        ws.handle_binary_msg(ProtocolMessage::ServerBound(ServerBoundPacket::QueryMsg)),
        WsAction::Nothing
    ));
    assert!(ws.stopping().is_none());
    let packets = connect_packets(42);
    let mut it = packets.into_iter();
    assert!(matches!(ws.handle_binary_msg(it.next().unwrap()), WsAction::Connect(42)));
    assert_eq!(ws.id, Some(42));
    match ws.handle_binary_msg(it.next().unwrap()) {
        WsAction::Serve(s) => assert_eq!(s.id, 42),
        _ => panic!("expected a query"),
    }
    match ws.handle_binary_msg(send_msg_packet("hello".into())) {
        WsAction::Broadcast(m) => {
            assert_eq!(m.id, 42);
            assert_eq!(m.msg, "hello");
        }
        _ => panic!("expected a broadcast"),
    }
    assert!(matches!(
        ws.handle_binary_msg(ProtocolMessage::ServerBound(ServerBoundPacket::Disconnect)),
        WsAction::Nothing
    ));
    assert!(matches!(ws.handle_binary_msg(serve(1, "x")), WsAction::Nothing));
    assert_eq!(ws.stopping().unwrap().id, 42);
}

#[test]
fn client_packets_and_display() {
    assert_eq!(ws_address("space:8081"), "ws://space:8081/widget_ws/chat");
    let p = connect_packets(5);
    assert_eq!(p[0], ProtocolMessage::ServerBound(ServerBoundPacket::Connect(SerializableUuid(5))));
    assert_eq!(p[1], ProtocolMessage::ServerBound(ServerBoundPacket::QueryMsg));
    assert_eq!(received_message(serve(3, "t")), Some((SerializableUuid(3), "t".to_string())));
    assert_eq!(received_message(send_msg_packet("t".into())), None);
}

#[test]
fn widget_files() {
    assert_eq!(chat_plugin::handle_static_file(None), Vec::<u8>::new());
    assert_eq!(chat_plugin::handle_static_file(Some(vec![1, 2])), vec![1, 2]);
    let f = chat_plugin::serve_widget_file("index.js", Some(b"x".to_vec()));
    assert_eq!(f.content_type, "text/javascript");
    assert_eq!(f.body, b"x".to_vec());
    let f = console::serve_widget_file("unknown.zzzq", None);
    assert_eq!(f.content_type, "application/octet-stream");
    assert!(f.body.is_empty());
    assert_eq!(console::handle_static_file(Some(vec![9])), vec![9]);
    assert!(ChatPlugin.get_plugin_dependencies().is_empty());
    assert!(ConsolePlugin.get_plugin_dependencies().is_empty());
    assert_eq!(ChatPlugin.ws_path(), "/widget/chat/ws");
    assert_eq!(ConsolePlugin.ws_path(), "/widget/console/ws");
}

#[test]
fn example_chat_welcomes_and_broadcasts() {
    let mut chat = example::Chat::default();
    let welcome = chat.connect(0x2a, 3);
    assert_eq!((welcome.to, welcome.socket), (0x2a, 3));
    assert_eq!(welcome.text, "your id is 00000000-0000-0000-0000-00000000002a");
    chat.connect(7, 4);
    let mut out = chat.client_message(&"hey".to_string());
    out.sort_by_key(|d| d.to);
    assert_eq!(out.len(), 2);
    assert!(out.iter().all(|d| d.text == "hey"));
    chat.disconnect(7);
    assert_eq!(chat.client_message(&"again".to_string()).len(), 1);
}

#[test]
fn chat_message_travels_from_widget_to_every_widget() {
    let mut chat = Chat::new();
    let mut alice = WsConn::new();
    let mut bob = WsConn::new();
    // each widget announces itself when its socket opens
    for (ws, uuid, socket) in [(&mut alice, 0xa11ceu128, 1u64), (&mut bob, 0xb0bu128, 2u64)] {
        for p in connect_packets(uuid) {
            if let WsAction::Connect(id) = ws.handle_binary_msg(p) {
                chat.connect(Connect { addr: socket, id });
            }
        }
    }
    let sent = match alice.handle_binary_msg(send_msg_packet("hello bob".into())) {
        WsAction::Broadcast(m) => m,
        _ => panic!("expected a broadcast"),
    };
    let mut seen: Vec<(u64, SerializableUuid, String)> = chat
        .broadcast(&sent)
        .into_iter()
        .map(|d| {
            let (from, text) = received_message(d.packet).unwrap();
            (d.socket, from, text)
        })
        .collect();
    seen.sort_by_key(|x| x.0);
    assert_eq!(
        seen,
        vec![
            (1, SerializableUuid(0xa11ce), "hello bob".to_string()),
            (2, SerializableUuid(0xa11ce), "hello bob".to_string()),
        ]
    );
}

#[test]
fn plugin_auth_request_needs_both_cookies() {
    assert_eq!(
        auth_request(Some("alice".into()), Some("tok".into())),
        Some(("http://127.0.0.1:8080/internal/auth/alice/tok".to_string(), "alice".to_string()))
    );
    assert_eq!(auth_request(None, Some("tok".into())), None);
    assert_eq!(auth_request(Some("alice".into()), None), None);
    assert_eq!(auth_request(None, None), None);
}

#[test]
fn session_table_insert_get_remove_all() {
    let mut t = hutopia::chat::sessions::SessionTable::new();
    assert_eq!(t.get(1), None);
    t.insert(1, 10);
    t.insert(2, 20);
    t.insert(1, 11);
    assert_eq!(t.get(1), Some(11));
    assert_eq!(t.get(2), Some(20));
    let mut all = t.all();
    all.sort();
    assert_eq!(all, vec![(1, 11), (2, 20)]);
    assert_eq!(t.remove(1), Some(11));
    assert_eq!(t.remove(1), None);
    assert_eq!(t.all(), vec![(2, 20)]);
}

#[test]
fn chat_line_shows_sender_uuid_and_text() {
    assert_eq!(
        chat_line(0x0123_4567_89ab_cdef_0011_2233_4455_6677, "hi there"),
        "01234567-89ab-cdef-0011-223344556677: hi there"
    );
    let id = 42u128;
    assert_eq!(chat_line(id, "x"), format!("{:?}: x", uuid::Uuid::from_u128(id)));
}
