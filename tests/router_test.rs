use mobot_core::bot::poll_once;
use mobot_core::chat::ChatState;
use mobot_core::fake::FakeServer;
use mobot_core::api::{Message, Update};
use mobot_core::chat::MessageEvent;
use mobot_core::router::{Command, Phase, Router, TransportError};
use mobot_core::store::ChatStateStore;

#[test]
fn it_works() {
    let mut fakeserver = FakeServer::new();
    let mut router = Router::new().with_poll_timeout_s(1);
    let mut store: ChatStateStore<ChatState> = ChatStateStore::new();

    match router.start() {
        Command::Fetch { offset, timeout_s } => {
            assert_eq!(offset, 0);
            assert_eq!(timeout_s, 1);
        }
        other => panic!("unexpected command {:?}", other),
    }

    let chat = fakeserver.create_chat("qubyte".to_string());

    fakeserver.send_text(&chat, "ping1".to_string());
    poll_once(&mut router, &mut store, &mut fakeserver);
    assert_eq!(
        fakeserver.recv_message(&chat).unwrap().text.unwrap(),
        "pong(1): ping1"
    );

    fakeserver.send_text(&chat, "ping2".to_string());
    poll_once(&mut router, &mut store, &mut fakeserver);
    assert_eq!(
        fakeserver.recv_message(&chat).unwrap().text.unwrap(),
        "pong(2): ping2"
    );

    // No further input: nothing to read, the wait times out.
    poll_once(&mut router, &mut store, &mut fakeserver);
    assert!(fakeserver.recv_message(&chat).is_none());

    assert!(matches!(router.request_shutdown(), Command::NotifyStopped));
    assert_eq!(router.phase(), Phase::Stopped);
}

#[test]
fn second_shutdown_signal_is_a_no_op() {
    let mut router = Router::new();
    router.start();
    assert!(matches!(router.request_shutdown(), Command::NotifyStopped));
    assert!(matches!(router.request_shutdown(), Command::Nothing));
    assert_eq!(router.phase(), Phase::Stopped);
}

#[test]
fn shutdown_during_dispatch_waits_for_the_batch() {
    let mut server = FakeServer::new();
    let chat = server.create_chat("a".to_string());
    server.send_text(&chat, "x".to_string());
    let mut router = Router::new();
    router.start();
    let cmd = router.on_fetch(Ok(server.fetch_updates(router.offset())));
    assert!(matches!(cmd, Command::Dispatch(_)));
    assert!(matches!(router.request_shutdown(), Command::Nothing));
    assert_eq!(router.phase(), Phase::ShuttingDown);
    assert!(matches!(router.request_shutdown(), Command::Nothing));
    assert!(matches!(router.on_dispatched(), Command::NotifyStopped));
    assert_eq!(router.phase(), Phase::Stopped);
    assert_eq!(router.offset(), 2);
}

#[test]
fn shutdown_before_start_stops_at_start() {
    let mut router = Router::new();
    assert!(matches!(router.request_shutdown(), Command::Nothing));
    assert!(matches!(router.start(), Command::NotifyStopped));
    assert_eq!(router.phase(), Phase::Stopped);
}

#[test]
fn offset_moves_past_largest_id() {
    let mk = |id: i64| Update {
        update_id: id,
        message: MessageEvent::New(Message::new_text(id, 7, "u".to_string(), "t".to_string())),
    };
    let mut router = Router::new();
    router.start();
    match router.on_fetch(Ok(vec![mk(12), mk(10), mk(11)])) {
        Command::Dispatch(s) => {
            let ids: Vec<i64> = s.iter().map(|u| u.update_id).collect();
            assert_eq!(ids, vec![10, 11, 12]);
        }
        other => panic!("unexpected command {:?}", other),
    }
    match router.on_dispatched() {
        Command::Fetch { offset, timeout_s } => {
            assert_eq!(offset, 13);
            assert_eq!(timeout_s, 60);
        }
        other => panic!("unexpected command {:?}", other),
    }
}

#[test]
fn empty_batch_and_errors_keep_the_offset() {
    let mut router = Router::new();
    router.start();
    assert!(matches!(router.on_fetch(Ok(vec![])), Command::Fetch { offset: 0, .. }));
    assert!(matches!(
        router.on_fetch(Err(TransportError::Protocol)),
        Command::Fetch { offset: 0, .. }
    ));
    assert!(matches!(
        router.on_fetch(Err(TransportError::Transient)),
        Command::RetryAfterBackoff { offset: 0, .. }
    ));
    assert_eq!(router.phase(), Phase::Polling);
}

#[test]
fn replies_reach_each_chat_in_order() {
    let mut server = FakeServer::new();
    let a = server.create_chat("a".to_string());
    let b = server.create_chat("b".to_string());
    let mut router = Router::new().with_poll_timeout_s(0);
    let mut store: ChatStateStore<ChatState> = ChatStateStore::new();
    router.start();
    server.send_text(&a, "a1".to_string());
    server.send_text(&b, "b1".to_string());
    server.send_text(&a, "a2".to_string());
    poll_once(&mut router, &mut store, &mut server);
    server.send_text(&a, "a3".to_string());
    poll_once(&mut router, &mut store, &mut server);
    assert_eq!(server.recv_message(&a).unwrap().text.unwrap(), "pong(1): a1");
    assert_eq!(server.recv_message(&a).unwrap().text.unwrap(), "pong(2): a2");
    assert_eq!(server.recv_message(&a).unwrap().text.unwrap(), "pong(3): a3");
    assert!(server.recv_message(&a).is_none());
    // The other chat's counter is its own.
    assert_eq!(server.recv_message(&b).unwrap().text.unwrap(), "pong(1): b1");
    assert!(server.recv_message(&b).is_none());
    assert_eq!(store.get(a.chat_id).unwrap().counter, 3);
    assert_eq!(store.get(b.chat_id).unwrap().counter, 1);
}

#[test]
fn updates_enqueued_before_start_are_delivered() {
    let mut server = FakeServer::new();
    let chat = server.create_chat("early".to_string());
    server.send_text(&chat, "one".to_string());
    server.send_text(&chat, "two".to_string());
    let mut router = Router::new();
    let mut store: ChatStateStore<ChatState> = ChatStateStore::new();
    router.start();
    poll_once(&mut router, &mut store, &mut server);
    assert_eq!(server.recv_message(&chat).unwrap().text.unwrap(), "pong(1): one");
    assert_eq!(server.recv_message(&chat).unwrap().text.unwrap(), "pong(2): two");
    assert_eq!(router.offset(), 3);
}

#[test]
fn stickers_and_texts_share_one_queue_per_chat() {
    let mut server = FakeServer::new();
    let chat = server.create_chat("s".to_string());
    let other = server.create_chat("o".to_string());
    let t = server.send_message(chat.chat_id, "first".to_string());
    let s = server.send_sticker(chat.chat_id, "CAADAgAD".to_string());
    server.send_message(other.chat_id, "elsewhere".to_string());
    assert!(s.message_id > t.message_id);
    let m1 = server.recv_message(&chat).unwrap();
    assert_eq!(m1.text.unwrap(), "first");
    let m2 = server.recv_message(&chat).unwrap();
    assert!(m2.text.is_none());
    assert_eq!(m2.sticker.unwrap(), "CAADAgAD");
    assert!(server.recv_message(&chat).is_none());
    assert_eq!(server.recv_message(&other).unwrap().text.unwrap(), "elsewhere");
}

#[test]
fn fetch_from_offset_skips_handled_updates() {
    let mut server = FakeServer::new();
    let chat = server.create_chat("f".to_string());
    for i in 0..5 {
        server.send_text(&chat, format!("m{}", i));
    }
    let b = server.fetch_updates(4);
    let ids: Vec<i64> = b.iter().map(|u| u.update_id).collect();
    assert_eq!(ids, vec![4, 5]);
    assert!(server.fetch_updates(6).is_empty());
    assert_eq!(server.fetch_updates(-3).len(), 5);
}

#[test]
fn edited_message_gets_no_reply() {
    let mut server = FakeServer::new();
    let chat = server.create_chat("e".to_string());
    let mut store: ChatStateStore<ChatState> = ChatStateStore::new();
    let u = Update {
        update_id: 1,
        message: MessageEvent::Edited(Message::new_text(1, chat.chat_id, "e".to_string(), "x".to_string())),
    };
    assert!(mobot_core::bot::dispatch_pong(&u, &mut store, &mut server).is_err());
    assert!(server.recv_message(&chat).is_none());
    assert!(!store.contains(chat.chat_id));
}
