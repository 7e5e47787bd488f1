use mobot_core::api::{Message, ParseMode, Update};
use mobot_core::bot::dispatch_uptime;
use mobot_core::chain::run_chain;
use mobot_core::chat::{
    counter_reply, handle_chat_event, log_handler, pong_handler, Action, ChatState, Error, Event,
    MessageEvent, Reply,
};
use mobot_core::send_photo::SendPhotoRequest;
use mobot_core::store::ChatStateStore;

fn new_event(chat_id: i64, name: &str, text: &str) -> Event {
    Event {
        message: MessageEvent::New(Message::new_text(1, chat_id, name.to_string(), text.to_string())),
    }
}

fn edited_event() -> Event {
    Event {
        message: MessageEvent::Edited(Message::new_text(1, 5, "u".to_string(), "x".to_string())),
    }
}

#[test]
fn photo_request_builders() {
    let r = SendPhotoRequest::new_file_id(42, "file-1".to_string());
    assert_eq!(r.chat_id, 42);
    assert_eq!(r.photo, "file-1");
    assert_eq!(r.caption, "");
    assert!(r.parse_mode.is_none());
    let r = SendPhotoRequest::new_external_url(-7, "http://example.com/a.png".to_string())
        .with_caption("a cat".to_string())
        .with_parse_mode(ParseMode::MarkdownV2);
    assert_eq!(r.chat_id, -7);
    assert_eq!(r.photo, "http://example.com/a.png");
    assert_eq!(r.caption, "a cat");
    assert_eq!(r.parse_mode, Some(ParseMode::MarkdownV2));
}

#[test]
fn pong_handler_counts_and_replies() {
    let mut st = ChatState::default();
    match pong_handler(&new_event(3, "u", "hi"), &mut st) {
        Ok(Action::ReplyText(t)) => assert_eq!(t, "pong(1): hi"),
        _ => panic!("expected a text reply"),
    }
    match pong_handler(&new_event(3, "u", ""), &mut st) {
        Ok(Action::ReplyText(t)) => assert_eq!(t, "pong(2): "),
        _ => panic!("expected a text reply"),
    }
    assert_eq!(st.counter, 2);
    match pong_handler(&edited_event(), &mut st) {
        Err(Error::Failed(m)) => assert_eq!(m, "Unhandled update"),
        _ => panic!("expected an error"),
    }
    assert_eq!(st.counter, 2);
}

#[test]
fn uptime_handler_replies_or_fails() {
    let mut st = ChatState { counter: 9 };
    match handle_chat_event(&new_event(3, "u", "?"), &mut st, Some("up 3 hours".to_string())) {
        Ok(Action::ReplyText(t)) => assert_eq!(t, "uptime(10): up 3 hours"),
        _ => panic!("expected a text reply"),
    }
    match handle_chat_event(&new_event(3, "u", "?"), &mut st, None) {
        Err(Error::Failed(m)) => assert_eq!(m, "Failed to get uptime"),
        _ => panic!("expected an error"),
    }
    assert_eq!(st.counter, 11);
    match handle_chat_event(&edited_event(), &mut st, Some("x".to_string())) {
        Err(e) => assert_eq!(e.describe(), "Handler error: Unhandled update"),
        _ => panic!("expected an error"),
    }
    assert_eq!(st.counter, 11);
}

#[test]
fn log_handler_line() {
    let (a, line) = log_handler(&new_event(-100123, "Ann", "hello"));
    assert!(matches!(a, Action::Next));
    assert_eq!(line, "(-100123) Message from Ann: hello");
}

#[test]
fn counter_reply_formats_large_numbers() {
    assert_eq!(counter_reply("n", 18446744073709551615, "z"), "n(18446744073709551615): z");
    assert_eq!(counter_reply("n", 0, ""), "n(0): ");
}

#[test]
fn error_from_string() {
    let e: Error = Error::from("boom".to_string());
    assert_eq!(e.describe(), "Handler error: boom");
}

#[test]
fn actions_bind_effect_and_continuation() {
    assert!(Action::Next.continues());
    assert!(!Action::Done.continues());
    assert!(Action::ReplyText("a".to_string()).continues());
    assert!(Action::ReplySticker("s".to_string()).continues());
    assert!(Action::Next.reply().is_none());
    assert!(Action::Done.reply().is_none());
    assert!(matches!(Action::ReplySticker("s".to_string()).reply(), Some(Reply::Sticker(s)) if s == "s"));
}

#[test]
fn chain_stops_at_done() {
    let r = run_chain(&vec![Ok(Action::Done), Ok(Action::ReplyText("b".to_string()))]);
    assert_eq!(r.invoked, 1);
    assert!(r.replies.is_empty());
    assert!(r.failed.is_none());
}

#[test]
fn chain_next_then_reply() {
    let r = run_chain(&vec![Ok(Action::Next), Ok(Action::ReplyText("b".to_string()))]);
    assert_eq!(r.invoked, 2);
    assert_eq!(r.replies.len(), 1);
    assert!(matches!(&r.replies[0], Reply::Text(t) if t == "b"));
}

#[test]
fn chain_error_aborts_the_rest() {
    let r = run_chain(&vec![
        Ok(Action::ReplySticker("s1".to_string())),
        Err(Error::Failed("bad".to_string())),
        Ok(Action::ReplyText("never".to_string())),
    ]);
    assert_eq!(r.invoked, 2);
    assert_eq!(r.failed, Some(1));
    assert_eq!(r.replies.len(), 1);
    assert!(matches!(&r.replies[0], Reply::Sticker(t) if t == "s1"));
}

#[test]
fn empty_chain_runs_nothing() {
    let r = run_chain(&vec![]);
    assert_eq!(r.invoked, 0);
    assert!(r.replies.is_empty());
}

#[test]
fn store_keeps_chats_apart() {
    let mut s: ChatStateStore<ChatState> = ChatStateStore::new();
    assert!(!s.contains(1));
    s.set(1, ChatState { counter: 5 });
    s.set(2, ChatState { counter: 7 });
    s.set(1, ChatState { counter: 6 });
    assert_eq!(s.get(1).unwrap().counter, 6);
    assert_eq!(s.get(2).unwrap().counter, 7);
    assert!(s.get(3).is_none());
    assert_eq!(s.take_or(3, ChatState { counter: 0 }).counter, 0);
    assert_eq!(s.take_or(2, ChatState { counter: 0 }).counter, 7);
}

#[test]
fn update_duplicate_keeps_fields() {
    let u = Update {
        update_id: 4,
        message: MessageEvent::Edited(Message::new_text(8, 9, "n".to_string(), "t".to_string())),
    };
    let d = u.duplicate();
    assert_eq!(d.update_id, 4);
    match d.message {
        MessageEvent::Edited(m) => {
            assert_eq!(m.message_id, 8);
            assert_eq!(m.chat.id, 9);
            assert_eq!(m.from.unwrap().first_name, "n");
            assert_eq!(m.text.unwrap(), "t");
        }
        _ => panic!("kind changed"),
    }
}

#[test]
fn log_handler_without_sender() {
    let mut m = Message::new_text(2, 77, "x".to_string(), "hey".to_string());
    m.from = None;
    let (a, line) = log_handler(&Event { message: MessageEvent::New(m) });
    assert!(matches!(a, Action::Next));
    assert_eq!(line, "(77) Message from : hey");
}

#[test]
fn error_from_text() {
    assert_eq!(Error::from_text("oops").describe(), "Handler error: oops");
}

#[test]
fn uptime_dispatch_keeps_chats_apart() {
    let mut store: ChatStateStore<ChatState> = ChatStateStore::new();
    store.set(2, ChatState { counter: 40 });
    match dispatch_uptime(&new_event(1, "a", "?"), &mut store, Some("up 1 day".to_string())) {
        Ok(Action::ReplyText(t)) => assert_eq!(t, "uptime(1): up 1 day"),
        _ => panic!("expected a reply"),
    }
    match dispatch_uptime(&new_event(2, "b", "?"), &mut store, None) {
        Err(Error::Failed(m)) => assert_eq!(m, "Failed to get uptime"),
        _ => panic!("expected an error"),
    }
    assert_eq!(store.get(1).unwrap().counter, 1);
    assert_eq!(store.get(2).unwrap().counter, 41);
    store.set(3, ChatState { counter: u64::MAX });
    match dispatch_uptime(&new_event(3, "c", "?"), &mut store, None) {
        Err(Error::Failed(m)) => assert_eq!(m, "Counter overflow"),
        _ => panic!("expected an error"),
    }
    assert!(dispatch_uptime(&edited_event(), &mut store, None).is_err());
    assert!(!store.contains(5));
}

#[test]
fn log_handler_extreme_chat_ids() {
    let (_, line) = log_handler(&new_event(i64::MIN, "M", "t"));
    assert_eq!(line, "(-9223372036854775808) Message from M: t");
    let (_, line) = log_handler(&new_event(0, "Z", ""));
    assert_eq!(line, "(0) Message from Z: ");
    let (_, line) = log_handler(&new_event(i64::MAX, "X", "y"));
    assert_eq!(line, "(9223372036854775807) Message from X: y");
}

#[test]
fn error_from_str() {
    let e: Error = "bad input".into();
    assert_eq!(e.describe(), "Handler error: bad input");
}
