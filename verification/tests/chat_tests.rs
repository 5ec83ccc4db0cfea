use crust_ai::home_chat::{is_mode_selected, is_send_key, mode_label};
use crust_ai::{get_reply, ChatMode, ChatRoutes, ChatState, Message, MessageRole};

#[test]
fn chat_routes_paths_and_label() {
    assert_eq!(ChatRoutes::base_url(), "/chats");
    assert_eq!(ChatRoutes::detail_url("abc-123"), "/chats/abc-123");
    assert_eq!(ChatRoutes::detail_url(""), "/chats/");
    assert_eq!(ChatRoutes::label(), "Chat");
}

#[test]
fn detail_url_extends_base_url() {
    let id = "42";
    assert_eq!(ChatRoutes::detail_url(id), format!("{}/{}", ChatRoutes::base_url(), id));
    assert_ne!(ChatRoutes::detail_url("1"), ChatRoutes::detail_url("2"));
}

#[test]
fn get_reply_picks_by_byte_length() {
    assert_eq!(
        get_reply(String::new()),
        "That's a great question! Let me think through this with you."
    );
    assert_eq!(
        get_reply("a".to_string()),
        "Interesting. Here's what I'd consider in this situation."
    );
    assert_eq!(
        get_reply("ab".to_string()),
        "Based on what you've shared, here are a few things to keep in mind."
    );
    assert_eq!(
        get_reply("abc".to_string()),
        "Good point. In Rust this often comes down to ownership and lifetimes."
    );
    assert_eq!(get_reply("abcd".to_string()), "Let me break that down step by step.");
    assert_eq!(get_reply("abcde".to_string()), get_reply(String::new()));
    // "é" is one character but two bytes.
    assert_eq!(get_reply("é".to_string()), get_reply("ab".to_string()));
}

#[test]
fn new_chat_is_empty_developer_mode() {
    let s = ChatState::new();
    assert_eq!(s.mode(), ChatMode::Developer);
    assert_eq!(s.input(), "");
    assert!(s.messages().is_empty());
    assert!(!s.is_loading());
    assert!(s.shows_empty_state());
}

#[test]
fn send_posts_trimmed_message_and_waits() {
    let mut s = ChatState::new();
    s.set_input("  hello world \n".to_string());
    let request = s.send_message();
    assert_eq!(request, Some("hello world".to_string()));
    assert_eq!(s.input(), "");
    assert!(s.is_loading());
    assert!(!s.shows_empty_state());
    assert_eq!(
        s.messages(),
        &vec![Message { id: 0, role: MessageRole::User, content: "hello world".to_string() }]
    );
}

#[test]
fn blank_input_sends_nothing() {
    let mut s = ChatState::new();
    s.set_input(" \t\u{3000}\u{2028} ".to_string());
    assert_eq!(s.send_message(), None);
    assert_eq!(s.input(), " \t\u{3000}\u{2028} ");
    assert!(s.messages().is_empty());
    assert!(!s.is_loading());
}

#[test]
fn send_while_waiting_sends_nothing() {
    let mut s = ChatState::new();
    s.set_input("first".to_string());
    assert_eq!(s.send_message(), Some("first".to_string()));
    s.set_input("second".to_string());
    assert_eq!(s.send_message(), None);
    assert_eq!(s.input(), "second");
    assert_eq!(s.messages().len(), 1);
}

#[test]
fn send_then_reply_appends_both_messages() {
    let mut s = ChatState::new();
    s.set_input("question".to_string());
    let text = s.send_message().unwrap();
    let reply: Result<String, ()> = Ok(get_reply(text));
    s.receive_reply(reply);
    assert!(!s.is_loading());
    assert_eq!(
        s.messages(),
        &vec![
            Message { id: 0, role: MessageRole::User, content: "question".to_string() },
            Message {
                id: 1,
                role: MessageRole::Assistant,
                content: "Good point. In Rust this often comes down to ownership and lifetimes."
                    .to_string(),
            },
        ]
    );
}

#[test]
fn failed_reply_shows_fallback_text() {
    let mut s = ChatState::new();
    s.set_input("hi".to_string());
    s.send_message();
    let reply: Result<String, &str> = Err("network");
    s.receive_reply(reply);
    assert_eq!(s.messages()[1].content, "Something went wrong. Please try again.");
    assert_eq!(s.messages()[1].role, MessageRole::Assistant);
    assert!(!s.is_loading());
}

#[test]
fn message_ids_stay_unique_and_increasing() {
    let mut s = ChatState::new();
    for i in 0..4 {
        s.set_input(format!("message {i}"));
        s.send_message();
        let reply: Result<String, ()> = Ok(format!("reply {i}"));
        s.receive_reply(reply);
    }
    let ids: Vec<u64> = s.messages().iter().map(|m| m.id).collect();
    assert_eq!(ids, vec![0, 1, 2, 3, 4, 5, 6, 7]);
}

#[test]
fn mode_switching_and_labels() {
    let mut s = ChatState::new();
    assert_eq!(mode_label(s.mode()), "🦀 Developer mode");
    s.set_mode(ChatMode::General);
    assert_eq!(s.mode(), ChatMode::General);
    assert_eq!(mode_label(s.mode()), "⊕ General mode");
    assert!(is_mode_selected(ChatMode::General, ChatMode::General));
    assert!(!is_mode_selected(ChatMode::General, ChatMode::Developer));
}

#[test]
fn enter_without_shift_sends() {
    assert!(is_send_key("Enter", false));
    assert!(!is_send_key("Enter", true));
    assert!(!is_send_key("a", false));
    assert!(!is_send_key("enter", false));
}

#[test]
fn roles_alternate_and_loading_matches_odd_count() {
    let mut s = ChatState::new();
    for i in 0..3 {
        s.set_input(format!("q{i}"));
        assert!(s.posts_on_send());
        s.send_message();
        assert!(s.is_loading());
        assert_eq!(s.messages().len() % 2, 1);
        assert!(!s.posts_on_send());
        let reply: Result<String, ()> = Ok(format!("a{i}"));
        s.receive_reply(reply);
        assert!(!s.is_loading());
        assert_eq!(s.next_id() as usize, s.messages().len());
    }
    for (i, m) in s.messages().iter().enumerate() {
        let expected = if i % 2 == 0 { MessageRole::User } else { MessageRole::Assistant };
        assert_eq!(m.role, expected);
    }
}
