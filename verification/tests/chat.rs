use zapo::chat::{accept_login, chat_user, token_preview, ChatFeed};
use zapo::client::got_info;

fn m(a: &str, b: &str, c: &str) -> (String, String, String) {
    (a.to_string(), b.to_string(), c.to_string())
}

#[test]
fn token_preview_of_three_entry_record() {
    let user = vec!["bob".to_string(), "abcdefgh".to_string(), "2025-01-01".to_string()];
    assert_eq!(token_preview(&user), "abcd...bcd");
}

#[test]
fn token_preview_depends_on_record_length() {
    let user = vec![
        "bob".to_string(),
        "0123456789".to_string(),
        "d".to_string(),
        "extra".to_string(),
    ];
    assert_eq!(token_preview(&user), "0123...234");
}

#[test]
fn chat_user_record() {
    let info = got_info::user_status(
        "NO".to_string(),
        "OK".to_string(),
        "tok".to_string(),
        "bob".to_string(),
        "2025-01-01 10:00:00.123 UTC".to_string(),
    );
    assert_eq!(
        chat_user(&info),
        vec!["bob".to_string(), "tok".to_string(), "2025-01-01 ".to_string()]
    );
}

#[test]
fn accept_only_ok() {
    let mut info = got_info::new();
    assert!(!accept_login(&info));
    info.status = "OK".to_string();
    assert!(accept_login(&info));
    info.status = "FAIL".to_string();
    assert!(!accept_login(&info));
}

#[test]
fn feed_shows_new_message_first() {
    let mut feed = ChatFeed::new(vec![m("a", "old", "d0")], m("a", "old", "d0"));
    feed.observe(m("b", "new", "d1"), Some(m("b", "new", "d1")));
    assert_eq!(feed.messages(), &vec![m("b", "new", "d1"), m("a", "old", "d0")]);
    assert_eq!(feed.latest_block(), m("b", "new", "d1"));
}

#[test]
fn feed_ignores_seen_message() {
    let mut feed = ChatFeed::new(vec![m("a", "old", "d0")], m("a", "old", "d0"));
    assert!(!feed.is_new(&m("a", "old", "d0")));
    assert!(feed.is_new(&m("a", "old", "d1")));
    feed.observe(m("a", "old", "d0"), Some(m("a", "old", "d0")));
    assert_eq!(feed.messages(), &vec![m("a", "old", "d0")]);
}

#[test]
fn feed_waits_for_non_empty_pull() {
    let mut feed = ChatFeed::new(vec![], m(".", ".", "."));
    feed.observe(m("b", "new", "d1"), None);
    assert!(feed.messages().is_empty());
    assert_eq!(feed.latest_block(), m(".", ".", "."));
}
