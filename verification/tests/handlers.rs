use zapo::handlers::{
    login_begin, login_step, pull_reply, root_reply, send_check, send_row, send_store,
    signin_outcome, signin_prepare, LoginAction, LoginEvent, LoginStage,
};
use zapo::password::{hash_new_password, password_check};
use zapo::reply::{HttpStatus, Reply, ReplyBody};

fn field(reply: &Reply, key: &str) -> Option<String> {
    match &reply.body {
        ReplyBody::Fields(f) => f.get(&key.to_string()),
        _ => None,
    }
}

fn is_login_failure(reply: &Reply) -> bool {
    reply.status == HttpStatus::BadRequest
        && field(reply, "error") == Some("NO".to_string())
        && field(reply, "status") == Some("FAIL".to_string())
        && field(reply, "token") == Some("no".to_string())
        && field(reply, "username") == Some("no".to_string())
        && field(reply, "date") == Some("no".to_string())
}

fn respond(action: LoginAction) -> Reply {
    match action {
        LoginAction::Respond(r) => r,
        _ => panic!("expected a reply"),
    }
}

#[test]
fn signin_refuses_empty() {
    let r = signin_prepare(String::new(), "pw".to_string()).err().unwrap();
    assert_eq!(r.status, HttpStatus::BadRequest);
    assert_eq!(field(&r, "error"), Some("username or password empty".to_string()));
    let r = signin_prepare("bob".to_string(), String::new()).err().unwrap();
    assert_eq!(field(&r, "error"), Some("username or password empty".to_string()));
}

#[test]
fn signin_refuses_too_long() {
    let r = signin_prepare("a".repeat(51), "pw".to_string()).err().unwrap();
    assert_eq!(r.status, HttpStatus::BadRequest);
    assert_eq!(field(&r, "error"), Some("to long username or password".to_string()));
    let r = signin_prepare("bob".to_string(), "p".repeat(31)).err().unwrap();
    assert_eq!(field(&r, "error"), Some("to long username or password".to_string()));
    // Lengths are counted in bytes: 26 two-byte characters make 52 bytes.
    let r = signin_prepare("é".repeat(26), "pw".to_string()).err().unwrap();
    assert_eq!(field(&r, "error"), Some("to long username or password".to_string()));
}

#[test]
fn signin_accepts_limits() {
    let account = signin_prepare("a".repeat(50), "p".repeat(30)).ok().unwrap();
    assert_eq!(account.username, "a".repeat(50));
    assert!(password_check(&"p".repeat(30), &account.password_hash));
    assert_eq!(account.session_token.len(), 43);
}

#[test]
fn signin_outcome_created() {
    let r = signin_outcome(Ok(()));
    assert_eq!(r.status, HttpStatus::Created);
    assert_eq!(field(&r, ""), Some(String::new()));
    assert_eq!(field(&r, "STATUS"), Some("OK".to_string()));
    assert_eq!(field(&r, "CAUSE"), Some("NONE".to_string()));
    assert!(field(&r, "DATE").is_some());
}

#[test]
fn signin_outcome_duplicate() {
    let r = signin_outcome(Err("error returned from database: 1062 (23000): Duplicate entry 'bob' for key 'users.username'".to_string()));
    assert_eq!(r.status, HttpStatus::Conflict);
    assert_eq!(field(&r, "error"), Some("username already taken".to_string()));
}

#[test]
fn signin_outcome_other_error() {
    let r = signin_outcome(Err("pool timed out".to_string()));
    assert_eq!(r.status, HttpStatus::Conflict);
    assert_eq!(field(&r, "error"), Some("cannot create account".to_string()));
    let r = signin_outcome(Err("duplicate".to_string()));
    assert_eq!(field(&r, "error"), Some("cannot create account".to_string()));
}

#[test]
fn root_says_root() {
    let r = root_reply();
    assert_eq!(r.status, HttpStatus::Success);
    match r.body {
        ReplyBody::Text(t) => assert_eq!(t, "Root /"),
        _ => panic!("expected text"),
    }
}

#[test]
fn send_refuses_empty_message() {
    let r = send_check(&String::new()).unwrap();
    assert_eq!(r.status, HttpStatus::BadRequest);
    assert_eq!(field(&r, "error"), Some("fail".to_string()));
    assert!(send_check(&"hello".to_string()).is_none());
}

fn row(a: &str, b: &str, c: &str) -> (String, String, String) {
    (a.to_string(), b.to_string(), c.to_string())
}

#[test]
fn pull_gives_stored_rows() {
    let rows = vec![row("alice", "hi", "2025-01-02 10:00:00"), row("bob", "yo", "2025-01-01 09:00:00")];
    let r = pull_reply(Ok(rows.clone()), false);
    assert_eq!(r.status, HttpStatus::Success);
    assert!(matches!(&r.body, ReplyBody::Messages(ms) if *ms == rows));
    let r = pull_reply(Ok(rows.clone()), true);
    assert_eq!(r.status, HttpStatus::Success);
    assert!(matches!(&r.body, ReplyBody::Messages(ms) if *ms == vec![rows[0].clone()]));
}

#[test]
fn pull_of_no_rows_is_empty() {
    for latest in [false, true] {
        let r = pull_reply(Ok(Vec::new()), latest);
        assert_eq!(r.status, HttpStatus::Success);
        assert!(matches!(&r.body, ReplyBody::Messages(ms) if ms.is_empty()));
    }
}

#[test]
fn failed_pull_answers_500() {
    let r = pull_reply(Err("pool timed out".to_string()), true);
    assert_eq!(r.status, HttpStatus::InternalServerError);
    assert_eq!(field(&r, "task"), Some("Pool message".to_string()));
    assert_eq!(field(&r, "cause"), Some("pool timed out".to_string()));
    match &r.body {
        ReplyBody::Fields(f) => assert_eq!(f.entries().len(), 2),
        _ => panic!("expected fields"),
    }
}

#[test]
fn send_row_is_sender_message_and_now() {
    let stored = send_row(Some("alice".to_string()), "hello".to_string()).ok().unwrap();
    assert_eq!(stored.0, "alice");
    assert_eq!(stored.1, "hello");
    assert!(stored.2.ends_with(" UTC"));
}

#[test]
fn send_with_unknown_token_fails() {
    let r = send_row(None, "hello".to_string()).err().unwrap();
    assert_eq!(r.status, HttpStatus::Success);
    assert_eq!(field(&r, "error"), Some("fail".to_string()));
}

#[test]
fn send_store_answers_both_ways() {
    let r = send_store(Ok(()));
    assert_eq!(r.status, HttpStatus::Success);
    assert_eq!(field(&r, "error"), Some("no".to_string()));
    let r = send_store(Err("insert failed".to_string()));
    assert_eq!(r.status, HttpStatus::Success);
    assert_eq!(field(&r, "error"), Some("fail".to_string()));
}

#[test]
fn login_refuses_like_signin() {
    let (stage, action) = login_begin(String::new(), "pw".to_string());
    assert!(matches!(stage, LoginStage::Finished));
    let r = respond(action);
    assert_eq!(r.status, HttpStatus::BadRequest);
    assert_eq!(field(&r, "error"), Some("username or password empty".to_string()));
    let (_, action) = login_begin("bob".to_string(), "p".repeat(31));
    let r = respond(action);
    assert_eq!(field(&r, "error"), Some("incorrect username or password".to_string()));
    assert!(signin_prepare("bob".to_string(), "p".repeat(31)).is_err());
}

#[test]
fn login_full_success() {
    let stored = hash_new_password(&"secret".to_string());
    let (stage, action) = login_begin("bob".to_string(), "secret".to_string());
    assert!(matches!(&action, LoginAction::CountUsers(n) if n == "bob"));
    let (stage, action) = login_step(stage, LoginEvent::UserCount(Some(1)));
    assert!(matches!(&action, LoginAction::FetchPasswordHash(n) if n == "bob"));
    let (stage, action) = login_step(stage, LoginEvent::PasswordHash(Some(Some(stored))));
    assert!(matches!(&action, LoginAction::FetchSessionToken(n) if n == "bob"));
    let (stage, action) = login_step(
        stage,
        LoginEvent::SessionToken(Some(("tok".to_string(), "2025-01-01T10:00:00".to_string()))),
    );
    assert!(matches!(stage, LoginStage::Finished));
    let r = respond(action);
    assert_eq!(r.status, HttpStatus::Success);
    assert_eq!(field(&r, "error"), Some("NO".to_string()));
    assert_eq!(field(&r, "status"), Some("OK".to_string()));
    assert_eq!(field(&r, "token"), Some("tok".to_string()));
    assert_eq!(field(&r, "username"), Some("bob".to_string()));
    assert_eq!(field(&r, "date"), Some("2025-01-01T10:00:00".to_string()));
}

#[test]
fn login_wrong_password_fails() {
    let stored = hash_new_password(&"secret".to_string());
    let (stage, _) = login_begin("bob".to_string(), "wrong".to_string());
    let (stage, _) = login_step(stage, LoginEvent::UserCount(Some(1)));
    let (stage, action) = login_step(stage, LoginEvent::PasswordHash(Some(Some(stored))));
    assert!(matches!(stage, LoginStage::Finished));
    assert!(is_login_failure(&respond(action)));
}

#[test]
fn login_unknown_user_fails() {
    let (stage, _) = login_begin("nobody".to_string(), "pw".to_string());
    let (_, action) = login_step(stage, LoginEvent::UserCount(Some(0)));
    assert!(is_login_failure(&respond(action)));
    let (stage, _) = login_begin("nobody".to_string(), "pw".to_string());
    let (_, action) = login_step(stage, LoginEvent::UserCount(None));
    assert!(is_login_failure(&respond(action)));
}

#[test]
fn login_odd_count_answers_empty() {
    let (stage, _) = login_begin("bob".to_string(), "pw".to_string());
    let (_, action) = login_step(stage, LoginEvent::UserCount(Some(2)));
    let r = respond(action);
    assert_eq!(r.status, HttpStatus::Success);
    assert!(matches!(&r.body, ReplyBody::Text(t) if t.is_empty()));
}

#[test]
fn login_missing_hash_answers_empty() {
    let (stage, _) = login_begin("bob".to_string(), "pw".to_string());
    let (stage, _) = login_step(stage, LoginEvent::UserCount(Some(1)));
    let (_, action) = login_step(stage, LoginEvent::PasswordHash(Some(None)));
    let r = respond(action);
    assert_eq!(r.status, HttpStatus::Success);
    assert!(matches!(&r.body, ReplyBody::Text(t) if t.is_empty()));
}

#[test]
fn login_failed_lookups_fail() {
    let stored = hash_new_password(&"pw".to_string());
    let (stage, _) = login_begin("bob".to_string(), "pw".to_string());
    let (stage, _) = login_step(stage, LoginEvent::UserCount(Some(1)));
    let (_, action) = login_step(stage, LoginEvent::PasswordHash(None));
    assert!(is_login_failure(&respond(action)));

    let (stage, _) = login_begin("bob".to_string(), "pw".to_string());
    let (stage, _) = login_step(stage, LoginEvent::UserCount(Some(1)));
    let (stage, _) = login_step(stage, LoginEvent::PasswordHash(Some(Some(stored))));
    let (_, action) = login_step(stage, LoginEvent::SessionToken(None));
    assert!(is_login_failure(&respond(action)));
}

#[test]
fn login_malformed_hash_fails() {
    let (stage, _) = login_begin("bob".to_string(), "pw".to_string());
    let (stage, _) = login_step(stage, LoginEvent::UserCount(Some(1)));
    let (_, action) = login_step(stage, LoginEvent::PasswordHash(Some(Some("plain".to_string()))));
    assert!(is_login_failure(&respond(action)));
}

#[test]
fn two_logins_of_same_user_answer_alike() {
    let stored = hash_new_password(&"secret".to_string());
    let mut answers = Vec::new();
    for _ in 0..2 {
        let (stage, _) = login_begin("bob".to_string(), "secret".to_string());
        let (stage, _) = login_step(stage, LoginEvent::UserCount(Some(1)));
        let (stage, _) = login_step(stage, LoginEvent::PasswordHash(Some(Some(stored.clone()))));
        let (_, action) = login_step(
            stage,
            LoginEvent::SessionToken(Some(("tok".to_string(), "2024-05-06T07:08:09".to_string()))),
        );
        let r = respond(action);
        answers.push((r.status, field(&r, "token"), field(&r, "username"), field(&r, "date")));
    }
    assert_eq!(answers[0], answers[1]);
    assert_eq!(answers[0].3, Some("2024-05-06T07:08:09".to_string()));
}
