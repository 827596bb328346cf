use vstd::prelude::*;

use vstd::utf8::encode_utf8;

use crate::json_object::JsonObject;
use crate::message_block::pulled;
use crate::password::{
    hash_new_password, is_new_password_hash, lemma_new_password_hash_shape, password_accepted,
    password_check,
};
use crate::reply::{error_fields, error_reply, messages_view, BodyView, HttpStatus, Reply, ReplyBody};
use crate::service::{is_utc_datetime_text, tell_fields, CAUSE, DATE, EMITTER, HTTP_TELL, STATUS};
use crate::text::{byte_len, contains_text, has_substring, lemma_byte_len_at_least_len};
use crate::token::{base64_url_no_pad, generate_session_token};

verus! {

/// Longest username, in bytes, that sign-up and login take.
pub const MAX_USERNAME_BYTES: usize = 50;

/// Longest password, in bytes, that sign-up and login take.
pub const MAX_PASSWORD_BYTES: usize = 30;

/// An empty username or an empty password.
pub open spec fn credentials_empty(username: Seq<char>, password: Seq<char>) -> bool {
    username.len() == 0 || password.len() == 0
}

/// Credentials longer than the service takes.
pub open spec fn credentials_too_long(username: Seq<char>, password: Seq<char>) -> bool {
    byte_len(username) > MAX_USERNAME_BYTES || byte_len(password) > MAX_PASSWORD_BYTES
}

/// Why sign-up refuses the credentials, as the text of its error reply.
pub open spec fn signin_refusal(username: Seq<char>, password: Seq<char>) -> Option<Seq<char>> {
    if credentials_empty(username, password) {
        Some("username or password empty"@)
    } else if credentials_too_long(username, password) {
        Some("to long username or password"@)
    } else {
        None
    }
}

/// Why login refuses the credentials, as the text of its error reply.
pub open spec fn login_refusal(username: Seq<char>, password: Seq<char>) -> Option<Seq<char>> {
    if credentials_empty(username, password) {
        Some("username or password empty"@)
    } else if credentials_too_long(username, password) {
        Some("incorrect username or password"@)
    } else {
        None
    }
}

/// Whether the credentials are empty, or longer than the service takes.
fn credentials_shape(username: &String, password: &String) -> (r: (bool, bool))
    ensures
        r.0 == credentials_empty(username@, password@),
        r.1 == credentials_too_long(username@, password@),
{
    let u = username.as_str();
    let p = password.as_str();
    let u_bytes = u.as_bytes();
    let p_bytes = p.as_bytes();
    (
        u.is_empty() || p.is_empty(),
        u_bytes.len() > MAX_USERNAME_BYTES || p_bytes.len() > MAX_PASSWORD_BYTES,
    )
}

/// A user account ready to be stored: the username, the PHC text of the
/// password's hash and a fresh session token.
pub struct NewAccount {
    pub username: String,
    pub password_hash: String,
    pub session_token: String,
}

/// The answer to a sign-up request up to storing the account: the 400 reply
/// for refused credentials, else the account to store.
pub fn signin_prepare(username: String, password: String) -> (r: Result<NewAccount, Reply>)
    ensures
        r is Err <==> signin_refusal(username@, password@) is Some,
        r matches Err(reply) ==> reply@ == (
            HttpStatus::BadRequest,
            BodyView::Fields(error_fields(signin_refusal(username@, password@)->0)),
        ),
        r matches Ok(account) ==> {
            &&& account.username@ == username@
            &&& password_accepted(password@, account.password_hash@)
            &&& is_new_password_hash(password@, account.password_hash@)
            &&& account.password_hash@ != password@
            &&& exists|bytes: Seq<u8>|
                bytes.len() == 32 && account.session_token@ == base64_url_no_pad(bytes)
        },
{
    let (empty, too_long) = credentials_shape(&username, &password);
    if empty {
        return Err(error_reply(HttpStatus::BadRequest, "username or password empty"));
    }
    if too_long {
        return Err(error_reply(HttpStatus::BadRequest, "to long username or password"));
    }
    let password_hash = hash_new_password(&password);
    proof {
        lemma_new_password_hash_shape(password@, password_hash@);
        lemma_byte_len_at_least_len(password@);
    }
    let session_token = generate_session_token();
    Ok(NewAccount { username, password_hash, session_token })
}

/// The error text for an account that could not be stored: taken username
/// when the store's error text mentions "Duplicate".
pub open spec fn signin_conflict_text(store_error: Seq<char>) -> Seq<char> {
    if has_substring(store_error, "Duplicate"@) {
        "username already taken"@
    } else {
        "cannot create account"@
    }
}

/// The answer to a sign-up request once storing the account succeeded or
/// failed with the given error text.
pub fn signin_outcome(stored: Result<(), String>) -> (r: Reply)
    ensures
        stored is Ok ==> {
            &&& r.status == HttpStatus::Created
            &&& r@.1 matches BodyView::Fields(f) && f == tell_fields(
                (Seq::empty(), Seq::empty()),
                "NONE"@,
                "OK"@,
                f["DATE"@],
            ) && is_utc_datetime_text(f["DATE"@])
        },
        stored matches Err(e) ==> r@ == (
            HttpStatus::Conflict,
            BodyView::Fields(error_fields(signin_conflict_text(e@))),
        ),
{
    match stored {
        Ok(()) => {
            let fields = HTTP_TELL::TELL(EMITTER::EMITE.emite(None), CAUSE::NONE.cause(), STATUS::OK.status());
            Reply { status: HttpStatus::Created, body: ReplyBody::Fields(fields) }
        },
        Err(error) => {
            if contains_text(error.as_str(), "Duplicate") {
                error_reply(HttpStatus::Conflict, "username already taken")
            } else {
                error_reply(HttpStatus::Conflict, "cannot create account")
            }
        },
    }
}

/// The answer to a request for the root path.
pub fn root_reply() -> (r: Reply)
    ensures
        r@ == (HttpStatus::Success, BodyView::Text("Root /"@)),
{
    Reply { status: HttpStatus::Success, body: ReplyBody::Text(String::from_str("Root /")) }
}

/// The body of the 500 reply to a pull whose read of the stored messages
/// failed with the given error text.
pub open spec fn pull_failure_fields(cause: Seq<char>) -> Map<Seq<char>, Seq<char>> {
    Map::empty().insert("task"@, "Pool message"@).insert("cause"@, cause)
}

/// The answer to a pull, given what reading the stored messages (the newest
/// first) gave: the newest one only, or all of them; a 500 reply with the
/// error text where the read failed.
pub fn pull_reply(read: Result<Vec<(String, String, String)>, String>, want_latest: bool) -> (r:
    Reply)
    ensures
        read matches Ok(rows) ==> r@ == (
            HttpStatus::Success,
            BodyView::Messages(pulled(messages_view(rows@), want_latest)),
        ),
        read matches Err(e) ==> r@ == (
            HttpStatus::InternalServerError,
            BodyView::Fields(pull_failure_fields(e@)),
        ),
{
    match read {
        Ok(rows) => {
            let mut rows = rows;
            let ghost all = rows@;
            if want_latest && rows.len() > 1 {
                rows.truncate(1);
            }
            assert(messages_view(rows@) =~= pulled(messages_view(all), want_latest));
            Reply { status: HttpStatus::Success, body: ReplyBody::Messages(rows) }
        },
        Err(cause) => {
            let mut fields = JsonObject::new();
            fields.insert(String::from_str("task"), String::from_str("Pool message"));
            fields.insert(String::from_str("cause"), cause);
            Reply { status: HttpStatus::InternalServerError, body: ReplyBody::Fields(fields) }
        },
    }
}

/// The 400 reply to a message that is empty, before its sender is looked up.
pub fn send_check(message: &String) -> (r: Option<Reply>)
    ensures
        message@.len() == 0 ==> (r matches Some(reply) && reply@ == (
            HttpStatus::BadRequest,
            BodyView::Fields(error_fields("fail"@)),
        )),
        message@.len() != 0 ==> r is None,
{
    if message.as_str().is_empty() {
        Some(error_reply(HttpStatus::BadRequest, "fail"))
    } else {
        None
    }
}

/// The row to store for a message sent by `sender` at the given date (the
/// text of the instant the message was sent): sender, message, date.
pub fn send_row_dated(sender: String, message: String, date: String) -> (r: (String, String, String))
    ensures
        r.0@ == sender@,
        r.1@ == message@,
        r.2@ == date@,
{
    (sender, message, date)
}

/// The row to store for a message once the session token has been looked up:
/// the sender that the token belongs to, the message and the time now; where
/// no user has the token (`None`), the 200 reply `{"error": "fail"}` instead.
pub fn send_row(sender: Option<String>, message: String) -> (r: Result<(String, String, String), Reply>)
    ensures
        sender matches Some(user) ==> (r matches Ok(row) && row.0@ == user@ && row.1@ == message@
            && is_utc_datetime_text(row.2@)),
        sender is None ==> (r matches Err(reply) && reply@ == (
            HttpStatus::Success,
            BodyView::Fields(error_fields("fail"@)),
        )),
{
    match sender {
        Some(user) => Ok(send_row_dated(user, message, DATE::THIS_DATE.date())),
        None => Err(error_reply(HttpStatus::Success, "fail")),
    }
}

/// The answer to a send once storing its row succeeded (`{"error": "no"}`) or
/// failed (`{"error": "fail"}`); both with status 200.
pub fn send_store(stored: Result<(), String>) -> (r: Reply)
    ensures
        stored is Ok ==> r@ == (HttpStatus::Success, BodyView::Fields(error_fields("no"@))),
        stored is Err ==> r@ == (HttpStatus::Success, BodyView::Fields(error_fields("fail"@))),
{
    match stored {
        Ok(()) => error_reply(HttpStatus::Success, "no"),
        Err(_) => error_reply(HttpStatus::Success, "fail"),
    }
}

/// Where a login stands between two lookups in the user store.
pub enum LoginStage {
    /// Waiting for the number of users with the name.
    AwaitingUserCount { username: String, password: String },
    /// Waiting for the stored password hash of the user.
    AwaitingPasswordHash { username: String, password: String },
    /// Waiting for the session token and the creation date of the user.
    AwaitingSessionToken { username: String },
    /// The login has been answered.
    Finished,
}

/// What a lookup in the user store gave; `None` where the lookup failed. The
/// last lookup gives the user's session token and creation date, as text.
pub enum LoginEvent {
    UserCount(Option<i64>),
    PasswordHash(Option<Option<String>>),
    SessionToken(Option<(String, String)>),
}

/// What to do next for a login.
pub enum LoginAction {
    /// Count the users with this name.
    CountUsers(String),
    /// Fetch the stored password hash of this user, if there is one.
    FetchPasswordHash(String),
    /// Fetch the session token and the creation date of this user.
    FetchSessionToken(String),
    /// Answer the request.
    Respond(Reply),
}

/// The body of every refused login after the credentials were read.
pub open spec fn login_failure_fields() -> Map<Seq<char>, Seq<char>> {
    Map::empty().insert("error"@, "NO"@).insert("status"@, "FAIL"@).insert("token"@, "no"@).insert(
        "username"@,
        "no"@,
    ).insert("date"@, "no"@)
}

/// The body of a login that succeeded.
pub open spec fn login_success_fields(token: Seq<char>, username: Seq<char>, date: Seq<char>) -> Map<
    Seq<char>,
    Seq<char>,
> {
    Map::empty().insert("error"@, "NO"@).insert("status"@, "OK"@).insert("token"@, token).insert(
        "username"@,
        username,
    ).insert("date"@, date)
}

/// The action answers with the 400 login failure.
pub open spec fn responds_failure(action: LoginAction) -> bool {
    action matches LoginAction::Respond(reply) && reply@ == (
        HttpStatus::BadRequest,
        BodyView::Fields(login_failure_fields()),
    )
}

/// The action answers with a 200 reply with an empty text body.
pub open spec fn responds_empty(action: LoginAction) -> bool {
    action matches LoginAction::Respond(reply) && reply@ == (HttpStatus::Success, BodyView::Text(
        Seq::empty(),
    ))
}

/// The event is the answer to the lookup that the stage waits for.
pub open spec fn event_fits(stage: LoginStage, event: LoginEvent) -> bool {
    match stage {
        LoginStage::AwaitingUserCount { .. } => event is UserCount,
        LoginStage::AwaitingPasswordHash { .. } => event is PasswordHash,
        LoginStage::AwaitingSessionToken { .. } => event is SessionToken,
        LoginStage::Finished => false,
    }
}

/// How a login goes on from a stage on the answer to its lookup:
/// - the user count: one user, fetch the hash; none or a failed lookup, the
///   failure; any other count, an empty 200 reply;
/// - the hash: a hash that the password verifies against, fetch the token;
///   no stored hash, an empty 200 reply; a failed lookup or a password that does
///   not verify, the failure;
/// - the token: the success body with the token, the requested username and the
///   user's creation date; a failed lookup, the failure.
pub open spec fn login_transition(
    stage: LoginStage,
    event: LoginEvent,
    next: LoginStage,
    action: LoginAction,
) -> bool {
    match stage {
        LoginStage::AwaitingUserCount { username, password } => match event {
            LoginEvent::UserCount(Some(count)) => if count == 1 {
                &&& next matches LoginStage::AwaitingPasswordHash { username: u, password: p }
                    && u@ == username@ && p@ == password@
                &&& action matches LoginAction::FetchPasswordHash(name) && name@ == username@
            } else if count == 0 {
                next is Finished && responds_failure(action)
            } else {
                next is Finished && responds_empty(action)
            },
            _ => next is Finished && responds_failure(action),
        },
        LoginStage::AwaitingPasswordHash { username, password } => match event {
            LoginEvent::PasswordHash(Some(Some(hash))) => if password_accepted(
                password@,
                hash@,
            ) {
                &&& next matches LoginStage::AwaitingSessionToken { username: u } && u@
                    == username@
                &&& action matches LoginAction::FetchSessionToken(name) && name@ == username@
            } else {
                next is Finished && responds_failure(action)
            },
            LoginEvent::PasswordHash(Some(None)) => next is Finished && responds_empty(action),
            _ => next is Finished && responds_failure(action),
        },
        LoginStage::AwaitingSessionToken { username } => match event {
            LoginEvent::SessionToken(Some((token, created))) => {
                &&& next is Finished
                &&& action matches LoginAction::Respond(reply) && reply@ == (
                    HttpStatus::Success,
                    BodyView::Fields(login_success_fields(token@, username@, created@)),
                )
            },
            _ => next is Finished && responds_failure(action),
        },
        LoginStage::Finished => false,
    }
}

/// The 400 reply to a login that failed after its credentials were read.
fn login_failure_reply() -> (r: Reply)
    ensures
        r@ == (HttpStatus::BadRequest, BodyView::Fields(login_failure_fields())),
{
    let mut fields = JsonObject::new();
    fields.insert(String::from_str("error"), String::from_str("NO"));
    fields.insert(String::from_str("status"), String::from_str("FAIL"));
    fields.insert(String::from_str("token"), String::from_str("no"));
    fields.insert(String::from_str("username"), String::from_str("no"));
    fields.insert(String::from_str("date"), String::from_str("no"));
    Reply { status: HttpStatus::BadRequest, body: ReplyBody::Fields(fields) }
}

/// An empty 200 reply.
fn empty_reply() -> (r: Reply)
    ensures
        r@ == (HttpStatus::Success, BodyView::Text(Seq::empty())),
{
    Reply { status: HttpStatus::Success, body: ReplyBody::Text(String::new()) }
}

/// The first step of a login: refused credentials are answered at once; else
/// the login goes on with counting the users of that name.
pub fn login_begin(username: String, password: String) -> (r: (LoginStage, LoginAction))
    ensures
        login_refusal(username@, password@) matches Some(text) ==> {
            &&& r.0 is Finished
            &&& r.1 matches LoginAction::Respond(reply) && reply@ == (
                HttpStatus::BadRequest,
                BodyView::Fields(error_fields(text)),
            )
        },
        login_refusal(username@, password@) is None ==> {
            &&& r.0 matches LoginStage::AwaitingUserCount { username: u, password: p }
                && u@ == username@ && p@ == password@
            &&& r.1 matches LoginAction::CountUsers(name) && name@ == username@
        },
{
    let (empty, too_long) = credentials_shape(&username, &password);
    if empty {
        return (
            LoginStage::Finished,
            LoginAction::Respond(error_reply(HttpStatus::BadRequest, "username or password empty")),
        );
    }
    if too_long {
        return (
            LoginStage::Finished,
            LoginAction::Respond(
                error_reply(HttpStatus::BadRequest, "incorrect username or password"),
            ),
        );
    }
    let name = username.clone();
    (LoginStage::AwaitingUserCount { username, password }, LoginAction::CountUsers(name))
}

/// The next step of a login, on the answer to the lookup it waited for.
pub fn login_step(stage: LoginStage, event: LoginEvent) -> (r: (LoginStage, LoginAction))
    requires
        event_fits(stage, event),
    ensures
        login_transition(stage, event, r.0, r.1),
{
    match stage {
        LoginStage::AwaitingUserCount { username, password } => match event {
            LoginEvent::UserCount(Some(count)) => {
                if count == 1 {
                    let name = username.clone();
                    (
                        LoginStage::AwaitingPasswordHash { username, password },
                        LoginAction::FetchPasswordHash(name),
                    )
                } else if count == 0 {
                    (LoginStage::Finished, LoginAction::Respond(login_failure_reply()))
                } else {
                    (LoginStage::Finished, LoginAction::Respond(empty_reply()))
                }
            },
            _ => (LoginStage::Finished, LoginAction::Respond(login_failure_reply())),
        },
        LoginStage::AwaitingPasswordHash { username, password } => match event {
            LoginEvent::PasswordHash(Some(Some(hash))) => {
                if password_check(&password, &hash) {
                    let name = username.clone();
                    (
                        LoginStage::AwaitingSessionToken { username },
                        LoginAction::FetchSessionToken(name),
                    )
                } else {
                    (LoginStage::Finished, LoginAction::Respond(login_failure_reply()))
                }
            },
            LoginEvent::PasswordHash(Some(None)) => (
                LoginStage::Finished,
                LoginAction::Respond(empty_reply()),
            ),
            _ => (LoginStage::Finished, LoginAction::Respond(login_failure_reply())),
        },
        LoginStage::AwaitingSessionToken { username } => match event {
            LoginEvent::SessionToken(Some((token, created))) => {
                let mut fields = JsonObject::new();
                fields.insert(String::from_str("error"), String::from_str("NO"));
                fields.insert(String::from_str("status"), String::from_str("OK"));
                fields.insert(String::from_str("token"), token);
                fields.insert(String::from_str("username"), username);
                fields.insert(String::from_str("date"), created);
                (
                    LoginStage::Finished,
                    LoginAction::Respond(
                        Reply { status: HttpStatus::Success, body: ReplyBody::Fields(fields) },
                    ),
                )
            },
            _ => (LoginStage::Finished, LoginAction::Respond(login_failure_reply())),
        },
        LoginStage::Finished => (LoginStage::Finished, LoginAction::Respond(login_failure_reply())),
    }
}

/// Sign-up refuses credentials by their size in UTF-8 bytes, as `str::len`
/// counts them: an empty username or password with "username or password
/// empty"; else a username of more than 50 bytes or a password of more than 30
/// bytes with "to long username or password"; it takes all the others.
pub proof fn lemma_signin_refuses_by_byte_length(username: Seq<char>, password: Seq<char>)
    ensures
        username.len() == 0 || password.len() == 0 ==> signin_refusal(username, password)
            == Some("username or password empty"@),
        username.len() > 0 && password.len() > 0 && (encode_utf8(username).len() > 50
            || encode_utf8(password).len() > 30) ==> signin_refusal(username, password) == Some(
            "to long username or password"@,
        ),
        username.len() > 0 && password.len() > 0 && encode_utf8(username).len() <= 50
            && encode_utf8(password).len() <= 30 ==> signin_refusal(username, password) is None,
{
}

/// Login refuses credentials by their size in UTF-8 bytes: an empty username
/// or password with "username or password empty"; else a username of more than
/// 50 bytes or a password of more than 30 bytes with "incorrect username or
/// password"; it goes on with all the others.
pub proof fn lemma_login_refuses_by_byte_length(username: Seq<char>, password: Seq<char>)
    ensures
        username.len() == 0 || password.len() == 0 ==> login_refusal(username, password) == Some(
            "username or password empty"@,
        ),
        username.len() > 0 && password.len() > 0 && (encode_utf8(username).len() > 50
            || encode_utf8(password).len() > 30) ==> login_refusal(username, password) == Some(
            "incorrect username or password"@,
        ),
        username.len() > 0 && password.len() > 0 && encode_utf8(username).len() <= 50
            && encode_utf8(password).len() <= 30 ==> login_refusal(username, password) is None,
{
}

/// A password of at most 30 characters can still be too long: one character
/// may take up to four bytes. Such a password, with a username that fits, is
/// refused by sign-up exactly when its bytes pass 30, whatever its number of
/// characters.
pub proof fn lemma_password_limit_counts_bytes_not_chars(username: Seq<char>, password: Seq<char>)
    requires
        username.len() > 0,
        encode_utf8(username).len() <= 50,
        0 < password.len() <= 30,
    ensures
        signin_refusal(username, password) is Some <==> encode_utf8(password).len() > 30,
        login_refusal(username, password) is Some <==> encode_utf8(password).len() > 30,
{
}

/// Sign-up and login refuse the same credentials: empty ones with the same
/// text, too long ones (each with its own text); both take all the others.
pub proof fn lemma_signin_and_login_refuse_alike(username: Seq<char>, password: Seq<char>)
    ensures
        signin_refusal(username, password) is None <==> login_refusal(username, password) is None,
        credentials_empty(username, password) ==> signin_refusal(username, password)
            == login_refusal(username, password),
{
}

/// A login answers 200 with fields only when it has the session token: the
/// step that gives such an answer starts from the stage that waits for the
/// token, on what the lookup found, and the answer carries that token and the
/// user's creation date, so two logins on the same stored user answer alike.
pub proof fn lemma_login_success_carries_fetched_token(
    stage: LoginStage,
    event: LoginEvent,
    next: LoginStage,
    action: LoginAction,
)
    requires
        login_transition(stage, event, next, action),
        action matches LoginAction::Respond(reply) && reply.status == HttpStatus::Success
            && reply@.1 is Fields,
    ensures
        stage is AwaitingSessionToken,
        event matches LoginEvent::SessionToken(Some((token, created))) && action matches LoginAction::Respond(
            reply,
        ) && reply@.1 == BodyView::Fields(
            login_success_fields(token@, stage->AwaitingSessionToken_username@, created@),
        ),
{
}

/// The answer to a login depends on the stored user alone: two logins of the
/// same name that fetch the same session token and creation date answer the
/// same, whenever they run.
pub proof fn lemma_login_answer_depends_on_stored_user(
    stage1: LoginStage,
    event1: LoginEvent,
    next1: LoginStage,
    action1: LoginAction,
    stage2: LoginStage,
    event2: LoginEvent,
    next2: LoginStage,
    action2: LoginAction,
)
    requires
        login_transition(stage1, event1, next1, action1),
        login_transition(stage2, event2, next2, action2),
        stage1 is AwaitingSessionToken,
        stage2 is AwaitingSessionToken,
        stage1->AwaitingSessionToken_username@ == stage2->AwaitingSessionToken_username@,
        event1 matches LoginEvent::SessionToken(Some((token1, created1))) && event2 matches LoginEvent::SessionToken(
            Some((token2, created2)),
        ) && token1@ == token2@ && created1@ == created2@,
    ensures
        action1 matches LoginAction::Respond(reply1) && action2 matches LoginAction::Respond(reply2)
            && reply1@ == reply2@,
{
}

/// The session token is fetched only for a password that verifies against the
/// stored hash.
pub proof fn lemma_token_fetched_only_for_verified_password(
    stage: LoginStage,
    event: LoginEvent,
    next: LoginStage,
    action: LoginAction,
)
    requires
        login_transition(stage, event, next, action),
        next is AwaitingSessionToken,
    ensures
        stage matches LoginStage::AwaitingPasswordHash { password, .. } && event matches LoginEvent::PasswordHash(
            Some(Some(hash)),
        ) && password_accepted(password@, hash@),
{
}

/// What one signs up with lets one log in: with the hash that sign-up stored
/// for a password (`signin_prepare` gives one that `password_accepted` holds of),
/// a login with that password goes on to fetch the session token.
pub proof fn lemma_signed_up_password_passes_login(
    stage: LoginStage,
    event: LoginEvent,
    next: LoginStage,
    action: LoginAction,
)
    requires
        login_transition(stage, event, next, action),
        stage matches LoginStage::AwaitingPasswordHash { password, .. } && event matches LoginEvent::PasswordHash(
            Some(Some(hash)),
        ) && password_accepted(password@, hash@),
    ensures
        next is AwaitingSessionToken,
        action matches LoginAction::FetchSessionToken(name) && name@
            == stage->AwaitingPasswordHash_username@,
{
}

} // verus!
