use vstd::prelude::*;

use crate::reply::{message_view, messages_view};

verus! {

/// A signed-in user as the chat client knows it.
pub struct user {
    token: String,
    username: String,
    date: String,
}

/// The fields of a login answer: `error`, `status` (`"OK"` on success),
/// `token`, `username` and `date`.
pub struct got_info {
    pub error: String,
    pub status: String,
    pub token: String,
    pub username: String,
    pub date: String,
}

/// The texts of a login answer, in the order `error`, `status`, `token`,
/// `username`, `date`.
pub open spec fn info_view(info: got_info) -> (Seq<char>, Seq<char>, Seq<char>, Seq<char>, Seq<char>) {
    (info.error@, info.status@, info.token@, info.username@, info.date@)
}

/// What the client makes of a failed login: error `"error"`, status `"FAIL"`,
/// the other fields empty.
pub open spec fn login_failure_view() -> (Seq<char>, Seq<char>, Seq<char>, Seq<char>, Seq<char>) {
    ("error"@, "FAIL"@, Seq::empty(), Seq::empty(), Seq::empty())
}

impl got_info {
    /// A login answer whose fields are all empty.
    pub fn new() -> (r: Self)
        ensures
            info_view(r) == (
                Seq::<char>::empty(),
                Seq::<char>::empty(),
                Seq::<char>::empty(),
                Seq::<char>::empty(),
                Seq::<char>::empty(),
            ),
    {
        Self {
            error: String::new(),
            status: String::new(),
            token: String::new(),
            username: String::new(),
            date: String::new(),
        }
    }

    /// A login answer with the given fields.
    pub fn user_status(err: String, status: String, token: String, username: String, date: String) -> (r:
        Self)
        ensures
            info_view(r) == (err@, status@, token@, username@, date@),
    {
        Self { error: err, status: status, token: token, username: username, date: date }
    }
}

/// What the client makes of the server's answer to a login: the answer as it
/// came when its status is `"OK"`; the failure record when its status is another
/// one, or when no answer could be read (`None`).
pub fn login_outcome(answer: Option<got_info>) -> (r: got_info)
    ensures
        info_view(r) == match answer {
            Some(got) => if got.status@ == "OK"@ {
                info_view(got)
            } else {
                login_failure_view()
            },
            None => login_failure_view(),
        },
{
    let failure = got_info::user_status(
        String::from_str("error"),
        String::from_str("FAIL"),
        String::new(),
        String::new(),
        String::new(),
    );
    match answer {
        Some(got) => {
            if got.status == String::from_str("OK") {
                got_info::user_status(got.error, got.status, got.token, got.username, got.date)
            } else {
                failure
            }
        },
        None => failure,
    }
}

/// The server's answer to a sent message.
pub struct send_status {
    pub error: String,
}

/// Whether a message was taken: the server answered with error `"no"`.
/// `None` stands for no answer, or one that could not be read.
pub fn send_outcome(answer: Option<send_status>) -> (r: bool)
    ensures
        r <==> (answer matches Some(info) && info.error@ == "no"@),
{
    match answer {
        Some(info) => info.error == String::from_str("no"),
        None => false,
    }
}

/// One message of the list that a pull answers with.
pub struct MessageEntry {
    pub date: String,
    pub from_user: String,
    pub message: String,
}

/// The messages of a pull, as `(sender, text, date)`, in the order received.
pub fn pull_entries(entries: Vec<MessageEntry>) -> (r: Vec<(String, String, String)>)
    ensures
        r@.len() == entries@.len(),
        forall|i: int|
            0 <= i < entries@.len() ==> #[trigger] messages_view(r@)[i] == (
                entries@[i].from_user@,
                entries@[i].message@,
                entries@[i].date@,
            ),
{
    let n = entries.len();
    let mut out: Vec<(String, String, String)> = Vec::new();
    let mut i: usize = 0;
    while i < n
        invariant
            n == entries@.len(),
            i <= n,
            out@.len() == i,
            forall|k: int|
                0 <= k < i ==> message_view(#[trigger] out@[k]) == (
                    entries@[k].from_user@,
                    entries@[k].message@,
                    entries@[k].date@,
                ),
        decreases n - i,
    {
        let entry = &entries[i];
        out.push((entry.from_user.clone(), entry.message.clone(), entry.date.clone()));
        i += 1;
    }
    assert forall|k: int| 0 <= k < n implies #[trigger] messages_view(out@)[k] == (
        entries@[k].from_user@,
        entries@[k].message@,
        entries@[k].date@,
    ) by {
        assert(message_view(out@[k]) == messages_view(out@)[k]);
    }
    out
}

/// The address of the chat server.
pub const ENTRY: &'static str = "https://zapo.up.railway.app/";

/// The address of an endpoint of the chat server: `ENTRY` followed by the path.
pub fn api_url(path: &str) -> (r: String)
    ensures
        r@ == ENTRY@ + path@,
{
    String::from_str(ENTRY).concat(path)
}

/// The client lets a login through exactly when the server's answer says
/// `"OK"`: what `login_outcome` gives has status `"OK"` only then, and then it
/// is the server's answer unchanged.
pub proof fn lemma_login_outcome_ok_iff_server_ok(answer: Option<got_info>, outcome: got_info)
    requires
        info_view(outcome) == match answer {
            Some(got) => if got.status@ == "OK"@ {
                info_view(got)
            } else {
                login_failure_view()
            },
            None => login_failure_view(),
        },
    ensures
        outcome.status@ == "OK"@ <==> (answer matches Some(got) && got.status@ == "OK"@),
{
    reveal_strlit("OK");
    reveal_strlit("FAIL");
    assert("OK"@.len() == 2 && "FAIL"@.len() == 4);
}

} // verus!
