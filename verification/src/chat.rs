use vstd::prelude::*;

use crate::client::got_info;
use crate::message_block::copy_message;
use crate::reply::{message_view, messages_view};
use vstd::string::StringSliceAdditionalSpecFns;
use vstd::utf8::{decode_utf8, encode_utf8, is_char_boundary, valid_utf8};

verus! {

broadcast use {
    vstd::utf8::encode_utf8_decode_utf8,
    vstd::utf8::encode_utf8_valid_utf8,
    vstd::utf8::is_char_boundary_start_end_of_seq,
};

/// The bytes of a text from `start` to `end`, read back as text.
pub open spec fn byte_slice(s: Seq<char>, start: int, end: int) -> Seq<char> {
    decode_utf8(encode_utf8(s).subrange(start, end))
}

/// `start..end` is a byte range of the text that slicing accepts: in bounds
/// and on character boundaries.
pub open spec fn sliceable(s: Seq<char>, start: int, end: int) -> bool {
    &&& 0 <= start <= end <= encode_utf8(s).len()
    &&& is_char_boundary(encode_utf8(s), start)
    &&& is_char_boundary(encode_utf8(s), end)
}

/// A piece of a text given by a byte range: `&s[start..end]`.
fn slice_bytes(s: &str, start: usize, end: usize) -> (r: String)
    requires
        sliceable(s@, start as int, end as int),
    ensures
        r@ == byte_slice(s@, start as int, end as int),
{
    let ghost b = encode_utf8(s@);
    let (_, tail) = s.split_at(start);
    proof {
        vstd::utf8::valid_utf8_split(b, start as int);
        lemma_boundary_in_tail(b, start as int, end as int);
    }
    let (piece, _) = tail.split_at(end - start);
    assert(piece.spec_bytes() =~= b.subrange(start as int, end as int));
    String::from_str(piece)
}

/// A boundary of a valid UTF-8 text lies, shifted, in the part that a split at
/// an earlier boundary leaves on the right.
proof fn lemma_boundary_in_tail(b: Seq<u8>, start: int, end: int)
    requires
        valid_utf8(b),
        0 <= start <= end <= b.len(),
        is_char_boundary(b, start),
        is_char_boundary(b, end),
    ensures
        valid_utf8(b.subrange(start, b.len() as int)),
        is_char_boundary(b.subrange(start, b.len() as int), end - start),
{
    let tail = b.subrange(start, b.len() as int);
    vstd::utf8::valid_utf8_split(b, start);
    if end < b.len() {
        vstd::utf8::is_char_boundary_iff_not_is_continuation_byte(b, end);
        vstd::utf8::is_char_boundary_iff_not_is_continuation_byte(tail, end - start);
        assert(tail[end - start] == b[end]);
    } else {
        assert(end - start == tail.len());
    }
}

/// The short form of a session token that the chat shows in the profile: its
/// first four bytes, `...`, and the three bytes that start two before the number
/// of entries of the user record (`user` holds name, token and date).
pub open spec fn preview_text(token: Seq<char>, rows: int) -> Seq<char> {
    byte_slice(token, 0, 4) + "..."@ + byte_slice(token, rows - 2, rows + 1)
}

/// The token preview of the chat's profile box, for the user record
/// `[username, token, date]`. Slicing panics out of the token's bytes or off
/// a character boundary; `requires` leaves those records out.
pub fn token_preview(user: &Vec<String>) -> (r: String)
    requires
        user@.len() >= 2,
        sliceable(user@[1]@, 0, 4),
        sliceable(user@[1]@, user@.len() - 2, (user@.len() + 1) as int),
    ensures
        r@ == preview_text(user@[1]@, user@.len() as int),
{
    let token = user[1].as_str();
    let rows = user.len();
    let byte_count = token.as_bytes().len();
    assert(rows + 1 <= byte_count);
    let head = slice_bytes(token, 0, 4);
    let tail = slice_bytes(token, rows - 2, rows + 1);
    head.concat("...").concat(tail.as_str())
}

/// The user record that the chat is opened with: name, token, and the first
/// eleven bytes of the date.
pub fn chat_user(info: &got_info) -> (r: Vec<String>)
    requires
        sliceable(info.date@, 0, 11),
    ensures
        r@.len() == 3,
        r@[0]@ == info.username@,
        r@[1]@ == info.token@,
        r@[2]@ == byte_slice(info.date@, 0, 11),
{
    let mut user: Vec<String> = Vec::new();
    user.push(info.username.clone());
    user.push(info.token.clone());
    user.push(slice_bytes(info.date.as_str(), 0, 11));
    user
}

/// Whether a login answer lets the user into the chat: its status is `"OK"`.
pub fn accept_login(got: &got_info) -> (r: bool)
    ensures
        r <==> got.status@ == "OK"@,
{
    got.status == String::from_str("OK")
}

/// Two messages with the same texts.
fn same_message(a: &(String, String, String), b: &(String, String, String)) -> (r: bool)
    ensures
        r <==> message_view(*a) == message_view(*b),
{
    a.0 == b.0 && a.1 == b.1 && a.2 == b.2
}

/// The messages that the chat shows, newest first, and the newest message it
/// has seen on the server.
pub struct ChatFeed {
    latest_block: (String, String, String),
    messages: Vec<(String, String, String)>,
}

impl View for ChatFeed {
    type V = ((Seq<char>, Seq<char>, Seq<char>), Seq<(Seq<char>, Seq<char>, Seq<char>)>);

    closed spec fn view(&self) -> (
        (Seq<char>, Seq<char>, Seq<char>),
        Seq<(Seq<char>, Seq<char>, Seq<char>)>,
    ) {
        (message_view(self.latest_block), messages_view(self.messages@))
    }
}

impl ChatFeed {
    /// A feed showing the messages of a first pull, having seen `latest_block`.
    pub fn new(messages: Vec<(String, String, String)>, latest_block: (String, String, String)) -> (r:
        ChatFeed)
        ensures
            r@ == (message_view(latest_block), messages_view(messages@)),
    {
        ChatFeed { latest_block, messages }
    }

    /// One round of polling: `latest` is the newest message on the server and
    /// `newest` the first message of a full pull (`None` when that pull is
    /// empty). When `latest` differs from the message seen last and the full
    /// pull is not empty, `latest` is shown first and the first message of the
    /// full pull becomes the one seen; otherwise nothing changes.
    pub fn observe(
        &mut self,
        latest: (String, String, String),
        newest: Option<(String, String, String)>,
    )
        ensures
            message_view(latest) != old(self)@.0 && newest is Some ==> final(self)@ == (
                message_view(newest->0),
                seq![message_view(latest)] + old(self)@.1,
            ),
            !(message_view(latest) != old(self)@.0 && newest is Some) ==> final(self)@ == old(
                self,
            )@,
    {
        if !same_message(&self.latest_block, &latest) {
            if let Some(first) = newest {
                self.latest_block = first;
                self.messages.insert(0, latest);
                assert(messages_view(self.messages@) =~= seq![message_view(latest)]
                    + old(self)@.1);
            }
        }
    }

    /// Whether a message differs from the one seen last, so that a poll that
    /// finds it has news.
    pub fn is_new(&self, latest: &(String, String, String)) -> (r: bool)
        ensures
            r <==> message_view(*latest) != self@.0,
    {
        !same_message(&self.latest_block, latest)
    }

    /// The message seen last.
    pub fn latest_block(&self) -> (r: (String, String, String))
        ensures
            message_view(r) == self@.0,
    {
        copy_message(&self.latest_block)
    }

    /// The messages shown, newest first.
    pub fn messages(&self) -> (r: &Vec<(String, String, String)>)
        ensures
            messages_view(r@) == self@.1,
    {
        &self.messages
    }
}

} // verus!
