use vstd::prelude::*;

use crate::json_object::JsonObject;

verus! {

/// The HTTP status codes that the service answers with.
#[derive(Clone, Copy, Debug, PartialEq, Eq, Structural)]
pub enum HttpStatus {
    /// 200 OK
    Success,
    /// 201
    Created,
    /// 400
    BadRequest,
    /// 409
    Conflict,
    /// 500
    InternalServerError,
}

/// A chat message as the service keeps it: sender, text, date.
pub open spec fn message_view(m: (String, String, String)) -> (Seq<char>, Seq<char>, Seq<char>) {
    (m.0@, m.1@, m.2@)
}

/// The messages of a sequence, each by its view.
pub open spec fn messages_view(ms: Seq<(String, String, String)>) -> Seq<
    (Seq<char>, Seq<char>, Seq<char>),
> {
    ms.map_values(|m: (String, String, String)| message_view(m))
}

/// The body of a reply.
pub enum ReplyBody {
    /// A plain text body.
    Text(String),
    /// A JSON object of string fields.
    Fields(JsonObject),
    /// The JSON object `{"Data_base_message": [...]}` whose list holds one
    /// object `{"from_user", "message", "date"}` per message, in order.
    Messages(Vec<(String, String, String)>),
}

/// What a reply body holds.
pub enum BodyView {
    Text(Seq<char>),
    Fields(Map<Seq<char>, Seq<char>>),
    Messages(Seq<(Seq<char>, Seq<char>, Seq<char>)>),
}

impl View for ReplyBody {
    type V = BodyView;

    open spec fn view(&self) -> BodyView {
        match self {
            ReplyBody::Text(t) => BodyView::Text(t@),
            ReplyBody::Fields(f) => BodyView::Fields(f@),
            ReplyBody::Messages(ms) => BodyView::Messages(messages_view(ms@)),
        }
    }
}

/// An HTTP reply: a status and a body.
pub struct Reply {
    pub status: HttpStatus,
    pub body: ReplyBody,
}

impl View for Reply {
    type V = (HttpStatus, BodyView);

    open spec fn view(&self) -> (HttpStatus, BodyView) {
        (self.status, self.body@)
    }
}

/// The fields `{"error": text}`.
pub open spec fn error_fields(text: Seq<char>) -> Map<Seq<char>, Seq<char>> {
    Map::empty().insert("error"@, text)
}

/// A reply whose body is `{"error": text}`.
pub fn error_reply(status: HttpStatus, text: &str) -> (r: Reply)
    ensures
        r@ == (status, BodyView::Fields(error_fields(text@))),
{
    let mut fields = JsonObject::new();
    fields.insert(String::from_str("error"), String::from_str(text));
    Reply { status, body: ReplyBody::Fields(fields) }
}

} // verus!
