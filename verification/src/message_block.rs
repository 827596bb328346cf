use vstd::prelude::*;

use crate::reply::{message_view, messages_view};

verus! {

/// The messages that a pull hands out: only the first (newest) one when the
/// latest is wanted, else all of them, in order.
pub open spec fn pulled(
    messages: Seq<(Seq<char>, Seq<char>, Seq<char>)>,
    want_latest: bool,
) -> Seq<(Seq<char>, Seq<char>, Seq<char>)> {
    if want_latest && messages.len() > 1 {
        messages.take(1)
    } else {
        messages
    }
}

/// A copy of a message with the same texts.
pub fn copy_message(m: &(String, String, String)) -> (r: (String, String, String))
    ensures
        message_view(r) == message_view(*m),
{
    (m.0.clone(), m.1.clone(), m.2.clone())
}

/// The chat messages that the server keeps in memory, newest first:
/// `(sender, text, date)` each.
pub struct block_mess {
    block: Vec<(String, String, String)>,
}

impl View for block_mess {
    type V = Seq<(Seq<char>, Seq<char>, Seq<char>)>;

    closed spec fn view(&self) -> Seq<(Seq<char>, Seq<char>, Seq<char>)> {
        messages_view(self.block@)
    }
}

impl block_mess {
    /// A block that holds one placeholder message `(".", ".", ".")`.
    pub fn new() -> (r: Self)
        ensures
            r@ == seq![("."@, "."@, "."@)],
    {
        let mut block = Vec::new();
        block.push((String::from_str("."), String::from_str("."), String::from_str(".")));
        let r = block_mess { block };
        assert(r@ =~= seq![("."@, "."@, "."@)]);
        r
    }

    /// Adds a message after all the others (as loading the stored history does).
    pub fn append(&mut self, message: (String, String, String))
        ensures
            final(self)@ == old(self)@.push(message_view(message)),
    {
        self.block.push(message);
        assert(self@ =~= old(self)@.push(message_view(message)));
    }

    /// Adds the messages after all the others, in their order (as loading the
    /// stored history, newest first, does).
    pub fn append_all(&mut self, rows: Vec<(String, String, String)>)
        ensures
            final(self)@ == old(self)@ + messages_view(rows@),
    {
        let mut rows = rows;
        let ghost added = rows@;
        self.block.append(&mut rows);
        assert(self@ =~= old(self)@ + messages_view(added));
    }

    /// Adds a message before all the others: it becomes the newest.
    pub fn insert_newest(&mut self, message: (String, String, String))
        ensures
            final(self)@ == seq![message_view(message)] + old(self)@,
    {
        self.block.insert(0, message);
        assert(self@ =~= seq![message_view(message)] + old(self)@);
    }

    /// Copies of the messages that a pull hands out (see `pulled`).
    pub fn pull(&self, want_latest: bool) -> (r: Vec<(String, String, String)>)
        ensures
            messages_view(r@) == pulled(self@, want_latest),
    {
        let n = self.block.len();
        let limit = if want_latest && n > 1 {
            1
        } else {
            n
        };
        let mut out: Vec<(String, String, String)> = Vec::new();
        let mut i: usize = 0;
        while i < limit
            invariant
                n == self.block@.len(),
                limit <= n,
                i <= limit,
                messages_view(out@) =~= messages_view(self.block@).take(i as int),
            decreases limit - i,
        {
            let ghost prev = out@;
            out.push(copy_message(&self.block[i]));
            assert(messages_view(out@) =~= messages_view(prev).push(
                messages_view(self.block@)[i as int],
            ));
            i += 1;
        }
        assert(messages_view(self.block@).take(n as int) =~= messages_view(self.block@));
        out
    }

    /// Removes the first `n` messages (the newest ones) and returns them, in order.
    pub fn take_front(&mut self, n: usize) -> (r: Vec<(String, String, String)>)
        requires
            n <= old(self)@.len(),
        ensures
            messages_view(r@) == old(self)@.take(n as int),
            final(self)@ == old(self)@.skip(n as int),
    {
        let mut front = self.block.split_off(n);
        std::mem::swap(&mut front, &mut self.block);
        assert(messages_view(front@) =~= old(self)@.take(n as int));
        assert(self@ =~= old(self)@.skip(n as int));
        front
    }

    /// The number of messages.
    pub fn len(&self) -> (r: usize)
        ensures
            r == self@.len(),
    {
        self.block.len()
    }

    /// The messages themselves, in order.
    pub fn messages(&self) -> (r: &Vec<(String, String, String)>)
        ensures
            messages_view(r@) == self@,
    {
        &self.block
    }
}

/// A message put before all the others is what the next pull of the latest
/// message gives back; a pull of all messages gives it first, then the
/// messages that were there.
pub proof fn lemma_sent_message_is_pulled(
    before: Seq<(Seq<char>, Seq<char>, Seq<char>)>,
    message: (Seq<char>, Seq<char>, Seq<char>),
)
    ensures
        pulled(seq![message] + before, true) == seq![message],
        pulled(seq![message] + before, false) == seq![message] + before,
{
    assert((seq![message] + before).take(1) =~= seq![message]);
}

/// A pull of the latest message gives the first message that a pull of all
/// gives, and nothing else; it gives nothing only when there are no messages.
pub proof fn lemma_latest_pull_is_first_of_all(messages: Seq<(Seq<char>, Seq<char>, Seq<char>)>)
    ensures
        messages.len() == 0 ==> pulled(messages, true).len() == 0,
        messages.len() > 0 ==> pulled(messages, true) == seq![pulled(messages, false)[0]],
{
    if messages.len() > 0 {
        assert(pulled(messages, true) =~= seq![messages[0]]);
    }
}

/// Taking messages off the front loses none: the messages taken, followed by
/// those left, are the messages there were.
pub proof fn lemma_take_front_keeps_all(messages: Seq<(Seq<char>, Seq<char>, Seq<char>)>, n: int)
    requires
        0 <= n <= messages.len(),
    ensures
        messages.take(n) + messages.skip(n) == messages,
{
    assert(messages.take(n) + messages.skip(n) =~= messages);
}

} // verus!
