use vstd::prelude::*;

use crate::json_object::JsonObject;

verus! {

/// Why a request could not be served, as reported in the `CAUSE` field of a reply.
#[derive(Clone, Copy, Debug, PartialEq, Eq, Structural)]
pub enum CAUSE {
    CANNOT_PERFORME,
    BAD_REQUEST,
    WRONG_INFO,
    NONE,
}

/// Whether a reply names an emitted field.
#[derive(Clone, Copy, Debug, PartialEq, Eq, Structural)]
pub enum EMITTER {
    EMITE,
    NONE,
}

/// Outcome of a request, as reported in the `STATUS` field of a reply.
#[derive(Clone, Copy, Debug, PartialEq, Eq, Structural)]
pub enum STATUS {
    OK,
    FAIL,
}

/// The moment at which a reply is made.
#[derive(Clone, Copy, Debug, PartialEq, Eq, Structural)]
pub enum DATE {
    THIS_DATE,
}

/// The text that stands for a status in a reply.
pub open spec fn status_text(s: STATUS) -> Seq<char> {
    match s {
        STATUS::OK => "OK"@,
        STATUS::FAIL => "FAIL"@,
    }
}

/// The text that stands for a cause in a reply.
pub open spec fn cause_text(c: CAUSE) -> Seq<char> {
    match c {
        CAUSE::CANNOT_PERFORME => "CANNOT PERFORME"@,
        CAUSE::BAD_REQUEST => "BAD REQUEST"@,
        CAUSE::WRONG_INFO => "WRONG INFO"@,
        CAUSE::NONE => "NONE"@,
    }
}

/// The name and value of the field that an emitter puts in a reply: the pair
/// given, or two empty texts when none is; `("emit", "NONE")` for `EMITTER::NONE`.
pub open spec fn emitted_field(e: EMITTER, to_emit: Option<Seq<&str>>) -> (Seq<char>, Seq<char>) {
    match e {
        EMITTER::EMITE => match to_emit {
            Some(pair) => (pair[0]@, pair[1]@),
            None => (Seq::empty(), Seq::empty()),
        },
        EMITTER::NONE => ("emit"@, "NONE"@),
    }
}

/// The fields of a reply made by `HTTP_TELL`: the emitted field first, then
/// `STATUS`, `CAUSE` and `DATE`, each set after the one before it, so that a later
/// field replaces an emitted field of the same name.
pub open spec fn tell_fields(
    emitted: (Seq<char>, Seq<char>),
    cause: Seq<char>,
    status: Seq<char>,
    date: Seq<char>,
) -> Map<Seq<char>, Seq<char>> {
    Map::empty().insert(emitted.0, emitted.1).insert("STATUS"@, status).insert(
        "CAUSE"@,
        cause,
    ).insert("DATE"@, date)
}

impl STATUS {
    /// The status as the text that replies carry.
    pub fn status(&self) -> (r: String)
        ensures
            r@ == status_text(*self),
    {
        match self {
            STATUS::OK => String::from_str("OK"),
            STATUS::FAIL => String::from_str("FAIL"),
        }
    }
}

impl EMITTER {
    /// The field that this emitter adds to a reply, as a name and a value.
    pub fn emite(&self, to_emit: Option<[&str; 2]>) -> (r: [String; 2])
        ensures
            (r@[0]@, r@[1]@) == emitted_field(
                *self,
                match to_emit {
                    Some(pair) => Some(pair@),
                    None => None,
                },
            ),
    {
        match self {
            EMITTER::EMITE => {
                if let Some(emit) = to_emit {
                    [String::from_str(emit[0]), String::from_str(emit[1])]
                } else {
                    [String::new(), String::new()]
                }
            },
            EMITTER::NONE => [String::from_str("emit"), String::from_str("NONE")],
        }
    }
}

impl CAUSE {
    /// The cause as the text that replies carry.
    pub fn cause(&self) -> (r: String)
        ensures
            r@ == cause_text(*self),
    {
        match self {
            CAUSE::CANNOT_PERFORME => String::from_str("CANNOT PERFORME"),
            CAUSE::BAD_REQUEST => String::from_str("BAD REQUEST"),
            CAUSE::WRONG_INFO => String::from_str("WRONG INFO"),
            CAUSE::NONE => String::from_str("NONE"),
        }
    }
}

/// Every character of the text is an ASCII digit.
pub open spec fn all_digits(s: Seq<char>) -> bool {
    forall|i: int| 0 <= i < s.len() ==> '0' <= #[trigger] s[i] <= '9'
}

/// A year as chrono writes it: four digits, or for years past 9999 a `+`
/// and five or more digits.
pub open spec fn is_year_text(s: Seq<char>) -> bool {
    ||| s.len() == 4 && all_digits(s)
    ||| s.len() >= 6 && s[0] == '+' && all_digits(s.skip(1))
}

/// A date as chrono writes it: `YYYY-MM-DD`.
pub open spec fn is_date_text(s: Seq<char>) -> bool {
    &&& s.len() >= 10
    &&& is_year_text(s.take(s.len() - 6))
    &&& s[s.len() - 6] == '-'
    &&& all_digits(s.subrange(s.len() - 5, s.len() - 3))
    &&& s[s.len() - 3] == '-'
    &&& all_digits(s.skip(s.len() - 2))
}

/// A fraction of a second as chrono writes it: nothing, or a `.` and three,
/// six or nine digits.
pub open spec fn is_fraction_text(s: Seq<char>) -> bool {
    ||| s.len() == 0
    ||| (s.len() == 4 || s.len() == 7 || s.len() == 10) && s[0] == '.' && all_digits(s.skip(1))
}

/// A time of day as chrono writes it: `HH:MM:SS` and a fraction.
pub open spec fn is_time_text(s: Seq<char>) -> bool {
    &&& s.len() >= 8
    &&& all_digits(s.take(2))
    &&& s[2] == ':'
    &&& all_digits(s.subrange(3, 5))
    &&& s[5] == ':'
    &&& all_digits(s.subrange(6, 8))
    &&& is_fraction_text(s.skip(8))
}

/// An instant in UTC as chrono's `Display` for `DateTime<Utc>` writes it:
/// `YYYY-MM-DD HH:MM:SS[.fraction] UTC`.
pub open spec fn is_utc_datetime_text(s: Seq<char>) -> bool {
    exists|date: Seq<char>, time: Seq<char>|
        #![trigger is_date_text(date), is_time_text(time)]
        is_date_text(date) && is_time_text(time) && s == date + seq![' '] + time + " UTC"@
}

/// Calls `chrono::Utc::now()` (as `sqlx::types::chrono` re-exports it) and renders the instant with its `Display`
/// implementation. chrono writes a `DateTime<Utc>` as its date (four-digit year,
/// or `+` and more digits past 9999; month; day), a space, its time (hour,
/// minute, second, then nothing or a `.` and three, six or nine digits of
/// fraction), a space and `UTC`; that shape is what is stated. Which digits
/// come out depends on the clock and is not stated. (`Utc::now` panics when
/// the system clock is before 1970.)
#[verifier::external_body]
fn utc_now_text() -> (r: String)
    ensures
        is_utc_datetime_text(r@),
{
    sqlx::types::chrono::Utc::now().to_string()
}

impl DATE {
    /// The current time in UTC, as text `YYYY-MM-DD HH:MM:SS[.fraction] UTC`.
    /// Its digits depend on the clock.
    pub fn date(&self) -> (r: String)
        ensures
            is_utc_datetime_text(r@),
    {
        match self {
            DATE::THIS_DATE => utc_now_text(),
        }
    }
}

/// Builds the replies that report a status.
pub struct HTTP_TELL;

impl HTTP_TELL {
    /// The reply fields for an emitted field, a cause and a status, dated now.
    pub fn TELL(emitter: [String; 2], cause: String, status: String) -> (r: JsonObject)
        ensures
            r@ == tell_fields((emitter@[0]@, emitter@[1]@), cause@, status@, r@["DATE"@]),
            r@.contains_key("DATE"@),
            is_utc_datetime_text(r@["DATE"@]),
    {
        let date = DATE::THIS_DATE.date();
        HTTP_TELL::tell_dated(emitter, cause, status, date)
    }

    /// The reply fields for an emitted field, a cause and a status, with the
    /// given date.
    pub fn tell_dated(emitter: [String; 2], cause: String, status: String, date: String) -> (r:
        JsonObject)
        ensures
            r@ == tell_fields((emitter@[0]@, emitter@[1]@), cause@, status@, date@),
    {
        let mut fields = JsonObject::new();
        fields.insert(emitter[0].clone(), emitter[1].clone());
        fields.insert(String::from_str("STATUS"), status);
        fields.insert(String::from_str("CAUSE"), cause);
        fields.insert(String::from_str("DATE"), date);
        fields
    }
}

/// Each status, and each cause, has a text of its own.
pub proof fn lemma_texts_identify_variants(s1: STATUS, s2: STATUS, c1: CAUSE, c2: CAUSE)
    ensures
        status_text(s1) == status_text(s2) ==> s1 == s2,
        cause_text(c1) == cause_text(c2) ==> c1 == c2,
{
    reveal_strlit("OK");
    reveal_strlit("FAIL");
    reveal_strlit("CANNOT PERFORME");
    reveal_strlit("BAD REQUEST");
    reveal_strlit("WRONG INFO");
    reveal_strlit("NONE");
    if status_text(s1) == status_text(s2) && s1 != s2 {
        assert(status_text(s1).len() != status_text(s2).len());
    }
    if cause_text(c1) == cause_text(c2) && c1 != c2 {
        assert(cause_text(c1).len() != cause_text(c2).len() || cause_text(c1)[0] != cause_text(
            c2,
        )[0]);
    }
}

/// A reply made by `HTTP_TELL` always reports the status, the cause and the
/// date it was given, whatever field the emitter adds.
pub proof fn lemma_tell_reports_status_cause_date(
    emitted: (Seq<char>, Seq<char>),
    cause: Seq<char>,
    status: Seq<char>,
    date: Seq<char>,
)
    ensures
        tell_fields(emitted, cause, status, date).contains_key("STATUS"@),
        tell_fields(emitted, cause, status, date)["STATUS"@] == status,
        tell_fields(emitted, cause, status, date)["CAUSE"@] == cause,
        tell_fields(emitted, cause, status, date)["DATE"@] == date,
{
    reveal_strlit("STATUS");
    reveal_strlit("CAUSE");
    reveal_strlit("DATE");
    assert("STATUS"@.len() == 6 && "CAUSE"@.len() == 5 && "DATE"@.len() == 4);
}

} // verus!
