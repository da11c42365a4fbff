//! A wall-clock time of day and its textual form `HH:MM:SS`.

use crate::error::ValidationError;
use vstd::prelude::*;

verus! {

/// A time on the clock, without date or zone.
#[derive(Clone, Copy, Debug, PartialEq, Eq, Structural)]
pub struct TimeOfDay {
    pub hour: u32,
    pub minute: u32,
    pub second: u32,
}

/// The decimal digit for `d`, where `0 <= d <= 9`.
pub open spec fn digit(d: int) -> char {
    seq!['0', '1', '2', '3', '4', '5', '6', '7', '8', '9'][d]
}

/// `n` written with two decimal digits, where `0 <= n <= 99`.
pub open spec fn two_digits(n: int) -> Seq<char> {
    seq![digit(n / 10), digit(n % 10)]
}

/// The canonical text of a time: `HH:MM:SS`.
pub open spec fn time_text(t: TimeOfDay) -> Seq<char> {
    two_digits(t.hour as int) + seq![':'] + two_digits(t.minute as int) + seq![':'] + two_digits(
        t.second as int,
    )
}

impl TimeOfDay {
    /// The fields name a time that exists on the clock.
    pub open spec fn wf(&self) -> bool {
        self.hour < 24 && self.minute < 60 && self.second < 60
    }

    /// Seconds elapsed since midnight.
    pub open spec fn seconds_of_day(&self) -> int {
        self.hour * 3600 + self.minute * 60 + self.second
    }

    /// The time with the given fields, if there is one.
    pub fn from_hms(hour: u32, minute: u32, second: u32) -> (r: Option<TimeOfDay>)
        ensures
            r == if hour < 24 && minute < 60 && second < 60 {
                Some(TimeOfDay { hour, minute, second })
            } else {
                None
            },
    {
        if hour < 24 && minute < 60 && second < 60 {
            Some(TimeOfDay { hour, minute, second })
        } else {
            None
        }
    }

    /// Whether the fields name a time that exists on the clock.
    pub fn is_valid(&self) -> (r: bool)
        ensures
            r == self.wf(),
    {
        self.hour < 24 && self.minute < 60 && self.second < 60
    }

    /// Whether `self` comes strictly earlier than `other`: by hour, then by
    /// minute, then by second. For times on the clock that is the order of
    /// their seconds since midnight.
    pub fn is_before(&self, other: &TimeOfDay) -> (r: bool)
        ensures
            r == (self.hour < other.hour || (self.hour == other.hour && (self.minute
                < other.minute || (self.minute == other.minute && self.second < other.second)))),
            self.wf() && other.wf() ==> r == (self.seconds_of_day() < other.seconds_of_day()),
    {
        self.hour < other.hour || (self.hour == other.hour && (self.minute < other.minute || (
        self.minute == other.minute && self.second < other.second)))
    }

    /// Writes the time in its canonical form.
    pub fn encode(&self) -> (r: String)
        requires
            self.wf(),
        ensures
            r@ == time_text(*self),
    {
        format_naive_time(self.hour, self.minute, self.second)
    }

    /// Reads a time from its canonical form, and from nothing else: any
    /// other text is refused as malformed.
    pub fn decode(text: &str) -> (r: Result<TimeOfDay, ValidationError>)
        ensures
            r == decoded_time(text@),
            r is Ok <==> is_time_text(text@),
            r matches Ok(t) ==> t.wf() && time_text(t) == text@,
            r matches Err(e) ==> e == ValidationError::MalformedTime,
    {
        let parsed = parse_naive_time(text);
        Self::from_parsed(text, parsed)
    }

    /// Decides what a text stands for, given the reading of it: hour,
    /// minute, second and nanosecond, or nothing where the text was refused.
    ///
    /// The reading is kept if it is a time on the clock with no fraction of
    /// a second and `text` is exactly its canonical form.
    pub fn from_parsed(text: &str, parsed: Option<(u32, u32, u32, u32)>) -> (r: Result<
        TimeOfDay,
        ValidationError,
    >)
        ensures
            r == settled_time(text@, parsed),
    {
        match parsed {
            Some((hour, minute, second, nanosecond)) => {
                if nanosecond == 0 && hour < 24 && minute < 60 && second < 60 {
                    let time = TimeOfDay { hour, minute, second };
                    let canonical = time.encode();
                    let given = text.to_owned();
                    if canonical == given {
                        Ok(time)
                    } else {
                        Err(ValidationError::MalformedTime)
                    }
                } else {
                    Err(ValidationError::MalformedTime)
                }
            },
            None => Err(ValidationError::MalformedTime),
        }
    }
}

/// What `from_parsed` returns.
pub open spec fn settled_time(text: Seq<char>, parsed: Option<(u32, u32, u32, u32)>) -> Result<
    TimeOfDay,
    ValidationError,
> {
    match parsed {
        Some((hour, minute, second, nanosecond)) => {
            let time = TimeOfDay { hour, minute, second };
            if nanosecond == 0 && time.wf() && text == time_text(time) {
                Ok(time)
            } else {
                Err(ValidationError::MalformedTime)
            }
        },
        None => Err(ValidationError::MalformedTime),
    }
}

/// Whether `text` is the canonical form of some time.
pub open spec fn is_time_text(text: Seq<char>) -> bool {
    exists|t: TimeOfDay| t.wf() && #[trigger] time_text(t) == text
}

/// What `decode` returns: the time whose canonical form `text` is, or the
/// error if there is none.
pub open spec fn decoded_time(text: Seq<char>) -> Result<TimeOfDay, ValidationError> {
    if is_time_text(text) {
        Ok(choose|t: TimeOfDay| t.wf() && #[trigger] time_text(t) == text)
    } else {
        Err(ValidationError::MalformedTime)
    }
}

/// Two times with the same canonical text are the same time.
pub proof fn lemma_time_text_injective(a: TimeOfDay, b: TimeOfDay)
    requires
        a.wf(),
        b.wf(),
        time_text(a) == time_text(b),
    ensures
        a == b,
{
    let ta = time_text(a);
    let tb = time_text(b);
    assert(ta[0] == digit(a.hour as int / 10) && ta[1] == digit(a.hour as int % 10));
    assert(ta[3] == digit(a.minute as int / 10) && ta[4] == digit(a.minute as int % 10));
    assert(ta[6] == digit(a.second as int / 10) && ta[7] == digit(a.second as int % 10));
}

/// A time is read back from the text that `encode` writes for it.
pub proof fn lemma_time_round_trip(t: TimeOfDay)
    requires
        t.wf(),
    ensures
        decoded_time(time_text(t)) == Ok::<TimeOfDay, ValidationError>(t),
{
    let text = time_text(t);
    let chosen = choose|c: TimeOfDay| c.wf() && #[trigger] time_text(c) == text;
    lemma_time_text_injective(chosen, t);
}

/// A text that is no time's canonical form is refused, and a text that is
/// one gives that time and no other.
pub proof fn lemma_time_rejection(text: Seq<char>)
    ensures
        !is_time_text(text) ==> decoded_time(text) == Err::<TimeOfDay, ValidationError>(
            ValidationError::MalformedTime,
        ),
        decoded_time(text) matches Ok(t) ==> t.wf() && time_text(t) == text,
{
}

/// Writes a time with `chrono`: `NaiveTime::from_hms_opt` makes the value and
/// its `Display` writes it. For a whole second that is not a leap second the
/// output is `HH:MM:SS`, each field with two digits.
#[verifier::external_body]
fn format_naive_time(hour: u32, minute: u32, second: u32) -> (r: String)
    requires
        hour < 24,
        minute < 60,
        second < 60,
    ensures
        r@ == time_text(TimeOfDay { hour, minute, second }),
{
    chrono::NaiveTime::from_hms_opt(hour, minute, second).unwrap().to_string()
}

/// Reads a time with `chrono`: `NaiveTime`'s `FromStr`, and the getters of
/// `Timelike` for hour, minute, second and nanosecond of what it returns.
///
/// The parser accepts more than the canonical form, but it does accept
/// that: what `Display` writes for a time reads back as that time, with no
/// fraction of a second. Nothing else is claimed of it.
#[verifier::external_body]
fn parse_naive_time(text: &str) -> (r: Option<(u32, u32, u32, u32)>)
    ensures
        forall|t: TimeOfDay|
            t.wf() && #[trigger] time_text(t) == text@ ==> r == Some(
                (t.hour, t.minute, t.second, 0u32),
            ),
{
    match text.parse::<chrono::NaiveTime>() {
        Ok(time) => Some(
            (
                chrono::Timelike::hour(&time),
                chrono::Timelike::minute(&time),
                chrono::Timelike::second(&time),
                chrono::Timelike::nanosecond(&time),
            ),
        ),
        Err(_) => None,
    }
}

} // verus!
