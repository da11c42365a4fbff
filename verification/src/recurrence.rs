//! Recurrence rules in the textual grammar of iCalendar's `RRULE`.
//!
//! The grammar is read and written by the `rrule` crate. A rule is held here
//! as the text that `rrule` writes for it together with the parts that
//! decide when the rule recurs and when it ends.

use crate::error::ValidationError;
use vstd::prelude::*;
use vstd::utf8::is_ascii_chars;

verus! {

/// How often a rule recurs.
#[derive(Clone, Copy, Debug, PartialEq, Eq, Structural)]
pub enum Frequency {
    Yearly,
    Monthly,
    Weekly,
    Daily,
    Hourly,
    Minutely,
    Secondly,
}

/// The moment after which a rule recurs no more.
#[derive(Clone, Copy, Debug, PartialEq, Eq, Structural)]
pub struct Until {
    /// The date and time as the rule's text gives them, counted in seconds
    /// from 1970-01-01 00:00:00 of the same clock.
    pub reading: i64,
    /// Whether the text gives them as local time. If not, they are UTC.
    pub local: bool,
}

/// A recurrence rule as contracts see it.
pub struct RuleView {
    /// The rule in the textual grammar, as `rrule` writes it.
    pub text: Seq<char>,
    /// The frequency, numbered from 0 for yearly to 6 for secondly.
    pub frequency: u8,
    /// The number of periods from one recurrence to the next.
    pub interval: u16,
    /// The number of recurrences, if the rule limits it.
    pub count: Option<u32>,
    /// The end of the recurrences, if the rule has one.
    pub until: Option<Until>,
}

/// What `rrule` read from a text: the parts of the rule, and the text that
/// `rrule` writes for it.
#[derive(Debug, PartialEq, Eq)]
pub struct RuleReading {
    text: String,
    frequency: u8,
    interval: u16,
    count: Option<u32>,
    until: Option<Until>,
}

/// A recurrence rule: a reading whose text reads back as itself.
#[derive(Debug, PartialEq, Eq)]
pub struct MyRRuleSet {
    reading: RuleReading,
}

impl View for RuleReading {
    type V = RuleView;

    closed spec fn view(&self) -> RuleView {
        RuleView {
            text: self.text@,
            frequency: self.frequency,
            interval: self.interval,
            count: self.count,
            until: self.until,
        }
    }
}

impl View for MyRRuleSet {
    type V = RuleView;

    closed spec fn view(&self) -> RuleView {
        self.reading@
    }
}

/// What `rrule` reads from a text on a machine whose local time is UTC:
/// the rule, or nothing where it refuses the text.
pub uninterp spec fn rrule_reading(text: Seq<char>) -> Option<RuleView>;

/// The frequency with the given number.
pub open spec fn frequency_of(code: u8) -> Frequency {
    if code == 0 {
        Frequency::Yearly
    } else if code == 1 {
        Frequency::Monthly
    } else if code == 2 {
        Frequency::Weekly
    } else if code == 3 {
        Frequency::Daily
    } else if code == 4 {
        Frequency::Hourly
    } else if code == 5 {
        Frequency::Minutely
    } else {
        Frequency::Secondly
    }
}

/// The rule ends at a local time, which only a time zone can place.
pub open spec fn ends_at_local_time(rule: RuleView) -> bool {
    rule.until matches Some(until) && until.local
}

/// The rule's text is plain ASCII and reads back as the rule itself, and its
/// frequency is one of the seven.
pub open spec fn rule_wf(rule: RuleView) -> bool {
    &&& is_ascii_chars(rule.text)
    &&& rule.frequency <= 6
    &&& rrule_reading(rule.text) == Some(rule)
}

/// What a text stands for where no time zone has a say: the rule that
/// `rrule` reads from it, provided the text that `rrule` writes for that
/// rule is plain ASCII and reads back as the same rule.
pub open spec fn read_rule(text: Seq<char>) -> Result<RuleView, ValidationError> {
    if !is_ascii_chars(text) {
        Err(ValidationError::MalformedRecurrence)
    } else {
        match rrule_reading(text) {
            Some(rule) => if is_ascii_chars(rule.text) && rrule_reading(rule.text) == Some(rule) {
                Ok(rule)
            } else {
                Err(ValidationError::MalformedRecurrence)
            },
            None => Err(ValidationError::MalformedRecurrence),
        }
    }
}

/// The machine's time zone has a say in whether the text is accepted: the
/// rule in it ends at a local time.
pub open spec fn zone_decides(text: Seq<char>) -> bool {
    rrule_reading(text) matches Some(rule) && ends_at_local_time(rule)
}

/// What `decode` may return for a text: what the text stands for, or a
/// refusal where the machine's time zone has a say.
pub open spec fn decodes_to(text: Seq<char>, r: Result<RuleView, ValidationError>) -> bool {
    r == read_rule(text) || (r == Err::<RuleView, ValidationError>(
        ValidationError::MalformedRecurrence,
    ) && zone_decides(text))
}

/// What `confirm` returns.
pub open spec fn confirmed(reading: RuleView, again: Option<RuleView>) -> Result<
    RuleView,
    ValidationError,
> {
    if again == Some(reading) && is_ascii_chars(reading.text) {
        Ok(reading)
    } else {
        Err(ValidationError::MalformedRecurrence)
    }
}

/// The view of a result of the codec.
pub open spec fn outcome_view(r: Result<MyRRuleSet, ValidationError>) -> Result<
    RuleView,
    ValidationError,
> {
    match r {
        Ok(rule) => Ok(rule@),
        Err(e) => Err(e),
    }
}

/// The view of a reading.
pub open spec fn reading_view(r: Option<RuleReading>) -> Option<RuleView> {
    match r {
        Some(rule) => Some(rule@),
        None => None,
    }
}

impl RuleReading {
    /// Whether two readings agree in their text and in every part.
    pub fn same_as(&self, other: &RuleReading) -> (r: bool)
        ensures
            r == (self@ == other@),
    {
        let counts = match (self.count, other.count) {
            (Some(a), Some(b)) => a == b,
            (None, None) => true,
            _ => false,
        };
        let untils = match (self.until, other.until) {
            (Some(a), Some(b)) => a.reading == b.reading && a.local == b.local,
            (None, None) => true,
            _ => false,
        };
        self.text == other.text && self.frequency == other.frequency && self.interval
            == other.interval && counts && untils
    }
}

impl Clone for RuleReading {
    fn clone(&self) -> (r: Self)
        ensures
            r@ == self@,
    {
        RuleReading {
            text: self.text.clone(),
            frequency: self.frequency,
            interval: self.interval,
            count: self.count,
            until: self.until,
        }
    }
}

impl MyRRuleSet {
    /// Every rule is well formed: its text is plain ASCII and reads back as
    /// the rule itself.
    #[verifier::type_invariant]
    pub open spec fn wf(&self) -> bool {
        rule_wf(self@)
    }

    /// Reads a rule from the textual grammar.
    ///
    /// The text must be plain ASCII and `rrule` must accept it. The rule is
    /// kept in the form that `rrule` writes, and only if that form reads back
    /// as the same rule. A rule that ends at a local time may be refused
    /// where the machine's time zone cannot place that time.
    pub fn decode(text: &str) -> (r: Result<MyRRuleSet, ValidationError>)
        ensures
            r matches Ok(rule) ==> rule.wf(),
            decodes_to(text@, outcome_view(r)),
    {
        if !text.is_ascii() {
            return Err(ValidationError::MalformedRecurrence);
        }
        match read_with_rrule(text) {
            Some(reading) => {
                if reading.text.is_ascii() {
                    let again = read_with_rrule(reading.text.as_str());
                    Self::confirm(reading, again)
                } else {
                    Err(ValidationError::MalformedRecurrence)
                }
            },
            None => Err(ValidationError::MalformedRecurrence),
        }
    }

    /// Keeps a reading as a rule if its own text, read again, gave the same
    /// reading.
    pub fn confirm(reading: RuleReading, again: Option<RuleReading>) -> (r: Result<
        MyRRuleSet,
        ValidationError,
    >)
        requires
            reading@.frequency <= 6,
            again matches Some(second) ==> rrule_reading(reading@.text) == Some(second@),
        ensures
            outcome_view(r) == confirmed(reading@, reading_view(again)),
    {
        match again {
            Some(second) => {
                if reading.text.is_ascii() && reading.same_as(&second) {
                    Ok(MyRRuleSet { reading })
                } else {
                    Err(ValidationError::MalformedRecurrence)
                }
            },
            None => Err(ValidationError::MalformedRecurrence),
        }
    }

    /// The rule as a reading.
    pub fn reading(&self) -> (r: RuleReading)
        ensures
            r@ == self@,
    {
        self.reading.clone()
    }

    /// Writes the rule in the textual grammar.
    pub fn encode(&self) -> (r: String)
        ensures
            r@ == self@.text,
    {
        self.reading.text.clone()
    }

    /// How often the rule recurs.
    pub fn frequency(&self) -> (r: Frequency)
        ensures
            r == frequency_of(self@.frequency),
    {
        let code = self.reading.frequency;
        if code == 0 {
            Frequency::Yearly
        } else if code == 1 {
            Frequency::Monthly
        } else if code == 2 {
            Frequency::Weekly
        } else if code == 3 {
            Frequency::Daily
        } else if code == 4 {
            Frequency::Hourly
        } else if code == 5 {
            Frequency::Minutely
        } else {
            Frequency::Secondly
        }
    }

    /// The number of periods from one recurrence to the next.
    pub fn interval(&self) -> (r: u16)
        ensures
            r == self@.interval,
    {
        self.reading.interval
    }

    /// The number of recurrences, if the rule limits it.
    pub fn count(&self) -> (r: Option<u32>)
        ensures
            r == self@.count,
    {
        self.reading.count
    }

    /// The end of the recurrences, if the rule has one.
    pub fn until(&self) -> (r: Option<Until>)
        ensures
            r == self@.until,
    {
        self.reading.until
    }
}

impl Clone for MyRRuleSet {
    fn clone(&self) -> (r: Self)
        ensures
            r@ == self@,
    {
        proof {
            use_type_invariant(self);
        }
        MyRRuleSet { reading: self.reading.clone() }
    }
}

/// A rule that `decode` hands out is read back from the text that `encode`
/// writes for it: same text, frequency, interval, count and end.
pub proof fn lemma_rule_round_trip(rule: RuleView)
    requires
        rule_wf(rule),
    ensures
        read_rule(rule.text) == Ok::<RuleView, ValidationError>(rule),
{
}

/// Reads a rule with `rrule`: `FromStr` of `RRule<Unvalidated>` reads the
/// text, `get_freq`, `get_interval`, `get_count` and `get_until` give the
/// parts, and `Display` of the rule gives the text. The end of the rule is
/// turned into plain values by `Tz::is_local` of `rrule` and by
/// `naive_local`, `and_utc` and `timestamp` of `chrono`.
///
/// `rrule` slices `BYDAY` values by bytes, so the text must be ASCII. The
/// frequency is the number of the variant of `rrule::Frequency`, 0 to 6.
/// The reading depends on nothing but the text, with one exception: an
/// `UNTIL` without `Z` is placed in the machine's time zone, and refused
/// where that zone has no such time or has it twice. With UTC as the zone
/// that never happens. So the result is what a machine in UTC reads, or
/// else nothing, and that only for a rule that ends at a local time.
#[verifier::external_body]
fn read_with_rrule(text: &str) -> (r: Option<RuleReading>)
    requires
        is_ascii_chars(text@),
    ensures
        r matches Some(reading) ==> reading@.frequency <= 6,
        reading_view(r) == rrule_reading(text@) || (r is None && zone_decides(text@)),
{
    let rule = text.parse::<rrule::RRule<rrule::Unvalidated>>().ok()?;
    let (text, frequency) = (rule.to_string(), rule.get_freq() as u8);
    let (interval, count) = (rule.get_interval(), rule.get_count());
    let until = match rule.get_until() {
        Some(t) => Some(
            Until { reading: t.naive_local().and_utc().timestamp(), local: t.timezone().is_local() },
        ),
        None => None,
    };
    Some(RuleReading { text, frequency, interval, count, until })
}

} // verus!
