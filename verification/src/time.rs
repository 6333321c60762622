//! Moments in UTC and their renderings.
use crate::text;
use vstd::prelude::*;

verus! {

/// A moment: nanoseconds since the start of 1970 in UTC.
#[derive(Debug, Clone, Copy, PartialEq, Eq, PartialOrd, Ord, Hash, Structural)]
pub struct Timestamp {
    pub nanos: i128,
}

pub const SECOND: i128 = 1_000_000_000;

/// The seconds, from the first to the last, that a clock is taken to show. The
/// calendar goes on for longer than any waiting time behind them.
pub const FIRST_SECOND: i64 = -8_334_600_000_000;

pub const LAST_SECOND: i64 = 8_210_200_000_000;

/// The seconds, from the first to the last, that have a calendar date.
pub const FIRST_DATE: i64 = -8_334_601_228_800;

pub const LAST_DATE: i64 = 8_210_266_876_799;

/// The RFC 3339 text of the moment `nanos` nanoseconds into a second, as
/// `chrono` writes it.
pub uninterp spec fn rfc3339_text(seconds: int, nanos: int) -> Seq<char>;

/// The moment `seconds` after the start of 1970 in the pattern, as `chrono`
/// writes it.
pub uninterp spec fn date_text(seconds: int, pattern: Seq<char>) -> Seq<char>;

/// The hour and the minute of the day.
pub const CLOCK: &'static str = "%H:%M";

/// The date and the time of the day, without anything between their parts but
/// one dash.
pub const COMPACT: &'static str = "%Y%m%d-%H%M%S";

/// The last second whose year has four digits.
pub const LAST_ERA_SECOND: i64 = 253_402_300_799;

pub open spec fn two_digits(value: nat) -> Seq<char> {
    seq![text::digit_char(value / 10), text::digit_char(value % 10)]
}

/// The hour and the minute of the day, two digits each.
pub open spec fn clock_text(seconds: int) -> Seq<char> {
    two_digits(((seconds % 86_400) / 3600) as nat) + seq![':'] + two_digits(
        ((seconds % 3600) / 60) as nat,
    )
}

/// Fifteen digits, one dash among them.
pub open spec fn is_compact(value: Seq<char>) -> bool {
    &&& value.len() == 15
    &&& forall|i: int| 0 <= i < value.len() ==> text::is_digit(#[trigger] value[i]) || value[i]
        == '-'
}

impl Timestamp {
    /// Whether the moment is one that a clock shows.
    pub open spec fn clocked(self) -> bool {
        FIRST_SECOND * SECOND <= self.nanos <= LAST_SECOND * SECOND
    }

    /// Whether the moment has a calendar date.
    pub open spec fn dated(self) -> bool {
        FIRST_DATE * SECOND <= self.nanos < (LAST_DATE + 1) * SECOND
    }

    /// The whole seconds up to the moment.
    pub open spec fn seconds(self) -> int {
        self.nanos as int / SECOND as int
    }

    /// The nanoseconds behind the last whole second.
    pub open spec fn fraction(self) -> int {
        self.nanos as int % SECOND as int
    }

    /// The moment `seconds` later, or earlier where `seconds` is negative.
    pub open spec fn plus(self, seconds: int) -> Timestamp {
        Timestamp { nanos: (self.nanos + seconds * SECOND) as i128 }
    }

    /// The moment in RFC 3339.
    pub open spec fn rfc3339_view(self) -> Seq<char> {
        rfc3339_text(self.seconds(), self.fraction())
    }

    /// Whether the year of the moment has four digits and is not before 1970.
    pub open spec fn in_era(self) -> bool {
        0 <= self.seconds() <= LAST_ERA_SECOND
    }

    /// The date and the time of the day.
    pub open spec fn compact_view(self) -> Seq<char> {
        date_text(self.seconds(), COMPACT@)
    }

    /// The hour and the minute of the day.
    pub fn hour_minute(self) -> (text: String)
        requires
            self.dated(),
        ensures
            text@ == clock_text(self.seconds()),
    {
        render_date(self.parts().0, CLOCK)
    }

    /// The date and the time of the day.
    pub fn compact(self) -> (text: String)
        requires
            self.dated(),
        ensures
            text@ == self.compact_view(),
            self.in_era() ==> is_compact(text@),
    {
        render_date(self.parts().0, COMPACT)
    }

    pub fn is_clocked(self) -> (yes: bool)
        ensures
            yes == self.clocked(),
    {
        FIRST_SECOND as i128 * SECOND <= self.nanos && self.nanos <= LAST_SECOND as i128 * SECOND
    }

    pub fn is_dated(self) -> (yes: bool)
        ensures
            yes == self.dated(),
    {
        FIRST_DATE as i128 * SECOND <= self.nanos && self.nanos < (LAST_DATE as i128 + 1) * SECOND
    }

    pub fn from_seconds(seconds: i64) -> (moment: Timestamp)
        ensures
            moment.nanos == seconds * SECOND,
    {
        Timestamp { nanos: seconds as i128 * SECOND }
    }

    pub fn plus_seconds(self, seconds: i64) -> (moment: Timestamp)
        requires
            self.dated(),
        ensures
            moment == self.plus(seconds as int),
            moment.nanos == self.nanos + seconds * SECOND,
    {
        Timestamp { nanos: self.nanos + seconds as i128 * SECOND }
    }

    pub fn parts(self) -> (parts: (i64, u32))
        requires
            self.dated(),
        ensures
            parts.0 == self.seconds(),
            parts.1 == self.fraction(),
            FIRST_DATE <= parts.0 <= LAST_DATE,
            parts.1 < SECOND,
    {
        let shifted: i128 = self.nanos - FIRST_DATE as i128 * SECOND;
        let seconds: i128 = shifted / SECOND;
        let nanos: i128 = shifted % SECOND;
        (seconds as i64 + FIRST_DATE, nanos as u32)
    }

    /// The moment in RFC 3339.
    pub fn to_rfc3339(self) -> (text: String)
        requires
            self.dated(),
        ensures
            text@ == self.rfc3339_view(),
    {
        let parts = self.parts();
        render_rfc3339(parts.0, parts.1)
    }
}

/// `chrono::DateTime::to_rfc3339` of the moment that
/// `chrono::DateTime::from_timestamp` makes of whole seconds since the start
/// of 1970 and nanoseconds: the text is a function of these two numbers.
#[verifier::external_body]
fn render_rfc3339(seconds: i64, nanos: u32) -> (text: String)
    requires
        FIRST_DATE <= seconds <= LAST_DATE,
        nanos < SECOND,
    ensures
        text@ == rfc3339_text(seconds as int, nanos as int),
{
    chrono::DateTime::from_timestamp(seconds, nanos).unwrap().to_rfc3339()
}

/// `chrono::DateTime::format` of the moment that
/// `chrono::DateTime::from_timestamp` makes of whole seconds since the start
/// of 1970, in one of the two patterns in use: the text is a function of the
/// seconds and the pattern. The hour and the minute have two digits each. Where
/// the year has four digits, the date and the time are fourteen digits and a
/// dash.
#[verifier::external_body]
fn render_date(seconds: i64, pattern: &str) -> (text: String)
    requires
        FIRST_DATE <= seconds <= LAST_DATE,
        pattern@ == CLOCK@ || pattern@ == COMPACT@,
    ensures
        text@ == date_text(seconds as int, pattern@),
        pattern@ == CLOCK@ ==> text@ == clock_text(seconds as int),
        pattern@ == COMPACT@ && 0 <= seconds <= LAST_ERA_SECOND ==> is_compact(text@),
{
    chrono::DateTime::from_timestamp(seconds, 0).unwrap().format(pattern).to_string()
}

/// A moment is a whole number of seconds and less than one more.
pub proof fn moment_is_split(moment: Timestamp)
    ensures
        moment.seconds() * 1_000_000_000 + moment.fraction() == moment.nanos,
        0 <= moment.fraction() < 1_000_000_000,
{
}

/// Seconds add up: later by one number and then by another is later by both, and
/// later by a number and earlier by it is the moment itself.
pub proof fn seconds_add_up(moment: Timestamp, a: int, b: int)
    requires
        i128::MIN <= moment.nanos + a * SECOND <= i128::MAX,
        i128::MIN <= moment.nanos + (a + b) * SECOND <= i128::MAX,
    ensures
        moment.plus(a).plus(b) == moment.plus(a + b),
        moment.plus(a).plus(-a) == moment,
        moment.plus(a).nanos - moment.nanos == a * 1_000_000_000,
{
}

/// The clock shows the hour and the minute of the day, each in two digits.
pub proof fn clock_shows_the_time_of_day(days: int, hour: int, minute: int, second: int)
    requires
        0 <= hour < 24,
        0 <= minute < 60,
        0 <= second < 60,
    ensures
        clock_text(((days * 24 + hour) * 60 + minute) * 60 + second) == seq![
            text::digit_char((hour / 10) as nat),
            text::digit_char((hour % 10) as nat),
            ':',
            text::digit_char((minute / 10) as nat),
            text::digit_char((minute % 10) as nat),
        ],
{
    let seconds = ((days * 24 + hour) * 60 + minute) * 60 + second;
    assert(seconds % 86_400 == (hour * 60 + minute) * 60 + second);
    assert(seconds % 3600 == minute * 60 + second);
    assert(((seconds % 86_400) / 3600) == hour);
    assert(((seconds % 3600) / 60) == minute);
    assert(clock_text(seconds) =~= seq![
        text::digit_char((hour / 10) as nat),
        text::digit_char((hour % 10) as nat),
        ':',
        text::digit_char((minute / 10) as nat),
        text::digit_char((minute % 10) as nat),
    ]);
}

} // verus!
