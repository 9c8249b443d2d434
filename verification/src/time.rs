//! The calendar model: the granularity of a time value, the interval of a
//! regular series, and a time as a count of units since a julian base date.
use vstd::prelude::*;
use crate::text::{
    after_digits, decimal_i32, decimal_int, decimal_nat, digit_run, eq_ignore_ascii_case,
    is_digit, leading_digits, lemma_decimal_round_trip, lemma_digit_run_of_concat,
    parse_decimal, parsed_decimal, same_ignoring_ascii_case,
};

verus! {

/// The unit in which a time value counts.
#[derive(Debug, Copy, Clone, PartialEq, Eq, Structural)]
pub enum HecTimeGranularity {
    second,
    minute,
    hour,
    day,
}

impl HecTimeGranularity {
    /// The length of the unit in seconds.
    pub open spec fn seconds(self) -> int {
        match self {
            HecTimeGranularity::second => 1,
            HecTimeGranularity::minute => 60,
            HecTimeGranularity::hour => 3600,
            HecTimeGranularity::day => 86400,
        }
    }

    /// The unit whose length in seconds is `value`, for each of the four
    /// lengths.
    pub open spec fn of_seconds(value: int) -> Self {
        if value == 1 {
            HecTimeGranularity::second
        } else if value == 60 {
            HecTimeGranularity::minute
        } else if value == 3600 {
            HecTimeGranularity::hour
        } else {
            HecTimeGranularity::day
        }
    }

    /// Whether `value` is the length in seconds of one of the four units.
    pub open spec fn is_unit_size(value: int) -> bool {
        value == 1 || value == 60 || value == 3600 || value == 86400
    }

    /// The granularity of a time for which none was named: the minute.
    pub fn default() -> (unit: Self)
        ensures
            unit == HecTimeGranularity::minute,
    {
        HecTimeGranularity::minute
    }

    /// The length of the unit in seconds.
    pub fn value(&self) -> (seconds: i32)
        ensures
            seconds == self.seconds(),
    {
        match self {
            HecTimeGranularity::second => self.second_value(),
            HecTimeGranularity::minute => self.minute_value(),
            HecTimeGranularity::hour => self.hour_value(),
            HecTimeGranularity::day => self.day_value(),
        }
    }

    /// The unit whose length in seconds is `value`. To call it with another
    /// number is a violation of its contract.
    pub fn from_value(value: i32) -> (unit: Self)
        requires
            Self::is_unit_size(value as int),
        ensures
            unit == Self::of_seconds(value as int),
            unit.seconds() == value,
    {
        if value == 1 {
            HecTimeGranularity::second
        } else if value == 60 {
            HecTimeGranularity::minute
        } else if value == 3600 {
            HecTimeGranularity::hour
        } else {
            HecTimeGranularity::day
        }
    }

    /// The unit whose length in seconds is `value`, if it is one of the four.
    pub fn checked_from_value(value: i32) -> (unit: Option<Self>)
        ensures
            Self::is_unit_size(value as int) ==> unit == Some(Self::of_seconds(value as int)),
            !Self::is_unit_size(value as int) ==> unit is None,
    {
        if value == 1 || value == 60 || value == 3600 || value == 86400 {
            Some(HecTimeGranularity::from_value(value))
        } else {
            None
        }
    }

    /// The seconds in a second.
    pub fn second_value(&self) -> (seconds: i32)
        ensures
            seconds == 1,
    {
        1
    }

    /// The seconds in a minute.
    pub fn minute_value(&self) -> (seconds: i32)
        ensures
            seconds == 60,
    {
        60
    }

    /// The seconds in an hour.
    pub fn hour_value(&self) -> (seconds: i32)
        ensures
            seconds == 3600,
    {
        3600
    }

    /// The seconds in a day.
    pub fn day_value(&self) -> (seconds: i32)
        ensures
            seconds == 86400,
    {
        86400
    }
}

/// The step of a regular series: a counted unit, or one of five named spans
/// of a nominal length.
#[derive(Debug, Copy, Clone, PartialEq, Eq, Structural)]
pub enum HecTimeInterval {
    second(i32),
    minute(i32),
    hour(i32),
    day(i32),
    week,
    month,
    semi_month,
    tri_month,
    year,
}

/// The interval that a run of digits and a unit token spell. With digits,
/// they must write a positive number and the token one of the four counted
/// units; without, the token must be one of the five named spans. The case of
/// the token's letters does not matter.
pub open spec fn interval_of_parts(digits: Seq<char>, unit: Seq<char>) -> Option<HecTimeInterval> {
    if digits.len() > 0 {
        match parsed_decimal(digits) {
            Some(n) => if n <= 0 {
                None
            } else if same_ignoring_ascii_case(unit, "Second"@) {
                Some(HecTimeInterval::second(n))
            } else if same_ignoring_ascii_case(unit, "Minute"@) {
                Some(HecTimeInterval::minute(n))
            } else if same_ignoring_ascii_case(unit, "Hour"@) {
                Some(HecTimeInterval::hour(n))
            } else if same_ignoring_ascii_case(unit, "Day"@) {
                Some(HecTimeInterval::day(n))
            } else {
                None
            },
            None => None,
        }
    } else if same_ignoring_ascii_case(unit, "Week"@) {
        Some(HecTimeInterval::week)
    } else if same_ignoring_ascii_case(unit, "Month"@) {
        Some(HecTimeInterval::month)
    } else if same_ignoring_ascii_case(unit, "Semi-Month"@) {
        Some(HecTimeInterval::semi_month)
    } else if same_ignoring_ascii_case(unit, "Tri-Month"@) {
        Some(HecTimeInterval::tri_month)
    } else if same_ignoring_ascii_case(unit, "Year"@) {
        Some(HecTimeInterval::year)
    } else {
        None
    }
}

/// The interval that a text spells: its leading digits are the count, and
/// everything after them is the unit token. A text with anything before or
/// after the count and the token therefore spells none.
pub open spec fn interval_of_text(text: Seq<char>) -> Option<HecTimeInterval> {
    interval_of_parts(leading_digits(text), after_digits(text))
}

/// Matches `text` against `pattern` with `regex::Regex::captures` and
/// returns its two capture groups. The pattern is fixed by `requires`: at the
/// start of the text as many of the digits `0` to `9` as there are, then
/// every character that follows. The regex crate documents `*` as greedy,
/// `[0-9]` as any ASCII digit, `^` as the start of the text, and `.` as any
/// character, the line feed too under the flag `s`; so the first group is
/// the run of leading digits and the second is all the rest of the text.
/// Such a pattern compiles and matches every text, the empty one too.
#[verifier::external_body]
fn capture_digits_and_rest(pattern: &str, text: &str) -> (groups: (String, String))
    requires
        pattern@ == "(?s)^([0-9]*)(.*)"@,
    ensures
        groups.0@ == leading_digits(text@),
        groups.1@ == after_digits(text@),
{
    let re = regex::Regex::new(pattern).unwrap();
    let caps = re.captures(text).unwrap();
    let digits = caps.get(1).map_or("", |m| m.as_str());
    let rest = caps.get(2).map_or("", |m| m.as_str());
    (digits.to_string(), rest.to_string())
}

impl HecTimeInterval {
    /// The length of the interval in seconds: exact for a counted unit,
    /// nominal for a named span.
    pub open spec fn seconds(self) -> int {
        match self {
            HecTimeInterval::second(x) => x as int,
            HecTimeInterval::minute(x) => 60 * x,
            HecTimeInterval::hour(x) => 3600 * x,
            HecTimeInterval::day(x) => 86400 * x,
            HecTimeInterval::week => 604800,
            HecTimeInterval::month => 2592000,
            HecTimeInterval::semi_month => 1296000,
            HecTimeInterval::tri_month => 864000,
            HecTimeInterval::year => 31536000,
        }
    }

    /// Whether the count of a counted unit is positive, as every interval
    /// that stands for a step in time has it.
    pub open spec fn is_positive(self) -> bool {
        match self {
            HecTimeInterval::second(x) => x > 0,
            HecTimeInterval::minute(x) => x > 0,
            HecTimeInterval::hour(x) => x > 0,
            HecTimeInterval::day(x) => x > 0,
            _ => true,
        }
    }

    /// The canonical text of the interval.
    pub open spec fn text(self) -> Seq<char> {
        match self {
            HecTimeInterval::second(x) => decimal_int(x as int) + "Second"@,
            HecTimeInterval::minute(x) => decimal_int(x as int) + "Minute"@,
            HecTimeInterval::hour(x) => decimal_int(x as int) + "Hour"@,
            HecTimeInterval::day(x) => decimal_int(x as int) + "Day"@,
            HecTimeInterval::week => "Week"@,
            HecTimeInterval::month => "Month"@,
            HecTimeInterval::semi_month => "Semi-Month"@,
            HecTimeInterval::tri_month => "Tri-Month"@,
            HecTimeInterval::year => "Year"@,
        }
    }

    /// Writes the interval in its canonical form: the count and the unit for
    /// a counted unit, the name alone for a named span.
    pub fn to_string(&self) -> (text: String)
        ensures
            text@ == self.text(),
    {
        match *self {
            HecTimeInterval::second(x) => decimal_i32(x).concat("Second"),
            HecTimeInterval::minute(x) => decimal_i32(x).concat("Minute"),
            HecTimeInterval::hour(x) => decimal_i32(x).concat("Hour"),
            HecTimeInterval::day(x) => decimal_i32(x).concat("Day"),
            HecTimeInterval::week => String::from_str("Week"),
            HecTimeInterval::month => String::from_str("Month"),
            HecTimeInterval::semi_month => String::from_str("Semi-Month"),
            HecTimeInterval::tri_month => String::from_str("Tri-Month"),
            HecTimeInterval::year => String::from_str("Year"),
        }
    }

    /// The interval that a run of digits and a unit token spell, if any.
    pub fn from_parts(digits: &str, unit: &str) -> (interval: Option<Self>)
        ensures
            interval == interval_of_parts(digits@, unit@),
    {
        if !digits.is_empty() {
            match parse_decimal(digits) {
                Some(n) => {
                    if n <= 0 {
                        None
                    } else if eq_ignore_ascii_case(unit, "Second") {
                        Some(HecTimeInterval::second(n))
                    } else if eq_ignore_ascii_case(unit, "Minute") {
                        Some(HecTimeInterval::minute(n))
                    } else if eq_ignore_ascii_case(unit, "Hour") {
                        Some(HecTimeInterval::hour(n))
                    } else if eq_ignore_ascii_case(unit, "Day") {
                        Some(HecTimeInterval::day(n))
                    } else {
                        None
                    }
                },
                None => None,
            }
        } else if eq_ignore_ascii_case(unit, "Week") {
            Some(HecTimeInterval::week)
        } else if eq_ignore_ascii_case(unit, "Month") {
            Some(HecTimeInterval::month)
        } else if eq_ignore_ascii_case(unit, "Semi-Month") {
            Some(HecTimeInterval::semi_month)
        } else if eq_ignore_ascii_case(unit, "Tri-Month") {
            Some(HecTimeInterval::tri_month)
        } else if eq_ignore_ascii_case(unit, "Year") {
            Some(HecTimeInterval::year)
        } else {
            None
        }
    }

    /// Reads an interval from its text; `None` where the text spells none.
    pub fn from_string(interval: &str) -> (parsed: Option<Self>)
        ensures
            parsed == interval_of_text(interval@),
    {
        let groups = capture_digits_and_rest("(?s)^([0-9]*)(.*)", interval);
        HecTimeInterval::from_parts(groups.0.as_str(), groups.1.as_str())
    }

    /// The length of the interval in seconds.
    pub fn value(&self) -> (seconds: i32)
        requires
            i32::MIN <= self.seconds() <= i32::MAX,
        ensures
            seconds == self.seconds(),
    {
        match *self {
            HecTimeInterval::second(x) => x,
            HecTimeInterval::minute(x) => 60 * x,
            HecTimeInterval::hour(x) => 3600 * x,
            HecTimeInterval::day(x) => 86400 * x,
            HecTimeInterval::week => 604800,
            HecTimeInterval::month => 2592000,
            HecTimeInterval::semi_month => 1296000,
            HecTimeInterval::tri_month => 864000,
            HecTimeInterval::year => 31536000,
        }
    }

    /// The length of the interval in seconds, where it fits in 32 bits.
    pub fn checked_value(&self) -> (seconds: Option<i32>)
        ensures
            i32::MIN <= self.seconds() <= i32::MAX ==> seconds == Some(self.seconds() as i32),
            !(i32::MIN <= self.seconds() <= i32::MAX) ==> seconds is None,
    {
        let wide: i64 = match *self {
            HecTimeInterval::second(x) => x as i64,
            HecTimeInterval::minute(x) => 60 * (x as i64),
            HecTimeInterval::hour(x) => 3600 * (x as i64),
            HecTimeInterval::day(x) => 86400 * (x as i64),
            HecTimeInterval::week => 604800,
            HecTimeInterval::month => 2592000,
            HecTimeInterval::semi_month => 1296000,
            HecTimeInterval::tri_month => 864000,
            HecTimeInterval::year => 31536000,
        };
        if -2147483648 <= wide && wide <= 2147483647 {
            Some(self.value())
        } else {
            None
        }
    }
}

/// A count written in decimal before a token that begins with no digit: the
/// text splits into exactly the count and the token.
proof fn lemma_counted_text_splits(n: int, token: Seq<char>)
    requires
        0 < n <= i32::MAX,
        token.len() > 0,
        !is_digit(token[0]),
    ensures
        leading_digits(decimal_int(n) + token) == decimal_nat(n as nat),
        after_digits(decimal_int(n) + token) == token,
        decimal_nat(n as nat).len() > 0,
        parsed_decimal(decimal_nat(n as nat)) == Some(n as i32),
{
    let digits = decimal_nat(n as nat);
    let whole = digits + token;
    lemma_decimal_round_trip(n as nat);
    lemma_digit_run_of_concat(digits, token);
    assert(whole.take(digits.len() as int) =~= digits);
    assert(whole.skip(digits.len() as int) =~= token);
}

/// A token that begins with no digit, alone: it has no leading digits, and
/// all of it follows them.
proof fn lemma_named_text_splits(token: Seq<char>)
    requires
        token.len() > 0,
        !is_digit(token[0]),
    ensures
        leading_digits(token) == Seq::<char>::empty(),
        after_digits(token) == token,
{
    assert(digit_run(token) == 0);
    assert(token.take(0) =~= Seq::<char>::empty());
    assert(token.skip(0) =~= token);
}

/// Reading the canonical text of an interval gives the interval back, for
/// every interval whose count is positive.
pub proof fn lemma_interval_round_trip(interval: HecTimeInterval)
    requires
        interval.is_positive(),
    ensures
        interval_of_text(interval.text()) == Some(interval),
{
    reveal_strlit("Second");
    reveal_strlit("Minute");
    reveal_strlit("Hour");
    reveal_strlit("Day");
    reveal_strlit("Week");
    reveal_strlit("Month");
    reveal_strlit("Semi-Month");
    reveal_strlit("Tri-Month");
    reveal_strlit("Year");
    assert("Minute"@[0] == 'M' && "Second"@[0] == 'S');
    assert("Year"@[0] == 'Y' && "Week"@[0] == 'W');
    match interval {
        HecTimeInterval::second(x) => {
            lemma_counted_text_splits(x as int, "Second"@);
        },
        HecTimeInterval::minute(x) => {
            lemma_counted_text_splits(x as int, "Minute"@);
        },
        HecTimeInterval::hour(x) => {
            lemma_counted_text_splits(x as int, "Hour"@);
        },
        HecTimeInterval::day(x) => {
            lemma_counted_text_splits(x as int, "Day"@);
        },
        HecTimeInterval::week => {
            lemma_named_text_splits("Week"@);
        },
        HecTimeInterval::month => {
            lemma_named_text_splits("Month"@);
        },
        HecTimeInterval::semi_month => {
            lemma_named_text_splits("Semi-Month"@);
        },
        HecTimeInterval::tri_month => {
            lemma_named_text_splits("Tri-Month"@);
        },
        HecTimeInterval::year => {
            lemma_named_text_splits("Year"@);
        },
    }
}

/// The quotient of `a` by a positive `b`, rounded toward zero.
pub open spec fn quotient_toward_zero(a: int, b: int) -> int {
    if a >= 0 {
        a / b
    } else {
        -((-a) / b)
    }
}

/// The mathematical content of a [`HecTime`].
pub ghost struct Instant {
    pub value: int,
    pub granularity: HecTimeGranularity,
    pub base_days: int,
}

/// A time: `value` units of `granularity` after midnight of the day that
/// lies `basedate_days` days after the archive's epoch, 31 December 1899.
#[derive(Debug, Copy, Clone, PartialEq, Eq)]
pub struct HecTime {
    value: i32,
    granularity: HecTimeGranularity,
    basedate_days: i32,
}

impl View for HecTime {
    type V = Instant;

    closed spec fn view(&self) -> Instant {
        Instant {
            value: self.value as int,
            granularity: self.granularity,
            base_days: self.basedate_days as int,
        }
    }
}

/// The time that the engine's reading of a date text stands for: none where
/// the engine reported a status other than 0; else the seconds of the day in
/// whole units of the granularity, on the julian day that was read.
pub open spec fn instant_of_parsed(
    status: int,
    julian_days: int,
    seconds: int,
    granularity: Option<HecTimeGranularity>,
) -> Option<Instant> {
    let unit = match granularity {
        Some(g) => g,
        None => HecTimeGranularity::minute,
    };
    if status == 0 {
        Some(
            Instant {
                value: quotient_toward_zero(seconds, unit.seconds()),
                granularity: unit,
                base_days: julian_days,
            },
        )
    } else {
        None
    }
}

impl HecTime {
    /// A time of `value` units. The granularity is the minute where none is
    /// given, and the base date the archive's epoch, day 0.
    pub fn new(value: i32, granularity: Option<HecTimeGranularity>, basedate: Option<i32>) -> (time:
        Self)
        ensures
            time@.value == value,
            time@.granularity == match granularity {
                Some(g) => g,
                None => HecTimeGranularity::minute,
            },
            time@.base_days == match basedate {
                Some(days) => days as int,
                None => 0,
            },
    {
        let gran = match granularity {
            Some(x) => x,
            None => HecTimeGranularity::default(),
        };
        let days: i32 = match basedate {
            Some(x) => x,
            None => 0,
        };
        HecTime { value: value, granularity: gran, basedate_days: days }
    }

    /// Makes this time the same as `hectime`.
    pub fn update(&mut self, hectime: Self)
        ensures
            final(self)@ == hectime@,
    {
        self.value = hectime.value;
        self.granularity = hectime.granularity;
        self.basedate_days = hectime.basedate_days;
    }

    /// Builds a time from what the engine's date parser returned for a text:
    /// its status, the julian day and the seconds of that day.
    pub fn from_parsed(
        status: i32,
        julian_days: i32,
        seconds: i32,
        granularity: Option<HecTimeGranularity>,
    ) -> (time: Option<Self>)
        ensures
            instant_of_parsed(status as int, julian_days as int, seconds as int, granularity)
                == match time {
                Some(t) => Some(t@),
                None => None,
            },
    {
        let gran = match granularity {
            Some(x) => x,
            None => HecTimeGranularity::default(),
        };
        if status == 0 {
            let value: i32 = seconds / gran.value();
            Some(HecTime { value: value, granularity: gran, basedate_days: julian_days })
        } else {
            None
        }
    }

    /// Advances the time by `seconds`, counted in whole units of its
    /// granularity: a part of a unit is dropped, toward zero.
    pub fn add_seconds(&mut self, seconds: i32)
        requires
            i32::MIN <= old(self)@.value + quotient_toward_zero(
                seconds as int,
                old(self)@.granularity.seconds(),
            ) <= i32::MAX,
        ensures
            final(self)@.value == old(self)@.value + quotient_toward_zero(
                seconds as int,
                old(self)@.granularity.seconds(),
            ),
            final(self)@.granularity == old(self)@.granularity,
            final(self)@.base_days == old(self)@.base_days,
    {
        let value: i32 = seconds / self.granularity.value();
        self.value = self.value + value;
    }

    /// The count of units.
    pub fn value(&self) -> (value: i32)
        ensures
            value == self@.value,
    {
        self.value
    }

    /// The unit of the count.
    pub fn granularity(&self) -> (granularity: HecTimeGranularity)
        ensures
            granularity == self@.granularity,
    {
        self.granularity
    }

    /// The julian base date, in days since the archive's epoch.
    pub fn basedate_days(&self) -> (days: i32)
        ensures
            days == self@.base_days,
    {
        self.basedate_days
    }
}

/// The span that one block of an irregular series covers.
pub enum HecTimeIntervalIreg {
    day,
    month,
    year,
    decade,
    century,
}

} // verus!
