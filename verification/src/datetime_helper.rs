//! The time of a note's creation, and how it is written at the start of the
//! note's identifier: year, month, day, hour, minute and second in decimal,
//! each in its full width, joined by underscores.

use crate::display_data::digit;
use crate::display_data::digit_char;
use crate::kakisute_file::prefix_text;
use crate::kakisute_file::timestamp_prefix;
use crate::kakisute_file::DATE_FORMAT_LENGTH;
use vstd::prelude::*;
use vstd::string::*;

verus! {

/// The mathematical value of a time of creation, to the second.
pub struct Instant {
    pub year: nat,
    pub month: nat,
    pub day: nat,
    pub hour: nat,
    pub minute: nat,
    pub second: nat,
}

/// Whether a year has a 29th of February.
pub open spec fn is_leap_year(year: nat) -> bool {
    year % 4 == 0 && (year % 100 != 0 || year % 400 == 0)
}

/// The number of days of a month.
pub open spec fn days_in_month(year: nat, month: nat) -> nat {
    if month == 2 {
        if is_leap_year(year) {
            29
        } else {
            28
        }
    } else if month == 4 || month == 6 || month == 9 || month == 11 {
        30
    } else {
        31
    }
}

/// The number that a decimal digit stands for.
pub open spec fn digit_value(c: char) -> Option<nat> {
    if c == '0' {
        Some(0nat)
    } else if c == '1' {
        Some(1nat)
    } else if c == '2' {
        Some(2nat)
    } else if c == '3' {
        Some(3nat)
    } else if c == '4' {
        Some(4nat)
    } else if c == '5' {
        Some(5nat)
    } else if c == '6' {
        Some(6nat)
    } else if c == '7' {
        Some(7nat)
    } else if c == '8' {
        Some(8nat)
    } else if c == '9' {
        Some(9nat)
    } else {
        None
    }
}

/// A number below a hundred, written with two digits.
pub open spec fn two_digits(n: nat) -> Seq<char> {
    seq![digit(n / 10), digit(n % 10)]
}

/// A number below ten thousand, written with four digits.
pub open spec fn four_digits(n: nat) -> Seq<char> {
    two_digits(n / 100) + two_digits(n % 100)
}

/// The number that two characters write, if both are digits.
pub open spec fn two_digit_number(tens: char, ones: char) -> Option<nat> {
    match (digit_value(tens), digit_value(ones)) {
        (Some(t), Some(o)) => Some(t * 10 + o),
        _ => None,
    }
}

impl Instant {
    /// A time that the calendar and the clock know, in a year of four digits.
    pub open spec fn valid(self) -> bool {
        &&& self.year <= 9999
        &&& 1 <= self.month <= 12
        &&& 1 <= self.day <= days_in_month(self.year, self.month)
        &&& self.hour <= 23
        &&& self.minute <= 59
        &&& self.second <= 59
    }

    /// The time as one number, whose decimal digits are those of the year,
    /// the month, the day, the hour, the minute and the second in a row. A
    /// later time has the greater number.
    pub open spec fn number(self) -> nat {
        ((((self.year * 100 + self.month) * 100 + self.day) * 100 + self.hour) * 100
            + self.minute) * 100 + self.second
    }

    /// Whether this time is earlier than the other.
    pub open spec fn before(self, other: Instant) -> bool {
        ||| self.year < other.year
        ||| self.year == other.year && self.month < other.month
        ||| self.year == other.year && self.month == other.month && self.day < other.day
        ||| self.year == other.year && self.month == other.month && self.day == other.day
            && self.hour < other.hour
        ||| self.year == other.year && self.month == other.month && self.day == other.day
            && self.hour == other.hour && self.minute < other.minute
        ||| self.year == other.year && self.month == other.month && self.day == other.day
            && self.hour == other.hour && self.minute == other.minute && self.second
            < other.second
    }

    /// The time as identifiers carry it.
    pub open spec fn text(self) -> Seq<char> {
        four_digits(self.year) + seq!['_'] + two_digits(self.month) + seq!['_'] + two_digits(
            self.day,
        ) + seq!['_'] + two_digits(self.hour) + seq!['_'] + two_digits(self.minute) + seq!['_']
            + two_digits(self.second)
    }

    /// The time that a text writes, if it writes one: digits and underscores
    /// in their places, and a time that exists.
    pub open spec fn parse(text: Seq<char>) -> Option<Instant> {
        if text.len() != DATE_FORMAT_LENGTH || text[4] != '_' || text[7] != '_' || text[10] != '_'
            || text[13] != '_' || text[16] != '_' {
            None
        } else {
            match (
                two_digit_number(text[0], text[1]),
                two_digit_number(text[2], text[3]),
                two_digit_number(text[5], text[6]),
                two_digit_number(text[8], text[9]),
                two_digit_number(text[11], text[12]),
                two_digit_number(text[14], text[15]),
                two_digit_number(text[17], text[18]),
            ) {
                (Some(century), Some(years), Some(month), Some(day), Some(hour), Some(minute), Some(
                    second,
                )) => {
                    let instant = Instant {
                        year: century * 100 + years,
                        month,
                        day,
                        hour,
                        minute,
                        second,
                    };
                    if instant.valid() {
                        Some(instant)
                    } else {
                        None
                    }
                },
                _ => None,
            }
        }
    }
}

/// The time of creation that an identifier carries at its start, if it
/// carries one.
pub open spec fn created_at_of(file_name: Seq<char>) -> Option<Instant> {
    match prefix_text(file_name) {
        Some(prefix) => Instant::parse(prefix),
        None => None,
    }
}

/// A time of creation, to the second: one that the calendar and the clock
/// know, in a year of four digits. Times are ordered as they follow each
/// other.
#[derive(Clone, Copy, Debug, PartialEq, Eq, PartialOrd, Ord, Structural)]
pub struct Timestamp {
    year: u16,
    month: u8,
    day: u8,
    hour: u8,
    minute: u8,
    second: u8,
}

impl View for Timestamp {
    type V = Instant;

    closed spec fn view(&self) -> Instant {
        Instant {
            year: self.year as nat,
            month: self.month as nat,
            day: self.day as nat,
            hour: self.hour as nat,
            minute: self.minute as nat,
            second: self.second as nat,
        }
    }
}

/// The number of days of a month.
fn month_length(year: u16, month: u8) -> (days: u8)
    ensures
        days == days_in_month(year as nat, month as nat),
{
    if month == 2 {
        if year % 4 == 0 && (year % 100 != 0 || year % 400 == 0) {
            29
        } else {
            28
        }
    } else if month == 4 || month == 6 || month == 9 || month == 11 {
        30
    } else {
        31
    }
}

/// The number that a decimal digit stands for.
fn digit_of(c: char) -> (value: Option<u8>)
    ensures
        match value {
            Some(v) => digit_value(c) == Some(v as nat) && v <= 9,
            None => digit_value(c) is None,
        },
{
    if c == '0' {
        Some(0)
    } else if c == '1' {
        Some(1)
    } else if c == '2' {
        Some(2)
    } else if c == '3' {
        Some(3)
    } else if c == '4' {
        Some(4)
    } else if c == '5' {
        Some(5)
    } else if c == '6' {
        Some(6)
    } else if c == '7' {
        Some(7)
    } else if c == '8' {
        Some(8)
    } else if c == '9' {
        Some(9)
    } else {
        None
    }
}

/// The number that the two characters at `at` and behind it write.
fn number_at(text: &str, at: usize) -> (value: Option<u8>)
    requires
        at + 1 < text@.len(),
        at < DATE_FORMAT_LENGTH,
    ensures
        match value {
            Some(v) => two_digit_number(text@[at as int], text@[at + 1]) == Some(v as nat) && v
                <= 99,
            None => two_digit_number(text@[at as int], text@[at + 1]) is None,
        },
{
    match (digit_of(text.get_char(at)), digit_of(text.get_char(at + 1))) {
        (Some(tens), Some(ones)) => Some(tens * 10 + ones),
        _ => None,
    }
}

/// Appends a number below a hundred, in two digits.
fn push_two_digits(text: &mut String, n: u8)
    requires
        n <= 99,
    ensures
        final(text)@ == old(text)@ + two_digits(n as nat),
{
    text.push(digit_char((n / 10) as u128));
    text.push(digit_char((n % 10) as u128));
    assert(text@ =~= old(text)@ + two_digits(n as nat));
}

impl Timestamp {
    /// Every time of this type is one that exists.
    #[verifier::type_invariant]
    pub closed spec fn exists_in_calendar(self) -> bool {
        self@.valid()
    }

    /// What holds of every time that this type hands out.
    pub open spec fn wf(&self) -> bool {
        self@.valid()
    }

    /// The time with the given parts, if there is such a time.
    pub fn new(year: u16, month: u8, day: u8, hour: u8, minute: u8, second: u8) -> (timestamp:
        Option<Timestamp>)
        ensures
            match timestamp {
                Some(t) => t.wf() && t@ == (Instant {
                    year: year as nat,
                    month: month as nat,
                    day: day as nat,
                    hour: hour as nat,
                    minute: minute as nat,
                    second: second as nat,
                }),
                None => !(Instant {
                    year: year as nat,
                    month: month as nat,
                    day: day as nat,
                    hour: hour as nat,
                    minute: minute as nat,
                    second: second as nat,
                }).valid(),
            },
    {
        if year <= 9999 && 1 <= month && month <= 12 && 1 <= day && day <= month_length(year, month)
            && hour <= 23 && minute <= 59 && second <= 59 {
            Some(Timestamp { year, month, day, hour, minute, second })
        } else {
            None
        }
    }

    /// The time as one number: the digits of its parts in a row.
    pub fn number(&self) -> (number: u64)
        ensures
            self.wf(),
            number == self@.number(),
    {
        proof {
            use_type_invariant(self);
        }
        let date: u64 = (self.year as u64 * 100 + self.month as u64) * 100 + self.day as u64;
        let time: u64 = (self.hour as u64 * 100 + self.minute as u64) * 100 + self.second as u64;
        assert(date * 1000000 + time == self@.number()) by (nonlinear_arith)
            requires
                date == (self@.year * 100 + self@.month) * 100 + self@.day,
                time == (self@.hour * 100 + self@.minute) * 100 + self@.second,
        ;
        date * 1000000 + time
    }

    pub fn year(&self) -> (year: u16)
        ensures
            year == self@.year,
    {
        self.year
    }

    pub fn month(&self) -> (month: u8)
        ensures
            month == self@.month,
    {
        self.month
    }

    pub fn day(&self) -> (day: u8)
        ensures
            day == self@.day,
    {
        self.day
    }

    pub fn hour(&self) -> (hour: u8)
        ensures
            hour == self@.hour,
    {
        self.hour
    }

    pub fn minute(&self) -> (minute: u8)
        ensures
            minute == self@.minute,
    {
        self.minute
    }

    pub fn second(&self) -> (second: u8)
        ensures
            second == self@.second,
    {
        self.second
    }
}

/// Writes a time as identifiers carry it.
pub fn datetime_to_string(datetime: Timestamp) -> (text: String)
    ensures
        datetime.wf(),
        text@ == datetime@.text(),
        text@.len() == DATE_FORMAT_LENGTH,
{
    proof {
        use_type_invariant(&datetime);
    }
    let mut text = String::new();
    push_two_digits(&mut text, (datetime.year / 100) as u8);
    push_two_digits(&mut text, (datetime.year % 100) as u8);
    text.push('_');
    push_two_digits(&mut text, datetime.month);
    text.push('_');
    push_two_digits(&mut text, datetime.day);
    text.push('_');
    push_two_digits(&mut text, datetime.hour);
    text.push('_');
    push_two_digits(&mut text, datetime.minute);
    text.push('_');
    push_two_digits(&mut text, datetime.second);
    assert(text@ =~= datetime@.text());
    text
}

/// Reads the time of creation at the start of an identifier; `None` where
/// the identifier is too short, or does not start with a time that exists,
/// written in full width.
pub fn string_to_datetime(datetime: &str) -> (created_at: Option<Timestamp>)
    ensures
        match created_at {
            Some(t) => t.wf() && created_at_of(datetime@) == Some(t@),
            None => created_at_of(datetime@) is None,
        },
{
    let prefix = match timestamp_prefix(datetime) {
        Some(prefix) => prefix,
        None => return None,
    };
    if prefix.get_char(4) != '_' || prefix.get_char(7) != '_' || prefix.get_char(10) != '_'
        || prefix.get_char(13) != '_' || prefix.get_char(16) != '_' {
        return None;
    }
    match (
        number_at(prefix, 0),
        number_at(prefix, 2),
        number_at(prefix, 5),
        number_at(prefix, 8),
        number_at(prefix, 11),
        number_at(prefix, 14),
        number_at(prefix, 17),
    ) {
        (Some(century), Some(years), Some(month), Some(day), Some(hour), Some(minute), Some(
            second,
        )) => {
            let year: u16 = century as u16 * 100 + years as u16;
            Timestamp::new(year, month, day, hour, minute, second)
        },
        _ => None,
    }
}

/// Times follow each other as their numbers do, and different times have
/// different numbers.
pub proof fn lemma_number_orders_time(earlier: Instant, later: Instant)
    requires
        earlier.valid(),
        later.valid(),
    ensures
        earlier.before(later) <==> earlier.number() < later.number(),
        earlier.number() == later.number() <==> earlier == later,
{
}

/// A digit stands for the number that it was written for.
proof fn lemma_digit_round_trip(d: nat)
    requires
        d <= 9,
    ensures
        digit_value(digit(d)) == Some(d),
{
}

/// Two digits stand for the number that they were written for.
proof fn lemma_two_digits_round_trip(n: nat)
    requires
        n <= 99,
    ensures
        two_digits(n).len() == 2,
        two_digit_number(two_digits(n)[0], two_digits(n)[1]) == Some(n),
{
    lemma_digit_round_trip(n / 10);
    lemma_digit_round_trip(n % 10);
}

/// A written time reads as the time that was written.
pub proof fn lemma_timestamp_round_trip(instant: Instant)
    requires
        instant.valid(),
    ensures
        instant.text().len() == DATE_FORMAT_LENGTH,
        Instant::parse(instant.text()) == Some(instant),
{
    lemma_two_digits_round_trip(instant.year / 100);
    lemma_two_digits_round_trip(instant.year % 100);
    lemma_two_digits_round_trip(instant.month);
    lemma_two_digits_round_trip(instant.day);
    lemma_two_digits_round_trip(instant.hour);
    lemma_two_digits_round_trip(instant.minute);
    lemma_two_digits_round_trip(instant.second);
    let text = instant.text();
    assert(text.len() == 19);
    assert(text[0] == two_digits(instant.year / 100)[0]);
    assert(text[1] == two_digits(instant.year / 100)[1]);
    assert(text[2] == two_digits(instant.year % 100)[0]);
    assert(text[3] == two_digits(instant.year % 100)[1]);
    assert(text[4] == '_');
    assert(text[5] == two_digits(instant.month)[0]);
    assert(text[6] == two_digits(instant.month)[1]);
    assert(text[7] == '_');
    assert(text[8] == two_digits(instant.day)[0]);
    assert(text[9] == two_digits(instant.day)[1]);
    assert(text[10] == '_');
    assert(text[11] == two_digits(instant.hour)[0]);
    assert(text[12] == two_digits(instant.hour)[1]);
    assert(text[13] == '_');
    assert(text[14] == two_digits(instant.minute)[0]);
    assert(text[15] == two_digits(instant.minute)[1]);
    assert(text[16] == '_');
    assert(text[17] == two_digits(instant.second)[0]);
    assert(text[18] == two_digits(instant.second)[1]);
    assert((instant.year / 100) * 100 + instant.year % 100 == instant.year);
}

/// A note named at a time, with or without a suffix, carries that time: the
/// start of its identifier reads as the time at which it was named.
pub proof fn lemma_named_note_keeps_its_time(instant: Instant, suffix: Option<Seq<char>>)
    requires
        instant.valid(),
    ensures
        created_at_of(crate::kakisute_file::file_name_text(instant.text(), suffix)) == Some(
            instant,
        ),
        suffix matches Some(given) ==> crate::kakisute_file::suffix_text(
            crate::kakisute_file::file_name_text(instant.text(), suffix),
        ) == Some(given),
{
    lemma_timestamp_round_trip(instant);
    match suffix {
        Some(given) => {
            crate::kakisute_file::lemma_file_name_round_trip(instant.text(), given);
        },
        None => {
            crate::kakisute_file::lemma_file_name_round_trip(instant.text(), Seq::<char>::empty());
        },
    }
}

} // verus!
