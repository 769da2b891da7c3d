//! The four shapes in which a date or a time may be typed, and the wall-clock
//! reading that a text of each shape stands for.
//!
//! | shape          | form                    | reading                              |
//! |----------------|-------------------------|--------------------------------------|
//! | date           | `YYYY-MM-DD`            | that date, at 00:00                  |
//! | short time     | `H[H][:MM][ ](am\|pm)`  | today, hour as typed, 12 more for pm |
//! | time           | `H[H]:MM`               | today, at that time                  |
//! | date and time  | `YYYY-MM-DD H[H]:MM`    | as typed                             |
//!
//! Every letter of these forms but the blank is an ASCII character; a digit is
//! one of `0` to `9`. The blank before `am` or `pm` is any single white-space
//! character. Texts are taken as they are: lowering `AM` to `am` is the
//! caller's business. "Today" is the date of a reading that the caller hands
//! in.
//!
//! The hour of a short time is not folded onto a 12-hour dial: `12am` reads as
//! 12:00 and `12pm` as hour 24, which no day has. Whether a reading is a time
//! that exists is not decided here.

use vstd::prelude::*;
use vstd::string::*;

verus! {

/// A reading of calendar and clock, without a zone.
///
/// The fields are plain numbers: nothing here says that they form a date that
/// the calendar has.
#[derive(Clone, Copy, Debug, PartialEq, Eq)]
pub struct WallClock {
    pub year: i32,
    pub month: u32,
    pub day: u32,
    pub hour: u32,
    pub minute: u32,
    pub second: u32,
    pub nanosecond: u32,
}

/// Whether a character is one of `0` to `9`.
pub open spec fn is_digit(c: char) -> bool {
    '0' <= c <= '9'
}

/// The number that a digit stands for.
pub open spec fn digit_value(c: char) -> int {
    c as u32 - '0' as u32
}

/// Whether a character has the Unicode property White_Space.
pub open spec fn is_white_space(c: char) -> bool {
    let code = c as u32;
    ||| 0x09 <= code <= 0x0d
    ||| code == 0x20
    ||| code == 0x85
    ||| code == 0xa0
    ||| code == 0x1680
    ||| 0x2000 <= code <= 0x200a
    ||| code == 0x2028
    ||| code == 0x2029
    ||| code == 0x202f
    ||| code == 0x205f
    ||| code == 0x3000
}

/// Whether `count` digits stand in `text` from position `at` on.
pub open spec fn digits_at(text: Seq<char>, at: int, count: int) -> bool {
    &&& 0 <= at
    &&& 0 <= count
    &&& at + count <= text.len()
    &&& forall|i: int| at <= i < at + count ==> is_digit(#[trigger] text[i])
}

/// The number that the two digits at `at` spell.
pub open spec fn pair_at(text: Seq<char>, at: int) -> int {
    digit_value(text[at]) * 10 + digit_value(text[at + 1])
}

/// The number that the first `count` digits spell, for one digit or two.
pub open spec fn leading_value(text: Seq<char>, count: int) -> int {
    if count == 1 {
        digit_value(text[0])
    } else {
        pair_at(text, 0)
    }
}

/// The shape `YYYY-MM-DD`.
pub open spec fn is_date(text: Seq<char>) -> bool {
    &&& text.len() == 10
    &&& digits_at(text, 0, 4)
    &&& text[4] == '-'
    &&& digits_at(text, 5, 2)
    &&& text[7] == '-'
    &&& digits_at(text, 8, 2)
}

/// The shape `H` or `HH`.
pub open spec fn is_hour(text: Seq<char>) -> bool {
    &&& 1 <= text.len() <= 2
    &&& digits_at(text, 0, text.len() as int)
}

/// The shape `H:MM` or `HH:MM`.
pub open spec fn is_time(text: Seq<char>) -> bool {
    &&& 4 <= text.len() <= 5
    &&& digits_at(text, 0, text.len() - 3)
    &&& text[text.len() - 3] == ':'
    &&& digits_at(text, text.len() - 2, 2)
}

/// The shape `YYYY-MM-DD H:MM` or `YYYY-MM-DD HH:MM`, with one space between
/// date and time.
pub open spec fn is_date_and_time(text: Seq<char>) -> bool {
    &&& 15 <= text.len() <= 16
    &&& is_date(text.subrange(0, 10))
    &&& text[10] == ' '
    &&& is_time(text.subrange(11, text.len() as int))
}

/// What stands before `am` or `pm` in a short time, without the blank that may
/// part the two.
pub open spec fn short_time_body(text: Seq<char>) -> Seq<char> {
    let head = text.subrange(0, text.len() - 2);
    if head.len() > 0 && is_white_space(head.last()) {
        head.drop_last()
    } else {
        head
    }
}

/// The shape of a short time: an hour, or an hour and minutes, then at most
/// one blank, then `am` or `pm`.
pub open spec fn is_short_time(text: Seq<char>) -> bool {
    &&& text.len() >= 3
    &&& text[text.len() - 2] == 'a' || text[text.len() - 2] == 'p'
    &&& text[text.len() - 1] == 'm'
    &&& is_hour(short_time_body(text)) || is_time(short_time_body(text))
}

/// The hour that a text of shape `H[H]` or `H[H]:MM` names.
pub open spec fn hour_of(text: Seq<char>) -> int {
    if is_hour(text) {
        leading_value(text, text.len() as int)
    } else {
        leading_value(text, text.len() - 3)
    }
}

/// The minute that a text of shape `H[H]` or `H[H]:MM` names: none typed is 0.
pub open spec fn minute_of(text: Seq<char>) -> int {
    if is_hour(text) {
        0
    } else {
        pair_at(text, text.len() - 2)
    }
}

/// The year that a text of shape `YYYY-MM-DD` names.
pub open spec fn year_of(text: Seq<char>) -> int {
    pair_at(text, 0) * 100 + pair_at(text, 2)
}

/// The reading of a date: that day at 00:00.
pub open spec fn date_reading(text: Seq<char>) -> WallClock {
    WallClock {
        year: year_of(text) as i32,
        month: pair_at(text, 5) as u32,
        day: pair_at(text, 8) as u32,
        hour: 0,
        minute: 0,
        second: 0,
        nanosecond: 0,
    }
}

/// The reading of a time: the day of `now`, at the hour and minute typed.
pub open spec fn time_reading(text: Seq<char>, now: WallClock) -> WallClock {
    WallClock {
        year: now.year,
        month: now.month,
        day: now.day,
        hour: hour_of(text) as u32,
        minute: minute_of(text) as u32,
        second: 0,
        nanosecond: 0,
    }
}

/// The reading of a short time: the day of `now`, the minute typed or 0, and
/// the hour typed, to which `pm` adds 12.
pub open spec fn short_time_reading(text: Seq<char>, now: WallClock) -> WallClock {
    let body = short_time_body(text);
    let typed = hour_of(body);
    let hour = if text[text.len() - 2] == 'p' {
        typed + 12
    } else {
        typed
    };
    WallClock {
        year: now.year,
        month: now.month,
        day: now.day,
        hour: hour as u32,
        minute: minute_of(body) as u32,
        second: 0,
        nanosecond: 0,
    }
}

/// The reading of a date and a time: the date typed, at the time typed.
pub open spec fn date_and_time_reading(text: Seq<char>) -> WallClock {
    let date = date_reading(text.subrange(0, 10));
    let time = text.subrange(11, text.len() as int);
    WallClock {
        year: date.year,
        month: date.month,
        day: date.day,
        hour: hour_of(time) as u32,
        minute: minute_of(time) as u32,
        second: 0,
        nanosecond: 0,
    }
}

/// The reading that a text stands for, where it has one of the four shapes.
/// The shapes are tried in this order: date, short time, time, date and time.
pub open spec fn wall_clock_of(text: Seq<char>, now: WallClock) -> Option<WallClock> {
    if is_date(text) {
        Some(date_reading(text))
    } else if is_short_time(text) {
        Some(short_time_reading(text, now))
    } else if is_time(text) {
        Some(time_reading(text, now))
    } else if is_date_and_time(text) {
        Some(date_and_time_reading(text))
    } else {
        None
    }
}

fn digit_char(c: char) -> (yes: bool)
    ensures
        yes == is_digit(c),
{
    '0' <= c && c <= '9'
}

fn white_space_char(c: char) -> (yes: bool)
    ensures
        yes == is_white_space(c),
{
    let code: u32 = c as u32;
    (0x09 <= code && code <= 0x0d) || code == 0x20 || code == 0x85 || code == 0xa0 || code
        == 0x1680 || (0x2000 <= code && code <= 0x200a) || code == 0x2028 || code == 0x2029
        || code == 0x202f || code == 0x205f || code == 0x3000
}

fn has_digits(text: &str, at: usize, count: usize) -> (yes: bool)
    requires
        at + count <= text@.len(),
        at + count <= usize::MAX,
    ensures
        yes == digits_at(text@, at as int, count as int),
{
    let mut done: usize = 0;
    while done < count
        invariant
            done <= count,
            at + count <= text@.len(),
            at + count <= usize::MAX,
            digits_at(text@, at as int, done as int),
        decreases count - done,
    {
        if !digit_char(text.get_char(at + done)) {
            return false;
        }
        done += 1;
    }
    true
}

fn digit_in(text: &str, at: usize) -> (value: u32)
    requires
        at < text@.len(),
        is_digit(text@[at as int]),
    ensures
        value == digit_value(text@[at as int]),
        value <= 9,
{
    text.get_char(at) as u32 - 48
}

fn pair_in(text: &str, at: usize) -> (value: u32)
    requires
        digits_at(text@, at as int, 2),
        at + 2 <= usize::MAX,
    ensures
        value == pair_at(text@, at as int),
        value <= 99,
{
    digit_in(text, at) * 10 + digit_in(text, at + 1)
}

fn leading_in(text: &str, count: usize) -> (value: u32)
    requires
        1 <= count <= 2,
        digits_at(text@, 0, count as int),
    ensures
        value == leading_value(text@, count as int),
        value <= 99,
{
    if count == 1 {
        digit_in(text, 0)
    } else {
        pair_in(text, 0)
    }
}

/// Whether a text has the shape `YYYY-MM-DD`.
pub fn matches_date(text: &str) -> (yes: bool)
    ensures
        yes == is_date(text@),
{
    text.unicode_len() == 10 && has_digits(text, 0, 4) && text.get_char(4) == '-' && has_digits(
        text,
        5,
        2,
    ) && text.get_char(7) == '-' && has_digits(text, 8, 2)
}

/// Whether a text has the shape `H` or `HH`.
pub fn matches_hour(text: &str) -> (yes: bool)
    ensures
        yes == is_hour(text@),
{
    let len = text.unicode_len();
    1 <= len && len <= 2 && has_digits(text, 0, len)
}

/// Whether a text has the shape `H:MM` or `HH:MM`.
pub fn matches_time(text: &str) -> (yes: bool)
    ensures
        yes == is_time(text@),
{
    let len = text.unicode_len();
    4 <= len && len <= 5 && has_digits(text, 0, len - 3) && text.get_char(len - 3) == ':'
        && has_digits(text, len - 2, 2)
}

/// Whether a text has the shape `YYYY-MM-DD H[H]:MM`.
pub fn matches_date_and_time(text: &str) -> (yes: bool)
    ensures
        yes == is_date_and_time(text@),
{
    let len = text.unicode_len();
    15 <= len && len <= 16 && matches_date(text.substring_char(0, 10)) && text.get_char(10) == ' '
        && matches_time(text.substring_char(11, len))
}

/// What stands before `am` or `pm`, without the blank that may part the two.
fn body_of_short_time(text: &str) -> (body: &str)
    requires
        text@.len() >= 2,
    ensures
        body@ == short_time_body(text@),
{
    let len = text.unicode_len();
    let head = text.substring_char(0, len - 2);
    if len > 2 && white_space_char(head.get_char(len - 3)) {
        let body = head.substring_char(0, len - 3);
        assert(body@ =~= head@.drop_last());
        body
    } else {
        head
    }
}

/// Whether a text has the shape of a short time.
pub fn matches_short_time(text: &str) -> (yes: bool)
    ensures
        yes == is_short_time(text@),
{
    let len = text.unicode_len();
    if len < 3 {
        return false;
    }
    let meridiem = text.get_char(len - 2);
    if !(meridiem == 'a' || meridiem == 'p') || text.get_char(len - 1) != 'm' {
        return false;
    }
    let body = body_of_short_time(text);
    matches_hour(body) || matches_time(body)
}

/// The hour and the minute of a text of shape `H[H]` or `H[H]:MM`.
fn hour_and_minute(text: &str) -> (read: (u32, u32))
    requires
        is_hour(text@) || is_time(text@),
    ensures
        read.0 == hour_of(text@),
        read.1 == minute_of(text@),
        read.0 <= 99,
        read.1 <= 99,
{
    let len = text.unicode_len();
    if len <= 2 {
        (leading_in(text, len), 0)
    } else {
        (leading_in(text, len - 3), pair_in(text, len - 2))
    }
}

/// Reads a date: that day at 00:00.
pub fn parse_date(date: &str) -> (reading: WallClock)
    requires
        is_date(date@),
    ensures
        reading == date_reading(date@),
{
    let century = pair_in(date, 0);
    let years = pair_in(date, 2);
    WallClock {
        year: (century * 100 + years) as i32,
        month: pair_in(date, 5),
        day: pair_in(date, 8),
        hour: 0,
        minute: 0,
        second: 0,
        nanosecond: 0,
    }
}

/// Reads a time on the day of `reference_now`.
pub fn parse_time(time: &str, reference_now: &WallClock) -> (reading: WallClock)
    requires
        is_time(time@),
    ensures
        reading == time_reading(time@, *reference_now),
{
    let (hour, minute) = hour_and_minute(time);
    WallClock {
        year: reference_now.year,
        month: reference_now.month,
        day: reference_now.day,
        hour,
        minute,
        second: 0,
        nanosecond: 0,
    }
}

/// Reads a short time on the day of `reference_now`: the hour as typed for
/// `am`, 12 more for `pm`; minutes that were not typed are 0.
pub fn parse_short_time(short_time: &str, reference_now: &WallClock) -> (reading: WallClock)
    requires
        is_short_time(short_time@),
    ensures
        reading == short_time_reading(short_time@, *reference_now),
{
    let len = short_time.unicode_len();
    let (typed, minute) = hour_and_minute(body_of_short_time(short_time));
    let hour = if short_time.get_char(len - 2) == 'p' {
        typed + 12
    } else {
        typed
    };
    WallClock {
        year: reference_now.year,
        month: reference_now.month,
        day: reference_now.day,
        hour,
        minute,
        second: 0,
        nanosecond: 0,
    }
}

/// Reads a date and a time.
pub fn parse_date_and_time(text: &str) -> (reading: WallClock)
    requires
        is_date_and_time(text@),
    ensures
        reading == date_and_time_reading(text@),
{
    let len = text.unicode_len();
    let date = parse_date(text.substring_char(0, 10));
    let (hour, minute) = hour_and_minute(text.substring_char(11, len));
    WallClock {
        year: date.year,
        month: date.month,
        day: date.day,
        hour,
        minute,
        second: 0,
        nanosecond: 0,
    }
}

/// The reading that a text stands for, where it has one of the four shapes.
pub fn read_wall_clock(text: &str, reference_now: &WallClock) -> (reading: Option<WallClock>)
    ensures
        reading == wall_clock_of(text@, *reference_now),
{
    if matches_date(text) {
        Some(parse_date(text))
    } else if matches_short_time(text) {
        Some(parse_short_time(text, reference_now))
    } else if matches_time(text) {
        Some(parse_time(text, reference_now))
    } else if matches_date_and_time(text) {
        Some(parse_date_and_time(text))
    } else {
        None
    }
}

/// The four shapes exclude one another: no text has two of them.
pub proof fn shapes_are_disjoint(text: Seq<char>)
    ensures
        !(is_date(text) && is_short_time(text)),
        !(is_date(text) && is_time(text)),
        !(is_date(text) && is_date_and_time(text)),
        !(is_short_time(text) && is_time(text)),
        !(is_short_time(text) && is_date_and_time(text)),
        !(is_time(text) && is_date_and_time(text)),
{
    if is_short_time(text) {
        assert(!is_digit(text[text.len() - 1]));
        if is_date(text) {
            assert(is_digit(text[9]));
        }
        if is_time(text) {
            assert(is_digit(text[text.len() - 1]));
        }
        if is_date_and_time(text) {
            let time = text.subrange(11, text.len() as int);
            assert(is_digit(time[time.len() - 1]));
        }
    }
}

} // verus!
