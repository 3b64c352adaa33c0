//! The lines and the names of the logs, which tell the local time.

use crate::places::{is_log_dir, log_dir, Location, LocationView};
use crate::text::{decimal, joined3, padded, padding_is_zeros_in_front};
use vstd::prelude::*;

verus! {

/// A moment of local time.
pub struct Moment {
    pub year: int,
    pub month: nat,
    pub day: nat,
    pub hour: nat,
    pub minute: nat,
    pub second: nat,
    pub nanosecond: nat,
}

/// Whether a year of the Gregorian calendar has a leap day.
pub open spec fn is_leap_year(year: int) -> bool {
    year % 4 == 0 && (year % 100 != 0 || year % 400 == 0)
}

/// The number of days of a month.
pub open spec fn days_in(year: int, month: nat) -> nat {
    if month == 2 {
        if is_leap_year(year) {
            29
        } else {
            28
        }
    } else if month == 4 || month == 6 || month == 9 || month == 11 {
        30
    } else {
        31
    }
}

impl Moment {
    /// Whether the calendar and the clock know this moment.
    pub open spec fn valid(self) -> bool {
        &&& 1 <= self.month <= 12
        &&& 1 <= self.day <= days_in(self.year, self.month)
        &&& self.hour < 24
        &&& self.minute < 60
        &&& self.second < 60
        &&& self.nanosecond < 1_000_000_000
    }

    /// The year, with a sign where it has not four digits.
    pub open spec fn year_text(self) -> Seq<char> {
        if 0 <= self.year <= 9999 {
            padded(self.year as nat, 4)
        } else if self.year < 0 {
            "-"@ + padded((-self.year) as nat, 4)
        } else {
            "+"@ + padded(self.year as nat, 4)
        }
    }

    /// The time of day, to the millisecond.
    pub open spec fn clock_text(self) -> Seq<char> {
        padded(self.hour, 2) + ":"@ + padded(self.minute, 2) + ":"@ + padded(self.second, 2)
            + "."@ + padded(self.nanosecond / 1_000_000, 3)
    }

    /// The date and the time of day.
    pub open spec fn stamp_text(self) -> Seq<char> {
        self.year_text() + "-"@ + padded(self.month, 2) + "-"@ + padded(self.day, 2) + " "@
            + padded(self.hour, 2) + ":"@ + padded(self.minute, 2) + ":"@ + padded(self.second, 2)
    }

    /// The name of a log that is begun at this moment.
    pub open spec fn log_name(self) -> Seq<char> {
        self.year_text() + padded(self.month, 2) + padded(self.day, 2) + "_"@ + padded(
            self.hour,
            2,
        ) + padded(self.minute, 2) + padded(self.second, 2) + "_log.txt"@
    }
}

/// How a moment is written by one of the patterns in use.
pub open spec fn rendered(moment: Moment, pattern: Seq<char>) -> Seq<char> {
    if pattern == "%H:%M:%S%.3f"@ {
        moment.clock_text()
    } else if pattern == "%Y-%m-%d %H:%M:%S"@ {
        moment.stamp_text()
    } else {
        moment.log_name()
    }
}

/// Whether a text is a moment, written by this pattern.
pub open spec fn shows_a_moment(text: Seq<char>, pattern: Seq<char>) -> bool {
    exists|moment: Moment| moment.valid() && text == #[trigger] rendered(moment, pattern)
}

/// `chrono::Local::now`, written by `DateTime::format`: some moment of the
/// calendar, in the way that the pattern asks for. `%Y` is the year with four
/// digits, or with a sign where they do not suffice, the other letters are numbers
/// with two digits, and `%.3f` is a dot and the milliseconds with three. Which
/// moment it is depends on the clock and the time zone of the machine. The call
/// panics where the clock stands before 1970 or beyond the years that `chrono`
/// counts, and where the machine's time zone cannot be told.
#[verifier::external_body]
fn now_text(pattern: &str) -> (r: String)
    requires
        pattern@ == "%H:%M:%S%.3f"@ || pattern@ == "%Y-%m-%d %H:%M:%S"@ || pattern@
            == "%Y%m%d_%H%M%S_log.txt"@,
    ensures
        shows_a_moment(r@, pattern@),
{
    chrono::Local::now().format(pattern).to_string()
}

/// The three patterns differ.
proof fn patterns_differ()
    ensures
        "%H:%M:%S%.3f"@ != "%Y-%m-%d %H:%M:%S"@,
        "%H:%M:%S%.3f"@ != "%Y%m%d_%H%M%S_log.txt"@,
        "%Y-%m-%d %H:%M:%S"@ != "%Y%m%d_%H%M%S_log.txt"@,
{
    reveal_strlit("%H:%M:%S%.3f");
    reveal_strlit("%Y-%m-%d %H:%M:%S");
    reveal_strlit("%Y%m%d_%H%M%S_log.txt");
    assert("%H:%M:%S%.3f"@[1] == 'H');
    assert("%Y-%m-%d %H:%M:%S"@[1] == 'Y' && "%Y-%m-%d %H:%M:%S"@[2] == '-');
    assert("%Y%m%d_%H%M%S_log.txt"@[1] == 'Y' && "%Y%m%d_%H%M%S_log.txt"@[2] == '%');
}

/// A line of a log.
pub open spec fn line_of(stamp: Seq<char>, message: Seq<char>) -> Seq<char> {
    "["@ + stamp + "] "@ + message + "\n"@
}

/// A line of a log, for a message at the time that `stamp` tells.
pub fn log_line(stamp: &str, message: &str) -> (r: String)
    ensures
        r@ == line_of(stamp@, message@),
        r@ == "["@ + stamp@ + "] "@ + message@ + "\n"@,
{
    joined3("[", stamp, "] ").concat(message).concat("\n")
}

/// Whether [`now_text`] may return `stamp` for the pattern of an installation's
/// log.
pub closed spec fn is_stamp_now(stamp: String) -> bool {
    call_ensures(now_text, ("%Y-%m-%d %H:%M:%S",), stamp)
}

/// The line that a message gets in the log of an installation now.
pub fn write_log(msg: &str) -> (r: String)
    ensures
        exists|stamp: String| #[trigger] is_stamp_now(stamp) && r@ == line_of(stamp@, msg@),
        exists|moment: Moment|
            moment.valid() && r@ == line_of(#[trigger] moment.stamp_text(), msg@),
{
    let stamp = now_text("%Y-%m-%d %H:%M:%S");
    assert(is_stamp_now(stamp));
    proof {
        patterns_differ();
        let moment = choose|moment: Moment|
            moment.valid() && stamp@ == #[trigger] rendered(moment, "%Y-%m-%d %H:%M:%S"@);
        assert(stamp@ == moment.stamp_text());
    }
    log_line(stamp.as_str(), msg)
}

/// Whether [`now_text`] may return `stamp` for the pattern of the log of the
/// program's start.
pub closed spec fn is_clock_now(stamp: String) -> bool {
    call_ensures(now_text, ("%H:%M:%S%.3f",), stamp)
}

/// The line that a message gets in the log of the program's start now.
pub fn debug_log(msg: &str) -> (r: String)
    ensures
        exists|stamp: String| #[trigger] is_clock_now(stamp) && r@ == line_of(stamp@, msg@),
        exists|moment: Moment|
            moment.valid() && r@ == line_of(#[trigger] moment.clock_text(), msg@),
{
    let stamp = now_text("%H:%M:%S%.3f");
    assert(is_clock_now(stamp));
    proof {
        let moment = choose|moment: Moment|
            moment.valid() && stamp@ == #[trigger] rendered(moment, "%H:%M:%S%.3f"@);
        assert(stamp@ == moment.clock_text());
    }
    log_line(stamp.as_str(), msg)
}

/// Whether [`now_text`] may return `name` for the pattern of a log's name.
pub closed spec fn is_log_name_now(name: String) -> bool {
    call_ensures(now_text, ("%Y%m%d_%H%M%S_log.txt",), name)
}

/// Whether a location is that of a log that is begun at some moment.
pub open spec fn is_log_file(location: LocationView) -> bool {
    exists|dir: LocationView, moment: Moment|
        #[trigger] is_log_dir(dir) && moment.valid() && location == dir.join(
            #[trigger] moment.log_name(),
        )
}

/// The file of a log that is begun now.
pub fn create_log_file() -> (r: Location)
    ensures
        exists|dir: LocationView, name: String| #[trigger]
            is_log_dir(dir) && #[trigger] is_log_name_now(name) && r@ == dir.join(name@),
        is_log_file(r@),
{
    let name = now_text("%Y%m%d_%H%M%S_log.txt");
    let dir = log_dir();
    assert(is_log_dir(dir@) && is_log_name_now(name));
    let r = dir.join(name.as_str());
    proof {
        patterns_differ();
        let moment = choose|moment: Moment|
            moment.valid() && name@ == #[trigger] rendered(moment, "%Y%m%d_%H%M%S_log.txt"@);
        assert(name@ == moment.log_name());
    }
    r
}

/// A line of a log is the stamp in square brackets, a space, the message, and the
/// end of the line.
pub proof fn line_holds_stamp_and_message(stamp: Seq<char>, message: Seq<char>)
    ensures
        line_of(stamp, message) == "["@ + stamp + "] "@ + message + "\n"@,
{
}

/// The logs are stamped by the clock: what a stamp or a name may be is what the
/// clock may say for its pattern.
proof fn stamps_are_the_clocks(text: String)
    ensures
        is_stamp_now(text) <==> call_ensures(now_text, ("%Y-%m-%d %H:%M:%S",), text),
        is_clock_now(text) <==> call_ensures(now_text, ("%H:%M:%S%.3f",), text),
        is_log_name_now(text) <==> call_ensures(now_text, ("%Y%m%d_%H%M%S_log.txt",), text),
{
}

/// Two digits for a number below a hundred, four for one below ten thousand.
proof fn padded_width(n: nat, width: nat)
    requires
        width == 2 && n < 100 || width == 3 && n < 1000 || width == 4 && n < 10000,
    ensures
        padded(n, width).len() == width,
{
    reveal_with_fuel(decimal, 5);
    padding_is_zeros_in_front(n, width);
}

/// How the moments of the years that have four digits are written: the date and
/// the time of day from the year down to the second, with two digits each behind
/// the year.
pub proof fn stamp_goes_from_year_to_second(moment: Moment)
    requires
        moment.valid(),
        0 <= moment.year <= 9999,
    ensures
        moment.stamp_text().len() == 19,
        moment.stamp_text().subrange(0, 4) == padded(moment.year as nat, 4),
        moment.stamp_text()[4] == '-' && moment.stamp_text()[7] == '-',
        moment.stamp_text().subrange(5, 7) == padded(moment.month, 2),
        moment.stamp_text().subrange(8, 10) == padded(moment.day, 2),
        moment.stamp_text()[10] == ' ',
        moment.stamp_text().subrange(11, 13) == padded(moment.hour, 2),
        moment.stamp_text()[13] == ':' && moment.stamp_text()[16] == ':',
        moment.stamp_text().subrange(14, 16) == padded(moment.minute, 2),
        moment.stamp_text().subrange(17, 19) == padded(moment.second, 2),
{
    moment_widths(moment);
    let t = moment.stamp_text();
    assert(t.subrange(0, 4) =~= padded(moment.year as nat, 4));
    assert(t.subrange(5, 7) =~= padded(moment.month, 2));
    assert(t.subrange(8, 10) =~= padded(moment.day, 2));
    assert(t.subrange(11, 13) =~= padded(moment.hour, 2));
    assert(t.subrange(14, 16) =~= padded(moment.minute, 2));
    assert(t.subrange(17, 19) =~= padded(moment.second, 2));
}

proof fn moment_widths(moment: Moment)
    requires
        moment.valid(),
    ensures
        0 <= moment.year <= 9999 ==> padded(moment.year as nat, 4).len() == 4,
        padded(moment.month, 2).len() == 2,
        padded(moment.day, 2).len() == 2,
        padded(moment.hour, 2).len() == 2,
        padded(moment.minute, 2).len() == 2,
        padded(moment.second, 2).len() == 2,
        padded(moment.nanosecond / 1_000_000, 3).len() == 3,
        "-"@ == seq!['-'] && ":"@ == seq![':'] && " "@ == seq![' '] && "_"@ == seq!['_'] && "."@
            == seq!['.'],
        "_log.txt"@.len() == 8,
{
    if 0 <= moment.year <= 9999 {
        padded_width(moment.year as nat, 4);
    }
    padded_width(moment.month, 2);
    padded_width(moment.day, 2);
    padded_width(moment.hour, 2);
    padded_width(moment.minute, 2);
    padded_width(moment.second, 2);
    padded_width(moment.nanosecond / 1_000_000, 3);
    reveal_strlit("-");
    reveal_strlit(":");
    reveal_strlit(" ");
    reveal_strlit("_");
    reveal_strlit(".");
    reveal_strlit("_log.txt");
    assert("-"@ =~= seq!['-']);
    assert(":"@ =~= seq![':']);
    assert(" "@ =~= seq![' ']);
    assert("_"@ =~= seq!['_']);
    assert("."@ =~= seq!['.']);
}

/// The time of day is written from the hour down to the millisecond.
pub proof fn clock_goes_from_hour_to_millisecond(moment: Moment)
    requires
        moment.valid(),
    ensures
        moment.clock_text().len() == 12,
        moment.clock_text().subrange(0, 2) == padded(moment.hour, 2),
        moment.clock_text()[2] == ':' && moment.clock_text()[5] == ':' && moment.clock_text()[8]
            == '.',
        moment.clock_text().subrange(3, 5) == padded(moment.minute, 2),
        moment.clock_text().subrange(6, 8) == padded(moment.second, 2),
        moment.clock_text().subrange(9, 12) == padded(moment.nanosecond / 1_000_000, 3),
{
    moment_widths(moment);
    let t = moment.clock_text();
    assert(t.subrange(0, 2) =~= padded(moment.hour, 2));
    assert(t.subrange(3, 5) =~= padded(moment.minute, 2));
    assert(t.subrange(6, 8) =~= padded(moment.second, 2));
    assert(t.subrange(9, 12) =~= padded(moment.nanosecond / 1_000_000, 3));
}

/// The name of a log holds the date and the time of day, in the years that have
/// four digits, so that names sort as their moments do.
pub proof fn log_name_goes_from_year_to_second(moment: Moment)
    requires
        moment.valid(),
        0 <= moment.year <= 9999,
    ensures
        moment.log_name().len() == 23,
        moment.log_name().subrange(0, 4) == padded(moment.year as nat, 4),
        moment.log_name().subrange(4, 6) == padded(moment.month, 2),
        moment.log_name().subrange(6, 8) == padded(moment.day, 2),
        moment.log_name()[8] == '_',
        moment.log_name().subrange(9, 11) == padded(moment.hour, 2),
        moment.log_name().subrange(11, 13) == padded(moment.minute, 2),
        moment.log_name().subrange(13, 15) == padded(moment.second, 2),
        moment.log_name().subrange(15, 23) == "_log.txt"@,
{
    moment_widths(moment);
    let t = moment.log_name();
    assert(t.subrange(0, 4) =~= padded(moment.year as nat, 4));
    assert(t.subrange(4, 6) =~= padded(moment.month, 2));
    assert(t.subrange(6, 8) =~= padded(moment.day, 2));
    assert(t.subrange(9, 11) =~= padded(moment.hour, 2));
    assert(t.subrange(11, 13) =~= padded(moment.minute, 2));
    assert(t.subrange(13, 15) =~= padded(moment.second, 2));
    assert(t.subrange(15, 23) =~= "_log.txt"@);
}

/// A valid moment has a month of the year, a day of a month and a time of day.
pub proof fn valid_moments_are_in_the_calendar(moment: Moment)
    requires
        moment.valid(),
    ensures
        1 <= moment.month <= 12,
        1 <= moment.day <= 31,
        moment.month == 4 || moment.month == 6 || moment.month == 9 || moment.month == 11
            ==> moment.day <= 30,
        moment.month == 2 ==> moment.day <= 29,
        moment.month == 2 && moment.day == 29 ==> moment.year % 4 == 0,
        moment.hour < 24 && moment.minute < 60 && moment.second < 60,
        moment.nanosecond < 1_000_000_000,
{
}

/// A year that has not four digits is written with its sign.
pub proof fn other_years_have_a_sign(moment: Moment)
    ensures
        moment.year > 9999 ==> moment.year_text() == seq!['+'] + padded(moment.year as nat, 4),
        moment.year < 0 ==> moment.year_text() == seq!['-'] + padded((-moment.year) as nat, 4),
        0 <= moment.year <= 9999 ==> moment.year_text() == padded(moment.year as nat, 4),
{
    reveal_strlit("+");
    reveal_strlit("-");
    assert("+"@ =~= seq!['+']);
    assert("-"@ =~= seq!['-']);
}

} // verus!
