//! Migration versions: the text that names and orders a migration, taken
//! from the caller or from the clock.

use crate::text::{lex_lt, opt_text};
use chrono::{DateTime, Datelike, Timelike};
use vstd::prelude::*;
use vstd::string::*;

verus! {

/// A moment in UTC, field by field.
#[derive(Debug, Clone, Copy, PartialEq, Eq)]
pub struct UtcMoment {
    pub year: i32,
    pub month: u32,
    pub day: u32,
    pub hour: u32,
    pub minute: u32,
    pub second: u32,
}

impl UtcMoment {
    /// The moment can be written in fourteen digits: a year of four digits,
    /// and month, day, hour, minute and second within their calendar ranges.
    pub open spec fn in_range(self) -> bool {
        &&& 0 <= self.year <= 9999
        &&& 1 <= self.month <= 12
        &&& 1 <= self.day <= 31
        &&& self.hour <= 23
        &&& self.minute <= 59
        &&& self.second <= 59
    }

    /// `self` is earlier than `other`.
    pub open spec fn before(self, other: UtcMoment) -> bool {
        ||| self.year < other.year
        ||| self.year == other.year && self.month < other.month
        ||| self.year == other.year && self.month == other.month && self.day < other.day
        ||| self.year == other.year && self.month == other.month && self.day == other.day
            && self.hour < other.hour
        ||| self.year == other.year && self.month == other.month && self.day == other.day
            && self.hour == other.hour && self.minute < other.minute
        ||| self.year == other.year && self.month == other.month && self.day == other.day
            && self.hour == other.hour && self.minute == other.minute && self.second
            < other.second
    }

    /// Whether the moment can be written in fourteen digits.
    pub fn fits(&self) -> (r: bool)
        ensures
            r == self.in_range(),
    {
        0 <= self.year && self.year <= 9999 && 1 <= self.month && self.month <= 12 && 1 <= self.day
            && self.day <= 31 && self.hour <= 23 && self.minute <= 59 && self.second <= 59
    }
}

/// The character of a decimal digit.
pub open spec fn digit_char(d: int) -> char {
    if d == 0 {
        '0'
    } else if d == 1 {
        '1'
    } else if d == 2 {
        '2'
    } else if d == 3 {
        '3'
    } else if d == 4 {
        '4'
    } else if d == 5 {
        '5'
    } else if d == 6 {
        '6'
    } else if d == 7 {
        '7'
    } else if d == 8 {
        '8'
    } else {
        '9'
    }
}

/// A character is a decimal digit.
pub open spec fn is_digit(c: char) -> bool {
    '0' <= c <= '9'
}

/// `v` in two decimal digits, with a leading zero where it has one digit.
pub open spec fn two_digits(v: int) -> Seq<char> {
    seq![digit_char(v / 10), digit_char(v % 10)]
}

/// `v` in four decimal digits, with leading zeros.
pub open spec fn four_digits(v: int) -> Seq<char> {
    two_digits(v / 100) + two_digits(v % 100)
}

/// The version that a moment gives: year, month, day, hour, minute and
/// second in fourteen digits.
pub open spec fn timestamp_text(m: UtcMoment) -> Seq<char> {
    four_digits(m.year as int) + two_digits(m.month as int) + two_digits(m.day as int)
        + two_digits(m.hour as int) + two_digits(m.minute as int) + two_digits(m.second as int)
}

/// A text of fourteen decimal digits.
pub open spec fn is_timestamp(s: Seq<char>) -> bool {
    &&& s.len() == 14
    &&& forall|i: int| 0 <= i < s.len() ==> is_digit(#[trigger] s[i])
}

/// The name of a migration's directory: version, underscore, name.
pub open spec fn versioned_name_spec(version: Seq<char>, name: Seq<char>) -> Seq<char> {
    version + seq!['_'] + name
}

fn digit_str(d: u32) -> (s: &'static str)
    requires
        d < 10,
    ensures
        s@ == seq![digit_char(d as int)],
{
    proof {
        reveal_strlit("0");
        reveal_strlit("1");
        reveal_strlit("2");
        reveal_strlit("3");
        reveal_strlit("4");
        reveal_strlit("5");
        reveal_strlit("6");
        reveal_strlit("7");
        reveal_strlit("8");
        reveal_strlit("9");
    }
    let s: &'static str = if d == 0 {
        "0"
    } else if d == 1 {
        "1"
    } else if d == 2 {
        "2"
    } else if d == 3 {
        "3"
    } else if d == 4 {
        "4"
    } else if d == 5 {
        "5"
    } else if d == 6 {
        "6"
    } else if d == 7 {
        "7"
    } else if d == 8 {
        "8"
    } else {
        "9"
    };
    assert(s@ =~= seq![digit_char(d as int)]);
    s
}

fn append_two_digits(out: &mut String, v: u32)
    requires
        v <= 99,
    ensures
        final(out)@ == old(out)@ + two_digits(v as int),
{
    out.append(digit_str(v / 10));
    out.append(digit_str(v % 10));
    assert(out@ =~= old(out)@ + two_digits(v as int));
}

/// Writes a moment as a version of fourteen digits.
pub fn timestamp_version(moment: &UtcMoment) -> (v: String)
    requires
        moment.in_range(),
    ensures
        v@ == timestamp_text(*moment),
{
    let year: u32 = moment.year as u32;
    let mut out: String = String::new();
    append_two_digits(&mut out, year / 100);
    append_two_digits(&mut out, year % 100);
    append_two_digits(&mut out, moment.month);
    append_two_digits(&mut out, moment.day);
    append_two_digits(&mut out, moment.hour);
    append_two_digits(&mut out, moment.minute);
    append_two_digits(&mut out, moment.second);
    assert(out@ =~= timestamp_text(*moment));
    out
}

/// A version written from a moment in range has fourteen digits.
pub proof fn lemma_timestamp_shape(m: UtcMoment)
    requires
        m.in_range(),
    ensures
        is_timestamp(timestamp_text(m)),
{
    let s = timestamp_text(m);
    assert(s.len() == 14);
    assert forall|i: int| 0 <= i < s.len() implies is_digit(#[trigger] s[i]) by {
        lemma_two_digits_shape(m.year as int / 100);
        lemma_two_digits_shape(m.year as int % 100);
        lemma_two_digits_shape(m.month as int);
        lemma_two_digits_shape(m.day as int);
        lemma_two_digits_shape(m.hour as int);
        lemma_two_digits_shape(m.minute as int);
        lemma_two_digits_shape(m.second as int);
    }
}

proof fn lemma_two_digits_shape(v: int)
    requires
        0 <= v <= 99,
    ensures
        two_digits(v).len() == 2,
        is_digit(two_digits(v)[0]),
        is_digit(two_digits(v)[1]),
{
}

/// Texts of equal length in front decide the order of what they start; where
/// they are equal, the rest decides.
pub proof fn lemma_lex_lt_concat(x: Seq<char>, y: Seq<char>, u: Seq<char>, v: Seq<char>)
    requires
        x.len() == y.len(),
    ensures
        lex_lt(x + u, y + v) == (lex_lt(x, y) || (x == y && lex_lt(u, v))),
    decreases x.len(),
{
    if x.len() == 0 {
        assert(x + u =~= u);
        assert(y + v =~= v);
        assert(x =~= y);
    } else {
        let xu = x + u;
        let yv = y + v;
        assert(xu[0] == x[0]);
        assert(yv[0] == y[0]);
        assert(xu.drop_first() =~= x.drop_first() + u);
        assert(yv.drop_first() =~= y.drop_first() + v);
        lemma_lex_lt_concat(x.drop_first(), y.drop_first(), u, v);
        if x[0] == y[0] {
            if x.drop_first() == y.drop_first() {
                assert(x =~= seq![x[0]] + x.drop_first());
                assert(y =~= seq![y[0]] + y.drop_first());
            }
        }
    }
}

proof fn lemma_two_digits_order(a: int, b: int)
    requires
        0 <= a <= 99,
        0 <= b <= 99,
    ensures
        lex_lt(two_digits(a), two_digits(b)) <==> a < b,
        two_digits(a) == two_digits(b) <==> a == b,
{
    let x = two_digits(a);
    let y = two_digits(b);
    reveal_with_fuel(lex_lt, 3);
    assert(x.drop_first() =~= seq![digit_char(a % 10)]);
    assert(y.drop_first() =~= seq![digit_char(b % 10)]);
    assert(x.drop_first().drop_first() =~= Seq::<char>::empty());
    assert(y.drop_first().drop_first() =~= Seq::<char>::empty());
    assert(x[0] == digit_char(a / 10) && x[1] == digit_char(a % 10));
    assert(y[0] == digit_char(b / 10) && y[1] == digit_char(b % 10));
}

proof fn lemma_four_digits_order(a: int, b: int)
    requires
        0 <= a <= 9999,
        0 <= b <= 9999,
    ensures
        lex_lt(four_digits(a), four_digits(b)) <==> a < b,
        four_digits(a) == four_digits(b) <==> a == b,
{
    lemma_two_digits_order(a / 100, b / 100);
    lemma_two_digits_order(a % 100, b % 100);
    lemma_lex_lt_concat(
        two_digits(a / 100),
        two_digits(b / 100),
        two_digits(a % 100),
        two_digits(b % 100),
    );
    if four_digits(a) == four_digits(b) {
        assert(four_digits(a).subrange(0, 2) =~= two_digits(a / 100));
        assert(four_digits(b).subrange(0, 2) =~= two_digits(b / 100));
        assert(four_digits(a).subrange(2, 4) =~= two_digits(a % 100));
        assert(four_digits(b).subrange(2, 4) =~= two_digits(b % 100));
    }
}

/// The head and the tail of a version written from a moment, for the order.
spec fn date_text(m: UtcMoment) -> Seq<char> {
    four_digits(m.year as int) + two_digits(m.month as int) + two_digits(m.day as int)
}

spec fn time_text(m: UtcMoment) -> Seq<char> {
    two_digits(m.hour as int) + two_digits(m.minute as int) + two_digits(m.second as int)
}

proof fn lemma_three_blocks(
    x1: Seq<char>,
    x2: Seq<char>,
    x3: Seq<char>,
    y1: Seq<char>,
    y2: Seq<char>,
    y3: Seq<char>,
)
    requires
        x1.len() == y1.len(),
        x2.len() == y2.len(),
        x3.len() == y3.len(),
    ensures
        lex_lt(x1 + x2 + x3, y1 + y2 + y3) == (lex_lt(x1, y1) || (x1 == y1 && (lex_lt(x2, y2) || (x2
            == y2 && lex_lt(x3, y3))))),
        (x1 + x2 + x3 == y1 + y2 + y3) == (x1 == y1 && x2 == y2 && x3 == y3),
{
    let e = Seq::<char>::empty();
    assert(x1 + x2 + x3 =~= x1 + (x2 + x3));
    assert(y1 + y2 + y3 =~= y1 + (y2 + y3));
    lemma_lex_lt_concat(x1, y1, x2 + x3, y2 + y3);
    lemma_lex_lt_concat(x2, y2, x3, y3);
    if x1 + x2 + x3 == y1 + y2 + y3 {
        let x = x1 + x2 + x3;
        let y = y1 + y2 + y3;
        let a = x1.len() as int;
        let b = a + x2.len();
        let c = b + x3.len();
        assert(x.subrange(0, a) =~= x1);
        assert(y.subrange(0, a) =~= y1);
        assert(x.subrange(a, b) =~= x2);
        assert(y.subrange(a, b) =~= y2);
        assert(x.subrange(b, c) =~= x3);
        assert(y.subrange(b, c) =~= y3);
    }
}

/// Versions written from the clock sort as the moments do: of two moments in
/// range, the earlier one gives the version that comes first, and equal
/// versions come from equal moments only.
pub proof fn lemma_timestamp_order(a: UtcMoment, b: UtcMoment)
    requires
        a.in_range(),
        b.in_range(),
    ensures
        lex_lt(timestamp_text(a), timestamp_text(b)) <==> a.before(b),
        timestamp_text(a) == timestamp_text(b) <==> a == b,
{
    lemma_four_digits_order(a.year as int, b.year as int);
    lemma_two_digits_order(a.month as int, b.month as int);
    lemma_two_digits_order(a.day as int, b.day as int);
    lemma_two_digits_order(a.hour as int, b.hour as int);
    lemma_two_digits_order(a.minute as int, b.minute as int);
    lemma_two_digits_order(a.second as int, b.second as int);
    lemma_three_blocks(
        four_digits(a.year as int),
        two_digits(a.month as int),
        two_digits(a.day as int),
        four_digits(b.year as int),
        two_digits(b.month as int),
        two_digits(b.day as int),
    );
    lemma_three_blocks(
        two_digits(a.hour as int),
        two_digits(a.minute as int),
        two_digits(a.second as int),
        two_digits(b.hour as int),
        two_digits(b.minute as int),
        two_digits(b.second as int),
    );
    assert(timestamp_text(a) =~= date_text(a) + time_text(a));
    assert(timestamp_text(b) =~= date_text(b) + time_text(b));
    lemma_lex_lt_concat(date_text(a), date_text(b), time_text(a), time_text(b));
    if timestamp_text(a) == timestamp_text(b) {
        assert(timestamp_text(a).subrange(0, 8) =~= date_text(a));
        assert(timestamp_text(b).subrange(0, 8) =~= date_text(b));
        assert(timestamp_text(a).subrange(8, 14) =~= time_text(a));
        assert(timestamp_text(b).subrange(8, 14) =~= time_text(b));
    }
}

/// Reads the clock: the time since 1970 from `std::time::UNIX_EPOCH.elapsed`,
/// made a moment by `chrono::DateTime::from_timestamp`, with its fields taken
/// through `Datelike` and `Timelike`. There is no moment where the clock
/// stands before 1970 or beyond what chrono can hold; neither call panics.
/// The contract claims the ranges that chrono documents for month, day,
/// hour, minute and second, and nothing of the year. Nothing is proved of it.
#[verifier::external_body]
fn utc_now() -> (now: Option<UtcMoment>)
    ensures
        now matches Some(m) ==> 1 <= m.month <= 12,
        now matches Some(m) ==> 1 <= m.day <= 31,
        now matches Some(m) ==> m.hour <= 23,
        now matches Some(m) ==> m.minute <= 59,
        now matches Some(m) ==> m.second <= 59,
{
    let elapsed = std::time::UNIX_EPOCH.elapsed().ok()?;
    let seconds = i64::try_from(elapsed.as_secs()).ok()?;
    let now = DateTime::from_timestamp(seconds, elapsed.subsec_nanos())?;
    Some(UtcMoment {
        year: now.year(),
        month: now.month(),
        day: now.day(),
        hour: now.hour(),
        minute: now.minute(),
        second: now.second(),
    })
}

/// The version of a migration generated at `now`: the caller's text as it
/// stands, or, without one, the moment in fourteen digits, where it can be
/// written so.
pub open spec fn version_spec(explicit: Option<Seq<char>>, now: UtcMoment) -> Option<Seq<char>> {
    match explicit {
        Some(text) => Some(text),
        None => if now.in_range() {
            Some(timestamp_text(now))
        } else {
            None
        },
    }
}

/// The version of a migration generated at `now`: any text of the caller's
/// is taken as it stands; without one the moment gives the version, and
/// there is none where the moment cannot be written in fourteen digits.
pub fn version_at(explicit: Option<String>, now: &UtcMoment) -> (v: Option<String>)
    ensures
        opt_text(v) == version_spec(opt_text(explicit), *now),
{
    match explicit {
        Some(text) => Some(text),
        None => {
            if now.fits() {
                Some(timestamp_version(now))
            } else {
                None
            }
        },
    }
}

/// The version of a migration generated now: the caller's text as it
/// stands, or, without one, the current time in UTC in fourteen digits. The
/// clock is only read where it is needed. There is no version where the
/// clock gives no moment, or one beyond the year 9999.
pub fn migration_version(explicit: Option<String>) -> (v: Option<String>)
    ensures
        explicit is Some ==> opt_text(v) == opt_text(explicit),
        explicit is None ==> (v matches Some(got) ==> is_timestamp(got@)),
        explicit is None ==> (v is None || exists|now: UtcMoment|
            now.in_range() && opt_text(v) == version_spec(None, now)),
{
    match explicit {
        Some(text) => Some(text),
        None => {
            match utc_now() {
                Some(now) => {
                    proof {
                        if now.in_range() {
                            lemma_timestamp_shape(now);
                        }
                    }
                    let v: Option<String> = version_at(None, &now);
                    proof {
                        if v is Some {
                            assert(now.in_range() && opt_text(v) == version_spec(None, now));
                        }
                    }
                    v
                },
                None => None,
            }
        },
    }
}

/// The name of a migration's directory.
pub fn versioned_name(version: &str, migration_name: &str) -> (r: String)
    ensures
        r@ == versioned_name_spec(version@, migration_name@),
{
    proof {
        reveal_strlit("_");
        assert("_"@ =~= seq!['_']);
    }
    let mut out: String = String::from_str(version);
    out.append("_");
    out.append(migration_name);
    out
}

} // verus!
