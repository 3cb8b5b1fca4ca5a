//! The sample record: a calendar date-time held as plain fields, and a
//! measured value held in tenths of a unit, plus the fixed-pattern text
//! labels the renderer prints for them.

use vstd::prelude::*;
use crate::textfmt::char_rep;
use crate::textfmt::count_char;
use crate::textfmt::dec_chars;
use crate::textfmt::digit_char;
use crate::textfmt::digit_piece;
use crate::textfmt::lemma_dec_chars_len;
use crate::textfmt::lemma_dec_chars_len_u32;
use crate::textfmt::lemma_no_newline_concat;
use crate::textfmt::lemma_no_newline_padded_dec;
use crate::textfmt::lemma_padded_dec_len;
use crate::textfmt::no_newline;
use crate::textfmt::padded_dec;
use crate::textfmt::padded_dec_string;
use crate::textfmt::ten_pow;

verus! {

/// A calendar date-time with local offset, as plain numeric fields.
/// `weekday` counts from Sunday as 0 through Saturday as 6.
#[derive(Clone, Copy, PartialEq, Eq, Structural, Debug)]
pub struct DateStamp {
    pub year: u32,
    pub month: u8,
    pub day: u8,
    pub weekday: u8,
    pub hour: u8,
    pub minute: u8,
}

impl DateStamp {
    /// A well-formed calendar date-time; its labels keep their fixed widths.
    pub open spec fn wf(self) -> bool {
        &&& self.year <= 9999
        &&& 1 <= self.month <= 12
        &&& 1 <= self.day <= 31
        &&& self.weekday < 7
        &&& self.hour < 24
        &&& self.minute < 60
    }

    pub fn new(year: u32, month: u8, day: u8, weekday: u8, hour: u8, minute: u8) -> (r:
        DateStamp)
        ensures
            r == (DateStamp { year, month, day, weekday, hour, minute }),
    {
        DateStamp { year, month, day, weekday, hour, minute }
    }
}

/// An immutable (timestamp, value) record; the unit the renderer consumes.
/// The value is held in tenths, so one decimal place is exact.
#[derive(Clone, Copy, PartialEq, Eq, Structural, Debug)]
pub struct WeightEntry {
    pub date: DateStamp,
    pub weight_tenths: u32,
}

impl WeightEntry {
    /// The record is well-formed when its date is.
    pub open spec fn wf(self) -> bool {
        self.date.wf()
    }

    pub fn new(date: DateStamp, weight_tenths: u32) -> (r: WeightEntry)
        ensures
            r == (WeightEntry { date, weight_tenths }),
    {
        WeightEntry { date, weight_tenths }
    }
}

/// Three-letter weekday name, Sunday first.
pub open spec fn weekday_chars(w: int) -> Seq<char> {
    if w == 0 {
        seq!['S', 'u', 'n']
    } else if w == 1 {
        seq!['M', 'o', 'n']
    } else if w == 2 {
        seq!['T', 'u', 'e']
    } else if w == 3 {
        seq!['W', 'e', 'd']
    } else if w == 4 {
        seq!['T', 'h', 'u']
    } else if w == 5 {
        seq!['F', 'r', 'i']
    } else {
        seq!['S', 'a', 't']
    }
}

/// Three-letter month name, January as 1.
pub open spec fn month_chars(m: int) -> Seq<char> {
    if m == 1 {
        seq!['J', 'a', 'n']
    } else if m == 2 {
        seq!['F', 'e', 'b']
    } else if m == 3 {
        seq!['M', 'a', 'r']
    } else if m == 4 {
        seq!['A', 'p', 'r']
    } else if m == 5 {
        seq!['M', 'a', 'y']
    } else if m == 6 {
        seq!['J', 'u', 'n']
    } else if m == 7 {
        seq!['J', 'u', 'l']
    } else if m == 8 {
        seq!['A', 'u', 'g']
    } else if m == 9 {
        seq!['S', 'e', 'p']
    } else if m == 10 {
        seq!['O', 'c', 't']
    } else if m == 11 {
        seq!['N', 'o', 'v']
    } else {
        seq!['D', 'e', 'c']
    }
}

/// Hour on the 12-hour clock for an hour of the day.
pub open spec fn hour12(h: int) -> int {
    if h % 12 == 0 {
        12
    } else {
        h % 12
    }
}

/// The AM/PM marker for an hour of the day.
pub open spec fn meridiem_chars(h: int) -> Seq<char> {
    if h < 12 {
        seq!['A', 'M']
    } else {
        seq!['P', 'M']
    }
}

/// Short date label: weekday, month, zero-padded day (as in "Fri Apr 11").
pub open spec fn date_label(d: DateStamp) -> Seq<char> {
    weekday_chars(d.weekday as int) + seq![' '] + month_chars(d.month as int) + seq![' ']
        + padded_dec(d.day as nat, 2)
}

/// Full date-time label: short date, year, 12-hour time, AM/PM marker
/// (as in "Mon Jan 01 2024 12:30 PM").
pub open spec fn datetime_label(d: DateStamp) -> Seq<char> {
    date_label(d) + seq![' '] + padded_dec(d.year as nat, 4) + seq![' '] + padded_dec(
        hour12(d.hour as int) as nat,
        2,
    ) + seq![':'] + padded_dec(d.minute as nat, 2) + seq![' '] + meridiem_chars(d.hour as int)
}

/// The value to one decimal place, whole part zero-padded to three digits
/// (as in "170.5").
pub open spec fn weight_label(t: nat) -> Seq<char> {
    padded_dec(t / 10, 3) + seq!['.', digit_char((t % 10) as int)]
}

pub fn weekday_piece(w: u8) -> (r: &'static str)
    requires
        w < 7,
    ensures
        r@ == weekday_chars(w as int),
{
    proof {
        reveal_strlit("Sun");
        reveal_strlit("Mon");
        reveal_strlit("Tue");
        reveal_strlit("Wed");
        reveal_strlit("Thu");
        reveal_strlit("Fri");
        reveal_strlit("Sat");
    }
    if w == 0 {
        proof { assert("Sun"@ =~= weekday_chars(0)); }
        "Sun"
    } else if w == 1 {
        proof { assert("Mon"@ =~= weekday_chars(1)); }
        "Mon"
    } else if w == 2 {
        proof { assert("Tue"@ =~= weekday_chars(2)); }
        "Tue"
    } else if w == 3 {
        proof { assert("Wed"@ =~= weekday_chars(3)); }
        "Wed"
    } else if w == 4 {
        proof { assert("Thu"@ =~= weekday_chars(4)); }
        "Thu"
    } else if w == 5 {
        proof { assert("Fri"@ =~= weekday_chars(5)); }
        "Fri"
    } else {
        proof { assert("Sat"@ =~= weekday_chars(6)); }
        "Sat"
    }
}

pub fn month_piece(m: u8) -> (r: &'static str)
    requires
        1 <= m <= 12,
    ensures
        r@ == month_chars(m as int),
{
    proof {
        reveal_strlit("Jan");
        reveal_strlit("Feb");
        reveal_strlit("Mar");
        reveal_strlit("Apr");
        reveal_strlit("May");
        reveal_strlit("Jun");
        reveal_strlit("Jul");
        reveal_strlit("Aug");
        reveal_strlit("Sep");
        reveal_strlit("Oct");
        reveal_strlit("Nov");
        reveal_strlit("Dec");
    }
    if m == 1 {
        proof { assert("Jan"@ =~= month_chars(1)); }
        "Jan"
    } else if m == 2 {
        proof { assert("Feb"@ =~= month_chars(2)); }
        "Feb"
    } else if m == 3 {
        proof { assert("Mar"@ =~= month_chars(3)); }
        "Mar"
    } else if m == 4 {
        proof { assert("Apr"@ =~= month_chars(4)); }
        "Apr"
    } else if m == 5 {
        proof { assert("May"@ =~= month_chars(5)); }
        "May"
    } else if m == 6 {
        proof { assert("Jun"@ =~= month_chars(6)); }
        "Jun"
    } else if m == 7 {
        proof { assert("Jul"@ =~= month_chars(7)); }
        "Jul"
    } else if m == 8 {
        proof { assert("Aug"@ =~= month_chars(8)); }
        "Aug"
    } else if m == 9 {
        proof { assert("Sep"@ =~= month_chars(9)); }
        "Sep"
    } else if m == 10 {
        proof { assert("Oct"@ =~= month_chars(10)); }
        "Oct"
    } else if m == 11 {
        proof { assert("Nov"@ =~= month_chars(11)); }
        "Nov"
    } else {
        proof { assert("Dec"@ =~= month_chars(12)); }
        "Dec"
    }
}

pub fn meridiem_piece(h: u8) -> (r: &'static str)
    ensures
        r@ == meridiem_chars(h as int),
{
    proof {
        reveal_strlit("AM");
        reveal_strlit("PM");
    }
    if h < 12 {
        proof { assert("AM"@ =~= meridiem_chars(h as int)); }
        "AM"
    } else {
        proof { assert("PM"@ =~= meridiem_chars(h as int)); }
        "PM"
    }
}

/// Builds the short date label text.
pub fn date_label_string(d: &DateStamp) -> (r: String)
    requires
        d.wf(),
    ensures
        r@ == date_label(*d),
{
    proof {
        reveal_strlit(" ");
    }
    let mut s = String::new();
    s.append(weekday_piece(d.weekday));
    s.append(" ");
    s.append(month_piece(d.month));
    s.append(" ");
    let day_str = padded_dec_string(d.day as u32, 2);
    s.append(day_str.as_str());
    proof {
        assert(s@ =~= date_label(*d));
    }
    s
}

/// Builds the full date-time label text.
pub fn datetime_label_string(d: &DateStamp) -> (r: String)
    requires
        d.wf(),
    ensures
        r@ == datetime_label(*d),
{
    proof {
        reveal_strlit(" ");
        reveal_strlit(":");
    }
    let mut s = date_label_string(d);
    s.append(" ");
    let year_str = padded_dec_string(d.year, 4);
    s.append(year_str.as_str());
    s.append(" ");
    let h12: u8 = if d.hour % 12 == 0 {
        12
    } else {
        d.hour % 12
    };
    let hour_str = padded_dec_string(h12 as u32, 2);
    s.append(hour_str.as_str());
    s.append(":");
    let minute_str = padded_dec_string(d.minute as u32, 2);
    s.append(minute_str.as_str());
    s.append(" ");
    s.append(meridiem_piece(d.hour));
    proof {
        assert(s@ =~= datetime_label(*d));
    }
    s
}

/// Builds the one-decimal value label text.
pub fn weight_label_string(t: u32) -> (r: String)
    ensures
        r@ == weight_label(t as nat),
{
    proof {
        reveal_strlit(".");
    }
    let mut s = padded_dec_string(t / 10, 3);
    s.append(".");
    s.append(digit_piece(t % 10));
    proof {
        assert(s@ =~= weight_label(t as nat));
    }
    s
}

/// The two date labels of a well-formed date have their fixed widths and
/// hold no line break.
pub proof fn lemma_date_labels(d: DateStamp)
    requires
        d.wf(),
    ensures
        date_label(d).len() == 10,
        datetime_label(d).len() == 24,
        no_newline(date_label(d)),
        no_newline(datetime_label(d)),
{
    assert(ten_pow(0) == 1);
    assert(ten_pow(1) == 10);
    assert(ten_pow(2) == 100);
    assert(ten_pow(3) == 1000);
    assert(ten_pow(4) == 10000);
    lemma_dec_chars_len(d.day as nat, 2);
    lemma_padded_dec_len(d.day as nat, 2);
    lemma_dec_chars_len(d.year as nat, 4);
    lemma_padded_dec_len(d.year as nat, 4);
    lemma_dec_chars_len(hour12(d.hour as int) as nat, 2);
    lemma_padded_dec_len(hour12(d.hour as int) as nat, 2);
    lemma_dec_chars_len(d.minute as nat, 2);
    lemma_padded_dec_len(d.minute as nat, 2);
    assert(weekday_chars(d.weekday as int).len() == 3);
    assert(month_chars(d.month as int).len() == 3);
    assert(date_label(d).len() == 10);
    assert(datetime_label(d).len() == 24);
    let wd = weekday_chars(d.weekday as int);
    let mo = month_chars(d.month as int);
    assert(no_newline(wd)) by {
        assert forall|i: int| 0 <= i < wd.len() implies wd[i] != '\n' by {
            if i == 0 {
            } else if i == 1 {
            } else {
                assert(i == 2);
            }
        }
    }
    assert(no_newline(mo)) by {
        assert forall|i: int| 0 <= i < mo.len() implies mo[i] != '\n' by {
            if i == 0 {
            } else if i == 1 {
            } else {
                assert(i == 2);
            }
        }
    }
    let sp = seq![' '];
    assert(no_newline(sp));
    lemma_no_newline_padded_dec(d.day as nat, 2);
    lemma_no_newline_concat(wd, sp);
    lemma_no_newline_concat(wd + sp, mo);
    lemma_no_newline_concat(wd + sp + mo, sp);
    lemma_no_newline_concat(wd + sp + mo + sp, padded_dec(d.day as nat, 2));
    assert(no_newline(date_label(d)));
    lemma_no_newline_padded_dec(d.year as nat, 4);
    lemma_no_newline_padded_dec(hour12(d.hour as int) as nat, 2);
    lemma_no_newline_padded_dec(d.minute as nat, 2);
    let me = meridiem_chars(d.hour as int);
    assert(no_newline(me)) by {
        assert forall|i: int| 0 <= i < me.len() implies me[i] != '\n' by {
            if i == 0 {
            } else {
                assert(i == 1);
            }
        }
    }
    let co = seq![':'];
    assert(no_newline(co));
    let dl = date_label(d);
    lemma_no_newline_concat(dl, sp);
    lemma_no_newline_concat(dl + sp, padded_dec(d.year as nat, 4));
    lemma_no_newline_concat(dl + sp + padded_dec(d.year as nat, 4), sp);
    lemma_no_newline_concat(
        dl + sp + padded_dec(d.year as nat, 4) + sp,
        padded_dec(hour12(d.hour as int) as nat, 2),
    );
    lemma_no_newline_concat(
        dl + sp + padded_dec(d.year as nat, 4) + sp + padded_dec(hour12(d.hour as int) as nat, 2),
        co,
    );
    lemma_no_newline_concat(
        dl + sp + padded_dec(d.year as nat, 4) + sp + padded_dec(hour12(d.hour as int) as nat, 2)
            + co,
        padded_dec(d.minute as nat, 2),
    );
    lemma_no_newline_concat(
        dl + sp + padded_dec(d.year as nat, 4) + sp + padded_dec(hour12(d.hour as int) as nat, 2)
            + co + padded_dec(d.minute as nat, 2),
        sp,
    );
    lemma_no_newline_concat(
        dl + sp + padded_dec(d.year as nat, 4) + sp + padded_dec(hour12(d.hour as int) as nat, 2)
            + co + padded_dec(d.minute as nat, 2) + sp,
        me,
    );
    assert(no_newline(datetime_label(d)));
}

/// The value label is five characters for values under a thousand units,
/// at most twelve for any value, and holds no line break.
pub proof fn lemma_weight_label(t: u32)
    ensures
        weight_label(t as nat).len() <= 12,
        t < 10000 ==> weight_label(t as nat).len() == 5,
        no_newline(weight_label(t as nat)),
{
    assert(ten_pow(0) == 1);
    assert(ten_pow(1) == 10);
    assert(ten_pow(2) == 100);
    assert(ten_pow(3) == 1000);
    lemma_dec_chars_len_u32(t / 10);
    if t < 10000 {
        lemma_dec_chars_len((t / 10) as nat, 3);
        lemma_padded_dec_len((t / 10) as nat, 3);
    }
    let p = padded_dec((t / 10) as nat, 3);
    assert(p.len() <= 10);
    lemma_no_newline_padded_dec((t / 10) as nat, 3);
    let tail = seq!['.', digit_char((t % 10) as int)];
    assert(no_newline(tail)) by {
        assert forall|i: int| 0 <= i < tail.len() implies tail[i] != '\n' by {
            if i == 0 {
            } else {
                assert(i == 1);
            }
        }
    }
    lemma_no_newline_concat(p, tail);
}

} // verus!
