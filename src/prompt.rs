//! The system prompt: its date-and-time placeholder filled in from the
//! local clock.
use vstd::prelude::*;
use chrono::{Datelike, Timelike};
use crate::text::{chars_of, decimal, decimal2, push_decimal, push_decimal2, push_range, push_signed_decimal, push_text, signed_decimal};

verus! {

/// A local date and time, as the clock gave it.
#[derive(Debug, Clone, PartialEq)]
pub struct LocalTime {
    pub year: i32,
    /// Month of the year, 1 to 12.
    pub month: u32,
    /// Day of the month, 1 to 31.
    pub day: u32,
    /// Day of the week counted from Monday, 0 to 6.
    pub weekday: u32,
    /// Hour on the twelve-hour clock, 1 to 12.
    pub hour12: u32,
    /// Whether the hour is after noon.
    pub is_pm: bool,
    /// Minute of the hour, 0 to 59.
    pub minute: u32,
    /// Second of the minute, 0 to 59.
    pub second: u32,
    /// The name or offset of the time zone.
    pub zone: String,
}

/// The ranges that the clock's fields keep.
pub open spec fn local_time_ok(t: LocalTime) -> bool {
    &&& 1 <= t.month <= 12
    &&& 1 <= t.day <= 31
    &&& t.weekday <= 6
    &&& 1 <= t.hour12 <= 12
    &&& t.minute <= 59
    &&& t.second <= 59
}

/// Relies on `chrono::Local::now` and the `Datelike` and `Timelike` getters,
/// whose documented ranges the result keeps; `%Z` formats the zone.
#[verifier::external_body]
fn local_now() -> (t: LocalTime)
    ensures
        local_time_ok(t),
{
    let now = chrono::Local::now();
    let (is_pm, hour12) = now.hour12();
    LocalTime {
        year: now.year(),
        month: now.month(),
        day: now.day(),
        weekday: now.weekday().num_days_from_monday(),
        hour12,
        is_pm,
        minute: now.minute(),
        second: now.second(),
        zone: now.format("%Z").to_string(),
    }
}

/// The English name of a weekday counted from Monday.
pub open spec fn weekday_name(w: u32) -> Seq<char> {
    if w == 0 { "Monday"@ }
    else if w == 1 { "Tuesday"@ }
    else if w == 2 { "Wednesday"@ }
    else if w == 3 { "Thursday"@ }
    else if w == 4 { "Friday"@ }
    else if w == 5 { "Saturday"@ }
    else if w == 6 { "Sunday"@ }
    else { Seq::empty() }
}

/// The English name of a month counted from 1.
pub open spec fn month_name(m: u32) -> Seq<char> {
    if m == 1 { "January"@ }
    else if m == 2 { "February"@ }
    else if m == 3 { "March"@ }
    else if m == 4 { "April"@ }
    else if m == 5 { "May"@ }
    else if m == 6 { "June"@ }
    else if m == 7 { "July"@ }
    else if m == 8 { "August"@ }
    else if m == 9 { "September"@ }
    else if m == 10 { "October"@ }
    else if m == 11 { "November"@ }
    else if m == 12 { "December"@ }
    else { Seq::empty() }
}

/// A date and time as the prompt states it, for example
/// `Monday, March 3, 2025 at 09:05:07 PM UTC`.
pub open spec fn datetime_text(t: LocalTime) -> Seq<char> {
    weekday_name(t.weekday) + ", "@ + month_name(t.month) + " "@ + decimal(t.day as nat) + ", "@
        + signed_decimal(t.year as int) + " at "@ + decimal2(t.hour12 as nat) + ":"@ + decimal2(t.minute as nat)
        + ":"@ + decimal2(t.second as nat) + " "@ + (if t.is_pm { "PM"@ } else { "AM"@ }) + " "@ + t.zone@
}

/// The placeholder that stands for the date and time in a prompt.
pub open spec fn placeholder() -> Seq<char> {
    "[DATE_TIME_WITH_WEEKDAY_AND_TIMEZONE]"@
}

/// `rep` before, between and after the characters of `s`: what replacing
/// the empty pattern gives.
pub open spec fn interleave(s: Seq<char>, rep: Seq<char>) -> Seq<char>
    decreases s.len(),
{
    if s.len() == 0 {
        rep
    } else {
        rep + seq![s[0]] + interleave(s.drop_first(), rep)
    }
}

/// `s` with every occurrence of `pat`, scanned from the left and without
/// overlaps, replaced by `rep`.
pub open spec fn replace_all(s: Seq<char>, pat: Seq<char>, rep: Seq<char>) -> Seq<char>
    decreases s.len(),
{
    if pat.len() == 0 {
        interleave(s, rep)
    } else if s.len() < pat.len() {
        s
    } else if s.subrange(0, pat.len() as int) == pat {
        rep + replace_all(s.subrange(pat.len() as int, s.len() as int), pat, rep)
    } else {
        seq![s[0]] + replace_all(s.drop_first(), pat, rep)
    }
}

/// The English name of a weekday counted from Monday.
fn push_weekday(s: &mut String, w: u32)
    ensures
        final(s)@ == old(s)@ + weekday_name(w),
{
    let name = if w == 0 { "Monday" }
        else if w == 1 { "Tuesday" }
        else if w == 2 { "Wednesday" }
        else if w == 3 { "Thursday" }
        else if w == 4 { "Friday" }
        else if w == 5 { "Saturday" }
        else if w == 6 { "Sunday" }
        else { "" };
    proof {
        reveal_strlit("");
    }
    push_text(s, name);
}

/// The English name of a month counted from 1.
fn push_month(s: &mut String, m: u32)
    ensures
        final(s)@ == old(s)@ + month_name(m),
{
    let name = if m == 1 { "January" }
        else if m == 2 { "February" }
        else if m == 3 { "March" }
        else if m == 4 { "April" }
        else if m == 5 { "May" }
        else if m == 6 { "June" }
        else if m == 7 { "July" }
        else if m == 8 { "August" }
        else if m == 9 { "September" }
        else if m == 10 { "October" }
        else if m == 11 { "November" }
        else if m == 12 { "December" }
        else { "" };
    proof {
        reveal_strlit("");
    }
    push_text(s, name);
}

/// Writes a date and time as the prompt states it.
pub fn format_datetime(t: &LocalTime) -> (r: String)
    ensures
        r@ == datetime_text(*t),
{
    let mut r = String::new();
    push_weekday(&mut r, t.weekday);
    push_text(&mut r, ", ");
    push_month(&mut r, t.month);
    push_text(&mut r, " ");
    push_decimal(&mut r, t.day as u64);
    push_text(&mut r, ", ");
    push_signed_decimal(&mut r, t.year as i64);
    push_text(&mut r, " at ");
    push_decimal2(&mut r, t.hour12 as u64);
    push_text(&mut r, ":");
    push_decimal2(&mut r, t.minute as u64);
    push_text(&mut r, ":");
    push_decimal2(&mut r, t.second as u64);
    push_text(&mut r, " ");
    push_text(&mut r, if t.is_pm { "PM" } else { "AM" });
    push_text(&mut r, " ");
    push_text(&mut r, t.zone.as_str());
    r
}

/// `rep` before, between and after the characters of `s`.
fn interleave_text(s: &str, rep: &str) -> (r: String)
    ensures
        r@ == interleave(s@, rep@),
{
    let cs = chars_of(s);
    let n = cs.len();
    let mut r = String::new();
    let mut i: usize = 0;
    proof {
        assert(cs@.subrange(0, n as int) == cs@);
        assert(Seq::<char>::empty() + interleave(cs@, rep@) == interleave(cs@, rep@));
    }
    while i < n
        invariant
            cs@ == s@,
            n == cs@.len(),
            i <= n,
            r@ + interleave(cs@.subrange(i as int, n as int), rep@) == interleave(s@, rep@),
        decreases n - i,
    {
        let ghost rest = cs@.subrange(i as int, n as int);
        push_text(&mut r, rep);
        r.push(cs[i]);
        proof {
            assert(rest.drop_first() == cs@.subrange(i + 1, n as int));
            assert(rest[0] == cs@[i as int]);
        }
        i = i + 1;
    }
    push_text(&mut r, rep);
    proof {
        assert(cs@.subrange(n as int, n as int).len() == 0);
    }
    r
}

/// `s` with every occurrence of `pat` replaced by `rep`, as `str::replace`
/// does it.
pub fn replace_text(s: &str, pat: &str, rep: &str) -> (r: String)
    ensures
        r@ == replace_all(s@, pat@, rep@),
{
    let cs = chars_of(s);
    let ps = chars_of(pat);
    if ps.len() == 0 {
        return interleave_text(s, rep);
    }
    let n = cs.len();
    let m = ps.len();
    let mut r = String::new();
    let mut i: usize = 0;
    let mut start: usize = 0;
    proof {
        assert(cs@.subrange(0, n as int) == cs@);
        assert(r@ + cs@.subrange(0, 0) == Seq::<char>::empty());
        assert(Seq::<char>::empty() + replace_all(cs@, pat@, rep@) == replace_all(cs@, pat@, rep@));
    }
    while i < n
        invariant
            cs@ == s@,
            ps@ == pat@,
            n == cs@.len(),
            m == ps@.len(),
            m > 0,
            start <= i <= n,
            r@ + cs@.subrange(start as int, i as int) + replace_all(cs@.subrange(i as int, n as int), pat@, rep@)
                == replace_all(s@, pat@, rep@),
        decreases n - i,
    {
        let ghost rest = cs@.subrange(i as int, n as int);
        if m <= n - i && crate::text::has_prefix_at(&cs, i, &ps) {
            push_range(&mut r, &cs, start, i);
            push_text(&mut r, rep);
            proof {
                assert(rest.subrange(0, m as int) == cs@.subrange(i as int, i + m));
                assert(rest.subrange(m as int, rest.len() as int) == cs@.subrange(i + m, n as int));
                assert(cs@.subrange(i + m, i + m) == Seq::<char>::empty());
                assert(r@ + cs@.subrange(i + m, i + m) == r@);
            }
            i = i + m;
            start = i;
        } else {
            proof {
                if m <= rest.len() {
                    assert(rest.subrange(0, m as int) == cs@.subrange(i as int, i + m));
                }
                assert(rest.drop_first() == cs@.subrange(i + 1, n as int));
                assert(cs@.subrange(start as int, i + 1) == cs@.subrange(start as int, i as int).push(cs@[i as int]));
                assert(rest[0] == cs@[i as int]);
            }
            i = i + 1;
        }
    }
    push_range(&mut r, &cs, start, n);
    proof {
        assert(cs@.subrange(n as int, n as int) == Seq::<char>::empty());
    }
    r
}

/// A prompt with its date-and-time placeholder filled in from `t`.
pub fn substitute_placeholder_at(prompt: &str, t: &LocalTime) -> (r: String)
    ensures
        r@ == replace_all(prompt@, placeholder(), datetime_text(*t)),
{
    let when = format_datetime(t);
    proof {
        reveal_strlit("[DATE_TIME_WITH_WEEKDAY_AND_TIMEZONE]");
    }
    replace_text(prompt, "[DATE_TIME_WITH_WEEKDAY_AND_TIMEZONE]", when.as_str())
}

/// A prompt with its date-and-time placeholder filled in from the local
/// clock, read once.
pub fn substitute_datetime_placeholder(prompt: &str) -> (r: String)
    ensures
        exists|t: LocalTime| local_time_ok(t) && r@ == replace_all(prompt@, placeholder(), datetime_text(t)),
{
    let now = local_now();
    substitute_placeholder_at(prompt, &now)
}

} // verus!
