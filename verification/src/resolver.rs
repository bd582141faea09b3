//! Resolving a user-entered 24-hour "HH:MM" string against the current
//! instant into an absolute future instant, rolling over to the next calendar
//! day when the requested time-of-day has already passed.

use vstd::prelude::*;

use crate::stamp::LocalStamp;
use crate::stamp::SECS_PER_DAY;
use vstd::arithmetic::div_mod::lemma_div_is_ordered;
use vstd::arithmetic::div_mod::lemma_fundamental_div_mod;
use vstd::arithmetic::div_mod::lemma_fundamental_div_mod_converse;
use vstd::arithmetic::div_mod::lemma_mod_bound;

verus! {

/// Malformed "HH:MM" input.
#[derive(Clone, Copy, PartialEq, Eq, Structural, Debug)]
pub struct ParseError;

/// `c` is an ASCII decimal digit.
pub open spec fn is_digit(c: char) -> bool {
    '0' <= c && c <= '9'
}

/// The numeric value of an ASCII decimal digit.
pub open spec fn digit_val(c: char) -> int {
    (c as u32) - ('0' as u32)
}

/// `s` has the exact shape `HH:MM`: two digits, a colon, two digits, with
/// hours 00-23 and minutes 00-59.
pub open spec fn valid_hhmm(s: Seq<char>) -> bool {
    &&& s.len() == 5
    &&& is_digit(s[0])
    &&& is_digit(s[1])
    &&& s[2] == ':'
    &&& is_digit(s[3])
    &&& is_digit(s[4])
    &&& 10 * digit_val(s[0]) + digit_val(s[1]) <= 23
    &&& 10 * digit_val(s[3]) + digit_val(s[4]) <= 59
}

/// The second-of-day a valid `HH:MM` string denotes.
pub open spec fn hhmm_sec_of_day(s: Seq<char>) -> int {
    (10 * digit_val(s[0]) + digit_val(s[1])) * 3600 + (10 * digit_val(s[3]) + digit_val(s[4])) * 60
}

/// The instant with time-of-day `sec` on `now`'s own day when that is still
/// strictly ahead of `now`, and on the next calendar day otherwise.
pub open spec fn resolve_spec(sec: int, now: LocalStamp) -> LocalStamp {
    if sec > now.sec {
        LocalStamp { day: now.day, sec: sec as u32 }
    } else {
        LocalStamp { day: (now.day + 1) as i64, sec: sec as u32 }
    }
}

/// The numeric value of an ASCII digit character, or `None` for any other
/// character.
fn digit_of(c: char) -> (r: Option<u32>)
    ensures
        match r {
            Some(v) => is_digit(c) && v == digit_val(c),
            None => !is_digit(c),
        },
{
    let u = c as u32;
    if 48 <= u && u <= 57 {
        Some(u - 48)
    } else {
        None
    }
}

/// Parses a 24-hour `HH:MM` string into its second-of-day. Any string not of
/// that exact five-character shape, or with hours above 23 or minutes above
/// 59, is rejected.
pub fn parse_hhmm(s: &str) -> (r: Option<u32>)
    ensures
        match r {
            Some(v) => valid_hhmm(s@) && v == hhmm_sec_of_day(s@) && v < SECS_PER_DAY,
            None => !valid_hhmm(s@),
        },
{
    if s.unicode_len() != 5 {
        return None;
    }
    let c2 = s.get_char(2);
    if c2 != ':' {
        return None;
    }
    let d0 = match digit_of(s.get_char(0)) {
        Some(v) => v,
        None => { return None; },
    };
    let d1 = match digit_of(s.get_char(1)) {
        Some(v) => v,
        None => { return None; },
    };
    let d3 = match digit_of(s.get_char(3)) {
        Some(v) => v,
        None => { return None; },
    };
    let d4 = match digit_of(s.get_char(4)) {
        Some(v) => v,
        None => { return None; },
    };
    let hours = 10 * d0 + d1;
    let minutes = 10 * d3 + d4;
    if hours > 23 || minutes > 59 {
        return None;
    }
    Some(hours * 3600 + minutes * 60)
}

/// The single-character string for one decimal digit.
fn digit_str(d: u32) -> (r: &'static str)
    requires
        d <= 9,
    ensures
        r@.len() == 1,
        is_digit(r@[0]),
        digit_val(r@[0]) == d,
{
    proof {
        reveal_strlit("0");
        reveal_strlit("1");
        reveal_strlit("2");
        reveal_strlit("3");
        reveal_strlit("4");
        reveal_strlit("5");
        reveal_strlit("6");
        reveal_strlit("7");
        reveal_strlit("8");
        reveal_strlit("9");
    }
    match d {
        0 => "0",
        1 => "1",
        2 => "2",
        3 => "3",
        4 => "4",
        5 => "5",
        6 => "6",
        7 => "7",
        8 => "8",
        _ => "9",
    }
}

/// Renders a second-of-day as the `HH:MM` text the display shows, dropping
/// the seconds within the minute: the result is a valid `HH:MM` string and
/// parses back to `sec` rounded down to a whole minute.
pub fn hhmm_string(sec: u32) -> (r: String)
    requires
        sec < SECS_PER_DAY,
    ensures
        valid_hhmm(r@),
        hhmm_sec_of_day(r@) == sec - (sec % 60),
{
    let h = sec / 3600;
    let m = (sec % 3600) / 60;
    proof {
        lemma_div_is_ordered(sec as int, 86399, 3600);
        lemma_mod_bound(sec as int, 3600);
        lemma_div_is_ordered(sec as int % 3600, 3599, 60);
        lemma_fundamental_div_mod(h as int, 10);
        lemma_fundamental_div_mod(m as int, 10);
        lemma_fundamental_div_mod(sec as int, 3600);
        lemma_fundamental_div_mod(sec as int % 3600, 60);
        lemma_mod_bound(sec as int % 3600, 60);
        // The two digit pairs together denote sec rounded down to the minute.
        lemma_fundamental_div_mod_converse(
            sec as int,
            60,
            60 * (h as int) + m as int,
            (sec as int % 3600) % 60,
        );
    }
    let mut r = String::new();
    r.append(digit_str(h / 10));
    r.append(digit_str(h % 10));
    r.append(":");
    r.append(digit_str(m / 10));
    r.append(digit_str(m % 10));
    proof {
        reveal_strlit(":");
    }
    r
}

/// For every time-of-day and well-formed `now`, the resolved instant is
/// strictly in the future, keeps the requested time-of-day, and falls on
/// `now`'s own day exactly when the time-of-day is still strictly ahead of
/// `now`'s; otherwise it falls on the next calendar day.
pub proof fn lemma_resolve_future(sec: int, now: LocalStamp)
    requires
        now.wf(),
        now.day < i64::MAX,
        0 <= sec < SECS_PER_DAY,
    ensures
        resolve_spec(sec, now).wf(),
        resolve_spec(sec, now).sec == sec,
        resolve_spec(sec, now).spec_after(now),
        sec > now.sec ==> resolve_spec(sec, now).day == now.day,
        sec <= now.sec ==> resolve_spec(sec, now).day == now.day + 1,
{
}

/// Resolves user-entered `HH:MM` input against `now`. On success the result
/// is exactly `resolve_spec` of the parsed time-of-day: a well-formed instant
/// strictly after `now`. Exactly the strings rejected by `parse_hhmm` yield
/// `ParseError`.
pub fn resolve(input: &str, now: LocalStamp) -> (r: Result<LocalStamp, ParseError>)
    requires
        now.wf(),
        now.day < i64::MAX,
    ensures
        r is Ok <==> valid_hhmm(input@),
        r is Ok ==> r.unwrap() == resolve_spec(hhmm_sec_of_day(input@), now),
        r is Ok ==> r.unwrap().wf() && r.unwrap().spec_after(now),
{
    match parse_hhmm(input) {
        Some(v) => {
            proof {
                lemma_resolve_future(v as int, now);
            }
            if v > now.sec {
                Ok(LocalStamp { day: now.day, sec: v })
            } else {
                Ok(LocalStamp { day: now.day + 1, sec: v })
            }
        },
        None => Err(ParseError),
    }
}

} // verus!
