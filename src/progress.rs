//! Progress records read from the external tool's status lines.
use vstd::prelude::*;
use vstd::string::StringExecFns;
use crate::scan::{
    all_digits, clock_line, clock_millis, digits_value, find_clock, find_token, first_clock,
    first_token, fraction_millis, is_digit, key_at, lemma_clock_line, lemma_no_key_no_clock,
    CharClass,
};

verus! {

/// One progress report of a running job.
///
/// `percent` is in thousandths of a percent (0 to 100 000), `time` in
/// thousandths of a second on the source timeline.
#[derive(Clone, Debug)]
pub struct Progress {
    pub percent: u64,
    pub time: u64,
    pub speed: String,
    pub size: String,
}

/// The time in a duration header, in thousandths of a second: that of the
/// first clock after `Duration: `, or 0 where there is none or it exceeds `u64`.
pub open spec fn duration_millis(s: Seq<char>) -> nat {
    match find_clock(s, "Duration: "@, 0) {
        Some(c) => if clock_millis(c) <= u64::MAX { clock_millis(c) } else { 0 },
        None => 0,
    }
}

/// The share of `total` that `time` has reached, in thousandths of a percent,
/// at most 100 %; 0 where the total is unknown (0).
pub open spec fn percent_millis(time: nat, total: nat) -> nat {
    if total == 0 {
        0
    } else if time * 100_000 / total > 100_000 {
        100_000
    } else {
        time * 100_000 / total
    }
}

/// The clock of a status line, if it carries one that fits in `u64`.
pub open spec fn progress_time(s: Seq<char>) -> Option<nat> {
    match find_clock(s, "time="@, 0) {
        Some(c) => if clock_millis(c) <= u64::MAX { Some(clock_millis(c)) } else { None },
        None => None,
    }
}

/// The rate token of a status line (`speed=1.5x`), "N/A" where absent.
pub open spec fn progress_speed(s: Seq<char>) -> Seq<char> {
    match find_token(s, "speed="@, CharClass::Rate, "x"@, 0) {
        Some(t) => t,
        None => "N/A"@,
    }
}

/// The size token of a status line (`size= 1024kB`), "0kB" where absent.
pub open spec fn progress_size(s: Seq<char>) -> Seq<char> {
    match find_token(s, "size="@, CharClass::NonSpace, ""@, 0) {
        Some(t) => t,
        None => "0kB"@,
    }
}

/// Reads the total duration from a probe header `Duration: HH:MM:SS.frac`,
/// in thousandths of a second; 0 where the header is absent.
pub fn parse_duration(output: &str) -> (r: u64)
    ensures
        r == duration_millis(output@),
{
    match first_clock(output, "Duration: ") {
        Some(Some(v)) => v,
        _ => 0,
    }
}

/// Reads a progress record from a status line carrying `time=HH:MM:SS.frac`,
/// against a total duration in thousandths of a second (0: unknown).
pub fn parse_progress(line: &str, duration: u64) -> (r: Option<Progress>)
    ensures
        r is Some <==> progress_time(line@) is Some,
        r is Some ==> {
            let p = r->0;
            &&& p.time == progress_time(line@)->0
            &&& p.percent == percent_millis(p.time as nat, duration as nat)
            &&& p.speed@ == progress_speed(line@)
            &&& p.size@ == progress_size(line@)
        },
{
    let time = match first_clock(line, "time=") {
        Some(Some(v)) => v,
        _ => {
            return None;
        },
    };
    let percent: u64 = if duration == 0 {
        0
    } else {
        let share: u128 = time as u128 * 100_000 / duration as u128;
        if share > 100_000 {
            100_000
        } else {
            share as u64
        }
    };
    let speed = match first_token(line, "speed=", CharClass::Rate, "x") {
        Some(t) => t,
        None => String::from_str("N/A"),
    };
    let size = match first_token(line, "size=", CharClass::NonSpace, "") {
        Some(t) => t,
        None => String::from_str("0kB"),
    };
    Some(Progress { percent, time, speed, size })
}

/// The time of `H:M:S.frac` in thousandths of a second.
pub open spec fn hms_millis(h: Seq<char>, m: Seq<char>, sec: Seq<char>, frac: Seq<char>) -> nat {
    digits_value(h) * 3_600_000 + digits_value(m) * 60_000 + digits_value(sec) * 1000
        + fraction_millis(frac)
}

/// A probe header `Duration: H:M:S.frac` reads as H×3600 + M×60 + S seconds,
/// wherever it first stands in the text.
pub proof fn duration_header_law(
    pre: Seq<char>,
    h: Seq<char>,
    m: Seq<char>,
    sec: Seq<char>,
    frac: Seq<char>,
    rest: Seq<char>,
)
    requires
        h.len() > 0 && m.len() > 0 && sec.len() > 0,
        all_digits(h) && all_digits(m) && all_digits(sec) && all_digits(frac),
        rest.len() == 0 || !is_digit(rest[0]),
        forall|t: int|
            0 <= t < pre.len() ==> !key_at(
                clock_line(pre, "Duration: "@, h, m, sec, frac, rest),
                t,
                "Duration: "@,
            ),
        hms_millis(h, m, sec, frac) <= u64::MAX,
    ensures
        duration_millis(clock_line(pre, "Duration: "@, h, m, sec, frac, rest)) == hms_millis(
            h,
            m,
            sec,
            frac,
        ),
{
    lemma_clock_line(pre, "Duration: "@, h, m, sec, frac, rest);
}

/// A text without a `Duration: ` header reads as a duration of 0.
pub proof fn duration_absent_law(s: Seq<char>)
    requires
        forall|t: int| 0 <= t <= s.len() ==> !key_at(s, t, "Duration: "@),
    ensures
        duration_millis(s) == 0,
{
    lemma_no_key_no_clock(s, "Duration: "@);
}

/// A status line whose first `time=` is followed by `H:M:S.frac` reports
/// H×3600 + M×60 + S seconds, and against a known total `D` the percent
/// min(100, 100 × time / D).
pub proof fn progress_clock_law(
    pre: Seq<char>,
    h: Seq<char>,
    m: Seq<char>,
    sec: Seq<char>,
    frac: Seq<char>,
    rest: Seq<char>,
    total: nat,
)
    requires
        h.len() > 0 && m.len() > 0 && sec.len() > 0,
        all_digits(h) && all_digits(m) && all_digits(sec) && all_digits(frac),
        rest.len() == 0 || !is_digit(rest[0]),
        forall|t: int|
            0 <= t < pre.len() ==> !key_at(
                clock_line(pre, "time="@, h, m, sec, frac, rest),
                t,
                "time="@,
            ),
        hms_millis(h, m, sec, frac) <= u64::MAX,
        total > 0,
    ensures
        progress_time(clock_line(pre, "time="@, h, m, sec, frac, rest)) == Some(
            hms_millis(h, m, sec, frac),
        ),
        percent_millis(hms_millis(h, m, sec, frac), total) == if hms_millis(h, m, sec, frac)
            * 100_000 / total > 100_000 {
            100_000
        } else {
            hms_millis(h, m, sec, frac) * 100_000 / total
        },
{
    lemma_clock_line(pre, "time="@, h, m, sec, frac, rest);
}

/// A line in which `time=` never occurs yields no progress record.
pub proof fn no_clock_no_progress_law(s: Seq<char>)
    requires
        forall|t: int| 0 <= t <= s.len() ==> !key_at(s, t, "time="@),
    ensures
        progress_time(s) is None,
{
    lemma_no_key_no_clock(s, "time="@);
}

} // verus!
