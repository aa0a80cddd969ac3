//! Scanning of the external tool's status text.
//!
//! The grammar is that of the tool's output: a clock `H:M:S[.frac]` after a
//! key (`time=`, `Duration: `), a rate `speed= 1.5x`, a size `size= 1024kB`.
//! Digits are ASCII digits; white space is Unicode's White_Space set. Each
//! token is the leftmost occurrence of its key where the rest matches.
use vstd::prelude::*;
use vstd::string::{StrSliceExecFns, StringExecFns};

verus! {

/// The classes of characters that a token is built from.
#[derive(Clone, Copy, PartialEq, Eq, Structural)]
pub enum CharClass {
    Digit,
    Space,
    NonSpace,
    Rate,
}

pub open spec fn is_digit(c: char) -> bool {
    '0' <= c && c <= '9'
}

/// Unicode's White_Space property.
pub open spec fn is_space(c: char) -> bool {
    ('\u{9}' <= c && c <= '\u{d}') || c == ' ' || c == '\u{85}' || c == '\u{a0}'
        || c == '\u{1680}' || ('\u{2000}' <= c && c <= '\u{200a}') || c == '\u{2028}'
        || c == '\u{2029}' || c == '\u{202f}' || c == '\u{205f}' || c == '\u{3000}'
}

pub open spec fn in_class(c: char, k: CharClass) -> bool {
    match k {
        CharClass::Digit => is_digit(c),
        CharClass::Space => is_space(c),
        CharClass::NonSpace => !is_space(c),
        CharClass::Rate => is_digit(c) || c == '.',
    }
}

/// The length of the longest run of class `k` starting at `i`.
pub open spec fn run_len(s: Seq<char>, i: int, k: CharClass) -> nat
    decreases s.len() - i,
{
    if 0 <= i < s.len() && in_class(s[i], k) {
        1 + run_len(s, i + 1, k)
    } else {
        0
    }
}

/// The value of a sequence of ASCII digits.
pub open spec fn digits_value(ds: Seq<char>) -> nat
    decreases ds.len(),
{
    if ds.len() == 0 {
        0
    } else {
        digits_value(ds.drop_last()) * 10 + (ds.last() as nat - '0' as nat) as nat
    }
}

/// `key` stands in `s` at `i`.
pub open spec fn key_at(s: Seq<char>, i: int, key: Seq<char>) -> bool {
    0 <= i && i + key.len() <= s.len() && s.subrange(i, i + key.len()) == key
}

/// The pieces of a clock `H:M:S[.frac]`, as digit sequences.
pub struct ClockText {
    pub hours: Seq<char>,
    pub minutes: Seq<char>,
    pub seconds: Seq<char>,
    pub fraction: Seq<char>,
}

/// The clock that starts at `p`, if one does.
pub open spec fn clock_from(s: Seq<char>, p: int) -> Option<ClockText> {
    let h = run_len(s, p, CharClass::Digit);
    let p2 = p + h;
    let m = run_len(s, p2 + 1, CharClass::Digit);
    let p3 = p2 + 1 + m;
    let sec = run_len(s, p3 + 1, CharClass::Digit);
    let p4 = p3 + 1 + sec;
    if h == 0 || p2 >= s.len() || s[p2] != ':' || m == 0 || p3 >= s.len() || s[p3] != ':'
        || sec == 0 {
        None
    } else {
        let fraction = if p4 < s.len() && s[p4] == '.' {
            s.subrange(p4 + 1, p4 + 1 + run_len(s, p4 + 1, CharClass::Digit))
        } else {
            Seq::empty()
        };
        Some(
            ClockText {
                hours: s.subrange(p, p2),
                minutes: s.subrange(p2 + 1, p3),
                seconds: s.subrange(p3 + 1, p4),
                fraction,
            },
        )
    }
}

/// The first clock, searching from `i`, that follows an occurrence of `key`.
pub open spec fn find_clock(s: Seq<char>, key: Seq<char>, i: int) -> Option<ClockText>
    decreases s.len() + 1 - i,
{
    if i < 0 || i > s.len() {
        None
    } else if key_at(s, i, key) && clock_from(s, i + key.len()) is Some {
        clock_from(s, i + key.len())
    } else {
        find_clock(s, key, i + 1)
    }
}

/// The thousandths given by the first three digits of a fraction.
pub open spec fn fraction_millis(f: Seq<char>) -> nat {
    if f.len() == 0 {
        0
    } else if f.len() == 1 {
        digits_value(f) * 100
    } else if f.len() == 2 {
        digits_value(f) * 10
    } else {
        digits_value(f.take(3))
    }
}

/// A clock's time in thousandths of a second: H×3600 + M×60 + S.
pub open spec fn clock_millis(c: ClockText) -> nat {
    digits_value(c.hours) * 3_600_000 + digits_value(c.minutes) * 60_000 + digits_value(
        c.seconds,
    ) * 1000 + fraction_millis(c.fraction)
}

/// The token after `key` at `p`: white space, then a run of class `k`, then
/// `tail` (a run of at least one character; `tail` is kept in the token).
pub open spec fn token_from(s: Seq<char>, p: int, k: CharClass, tail: Seq<char>) -> Option<
    Seq<char>,
> {
    let q = p + run_len(s, p, CharClass::Space);
    let n = run_len(s, q, k);
    if n == 0 || !(tail.len() == 0 || key_at(s, q + n, tail)) {
        None
    } else {
        Some(s.subrange(q, q + n + tail.len()))
    }
}

/// The first such token, searching from `i`.
pub open spec fn find_token(s: Seq<char>, key: Seq<char>, k: CharClass, tail: Seq<char>, i: int) -> Option<
    Seq<char>,
>
    decreases s.len() + 1 - i,
{
    if i < 0 || i > s.len() {
        None
    } else if key_at(s, i, key) && token_from(s, i + key.len(), k, tail) is Some {
        token_from(s, i + key.len(), k, tail)
    } else {
        find_token(s, key, k, tail, i + 1)
    }
}

pub fn class_has(c: char, k: CharClass) -> (r: bool)
    ensures
        r == in_class(c, k),
{
    let digit = '0' <= c && c <= '9';
    let space = ('\u{9}' <= c && c <= '\u{d}') || c == ' ' || c == '\u{85}' || c == '\u{a0}'
        || c == '\u{1680}' || ('\u{2000}' <= c && c <= '\u{200a}') || c == '\u{2028}'
        || c == '\u{2029}' || c == '\u{202f}' || c == '\u{205f}' || c == '\u{3000}';
    match k {
        CharClass::Digit => digit,
        CharClass::Space => space,
        CharClass::NonSpace => !space,
        CharClass::Rate => digit || c == '.',
    }
}

/// The end of the run of class `k` that starts at `i`.
pub fn run_end(s: &str, len: usize, i: usize, k: CharClass) -> (r: usize)
    requires
        len == s@.len(),
        i <= len,
    ensures
        r == i + run_len(s@, i as int, k),
        r <= len,
{
    let mut j = i;
    while j < len && class_has(s.get_char(j), k)
        invariant
            len == s@.len(),
            i <= j <= len,
            run_len(s@, i as int, k) == (j - i) + run_len(s@, j as int, k),
        decreases len - j,
    {
        j = j + 1;
    }
    j
}

/// Whether `key` stands in `s` at `i`.
pub fn has_key_at(s: &str, len: usize, i: usize, key: &str) -> (r: bool)
    requires
        len == s@.len(),
    ensures
        r == key_at(s@, i as int, key@),
{
    let klen = key.unicode_len();
    if i > len || klen > len - i {
        return false;
    }
    let mut j: usize = 0;
    while j < klen
        invariant
            len == s@.len(),
            klen == key@.len(),
            i + klen <= len,
            j <= klen,
            forall|t: int| 0 <= t < j ==> s@[i + t] == key@[t],
        decreases klen - j,
    {
        if s.get_char(i + j) != key.get_char(j) {
            assert(s@.subrange(i as int, i + klen)[j as int] != key@[j as int]);
            return false;
        }
        j = j + 1;
    }
    assert(s@.subrange(i as int, i + klen) =~= key@);
    true
}

proof fn lemma_digits_value_prefix(ds: Seq<char>, j: int)
    requires
        0 <= j <= ds.len(),
    ensures
        digits_value(ds.take(j)) <= digits_value(ds),
    decreases ds.len(),
{
    if j < ds.len() {
        assert(ds.drop_last().take(j) =~= ds.take(j));
        lemma_digits_value_prefix(ds.drop_last(), j);
    } else {
        assert(ds.take(j) =~= ds);
    }
}

/// The value of the digits `s[from..to]`, or `None` where it exceeds `u64`.
pub fn digits_at(s: &str, len: usize, from: usize, to: usize) -> (r: Option<u64>)
    requires
        len == s@.len(),
        from <= to <= len,
        forall|t: int| from <= t < to ==> is_digit(#[trigger] s@[t]),
    ensures
        match r {
            Some(v) => v == digits_value(s@.subrange(from as int, to as int)),
            None => digits_value(s@.subrange(from as int, to as int)) > u64::MAX,
        },
{
    let ghost ds = s@.subrange(from as int, to as int);
    let mut acc: u64 = 0;
    let mut j = from;
    while j < to
        invariant
            len == s@.len(),
            from <= j <= to <= len,
            ds == s@.subrange(from as int, to as int),
            forall|t: int| from <= t < to ==> is_digit(#[trigger] s@[t]),
            acc == digits_value(ds.take(j - from)),
        decreases to - j,
    {
        let c = s.get_char(j);
        let d = (c as u32 - '0' as u32) as u64;
        assert(ds.take(j - from + 1).drop_last() =~= ds.take(j - from));
        assert(ds.take(j - from + 1).last() == c);
        if acc > (u64::MAX - d) / 10 {
            proof {
                lemma_digits_value_prefix(ds, j - from + 1);
            }
            return None;
        }
        acc = acc * 10 + d;
        j = j + 1;
    }
    assert(ds.take(j - from) =~= ds);
    Some(acc)
}

/// What the clock at `p` reads: `None` where no clock starts there, `Some(None)`
/// where its time in thousandths exceeds `u64`.
pub open spec fn clock_read(c: Option<ClockText>, r: Option<Option<u64>>) -> bool {
    match c {
        None => r is None,
        Some(c) => match r {
            None => false,
            Some(Some(v)) => v == clock_millis(c),
            Some(None) => clock_millis(c) > u64::MAX,
        },
    }
}

fn read_clock(s: &str, len: usize, p: usize) -> (r: Option<Option<u64>>)
    requires
        len == s@.len(),
        p <= len,
    ensures
        clock_read(clock_from(s@, p as int), r),
{
    let p2 = run_end(s, len, p, CharClass::Digit);
    if p2 == p || p2 >= len || s.get_char(p2) != ':' {
        return None;
    }
    let p3 = run_end(s, len, p2 + 1, CharClass::Digit);
    if p3 == p2 + 1 || p3 >= len || s.get_char(p3) != ':' {
        return None;
    }
    let p4 = run_end(s, len, p3 + 1, CharClass::Digit);
    if p4 == p3 + 1 {
        return None;
    }
    let ghost c = clock_from(s@, p as int)->0;
    proof {
        lemma_run_in_class(s@, p as int, CharClass::Digit);
        lemma_run_in_class(s@, p2 + 1, CharClass::Digit);
        lemma_run_in_class(s@, p3 + 1, CharClass::Digit);
    }
    let (f_from, f_to) = if p4 < len && s.get_char(p4) == '.' {
        let e = run_end(s, len, p4 + 1, CharClass::Digit);
        proof {
            lemma_run_in_class(s@, p4 + 1, CharClass::Digit);
        }
        (p4 + 1, e)
    } else {
        (p4, p4)
    };
    assert(c.fraction =~= s@.subrange(f_from as int, f_to as int));
    let f_take = if f_to - f_from > 3 { f_from + 3 } else { f_to };
    if f_to - f_from >= 3 {
        assert(c.fraction.take(3) =~= s@.subrange(f_from as int, f_take as int));
    }
    let h = digits_at(s, len, p, p2);
    let m = digits_at(s, len, p2 + 1, p3);
    let sec = digits_at(s, len, p3 + 1, p4);
    let f = digits_at(s, len, f_from, f_take);
    match (h, m, sec, f) {
        (Some(h), Some(m), Some(sec), Some(f)) => {
            let fm: u128 = if f_to - f_from == 1 {
                f as u128 * 100
            } else if f_to - f_from == 2 {
                f as u128 * 10
            } else {
                assert(f_to - f_from == 0 ==> f == 0);
                f as u128
            };
            let total: u128 = h as u128 * 3_600_000 + m as u128 * 60_000 + sec as u128 * 1000
                + fm;
            if total > u64::MAX as u128 {
                Some(None)
            } else {
                Some(Some(total as u64))
            }
        },
        _ => {
            assert(clock_millis(c) >= digits_value(c.hours));
            assert(clock_millis(c) >= digits_value(c.minutes));
            assert(clock_millis(c) >= digits_value(c.seconds));
            Some(None)
        },
    }
}

pub proof fn lemma_run_in_class(s: Seq<char>, i: int, k: CharClass)
    requires
        0 <= i,
    ensures
        i + run_len(s, i, k) <= s.len() || run_len(s, i, k) == 0,
        forall|t: int| i <= t < i + run_len(s, i, k) ==> in_class(#[trigger] s[t], k),
    decreases s.len() - i,
{
    if 0 <= i < s.len() && in_class(s[i], k) {
        lemma_run_in_class(s, i + 1, k);
    }
}

/// A run ends where its class does.
pub proof fn lemma_run_stops(s: Seq<char>, i: int, k: CharClass)
    requires
        0 <= i,
        i + run_len(s, i, k) < s.len(),
    ensures
        !in_class(s[i + run_len(s, i, k)], k),
    decreases s.len() - i,
{
    if 0 <= i < s.len() && in_class(s[i], k) {
        lemma_run_stops(s, i + 1, k);
    }
}

/// The first clock after an occurrence of `key`, read as `read_clock` does.
pub fn first_clock(s: &str, key: &str) -> (r: Option<Option<u64>>)
    ensures
        clock_read(find_clock(s@, key@, 0), r),
{
    let len = s.unicode_len();
    let klen = key.unicode_len();
    let mut i: usize = 0;
    loop
        invariant
            len == s@.len(),
            klen == key@.len(),
            i <= len,
            find_clock(s@, key@, 0) == find_clock(s@, key@, i as int),
        decreases len - i,
    {
        if has_key_at(s, len, i, key) {
            let c = read_clock(s, len, i + klen);
            if c.is_some() {
                return c;
            }
        }
        if i == len {
            return None;
        }
        i = i + 1;
    }
}

fn read_token(s: &str, len: usize, p: usize, k: CharClass, tail: &str) -> (r: Option<String>)
    requires
        len == s@.len(),
        p <= len,
    ensures
        match token_from(s@, p as int, k, tail@) {
            None => r is None,
            Some(t) => r is Some && r->0@ == t,
        },
{
    let q = run_end(s, len, p, CharClass::Space);
    let e = run_end(s, len, q, k);
    let tlen = tail.unicode_len();
    if e == q {
        return None;
    }
    if tlen != 0 && !has_key_at(s, len, e, tail) {
        return None;
    }
    Some(String::from_str(s.substring_char(q, e + tlen)))
}

/// The first token after an occurrence of `key`, as `find_token` gives it.
pub fn first_token(s: &str, key: &str, k: CharClass, tail: &str) -> (r: Option<String>)
    ensures
        match find_token(s@, key@, k, tail@, 0) {
            None => r is None,
            Some(t) => r is Some && r->0@ == t,
        },
{
    let len = s.unicode_len();
    let klen = key.unicode_len();
    let mut i: usize = 0;
    loop
        invariant
            len == s@.len(),
            klen == key@.len(),
            i <= len,
            find_token(s@, key@, k, tail@, 0) == find_token(s@, key@, k, tail@, i as int),
        decreases len - i,
    {
        if has_key_at(s, len, i, key) {
            let t = read_token(s, len, i + klen, k, tail);
            if t.is_some() {
                return t;
            }
        }
        if i == len {
            return None;
        }
        i = i + 1;
    }
}

pub open spec fn all_digits(d: Seq<char>) -> bool {
    forall|t: int| 0 <= t < d.len() ==> is_digit(#[trigger] d[t])
}

/// A text made of `pre`, then `key` and the clock `h:m:sec.frac`, then `rest`.
pub open spec fn clock_line(
    pre: Seq<char>,
    key: Seq<char>,
    h: Seq<char>,
    m: Seq<char>,
    sec: Seq<char>,
    frac: Seq<char>,
    rest: Seq<char>,
) -> Seq<char> {
    pre + key + h + seq![':'] + m + seq![':'] + sec + seq!['.'] + frac + rest
}

proof fn lemma_run_exact(s: Seq<char>, i: int, j: int, k: CharClass)
    requires
        0 <= i <= j <= s.len(),
        forall|t: int| i <= t < j ==> in_class(#[trigger] s[t], k),
        j == s.len() || !in_class(s[j], k),
    ensures
        run_len(s, i, k) == j - i,
    decreases j - i,
{
    if i < j {
        lemma_run_exact(s, i + 1, j, k);
    }
}

proof fn lemma_find_clock_skip(s: Seq<char>, key: Seq<char>, i: int, j: int)
    requires
        0 <= i <= j <= s.len(),
        forall|t: int| i <= t < j ==> !key_at(s, t, key),
    ensures
        find_clock(s, key, i) == find_clock(s, key, j),
    decreases j - i,
{
    if i < j {
        lemma_find_clock_skip(s, key, i + 1, j);
    }
}

/// Where `key` first occurs in front of a well-formed clock, that clock is
/// the one found.
pub proof fn lemma_clock_line(
    pre: Seq<char>,
    key: Seq<char>,
    h: Seq<char>,
    m: Seq<char>,
    sec: Seq<char>,
    frac: Seq<char>,
    rest: Seq<char>,
)
    requires
        h.len() > 0 && m.len() > 0 && sec.len() > 0,
        all_digits(h) && all_digits(m) && all_digits(sec) && all_digits(frac),
        rest.len() == 0 || !is_digit(rest[0]),
        forall|t: int|
            0 <= t < pre.len() ==> !key_at(clock_line(pre, key, h, m, sec, frac, rest), t, key),
    ensures
        find_clock(clock_line(pre, key, h, m, sec, frac, rest), key, 0) == Some(
            ClockText { hours: h, minutes: m, seconds: sec, fraction: frac },
        ),
{
    let s = clock_line(pre, key, h, m, sec, frac, rest);
    let p: int = pre.len() as int + key.len();
    let p2: int = p + h.len();
    let p3: int = p2 + 1 + m.len();
    let p4: int = p3 + 1 + sec.len();
    let p5: int = p4 + 1 + frac.len();
    assert(s.subrange(pre.len() as int, p) =~= key);
    assert(s.subrange(p, p2) =~= h);
    assert(s.subrange(p2 + 1, p3) =~= m);
    assert(s.subrange(p3 + 1, p4) =~= sec);
    assert(s.subrange(p4 + 1, p5) =~= frac);
    assert(s[p2] == ':');
    assert(s[p3] == ':');
    assert(s[p4] == '.');
    assert forall|t: int| p <= t < p2 implies in_class(#[trigger] s[t], CharClass::Digit) by {
        assert(s[t] == s.subrange(p, p2)[t - p]);
    }
    assert forall|t: int| p2 + 1 <= t < p3 implies in_class(#[trigger] s[t], CharClass::Digit) by {
        assert(s[t] == s.subrange(p2 + 1, p3)[t - p2 - 1]);
    }
    assert forall|t: int| p3 + 1 <= t < p4 implies in_class(#[trigger] s[t], CharClass::Digit) by {
        assert(s[t] == s.subrange(p3 + 1, p4)[t - p3 - 1]);
    }
    assert forall|t: int| p4 + 1 <= t < p5 implies in_class(#[trigger] s[t], CharClass::Digit) by {
        assert(s[t] == s.subrange(p4 + 1, p5)[t - p4 - 1]);
    }
    if p5 < s.len() {
        assert(s[p5] == rest[0]);
    }
    lemma_run_exact(s, p, p2, CharClass::Digit);
    lemma_run_exact(s, p2 + 1, p3, CharClass::Digit);
    lemma_run_exact(s, p3 + 1, p4, CharClass::Digit);
    lemma_run_exact(s, p4 + 1, p5, CharClass::Digit);
    lemma_find_clock_skip(s, key, 0, pre.len() as int);
}

/// A text in which `key` never occurs holds no clock after it.
pub proof fn lemma_no_key_no_clock(s: Seq<char>, key: Seq<char>)
    requires
        forall|t: int| 0 <= t <= s.len() ==> !key_at(s, t, key),
    ensures
        find_clock(s, key, 0) is None,
{
    lemma_find_clock_skip(s, key, 0, s.len() as int);
    assert(find_clock(s, key, s.len() as int + 1) is None);
}

} // verus!
